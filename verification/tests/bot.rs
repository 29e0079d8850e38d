use dsa::bot::commands::{AnalyzeCommand, BuiltinCommand, HelpCommand, LatestAnalysis};
use dsa::bot::dispatcher::{BotContext, BotDispatcher, Dispatch};
use dsa::bot::platforms::{DingTalkAdapter, DiscordAdapter, FeishuAdapter};
use dsa::json::JsonValue;

fn s(text: &str) -> JsonValue {
    JsonValue::Str(text.to_string())
}

fn obj(members: Vec<(&str, JsonValue)>) -> JsonValue {
    JsonValue::Object(members.into_iter().map(|(k, v)| (k.to_string(), v)).collect())
}

fn ctx(platform: &str) -> BotContext {
    BotContext {
        platform: platform.to_string(),
        user_id: "u1".to_string(),
        chat_id: "c1".to_string(),
        is_admin: false,
    }
}

fn text_of(v: Option<&JsonValue>) -> Option<String> {
    v.and_then(|x| x.as_str())
}

#[test]
fn test_parse_command() {
    assert_eq!(
        BotDispatcher::parse_command("/analyze 600519"),
        ("analyze".to_string(), "600519".to_string())
    );
    assert_eq!(BotDispatcher::parse_command("/help"), ("help".to_string(), "".to_string()));
    assert_eq!(BotDispatcher::parse_command("/market  "), ("market".to_string(), "".to_string()));
    assert_eq!(
        BotDispatcher::parse_command("/ask how is AAPL?"),
        ("ask".to_string(), "how is AAPL?".to_string())
    );
}

#[test]
fn test_nl_fallback() {
    let msg = BotDispatcher::nl_fallback_message();
    assert!(msg.contains("/help"));
}

#[test]
fn test_dispatch_unknown_command() {
    let mut dispatcher = BotDispatcher::new();
    match dispatcher.route_at("/unknown", "u1", 1000) {
        Dispatch::Reply(text) => {
            assert!(text.contains("未知命令"));
            assert!(text.starts_with("❓ 未知命令: /unknown"));
        }
        Dispatch::Run { .. } => panic!("an unknown command is not run"),
    }
}

#[test]
fn test_dispatch_non_command() {
    let mut dispatcher = BotDispatcher::new();
    match dispatcher.route_at("hello world", "u1", 1000) {
        Dispatch::Reply(text) => assert!(text.contains("/help")),
        Dispatch::Run { .. } => panic!("plain text is not a command"),
    }
}

#[test]
fn test_list_commands() {
    let dispatcher = BotDispatcher::new();
    let cmds = dispatcher.list_commands();
    assert!(!cmds.is_empty());
    let names: Vec<String> = cmds.iter().filter_map(|v| text_of(v.get("name"))).collect();
    assert!(names.contains(&"help".to_string()));
    assert!(names.contains(&"analyze".to_string()));
    assert!(names.contains(&"market".to_string()));
}

#[test]
fn test_rate_limit() {
    let mut dispatcher = BotDispatcher::new();
    assert!(dispatcher.check_rate_limit("user1"));
    // Second call within window should be rejected
    assert!(!dispatcher.check_rate_limit("user1"));
    // Different user should pass
    assert!(dispatcher.check_rate_limit("user2"));
}

#[test]
fn rate_limit_window_reopens_after_two_seconds() {
    let mut dispatcher = BotDispatcher::new();
    assert!(dispatcher.check_rate_limit_at("u", 100));
    assert!(!dispatcher.check_rate_limit_at("u", 101));
    assert!(dispatcher.check_rate_limit_at("u", 102));
    assert!(!dispatcher.check_rate_limit_at("u", 103));
}

#[test]
fn route_runs_registered_command_with_arguments() {
    let mut dispatcher = BotDispatcher::new();
    match dispatcher.route_at("  /analyze 600519 ", "u1", 10) {
        Dispatch::Run { command, args } => {
            assert!(command == BuiltinCommand::Analyze);
            assert_eq!(args, "600519");
        }
        Dispatch::Reply(_) => panic!("a registered command runs"),
    }
    match dispatcher.route_at("/help", "u1", 11) {
        Dispatch::Reply(text) => assert_eq!(text, "⏳ 操作过快，请稍后再试"),
        Dispatch::Run { .. } => panic!("the second command within the window is refused"),
    }
}

#[test]
fn help_lists_every_command() {
    let text = HelpCommand.execute();
    for name in ["/help", "/status", "/analyze", "/market", "/ask", "/chat", "/history"] {
        assert!(text.contains(name), "{} missing", name);
    }
}

#[test]
fn test_dingtalk_parse_message() {
    let adapter = DingTalkAdapter::new("https://example.com/webhook", "secret123");
    let body = obj(vec![
        ("msgtype", s("text")),
        ("text", obj(vec![("content", s("/help"))])),
        ("senderStaffId", s("user001")),
        ("conversationId", s("conv001")),
        ("isAdmin", JsonValue::Bool(true)),
    ]);

    let msg = adapter.parse_message(&body);
    assert_eq!(msg.text, "/help");
    assert_eq!(msg.user_id, "user001");
    assert_eq!(msg.chat_id, "conv001");
    assert!(msg.is_admin);
    assert_eq!(msg.platform, "dingtalk");
}

#[test]
fn test_dingtalk_format_response() {
    let adapter = DingTalkAdapter::new("https://example.com/webhook", "secret123");
    let resp = adapter.format_response("Hello", &ctx("dingtalk"));
    assert_eq!(text_of(resp.get("msgtype")), Some("markdown".to_string()));
}

#[test]
fn test_dingtalk_compute_sign_deterministic() {
    let adapter = DingTalkAdapter::new("https://example.com/webhook", "secret123");
    let sign1 = adapter.compute_sign("1609459200000");
    let sign2 = adapter.compute_sign("1609459200000");
    assert_eq!(sign1, sign2, "相同输入应产生相同签名");
}

#[test]
fn dingtalk_sign_depends_on_timestamp_and_secret() {
    let a = DingTalkAdapter::new("https://example.com/webhook", "secret123");
    let b = DingTalkAdapter::new("https://example.com/webhook", "other");
    assert_ne!(a.compute_sign("1609459200000"), a.compute_sign("1609459200001"));
    assert_ne!(a.compute_sign("1609459200000"), b.compute_sign("1609459200000"));
    assert!(a.compute_sign("1").chars().all(|c| c.is_ascii_hexdigit() && !c.is_ascii_uppercase()));
}

#[test]
fn test_feishu_parse_message() {
    let adapter = FeishuAdapter::new("https://example.com/webhook", "app_id", "app_secret", "token123");
    let body = obj(vec![(
        "event",
        obj(vec![
            (
                "message",
                obj(vec![("content", s("{\"text\":\"/market\"}")), ("chat_id", s("oc_xxx"))]),
            ),
            ("sender", obj(vec![("sender_id", obj(vec![("user_id", s("ou_xxx"))]))])),
        ]),
    )]);

    let msg = adapter.parse_message(&body);
    assert_eq!(msg.text, "/market");
    assert_eq!(msg.user_id, "ou_xxx");
    assert_eq!(msg.chat_id, "oc_xxx");
    assert_eq!(msg.platform, "feishu");
}

#[test]
fn test_feishu_verify_request_with_token() {
    let adapter = FeishuAdapter::new("https://example.com/webhook", "app_id", "app_secret", "token123");
    let headers = obj(vec![("verification_token", s("token123"))]);
    assert!(adapter.verify_request(&headers, &JsonValue::Null));
}

#[test]
fn test_feishu_verify_request_wrong_token() {
    let adapter = FeishuAdapter::new("https://example.com/webhook", "app_id", "app_secret", "token123");
    let headers = obj(vec![("verification_token", s("wrong_token"))]);
    assert!(!adapter.verify_request(&headers, &JsonValue::Null));
}

#[test]
fn test_feishu_verify_request_empty_config() {
    let adapter = FeishuAdapter::new("https://example.com/webhook", "app_id", "app_secret", "");
    let headers = obj(vec![]);
    // 未配置 token 应跳过验证(返回 true)
    assert!(adapter.verify_request(&headers, &JsonValue::Null));
}

#[test]
fn test_discord_parse_message() {
    let adapter = DiscordAdapter::new("https://example.com/webhook", "bot_token", "public_key");
    let body = obj(vec![
        ("type", JsonValue::Number("1".to_string())),
        ("data", obj(vec![("content", s("/analyze 600519"))])),
        (
            "member",
            obj(vec![("user", obj(vec![("id", s("123456789"))])), ("permissions", s("8"))]),
        ),
        ("channel_id", s("987654321")),
    ]);

    let msg = adapter.parse_message(&body);
    assert_eq!(msg.text, "/analyze 600519");
    assert_eq!(msg.user_id, "123456789");
    assert_eq!(msg.chat_id, "987654321");
    assert!(msg.is_admin); // 0x8 = ADMINISTRATOR
}

#[test]
fn test_discord_parse_message_non_admin() {
    let adapter = DiscordAdapter::new("https://example.com/webhook", "bot_token", "public_key");
    let body = obj(vec![
        ("type", JsonValue::Number("1".to_string())),
        ("data", obj(vec![("content", s("/help"))])),
        ("member", obj(vec![("user", obj(vec![("id", s("111"))])), ("permissions", s("4"))])),
        ("channel_id", s("222")),
    ]);

    let msg = adapter.parse_message(&body);
    assert!(!msg.is_admin);
}

#[test]
fn test_discord_verify_request_valid_headers() {
    let adapter = DiscordAdapter::new("https://example.com/webhook", "bot_token", "public_key");
    let headers = obj(vec![
        ("X-Signature-Ed25519", s("somesig")),
        ("X-Signature-Timestamp", s("1609459200")),
    ]);
    assert!(adapter.verify_request(&headers, &JsonValue::Null));
}

#[test]
fn test_discord_verify_request_missing_headers() {
    let adapter = DiscordAdapter::new("https://example.com/webhook", "bot_token", "public_key");
    let headers = obj(vec![]);
    assert!(!adapter.verify_request(&headers, &JsonValue::Null));
}

#[test]
fn test_discord_format_response() {
    let adapter = DiscordAdapter::new("https://example.com/webhook", "bot_token", "public_key");
    let resp = adapter.format_response("Hello Discord", &ctx("discord"));
    // type 4 = CHANNEL_MESSAGE_WITH_SOURCE
    let kind = match resp.get("type") {
        Some(JsonValue::Number(n)) => n.parse::<f64>().ok(),
        _ => None,
    };
    assert_eq!(kind, Some(4.0));
    let content = resp.get("data").and_then(|d| d.get("content")).and_then(|v| v.as_str());
    assert_eq!(content, Some("Hello Discord".to_string()));
}

#[test]
fn discord_permissions_are_read_as_hex() {
    let adapter = DiscordAdapter::new("https://example.com/webhook", "bot_token", "public_key");
    let body = obj(vec![
        ("data", obj(vec![("content", s("/help"))])),
        ("member", obj(vec![("user", obj(vec![("id", s("1"))])), ("permissions", s("1f"))])),
        ("channel_id", s("2")),
    ]);
    assert!(adapter.parse_message(&body).is_admin);
    let not_hex = obj(vec![
        ("data", obj(vec![("content", s("/help"))])),
        ("member", obj(vec![("user", obj(vec![("id", s("1"))])), ("permissions", s("zz"))])),
        ("channel_id", s("2")),
    ]);
    assert!(!adapter.parse_message(&not_hex).is_admin);
}

fn latest(summary: &str) -> LatestAnalysis {
    LatestAnalysis {
        stock_name: "茅台".to_string(),
        sentiment_score: "80".to_string(),
        decision_type: "buy".to_string(),
        operation_advice: "持有".to_string(),
        analysis_summary: summary.to_string(),
        create_time: "2024-01-02".to_string(),
    }
}

#[test]
fn long_summaries_are_cut_on_a_character_boundary() {
    let cmd = AnalyzeCommand;
    // 100 three-byte characters: byte 200 falls inside the 67th.
    let summary: String = std::iter::repeat('析').take(100).collect();
    let reply = cmd.latest_reply(&latest(&summary), "600519", "sh600519");
    let tail = reply.split("📝 摘要: ").nth(1).unwrap();
    let expected: String = std::iter::repeat('析').take(66).collect::<String>() + "...";
    assert_eq!(tail, expected);
    assert!(tail.len() - 3 <= 200);
    // An ASCII summary is cut at exactly 200 bytes.
    let ascii = "a".repeat(250);
    let reply = cmd.latest_reply(&latest(&ascii), "600519", "sh600519");
    assert!(reply.ends_with(&format!("{}...", "a".repeat(200))));
    // A short one is kept whole.
    let reply = cmd.latest_reply(&latest("短"), "600519", "sh600519");
    assert!(reply.ends_with("📝 摘要: 短"));
}
