use dsa::json::JsonValue;
use dsa::server::analysis_stream::{
    failure_message, status_message, stream_step, SseMessage, StreamEvent, StreamFailure, StreamPhase, StreamSession,
    StreamStage, StreamState,
};
use dsa::server::auth::{endpoint, login_body, login_step, visitor_fields, LoginRequest, LoginStep};
use dsa::server::config::{CorsPolicy, ServerConfig};
use dsa::server::proxy::{
    content_type, domain_not_allowed_error, failure_code, host_of, http_method, is_url_allowed, proxy_outcome, HttpMethod,
    ProxyReply,
};
use dsa::server::router::{effective_method, route_module, unknown_module_error, ApiModule};
use dsa::server::stream::{check_stream_auth, estimate_tokens};
use dsa::server::strip_auth::{set_local_mode, StripAuth};

fn s(text: &str) -> JsonValue {
    JsonValue::Str(text.to_string())
}

fn obj(members: Vec<(&str, JsonValue)>) -> JsonValue {
    JsonValue::Object(members.into_iter().map(|(k, v)| (k.to_string(), v)).collect())
}

#[test]
fn proxy_allows_only_the_account_host() {
    assert!(is_url_allowed("https://auth.htui.cc/api/pas/login"));
    assert!(is_url_allowed("http://x.auth.htui.cc"));
    assert!(!is_url_allowed("https://evil.com/auth.htui.cc"));
    assert!(!is_url_allowed("https://notauth.htui.cc/"));
    assert!(!is_url_allowed("ftp://auth.htui.cc/"));
    assert_eq!(host_of("https://auth.htui.cc/a/b"), Some("auth.htui.cc".to_string()));
    assert_eq!(host_of("mailto:x"), None);
}

#[test]
fn proxy_failures_and_methods() {
    let e = domain_not_allowed_error("https://evil.com");
    assert_eq!(e, "Domain not allowed: https://evil.com");
    assert_eq!(failure_code(&e), 403);
    assert_eq!(failure_code("timeout"), 500);
    assert!(http_method("get") == HttpMethod::Get);
    assert!(http_method("Delete") == HttpMethod::Delete);
    assert!(http_method("options") == HttpMethod::Post);
    let headers = vec![("Accept".to_string(), "*/*".to_string())];
    assert_eq!(content_type(&headers), "application/json");
    let headers = vec![("Content-Type".to_string(), "text/plain".to_string())];
    assert_eq!(content_type(&headers), "text/plain");
}

#[test]
fn stream_authorisation() {
    assert!(check_stream_auth(false, None, None, None).is_ok());
    assert!(check_stream_auth(true, Some("Bearer abc"), None, Some("abc")).is_ok());
    assert!(check_stream_auth(true, Some("Bearer abd"), None, Some("abc")).is_err());
    assert!(check_stream_auth(true, None, Some("x=1&token=abc"), Some("abc")).is_ok());
    assert!(check_stream_auth(true, None, Some("token=abcd"), Some("abc")).is_err());
    assert_eq!(check_stream_auth(true, None, None, Some("abc")), Err("未授权访问"));
}

#[test]
fn token_estimates() {
    assert_eq!(estimate_tokens(""), 0);
    assert_eq!(estimate_tokens("abcd"), 1);
    assert_eq!(estimate_tokens("abcde"), 2);
    assert_eq!(estimate_tokens("中文"), 3);
    assert_eq!(estimate_tokens("a中"), 2);
}

#[test]
fn module_routing() {
    assert!(route_module("Stock") == Some(ApiModule::Stock));
    assert!(route_module("decision_extractor") == Some(ApiModule::DecisionExtractor));
    assert!(route_module("nothing").is_none());
    assert_eq!(effective_method("get", "a/b/c"), "a.b.c");
    assert_eq!(effective_method("get", ""), "get");
    assert_eq!(effective_method("post", "a/b"), "post");
    assert_eq!(unknown_module_error("x", "y"), "请求方法x.y系统未提供。");
}

#[test]
fn local_mode_strips_authorization() {
    let mut auth = StripAuth::new();
    assert!(auth.local_mode);
    let headers = vec![
        ("AUTHORIZATION".to_string(), "Bearer t".to_string()),
        ("Accept".to_string(), "*/*".to_string()),
    ];
    let kept = auth.new_transform().strip(headers.clone());
    assert_eq!(kept, vec![("Accept".to_string(), "*/*".to_string())]);
    set_local_mode(&mut auth, false);
    assert_eq!(auth.new_transform().strip(headers.clone()), headers);
}

#[test]
fn account_service_replies() {
    assert_eq!(endpoint("/login"), "https://auth.htui.cc/api/pas/login");
    let body = login_body(&LoginRequest { mobile: "138".to_string(), password: "pw".to_string() });
    assert_eq!(body.get("mobile").and_then(|v| v.as_str()), Some("138".to_string()));
    let refused = obj(vec![("message", s("bad"))]);
    assert!(matches!(login_step(&refused), LoginStep::Refused { message } if message == "bad"));
    assert!(matches!(login_step(&obj(vec![])), LoginStep::Refused { message } if message == "登录失败"));
    let ok = obj(vec![("result", obj(vec![("token", s("rt"))]))]);
    assert!(matches!(login_step(&ok), LoginStep::Accepted { remote_token } if remote_token == "rt"));
    let user = obj(vec![
        ("id", JsonValue::Number("42".to_string())),
        ("mobile", s("138")),
        ("nickname", s("nick")),
        ("avatar_url", s("a.png")),
    ]);
    let f = visitor_fields(&user);
    assert_eq!((f.id, f.mobile.as_str(), f.name.as_str(), f.avatar.as_str()), (42, "138", "nick", "a.png"));
}

#[test]
fn server_config() {
    let c = ServerConfig { host: "0.0.0.0".to_string(), port: 8080, cors_origins: vec![], static_dir: None };
    assert_eq!(c.bind_address(), "0.0.0.0:8080");
    assert_eq!(c.static_dir_or_default(), "./web/dist");
    assert!(matches!(c.cors_policy(), CorsPolicy::AllowAny));
    let c = ServerConfig {
        host: "h".to_string(),
        port: 0,
        cors_origins: vec!["https://a".to_string()],
        static_dir: Some("/srv".to_string()),
    };
    assert_eq!(c.bind_address(), "h:0");
    assert!(matches!(c.cors_policy(), CorsPolicy::Origins(o) if o == vec!["https://a".to_string()]));
}

#[test]
fn analysis_stream_messages() {
    let m = failure_message(StreamFailure::Kline, "timeout");
    assert_eq!((m.kind, m.content.as_str()), ("error", "获取K线失败: timeout"));
    assert_eq!(failure_message(StreamFailure::NoCode, "ignored").content, "请提供股票代码");
    assert_eq!(status_message(StreamStage::Analysing).content, "正在进行AI分析...");
    let mut session = StreamSession::new();
    let a = session.on_chunk("你好", false);
    assert_eq!(a.len(), 1);
    assert_eq!((a[0].kind, a[0].content.as_str()), ("text", "你好"));
    let b = session.on_chunk("", true);
    assert_eq!(b.len(), 1);
    assert_eq!((b[0].kind, b[0].content.as_str()), ("complete", "你好"));
    assert_eq!(session.token_usage(Some((10, 20))), (10, 20));
    assert_eq!(session.token_usage(None), (3, 3));
}

#[test]
fn chat_request_and_reply() {
    let req = dsa::server::chat::chat_request("deepseek-chat", "你好");
    assert_eq!(req.get("model").and_then(|v| v.as_str()), Some("deepseek-chat".to_string()));
    match req.get("messages") {
        Some(JsonValue::Array(items)) => {
            assert_eq!(items.len(), 1);
            assert_eq!(items[0].get("role").and_then(|v| v.as_str()), Some("user".to_string()));
            assert_eq!(items[0].get("content").and_then(|v| v.as_str()), Some("你好".to_string()));
        }
        _ => panic!("messages is an array"),
    }
    let resp = obj(vec![(
        "choices",
        JsonValue::Array(vec![obj(vec![("message", obj(vec![("content", s("答案"))]))])]),
    )]);
    assert_eq!(dsa::server::chat::reply_text(&resp), "答案");
    assert_eq!(dsa::server::chat::reply_text(&obj(vec![("choices", JsonValue::Array(vec![]))])), "");
    assert_eq!(
        dsa::server::chat::chat_failure_message(dsa::server::chat::ChatFailure::NoApiKey),
        "API Key未配置"
    );
}

fn kinds(msgs: &[SseMessage]) -> Vec<(String, String)> {
    msgs.iter().map(|m| (m.kind.to_string(), m.content.clone())).collect()
}

fn run(events: Vec<StreamEvent>) -> (StreamState, Vec<(String, String)>) {
    let mut state = StreamState { phase: StreamPhase::Start, content: String::new() };
    let mut sent = Vec::new();
    for e in events {
        let (next, msgs) = stream_step(&state, e);
        sent.extend(kinds(&msgs));
        state = next;
    }
    (state, sent)
}

fn pair(kind: &str, content: &str) -> (String, String) {
    (kind.to_string(), content.to_string())
}

#[test]
fn a_streamed_analysis_sends_its_events_in_order() {
    let (state, sent) = run(vec![
        StreamEvent::Begin { code_given: true, key_given: true },
        StreamEvent::DataReady,
        StreamEvent::ModelReady,
        StreamEvent::Chunk { text: "买".to_string(), is_over: false },
        StreamEvent::Chunk { text: String::new(), is_over: false },
        StreamEvent::Chunk { text: "入".to_string(), is_over: true },
        StreamEvent::Replied { report: None },
        StreamEvent::Chunk { text: "late".to_string(), is_over: true },
    ]);
    assert!(state.phase == StreamPhase::Finished);
    assert_eq!(state.content, "买入");
    assert_eq!(
        sent,
        vec![
            pair("status", "正在获取行情数据..."),
            pair("status", "正在进行AI分析..."),
            pair("text", "买"),
            pair("text", "入"),
            pair("complete", "买入"),
            pair("raw", "买入"),
            pair("done", "{}"),
        ]
    );
}

#[test]
fn a_streamed_analysis_stops_at_its_first_failure() {
    let (_, sent) = run(vec![StreamEvent::Begin { code_given: false, key_given: true }, StreamEvent::DataReady]);
    assert_eq!(sent, vec![pair("error", "请提供股票代码"), pair("done", "{}")]);
    let (_, sent) = run(vec![StreamEvent::Begin { code_given: true, key_given: false }]);
    assert_eq!(sent, vec![pair("error", "API Key 未配置"), pair("done", "{}")]);
    let (state, sent) = run(vec![
        StreamEvent::Begin { code_given: true, key_given: true },
        StreamEvent::Failed { failure: StreamFailure::Kline, detail: "timeout".to_string() },
        StreamEvent::DataReady,
        StreamEvent::Replied { report: Some("{}".to_string()) },
    ]);
    assert!(state.phase == StreamPhase::Finished);
    assert_eq!(
        sent,
        vec![pair("status", "正在获取行情数据..."), pair("error", "获取K线失败: timeout"), pair("done", "{}")]
    );
    let (_, sent) = run(vec![
        StreamEvent::Begin { code_given: true, key_given: true },
        StreamEvent::DataReady,
        StreamEvent::ModelReady,
        StreamEvent::Chunk { text: "x".to_string(), is_over: true },
        StreamEvent::Replied { report: Some("{\"type\":\"report\"}".to_string()) },
    ]);
    assert_eq!(sent[sent.len() - 2], pair("report", "{\"type\":\"report\"}"));
}

#[test]
fn proxied_replies_are_errors_or_json() {
    match proxy_outcome(404, "Not Found", "nope") {
        ProxyReply::Failed(m) => assert_eq!(m, "Remote returned error: 404 Not Found - nope"),
        _ => panic!("expected an error"),
    }
    match proxy_outcome(200, "OK", "{\"a\": 1}") {
        ProxyReply::Parsed(JsonValue::Object(members)) => assert_eq!(members[0].0, "a"),
        _ => panic!("expected an object"),
    }
    assert!(matches!(proxy_outcome(200, "OK", "not json"), ProxyReply::NotJson));
    assert!(matches!(proxy_outcome(399, "", "[]"), ProxyReply::Parsed(JsonValue::Array(_))));
}
