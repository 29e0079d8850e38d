use dsa::json::JsonValue;
use dsa::services::alert::{AlertService, Light, RuleCheck, RuleRun};
use dsa::services::analysis::{AnalysisService, ReportKey};
use dsa::services::auth::{constant_time_eq, AuthService, LoginReply, PasswordStore};
use dsa::services::backtest::{Band, BacktestService, Direction, Outcome, Sign};
use dsa::services::decision::{reassess, DecisionExtractor, DecisionService, LevelMark, NewSignal, Reassessment, SignalStatus};
use dsa::services::delivery::{Delivery, EmailProvider};
use dsa::services::error::ServiceError;
use dsa::services::intelligence::{is_safe_url, IntelligenceService, SourceKind};
use dsa::services::market::{ChangeLevel, MarketContext, MarketPhase, MaReading, Rel, Severity};
use dsa::services::name_resolver::{Lookup, NameResolverService};
use dsa::services::notification::{Channel, NotificationConfig, NotificationService, SendOutcome};
use dsa::services::portfolio::{
    extract_json_array, open_positions, parse_trade_date, plan_sale, replay_positions, trade_date_from, PortfolioService,
    TradeLeg,
};
use dsa::services::report::{markdown_to_html_preview, AnalysisRow, ComparisonRow, ReportService};
use dsa::services::scheduler::{SchedulerService, SchedulerState};

fn empty_config() -> NotificationConfig {
    NotificationConfig {
        dingtalk_webhook: String::new(),
        feishu_webhook: String::new(),
        wecom_webhook: String::new(),
        telegram_bot_token: String::new(),
        telegram_chat_id: String::new(),
        bark_url: String::new(),
        email_smtp_host: String::new(),
        email_from: String::new(),
        email_to: String::new(),
        discord_webhook: String::new(),
        slack_webhook: String::new(),
        pushover_user_key: String::new(),
        pushover_api_token: String::new(),
        pushplus_token: String::new(),
        serverchan_token: String::new(),
        ntfy_topic: String::new(),
        ntfy_server: String::new(),
        gotify_server: String::new(),
        gotify_app_token: String::new(),
        custom_webhook_url: String::new(),
        quiet_hours_start: 0,
        quiet_hours_end: 0,
    }
}

fn validation(r: Result<(), ServiceError>) -> Option<String> {
    match r {
        Err(ServiceError::Validation(m)) => Some(m),
        _ => None,
    }
}

fn str_member(v: &JsonValue, path: &[&str]) -> Option<String> {
    let mut cur = v;
    for k in path {
        cur = cur.get(k)?;
    }
    cur.as_str()
}

// ---- notification -------------------------------------------------------

#[test]
fn critical_goes_to_every_configured_channel() {
    let mut cfg = empty_config();
    cfg.dingtalk_webhook = "https://oapi.dingtalk.com/robot/send?access_token=x".to_string();
    cfg.bark_url = "https://api.day.app/key".to_string();
    cfg.email_smtp_host = "smtp.example.com".to_string();
    let svc = NotificationService::new(cfg);
    let critical = svc.route("critical");
    assert!(critical == vec![Channel::DingTalk, Channel::Bark, Channel::Email]);
    let warning = svc.route("warning");
    assert!(warning == vec![Channel::DingTalk, Channel::Email]);
    assert!(svc.route("info") == vec![Channel::Log]);
    assert!(svc.route("anything") == vec![Channel::Log]);
}

#[test]
fn quiet_hours_hold_back_info_and_warning_only() {
    let mut cfg = empty_config();
    cfg.quiet_hours_start = 23;
    cfg.quiet_hours_end = 7;
    let svc = NotificationService::new(cfg);
    assert!(svc.should_suppress("info", 23));
    assert!(svc.should_suppress("warning", 3));
    assert!(!svc.should_suppress("info", 7));
    assert!(!svc.should_suppress("info", 12));
    assert!(!svc.should_suppress("critical", 2));

    let mut same_day = empty_config();
    same_day.quiet_hours_start = 1;
    same_day.quiet_hours_end = 5;
    let svc = NotificationService::new(same_day);
    assert!(svc.should_suppress("info", 1));
    assert!(!svc.should_suppress("info", 5));
    assert!(!svc.should_suppress("info", 0));

    let mut none = empty_config();
    none.quiet_hours_start = 4;
    none.quiet_hours_end = 4;
    assert!(!NotificationService::new(none).should_suppress("info", 4));
}

#[test]
fn unconfigured_channel_is_skipped_with_reason() {
    let svc = NotificationService::new(empty_config());
    match svc.send("dingtalk", "critical", 10, "", "t", "c") {
        SendOutcome::Sent { channel, delivery: Delivery::Skipped(reason) } => {
            assert!(channel == Channel::DingTalk);
            assert_eq!(reason, "钉钉webhook未配置");
        }
        _ => panic!("expected a skipped delivery"),
    }
    let mut cfg = empty_config();
    cfg.telegram_bot_token = "tok".to_string();
    match NotificationService::new(cfg).send("telegram", "critical", 10, "", "t", "c") {
        SendOutcome::Sent { delivery: Delivery::Skipped(reason), .. } => assert_eq!(reason, "Telegram chat_id未配置"),
        _ => panic!("expected a skipped delivery"),
    }
}

#[test]
fn suppressed_send_in_quiet_hours() {
    let mut cfg = empty_config();
    cfg.quiet_hours_start = 22;
    cfg.quiet_hours_end = 6;
    let svc = NotificationService::new(cfg);
    assert!(matches!(svc.send("dingtalk", "info", 23, "", "t", "c"), SendOutcome::Suppressed));
    assert!(matches!(svc.send("dingtalk", "critical", 23, "", "t", "c"), SendOutcome::Sent { .. }));
}

#[test]
fn dingtalk_markdown_body() {
    let mut cfg = empty_config();
    cfg.dingtalk_webhook = "https://hook".to_string();
    match cfg.delivery(Channel::DingTalk, "", "标题", "内容") {
        Delivery::PostJson { url, bearer, body } => {
            assert_eq!(url, "https://hook");
            assert!(bearer.is_none());
            assert_eq!(str_member(&body, &["msgtype"]), Some("markdown".to_string()));
            assert_eq!(str_member(&body, &["markdown", "title"]), Some("标题".to_string()));
            assert_eq!(str_member(&body, &["markdown", "text"]), Some("### 标题\n\n内容".to_string()));
        }
        _ => panic!("expected a JSON post"),
    }
}

#[test]
fn telegram_wecom_and_gotify_requests() {
    let mut cfg = empty_config();
    cfg.telegram_bot_token = "123:abc".to_string();
    cfg.telegram_chat_id = "42".to_string();
    cfg.wecom_webhook = "https://wecom".to_string();
    cfg.gotify_server = "https://gotify.example.com//".to_string();
    cfg.gotify_app_token = "tk".to_string();
    match cfg.delivery(Channel::Telegram, "", "T", "C") {
        Delivery::PostJson { url, body, .. } => {
            assert_eq!(url, "https://api.telegram.org/bot123:abc/sendMessage");
            assert_eq!(str_member(&body, &["text"]), Some("*T*\n\nC".to_string()));
            assert_eq!(str_member(&body, &["chat_id"]), Some("42".to_string()));
        }
        _ => panic!("expected a JSON post"),
    }
    match cfg.delivery(Channel::WeCom, "", "T", "C") {
        Delivery::PostJson { body, .. } => {
            assert_eq!(str_member(&body, &["markdown", "content"]), Some("### T\n> C".to_string()));
        }
        _ => panic!("expected a JSON post"),
    }
    match cfg.delivery(Channel::Gotify, "", "T", "C") {
        Delivery::PostJson { url, body, .. } => {
            assert_eq!(url, "https://gotify.example.com/message?token=tk");
            assert!(matches!(body.get("priority"), Some(JsonValue::Number(n)) if n == "5"));
        }
        _ => panic!("expected a JSON post"),
    }
}

#[test]
fn bark_url_is_percent_encoded() {
    let mut cfg = empty_config();
    cfg.bark_url = "https://api.day.app/key/".to_string();
    match cfg.delivery(Channel::Bark, "", "a b/c", "价格~ok") {
        Delivery::Get { url } => {
            assert_eq!(url, "https://api.day.app/key/a%20b%2Fc/%E4%BB%B7%E6%A0%BC~ok");
        }
        _ => panic!("expected a GET"),
    }
}

#[test]
fn ntfy_defaults_to_public_server() {
    let mut cfg = empty_config();
    cfg.ntfy_topic = "alerts".to_string();
    match cfg.delivery(Channel::Ntfy, "", "T", "C") {
        Delivery::PostText { url, title, text } => {
            assert_eq!(url, "https://ntfy.sh/alerts");
            assert_eq!(title, "T");
            assert_eq!(text, "C");
        }
        _ => panic!("expected a text post"),
    }
}

#[test]
fn email_provider_follows_smtp_host() {
    let mut cfg = empty_config();
    cfg.email_from = "a@x.com".to_string();
    cfg.email_to = "b@y.com".to_string();
    cfg.email_smtp_host = "smtp.qq.com".to_string();
    assert!(matches!(cfg.delivery(Channel::Email, "k", "T", "C"), Delivery::Smtp));
    cfg.email_smtp_host = "MailGun:mg.example.com".to_string();
    match cfg.delivery(Channel::Email, "k", "T", "C") {
        Delivery::PostForm { url, basic_auth, fields } => {
            assert_eq!(url, "https://api.mailgun.net/v3/MailGun:mg.example.com/messages");
            assert_eq!(basic_auth, Some(("api".to_string(), "k".to_string())));
            assert_eq!(fields[2], ("subject".to_string(), "T".to_string()));
        }
        _ => panic!("expected a form post"),
    }
    cfg.email_smtp_host = "mailgun:".to_string();
    match cfg.delivery(Channel::Email, "k", "T", "C") {
        Delivery::Failed(m) => assert_eq!(m, "Mailgun域名未配置, 格式: mailgun:your-domain.com"),
        _ => panic!("expected a failure"),
    }
    cfg.email_smtp_host = "resend".to_string();
    match cfg.delivery(Channel::Email, "", "T", "C") {
        Delivery::Skipped(m) => assert_eq!(m, "Resend API Key未配置"),
        _ => panic!("expected a skip"),
    }
    let _ = EmailProvider::Smtp;
}

#[test]
fn channel_names_round_trip() {
    for c in [Channel::DingTalk, Channel::Feishu, Channel::Ntfy, Channel::CustomWebhook] {
        assert!(Channel::named(c.id()) == c);
    }
    assert!(Channel::named("pigeon") == Channel::Log);
    assert_eq!(NotificationService::new(empty_config()).channels().len(), 14);
}

// ---- report ---------------------------------------------------------------

fn row() -> AnalysisRow {
    AnalysisRow {
        stock_code: "600519".to_string(),
        stock_name: "贵州茅台".to_string(),
        market_context: String::new(),
        analysis_summary: "稳健".to_string(),
        decision_type: "buy".to_string(),
        confidence_level: "high".to_string(),
        risk_warning: "波动".to_string(),
        report_json: String::new(),
    }
}

#[test]
fn full_report_in_chinese() {
    let r = ReportService::new().render(&row(), "zh");
    assert_eq!(
        r.markdown,
        "# 600519 - 贵州茅台 买入\n\n## 市场概况\n\n-\n\n## 趋势分析\n\n稳健\n\n## 决策信号\n\n**买入** | 置信度: 高\n\n## 风险提示\n\n波动\n\n## 关键指标\n\n-\n"
    );
    assert_eq!(
        r.html_preview,
        "<h1>600519 - 贵州茅台 买入</h1>\n<h2>市场概况</h2>\n<p>-</p>\n<h2>趋势分析</h2>\n<p>稳健</p>\n<h2>决策信号</h2>\n<p><strong>买入</strong> | 置信度: 高</p>\n<h2>风险提示</h2>\n<p>波动</p>\n<h2>关键指标</h2>\n<p>-</p>\n"
    );
}

#[test]
fn brief_and_wechat_reports_in_english() {
    let svc = ReportService::new();
    let b = svc.render_brief(&row(), "en");
    assert_eq!(
        b.markdown,
        "# 600519 - 贵州茅台 Buy\n\n## Market Overview\n\n-\n\n## Decision Signal\n\n**Buy** | Confidence: High\n\n## Risk Warnings\n\n波动\n"
    );
    let w = svc.render_wechat(&row(), "en");
    assert_eq!(
        w,
        "600519 贵州茅台 | \u{1f7e2} Buy\n\nMarket Overview\n-\n\nDecision Signal Buy | Confidence: High\n\nRisk Warnings\n波动"
    );
}

#[test]
fn report_request_needs_code_or_id() {
    let svc = ReportService::new();
    assert_eq!(validation(svc.check_report_request("", 0)), Some("请提供code或analysis_id".to_string()));
    assert!(svc.check_report_request("", 5).is_ok());
    assert!(svc.check_report_request("600519", 0).is_ok());
}

#[test]
fn compare_summary_table() {
    let svc = ReportService::new();
    assert_eq!(svc.compare_summary(&vec![], "zh"), "-");
    let rows = vec![
        ComparisonRow {
            create_time: "2024-01-02".to_string(),
            decision_label: "买入".to_string(),
            confidence_label: String::new(),
        },
    ];
    assert_eq!(
        svc.compare_summary(&rows, "zh"),
        "| 日期 | 决策信号 | 置信度 |\n| --- | --- | --- |\n| 2024-01-02 | 买入 | - |"
    );
    assert_eq!(svc.compare_count(0, 3), 3);
    assert_eq!(svc.compare_count(5, 3), 5);
}

#[test]
fn labels_follow_language() {
    let svc = ReportService::new();
    let en = svc.labels("en");
    assert_eq!(en.len(), 21);
    assert_eq!(en[0], ("marketOverview", "Market Overview"));
    let zh = svc.labels("fr");
    assert_eq!(zh[5], ("buy", "买入"));
}

#[test]
fn html_preview_lines() {
    assert_eq!(markdown_to_html_preview("a\r\n\n## b\r\nc\r"), "<p>a</p>\n<h2>b</h2>\n<p>c\r</p>\n");
    assert_eq!(markdown_to_html_preview(""), "");
    assert_eq!(markdown_to_html_preview("**x** and **y**\n"), "<p><strong>x</strong> and <strong>y</strong></p>\n");
    assert_eq!(markdown_to_html_preview("**Buy** | x"), "<p><strong>Buy</strong> | x</p>\n");
    assert_eq!(markdown_to_html_preview("**a** b **"), "<p><strong>a</strong> b **</p>\n");
    assert_eq!(markdown_to_html_preview("***"), "<p>***</p>\n");
}

// ---- portfolio --------------------------------------------------------------

#[test]
fn json_array_is_cut_from_reply() {
    assert_eq!(extract_json_array("  [1, 2]  "), "[1, 2]");
    assert_eq!(extract_json_array("here: [[1], [2]] done ]"), "[[1], [2]]");
    assert_eq!(extract_json_array("no array"), "no array");
    assert_eq!(extract_json_array(" open [1, [2 "), "open [1, [2");
}

// ---- intelligence -----------------------------------------------------------

#[test]
fn safe_urls() {
    assert!(is_safe_url("https://example.com/rss"));
    assert!(is_safe_url("http://172.32.0.1/feed"));
    assert!(!is_safe_url("ftp://example.com"));
    assert!(!is_safe_url("http://localhost:8080/x"));
    assert!(!is_safe_url("http://127.0.0.1/"));
    assert!(!is_safe_url("https://10.1.2.3"));
    assert!(!is_safe_url("https://192.168.1.1/a"));
    assert!(!is_safe_url("https://169.254.169.254/latest"));
    assert!(!is_safe_url("http://172.16.0.1/"));
    assert!(!is_safe_url("http://[::1]:8080/admin"));
    assert!(!is_safe_url("http://[::1]/"));
    assert!(is_safe_url("http://[2001:db8::1]:8080/feed"));
    assert!(!is_safe_url("http://172.31.255.255:80/"));
    assert!(!is_safe_url("http://172.+20.0.1/"));
    assert!(is_safe_url("http://172.abc.0.1/"));
}

#[test]
fn xml_items_and_tags() {
    let xml = "<rss><ITEM><title> A </title><link>l1</link></ITEM><item><title>B</title></item><item>open</rss>";
    let items = IntelligenceService::extract_xml_items(xml);
    assert_eq!(items, vec!["<ITEM><title> A </title><link>l1</link></ITEM>".to_string(), "<item><title>B</title></item>".to_string()]);
    assert_eq!(IntelligenceService::extract_xml_tag(&items[0], "title"), "A");
    assert_eq!(IntelligenceService::extract_xml_tag(&items[0], "description"), "");
    let atom = "<feed><entry><title>E</title></entry></feed>";
    assert_eq!(IntelligenceService::extract_xml_items(atom), vec!["<entry><title>E</title></entry>".to_string()]);
}

#[test]
fn feed_and_api_entries() {
    let svc = IntelligenceService::new();
    let xml = "<item><title>T1</title><link>L1</link><description>D1</description></item><item><link>x</link></item>";
    let e = svc.feed_entries(xml);
    assert_eq!(e.len(), 1);
    assert_eq!((e[0].title.as_str(), e[0].link.as_str(), e[0].content.as_str()), ("T1", "L1", "D1"));
    let body = r#"[{"title":"A","link":"l","description":"d"},{"title":"B","url":"u","content":"c"},{"link":"z"},5]"#;
    let a = svc.api_entries(body);
    assert_eq!(a.len(), 2);
    assert_eq!((a[0].title.as_str(), a[0].link.as_str(), a[0].content.as_str()), ("A", "l", "d"));
    assert_eq!((a[1].title.as_str(), a[1].link.as_str(), a[1].content.as_str()), ("B", "u", "c"));
    assert!(svc.api_entries("{\"title\":\"not an array\"}").is_empty());
    assert!(svc.api_entries("not json").is_empty());
    assert!(svc.source_kind("atom") == SourceKind::Feed);
    assert!(svc.source_kind("api") == SourceKind::Api);
    assert!(svc.source_kind("html") == SourceKind::Other);
}

#[test]
fn source_checks() {
    let svc = IntelligenceService::new();
    assert!(matches!(svc.check_new_source("", "rss", ""), Err(ServiceError::Validation(m)) if m == "请提供名称"));
    assert!(matches!(svc.check_new_source("n", "", ""), Err(ServiceError::Validation(m)) if m == "请提供类型"));
    assert!(matches!(svc.check_new_source("n", "rss", ""), Ok(m) if m == "cn"));
    assert_eq!(validation(svc.check_fetch_url("")), Some("请提供URL".to_string()));
    assert_eq!(validation(svc.check_fetch_url("http://10.0.0.1/")), Some("不安全的URL: 不允许访问内部地址".to_string()));
    assert!(svc.check_fetch_url("https://news.example.com/").is_ok());
}

// ---- auth -------------------------------------------------------------------

#[test]
fn constant_time_comparison() {
    assert!(constant_time_eq("secret", "secret"));
    assert!(!constant_time_eq("secret", "secreT"));
    assert!(!constant_time_eq("secret", "secrets"));
    assert!(constant_time_eq("", ""));
    assert!(!constant_time_eq("密码", "密吗"));
}

#[test]
fn login_replies() {
    let svc = AuthService::new();
    assert!(matches!(svc.login("x", ""), LoginReply::NoPasswordRequired));
    assert!(matches!(svc.login("wrong", "pw"), LoginReply::WrongPassword));
    match svc.login("pw", "pw") {
        LoginReply::Authenticated { token } => {
            assert_eq!(token.len(), 36);
            assert_eq!(token.chars().nth(14), Some('4'));
            assert_eq!(token.matches('-').count(), 4);
        }
        _ => panic!("the right password logs in"),
    }
}

#[test]
fn password_change_checks() {
    let svc = AuthService::new();
    assert_eq!(validation(svc.check_password_change("a", "", "a")), Some("请提供新密码".to_string()));
    assert_eq!(validation(svc.check_password_change("b", "new", "a")), Some("原密码错误".to_string()));
    assert!(svc.check_password_change("a", "new", "a").is_ok());
    assert!(svc.check_password_change("", "new", "").is_ok());
}

// ---- scheduler ---------------------------------------------------------------

#[test]
fn scheduler_fires_once_per_minute() {
    let mut st = SchedulerState::new();
    let times = vec!["09:30".to_string(), "15:00".to_string()];
    assert!(!st.tick(true, &times, "09:30"));
    assert!(st.start());
    assert!(!st.start());
    assert!(st.tick(true, &times, "09:30"));
    assert!(!st.tick(true, &times, "09:30"));
    assert!(!st.tick(true, &times, "09:31"));
    assert!(!st.tick(false, &times, "15:00"));
    assert!(st.tick(true, &times, "15:00"));
    assert!(st.tick(true, &times, "09:30"));
    st.stop();
    assert!(!st.tick(true, &times, "15:00"));
}

#[test]
fn next_run_after_now() {
    let svc = SchedulerService::new();
    let times = vec!["09:30".to_string(), "bad".to_string(), "15:00".to_string()];
    assert_eq!(svc.next_run(true, &times, 10, 0), "15:00");
    assert_eq!(svc.next_run(true, &times, 8, 59), "09:30");
    assert_eq!(svc.next_run(true, &times, 16, 0), "09:30");
    assert_eq!(svc.next_run(false, &times, 8, 0), "");
    assert_eq!(svc.next_run(true, &vec![], 8, 0), "");
}

#[test]
fn trigger_codes_and_checks() {
    let svc = SchedulerService::new();
    let wl = vec!["000001".to_string()];
    assert_eq!(svc.trigger_codes(" 600519, ,000858 ,", &wl), vec!["600519".to_string(), "000858".to_string()]);
    assert_eq!(svc.trigger_codes("", &wl), wl);
    assert!(matches!(svc.check_trigger(&vec![], "k"), Err(ServiceError::Validation(m)) if m == "无股票代码可供分析"));
    assert!(matches!(svc.check_trigger(&wl, ""), Err(ServiceError::LlmAnalysis(m)) if m == "API Key 未配置"));
    assert_eq!(svc.completion_message("daily"), "daily analysis completed");
}

// ---- decision ----------------------------------------------------------------

#[test]
fn signal_creation_and_status() {
    let svc = DecisionService::new();
    let ok = svc.check_new_signal(NewSignal { code: "600519".into(), action: "buy".into(), scope_type: String::new() });
    assert!(matches!(ok, Ok(s) if s.scope_type == "watchlist"));
    let no_action = svc.check_new_signal(NewSignal { code: "600519".into(), action: String::new(), scope_type: String::new() });
    assert!(matches!(no_action, Err(ServiceError::Validation(m)) if m == "请提供信号动作"));
    assert!(matches!(svc.check_status_change(1, "closed"), Ok(SignalStatus::Closed)));
    assert!(matches!(svc.check_status_change(1, "gone"), Err(ServiceError::Validation(m)) if m == "无效状态: gone"));
    assert!(matches!(svc.check_status_change(0, "closed"), Err(ServiceError::Validation(m)) if m == "请提供信号ID"));
    assert_eq!(svc.list_status_filter("archived"), 5);
    assert_eq!(svc.list_status_filter("whatever"), 1);
    assert_eq!(
        validation(svc.check_feedback(3, "maybe")),
        Some("无效反馈值: maybe，支持: agree/disagree/partial".to_string())
    );
    assert!(svc.check_feedback(3, "partial").is_ok());
    assert!(matches!(svc.reassessed_status(Reassessment::StopHit), Some(SignalStatus::Invalidated)));
    assert!(svc.reassessed_status(Reassessment::Unchanged).is_none());
}

#[test]
fn signal_quality_levels() {
    let svc = DecisionService::new();
    let q = svc.data_quality(true, true, true, true, true);
    assert_eq!((q.score, q.level), (5, "excellent"));
    let q = svc.data_quality(true, false, true, false, true);
    assert_eq!((q.score, q.level), (3, "fair"));
    assert_eq!(q.present, [true, false, true, false, true]);
    assert_eq!(svc.data_quality(false, false, false, false, true).level, "incomplete");
}

#[test]
fn extractor_mappings() {
    let x = DecisionExtractor::new();
    assert_eq!(x.action_for("强烈推荐"), "buy");
    assert_eq!(x.action_for("减仓"), "reduce");
    assert_eq!(x.action_for("警示"), "avoid");
    assert_eq!(x.action_for("unknown"), "hold");
    assert_eq!(x.market_phase("大盘熊市中继"), "bear");
    assert_eq!(x.market_phase("指数上涨, 随后下跌"), "bull");
    assert_eq!(x.market_phase("震荡"), "sideways");
    assert_eq!(x.confidence_tenths("极高"), 9);
    assert_eq!(x.confidence_tenths("?"), 5);
    assert_eq!(x.batch_limit(0), 1);
    assert_eq!(x.batch_limit(500), 100);
    let c = x.coverage(25, 2, 1, 0);
    assert_eq!((c.kline_score, c.news_score, c.analysis_score, c.signal_score, c.total), (2, 0, 1, 0, 3));
}

// ---- backtest ----------------------------------------------------------------

#[test]
fn backtest_verdicts() {
    let svc = BacktestService::new();
    let v = svc.verdict("buy", Band::Above, Sign::Positive);
    assert!(v.direction == Direction::Up && v.outcome == Outcome::Win && v.direction_correct);
    let v = svc.verdict("sell", Band::Above, Sign::Positive);
    assert!(v.outcome == Outcome::Loss && !v.direction_correct);
    let v = svc.verdict("reduce", Band::Within, Sign::Negative);
    assert!(v.outcome == Outcome::Neutral && v.direction_correct);
    let v = svc.verdict("other", Band::Below, Sign::Negative);
    assert!(v.direction == Direction::Neutral && v.outcome == Outcome::Neutral && v.direction_correct);
    assert_eq!(Direction::Down.name(), "down");
    assert_eq!(Outcome::Win.name(), "win");
}

#[test]
fn backtest_horizons_and_pages() {
    let svc = BacktestService::new();
    assert_eq!(svc.horizon_days("short"), 5);
    assert_eq!(svc.horizon_days("long"), 20);
    assert_eq!(svc.horizon_days("+15"), 15);
    assert_eq!(svc.horizon_days("-3"), -3);
    assert_eq!(svc.horizon_days("x"), 10);
    assert_eq!(svc.horizon_days("-9223372036854775808"), i64::MIN);
    assert_eq!(svc.horizon_days("9223372036854775808"), 10);
    assert_eq!(svc.list_page(0, -5), (1, 0));
    assert_eq!(svc.list_page(1000, 7), (200, 7));
    assert_eq!(validation(svc.check_evaluate(0)), Some("请提供signalId".to_string()));
}

// ---- name resolver -----------------------------------------------------------

#[test]
fn name_lookup_plans() {
    let svc = NameResolverService::new();
    assert!(matches!(svc.resolve_lookup("600519"), Ok(Lookup::Code(c)) if c == "600519"));
    assert!(matches!(svc.resolve_lookup("茅台"), Ok(Lookup::NamePattern(p)) if p == "%茅台%"));
    assert!(matches!(svc.resolve_lookup("60051"), Ok(Lookup::NamePattern(_))));
    assert!(matches!(svc.resolve_lookup(""), Err(ServiceError::Validation(m)) if m == "Please provide query"));
    assert!(matches!(svc.search_plan("ab", 99), Ok((p, 50)) if p == "%ab%"));
    assert!(matches!(svc.search_plan("ab", -1), Ok((_, 1))));
}

// ---- market ------------------------------------------------------------------

#[test]
fn market_phases_and_guardrails() {
    let m = MarketContext::new();
    assert!(m.phase_from_changes(ChangeLevel::Plunge, ChangeLevel::Plunge, ChangeLevel::Plunge) == MarketPhase::ExtremeBear);
    assert!(m.phase_from_changes(ChangeLevel::Plunge, ChangeLevel::Down, ChangeLevel::Plunge) == MarketPhase::Bear);
    assert!(m.phase_from_changes(ChangeLevel::Surge, ChangeLevel::Up, ChangeLevel::Surge) == MarketPhase::Bull);
    assert!(m.phase_from_changes(ChangeLevel::Up, ChangeLevel::Flat, ChangeLevel::Up) == MarketPhase::Sideways);
    let g = m.guardrail("buy", MarketPhase::ExtremeBear);
    assert!(!g.allowed && g.severity == Severity::Critical);
    assert_eq!(g.reason, "极端熊市，不建议买入");
    let g = m.guardrail("reduce", MarketPhase::Bull);
    assert!(g.allowed && g.severity == Severity::Warning);
    assert_eq!(m.guardrail("hold", MarketPhase::ExtremeBull).reason, "无特殊限制");
    let r = MaReading { ma5_ma10: Rel::Above, ma10_ma20: Rel::Above, ma20_ma60: Rel::Below, ma60_missing: true, close_ma20: Rel::Below };
    assert!(m.phase_from_mas(r) == MarketPhase::Bull);
    let r = MaReading { ma5_ma10: Rel::Above, ma10_ma20: Rel::Below, ma20_ma60: Rel::Below, ma60_missing: false, close_ma20: Rel::Level };
    assert!(m.phase_from_mas(r) == MarketPhase::Sideways);
    assert_eq!(m.sector_prefix("600519"), "6%");
    assert_eq!(m.sector_prefix("300750"), "0%");
    assert_eq!(m.sector_prefix("830799"), "%");
    assert_eq!(m.index_code(""), "000001");
}

// ---- alerts ------------------------------------------------------------------

fn check(hit: bool, value: &str, bound: &str) -> RuleCheck {
    RuleCheck { hit, value: value.to_string(), bound: bound.to_string() }
}

#[test]
fn alert_rule_reasons() {
    let svc = AlertService::new();
    let v = svc.evaluate_rule(check(true, "10.50", "10.00"), check(false, "", ""), check(false, "", ""), check(true, "-5.20", "-5.00"));
    assert!(v.triggered);
    assert_eq!(v.summary, "价格10.50>=10.00; 涨跌幅-5.20%<=-5.00%");
    let v = svc.evaluate_rule(check(false, "", ""), check(false, "", ""), check(false, "", ""), check(false, "", ""));
    assert!(!v.triggered && v.reasons.is_empty() && v.summary.is_empty());
}

#[test]
fn market_light_colours() {
    let svc = AlertService::new();
    let m = svc.market_light(ChangeLevel::Up, ChangeLevel::Surge, ChangeLevel::Up);
    assert!(m.light == Light::Green && m.up_count == 3 && m.down_count == 0);
    assert!(svc.market_light(ChangeLevel::Down, ChangeLevel::Plunge, ChangeLevel::Down).light == Light::Red);
    let m = svc.market_light(ChangeLevel::Up, ChangeLevel::Flat, ChangeLevel::Down);
    assert!(m.light == Light::Yellow && m.up_count == 1 && m.down_count == 1);
    assert_eq!(validation(svc.check_cooldown_clear(4, "")), Some("请提供target".to_string()));
}

// ---- analysis ----------------------------------------------------------------

#[test]
fn analysis_requests() {
    let svc = AnalysisService::new();
    assert!(matches!(svc.batch_codes("a, b ,,"), Ok(v) if v == vec!["a".to_string(), "b".to_string()]));
    assert!(matches!(svc.batch_codes(""), Err(ServiceError::Validation(m)) if m == "请提供股票代码列表"));
    assert!(matches!(svc.report_key(0, "q1"), Ok(ReportKey::ByQuery(q)) if q == "q1"));
    assert!(matches!(svc.report_key(7, "q1"), Ok(ReportKey::ById(7))));
    assert!(matches!(svc.report_key(0, ""), Err(ServiceError::Validation(m)) if m == "请提供id或queryId"));
    assert_eq!(svc.stock_name("", Some("茅台".to_string()), "600519"), "茅台");
    assert_eq!(svc.stock_name("", None, "600519"), "600519");
    assert!(svc.check_compare_found(1).is_err());
    assert!(matches!(svc.search_pattern("x"), Ok(p) if p == "%x%"));
}

#[test]
fn alert_worker_reasons() {
    let w = dsa::services::alert::AlertWorker::new();
    assert!(w.fires(false, false, false, false, true));
    assert!(!w.fires(false, false, false, false, false));
    let r = w.describe(check(false, "", ""), check(true, "9.80", "10.00"), check(true, "3.10", "3.00"), check(false, "", ""));
    assert_eq!(r, "price 9.80<=10.00; change 3.10%>=3.00%");
}

#[test]
fn unknown_methods_are_routing_errors() {
    assert!(matches!(ReportService::new().dispatch("nope"), Err(ServiceError::ApiRouting(m)) if m == "report不支持方法: nope"));
    assert!(matches!(
        NotificationService::new(empty_config()).dispatch("send"),
        Ok(dsa::services::notification::NotificationMethod::Send)
    ));
    assert!(matches!(
        MarketContext::new().dispatch("x"),
        Err(ServiceError::ApiRouting(m)) if m == "market_context不支持方法: x"
    ));
    assert!(matches!(SchedulerService::new().dispatch("trigger"), Ok(_)));
}

#[test]
fn stock_codes_in_news() {
    assert_eq!(
        IntelligenceService::extract_stock_codes("茅台600519大涨", "五粮液000858跟涨, 600519再创新高"),
        "600519,000858"
    );
    assert_eq!(IntelligenceService::extract_stock_codes("123456 and 912345", ""), "");
    assert_eq!(
        IntelligenceService::extract_stock_codes("600000 600001 600002 600003 600004 600005", ""),
        "600000,600001,600002,600003,600004"
    );
    assert_eq!(IntelligenceService::extract_stock_codes("6000", "01"), "");
    assert_eq!(IntelligenceService::extract_stock_codes("3000", "12"), "");
    assert_eq!(IntelligenceService::extract_stock_codes("30001", "2x"), "");
}

#[test]
fn built_in_feed_templates() {
    let t = IntelligenceService::new().templates();
    assert_eq!(t.len(), 3);
    assert_eq!((t[0].name, t[0].source_type, t[0].url), ("eastmoney_news", "rss", "http://feed.eastmoney.com/news.xml"));
    assert_eq!((t[2].name, t[2].source_type, t[2].market), ("cls_telegraph", "api", "cn"));
    assert!(t.iter().all(|x| is_safe_url(x.url)));
}

#[test]
fn price_checks_follow_the_signal_direction() {
    // A long signal is stopped out at or under its stop, closed at or over its target.
    assert!(matches!(reassess("buy", LevelMark::Below, LevelMark::Below), Reassessment::StopHit));
    assert!(matches!(reassess("buy", LevelMark::Above, LevelMark::At), Reassessment::TargetHit));
    assert!(matches!(reassess("hold", LevelMark::Above, LevelMark::Below), Reassessment::Unchanged));
    // A bearish one the other way round.
    assert!(matches!(reassess("sell", LevelMark::Above, LevelMark::Above), Reassessment::StopHit));
    assert!(matches!(reassess("reduce", LevelMark::Below, LevelMark::Below), Reassessment::TargetHit));
    assert!(matches!(reassess("avoid", LevelMark::Below, LevelMark::Above), Reassessment::Unchanged));
    // Levels that are not set are never hit; a hit stop wins over a hit target.
    assert!(matches!(reassess("buy", LevelMark::Unset, LevelMark::Unset), Reassessment::Unchanged));
    assert!(matches!(reassess("buy", LevelMark::At, LevelMark::At), Reassessment::StopHit));
}

#[test]
fn login_replies_carry_their_token() {
    let auth = AuthService::new();
    assert_eq!(auth.login("x", "").session_token(), Some("no-auth-required".to_string()));
    assert_eq!(auth.login("wrong", "secret").session_token(), None);
    let token = auth.login("secret", "secret").session_token().unwrap();
    assert_eq!(token.len(), 36);
}

fn leg(code: &str, direction: &str, quantity: i64) -> TradeLeg {
    TradeLeg { code: code.to_string(), direction: direction.to_string(), quantity }
}

fn validation_text(r: Result<(), ServiceError>) -> String {
    match r {
        Err(ServiceError::Validation(m)) => m,
        _ => panic!("expected a validation error"),
    }
}

#[test]
fn replaying_trades_rebuilds_the_positions() {
    let trades = vec![
        leg("600519", "buy", 100),
        leg("000001", "buy", 500),
        leg("600519", "buy", 50),
        leg("600519", "sell", 30),
        leg("000001", "sell", 800),
        leg("300750", "dividend", 10),
    ];
    let mut held = replay_positions(&trades);
    held.sort_by(|a, b| a.code.cmp(&b.code));
    let got: Vec<(String, i64)> = held.iter().map(|p| (p.code.clone(), p.quantity)).collect();
    assert_eq!(
        got,
        vec![("000001".to_string(), 0), ("300750".to_string(), 0), ("600519".to_string(), 120)]
    );
    assert_eq!(open_positions(&held), 1);
    assert!(replay_positions(&Vec::new()).is_empty());
}

#[test]
fn a_sale_never_exceeds_the_holding() {
    let p = plan_sale(30, 100);
    assert_eq!((p.sold, p.remaining, p.closes), (30, 70, false));
    let p = plan_sale(0, 100);
    assert_eq!((p.sold, p.remaining, p.closes), (100, 0, true));
    let p = plan_sale(250, 100);
    assert_eq!((p.sold, p.remaining, p.closes), (100, 0, true));
    let p = plan_sale(-5, 100);
    assert_eq!((p.sold, p.remaining, p.closes), (100, 0, true));
}

#[test]
fn portfolio_requests_are_checked_in_order() {
    let svc = PortfolioService::new();
    assert_eq!(validation_text(svc.check_add_position(0, "", false, 0)), "请提供账户ID");
    assert_eq!(validation_text(svc.check_add_position(1, "", false, 0)), "请提供股票代码");
    assert_eq!(validation_text(svc.check_add_position(1, "600519", false, 0)), "请提供有效价格");
    assert_eq!(validation_text(svc.check_add_position(1, "600519", true, 0)), "请提供有效数量");
    assert!(svc.check_add_position(1, "600519", true, 100).is_ok());
    assert_eq!(validation_text(svc.check_remove_position(1, "")), "请提供股票代码");
    assert!(svc.check_remove_position(1, "600519").is_ok());
    assert_eq!(validation_text(svc.check_account(0)), "请提供账户ID");
    assert!(svc.check_account(7).is_ok());
    assert_eq!(validation_text(svc.check_cash_add(1, "sideways", true)), "direction 必须为 in 或 out");
    assert_eq!(validation_text(svc.check_cash_add(1, "in", false)), "请提供有效金额");
    assert!(svc.check_cash_add(1, "out", true).is_ok());
    assert_eq!(validation_text(svc.check_corporate_action(1, "600519", "")), "请提供行动类型");
    assert!(svc.check_corporate_action(1, "600519", "split").is_ok());
    assert_eq!(validation_text(svc.check_fx_rate("", "CNY", true)), "请提供源货币");
    assert_eq!(validation_text(svc.check_fx_rate("USD", "", true)), "请提供目标货币");
    assert_eq!(validation_text(svc.check_fx_rate("USD", "CNY", false)), "请提供有效汇率");
    assert!(svc.check_fx_rate("USD", "CNY", true).is_ok());
    assert_eq!(validation_text(svc.check_import_trade(1, "600519", "", true, 10)), "缺少direction");
    assert_eq!(validation_text(svc.check_import_trade(1, "600519", "buy", true, 0)), "缺少有效quantity");
    assert!(svc.check_import_trade(1, "600519", "buy", true, 10).is_ok());
    match svc.missing_position("600519") {
        ServiceError::Validation(m) => assert_eq!(m, "无持仓: 600519"),
        _ => panic!("expected a validation error"),
    }
}

#[test]
fn trade_imports_need_a_non_empty_array() {
    let svc = PortfolioService::new();
    let none = JsonValue::Object(vec![]);
    assert!(matches!(svc.import_trade_list(&none), Err(ServiceError::Validation(m)) if m == "请提供trades数组"));
    let text = JsonValue::Object(vec![("trades".to_string(), JsonValue::Str("x".to_string()))]);
    assert!(matches!(svc.import_trade_list(&text), Err(ServiceError::Validation(m)) if m == "trades必须为数组"));
    let empty = JsonValue::Object(vec![("trades".to_string(), JsonValue::Array(vec![]))]);
    assert!(matches!(svc.import_trade_list(&empty), Err(ServiceError::Validation(m)) if m == "trades数组不能为空"));
    let one = JsonValue::Object(vec![("trades".to_string(), JsonValue::Array(vec![JsonValue::Null]))]);
    assert_eq!(svc.import_trade_list(&one).map(|v| v.len()).ok(), Some(1));
}

#[test]
fn trade_edits_are_checked_and_written_back() {
    let svc = PortfolioService::new();
    assert_eq!(validation_text(svc.check_trade_id(0)), "请提供交易ID");
    assert!(svc.check_trade_id(12).is_ok());
    assert_eq!(validation_text(svc.check_trade_edit(false, 10, "buy")), "价格必须大于0");
    assert_eq!(validation_text(svc.check_trade_edit(true, 0, "buy")), "数量必须大于0");
    assert_eq!(validation_text(svc.check_trade_edit(true, 10, "hold")), "方向只能是buy或sell");
    assert!(svc.check_trade_edit(true, 10, "sell").is_ok());
    assert_eq!(
        svc.trade_edit_statement("", "", false),
        "UPDATE portfolio_trades SET direction = :direction, price = :price, quantity = :quantity, \
         commission = :commission, remark = :remark WHERE id = :id"
    );
    assert_eq!(
        svc.trade_edit_statement("600519", "茅台", true),
        "UPDATE portfolio_trades SET stock_code = :code, stock_name = :name, direction = :direction, \
         price = :price, quantity = :quantity, commission = :commission, remark = :remark, \
         trade_date = :trade_date WHERE id = :id"
    );
}

#[test]
fn source_updates_write_only_what_changed() {
    let svc = IntelligenceService::new();
    assert_eq!(svc.source_update_statement("", "", "", false, false), None);
    assert_eq!(
        svc.source_update_statement("财经", "", "", true, false),
        Some("UPDATE intelligence_sources SET name = :name, enabled = :enabled, modify_time = NOW() WHERE id = :id".to_string())
    );
    assert_eq!(
        svc.source_update_statement("", "https://x.example/rss", "{}", false, true),
        Some(
            "UPDATE intelligence_sources SET url_template = :url, config_json = :config, fetch_interval = :fi, \
             modify_time = NOW() WHERE id = :id"
                .to_string()
        )
    );
}

fn flag(hit: bool) -> RuleCheck {
    check(hit, "10.00", "9.00")
}

#[test]
fn checking_all_rules_counts_and_writes_the_fired_ones() {
    let svc = AlertService::new();
    let fired = svc.evaluate_rule(flag(true), flag(false), flag(false), flag(false));
    let quiet = svc.evaluate_rule(flag(false), flag(false), flag(false), flag(false));
    let fired_no_code = svc.evaluate_rule(flag(true), flag(false), flag(false), flag(false));
    let fired_too = svc.evaluate_rule(flag(false), flag(false), flag(false), flag(true));
    let runs = vec![
        RuleRun { rule_id: 1, code: "600519".to_string(), verdict: Some(fired) },
        RuleRun { rule_id: 2, code: "000001".to_string(), verdict: Some(quiet) },
        RuleRun { rule_id: 3, code: String::new(), verdict: Some(fired_no_code) },
        RuleRun { rule_id: 4, code: "300750".to_string(), verdict: None },
        RuleRun { rule_id: 5, code: "601318".to_string(), verdict: Some(fired_too) },
    ];
    let summary = svc.check_all_summary(&runs);
    assert_eq!(summary.total, 5);
    assert_eq!(summary.triggered, 2);
    assert_eq!(summary.fired, vec![1, 5]);
    let none = svc.check_all_summary(&Vec::new());
    assert_eq!((none.total, none.triggered), (0, 0));
}

#[test]
fn a_password_change_sets_the_new_password() {
    let svc = AuthService::new();
    let mut store = PasswordStore::new();
    assert_eq!(store.expected("cfg"), "cfg");
    assert!(matches!(svc.change_password(&mut store, "x", "", "cfg"), Err(ServiceError::Validation(m)) if m == "请提供新密码"));
    assert!(matches!(svc.change_password(&mut store, "wrong", "new1", "cfg"), Err(ServiceError::Validation(m)) if m == "原密码错误"));
    assert!(store.override_password.is_none());
    assert_eq!(svc.change_password(&mut store, "cfg", "new1", "cfg").ok(), Some("密码已更新".to_string()));
    assert_eq!(store.expected("cfg"), "new1");
    assert!(svc.change_password(&mut store, "cfg", "new2", "cfg").is_err());
    assert_eq!(svc.change_password(&mut store, "new1", "new2", "cfg").ok(), Some("密码已更新".to_string()));
    assert_eq!(store.override_password.as_deref(), Some("new2"));
    let mut open = PasswordStore::new();
    assert!(svc.change_password(&mut open, "anything", "set", "").is_ok());
}

#[test]
fn trade_dates_are_read_with_a_date_fallback() {
    assert_eq!(parse_trade_date("2024-03-05 09:30:15"), Some((2024, 3, 5, 9, 30, 15)));
    assert_eq!(parse_trade_date("2024-03-05"), Some((2024, 3, 5, 0, 0, 0)));
    assert_eq!(parse_trade_date("2024-13-05"), None);
    assert_eq!(parse_trade_date("yesterday"), None);
    assert_eq!(trade_date_from(None, Some((2023, 1, 2))), Some((2023, 1, 2, 0, 0, 0)));
    assert_eq!(trade_date_from(Some((2023, 1, 2, 3, 4, 5)), Some((2020, 1, 1))), Some((2023, 1, 2, 3, 4, 5)));
}
