//! Notification rules: which channels a severity goes to, when quiet hours
//! hold a message back, when a channel is skipped, and the addresses and
//! texts each channel is sent.
use vstd::prelude::*;
use crate::json::str_eq;
use crate::services::delivery::{spec_delivery, Delivery};
use crate::services::error::{unsupported_method, ServiceError};

verus! {

/// The channels a notification can go out on.
#[derive(Clone, Copy, PartialEq, Eq, Structural, Debug)]
pub enum Channel {
    DingTalk,
    Feishu,
    WeCom,
    Telegram,
    Bark,
    Email,
    Discord,
    Slack,
    Pushover,
    PushPlus,
    ServerChan,
    Ntfy,
    Gotify,
    CustomWebhook,
    /// Only written to the log.
    Log,
}

pub open spec fn channel_id(c: Channel) -> Seq<char> {
    match c {
        Channel::DingTalk => "dingtalk"@,
        Channel::Feishu => "feishu"@,
        Channel::WeCom => "wecom"@,
        Channel::Telegram => "telegram"@,
        Channel::Bark => "bark"@,
        Channel::Email => "email"@,
        Channel::Discord => "discord"@,
        Channel::Slack => "slack"@,
        Channel::Pushover => "pushover"@,
        Channel::PushPlus => "pushplus"@,
        Channel::ServerChan => "serverchan"@,
        Channel::Ntfy => "ntfy"@,
        Channel::Gotify => "gotify"@,
        Channel::CustomWebhook => "custom_webhook"@,
        Channel::Log => "log"@,
    }
}

/// The channel whose id is `name`; anything else goes to the log.
pub open spec fn channel_named(name: Seq<char>) -> Channel {
    if name == "dingtalk"@ {
        Channel::DingTalk
    } else if name == "feishu"@ {
        Channel::Feishu
    } else if name == "wecom"@ {
        Channel::WeCom
    } else if name == "telegram"@ {
        Channel::Telegram
    } else if name == "bark"@ {
        Channel::Bark
    } else if name == "email"@ {
        Channel::Email
    } else if name == "discord"@ {
        Channel::Discord
    } else if name == "slack"@ {
        Channel::Slack
    } else if name == "pushover"@ {
        Channel::Pushover
    } else if name == "pushplus"@ {
        Channel::PushPlus
    } else if name == "serverchan"@ {
        Channel::ServerChan
    } else if name == "ntfy"@ {
        Channel::Ntfy
    } else if name == "gotify"@ {
        Channel::Gotify
    } else if name == "custom_webhook"@ {
        Channel::CustomWebhook
    } else {
        Channel::Log
    }
}

/// The name a channel is shown under.
pub open spec fn channel_display_name(c: Channel) -> Seq<char> {
    match c {
        Channel::DingTalk => "钉钉"@,
        Channel::Feishu => "飞书"@,
        Channel::WeCom => "企业微信"@,
        Channel::Telegram => "Telegram"@,
        Channel::Bark => "Bark"@,
        Channel::Email => "邮件"@,
        Channel::Discord => "Discord"@,
        Channel::Slack => "Slack"@,
        Channel::Pushover => "Pushover"@,
        Channel::PushPlus => "PushPlus"@,
        Channel::ServerChan => "ServerChan"@,
        Channel::Ntfy => "ntfy"@,
        Channel::Gotify => "Gotify"@,
        Channel::CustomWebhook => "自定义Webhook"@,
        Channel::Log => "log"@,
    }
}

impl Channel {
    /// The name the channel is shown under.
    pub fn display_name(&self) -> (s: &'static str)
        ensures
            s@ == channel_display_name(*self),
    {
        match self {
            Channel::DingTalk => "钉钉",
            Channel::Feishu => "飞书",
            Channel::WeCom => "企业微信",
            Channel::Telegram => "Telegram",
            Channel::Bark => "Bark",
            Channel::Email => "邮件",
            Channel::Discord => "Discord",
            Channel::Slack => "Slack",
            Channel::Pushover => "Pushover",
            Channel::PushPlus => "PushPlus",
            Channel::ServerChan => "ServerChan",
            Channel::Ntfy => "ntfy",
            Channel::Gotify => "Gotify",
            Channel::CustomWebhook => "自定义Webhook",
            Channel::Log => "log",
        }
    }

    pub fn id(&self) -> (s: &'static str)
        ensures
            s@ == channel_id(*self),
    {
        match self {
            Channel::DingTalk => "dingtalk",
            Channel::Feishu => "feishu",
            Channel::WeCom => "wecom",
            Channel::Telegram => "telegram",
            Channel::Bark => "bark",
            Channel::Email => "email",
            Channel::Discord => "discord",
            Channel::Slack => "slack",
            Channel::Pushover => "pushover",
            Channel::PushPlus => "pushplus",
            Channel::ServerChan => "serverchan",
            Channel::Ntfy => "ntfy",
            Channel::Gotify => "gotify",
            Channel::CustomWebhook => "custom_webhook",
            Channel::Log => "log",
        }
    }

    /// The channel a send request names.
    pub fn named(name: &str) -> (c: Channel)
        ensures
            c == channel_named(name@),
    {
        if str_eq(name, "dingtalk") {
            Channel::DingTalk
        } else if str_eq(name, "feishu") {
            Channel::Feishu
        } else if str_eq(name, "wecom") {
            Channel::WeCom
        } else if str_eq(name, "telegram") {
            Channel::Telegram
        } else if str_eq(name, "bark") {
            Channel::Bark
        } else if str_eq(name, "email") {
            Channel::Email
        } else if str_eq(name, "discord") {
            Channel::Discord
        } else if str_eq(name, "slack") {
            Channel::Slack
        } else if str_eq(name, "pushover") {
            Channel::Pushover
        } else if str_eq(name, "pushplus") {
            Channel::PushPlus
        } else if str_eq(name, "serverchan") {
            Channel::ServerChan
        } else if str_eq(name, "ntfy") {
            Channel::Ntfy
        } else if str_eq(name, "gotify") {
            Channel::Gotify
        } else if str_eq(name, "custom_webhook") {
            Channel::CustomWebhook
        } else {
            Channel::Log
        }
    }
}

/// The notification settings.
pub struct NotificationConfig {
    pub dingtalk_webhook: String,
    pub feishu_webhook: String,
    pub wecom_webhook: String,
    pub telegram_bot_token: String,
    pub telegram_chat_id: String,
    pub bark_url: String,
    pub email_smtp_host: String,
    pub email_from: String,
    pub email_to: String,
    pub discord_webhook: String,
    pub slack_webhook: String,
    pub pushover_user_key: String,
    pub pushover_api_token: String,
    pub pushplus_token: String,
    pub serverchan_token: String,
    pub ntfy_topic: String,
    pub ntfy_server: String,
    pub gotify_server: String,
    pub gotify_app_token: String,
    pub custom_webhook_url: String,
    /// First hour (0..23) of the quiet period.
    pub quiet_hours_start: i32,
    /// The hour at which the quiet period ends.
    pub quiet_hours_end: i32,
}

/// A channel counts as configured when its main setting is not empty.
pub open spec fn configured(cfg: NotificationConfig, c: Channel) -> bool {
    match c {
        Channel::DingTalk => cfg.dingtalk_webhook@.len() != 0,
        Channel::Feishu => cfg.feishu_webhook@.len() != 0,
        Channel::WeCom => cfg.wecom_webhook@.len() != 0,
        Channel::Telegram => cfg.telegram_bot_token@.len() != 0,
        Channel::Bark => cfg.bark_url@.len() != 0,
        Channel::Email => cfg.email_smtp_host@.len() != 0,
        Channel::Discord => cfg.discord_webhook@.len() != 0,
        Channel::Slack => cfg.slack_webhook@.len() != 0,
        Channel::Pushover => cfg.pushover_user_key@.len() != 0,
        Channel::PushPlus => cfg.pushplus_token@.len() != 0,
        Channel::ServerChan => cfg.serverchan_token@.len() != 0,
        Channel::Ntfy => cfg.ntfy_topic@.len() != 0,
        Channel::Gotify => cfg.gotify_app_token@.len() != 0,
        Channel::CustomWebhook => cfg.custom_webhook_url@.len() != 0,
        Channel::Log => true,
    }
}

/// Every channel, in the order they are listed and tried.
pub open spec fn all_channels() -> Seq<Channel> {
    seq![
        Channel::DingTalk,
        Channel::Feishu,
        Channel::WeCom,
        Channel::Telegram,
        Channel::Bark,
        Channel::Email,
        Channel::Discord,
        Channel::Slack,
        Channel::Pushover,
        Channel::PushPlus,
        Channel::ServerChan,
        Channel::Ntfy,
        Channel::Gotify,
        Channel::CustomWebhook,
    ]
}

/// The channels a warning may go to.
pub open spec fn warning_channels() -> Seq<Channel> {
    seq![Channel::DingTalk, Channel::Feishu, Channel::WeCom, Channel::Email]
}

pub open spec fn configured_pred(cfg: NotificationConfig) -> spec_fn(Channel) -> bool {
    |c: Channel| configured(cfg, c)
}

/// The routing rule: `critical` goes to every configured channel, `warning`
/// to the configured ones of DingTalk, Feishu, WeCom and e-mail, anything
/// else only to the log.
pub open spec fn spec_route(severity: Seq<char>, cfg: NotificationConfig) -> Seq<Channel> {
    if severity == "critical"@ {
        all_channels().filter(configured_pred(cfg))
    } else if severity == "warning"@ {
        warning_channels().filter(configured_pred(cfg))
    } else {
        seq![Channel::Log]
    }
}

/// Whether a notification of `severity` is held back at `hour`: never for
/// `critical`, never when the quiet period is empty (start equals end);
/// otherwise when `hour` falls in the period, which may wrap past midnight.
pub open spec fn spec_should_suppress(severity: Seq<char>, start: i32, end: i32, hour: i32) -> bool {
    if severity == "critical"@ || start == end {
        false
    } else if start > end {
        hour >= start || hour < end
    } else {
        hour >= start && hour < end
    }
}

impl NotificationConfig {
    pub fn is_configured(&self, c: Channel) -> (b: bool)
        ensures
            b == configured(*self, c),
    {
        match c {
            Channel::DingTalk => !self.dingtalk_webhook.as_str().is_empty(),
            Channel::Feishu => !self.feishu_webhook.as_str().is_empty(),
            Channel::WeCom => !self.wecom_webhook.as_str().is_empty(),
            Channel::Telegram => !self.telegram_bot_token.as_str().is_empty(),
            Channel::Bark => !self.bark_url.as_str().is_empty(),
            Channel::Email => !self.email_smtp_host.as_str().is_empty(),
            Channel::Discord => !self.discord_webhook.as_str().is_empty(),
            Channel::Slack => !self.slack_webhook.as_str().is_empty(),
            Channel::Pushover => !self.pushover_user_key.as_str().is_empty(),
            Channel::PushPlus => !self.pushplus_token.as_str().is_empty(),
            Channel::ServerChan => !self.serverchan_token.as_str().is_empty(),
            Channel::Ntfy => !self.ntfy_topic.as_str().is_empty(),
            Channel::Gotify => !self.gotify_app_token.as_str().is_empty(),
            Channel::CustomWebhook => !self.custom_webhook_url.as_str().is_empty(),
            Channel::Log => true,
        }
    }

    fn keep_configured(&self, cs: &Vec<Channel>) -> (r: Vec<Channel>)
        ensures
            r@ == cs@.filter(configured_pred(*self)),
    {
        let ghost pred = configured_pred(*self);
        let mut r: Vec<Channel> = Vec::new();
        let mut i: usize = 0;
        while i < cs.len()
            invariant
                i <= cs@.len(),
                pred == configured_pred(*self),
                r@ == cs@.take(i as int).filter(pred),
            decreases cs@.len() - i,
        {
            let c = cs[i];
            proof {
                reveal(Seq::filter);
                assert(cs@.take(i + 1).drop_last() == cs@.take(i as int));
                assert(cs@.take(i + 1).last() == c);
            }
            if self.is_configured(c) {
                r.push(c);
            }
            i = i + 1;
        }
        assert(cs@.take(cs@.len() as int) == cs@);
        r
    }

}

/// The notification service: routing, quiet hours and what each channel
/// is sent, over its settings.
pub struct NotificationService {
    pub config: NotificationConfig,
}

/// What became of a send request.
pub enum SendOutcome {
    /// Held back by quiet hours.
    Suppressed,
    /// Handed to the channel as described.
    Sent { channel: Channel, delivery: Delivery },
}

/// The title of a test notification.
pub open spec fn test_title() -> Seq<char> {
    "DSA通知测试"@
}

/// The content of a test notification.
pub open spec fn test_content() -> Seq<char> {
    "这是一条测试通知, 如果收到说明配置正确。"@
}

impl NotificationService {
    pub fn new(config: NotificationConfig) -> (s: Self)
        ensures
            s.config == config,
    {
        NotificationService { config }
    }

    /// The channels listed with whether each is configured.
    pub fn channels(&self) -> (r: Vec<(Channel, bool)>)
        ensures
            r@.len() == all_channels().len(),
            forall|i: int| 0 <= i < r@.len() ==> (#[trigger] r@[i]).0 == all_channels()[i] && r@[i].1 == configured(self.config, all_channels()[i]),
    {
        let all = channels_in_order();
        let mut r: Vec<(Channel, bool)> = Vec::new();
        let mut i: usize = 0;
        while i < all.len()
            invariant
                all@ == all_channels(),
                i <= all@.len(),
                r@.len() == i,
                forall|k: int| 0 <= k < i ==> (#[trigger] r@[k]).0 == all_channels()[k] && r@[k].1 == configured(self.config, all_channels()[k]),
            decreases all@.len() - i,
        {
            let c = all[i];
            r.push((c, self.config.is_configured(c)));
            i = i + 1;
        }
        r
    }

    /// The channels a notification of `severity` goes to.
    pub fn route(&self, severity: &str) -> (r: Vec<Channel>)
        ensures
            r@ == spec_route(severity@, self.config),
    {
        if str_eq(severity, "critical") {
            let all = channels_in_order();
            self.config.keep_configured(&all)
        } else if str_eq(severity, "warning") {
            let mut w: Vec<Channel> = Vec::new();
            w.push(Channel::DingTalk);
            w.push(Channel::Feishu);
            w.push(Channel::WeCom);
            w.push(Channel::Email);
            assert(w@ == warning_channels());
            self.config.keep_configured(&w)
        } else {
            let mut r: Vec<Channel> = Vec::new();
            r.push(Channel::Log);
            r
        }
    }

    /// Whether a notification of `severity` is held back at `hour` (0..23).
    pub fn should_suppress(&self, severity: &str, hour: i32) -> (b: bool)
        ensures
            b == spec_should_suppress(severity@, self.config.quiet_hours_start, self.config.quiet_hours_end, hour),
    {
        if str_eq(severity, "critical") {
            return false;
        }
        let start = self.config.quiet_hours_start;
        let end = self.config.quiet_hours_end;
        if start == end {
            return false;
        }
        if start > end {
            hour >= start || hour < end
        } else {
            hour >= start && hour < end
        }
    }

    /// A send request on the channel named `channel`, of `severity`, at
    /// `hour`: held back in quiet hours, else what the channel is sent (an
    /// unknown channel name is only logged).
    pub fn send(&self, channel: &str, severity: &str, hour: i32, email_key: &str, title: &str, content: &str) -> (r: SendOutcome)
        ensures
            spec_should_suppress(severity@, self.config.quiet_hours_start, self.config.quiet_hours_end, hour) ==> r is Suppressed,
            !spec_should_suppress(severity@, self.config.quiet_hours_start, self.config.quiet_hours_end, hour)
                ==> (r matches SendOutcome::Sent { channel: c, delivery }
                    && c == channel_named(channel@)
                    && spec_delivery(self.config, c, email_key@, title@, content@, delivery)),
    {
        if self.should_suppress(severity, hour) {
            return SendOutcome::Suppressed;
        }
        let c = Channel::named(channel);
        SendOutcome::Sent { channel: c, delivery: self.config.delivery(c, email_key, title, content) }
    }

    /// A test message on the channel named `channel` (sent as `info`).
    pub fn test_channel(&self, channel: &str, hour: i32, email_key: &str) -> (r: SendOutcome)
        ensures
            spec_should_suppress("info"@, self.config.quiet_hours_start, self.config.quiet_hours_end, hour) ==> r is Suppressed,
            !spec_should_suppress("info"@, self.config.quiet_hours_start, self.config.quiet_hours_end, hour)
                ==> (r matches SendOutcome::Sent { channel: c, delivery }
                    && c == channel_named(channel@)
                    && spec_delivery(self.config, c, email_key@, test_title(), test_content(), delivery)),
    {
        self.send(channel, "info", hour, email_key, "DSA通知测试", "这是一条测试通知, 如果收到说明配置正确。")
    }
}

fn channels_in_order() -> (r: Vec<Channel>)
    ensures
        r@ == all_channels(),
{
    let mut r: Vec<Channel> = Vec::new();
    r.push(Channel::DingTalk);
    r.push(Channel::Feishu);
    r.push(Channel::WeCom);
    r.push(Channel::Telegram);
    r.push(Channel::Bark);
    r.push(Channel::Email);
    r.push(Channel::Discord);
    r.push(Channel::Slack);
    r.push(Channel::Pushover);
    r.push(Channel::PushPlus);
    r.push(Channel::ServerChan);
    r.push(Channel::Ntfy);
    r.push(Channel::Gotify);
    r.push(Channel::CustomWebhook);
    r
}

/// A critical notification is never held back by quiet hours.
pub proof fn lemma_critical_never_suppressed(start: i32, end: i32, hour: i32)
    ensures
        !spec_should_suppress("critical"@, start, end, hour),
{
}

/// An empty quiet period (start equals end) holds nothing back.
pub proof fn lemma_empty_quiet_period(severity: Seq<char>, h: i32, hour: i32)
    ensures
        !spec_should_suppress(severity, h, h, hour),
{
}

/// Inside the quiet period, `info` and `warning` notifications are held back.
pub proof fn lemma_quiet_period_holds_back(severity: Seq<char>, start: i32, end: i32, hour: i32)
    requires
        severity == "info"@ || severity == "warning"@,
        start != end,
        if start > end { hour >= start || hour < end } else { start <= hour < end },
    ensures
        spec_should_suppress(severity, start, end, hour),
{
    reveal_strlit("info");
    reveal_strlit("warning");
    reveal_strlit("critical");
    assert("info"@ != "critical"@ && "warning"@ != "critical"@) by {
        assert("info"@.len() != "critical"@.len());
        assert("warning"@.len() != "critical"@.len());
    }
}

/// A warning goes to no channel that a critical notification would not also reach.
pub proof fn lemma_warning_within_critical(cfg: NotificationConfig, c: Channel)
    requires
        spec_route("warning"@, cfg).contains(c),
    ensures
        spec_route("critical"@, cfg).contains(c),
{
    reveal_strlit("warning");
    reveal_strlit("critical");
    assert("warning"@ != "critical"@) by {
        assert("warning"@.len() != "critical"@.len());
    }
    let p = configured_pred(cfg);
    let w = warning_channels();
    let a = all_channels();
    w.lemma_filter_contains_rev(p, c);
    let k = choose|k: int| 0 <= k < w.filter(p).len() && w.filter(p)[k] == c;
    w.lemma_filter_pred(p, k);
    assert(p(c));
    let j: int = match c {
        Channel::DingTalk => 0,
        Channel::Feishu => 1,
        Channel::WeCom => 2,
        _ => 5,
    };
    assert(c == Channel::DingTalk || c == Channel::Feishu || c == Channel::WeCom || c == Channel::Email);
    assert(a[j] == c);
    a.lemma_filter_contains(p, j);
}

/// A warning reaches every configured channel among DingTalk, Feishu, WeCom
/// and e-mail, and no other channel.
pub proof fn lemma_warning_reaches_the_team_channels(cfg: NotificationConfig, c: Channel)
    ensures
        spec_route("warning"@, cfg).contains(c) <==> (configured(cfg, c)
            && (c == Channel::DingTalk || c == Channel::Feishu || c == Channel::WeCom || c == Channel::Email)),
{
    reveal_strlit("warning");
    reveal_strlit("critical");
    assert("warning"@ != "critical"@) by {
        assert("warning"@.len() != "critical"@.len());
    }
    let p = configured_pred(cfg);
    let w = warning_channels();
    if configured(cfg, c) && (c == Channel::DingTalk || c == Channel::Feishu || c == Channel::WeCom || c == Channel::Email) {
        let j: int = match c {
            Channel::DingTalk => 0,
            Channel::Feishu => 1,
            Channel::WeCom => 2,
            _ => 3,
        };
        assert(w[j] == c);
        w.lemma_filter_contains(p, j);
    }
    if spec_route("warning"@, cfg).contains(c) {
        w.lemma_filter_contains_rev(p, c);
        let k = choose|k: int| 0 <= k < w.filter(p).len() && w.filter(p)[k] == c;
        w.lemma_filter_pred(p, k);
        let i = choose|i: int| 0 <= i < w.len() && w[i] == c;
        assert(w.contains(c));
    }
}

/// A critical notification reaches every configured channel.
pub proof fn lemma_critical_reaches_every_channel(cfg: NotificationConfig, c: Channel)
    requires
        configured(cfg, c),
        c != Channel::Log,
    ensures
        spec_route("critical"@, cfg).contains(c),
{
    reveal_strlit("critical");
    let p = configured_pred(cfg);
    let a = all_channels();
    let j: int = match c {
        Channel::DingTalk => 0,
        Channel::Feishu => 1,
        Channel::WeCom => 2,
        Channel::Telegram => 3,
        Channel::Bark => 4,
        Channel::Email => 5,
        Channel::Discord => 6,
        Channel::Slack => 7,
        Channel::Pushover => 8,
        Channel::PushPlus => 9,
        Channel::ServerChan => 10,
        Channel::Ntfy => 11,
        Channel::Gotify => 12,
        Channel::CustomWebhook => 13,
        Channel::Log => 0,
    };
    assert(a[j] == c);
    a.lemma_filter_contains(p, j);
}

/// An `info` notification (or any severity other than warning or critical) is only logged.
pub proof fn lemma_info_only_logged(severity: Seq<char>, cfg: NotificationConfig)
    requires
        severity != "critical"@,
        severity != "warning"@,
    ensures
        spec_route(severity, cfg) == seq![Channel::Log],
{
}

/// Why a message on `c` is not sent, when the settings it needs are missing.
pub open spec fn spec_skip_reason(cfg: NotificationConfig, c: Channel) -> Option<Seq<char>> {
    match c {
        Channel::DingTalk => if cfg.dingtalk_webhook@.len() == 0 { Some("钉钉webhook未配置"@) } else { None },
        Channel::Feishu => if cfg.feishu_webhook@.len() == 0 { Some("飞书webhook未配置"@) } else { None },
        Channel::WeCom => if cfg.wecom_webhook@.len() == 0 { Some("企业微信webhook未配置"@) } else { None },
        Channel::Telegram => if cfg.telegram_bot_token@.len() == 0 {
            Some("Telegram bot token未配置"@)
        } else if cfg.telegram_chat_id@.len() == 0 {
            Some("Telegram chat_id未配置"@)
        } else {
            None
        },
        Channel::Bark => if cfg.bark_url@.len() == 0 { Some("Bark URL未配置"@) } else { None },
        Channel::Email => if cfg.email_smtp_host@.len() == 0 {
            Some("邮件SMTP未配置"@)
        } else if cfg.email_from@.len() == 0 || cfg.email_to@.len() == 0 {
            Some("邮件发件人/收件人未配置"@)
        } else {
            None
        },
        Channel::Discord => if cfg.discord_webhook@.len() == 0 { Some("Discord webhook未配置"@) } else { None },
        Channel::Slack => if cfg.slack_webhook@.len() == 0 { Some("Slack webhook未配置"@) } else { None },
        Channel::Pushover => if cfg.pushover_user_key@.len() == 0 {
            Some("Pushover user key未配置"@)
        } else if cfg.pushover_api_token@.len() == 0 {
            Some("Pushover API token未配置"@)
        } else {
            None
        },
        Channel::PushPlus => if cfg.pushplus_token@.len() == 0 { Some("PushPlus token未配置"@) } else { None },
        Channel::ServerChan => if cfg.serverchan_token@.len() == 0 { Some("ServerChan token未配置"@) } else { None },
        Channel::Ntfy => if cfg.ntfy_topic@.len() == 0 { Some("ntfy topic未配置"@) } else { None },
        Channel::Gotify => if cfg.gotify_server@.len() == 0 {
            Some("Gotify server未配置"@)
        } else if cfg.gotify_app_token@.len() == 0 {
            Some("Gotify app token未配置"@)
        } else {
            None
        },
        Channel::CustomWebhook => if cfg.custom_webhook_url@.len() == 0 { Some("自定义Webhook URL未配置"@) } else { None },
        Channel::Log => None,
    }
}

impl NotificationConfig {
    /// Why `c` is skipped, if it is.
    pub fn skip_reason(&self, c: Channel) -> (r: Option<String>)
        ensures
            match spec_skip_reason(*self, c) {
                Some(m) => r matches Some(t) && t@ == m,
                None => r is None,
            },
    {
        match c {
            Channel::DingTalk => if self.dingtalk_webhook.as_str().is_empty() { Some("钉钉webhook未配置".to_owned()) } else { None },
            Channel::Feishu => if self.feishu_webhook.as_str().is_empty() { Some("飞书webhook未配置".to_owned()) } else { None },
            Channel::WeCom => if self.wecom_webhook.as_str().is_empty() { Some("企业微信webhook未配置".to_owned()) } else { None },
            Channel::Telegram => if self.telegram_bot_token.as_str().is_empty() {
                Some("Telegram bot token未配置".to_owned())
            } else if self.telegram_chat_id.as_str().is_empty() {
                Some("Telegram chat_id未配置".to_owned())
            } else {
                None
            },
            Channel::Bark => if self.bark_url.as_str().is_empty() { Some("Bark URL未配置".to_owned()) } else { None },
            Channel::Email => if self.email_smtp_host.as_str().is_empty() {
                Some("邮件SMTP未配置".to_owned())
            } else if self.email_from.as_str().is_empty() || self.email_to.as_str().is_empty() {
                Some("邮件发件人/收件人未配置".to_owned())
            } else {
                None
            },
            Channel::Discord => if self.discord_webhook.as_str().is_empty() { Some("Discord webhook未配置".to_owned()) } else { None },
            Channel::Slack => if self.slack_webhook.as_str().is_empty() { Some("Slack webhook未配置".to_owned()) } else { None },
            Channel::Pushover => if self.pushover_user_key.as_str().is_empty() {
                Some("Pushover user key未配置".to_owned())
            } else if self.pushover_api_token.as_str().is_empty() {
                Some("Pushover API token未配置".to_owned())
            } else {
                None
            },
            Channel::PushPlus => if self.pushplus_token.as_str().is_empty() { Some("PushPlus token未配置".to_owned()) } else { None },
            Channel::ServerChan => if self.serverchan_token.as_str().is_empty() { Some("ServerChan token未配置".to_owned()) } else { None },
            Channel::Ntfy => if self.ntfy_topic.as_str().is_empty() { Some("ntfy topic未配置".to_owned()) } else { None },
            Channel::Gotify => if self.gotify_server.as_str().is_empty() {
                Some("Gotify server未配置".to_owned())
            } else if self.gotify_app_token.as_str().is_empty() {
                Some("Gotify app token未配置".to_owned())
            } else {
                None
            },
            Channel::CustomWebhook => if self.custom_webhook_url.as_str().is_empty() { Some("自定义Webhook URL未配置".to_owned()) } else { None },
            Channel::Log => None,
        }
    }
}

/// A channel's id names that channel.
pub proof fn lemma_channel_id_names(c: Channel)
    ensures
        channel_named(channel_id(c)) == c,
{
    reveal_strlit("dingtalk");
    reveal_strlit("feishu");
    reveal_strlit("wecom");
    reveal_strlit("telegram");
    reveal_strlit("bark");
    reveal_strlit("email");
    reveal_strlit("discord");
    reveal_strlit("slack");
    reveal_strlit("pushover");
    reveal_strlit("pushplus");
    reveal_strlit("serverchan");
    reveal_strlit("ntfy");
    reveal_strlit("gotify");
    reveal_strlit("custom_webhook");
    reveal_strlit("log");
    match c {
        Channel::DingTalk => {

        },
        Channel::Feishu => {
            assert("feishu"@.len() != "dingtalk"@.len());
        },
        Channel::WeCom => {
            assert("wecom"@.len() != "dingtalk"@.len());
            assert("wecom"@.len() != "feishu"@.len());
        },
        Channel::Telegram => {
            assert("telegram"@[0] != "dingtalk"@[0]);
            assert("telegram"@.len() != "feishu"@.len());
            assert("telegram"@.len() != "wecom"@.len());
        },
        Channel::Bark => {
            assert("bark"@.len() != "dingtalk"@.len());
            assert("bark"@.len() != "feishu"@.len());
            assert("bark"@.len() != "wecom"@.len());
            assert("bark"@.len() != "telegram"@.len());
        },
        Channel::Email => {
            assert("email"@.len() != "dingtalk"@.len());
            assert("email"@.len() != "feishu"@.len());
            assert("email"@[0] != "wecom"@[0]);
            assert("email"@.len() != "telegram"@.len());
            assert("email"@.len() != "bark"@.len());
        },
        Channel::Discord => {
            assert("discord"@.len() != "dingtalk"@.len());
            assert("discord"@.len() != "feishu"@.len());
            assert("discord"@.len() != "wecom"@.len());
            assert("discord"@.len() != "telegram"@.len());
            assert("discord"@.len() != "bark"@.len());
            assert("discord"@.len() != "email"@.len());
        },
        Channel::Slack => {
            assert("slack"@.len() != "dingtalk"@.len());
            assert("slack"@.len() != "feishu"@.len());
            assert("slack"@[0] != "wecom"@[0]);
            assert("slack"@.len() != "telegram"@.len());
            assert("slack"@.len() != "bark"@.len());
            assert("slack"@[0] != "email"@[0]);
            assert("slack"@.len() != "discord"@.len());
        },
        Channel::Pushover => {
            assert("pushover"@[0] != "dingtalk"@[0]);
            assert("pushover"@.len() != "feishu"@.len());
            assert("pushover"@.len() != "wecom"@.len());
            assert("pushover"@[0] != "telegram"@[0]);
            assert("pushover"@.len() != "bark"@.len());
            assert("pushover"@.len() != "email"@.len());
            assert("pushover"@.len() != "discord"@.len());
            assert("pushover"@.len() != "slack"@.len());
        },
        Channel::PushPlus => {
            assert("pushplus"@[0] != "dingtalk"@[0]);
            assert("pushplus"@.len() != "feishu"@.len());
            assert("pushplus"@.len() != "wecom"@.len());
            assert("pushplus"@[0] != "telegram"@[0]);
            assert("pushplus"@.len() != "bark"@.len());
            assert("pushplus"@.len() != "email"@.len());
            assert("pushplus"@.len() != "discord"@.len());
            assert("pushplus"@.len() != "slack"@.len());
            assert("pushplus"@[4] != "pushover"@[4]);
        },
        Channel::ServerChan => {
            assert("serverchan"@.len() != "dingtalk"@.len());
            assert("serverchan"@.len() != "feishu"@.len());
            assert("serverchan"@.len() != "wecom"@.len());
            assert("serverchan"@.len() != "telegram"@.len());
            assert("serverchan"@.len() != "bark"@.len());
            assert("serverchan"@.len() != "email"@.len());
            assert("serverchan"@.len() != "discord"@.len());
            assert("serverchan"@.len() != "slack"@.len());
            assert("serverchan"@.len() != "pushover"@.len());
            assert("serverchan"@.len() != "pushplus"@.len());
        },
        Channel::Ntfy => {
            assert("ntfy"@.len() != "dingtalk"@.len());
            assert("ntfy"@.len() != "feishu"@.len());
            assert("ntfy"@.len() != "wecom"@.len());
            assert("ntfy"@.len() != "telegram"@.len());
            assert("ntfy"@[0] != "bark"@[0]);
            assert("ntfy"@.len() != "email"@.len());
            assert("ntfy"@.len() != "discord"@.len());
            assert("ntfy"@.len() != "slack"@.len());
            assert("ntfy"@.len() != "pushover"@.len());
            assert("ntfy"@.len() != "pushplus"@.len());
            assert("ntfy"@.len() != "serverchan"@.len());
        },
        Channel::Gotify => {
            assert("gotify"@.len() != "dingtalk"@.len());
            assert("gotify"@[0] != "feishu"@[0]);
            assert("gotify"@.len() != "wecom"@.len());
            assert("gotify"@.len() != "telegram"@.len());
            assert("gotify"@.len() != "bark"@.len());
            assert("gotify"@.len() != "email"@.len());
            assert("gotify"@.len() != "discord"@.len());
            assert("gotify"@.len() != "slack"@.len());
            assert("gotify"@.len() != "pushover"@.len());
            assert("gotify"@.len() != "pushplus"@.len());
            assert("gotify"@.len() != "serverchan"@.len());
            assert("gotify"@.len() != "ntfy"@.len());
        },
        Channel::CustomWebhook => {
            assert("custom_webhook"@.len() != "dingtalk"@.len());
            assert("custom_webhook"@.len() != "feishu"@.len());
            assert("custom_webhook"@.len() != "wecom"@.len());
            assert("custom_webhook"@.len() != "telegram"@.len());
            assert("custom_webhook"@.len() != "bark"@.len());
            assert("custom_webhook"@.len() != "email"@.len());
            assert("custom_webhook"@.len() != "discord"@.len());
            assert("custom_webhook"@.len() != "slack"@.len());
            assert("custom_webhook"@.len() != "pushover"@.len());
            assert("custom_webhook"@.len() != "pushplus"@.len());
            assert("custom_webhook"@.len() != "serverchan"@.len());
            assert("custom_webhook"@.len() != "ntfy"@.len());
            assert("custom_webhook"@.len() != "gotify"@.len());
        },
        Channel::Log => {
            assert("log"@.len() != "dingtalk"@.len());
            assert("log"@.len() != "feishu"@.len());
            assert("log"@.len() != "wecom"@.len());
            assert("log"@.len() != "telegram"@.len());
            assert("log"@.len() != "bark"@.len());
            assert("log"@.len() != "email"@.len());
            assert("log"@.len() != "discord"@.len());
            assert("log"@.len() != "slack"@.len());
            assert("log"@.len() != "pushover"@.len());
            assert("log"@.len() != "pushplus"@.len());
            assert("log"@.len() != "serverchan"@.len());
            assert("log"@.len() != "ntfy"@.len());
            assert("log"@.len() != "gotify"@.len());
            assert("log"@.len() != "custom_webhook"@.len());
        },
    }
}

/// The methods the notification service answers.
#[derive(Clone, Copy, PartialEq, Eq, Structural, Debug)]
pub enum NotificationMethod {
    Send,
    Channels,
    Test,
    Route,
}

/// The method named `name`.
pub open spec fn notification_method_named(name: Seq<char>) -> Option<NotificationMethod> {
    if name == "send"@ {
        Some(NotificationMethod::Send)
    } else if name == "channels"@ {
        Some(NotificationMethod::Channels)
    } else if name == "test"@ {
        Some(NotificationMethod::Test)
    } else if name == "route"@ {
        Some(NotificationMethod::Route)
    } else {
        None
    }
}

impl NotificationService {
    /// The method a request names; an unknown one is a routing error
    /// `notification不支持方法: <method>`.
    pub fn dispatch(&self, method: &str) -> (r: Result<NotificationMethod, ServiceError>)
        ensures
            match notification_method_named(method@) {
                Some(m) => r == Ok::<NotificationMethod, ServiceError>(m),
                None => r matches Err(ServiceError::ApiRouting(msg)) && msg@ == "notification不支持方法: "@ + method@,
            },
    {
        let r = if str_eq(method, "send") {
            Some(NotificationMethod::Send)
        } else if str_eq(method, "channels") {
            Some(NotificationMethod::Channels)
        } else if str_eq(method, "test") {
            Some(NotificationMethod::Test)
        } else if str_eq(method, "route") {
            Some(NotificationMethod::Route)
        } else {
            None
        };
        match r {
            Some(m) => Ok(m),
            None => Err(unsupported_method("notification不支持方法: ", method)),
        }
    }
}

} // verus!
