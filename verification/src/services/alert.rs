//! Alert rules on prices and changes: rule management, trigger history, cooldowns and delivery logs.
use vstd::prelude::*;
use crate::json::str_eq;
use crate::services::error::{unsupported_method, ServiceError};
use crate::services::market::{is_falling, is_rising, spec_phase_from_changes, ChangeLevel, MarketPhase};
use crate::strings::{join, views};
use crate::text::{from_chars, push_str};

verus! {

/// The methods the service answers.
#[derive(Clone, Copy, PartialEq, Eq, Structural, Debug)]
pub enum AlertMethod {
    Rules,
    RuleCreate,
    RuleUpdate,
    RuleDelete,
    RuleEnable,
    RuleDisable,
    RuleTest,
    Triggers,
    Notifications,
    Cooldowns,
    CooldownCreate,
    CooldownClear,
    NotificationLog,
    NotificationLogCreate,
    CheckAll,
    MarketLight,
}

/// The method named `name`.
pub open spec fn alert_method_named(name: Seq<char>) -> Option<AlertMethod> {
    if name == "rules"@ {
        Some(AlertMethod::Rules)
    } else if name == "rule_create"@ {
        Some(AlertMethod::RuleCreate)
    } else if name == "rule_update"@ {
        Some(AlertMethod::RuleUpdate)
    } else if name == "rule_delete"@ {
        Some(AlertMethod::RuleDelete)
    } else if name == "rule_enable"@ {
        Some(AlertMethod::RuleEnable)
    } else if name == "rule_disable"@ {
        Some(AlertMethod::RuleDisable)
    } else if name == "rule_test"@ {
        Some(AlertMethod::RuleTest)
    } else if name == "triggers"@ {
        Some(AlertMethod::Triggers)
    } else if name == "notifications"@ {
        Some(AlertMethod::Notifications)
    } else if name == "cooldowns"@ {
        Some(AlertMethod::Cooldowns)
    } else if name == "cooldown_create"@ {
        Some(AlertMethod::CooldownCreate)
    } else if name == "cooldown_clear"@ {
        Some(AlertMethod::CooldownClear)
    } else if name == "notification_log"@ {
        Some(AlertMethod::NotificationLog)
    } else if name == "notification_log_create"@ {
        Some(AlertMethod::NotificationLogCreate)
    } else if name == "check_all"@ {
        Some(AlertMethod::CheckAll)
    } else if name == "market_light"@ {
        Some(AlertMethod::MarketLight)
    } else {
        None
    }
}

pub struct AlertService {}

impl AlertService {
    pub fn new() -> (s: Self) {
        AlertService {}
    }

    /// The method a request names; an unknown one is a routing error
    /// `alert不支持方法: <method>`.
    pub fn dispatch(&self, method: &str) -> (r: Result<AlertMethod, ServiceError>)
        ensures
            match alert_method_named(method@) {
                Some(m) => r == Ok::<AlertMethod, ServiceError>(m),
                None => r matches Err(ServiceError::ApiRouting(msg)) && msg@ == "alert不支持方法: "@ + method@,
            },
    {
        let r = if str_eq(method, "rules") {
            Some(AlertMethod::Rules)
        } else if str_eq(method, "rule_create") {
            Some(AlertMethod::RuleCreate)
        } else if str_eq(method, "rule_update") {
            Some(AlertMethod::RuleUpdate)
        } else if str_eq(method, "rule_delete") {
            Some(AlertMethod::RuleDelete)
        } else if str_eq(method, "rule_enable") {
            Some(AlertMethod::RuleEnable)
        } else if str_eq(method, "rule_disable") {
            Some(AlertMethod::RuleDisable)
        } else if str_eq(method, "rule_test") {
            Some(AlertMethod::RuleTest)
        } else if str_eq(method, "triggers") {
            Some(AlertMethod::Triggers)
        } else if str_eq(method, "notifications") {
            Some(AlertMethod::Notifications)
        } else if str_eq(method, "cooldowns") {
            Some(AlertMethod::Cooldowns)
        } else if str_eq(method, "cooldown_create") {
            Some(AlertMethod::CooldownCreate)
        } else if str_eq(method, "cooldown_clear") {
            Some(AlertMethod::CooldownClear)
        } else if str_eq(method, "notification_log") {
            Some(AlertMethod::NotificationLog)
        } else if str_eq(method, "notification_log_create") {
            Some(AlertMethod::NotificationLogCreate)
        } else if str_eq(method, "check_all") {
            Some(AlertMethod::CheckAll)
        } else if str_eq(method, "market_light") {
            Some(AlertMethod::MarketLight)
        } else {
            None
        };
        match r {
            Some(m) => Ok(m),
            None => Err(unsupported_method("alert不支持方法: ", method)),
        }
    }
}


/// One condition of an alert rule, checked against the quote: whether it
/// holds, and the quote's value and the rule's bound as printed (two
/// decimals).
pub struct RuleCheck {
    pub hit: bool,
    pub value: String,
    pub bound: String,
}

/// The reason texts of the conditions that hold, in the order price above,
/// price below, change above, change below.
pub open spec fn spec_rule_reasons(price_above: RuleCheck, price_below: RuleCheck, change_above: RuleCheck, change_below: RuleCheck) -> Seq<Seq<char>> {
    (if price_above.hit { seq!["价格"@ + price_above.value@ + ">="@ + price_above.bound@] } else { Seq::empty() })
        + (if price_below.hit { seq!["价格"@ + price_below.value@ + "<="@ + price_below.bound@] } else { Seq::empty() })
        + (if change_above.hit { seq!["涨跌幅"@ + change_above.value@ + "%>="@ + change_above.bound@ + "%"@] } else { Seq::empty() })
        + (if change_below.hit { seq!["涨跌幅"@ + change_below.value@ + "%<="@ + change_below.bound@ + "%"@] } else { Seq::empty() })
}

/// The verdict on a rule: whether it fired, and why.
pub struct RuleVerdict {
    pub triggered: bool,
    pub reasons: Vec<String>,
    /// The reasons joined with `; `.
    pub summary: String,
}

fn reason_text(a: &str, v: &str, op: &str, b: &str, tail: &str) -> (r: String)
    ensures
        r@ == a@ + v@ + op@ + b@ + tail@,
{
    let mut out: Vec<char> = Vec::new();
    push_str(&mut out, a);
    push_str(&mut out, v);
    push_str(&mut out, op);
    push_str(&mut out, b);
    push_str(&mut out, tail);
    assert(out@ =~= a@ + v@ + op@ + b@ + tail@);
    from_chars(&out)
}

/// One enabled rule in a check of all rules: its id, its stock code, and
/// the verdict on its checks, `None` when its quote could not be had.
pub struct RuleRun {
    pub rule_id: i64,
    pub code: String,
    pub verdict: Option<RuleVerdict>,
}

/// A rule fires in a check of all rules when it has a stock code, its quote
/// was had, and its verdict is triggered; a rule without a code or a quote
/// is skipped.
pub open spec fn rule_fired(r: RuleRun) -> bool {
    r.code@.len() != 0 && (r.verdict matches Some(v) && v.triggered)
}

/// The ids of the rules of `runs` that fire, in order.
pub open spec fn fired_ids(runs: Seq<RuleRun>) -> Seq<i64>
    decreases runs.len(),
{
    if runs.len() == 0 {
        Seq::empty()
    } else {
        fired_ids(runs.drop_last()) + if rule_fired(runs.last()) { seq![runs.last().rule_id] } else { Seq::empty() }
    }
}

proof fn lemma_fired_ids_len(runs: Seq<RuleRun>)
    ensures
        fired_ids(runs).len() <= runs.len(),
    decreases runs.len(),
{
    if runs.len() > 0 {
        lemma_fired_ids_len(runs.drop_last());
    }
}

/// What a check of all rules reports and writes.
pub struct CheckAllSummary {
    /// The number of enabled rules checked.
    pub total: usize,
    /// The number of rules that fired.
    pub triggered: usize,
    /// The rules that fired, in order: each gets one trigger record and one
    /// increment of its trigger count; no other rule is written.
    pub fired: Vec<i64>,
}

/// The light over the whole market: green when all three indices rose, red
/// when all three fell, yellow otherwise.
#[derive(Clone, Copy, PartialEq, Eq, Structural, Debug)]
pub enum Light {
    Green,
    Yellow,
    Red,
}

pub open spec fn count_if(a: bool, b: bool, c: bool) -> int {
    (if a { 1int } else { 0 }) + (if b { 1int } else { 0 }) + (if c { 1int } else { 0 })
}

pub open spec fn spec_light(sh: ChangeLevel, sz: ChangeLevel, cy: ChangeLevel) -> Light {
    if count_if(is_rising(sh), is_rising(sz), is_rising(cy)) == 3 {
        Light::Green
    } else if count_if(is_falling(sh), is_falling(sz), is_falling(cy)) == 3 {
        Light::Red
    } else {
        Light::Yellow
    }
}

/// The light is green exactly when all three indices rose, red exactly
/// when all three fell, and yellow whenever they did not all move together
/// (two rising indices and a flat one are still yellow).
pub proof fn lemma_light_needs_all_three(sh: ChangeLevel, sz: ChangeLevel, cy: ChangeLevel)
    ensures
        (spec_light(sh, sz, cy) == Light::Green) <==> (is_rising(sh) && is_rising(sz) && is_rising(cy)),
        (spec_light(sh, sz, cy) == Light::Red) <==> (is_falling(sh) && is_falling(sz) && is_falling(cy)),
        (spec_light(sh, sz, cy) == Light::Yellow) <==> !((is_rising(sh) && is_rising(sz) && is_rising(cy))
            || (is_falling(sh) && is_falling(sz) && is_falling(cy))),
{
}

/// The market light and the market phase read from the same three changes
/// agree: green exactly in a bull (plain or extreme), red exactly in a bear
/// (plain or extreme), yellow exactly when the market is sideways.
pub proof fn lemma_light_matches_phase(sh: ChangeLevel, sz: ChangeLevel, cy: ChangeLevel)
    ensures
        (spec_light(sh, sz, cy) == Light::Green) <==> (spec_phase_from_changes(sh, sz, cy) == MarketPhase::Bull
            || spec_phase_from_changes(sh, sz, cy) == MarketPhase::ExtremeBull),
        (spec_light(sh, sz, cy) == Light::Red) <==> (spec_phase_from_changes(sh, sz, cy) == MarketPhase::Bear
            || spec_phase_from_changes(sh, sz, cy) == MarketPhase::ExtremeBear),
        (spec_light(sh, sz, cy) == Light::Yellow) <==> spec_phase_from_changes(sh, sz, cy) == MarketPhase::Sideways,
{
}

/// The market light with how many indices rose and fell.
pub struct MarketLight {
    pub light: Light,
    pub up_count: u8,
    pub down_count: u8,
}

impl AlertService {
    /// Whether a rule fires and the reasons, given its four checks.
    pub fn evaluate_rule(&self, price_above: RuleCheck, price_below: RuleCheck, change_above: RuleCheck, change_below: RuleCheck) -> (v: RuleVerdict)
        ensures
            v.triggered == (price_above.hit || price_below.hit || change_above.hit || change_below.hit),
            views(v.reasons@) == spec_rule_reasons(price_above, price_below, change_above, change_below),
            v.summary@ == join(spec_rule_reasons(price_above, price_below, change_above, change_below), "; "@),
    {
        let ghost expected = spec_rule_reasons(price_above, price_below, change_above, change_below);
        let mut reasons: Vec<String> = Vec::new();
        if price_above.hit {
            reasons.push(reason_text("价格", price_above.value.as_str(), ">=", price_above.bound.as_str(), ""));
        }
        if price_below.hit {
            reasons.push(reason_text("价格", price_below.value.as_str(), "<=", price_below.bound.as_str(), ""));
        }
        if change_above.hit {
            reasons.push(reason_text("涨跌幅", change_above.value.as_str(), "%>=", change_above.bound.as_str(), "%"));
        }
        if change_below.hit {
            reasons.push(reason_text("涨跌幅", change_below.value.as_str(), "%<=", change_below.bound.as_str(), "%"));
        }
        proof {
            reveal_strlit("");
            assert(views(reasons@) =~= expected);
        }
        let summary = crate::strings::join_lines(&reasons, "; ");
        RuleVerdict {
            triggered: price_above.hit || price_below.hit || change_above.hit || change_below.hit,
            reasons,
            summary,
        }
    }

    /// Sums up a check of all enabled rules: how many there were, which of
    /// them fired (see `rule_fired`) and so are written, and how many.
    pub fn check_all_summary(&self, runs: &Vec<RuleRun>) -> (r: CheckAllSummary)
        ensures
            r.total == runs.len(),
            r.fired@ == fired_ids(runs@),
            r.triggered == fired_ids(runs@).len(),
            r.triggered <= r.total,
    {
        let mut fired: Vec<i64> = Vec::new();
        let mut i: usize = 0;
        while i < runs.len()
            invariant
                0 <= i <= runs.len(),
                fired@ == fired_ids(runs@.take(i as int)),
                fired@.len() <= i,
            decreases runs.len() - i,
        {
            proof {
                assert(runs@.take(i + 1).drop_last() =~= runs@.take(i as int));
                assert(runs@.take(i + 1).last() == runs@[i as int]);
                lemma_fired_ids_len(runs@.take(i as int));
            }
            let run = &runs[i];
            let fires = match &run.verdict {
                Some(v) => !run.code.as_str().is_empty() && v.triggered,
                None => false,
            };
            if fires {
                fired.push(run.rule_id);
            }
            i = i + 1;
        }
        proof {
            assert(runs@.take(runs.len() as int) =~= runs@);
        }
        CheckAllSummary { total: runs.len(), triggered: fired.len(), fired }
    }

    /// The market light from the day's changes of the three main indices.
    pub fn market_light(&self, sh: ChangeLevel, sz: ChangeLevel, cy: ChangeLevel) -> (m: MarketLight)
        ensures
            m.light == spec_light(sh, sz, cy),
            m.up_count == count_if(is_rising(sh), is_rising(sz), is_rising(cy)),
            m.down_count == count_if(is_falling(sh), is_falling(sz), is_falling(cy)),
    {
        let rising = |l: ChangeLevel| -> (b: bool)
            ensures
                b == is_rising(l),
        { l == ChangeLevel::Up || l == ChangeLevel::Surge };
        let falling = |l: ChangeLevel| -> (b: bool)
            ensures
                b == is_falling(l),
        { l == ChangeLevel::Plunge || l == ChangeLevel::Down };
        let mut up: u8 = 0;
        let mut down: u8 = 0;
        if rising(sh) { up = up + 1; }
        if rising(sz) { up = up + 1; }
        if rising(cy) { up = up + 1; }
        if falling(sh) { down = down + 1; }
        if falling(sz) { down = down + 1; }
        if falling(cy) { down = down + 1; }
        let light = if up == 3 { Light::Green } else if down == 3 { Light::Red } else { Light::Yellow };
        MarketLight { light, up_count: up, down_count: down }
    }

    /// A new rule needs a stock code (`请提供股票代码`) and a rule type (`请提供规则类型`).
    pub fn check_new_rule(&self, code: &str, rule_type: &str) -> (r: Result<(), ServiceError>)
        ensures
            code@.len() == 0 ==> (r matches Err(ServiceError::Validation(m)) && m@ == "请提供股票代码"@),
            code@.len() != 0 && rule_type@.len() == 0 ==> (r matches Err(ServiceError::Validation(m)) && m@ == "请提供规则类型"@),
            code@.len() != 0 && rule_type@.len() != 0 ==> r is Ok,
    {
        if code.is_empty() {
            return Err(ServiceError::Validation("请提供股票代码".to_owned()));
        }
        if rule_type.is_empty() {
            return Err(ServiceError::Validation("请提供规则类型".to_owned()));
        }
        Ok(())
    }

    /// Changing, deleting, enabling or disabling a rule, or managing its
    /// cooldowns, needs the rule's id (`请提供规则ID`).
    pub fn check_rule_id(&self, id: i64) -> (r: Result<(), ServiceError>)
        ensures
            id == 0 ==> (r matches Err(ServiceError::Validation(m)) && m@ == "请提供规则ID"@),
            id != 0 ==> r is Ok,
    {
        if id == 0 {
            Err(ServiceError::Validation("请提供规则ID".to_owned()))
        } else {
            Ok(())
        }
    }

    /// Clearing a cooldown needs the rule's id and a target (`请提供target`).
    pub fn check_cooldown_clear(&self, rule_id: i64, target: &str) -> (r: Result<(), ServiceError>)
        ensures
            rule_id == 0 ==> (r matches Err(ServiceError::Validation(m)) && m@ == "请提供规则ID"@),
            rule_id != 0 && target@.len() == 0 ==> (r matches Err(ServiceError::Validation(m)) && m@ == "请提供target"@),
            rule_id != 0 && target@.len() != 0 ==> r is Ok,
    {
        if rule_id == 0 {
            return Err(ServiceError::Validation("请提供规则ID".to_owned()));
        }
        if target.is_empty() {
            return Err(ServiceError::Validation("请提供target".to_owned()));
        }
        Ok(())
    }

    /// Logging a notification needs its trigger (`请提供触发ID`) and its
    /// channel (`请提供通知渠道`).
    pub fn check_notification_log(&self, trigger_id: i64, channel: &str) -> (r: Result<(), ServiceError>)
        ensures
            trigger_id == 0 ==> (r matches Err(ServiceError::Validation(m)) && m@ == "请提供触发ID"@),
            trigger_id != 0 && channel@.len() == 0 ==> (r matches Err(ServiceError::Validation(m)) && m@ == "请提供通知渠道"@),
            trigger_id != 0 && channel@.len() != 0 ==> r is Ok,
    {
        if trigger_id == 0 {
            return Err(ServiceError::Validation("请提供触发ID".to_owned()));
        }
        if channel.is_empty() {
            return Err(ServiceError::Validation("请提供通知渠道".to_owned()));
        }
        Ok(())
    }
}

/// The English reason texts the background alert worker records.
pub open spec fn spec_worker_reasons(price_above: RuleCheck, price_below: RuleCheck, change_above: RuleCheck, change_below: RuleCheck) -> Seq<Seq<char>> {
    (if price_above.hit { seq!["price "@ + price_above.value@ + ">="@ + price_above.bound@] } else { Seq::empty() })
        + (if price_below.hit { seq!["price "@ + price_below.value@ + "<="@ + price_below.bound@] } else { Seq::empty() })
        + (if change_above.hit { seq!["change "@ + change_above.value@ + "%>="@ + change_above.bound@ + "%"@] } else { Seq::empty() })
        + (if change_below.hit { seq!["change "@ + change_below.value@ + "%<="@ + change_below.bound@ + "%"@] } else { Seq::empty() })
}

/// The background worker that checks every enabled rule.
pub struct AlertWorker {}

impl AlertWorker {
    pub fn new() -> (s: Self) {
        AlertWorker {}
    }

    /// A rule fires when any of its conditions holds, the volume bound
    /// included.
    pub fn fires(&self, price_above: bool, price_below: bool, change_above: bool, change_below: bool, volume_above: bool) -> (b: bool)
        ensures
            b == (price_above || price_below || change_above || change_below || volume_above),
    {
        price_above || price_below || change_above || change_below || volume_above
    }

    /// The reasons recorded for a fired rule, joined with `; ` (the volume
    /// bound is not described).
    pub fn describe(&self, price_above: RuleCheck, price_below: RuleCheck, change_above: RuleCheck, change_below: RuleCheck) -> (r: String)
        ensures
            r@ == join(spec_worker_reasons(price_above, price_below, change_above, change_below), "; "@),
    {
        let ghost expected = spec_worker_reasons(price_above, price_below, change_above, change_below);
        let mut reasons: Vec<String> = Vec::new();
        if price_above.hit {
            reasons.push(reason_text("price ", price_above.value.as_str(), ">=", price_above.bound.as_str(), ""));
        }
        if price_below.hit {
            reasons.push(reason_text("price ", price_below.value.as_str(), "<=", price_below.bound.as_str(), ""));
        }
        if change_above.hit {
            reasons.push(reason_text("change ", change_above.value.as_str(), "%>=", change_above.bound.as_str(), "%"));
        }
        if change_below.hit {
            reasons.push(reason_text("change ", change_below.value.as_str(), "%<=", change_below.bound.as_str(), "%"));
        }
        proof {
            reveal_strlit("");
            assert(views(reasons@) =~= expected);
        }
        crate::strings::join_lines(&reasons, "; ")
    }

    /// The indicator request needs a stock code (`请提供股票代码`).
    pub fn check_indicator_request(&self, code: &str) -> (r: Result<(), ServiceError>)
        ensures
            code@.len() == 0 ==> (r matches Err(ServiceError::Validation(m)) && m@ == "请提供股票代码"@),
            code@.len() != 0 ==> r is Ok,
    {
        if code.is_empty() {
            Err(ServiceError::Validation("请提供股票代码".to_owned()))
        } else {
            Ok(())
        }
    }
}

/// The methods the alert worker answers.
#[derive(Clone, Copy, PartialEq, Eq, Structural, Debug)]
pub enum AlertWorkerMethod {
    Run,
    RunSingle,
    Indicators,
    MarketLight,
}

/// The method named `name`.
pub open spec fn alert_worker_method_named(name: Seq<char>) -> Option<AlertWorkerMethod> {
    if name == "run"@ {
        Some(AlertWorkerMethod::Run)
    } else if name == "run_single"@ {
        Some(AlertWorkerMethod::RunSingle)
    } else if name == "indicators"@ {
        Some(AlertWorkerMethod::Indicators)
    } else if name == "market_light"@ {
        Some(AlertWorkerMethod::MarketLight)
    } else {
        None
    }
}

impl AlertWorker {
    /// The method a request names; an unknown one is a routing error
    /// `alert_worker不支持方法: <method>`.
    pub fn dispatch(&self, method: &str) -> (r: Result<AlertWorkerMethod, ServiceError>)
        ensures
            match alert_worker_method_named(method@) {
                Some(m) => r == Ok::<AlertWorkerMethod, ServiceError>(m),
                None => r matches Err(ServiceError::ApiRouting(msg)) && msg@ == "alert_worker不支持方法: "@ + method@,
            },
    {
        let r = if str_eq(method, "run") {
            Some(AlertWorkerMethod::Run)
        } else if str_eq(method, "run_single") {
            Some(AlertWorkerMethod::RunSingle)
        } else if str_eq(method, "indicators") {
            Some(AlertWorkerMethod::Indicators)
        } else if str_eq(method, "market_light") {
            Some(AlertWorkerMethod::MarketLight)
        } else {
            None
        };
        match r {
            Some(m) => Ok(m),
            None => Err(unsupported_method("alert_worker不支持方法: ", method)),
        }
    }
}

} // verus!
