//! Decision signals: creation, review, feedback and data quality.
use vstd::prelude::*;
use crate::json::str_eq;
use crate::services::error::{unsupported_method, ServiceError};
use crate::services::report::{spec_translate_confidence, spec_translate_decision};
use crate::text::{contains_seq, find_from, from_chars, push_str, to_chars};

verus! {

/// The methods the service answers.
#[derive(Clone, Copy, PartialEq, Eq, Structural, Debug)]
pub enum DecisionMethod {
    Create,
    List,
    Latest,
    Detail,
    UpdateStatus,
    Outcomes,
    Feedback,
    FeedbackList,
    Reassess,
    DataQuality,
    ProfilePolicy,
    EvaluateOutcomes,
    Stats,
}

/// The method named `name`.
pub open spec fn decision_method_named(name: Seq<char>) -> Option<DecisionMethod> {
    if name == "create"@ {
        Some(DecisionMethod::Create)
    } else if name == "list"@ {
        Some(DecisionMethod::List)
    } else if name == "latest"@ {
        Some(DecisionMethod::Latest)
    } else if name == "detail"@ {
        Some(DecisionMethod::Detail)
    } else if name == "update_status"@ {
        Some(DecisionMethod::UpdateStatus)
    } else if name == "outcomes"@ {
        Some(DecisionMethod::Outcomes)
    } else if name == "feedback"@ {
        Some(DecisionMethod::Feedback)
    } else if name == "feedback_list"@ {
        Some(DecisionMethod::FeedbackList)
    } else if name == "reassess"@ {
        Some(DecisionMethod::Reassess)
    } else if name == "data_quality"@ {
        Some(DecisionMethod::DataQuality)
    } else if name == "profile_policy"@ {
        Some(DecisionMethod::ProfilePolicy)
    } else if name == "evaluate_outcomes"@ {
        Some(DecisionMethod::EvaluateOutcomes)
    } else if name == "stats"@ {
        Some(DecisionMethod::Stats)
    } else {
        None
    }
}

pub struct DecisionService {}

impl DecisionService {
    pub fn new() -> (s: Self) {
        DecisionService {}
    }

    /// The method a request names; an unknown one is a routing error
    /// `decision不支持方法: <method>`.
    pub fn dispatch(&self, method: &str) -> (r: Result<DecisionMethod, ServiceError>)
        ensures
            match decision_method_named(method@) {
                Some(m) => r == Ok::<DecisionMethod, ServiceError>(m),
                None => r matches Err(ServiceError::ApiRouting(msg)) && msg@ == "decision不支持方法: "@ + method@,
            },
    {
        let r = if str_eq(method, "create") {
            Some(DecisionMethod::Create)
        } else if str_eq(method, "list") {
            Some(DecisionMethod::List)
        } else if str_eq(method, "latest") {
            Some(DecisionMethod::Latest)
        } else if str_eq(method, "detail") {
            Some(DecisionMethod::Detail)
        } else if str_eq(method, "update_status") {
            Some(DecisionMethod::UpdateStatus)
        } else if str_eq(method, "outcomes") {
            Some(DecisionMethod::Outcomes)
        } else if str_eq(method, "feedback") {
            Some(DecisionMethod::Feedback)
        } else if str_eq(method, "feedback_list") {
            Some(DecisionMethod::FeedbackList)
        } else if str_eq(method, "reassess") {
            Some(DecisionMethod::Reassess)
        } else if str_eq(method, "data_quality") {
            Some(DecisionMethod::DataQuality)
        } else if str_eq(method, "profile_policy") {
            Some(DecisionMethod::ProfilePolicy)
        } else if str_eq(method, "evaluate_outcomes") {
            Some(DecisionMethod::EvaluateOutcomes)
        } else if str_eq(method, "stats") {
            Some(DecisionMethod::Stats)
        } else {
            None
        };
        match r {
            Some(m) => Ok(m),
            None => Err(unsupported_method("decision不支持方法: ", method)),
        }
    }
}


/// The life-cycle states of a signal, stored as the numbers 1 to 5.
#[derive(Clone, Copy, PartialEq, Eq, Structural, Debug)]
pub enum SignalStatus {
    Active,
    Expired,
    Invalidated,
    Closed,
    Archived,
}

/// The state a status name stands for.
pub open spec fn signal_status_named(name: Seq<char>) -> Option<SignalStatus> {
    if name == "active"@ {
        Some(SignalStatus::Active)
    } else if name == "expired"@ {
        Some(SignalStatus::Expired)
    } else if name == "invalidated"@ {
        Some(SignalStatus::Invalidated)
    } else if name == "closed"@ {
        Some(SignalStatus::Closed)
    } else if name == "archived"@ {
        Some(SignalStatus::Archived)
    } else {
        None
    }
}

/// The number a state is stored as.
pub open spec fn status_number(s: SignalStatus) -> u8 {
    match s {
        SignalStatus::Active => 1,
        SignalStatus::Expired => 2,
        SignalStatus::Invalidated => 3,
        SignalStatus::Closed => 4,
        SignalStatus::Archived => 5,
    }
}

impl SignalStatus {
    pub fn named(name: &str) -> (r: Option<SignalStatus>)
        ensures
            r == signal_status_named(name@),
    {
        if str_eq(name, "active") {
            Some(SignalStatus::Active)
        } else if str_eq(name, "expired") {
            Some(SignalStatus::Expired)
        } else if str_eq(name, "invalidated") {
            Some(SignalStatus::Invalidated)
        } else if str_eq(name, "closed") {
            Some(SignalStatus::Closed)
        } else if str_eq(name, "archived") {
            Some(SignalStatus::Archived)
        } else {
            None
        }
    }

    pub fn number(self) -> (n: u8)
        ensures
            n == status_number(self),
    {
        match self {
            SignalStatus::Active => 1,
            SignalStatus::Expired => 2,
            SignalStatus::Invalidated => 3,
            SignalStatus::Closed => 4,
            SignalStatus::Archived => 5,
        }
    }
}

/// Actions that bet on a fall: their stop loss lies above the entry and
/// their target below.
pub open spec fn is_bearish_action(action: Seq<char>) -> bool {
    action == "sell"@ || action == "reduce"@ || action == "avoid"@
}

pub fn is_bearish(action: &str) -> (b: bool)
    ensures
        b == is_bearish_action(action@),
{
    str_eq(action, "sell") || str_eq(action, "reduce") || str_eq(action, "avoid")
}

/// The fields of a new signal that creation checks and completes.
pub struct NewSignal {
    pub code: String,
    pub action: String,
    pub scope_type: String,
}

/// The score of a signal's data: one point each for its reasoning, its
/// evidence, an entry price, a stop loss and a target price.
pub open spec fn spec_quality_score(reasoning: bool, evidence: bool, entry: bool, stop: bool, target: bool) -> int {
    (if reasoning { 1int } else { 0 }) + (if evidence { 1int } else { 0 }) + (if entry { 1int } else { 0 })
        + (if stop { 1int } else { 0 }) + (if target { 1int } else { 0 })
}

/// The level a score reads as.
pub open spec fn quality_level(score: int) -> Seq<char> {
    if score == 5 {
        "excellent"@
    } else if score == 4 {
        "good"@
    } else if score == 3 {
        "fair"@
    } else if score == 2 {
        "poor"@
    } else {
        "incomplete"@
    }
}

/// A signal's data quality.
pub struct SignalQuality {
    pub score: u8,
    pub level: &'static str,
    /// For reasoning, evidence, entry price, stop loss and target price in
    /// turn: whether it is present.
    pub present: [bool; 5],
}

/// Where the stop loss and the target stand against the current price.
pub enum Reassessment {
    /// The stop loss was reached: the signal is invalidated.
    StopHit,
    /// The target was reached: the signal is closed.
    TargetHit,
    /// Neither: the signal stays active.
    Unchanged,
}

/// Where the current price stands against a stop loss or a target price;
/// a level that is not positive is not set.
#[derive(Clone, Copy, PartialEq, Eq, Structural, Debug)]
pub enum LevelMark {
    Unset,
    Below,
    At,
    Above,
}

/// What a price check finds: a bearish signal is stopped out when the price
/// reaches its stop from below and meets its target from above; any other
/// signal the other way round. A hit stop wins over a hit target.
pub open spec fn spec_reassessment(bearish: bool, stop: LevelMark, target: LevelMark) -> Reassessment {
    let hit_stop = if bearish { stop is At || stop is Above } else { stop is At || stop is Below };
    let hit_target = if bearish { target is At || target is Below } else { target is At || target is Above };
    if hit_stop {
        Reassessment::StopHit
    } else if hit_target {
        Reassessment::TargetHit
    } else {
        Reassessment::Unchanged
    }
}

/// The same price position seen from the other side.
pub open spec fn mirror_mark(m: LevelMark) -> LevelMark {
    match m {
        LevelMark::Below => LevelMark::Above,
        LevelMark::Above => LevelMark::Below,
        LevelMark::At => LevelMark::At,
        LevelMark::Unset => LevelMark::Unset,
    }
}

/// A bearish signal is judged as a long one in the mirror-image market, a
/// level that is not set is never hit, and the price resting at the stop
/// loss always stops the signal out.
pub proof fn lemma_reassessment_laws(bearish: bool, stop: LevelMark, target: LevelMark)
    ensures
        spec_reassessment(true, stop, target) == spec_reassessment(false, mirror_mark(stop), mirror_mark(target)),
        spec_reassessment(bearish, LevelMark::Unset, LevelMark::Unset) == Reassessment::Unchanged,
        spec_reassessment(bearish, LevelMark::At, target) == Reassessment::StopHit,
        spec_reassessment(bearish, LevelMark::Unset, target) != Reassessment::StopHit,
{
}

/// Classifies a price check of a signal with `action`, given where the
/// current price stands against its stop loss and its target price.
pub fn reassess(action: &str, stop: LevelMark, target: LevelMark) -> (r: Reassessment)
    ensures
        r == spec_reassessment(is_bearish_action(action@), stop, target),
{
    let bearish = is_bearish(action);
    let hit_stop = match stop {
        LevelMark::At => true,
        LevelMark::Above => bearish,
        LevelMark::Below => !bearish,
        LevelMark::Unset => false,
    };
    let hit_target = match target {
        LevelMark::At => true,
        LevelMark::Below => bearish,
        LevelMark::Above => !bearish,
        LevelMark::Unset => false,
    };
    if hit_stop {
        Reassessment::StopHit
    } else if hit_target {
        Reassessment::TargetHit
    } else {
        Reassessment::Unchanged
    }
}

impl DecisionService {
    /// A new signal needs a stock code (`请提供股票代码`) and an action
    /// (`请提供信号动作`); without a scope it is scoped to the watch list.
    pub fn check_new_signal(&self, sig: NewSignal) -> (r: Result<NewSignal, ServiceError>)
        ensures
            sig.code@.len() == 0 ==> (r matches Err(ServiceError::Validation(m)) && m@ == "请提供股票代码"@),
            sig.code@.len() != 0 && sig.action@.len() == 0 ==> (r matches Err(ServiceError::Validation(m)) && m@ == "请提供信号动作"@),
            sig.code@.len() != 0 && sig.action@.len() != 0 ==> (r matches Ok(s)
                && s.code@ == sig.code@ && s.action@ == sig.action@
                && s.scope_type@ == (if sig.scope_type@.len() == 0 { "watchlist"@ } else { sig.scope_type@ })),
    {
        if sig.code.as_str().is_empty() {
            return Err(ServiceError::Validation("请提供股票代码".to_owned()));
        }
        if sig.action.as_str().is_empty() {
            return Err(ServiceError::Validation("请提供信号动作".to_owned()));
        }
        let scope_type = if sig.scope_type.as_str().is_empty() { "watchlist".to_owned() } else { sig.scope_type };
        Ok(NewSignal { code: sig.code, action: sig.action, scope_type })
    }

    /// A status change needs a signal id (`请提供信号ID`), a status
    /// (`请提供新状态`) and a known one (`无效状态: <status>`).
    pub fn check_status_change(&self, id: i64, status: &str) -> (r: Result<SignalStatus, ServiceError>)
        ensures
            id == 0 ==> (r matches Err(ServiceError::Validation(m)) && m@ == "请提供信号ID"@),
            id != 0 && status@.len() == 0 ==> (r matches Err(ServiceError::Validation(m)) && m@ == "请提供新状态"@),
            id != 0 && status@.len() != 0 ==> match signal_status_named(status@) {
                Some(st) => r == Ok::<SignalStatus, ServiceError>(st),
                None => r matches Err(ServiceError::Validation(m)) && m@ == "无效状态: "@ + status@,
            },
    {
        if id == 0 {
            return Err(ServiceError::Validation("请提供信号ID".to_owned()));
        }
        if status.is_empty() {
            return Err(ServiceError::Validation("请提供新状态".to_owned()));
        }
        match SignalStatus::named(status) {
            Some(st) => Ok(st),
            None => {
                let mut out: Vec<char> = Vec::new();
                push_str(&mut out, "无效状态: ");
                push_str(&mut out, status);
                Err(ServiceError::Validation(from_chars(&out)))
            },
        }
    }

    /// The status a list is filtered by: a known name's number, `1` (active)
    /// for any other.
    pub fn list_status_filter(&self, status: &str) -> (n: u8)
        ensures
            n == match signal_status_named(status@) {
                Some(st) => status_number(st),
                None => 1u8,
            },
    {
        match SignalStatus::named(status) {
            Some(st) => st.number(),
            None => 1,
        }
    }

    /// Feedback needs a signal id (`请提供信号ID`), a value (`请提供反馈值`)
    /// and one of `agree`, `disagree`, `partial`.
    pub fn check_feedback(&self, signal_id: i64, feedback: &str) -> (r: Result<(), ServiceError>)
        ensures
            signal_id == 0 ==> (r matches Err(ServiceError::Validation(m)) && m@ == "请提供信号ID"@),
            signal_id != 0 && feedback@.len() == 0 ==> (r matches Err(ServiceError::Validation(m)) && m@ == "请提供反馈值"@),
            signal_id != 0 && feedback@.len() != 0 ==> if feedback@ == "agree"@ || feedback@ == "disagree"@ || feedback@ == "partial"@ {
                r is Ok
            } else {
                r matches Err(ServiceError::Validation(m)) && m@ == "无效反馈值: "@ + feedback@ + "，支持: agree/disagree/partial"@
            },
    {
        if signal_id == 0 {
            return Err(ServiceError::Validation("请提供信号ID".to_owned()));
        }
        if feedback.is_empty() {
            return Err(ServiceError::Validation("请提供反馈值".to_owned()));
        }
        if str_eq(feedback, "agree") || str_eq(feedback, "disagree") || str_eq(feedback, "partial") {
            Ok(())
        } else {
            let mut out: Vec<char> = Vec::new();
            push_str(&mut out, "无效反馈值: ");
            push_str(&mut out, feedback);
            push_str(&mut out, "，支持: agree/disagree/partial");
            Err(ServiceError::Validation(from_chars(&out)))
        }
    }

    /// The data quality of a signal from which of its parts are present.
    pub fn data_quality(&self, reasoning: bool, evidence: bool, entry: bool, stop: bool, target: bool) -> (q: SignalQuality)
        ensures
            q.score == spec_quality_score(reasoning, evidence, entry, stop, target),
            q.level@ == quality_level(q.score as int),
            q.present@ == seq![reasoning, evidence, entry, stop, target],
    {
        let mut score: u8 = 0;
        if reasoning {
            score = score + 1;
        }
        if evidence {
            score = score + 1;
        }
        if entry {
            score = score + 1;
        }
        if stop {
            score = score + 1;
        }
        if target {
            score = score + 1;
        }
        let level = if score == 5 {
            "excellent"
        } else if score == 4 {
            "good"
        } else if score == 3 {
            "fair"
        } else if score == 2 {
            "poor"
        } else {
            "incomplete"
        };
        let present = [reasoning, evidence, entry, stop, target];
        assert(present@ =~= seq![reasoning, evidence, entry, stop, target]);
        SignalQuality { score, level, present }
    }

    /// The new state of an active signal after a price check: invalidated
    /// when its stop loss was hit (checked first), closed when its target
    /// was, unchanged otherwise.
    pub fn reassessed_status(&self, outcome: Reassessment) -> (r: Option<SignalStatus>)
        ensures
            outcome is StopHit ==> r == Some(SignalStatus::Invalidated),
            outcome is TargetHit ==> r == Some(SignalStatus::Closed),
            outcome is Unchanged ==> r is None,
    {
        match outcome {
            Reassessment::StopHit => Some(SignalStatus::Invalidated),
            Reassessment::TargetHit => Some(SignalStatus::Closed),
            Reassessment::Unchanged => None,
        }
    }
}

/// The action a stored analysis's decision type becomes.
pub open spec fn spec_action_for(decision_type: Seq<char>) -> Seq<char> {
    if decision_type == "强烈推荐"@ || decision_type == "推荐"@ || decision_type == "买入"@ {
        "buy"@
    } else if decision_type == "增持"@ || decision_type == "加仓"@ {
        "add"@
    } else if decision_type == "持有"@ || decision_type == "观望"@ {
        "hold"@
    } else if decision_type == "减持"@ || decision_type == "减仓"@ {
        "reduce"@
    } else if decision_type == "卖出"@ || decision_type == "回避"@ {
        "sell"@
    } else if decision_type == "关注"@ {
        "watch"@
    } else if decision_type == "警示"@ {
        "avoid"@
    } else {
        "hold"@
    }
}

/// A decision that a report shows by its Chinese label (买入, 卖出, 持有)
/// becomes, when read back from a stored analysis, the same action again:
/// a sell recommendation is a sell signal, and so bearish.
pub proof fn lemma_report_labels_read_back(decision: Seq<char>)
    requires
        decision == "buy"@ || decision == "sell"@ || decision == "hold"@,
    ensures
        spec_action_for(spec_translate_decision(decision, false)) == decision,
        is_bearish_action(spec_action_for(spec_translate_decision(decision, false))) <==> decision == "sell"@,
{
    reveal_strlit("buy");
    reveal_strlit("sell");
    reveal_strlit("hold");
    reveal_strlit("reduce");
    reveal_strlit("avoid");
    reveal_strlit("强烈推荐");
    reveal_strlit("推荐");
    reveal_strlit("买入");
    reveal_strlit("增持");
    reveal_strlit("加仓");
    reveal_strlit("持有");
    reveal_strlit("观望");
    reveal_strlit("减持");
    reveal_strlit("减仓");
    reveal_strlit("卖出");
    reveal_strlit("回避");
    let names = seq!["强烈推荐"@, "推荐"@, "买入"@, "增持"@, "加仓"@, "持有"@, "观望"@, "减持"@, "减仓"@, "卖出"@];
    assert(names[1][0] != names[2][0] && names[1][0] != names[5][0] && names[1][0] != names[9][0]);
    assert(names[2][0] != names[3][0] && names[2][0] != names[4][0] && names[2][0] != names[5][0]);
    assert(names[5][0] != names[3][0] && names[5][0] != names[4][0] && names[5][0] != names[6][0]);
    assert(names[9][0] != names[3][0] && names[9][0] != names[4][0] && names[9][0] != names[6][0]);
    assert(names[9][0] != names[7][0] && names[9][0] != names[8][0] && names[9][0] != names[2][0]);
    assert(names[9][0] != names[5][0]);
    assert("buy"@[0] != "sell"@[0] && "hold"@[0] != "sell"@[0] && "buy"@.len() != "reduce"@.len());
    assert("hold"@.len() != "reduce"@.len() && "buy"@.len() != "avoid"@.len() && "hold"@.len() != "avoid"@.len());
    assert("sell"@.len() != "reduce"@.len());
}

/// The decision types that read as bearish signals are exactly the
/// reducing (减持, 减仓), selling (卖出, 回避) and warning (警示) ones.
pub proof fn lemma_bearish_decision_types(decision_type: Seq<char>)
    ensures
        is_bearish_action(spec_action_for(decision_type)) <==> (decision_type == "减持"@ || decision_type == "减仓"@
            || decision_type == "回避"@ || decision_type == "卖出"@ || decision_type == "警示"@),
{
    reveal_strlit("buy");
    reveal_strlit("add");
    reveal_strlit("hold");
    reveal_strlit("watch");
    reveal_strlit("sell");
    reveal_strlit("reduce");
    reveal_strlit("avoid");
    let bulls = seq!["buy"@, "add"@, "hold"@, "watch"@];
    assert(bulls[0][0] == 'b' && bulls[1] != "avoid"@ && bulls[2][0] == 'h' && bulls[3][0] == 'w') by {
        assert("add"@.len() != "avoid"@.len());
    }
    assert("sell"@[0] == 's' && "reduce"@[0] == 'r' && "avoid"@[0] == 'a');
    assert("add"@.len() == 3 && "avoid"@.len() == 5);
    reveal_strlit("强烈推荐");
    reveal_strlit("推荐");
    reveal_strlit("买入");
    reveal_strlit("增持");
    reveal_strlit("加仓");
    reveal_strlit("持有");
    reveal_strlit("观望");
    reveal_strlit("关注");
    reveal_strlit("减持");
    reveal_strlit("减仓");
    reveal_strlit("卖出");
    reveal_strlit("回避");
    reveal_strlit("警示");
    assert("强烈推荐"@[0] != "减持"@[0] && "强烈推荐"@[0] != "减仓"@[0] && "强烈推荐"@[0] != "卖出"@[0] && "强烈推荐"@[0] != "回避"@[0] && "强烈推荐"@[0] != "警示"@[0]);
    assert("推荐"@[0] != "减持"@[0] && "推荐"@[0] != "减仓"@[0] && "推荐"@[0] != "卖出"@[0] && "推荐"@[0] != "回避"@[0] && "推荐"@[0] != "警示"@[0]);
    assert("买入"@[0] != "减持"@[0] && "买入"@[0] != "减仓"@[0] && "买入"@[0] != "卖出"@[0] && "买入"@[0] != "回避"@[0] && "买入"@[0] != "警示"@[0]);
    assert("增持"@[0] != "减持"@[0] && "增持"@[0] != "减仓"@[0] && "增持"@[0] != "卖出"@[0] && "增持"@[0] != "回避"@[0] && "增持"@[0] != "警示"@[0]);
    assert("加仓"@[0] != "减持"@[0] && "加仓"@[0] != "减仓"@[0] && "加仓"@[0] != "卖出"@[0] && "加仓"@[0] != "回避"@[0] && "加仓"@[0] != "警示"@[0]);
    assert("持有"@[0] != "减持"@[0] && "持有"@[0] != "减仓"@[0] && "持有"@[0] != "卖出"@[0] && "持有"@[0] != "回避"@[0] && "持有"@[0] != "警示"@[0]);
    assert("观望"@[0] != "减持"@[0] && "观望"@[0] != "减仓"@[0] && "观望"@[0] != "卖出"@[0] && "观望"@[0] != "回避"@[0] && "观望"@[0] != "警示"@[0]);
    assert("关注"@[0] != "减持"@[0] && "关注"@[0] != "减仓"@[0] && "关注"@[0] != "卖出"@[0] && "关注"@[0] != "回避"@[0] && "关注"@[0] != "警示"@[0]);
}

/// The market phase a stored market context reads as: rising words first,
/// then falling ones, else sideways.
pub open spec fn spec_market_phase(context: Seq<char>) -> Seq<char> {
    if contains_seq(context, "上涨"@) || contains_seq(context, "牛市"@) {
        "bull"@
    } else if contains_seq(context, "下跌"@) || contains_seq(context, "熊市"@) {
        "bear"@
    } else {
        "sideways"@
    }
}

/// The confidence a level stands for, in tenths.
pub open spec fn spec_confidence_tenths(level: Seq<char>) -> u8 {
    if level == "high"@ || level == "极高"@ || level == "高"@ {
        9
    } else if level == "medium"@ || level == "中"@ {
        6
    } else if level == "low"@ || level == "低"@ {
        3
    } else {
        5
    }
}

/// Confidence ranks the levels: high above medium, medium above an unknown
/// level, which stands above low; and a level reads the same whether stored
/// in English or by the Chinese label a report shows for it.
pub proof fn lemma_confidence_levels(level: Seq<char>)
    requires
        level == "high"@ || level == "medium"@ || level == "low"@,
    ensures
        spec_confidence_tenths(spec_translate_confidence(level, false)) == spec_confidence_tenths(level),
        spec_confidence_tenths("high"@) > spec_confidence_tenths("medium"@),
        spec_confidence_tenths("medium"@) > spec_confidence_tenths("unknown"@),
        spec_confidence_tenths("unknown"@) > spec_confidence_tenths("low"@),
{
    reveal_strlit("high");
    reveal_strlit("medium");
    reveal_strlit("low");
    reveal_strlit("unknown");
    reveal_strlit("极高");
    reveal_strlit("高");
    reveal_strlit("中");
    reveal_strlit("低");
    assert("high"@.len() == 4 && "medium"@.len() == 6 && "low"@.len() == 3 && "unknown"@.len() == 7);
    assert("极高"@.len() == 2 && "高"@.len() == 1 && "中"@.len() == 1 && "低"@.len() == 1);
    assert("高"@[0] != "中"@[0] && "高"@[0] != "低"@[0] && "中"@[0] != "低"@[0]);
}

/// Points for daily bars over the last 30 days: 2 for 20 or more, 1 for 10 or more.
pub open spec fn kline_points(count: i64) -> int {
    if count >= 20 { 2 } else if count >= 10 { 1 } else { 0 }
}

/// Points for news over the last 7 days: 1 for 3 or more.
pub open spec fn news_points(count: i64) -> int {
    if count >= 3 { 1 } else { 0 }
}

/// Points for recent analyses and for active signals: 1 for any.
pub open spec fn any_points(count: i64) -> int {
    if count > 0 { 1 } else { 0 }
}

/// How well a stock is covered by data.
pub struct Coverage {
    pub kline_score: u8,
    pub news_score: u8,
    pub analysis_score: u8,
    pub signal_score: u8,
    pub total: u8,
}

fn contains_str(s: &str, p: &str) -> (b: bool)
    ensures
        b == contains_seq(s@, p@),
{
    let v = to_chars(s);
    let pv = to_chars(p);
    match find_from(&v, &pv, 0) {
        Some(i) => true,
        None => false,
    }
}

/// Turns stored analyses into decision signals.
pub struct DecisionExtractor {}

impl DecisionExtractor {
    pub fn new() -> (s: Self) {
        DecisionExtractor {}
    }

    /// The action a decision type becomes; unknown types hold.
    pub fn action_for(&self, decision_type: &str) -> (r: &'static str)
        ensures
            r@ == spec_action_for(decision_type@),
    {
        if str_eq(decision_type, "强烈推荐") || str_eq(decision_type, "推荐") || str_eq(decision_type, "买入") {
            "buy"
        } else if str_eq(decision_type, "增持") || str_eq(decision_type, "加仓") {
            "add"
        } else if str_eq(decision_type, "持有") || str_eq(decision_type, "观望") {
            "hold"
        } else if str_eq(decision_type, "减持") || str_eq(decision_type, "减仓") {
            "reduce"
        } else if str_eq(decision_type, "卖出") || str_eq(decision_type, "回避") {
            "sell"
        } else if str_eq(decision_type, "关注") {
            "watch"
        } else if str_eq(decision_type, "警示") {
            "avoid"
        } else {
            "hold"
        }
    }

    /// The market phase a market context reads as.
    pub fn market_phase(&self, context: &str) -> (r: &'static str)
        ensures
            r@ == spec_market_phase(context@),
    {
        if contains_str(context, "上涨") || contains_str(context, "牛市") {
            "bull"
        } else if contains_str(context, "下跌") || contains_str(context, "熊市") {
            "bear"
        } else {
            "sideways"
        }
    }

    /// The confidence of a level, in tenths (0.9, 0.6, 0.3, else 0.5).
    pub fn confidence_tenths(&self, level: &str) -> (r: u8)
        ensures
            r == spec_confidence_tenths(level@),
    {
        if str_eq(level, "high") || str_eq(level, "极高") || str_eq(level, "高") {
            9
        } else if str_eq(level, "medium") || str_eq(level, "中") {
            6
        } else if str_eq(level, "low") || str_eq(level, "低") {
            3
        } else {
            5
        }
    }

    /// An extraction needs an analysis id (`请提供analysisId`).
    pub fn check_extract(&self, analysis_id: i64) -> (r: Result<(), ServiceError>)
        ensures
            analysis_id == 0 ==> (r matches Err(ServiceError::Validation(m)) && m@ == "请提供analysisId"@),
            analysis_id != 0 ==> r is Ok,
    {
        if analysis_id == 0 {
            Err(ServiceError::Validation("请提供analysisId".to_owned()))
        } else {
            Ok(())
        }
    }

    /// How many orphan analyses one batch takes: the request, held to 1..100.
    pub fn batch_limit(&self, requested: i64) -> (n: i64)
        ensures
            n == (if requested < 1 { 1 } else if requested > 100 { 100 } else { requested }),
    {
        if requested < 1 {
            1
        } else if requested > 100 {
            100
        } else {
            requested
        }
    }

    /// The coverage score of a stock from its counts of recent daily bars,
    /// news, analyses and active signals (at most 5).
    pub fn coverage(&self, daily: i64, news: i64, analyses: i64, signals: i64) -> (c: Coverage)
        ensures
            c.kline_score == kline_points(daily),
            c.news_score == news_points(news),
            c.analysis_score == any_points(analyses),
            c.signal_score == any_points(signals),
            c.total == kline_points(daily) + news_points(news) + any_points(analyses) + any_points(signals),
    {
        let kline_score: u8 = if daily >= 20 { 2 } else if daily >= 10 { 1 } else { 0 };
        let news_score: u8 = if news >= 3 { 1 } else { 0 };
        let analysis_score: u8 = if analyses > 0 { 1 } else { 0 };
        let signal_score: u8 = if signals > 0 { 1 } else { 0 };
        Coverage {
            kline_score,
            news_score,
            analysis_score,
            signal_score,
            total: kline_score + news_score + analysis_score + signal_score,
        }
    }
}

/// A signal's quality score never exceeds five, and is five exactly when
/// every part is present.
pub proof fn lemma_quality_score_bounds(reasoning: bool, evidence: bool, entry: bool, stop: bool, target: bool)
    ensures
        0 <= spec_quality_score(reasoning, evidence, entry, stop, target) <= 5,
        (spec_quality_score(reasoning, evidence, entry, stop, target) == 5) == (reasoning && evidence && entry && stop && target),
        (quality_level(spec_quality_score(reasoning, evidence, entry, stop, target)) == "excellent"@) == (reasoning && evidence && entry && stop && target),
{
    reveal_strlit("excellent");
    reveal_strlit("good");
    reveal_strlit("fair");
    reveal_strlit("poor");
    reveal_strlit("incomplete");
    assert("excellent"@.len() != "good"@.len());
    assert("excellent"@.len() != "fair"@.len());
    assert("excellent"@.len() != "poor"@.len());
    assert("excellent"@.len() != "incomplete"@.len());
}

/// The methods the decision extractor answers.
#[derive(Clone, Copy, PartialEq, Eq, Structural, Debug)]
pub enum ExtractorMethod {
    Extract,
    ExtractBatch,
    DataQuality,
}

/// The method named `name`.
pub open spec fn extractor_method_named(name: Seq<char>) -> Option<ExtractorMethod> {
    if name == "extract"@ {
        Some(ExtractorMethod::Extract)
    } else if name == "extract_batch"@ {
        Some(ExtractorMethod::ExtractBatch)
    } else if name == "data_quality"@ {
        Some(ExtractorMethod::DataQuality)
    } else {
        None
    }
}

impl DecisionExtractor {
    /// The method a request names; an unknown one is a routing error
    /// `decision_extractor不支持方法: <method>`.
    pub fn dispatch(&self, method: &str) -> (r: Result<ExtractorMethod, ServiceError>)
        ensures
            match extractor_method_named(method@) {
                Some(m) => r == Ok::<ExtractorMethod, ServiceError>(m),
                None => r matches Err(ServiceError::ApiRouting(msg)) && msg@ == "decision_extractor不支持方法: "@ + method@,
            },
    {
        let r = if str_eq(method, "extract") {
            Some(ExtractorMethod::Extract)
        } else if str_eq(method, "extract_batch") {
            Some(ExtractorMethod::ExtractBatch)
        } else if str_eq(method, "data_quality") {
            Some(ExtractorMethod::DataQuality)
        } else {
            None
        };
        match r {
            Some(m) => Ok(m),
            None => Err(unsupported_method("decision_extractor不支持方法: ", method)),
        }
    }
}

} // verus!
