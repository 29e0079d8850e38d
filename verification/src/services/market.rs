//! Market overview data.
use vstd::prelude::*;
use crate::json::str_eq;
use crate::services::error::{unsupported_method, ServiceError};
use crate::text::to_chars;

verus! {

/// The methods the service answers.
#[derive(Clone, Copy, PartialEq, Eq, Structural, Debug)]
pub enum MarketMethod {
    Overview,
    Review,
    HotSectors,
    HotStocks,
    Index,
    Calendar,
}

/// The method named `name`.
pub open spec fn market_method_named(name: Seq<char>) -> Option<MarketMethod> {
    if name == "overview"@ {
        Some(MarketMethod::Overview)
    } else if name == "review"@ {
        Some(MarketMethod::Review)
    } else if name == "hot_sectors"@ {
        Some(MarketMethod::HotSectors)
    } else if name == "hot_stocks"@ {
        Some(MarketMethod::HotStocks)
    } else if name == "index"@ {
        Some(MarketMethod::Index)
    } else if name == "calendar"@ {
        Some(MarketMethod::Calendar)
    } else {
        None
    }
}

pub struct MarketService {}

impl MarketService {
    pub fn new() -> (s: Self) {
        MarketService {}
    }

    /// The method a request names; an unknown one is a routing error
    /// `market不支持方法: <method>`.
    pub fn dispatch(&self, method: &str) -> (r: Result<MarketMethod, ServiceError>)
        ensures
            match market_method_named(method@) {
                Some(m) => r == Ok::<MarketMethod, ServiceError>(m),
                None => r matches Err(ServiceError::ApiRouting(msg)) && msg@ == "market不支持方法: "@ + method@,
            },
    {
        let r = if str_eq(method, "overview") {
            Some(MarketMethod::Overview)
        } else if str_eq(method, "review") {
            Some(MarketMethod::Review)
        } else if str_eq(method, "hot_sectors") {
            Some(MarketMethod::HotSectors)
        } else if str_eq(method, "hot_stocks") {
            Some(MarketMethod::HotStocks)
        } else if str_eq(method, "index") {
            Some(MarketMethod::Index)
        } else if str_eq(method, "calendar") {
            Some(MarketMethod::Calendar)
        } else {
            None
        };
        match r {
            Some(m) => Ok(m),
            None => Err(unsupported_method("market不支持方法: ", method)),
        }
    }
}


/// Where an index's change of the day lies.
#[derive(Clone, Copy, PartialEq, Eq, Structural, Debug)]
pub enum ChangeLevel {
    /// Below -2%.
    Plunge,
    /// Below 0, at least -2%.
    Down,
    /// Neither above nor below 0.
    Flat,
    /// Above 0, at most 2%.
    Up,
    /// Above 2%.
    Surge,
}

/// The market phase, from the three main indices or from moving averages.
#[derive(Clone, Copy, PartialEq, Eq, Structural, Debug)]
pub enum MarketPhase {
    ExtremeBear,
    ExtremeBull,
    Bear,
    Bull,
    BearLeaning,
    BullLeaning,
    Sideways,
    Unknown,
}

pub open spec fn is_falling(l: ChangeLevel) -> bool {
    l == ChangeLevel::Plunge || l == ChangeLevel::Down
}

pub open spec fn is_rising(l: ChangeLevel) -> bool {
    l == ChangeLevel::Up || l == ChangeLevel::Surge
}

/// The day's phase from the Shanghai, Shenzhen and ChiNext changes: all
/// plunging is an extreme bear, all surging an extreme bull, all falling a
/// bear, all rising a bull, anything else sideways.
pub open spec fn spec_phase_from_changes(sh: ChangeLevel, sz: ChangeLevel, cy: ChangeLevel) -> MarketPhase {
    if sh == ChangeLevel::Plunge && sz == ChangeLevel::Plunge && cy == ChangeLevel::Plunge {
        MarketPhase::ExtremeBear
    } else if sh == ChangeLevel::Surge && sz == ChangeLevel::Surge && cy == ChangeLevel::Surge {
        MarketPhase::ExtremeBull
    } else if is_falling(sh) && is_falling(sz) && is_falling(cy) {
        MarketPhase::Bear
    } else if is_rising(sh) && is_rising(sz) && is_rising(cy) {
        MarketPhase::Bull
    } else {
        MarketPhase::Sideways
    }
}

/// How one moving average (or price) stands against another.
#[derive(Clone, Copy, PartialEq, Eq, Structural, Debug)]
pub enum Rel {
    Above,
    Below,
    /// Neither above nor below.
    Level,
}

/// The moving-average comparisons a trend phase is read from.
#[derive(Clone, Copy)]
pub struct MaReading {
    /// MA5 against MA10.
    pub ma5_ma10: Rel,
    /// MA10 against MA20.
    pub ma10_ma20: Rel,
    /// MA20 against MA60.
    pub ma20_ma60: Rel,
    /// MA60 is 0 (fewer than 60 closes).
    pub ma60_missing: bool,
    /// The latest close against MA20.
    pub close_ma20: Rel,
}

/// Averages stacked upwards are a bull, downwards a bear; else the close
/// against MA20 leans one way or the other, or the market is sideways.
pub open spec fn spec_phase_from_mas(r: MaReading) -> MarketPhase {
    if r.ma5_ma10 == Rel::Above && r.ma10_ma20 == Rel::Above && (r.ma20_ma60 == Rel::Above || r.ma60_missing) {
        MarketPhase::Bull
    } else if r.ma5_ma10 == Rel::Below && r.ma10_ma20 == Rel::Below && (r.ma20_ma60 == Rel::Below || r.ma60_missing) {
        MarketPhase::Bear
    } else if r.close_ma20 == Rel::Above {
        MarketPhase::BullLeaning
    } else if r.close_ma20 == Rel::Below {
        MarketPhase::BearLeaning
    } else {
        MarketPhase::Sideways
    }
}

/// `r` read the other way up.
pub open spec fn flip_rel(r: Rel) -> Rel {
    match r {
        Rel::Above => Rel::Below,
        Rel::Below => Rel::Above,
        Rel::Level => Rel::Level,
    }
}

/// The phase of a mirror-image market.
pub open spec fn mirror_phase(p: MarketPhase) -> MarketPhase {
    match p {
        MarketPhase::ExtremeBear => MarketPhase::ExtremeBull,
        MarketPhase::ExtremeBull => MarketPhase::ExtremeBear,
        MarketPhase::Bear => MarketPhase::Bull,
        MarketPhase::Bull => MarketPhase::Bear,
        MarketPhase::BearLeaning => MarketPhase::BullLeaning,
        MarketPhase::BullLeaning => MarketPhase::BearLeaning,
        MarketPhase::Sideways => MarketPhase::Sideways,
        MarketPhase::Unknown => MarketPhase::Unknown,
    }
}

/// A change the other way.
pub open spec fn mirror_change(l: ChangeLevel) -> ChangeLevel {
    match l {
        ChangeLevel::Plunge => ChangeLevel::Surge,
        ChangeLevel::Surge => ChangeLevel::Plunge,
        ChangeLevel::Down => ChangeLevel::Up,
        ChangeLevel::Up => ChangeLevel::Down,
        ChangeLevel::Flat => ChangeLevel::Flat,
    }
}

/// Reading the averages upside down reads the mirror phase: the trend
/// rules treat rises and falls alike.
pub proof fn lemma_ma_phase_mirror(r: MaReading)
    ensures
        spec_phase_from_mas(MaReading {
            ma5_ma10: flip_rel(r.ma5_ma10),
            ma10_ma20: flip_rel(r.ma10_ma20),
            ma20_ma60: flip_rel(r.ma20_ma60),
            ma60_missing: r.ma60_missing,
            close_ma20: flip_rel(r.close_ma20),
        }) == mirror_phase(spec_phase_from_mas(r)),
{
}

/// Turning every index change the other way turns the day's phase into its
/// mirror: the change rules treat rises and falls alike.
pub proof fn lemma_change_phase_mirror(sh: ChangeLevel, sz: ChangeLevel, cy: ChangeLevel)
    ensures
        spec_phase_from_changes(mirror_change(sh), mirror_change(sz), mirror_change(cy))
            == mirror_phase(spec_phase_from_changes(sh, sz, cy)),
{
}

pub open spec fn phase_name(p: MarketPhase) -> Seq<char> {
    match p {
        MarketPhase::ExtremeBear => "extreme_bear"@,
        MarketPhase::ExtremeBull => "extreme_bull"@,
        MarketPhase::Bear => "bear"@,
        MarketPhase::Bull => "bull"@,
        MarketPhase::BearLeaning => "bear_leaning"@,
        MarketPhase::BullLeaning => "bull_leaning"@,
        MarketPhase::Sideways => "sideways"@,
        MarketPhase::Unknown => "unknown"@,
    }
}

impl MarketPhase {
    pub fn name(self) -> (s: &'static str)
        ensures
            s@ == phase_name(self),
    {
        match self {
            MarketPhase::ExtremeBear => "extreme_bear",
            MarketPhase::ExtremeBull => "extreme_bull",
            MarketPhase::Bear => "bear",
            MarketPhase::Bull => "bull",
            MarketPhase::BearLeaning => "bear_leaning",
            MarketPhase::BullLeaning => "bull_leaning",
            MarketPhase::Sideways => "sideways",
            MarketPhase::Unknown => "unknown",
        }
    }
}

/// How serious a guardrail finding is.
#[derive(Clone, Copy, PartialEq, Eq, Structural, Debug)]
pub enum Severity {
    Info,
    Warning,
    Critical,
}

/// Whether an action may go ahead in a market phase, why, and how serious it is.
pub struct Guardrail {
    pub allowed: bool,
    pub reason: &'static str,
    pub severity: Severity,
}

/// Buying into an extreme bear and selling into an extreme bull are
/// refused; doing so in a plain bear or bull is a warning; anything else
/// goes ahead.
pub open spec fn spec_guardrail(action: Seq<char>, phase: MarketPhase) -> (bool, Seq<char>, Severity) {
    if action == "buy"@ || action == "add"@ {
        if phase == MarketPhase::ExtremeBear {
            (false, "极端熊市，不建议买入"@, Severity::Critical)
        } else if phase == MarketPhase::Bear {
            (true, "熊市中买入需谨慎，建议减仓"@, Severity::Warning)
        } else {
            (true, "市场条件允许买入"@, Severity::Info)
        }
    } else if action == "sell"@ || action == "reduce"@ {
        if phase == MarketPhase::ExtremeBull {
            (false, "极端牛市，不建议卖出"@, Severity::Critical)
        } else if phase == MarketPhase::Bull {
            (true, "牛市中卖出需谨慎，可能错过后续涨幅"@, Severity::Warning)
        } else {
            (true, "市场条件允许卖出"@, Severity::Info)
        }
    } else {
        (true, "无特殊限制"@, Severity::Info)
    }
}

/// The `LIKE` pattern of a stock's sector peers: Shanghai main board codes
/// start with 6, Shenzhen ones with 0 or 3; anything else matches all.
pub open spec fn spec_sector_prefix(code: Seq<char>) -> Seq<char> {
    if code.len() > 0 && code[0] == '6' {
        "6%"@
    } else if code.len() > 0 && (code[0] == '0' || code[0] == '3') {
        "0%"@
    } else {
        "%"@
    }
}

/// Market context around a stock: the day's phase, guardrails on actions
/// and the trend of an index.
pub struct MarketContext {}

impl MarketContext {
    pub fn new() -> (s: Self) {
        MarketContext {}
    }

    /// The day's phase from the three main indices.
    pub fn phase_from_changes(&self, sh: ChangeLevel, sz: ChangeLevel, cy: ChangeLevel) -> (p: MarketPhase)
        ensures
            p == spec_phase_from_changes(sh, sz, cy),
    {
        let falling = |l: ChangeLevel| -> (b: bool)
            ensures
                b == is_falling(l),
        { l == ChangeLevel::Plunge || l == ChangeLevel::Down };
        let rising = |l: ChangeLevel| -> (b: bool)
            ensures
                b == is_rising(l),
        { l == ChangeLevel::Up || l == ChangeLevel::Surge };
        if sh == ChangeLevel::Plunge && sz == ChangeLevel::Plunge && cy == ChangeLevel::Plunge {
            MarketPhase::ExtremeBear
        } else if sh == ChangeLevel::Surge && sz == ChangeLevel::Surge && cy == ChangeLevel::Surge {
            MarketPhase::ExtremeBull
        } else if falling(sh) && falling(sz) && falling(cy) {
            MarketPhase::Bear
        } else if rising(sh) && rising(sz) && rising(cy) {
            MarketPhase::Bull
        } else {
            MarketPhase::Sideways
        }
    }

    /// The trend phase of an index from its moving averages.
    pub fn phase_from_mas(&self, r: MaReading) -> (p: MarketPhase)
        ensures
            p == spec_phase_from_mas(r),
    {
        if r.ma5_ma10 == Rel::Above && r.ma10_ma20 == Rel::Above && (r.ma20_ma60 == Rel::Above || r.ma60_missing) {
            MarketPhase::Bull
        } else if r.ma5_ma10 == Rel::Below && r.ma10_ma20 == Rel::Below && (r.ma20_ma60 == Rel::Below || r.ma60_missing) {
            MarketPhase::Bear
        } else if r.close_ma20 == Rel::Above {
            MarketPhase::BullLeaning
        } else if r.close_ma20 == Rel::Below {
            MarketPhase::BearLeaning
        } else {
            MarketPhase::Sideways
        }
    }

    /// The guardrail on `action` in `phase`.
    pub fn guardrail(&self, action: &str, phase: MarketPhase) -> (g: Guardrail)
        ensures
            (g.allowed, g.reason@, g.severity) == spec_guardrail(action@, phase),
    {
        if str_eq(action, "buy") || str_eq(action, "add") {
            if phase == MarketPhase::ExtremeBear {
                Guardrail { allowed: false, reason: "极端熊市，不建议买入", severity: Severity::Critical }
            } else if phase == MarketPhase::Bear {
                Guardrail { allowed: true, reason: "熊市中买入需谨慎，建议减仓", severity: Severity::Warning }
            } else {
                Guardrail { allowed: true, reason: "市场条件允许买入", severity: Severity::Info }
            }
        } else if str_eq(action, "sell") || str_eq(action, "reduce") {
            if phase == MarketPhase::ExtremeBull {
                Guardrail { allowed: false, reason: "极端牛市，不建议卖出", severity: Severity::Critical }
            } else if phase == MarketPhase::Bull {
                Guardrail { allowed: true, reason: "牛市中卖出需谨慎，可能错过后续涨幅", severity: Severity::Warning }
            } else {
                Guardrail { allowed: true, reason: "市场条件允许卖出", severity: Severity::Info }
            }
        } else {
            Guardrail { allowed: true, reason: "无特殊限制", severity: Severity::Info }
        }
    }

    /// A guardrail check needs a code and an action (`请提供code和action`).
    pub fn check_guardrail_request(&self, code: &str, action: &str) -> (r: Result<(), ServiceError>)
        ensures
            code@.len() == 0 || action@.len() == 0 ==> (r matches Err(ServiceError::Validation(m)) && m@ == "请提供code和action"@),
            code@.len() != 0 && action@.len() != 0 ==> r is Ok,
    {
        if code.is_empty() || action.is_empty() {
            Err(ServiceError::Validation("请提供code和action".to_owned()))
        } else {
            Ok(())
        }
    }

    /// Building a context needs a stock code (`请提供股票代码`).
    pub fn check_build_request(&self, code: &str) -> (r: Result<(), ServiceError>)
        ensures
            code@.len() == 0 ==> (r matches Err(ServiceError::Validation(m)) && m@ == "请提供股票代码"@),
            code@.len() != 0 ==> r is Ok,
    {
        if code.is_empty() {
            Err(ServiceError::Validation("请提供股票代码".to_owned()))
        } else {
            Ok(())
        }
    }

    /// The `LIKE` pattern of a stock's sector peers.
    pub fn sector_prefix(&self, code: &str) -> (r: &'static str)
        ensures
            r@ == spec_sector_prefix(code@),
    {
        let v = to_chars(code);
        if v.len() > 0 && v[0] == '6' {
            "6%"
        } else if v.len() > 0 && (v[0] == '0' || v[0] == '3') {
            "0%"
        } else {
            "%"
        }
    }

    /// The index whose trend is read: the one asked for, else `000001`.
    pub fn index_code(&self, requested: &str) -> (r: String)
        ensures
            r@ == (if requested@.len() == 0 { "000001"@ } else { requested@ }),
    {
        if requested.is_empty() { "000001".to_owned() } else { requested.to_owned() }
    }
}

/// The guardrails refuse exactly the two extreme cases: buying into an
/// extreme bear and selling into an extreme bull.
pub proof fn lemma_guardrail_refusals(action: Seq<char>, phase: MarketPhase)
    ensures
        !spec_guardrail(action, phase).0 <==> (((action == "buy"@ || action == "add"@) && phase == MarketPhase::ExtremeBear)
            || ((action == "sell"@ || action == "reduce"@) && phase == MarketPhase::ExtremeBull)),
{
    reveal_strlit("buy");
    reveal_strlit("add");
    reveal_strlit("sell");
    reveal_strlit("reduce");
    assert("buy"@ != "sell"@ && "buy"@ != "reduce"@ && "add"@ != "sell"@ && "add"@ != "reduce"@) by {
        assert("buy"@.len() != "reduce"@.len());
        assert("add"@.len() != "reduce"@.len());
        assert("buy"@[0] != "sell"@[0]);
        assert("add"@[0] != "sell"@[0]);
    }
}

/// How serious a guardrail is follows how far the market goes against the
/// action: it refuses (critical) exactly what it does not allow, it warns
/// exactly when buying or adding into a plain bear or selling or reducing
/// into a plain bull, and anything else goes ahead as information.
pub proof fn lemma_guardrail_severity(action: Seq<char>, phase: MarketPhase)
    ensures
        spec_guardrail(action, phase).0 <==> spec_guardrail(action, phase).2 != Severity::Critical,
        spec_guardrail(action, phase).2 == Severity::Warning <==> (((action == "buy"@ || action == "add"@) && phase == MarketPhase::Bear)
            || ((action == "sell"@ || action == "reduce"@) && phase == MarketPhase::Bull)),
        spec_guardrail(action, phase).2 == Severity::Info <==> !(((action == "buy"@ || action == "add"@)
            && (phase == MarketPhase::Bear || phase == MarketPhase::ExtremeBear))
            || ((action == "sell"@ || action == "reduce"@) && (phase == MarketPhase::Bull || phase == MarketPhase::ExtremeBull))),
        spec_guardrail(action, phase).2 == Severity::Info <==> (spec_guardrail(action, phase).1 == "市场条件允许买入"@
            || spec_guardrail(action, phase).1 == "市场条件允许卖出"@ || spec_guardrail(action, phase).1 == "无特殊限制"@),
{
    reveal_strlit("极端熊市，不建议买入");
    reveal_strlit("熊市中买入需谨慎，建议减仓");
    reveal_strlit("市场条件允许买入");
    reveal_strlit("极端牛市，不建议卖出");
    reveal_strlit("牛市中卖出需谨慎，可能错过后续涨幅");
    reveal_strlit("市场条件允许卖出");
    reveal_strlit("无特殊限制");
    let infos = seq!["市场条件允许买入"@, "市场条件允许卖出"@, "无特殊限制"@];
    let others = seq!["极端熊市，不建议买入"@, "熊市中买入需谨慎，建议减仓"@, "极端牛市，不建议卖出"@, "牛市中卖出需谨慎，可能错过后续涨幅"@];
    assert(infos[0].len() == 8 && infos[1].len() == 8 && infos[2].len() == 5);
    assert(others[0].len() == 10 && others[1].len() == 13 && others[2].len() == 10 && others[3].len() == 17);
    reveal_strlit("buy");
    reveal_strlit("add");
    reveal_strlit("sell");
    reveal_strlit("reduce");
    assert("buy"@ != "sell"@ && "buy"@ != "reduce"@ && "add"@ != "sell"@ && "add"@ != "reduce"@) by {
        assert("buy"@.len() != "reduce"@.len());
        assert("add"@.len() != "reduce"@.len());
        assert("buy"@[0] != "sell"@[0]);
        assert("add"@[0] != "sell"@[0]);
    }
}

/// Buying in a market and selling in its mirror image are judged alike:
/// both allowed or both refused, with the same severity.
pub proof fn lemma_guardrail_mirror(phase: MarketPhase)
    ensures
        spec_guardrail("buy"@, phase).0 == spec_guardrail("sell"@, mirror_phase(phase)).0,
        spec_guardrail("buy"@, phase).2 == spec_guardrail("sell"@, mirror_phase(phase)).2,
        spec_guardrail("add"@, phase).0 == spec_guardrail("reduce"@, mirror_phase(phase)).0,
        spec_guardrail("add"@, phase).2 == spec_guardrail("reduce"@, mirror_phase(phase)).2,
{
    lemma_guardrail_severity("buy"@, phase);
    lemma_guardrail_severity("sell"@, mirror_phase(phase));
    lemma_guardrail_severity("add"@, phase);
    lemma_guardrail_severity("reduce"@, mirror_phase(phase));
    reveal_strlit("buy");
    reveal_strlit("add");
    reveal_strlit("sell");
    reveal_strlit("reduce");
    assert("buy"@ != "sell"@ && "buy"@ != "reduce"@ && "add"@ != "sell"@ && "add"@ != "reduce"@ && "buy"@ != "add"@
        && "sell"@ != "reduce"@) by {
        assert("buy"@.len() != "reduce"@.len());
        assert("add"@.len() != "reduce"@.len());
        assert("sell"@.len() != "reduce"@.len());
        assert("buy"@[0] != "sell"@[0]);
        assert("add"@[0] != "sell"@[0]);
        assert("buy"@[0] != "add"@[0]);
    }
}

/// The methods market context answers.
#[derive(Clone, Copy, PartialEq, Eq, Structural, Debug)]
pub enum MarketContextMethod {
    Build,
    Phase,
    Guardrail,
}

/// The method named `name`.
pub open spec fn market_context_method_named(name: Seq<char>) -> Option<MarketContextMethod> {
    if name == "build"@ {
        Some(MarketContextMethod::Build)
    } else if name == "phase"@ {
        Some(MarketContextMethod::Phase)
    } else if name == "guardrail"@ {
        Some(MarketContextMethod::Guardrail)
    } else {
        None
    }
}

impl MarketContext {
    /// The method a request names; an unknown one is a routing error
    /// `market_context不支持方法: <method>`.
    pub fn dispatch(&self, method: &str) -> (r: Result<MarketContextMethod, ServiceError>)
        ensures
            match market_context_method_named(method@) {
                Some(m) => r == Ok::<MarketContextMethod, ServiceError>(m),
                None => r matches Err(ServiceError::ApiRouting(msg)) && msg@ == "market_context不支持方法: "@ + method@,
            },
    {
        let r = if str_eq(method, "build") {
            Some(MarketContextMethod::Build)
        } else if str_eq(method, "phase") {
            Some(MarketContextMethod::Phase)
        } else if str_eq(method, "guardrail") {
            Some(MarketContextMethod::Guardrail)
        } else {
            None
        };
        match r {
            Some(m) => Ok(m),
            None => Err(unsupported_method("market_context不支持方法: ", method)),
        }
    }
}

} // verus!
