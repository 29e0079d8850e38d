//! Backtests of decision signals.
use vstd::prelude::*;
use crate::json::{decimal_value, parse_u64_decimal, str_eq};
use crate::services::decision::is_bearish_action;
use crate::services::error::{unsupported_method, ServiceError};
use crate::text::{all_digits, slice, to_chars};

verus! {

/// The methods the service answers.
#[derive(Clone, Copy, PartialEq, Eq, Structural, Debug)]
pub enum BacktestMethod {
    Evaluate,
    EvaluateBatch,
    Summary,
    Detail,
    List,
}

/// The method named `name`.
pub open spec fn backtest_method_named(name: Seq<char>) -> Option<BacktestMethod> {
    if name == "evaluate"@ {
        Some(BacktestMethod::Evaluate)
    } else if name == "evaluate_batch"@ {
        Some(BacktestMethod::EvaluateBatch)
    } else if name == "summary"@ {
        Some(BacktestMethod::Summary)
    } else if name == "detail"@ {
        Some(BacktestMethod::Detail)
    } else if name == "list"@ {
        Some(BacktestMethod::List)
    } else {
        None
    }
}

pub struct BacktestService {}

impl BacktestService {
    pub fn new() -> (s: Self) {
        BacktestService {}
    }

    /// The method a request names; an unknown one is a routing error
    /// `backtest_service不支持方法: <method>`.
    pub fn dispatch(&self, method: &str) -> (r: Result<BacktestMethod, ServiceError>)
        ensures
            match backtest_method_named(method@) {
                Some(m) => r == Ok::<BacktestMethod, ServiceError>(m),
                None => r matches Err(ServiceError::ApiRouting(msg)) && msg@ == "backtest_service不支持方法: "@ + method@,
            },
    {
        let r = if str_eq(method, "evaluate") {
            Some(BacktestMethod::Evaluate)
        } else if str_eq(method, "evaluate_batch") {
            Some(BacktestMethod::EvaluateBatch)
        } else if str_eq(method, "summary") {
            Some(BacktestMethod::Summary)
        } else if str_eq(method, "detail") {
            Some(BacktestMethod::Detail)
        } else if str_eq(method, "list") {
            Some(BacktestMethod::List)
        } else {
            None
        };
        match r {
            Some(m) => Ok(m),
            None => Err(unsupported_method("backtest_service不支持方法: ", method)),
        }
    }
}


/// Which way a signal expects the price to go.
#[derive(Clone, Copy, PartialEq, Eq, Structural, Debug)]
pub enum Direction {
    Up,
    Down,
    Neutral,
}

/// Buying, adding, holding and watching expect a rise; selling, reducing
/// and avoiding a fall; anything else nothing.
pub open spec fn spec_direction(action: Seq<char>) -> Direction {
    if action == "buy"@ || action == "add"@ || action == "hold"@ || action == "watch"@ {
        Direction::Up
    } else if action == "sell"@ || action == "reduce"@ || action == "avoid"@ {
        Direction::Down
    } else {
        Direction::Neutral
    }
}

/// Where the stock's return over the window lies against the neutral band.
#[derive(Clone, Copy, PartialEq, Eq, Structural, Debug)]
pub enum Band {
    /// Above the band.
    Above,
    /// Below minus the band.
    Below,
    /// Within it.
    Within,
}

/// The sign of the stock's return over the window.
#[derive(Clone, Copy, PartialEq, Eq, Structural, Debug)]
pub enum Sign {
    Positive,
    Negative,
    Zero,
}

/// How a backtest ends.
#[derive(Clone, Copy, PartialEq, Eq, Structural, Debug)]
pub enum Outcome {
    Win,
    Loss,
    Neutral,
}

/// A move beyond the band in the expected direction wins, one beyond it
/// the other way loses, anything else (or no expectation) is neutral.
pub open spec fn spec_outcome(d: Direction, b: Band) -> Outcome {
    match d {
        Direction::Up => match b {
            Band::Above => Outcome::Win,
            Band::Below => Outcome::Loss,
            Band::Within => Outcome::Neutral,
        },
        Direction::Down => match b {
            Band::Below => Outcome::Win,
            Band::Above => Outcome::Loss,
            Band::Within => Outcome::Neutral,
        },
        Direction::Neutral => Outcome::Neutral,
    }
}

/// The direction was right when the return has the expected sign; no
/// expectation is always right.
pub open spec fn spec_direction_correct(d: Direction, s: Sign) -> bool {
    (d == Direction::Up && s == Sign::Positive) || (d == Direction::Down && s == Sign::Negative) || d == Direction::Neutral
}

impl Direction {
    pub fn of_action(action: &str) -> (d: Direction)
        ensures
            d == spec_direction(action@),
    {
        if str_eq(action, "buy") || str_eq(action, "add") || str_eq(action, "hold") || str_eq(action, "watch") {
            Direction::Up
        } else if str_eq(action, "sell") || str_eq(action, "reduce") || str_eq(action, "avoid") {
            Direction::Down
        } else {
            Direction::Neutral
        }
    }

    /// The name stored for the direction.
    pub fn name(self) -> (s: &'static str)
        ensures
            s@ == (match self {
                Direction::Up => "up"@,
                Direction::Down => "down"@,
                Direction::Neutral => "neutral"@,
            }),
    {
        match self {
            Direction::Up => "up",
            Direction::Down => "down",
            Direction::Neutral => "neutral",
        }
    }
}

impl Outcome {
    /// The name stored for the outcome.
    pub fn name(self) -> (s: &'static str)
        ensures
            s@ == (match self {
                Outcome::Win => "win"@,
                Outcome::Loss => "loss"@,
                Outcome::Neutral => "neutral"@,
            }),
    {
        match self {
            Outcome::Win => "win",
            Outcome::Loss => "loss",
            Outcome::Neutral => "neutral",
        }
    }
}

/// What `str::parse::<i64>` gives for `s`: an optional sign, then at least
/// one decimal digit, with a value that fits.
pub open spec fn i64_text_value(s: Seq<char>) -> Option<int> {
    let neg = s.len() > 0 && s[0] == '-';
    let d = if s.len() > 0 && (s[0] == '-' || s[0] == '+') { s.skip(1) } else { s };
    if d.len() > 0 && all_digits(d) {
        let v = if neg { -decimal_value(d) } else { decimal_value(d) as int };
        if i64::MIN <= v <= i64::MAX {
            Some(v)
        } else {
            None
        }
    } else {
        None
    }
}

/// The evaluation window a horizon names: `short` 5 days, `medium` 10,
/// `long` 20, else the number written, else 10.
pub open spec fn spec_horizon_days(h: Seq<char>) -> int {
    if h == "short"@ {
        5
    } else if h == "medium"@ {
        10
    } else if h == "long"@ {
        20
    } else {
        match i64_text_value(h) {
            Some(v) => v,
            None => 10,
        }
    }
}

fn parse_i64_text(v: &[char]) -> (r: Option<i64>)
    ensures
        match i64_text_value(v@) {
            Some(x) => r == Some(x as i64),
            None => r is None,
        },
{
    let n = v.len();
    let neg = n > 0 && v[0] == '-';
    let d = if n > 0 && (v[0] == '-' || v[0] == '+') { slice(v, 1, n) } else { slice(v, 0, n) };
    assert(d@ == (if v@.len() > 0 && (v@[0] == '-' || v@[0] == '+') { v@.skip(1) } else { v@ }));
    match parse_u64_decimal(&d) {
        Some(m) => {
            if neg {
                if m <= 9223372036854775808u64 {
                    if m == 9223372036854775808u64 {
                        Some(i64::MIN)
                    } else {
                        Some(-(m as i64))
                    }
                } else {
                    None
                }
            } else if m <= 9223372036854775807u64 {
                Some(m as i64)
            } else {
                None
            }
        },
        None => None,
    }
}

/// A backtest result as the library reads it: which way the signal
/// pointed, how it ended, and whether its direction was right.
pub struct Verdict {
    pub direction: Direction,
    pub outcome: Outcome,
    pub direction_correct: bool,
}

impl BacktestService {
    /// Evaluating a signal needs its id (`请提供signalId`).
    pub fn check_evaluate(&self, signal_id: i64) -> (r: Result<(), ServiceError>)
        ensures
            signal_id == 0 ==> (r matches Err(ServiceError::Validation(m)) && m@ == "请提供signalId"@),
            signal_id != 0 ==> r is Ok,
    {
        if signal_id == 0 {
            Err(ServiceError::Validation("请提供signalId".to_owned()))
        } else {
            Ok(())
        }
    }

    /// The verdict on a signal with `action`, given where its return lies
    /// against the neutral band and its sign.
    pub fn verdict(&self, action: &str, band: Band, sign: Sign) -> (v: Verdict)
        ensures
            v.direction == spec_direction(action@),
            v.outcome == spec_outcome(spec_direction(action@), band),
            v.direction_correct == spec_direction_correct(spec_direction(action@), sign),
    {
        let direction = Direction::of_action(action);
        let outcome = match direction {
            Direction::Up => match band {
                Band::Above => Outcome::Win,
                Band::Below => Outcome::Loss,
                Band::Within => Outcome::Neutral,
            },
            Direction::Down => match band {
                Band::Below => Outcome::Win,
                Band::Above => Outcome::Loss,
                Band::Within => Outcome::Neutral,
            },
            Direction::Neutral => Outcome::Neutral,
        };
        let direction_correct = match direction {
            Direction::Up => sign == Sign::Positive,
            Direction::Down => sign == Sign::Negative,
            Direction::Neutral => true,
        };
        Verdict { direction, outcome, direction_correct }
    }

    /// The evaluation window, in days, that a summary horizon names.
    pub fn horizon_days(&self, horizon: &str) -> (n: i64)
        ensures
            n == spec_horizon_days(horizon@),
    {
        if str_eq(horizon, "short") {
            5
        } else if str_eq(horizon, "medium") {
            10
        } else if str_eq(horizon, "long") {
            20
        } else {
            match parse_i64_text(&to_chars(horizon)) {
                Some(v) => v,
                None => 10,
            }
        }
    }

    /// How many pending signals one batch evaluates: the request, held to 1..100.
    pub fn batch_limit(&self, requested: i64) -> (n: i64)
        ensures
            n == (if requested < 1 { 1 } else if requested > 100 { 100 } else { requested }),
    {
        if requested < 1 { 1 } else if requested > 100 { 100 } else { requested }
    }

    /// The page of a result list: the limit held to 1..200, the offset to 0 or more.
    pub fn list_page(&self, limit: i64, offset: i64) -> (r: (i64, i64))
        ensures
            r.0 == (if limit < 1 { 1 } else if limit > 200 { 200 } else { limit }),
            r.1 == (if offset < 0 { 0 } else { offset }),
    {
        let l = if limit < 1 { 1 } else if limit > 200 { 200 } else { limit };
        let o = if offset < 0 { 0 } else { offset };
        (l, o)
    }

    /// A backtest detail needs its id (`请提供回测ID`).
    pub fn check_detail(&self, id: i64) -> (r: Result<(), ServiceError>)
        ensures
            id == 0 ==> (r matches Err(ServiceError::Validation(m)) && m@ == "请提供回测ID"@),
            id != 0 ==> r is Ok,
    {
        if id == 0 {
            Err(ServiceError::Validation("请提供回测ID".to_owned()))
        } else {
            Ok(())
        }
    }
}

/// A signal never both wins and loses, and a win is always a move the way
/// the signal pointed.
pub proof fn lemma_win_follows_direction(d: Direction, b: Band)
    ensures
        spec_outcome(d, b) == Outcome::Win ==> (d == Direction::Up && b == Band::Above) || (d == Direction::Down && b == Band::Below),
        spec_outcome(d, b) == Outcome::Loss ==> (d == Direction::Up && b == Band::Below) || (d == Direction::Down && b == Band::Above),
        d == Direction::Neutral ==> spec_outcome(d, b) == Outcome::Neutral,
{
}

/// A backtest expects a fall for exactly the actions that a decision signal
/// treats as bearish (sell, reduce, avoid: their stop loss lies above the
/// entry), and scores them the bearish way: a fall beyond the band wins, a
/// rise beyond it loses, and a negative return proves the direction right.
pub proof fn lemma_bearish_actions_expect_a_fall(action: Seq<char>)
    ensures
        (spec_direction(action) == Direction::Down) <==> is_bearish_action(action),
        is_bearish_action(action) ==> spec_outcome(spec_direction(action), Band::Below) == Outcome::Win,
        is_bearish_action(action) ==> spec_outcome(spec_direction(action), Band::Above) == Outcome::Loss,
        is_bearish_action(action) ==> spec_direction_correct(spec_direction(action), Sign::Negative),
        is_bearish_action(action) ==> !spec_direction_correct(spec_direction(action), Sign::Positive),
{
    reveal_strlit("buy");
    reveal_strlit("add");
    reveal_strlit("hold");
    reveal_strlit("watch");
    reveal_strlit("sell");
    reveal_strlit("reduce");
    reveal_strlit("avoid");
    let ups = seq!["buy"@, "add"@, "hold"@, "watch"@];
    let downs = seq!["sell"@, "reduce"@, "avoid"@];
    assert forall|i: int, j: int| 0 <= i < 4 && 0 <= j < 3 implies ups[i] != downs[j] by {
        if ups[i].len() == downs[j].len() {
            assert(ups[i][0] != downs[j][0]);
        }
    }
    assert(ups[0] != downs[0] && ups[0] != downs[1] && ups[0] != downs[2]);
    assert(ups[1] != downs[0] && ups[1] != downs[1] && ups[1] != downs[2]);
    assert(ups[2] != downs[0] && ups[2] != downs[1] && ups[2] != downs[2]);
    assert(ups[3] != downs[0] && ups[3] != downs[1] && ups[3] != downs[2]);
}

/// Where the band and the sign of the return agree (a return above the band
/// is positive, one below it negative), a signal wins exactly when it had an
/// expectation, the move went beyond the band, and the direction was right;
/// it loses exactly when the move went beyond the band the wrong way.
pub proof fn lemma_outcome_agrees_with_direction(d: Direction, b: Band, s: Sign)
    requires
        b == Band::Above ==> s == Sign::Positive,
        b == Band::Below ==> s == Sign::Negative,
    ensures
        spec_outcome(d, b) == Outcome::Win <==> (d != Direction::Neutral && b != Band::Within && spec_direction_correct(d, s)),
        spec_outcome(d, b) == Outcome::Loss <==> (d != Direction::Neutral && b != Band::Within && !spec_direction_correct(d, s)),
{
}

/// The actions that open or keep a position (buy, add, hold, watch) expect
/// a rise: a rise beyond the band wins and a positive return is right.
pub proof fn lemma_long_actions_expect_a_rise(action: Seq<char>)
    requires
        action == "buy"@ || action == "add"@ || action == "hold"@ || action == "watch"@,
    ensures
        spec_direction(action) == Direction::Up,
        !is_bearish_action(action),
        spec_outcome(spec_direction(action), Band::Above) == Outcome::Win,
        spec_direction_correct(spec_direction(action), Sign::Positive),
{
    lemma_bearish_actions_expect_a_fall(action);
}

} // verus!
