//! Portfolio accounts, trades, positions and cash.
use vstd::prelude::*;
use chrono::{Datelike, Timelike};
use crate::json::{field, str_eq, JsonValue};
use crate::services::error::{unsupported_method, ServiceError};
use crate::strings::{join, join_lines, views};
use crate::text::{before_char, before_char_vec, from_chars, push_str, slice, to_chars, trim, trim_vec};

verus! {

/// The methods the service answers.
#[derive(Clone, Copy, PartialEq, Eq, Structural, Debug)]
pub enum PortfolioMethod {
    Accounts,
    Add,
    Remove,
    Summary,
    Positions,
    Trades,
    Snapshot,
    CashLedger,
    CashAdd,
    CorporateActions,
    CorporateActionAdd,
    Lots,
    FxRates,
    FxRateUpdate,
    RiskAnalysis,
    ImportTrades,
}

/// The method named `name`.
pub open spec fn portfolio_method_named(name: Seq<char>) -> Option<PortfolioMethod> {
    if name == "accounts"@ {
        Some(PortfolioMethod::Accounts)
    } else if name == "add"@ {
        Some(PortfolioMethod::Add)
    } else if name == "remove"@ {
        Some(PortfolioMethod::Remove)
    } else if name == "summary"@ {
        Some(PortfolioMethod::Summary)
    } else if name == "positions"@ {
        Some(PortfolioMethod::Positions)
    } else if name == "trades"@ {
        Some(PortfolioMethod::Trades)
    } else if name == "snapshot"@ {
        Some(PortfolioMethod::Snapshot)
    } else if name == "cash_ledger"@ {
        Some(PortfolioMethod::CashLedger)
    } else if name == "cash_add"@ {
        Some(PortfolioMethod::CashAdd)
    } else if name == "corporate_actions"@ {
        Some(PortfolioMethod::CorporateActions)
    } else if name == "corporate_action_add"@ {
        Some(PortfolioMethod::CorporateActionAdd)
    } else if name == "lots"@ {
        Some(PortfolioMethod::Lots)
    } else if name == "fx_rates"@ {
        Some(PortfolioMethod::FxRates)
    } else if name == "fx_rate_update"@ {
        Some(PortfolioMethod::FxRateUpdate)
    } else if name == "risk_analysis"@ {
        Some(PortfolioMethod::RiskAnalysis)
    } else if name == "import_trades"@ {
        Some(PortfolioMethod::ImportTrades)
    } else {
        None
    }
}

pub struct PortfolioService {}

impl PortfolioService {
    pub fn new() -> (s: Self) {
        PortfolioService {}
    }

    /// The method a request names; an unknown one is a routing error
    /// `portfolio不支持方法: <method>`.
    pub fn dispatch(&self, method: &str) -> (r: Result<PortfolioMethod, ServiceError>)
        ensures
            match portfolio_method_named(method@) {
                Some(m) => r == Ok::<PortfolioMethod, ServiceError>(m),
                None => r matches Err(ServiceError::ApiRouting(msg)) && msg@ == "portfolio不支持方法: "@ + method@,
            },
    {
        let r = if str_eq(method, "accounts") {
            Some(PortfolioMethod::Accounts)
        } else if str_eq(method, "add") {
            Some(PortfolioMethod::Add)
        } else if str_eq(method, "remove") {
            Some(PortfolioMethod::Remove)
        } else if str_eq(method, "summary") {
            Some(PortfolioMethod::Summary)
        } else if str_eq(method, "positions") {
            Some(PortfolioMethod::Positions)
        } else if str_eq(method, "trades") {
            Some(PortfolioMethod::Trades)
        } else if str_eq(method, "snapshot") {
            Some(PortfolioMethod::Snapshot)
        } else if str_eq(method, "cash_ledger") {
            Some(PortfolioMethod::CashLedger)
        } else if str_eq(method, "cash_add") {
            Some(PortfolioMethod::CashAdd)
        } else if str_eq(method, "corporate_actions") {
            Some(PortfolioMethod::CorporateActions)
        } else if str_eq(method, "corporate_action_add") {
            Some(PortfolioMethod::CorporateActionAdd)
        } else if str_eq(method, "lots") {
            Some(PortfolioMethod::Lots)
        } else if str_eq(method, "fx_rates") {
            Some(PortfolioMethod::FxRates)
        } else if str_eq(method, "fx_rate_update") {
            Some(PortfolioMethod::FxRateUpdate)
        } else if str_eq(method, "risk_analysis") {
            Some(PortfolioMethod::RiskAnalysis)
        } else if str_eq(method, "import_trades") {
            Some(PortfolioMethod::ImportTrades)
        } else {
            None
        };
        match r {
            Some(m) => Ok(m),
            None => Err(unsupported_method("portfolio不支持方法: ", method)),
        }
    }
}


/// The change in bracket depth that `c` makes.
pub open spec fn bracket_step(c: char) -> int {
    if c == '[' {
        1
    } else if c == ']' {
        -1
    } else {
        0
    }
}

/// `[` minus `]` over `u`.
pub open spec fn bracket_depth(u: Seq<char>) -> int
    decreases u.len(),
{
    if u.len() == 0 {
        0
    } else {
        bracket_depth(u.drop_last()) + bracket_step(u.last())
    }
}

/// The `]` at `j` closes the `[` at `s`: the brackets from `s` through `j`
/// balance.
pub open spec fn closes_at(t: Seq<char>, s: int, j: int) -> bool {
    s <= j < t.len() && t[j] == ']' && bracket_depth(t.subrange(s, j + 1)) == 0
}

/// The JSON array in a model's reply: the trimmed text when it starts with
/// `[`; else the part from the first `[` through the `]` that closes it;
/// else (no `[`, or never closed) the trimmed text.
pub open spec fn spec_json_array_text(text: Seq<char>) -> Seq<char> {
    let t = trim(text);
    let s = before_char(t, '[').len() as int;
    if t.len() > 0 && t[0] == '[' {
        t
    } else if s < t.len() && exists|j: int| #[trigger] closes_at(t, s, j) {
        let j = choose|j: int| #[trigger] closes_at(t, s, j) && forall|k: int| s <= k < j ==> !closes_at(t, s, k);
        t.subrange(s, j + 1)
    } else {
        t
    }
}

proof fn lemma_first_close(t: Seq<char>, s: int, j: int)
    requires
        closes_at(t, s, j),
        forall|k: int| s <= k < j ==> !closes_at(t, s, k),
    ensures
        (choose|i: int| #[trigger] closes_at(t, s, i) && forall|k: int| s <= k < i ==> !closes_at(t, s, k)) == j,
{
    let w = choose|i: int| #[trigger] closes_at(t, s, i) && forall|k: int| s <= k < i ==> !closes_at(t, s, k);
    assert(closes_at(t, s, j) && forall|k: int| s <= k < j ==> !closes_at(t, s, k));
    if w < j {
    } else if w > j {
        assert(!closes_at(t, s, j));
    }
}

proof fn lemma_json_array_found(text: Seq<char>, t: Seq<char>, s: int, j: int)
    requires
        t == trim(text),
        s == before_char(t, '[').len(),
        s < t.len(),
        !(t.len() > 0 && t[0] == '['),
        closes_at(t, s, j),
        forall|k: int| s <= k < j ==> !closes_at(t, s, k),
    ensures
        spec_json_array_text(text) == t.subrange(s, j + 1),
{
    lemma_first_close(t, s, j);
}

proof fn lemma_json_array_unclosed(text: Seq<char>, t: Seq<char>, s: int)
    requires
        t == trim(text),
        s == before_char(t, '[').len(),
        !(t.len() > 0 && t[0] == '['),
        forall|j: int| !#[trigger] closes_at(t, s, j),
    ensures
        spec_json_array_text(text) == t,
{
}

/// Cuts the JSON array out of a model's reply (see `spec_json_array_text`).
pub fn extract_json_array(text: &str) -> (r: String)
    ensures
        r@ == spec_json_array_text(text@),
{
    let v = to_chars(text);
    let t = trim_vec(&v);
    let n = t.len();
    if n > 0 && t[0] == '[' {
        return from_chars(&t);
    }
    let prefix = before_char_vec(&t, '[');
    let s = prefix.len();
    if s < n {
        let mut depth: i128 = 0;
        let mut i: usize = s;
        while i < n
            invariant
                s <= i <= n == t@.len(),
                s < n,
                t@ == trim(text@),
                s == before_char(t@, '[').len(),
                !(t@.len() > 0 && t@[0] == '['),
                depth == bracket_depth(t@.subrange(s as int, i as int)),
                -(i - s) <= depth <= i - s,
                forall|k: int| s <= k < i ==> !closes_at(t@, s as int, k),
            decreases n - i,
        {
            let c = t[i];
            assert(t@.subrange(s as int, i + 1).drop_last() == t@.subrange(s as int, i as int));
            assert(t@.subrange(s as int, i + 1).last() == c);
            if c == '[' {
                depth = depth + 1;
            } else if c == ']' {
                depth = depth - 1;
                if depth == 0 {
                    proof {
                        assert(closes_at(t@, s as int, i as int));
                        lemma_json_array_found(text@, t@, s as int, i as int);
                    }
                    return from_chars(&slice(&t, s, i + 1));
                }
            }
            assert(!closes_at(t@, s as int, i as int));
            i = i + 1;
        }
        proof {
            assert forall|j: int| !#[trigger] closes_at(t@, s as int, j) by {
                if closes_at(t@, s as int, j) {
                    assert(s <= j < n);
                }
            }
            lemma_json_array_unclosed(text@, t@, s as int);
        }
    }
    from_chars(&t)
}

/// One recorded trade, as a rebuild of the positions replays it.
pub struct TradeLeg {
    pub code: String,
    pub direction: String,
    pub quantity: i64,
}

/// The quantity of one stock held after replaying the trades.
pub struct HeldPosition {
    pub code: String,
    pub quantity: i64,
}

/// The quantity held after one trade on top of `held`: a buy adds to it, a
/// sell takes away down to nothing, any other direction leaves it.
pub open spec fn held_after(held: int, direction: Seq<char>, quantity: int) -> int {
    if direction == "buy"@ {
        held + quantity
    } else if direction == "sell"@ {
        if held - quantity <= 0 { 0 } else { held - quantity }
    } else {
        held
    }
}

/// The quantity of `code` held after replaying `trades` in order, starting
/// from nothing.
pub open spec fn replayed_quantity(trades: Seq<TradeLeg>, code: Seq<char>) -> int
    decreases trades.len(),
{
    if trades.len() == 0 {
        0
    } else {
        let prev = replayed_quantity(trades.drop_last(), code);
        let t = trades.last();
        if t.code@ == code { held_after(prev, t.direction@, t.quantity as int) } else { prev }
    }
}

/// No step of the replay leaves the range of `i64`.
pub open spec fn replay_fits(trades: Seq<TradeLeg>) -> bool {
    forall|k: int|
        0 <= k < trades.len() ==> {
            let prev = replayed_quantity(#[trigger] trades.take(k), trades[k].code@);
            let q = trades[k].quantity as int;
            &&& trades[k].direction@ == "buy"@ ==> i64::MIN <= prev + q <= i64::MAX
            &&& trades[k].direction@ == "sell"@ ==> i64::MIN <= prev - q <= i64::MAX
        }
}

/// A stock that no trade of `trades` names is not held.
proof fn lemma_unnamed_not_held(trades: Seq<TradeLeg>, code: Seq<char>)
    requires
        forall|k: int| 0 <= k < trades.len() ==> (#[trigger] trades[k]).code@ != code,
    ensures
        replayed_quantity(trades, code) == 0,
    decreases trades.len(),
{
    if trades.len() > 0 {
        let rest = trades.drop_last();
        assert forall|k: int| 0 <= k < rest.len() implies (#[trigger] rest[k]).code@ != code by {
            assert(rest[k] == trades[k]);
        }
        lemma_unnamed_not_held(rest, code);
        assert(trades.last() == trades[trades.len() - 1]);
    }
}

/// One more trade changes the replayed quantity of its own stock only.
proof fn lemma_replay_step(trades: Seq<TradeLeg>, k: int, code: Seq<char>)
    requires
        0 <= k < trades.len(),
    ensures
        replayed_quantity(trades.take(k + 1), code) == (if trades[k].code@ == code {
            held_after(replayed_quantity(trades.take(k), code), trades[k].direction@, trades[k].quantity as int)
        } else {
            replayed_quantity(trades.take(k), code)
        }),
{
    assert(trades.take(k + 1).drop_last() =~= trades.take(k));
    assert(trades.take(k + 1).last() == trades[k]);
}

/// Where no buy is negative, no stock is ever held short.
pub proof fn lemma_replay_never_negative(trades: Seq<TradeLeg>, code: Seq<char>)
    requires
        forall|k: int| 0 <= k < trades.len() && (#[trigger] trades[k]).direction@ == "buy"@ ==> trades[k].quantity >= 0,
    ensures
        replayed_quantity(trades, code) >= 0,
    decreases trades.len(),
{
    if trades.len() > 0 {
        let rest = trades.drop_last();
        assert forall|k: int| 0 <= k < rest.len() && (#[trigger] rest[k]).direction@ == "buy"@ implies rest[k].quantity >= 0 by {
            assert(rest[k] == trades[k]);
        }
        lemma_replay_never_negative(rest, code);
        assert(trades.last() == trades[trades.len() - 1]);
    }
}

/// Each entry of `out` has the quantity held after the first `k` trades.
#[verifier::opaque]
pub open spec fn state_quantities(out: Seq<HeldPosition>, trades: Seq<TradeLeg>, k: int) -> bool {
    forall|i: int| 0 <= i < out.len() ==> (#[trigger] out[i]).quantity == replayed_quantity(trades.take(k), out[i].code@)
}

/// No stock has two entries in `out`.
#[verifier::opaque]
pub open spec fn state_distinct(out: Seq<HeldPosition>) -> bool {
    forall|i: int, j: int| 0 <= i < j < out.len() ==> out[i].code@ != out[j].code@
}

/// Each entry of `out` is a stock that one of the first `k` trades names.
#[verifier::opaque]
pub open spec fn state_named(out: Seq<HeldPosition>, trades: Seq<TradeLeg>, k: int) -> bool {
    forall|i: int| 0 <= i < out.len() ==> exists|m: int| 0 <= m < k && (#[trigger] trades[m]).code@ == (#[trigger] out[i]).code@
}

/// Each stock that one of the first `k` trades names has an entry in `out`.
#[verifier::opaque]
pub open spec fn state_covers(out: Seq<HeldPosition>, trades: Seq<TradeLeg>, k: int) -> bool {
    forall|m: int| 0 <= m < k ==> exists|i: int| 0 <= i < out.len() && (#[trigger] out[i]).code@ == (#[trigger] trades[m]).code@
}

/// Some trade of `trades` names `code`.
pub open spec fn trades_name(trades: Seq<TradeLeg>, code: Seq<char>) -> bool {
    exists|k: int| 0 <= k < trades.len() && (#[trigger] trades[k]).code@ == code
}

/// Some entry of `positions` is for `code`.
pub open spec fn positions_hold(positions: Seq<HeldPosition>, code: Seq<char>) -> bool {
    exists|i: int| 0 <= i < positions.len() && (#[trigger] positions[i]).code@ == code
}

/// `out` holds the replay of the first `k` trades: each stock they name once,
/// with the quantity held after them.
pub open spec fn replay_state(out: Seq<HeldPosition>, trades: Seq<TradeLeg>, k: int) -> bool {
    &&& state_quantities(out, trades, k)
    &&& state_distinct(out)
    &&& state_named(out, trades, k)
    &&& state_covers(out, trades, k)
}

/// The replay after trade `k`, which found its stock at `i` of `before` and
/// wrote the new quantity there.
proof fn lemma_record_updated(before: Seq<HeldPosition>, after: Seq<HeldPosition>, trades: Seq<TradeLeg>, k: int, i: int)
    requires
        0 <= k < trades.len(),
        replay_state(before, trades, k),
        0 <= i < before.len(),
        before[i].code@ == trades[k].code@,
        after.len() == before.len(),
        after[i].code@ == trades[k].code@,
        after[i].quantity == held_after(before[i].quantity as int, trades[k].direction@, trades[k].quantity as int),
        forall|j: int| 0 <= j < after.len() && j != i ==> after[j] == before[j],
    ensures
        replay_state(after, trades, k + 1),
{
    assert(state_quantities(after, trades, k + 1)) by {
        reveal(state_quantities);
        assert forall|a: int| 0 <= a < after.len() implies (#[trigger] after[a]).quantity == replayed_quantity(trades.take(k + 1), after[a].code@) by {
            lemma_replay_step(trades, k, after[a].code@);
            if a != i {
                assert(after[a] == before[a]);
                reveal(state_distinct);
            }
        }
    }
    assert(state_distinct(after)) by {
        reveal(state_distinct);
        assert forall|a: int, b: int| 0 <= a < b < after.len() implies after[a].code@ != after[b].code@ by {
            if a == i {
                assert(after[b] == before[b]);
            } else if b == i {
                assert(after[a] == before[a]);
            } else {
                assert(after[a] == before[a] && after[b] == before[b]);
            }
        }
    }
    assert(state_named(after, trades, k + 1)) by {
        reveal(state_named);
        assert forall|a: int| 0 <= a < after.len() implies exists|m: int| 0 <= m < k + 1 && (#[trigger] trades[m]).code@ == (#[trigger] after[a]).code@ by {
            if a == i {
                assert(trades[k].code@ == after[a].code@);
            } else {
                assert(after[a] == before[a]);
                let m = choose|m: int| 0 <= m < k && (#[trigger] trades[m]).code@ == (#[trigger] before[a]).code@;
                assert(trades[m].code@ == after[a].code@);
            }
        }
    }
    assert(state_covers(after, trades, k + 1)) by {
        reveal(state_covers);
        assert forall|m: int| 0 <= m < k + 1 implies exists|a: int| 0 <= a < after.len() && (#[trigger] after[a]).code@ == (#[trigger] trades[m]).code@ by {
            if m == k {
                assert(after[i].code@ == trades[m].code@);
            } else {
                let a = choose|a: int| 0 <= a < before.len() && (#[trigger] before[a]).code@ == (#[trigger] trades[m]).code@;
                if a == i {
                    assert(after[a].code@ == trades[m].code@);
                } else {
                    assert(after[a] == before[a]);
                }
            }
        }
    }
}

/// The replay after trade `k`, whose stock was not yet held and was added
/// at the end of `before`.
proof fn lemma_record_pushed(before: Seq<HeldPosition>, after: Seq<HeldPosition>, trades: Seq<TradeLeg>, k: int)
    requires
        0 <= k < trades.len(),
        replay_state(before, trades, k),
        forall|j: int| 0 <= j < before.len() ==> (#[trigger] before[j]).code@ != trades[k].code@,
        after.len() == before.len() + 1,
        after[before.len() as int].code@ == trades[k].code@,
        after[before.len() as int].quantity == held_after(0, trades[k].direction@, trades[k].quantity as int),
        forall|j: int| 0 <= j < before.len() ==> after[j] == before[j],
    ensures
        replay_state(after, trades, k + 1),
{
    let n = before.len() as int;
    let tk = trades.take(k);
    assert forall|m: int| 0 <= m < tk.len() implies (#[trigger] tk[m]).code@ != trades[k].code@ by {
        assert(tk[m] == trades[m]);
        if tk[m].code@ == trades[k].code@ {
            reveal(state_covers);
            let w = choose|w: int| 0 <= w < before.len() && (#[trigger] before[w]).code@ == (#[trigger] trades[m]).code@;
            assert(before[w].code@ == trades[k].code@);
        }
    }
    lemma_unnamed_not_held(tk, trades[k].code@);
    assert(state_quantities(after, trades, k + 1)) by {
        reveal(state_quantities);
        assert forall|a: int| 0 <= a < after.len() implies (#[trigger] after[a]).quantity == replayed_quantity(trades.take(k + 1), after[a].code@) by {
            lemma_replay_step(trades, k, after[a].code@);
            if a != n {
                assert(after[a] == before[a]);
            }
        }
    }
    assert(state_distinct(after)) by {
        reveal(state_distinct);
        assert forall|a: int, b: int| 0 <= a < b < after.len() implies after[a].code@ != after[b].code@ by {
            if b == n {
                assert(after[a] == before[a]);
            } else {
                assert(after[a] == before[a] && after[b] == before[b]);
            }
        }
    }
    assert(state_named(after, trades, k + 1)) by {
        reveal(state_named);
        assert forall|a: int| 0 <= a < after.len() implies exists|m: int| 0 <= m < k + 1 && (#[trigger] trades[m]).code@ == (#[trigger] after[a]).code@ by {
            if a == n {
                assert(trades[k].code@ == after[a].code@);
            } else {
                assert(after[a] == before[a]);
                let m = choose|m: int| 0 <= m < k && (#[trigger] trades[m]).code@ == (#[trigger] before[a]).code@;
                assert(trades[m].code@ == after[a].code@);
            }
        }
    }
    assert(state_covers(after, trades, k + 1)) by {
        reveal(state_covers);
        assert forall|m: int| 0 <= m < k + 1 implies exists|a: int| 0 <= a < after.len() && (#[trigger] after[a]).code@ == (#[trigger] trades[m]).code@ by {
            if m == k {
                assert(after[n].code@ == trades[m].code@);
            } else {
                let a = choose|a: int| 0 <= a < before.len() && (#[trigger] before[a]).code@ == (#[trigger] trades[m]).code@;
                assert(after[a] == before[a]);
            }
        }
    }
}

/// Records trade `k` in `out`, which holds the replay of the trades before it.
fn record_trade(out: &mut Vec<HeldPosition>, trades: &Vec<TradeLeg>, k: usize)
    requires
        k < trades.len(),
        replay_fits(trades@),
        replay_state(old(out)@, trades@, k as int),
    ensures
        replay_state(final(out)@, trades@, k + 1),
{
    let t = &trades[k];
    let mut found = false;
    let mut i: usize = 0;
    while i < out.len() && !found
        invariant
            0 <= i <= out.len(),
            found ==> i < out.len() && out[i as int].code@ == t.code@,
            !found ==> forall|j: int| 0 <= j < i ==> (#[trigger] out[j]).code@ != t.code@,
        decreases out.len() - i, if found { 0int } else { 1int },
    {
        if str_eq(out[i].code.as_str(), t.code.as_str()) {
            found = true;
        } else {
            i = i + 1;
        }
    }
    let ghost before = out@;
    let held: i64 = if found { out[i].quantity } else { 0 };
    proof {
        let tk = trades@.take(k as int);
        assert(trades@[k as int] == *t);
        if !found {
            assert forall|m: int| 0 <= m < tk.len() implies (#[trigger] tk[m]).code@ != t.code@ by {
                assert(tk[m] == trades[m]);
                if tk[m].code@ == t.code@ {
                    reveal(state_covers);
                    let w = choose|w: int| 0 <= w < before.len() && (#[trigger] before[w]).code@ == (#[trigger] trades[m]).code@;
                    assert(before[w].code@ == t.code@);
                }
            }
            lemma_unnamed_not_held(tk, t.code@);
        }
        if found {
            reveal(state_quantities);
        }
        assert(held == replayed_quantity(tk, t.code@));
    }
    let next: i64 = if str_eq(t.direction.as_str(), "buy") {
        held + t.quantity
    } else if str_eq(t.direction.as_str(), "sell") {
        let left = held - t.quantity;
        if left <= 0 { 0 } else { left }
    } else {
        held
    };
    let code = t.code.clone();
    if found {
        out.set(i, HeldPosition { code, quantity: next });
        proof {
            lemma_record_updated(before, out@, trades@, k as int, i as int);
        }
    } else {
        out.push(HeldPosition { code, quantity: next });
        proof {
            lemma_record_pushed(before, out@, trades@, k as int);
        }
    }
}

/// Replays `trades` in order and gives, for each stock they name, the
/// quantity held afterwards (see `replayed_quantity`); each stock once.
pub fn replay_positions(trades: &Vec<TradeLeg>) -> (r: Vec<HeldPosition>)
    requires
        replay_fits(trades@),
    ensures
        forall|i: int| 0 <= i < r.len() ==> (#[trigger] r[i]).quantity == replayed_quantity(trades@, r[i].code@),
        forall|i: int, j: int| 0 <= i < j < r.len() ==> r[i].code@ != r[j].code@,
        forall|i: int| 0 <= i < r.len() ==> trades_name(trades@, #[trigger] r[i].code@),
        forall|k: int| 0 <= k < trades.len() ==> positions_hold(r@, #[trigger] trades[k].code@),
{
    let mut out: Vec<HeldPosition> = Vec::new();
    let n = trades.len();
    let mut k: usize = 0;
    proof {
        reveal(state_quantities);
        reveal(state_distinct);
        reveal(state_named);
        reveal(state_covers);
    }
    while k < n
        invariant
            n == trades.len(),
            0 <= k <= n,
            replay_fits(trades@),
            replay_state(out@, trades@, k as int),
        decreases n - k,
    {
        record_trade(&mut out, trades, k);
        k = k + 1;
    }
    proof {
        assert(trades@.take(n as int) =~= trades@);
        reveal(state_quantities);
        reveal(state_distinct);
        reveal(state_named);
        reveal(state_covers);
        assert forall|i: int| 0 <= i < out.len() implies trades_name(trades@, #[trigger] out[i].code@) by {
            let m = choose|m: int| 0 <= m < n && (#[trigger] trades@[m]).code@ == (#[trigger] out@[i]).code@;
            assert(trades@[m].code@ == out@[i].code@);
        }
        assert forall|j: int| 0 <= j < trades.len() implies positions_hold(out@, #[trigger] trades[j].code@) by {
            let w = choose|w: int| 0 <= w < out@.len() && (#[trigger] out@[w]).code@ == (#[trigger] trades@[j]).code@;
            assert(out@[w].code@ == trades@[j].code@);
        }
    }
    out
}

/// How many of `positions` are still held, that is, with a positive
/// quantity.
pub open spec fn open_count(positions: Seq<HeldPosition>) -> nat
    decreases positions.len(),
{
    if positions.len() == 0 {
        0
    } else {
        open_count(positions.drop_last()) + if positions.last().quantity > 0 { 1nat } else { 0nat }
    }
}

/// The number of positions a rebuild writes back: those still held.
pub fn open_positions(positions: &Vec<HeldPosition>) -> (n: usize)
    ensures
        n == open_count(positions@),
{
    let mut n: usize = 0;
    let mut i: usize = 0;
    while i < positions.len()
        invariant
            0 <= i <= positions.len(),
            n == open_count(positions@.take(i as int)),
            n <= i,
        decreases positions.len() - i,
    {
        proof {
            assert(positions@.take(i + 1).drop_last() =~= positions@.take(i as int));
        }
        if positions[i].quantity > 0 {
            n = n + 1;
        }
        i = i + 1;
    }
    proof {
        assert(positions@.take(positions.len() as int) =~= positions@);
    }
    n
}

/// What a sale does to a position of `held` shares.
pub struct SalePlan {
    /// The shares sold.
    pub sold: i64,
    /// The shares left.
    pub remaining: i64,
    /// Whether the position is closed.
    pub closes: bool,
}

/// A sale of `requested` shares out of `held`: asking for nothing, or for
/// at least what is held, sells everything.
pub open spec fn spec_sold(requested: int, held: int) -> int {
    if requested <= 0 || requested >= held { held } else { requested }
}

/// Plans the sale of `requested` shares out of `held`: the shares sold, the
/// shares left, and whether nothing is left and the position closes.
pub fn plan_sale(requested: i64, held: i64) -> (p: SalePlan)
    ensures
        p.sold == spec_sold(requested as int, held as int),
        p.remaining == held - p.sold,
        p.closes == (p.remaining <= 0),
{
    let sold = if requested <= 0 || requested >= held { held } else { requested };
    let remaining = held - sold;
    SalePlan { sold, remaining, closes: remaining <= 0 }
}

/// A sale never sells more than is held, never leaves a negative holding,
/// and closes the position exactly when all of it is sold.
pub proof fn lemma_sale_bounds(requested: i64, held: i64)
    requires
        held > 0,
    ensures
        0 < spec_sold(requested as int, held as int) <= held,
        held - spec_sold(requested as int, held as int) >= 0,
        (held - spec_sold(requested as int, held as int) <= 0) <==> (requested <= 0 || requested >= held),
{
}

/// The text of the first check that `checks` fails, in order, if any.
pub open spec fn first_failure(checks: Seq<(bool, Seq<char>)>) -> Option<Seq<char>>
    decreases checks.len(),
{
    if checks.len() == 0 {
        None
    } else if !checks[0].0 {
        Some(checks[0].1)
    } else {
        first_failure(checks.drop_first())
    }
}

/// `r` reports the first failed check of `checks` as a validation error,
/// or succeeds when none failed.
pub open spec fn reports_checks(r: Result<(), ServiceError>, checks: Seq<(bool, Seq<char>)>) -> bool {
    match first_failure(checks) {
        Some(m) => r matches Err(ServiceError::Validation(x)) && x@ == m,
        None => r is Ok,
    }
}

/// The checks on a buy: an account, a stock code, a positive price and a
/// positive quantity.
pub open spec fn add_position_checks(account_id: i64, code: Seq<char>, price_positive: bool, quantity: i64) -> Seq<(bool, Seq<char>)> {
    seq![
        (account_id != 0, "请提供账户ID"@),
        (code.len() != 0, "请提供股票代码"@),
        (price_positive, "请提供有效价格"@),
        (quantity > 0, "请提供有效数量"@),
    ]
}

/// The checks on a sale: an account and a stock code.
pub open spec fn remove_position_checks(account_id: i64, code: Seq<char>) -> Seq<(bool, Seq<char>)> {
    seq![(account_id != 0, "请提供账户ID"@), (code.len() != 0, "请提供股票代码"@)]
}

/// The checks on a cash movement: an account, a direction of `in` or `out`,
/// a positive amount.
pub open spec fn cash_add_checks(account_id: i64, direction: Seq<char>, amount_positive: bool) -> Seq<(bool, Seq<char>)> {
    seq![
        (account_id != 0, "请提供账户ID"@),
        (direction == "in"@ || direction == "out"@, "direction 必须为 in 或 out"@),
        (amount_positive, "请提供有效金额"@),
    ]
}

/// The checks on a corporate action: an account, a stock code, a kind.
pub open spec fn corporate_action_checks(account_id: i64, symbol: Seq<char>, action_type: Seq<char>) -> Seq<(bool, Seq<char>)> {
    seq![
        (account_id != 0, "请提供账户ID"@),
        (symbol.len() != 0, "请提供股票代码"@),
        (action_type.len() != 0, "请提供行动类型"@),
    ]
}

/// The checks on an exchange rate: both currencies and a positive rate.
pub open spec fn fx_rate_checks(from: Seq<char>, to: Seq<char>, rate_positive: bool) -> Seq<(bool, Seq<char>)> {
    seq![
        (from.len() != 0, "请提供源货币"@),
        (to.len() != 0, "请提供目标货币"@),
        (rate_positive, "请提供有效汇率"@),
    ]
}

/// The checks on one imported trade: an account, a code, a direction, a
/// positive price and a positive quantity.
pub open spec fn import_trade_checks(
    account_id: i64,
    code: Seq<char>,
    direction: Seq<char>,
    price_positive: bool,
    quantity: i64,
) -> Seq<(bool, Seq<char>)> {
    seq![
        (account_id != 0, "缺少accountId"@),
        (code.len() != 0, "缺少code"@),
        (direction.len() != 0, "缺少direction"@),
        (price_positive, "缺少有效price"@),
        (quantity > 0, "缺少有效quantity"@),
    ]
}

fn invalid(msg: &str) -> (r: Result<(), ServiceError>)
    ensures
        r matches Err(ServiceError::Validation(x)) && x@ == msg@,
{
    Err(ServiceError::Validation(msg.to_owned()))
}

impl PortfolioService {
    /// The request names an account (`请提供账户ID`).
    pub fn check_account(&self, account_id: i64) -> (r: Result<(), ServiceError>)
        ensures
            reports_checks(r, seq![(account_id != 0, "请提供账户ID"@)]),
    {
        proof {
            reveal_with_fuel(first_failure, 2);
        }
        if account_id == 0 {
            return invalid("请提供账户ID");
        }
        Ok(())
    }

    /// Checks a buy (see `add_position_checks`); `price_positive` says
    /// whether the price given is above zero.
    pub fn check_add_position(&self, account_id: i64, code: &str, price_positive: bool, quantity: i64) -> (r: Result<(), ServiceError>)
        ensures
            reports_checks(r, add_position_checks(account_id, code@, price_positive, quantity)),
    {
        proof {
            reveal_with_fuel(first_failure, 5);
        }
        if account_id == 0 {
            return invalid("请提供账户ID");
        }
        if code.is_empty() {
            return invalid("请提供股票代码");
        }
        if !price_positive {
            return invalid("请提供有效价格");
        }
        if quantity <= 0 {
            return invalid("请提供有效数量");
        }
        Ok(())
    }

    /// Checks a sale (see `remove_position_checks`).
    pub fn check_remove_position(&self, account_id: i64, code: &str) -> (r: Result<(), ServiceError>)
        ensures
            reports_checks(r, remove_position_checks(account_id, code@)),
    {
        proof {
            reveal_with_fuel(first_failure, 3);
        }
        if account_id == 0 {
            return invalid("请提供账户ID");
        }
        if code.is_empty() {
            return invalid("请提供股票代码");
        }
        Ok(())
    }

    /// The error for a sale of a stock that is not held: `无持仓: <code>`.
    pub fn missing_position(&self, code: &str) -> (e: ServiceError)
        ensures
            e matches ServiceError::Validation(m) && m@ == "无持仓: "@ + code@,
    {
        let mut out: Vec<char> = Vec::new();
        push_str(&mut out, "无持仓: ");
        push_str(&mut out, code);
        ServiceError::Validation(from_chars(&out))
    }

    /// Checks a cash movement (see `cash_add_checks`).
    pub fn check_cash_add(&self, account_id: i64, direction: &str, amount_positive: bool) -> (r: Result<(), ServiceError>)
        ensures
            reports_checks(r, cash_add_checks(account_id, direction@, amount_positive)),
    {
        proof {
            reveal_with_fuel(first_failure, 4);
        }
        if account_id == 0 {
            return invalid("请提供账户ID");
        }
        if !str_eq(direction, "in") && !str_eq(direction, "out") {
            return invalid("direction 必须为 in 或 out");
        }
        if !amount_positive {
            return invalid("请提供有效金额");
        }
        Ok(())
    }

    /// Checks a corporate action (see `corporate_action_checks`).
    pub fn check_corporate_action(&self, account_id: i64, symbol: &str, action_type: &str) -> (r: Result<(), ServiceError>)
        ensures
            reports_checks(r, corporate_action_checks(account_id, symbol@, action_type@)),
    {
        proof {
            reveal_with_fuel(first_failure, 4);
        }
        if account_id == 0 {
            return invalid("请提供账户ID");
        }
        if symbol.is_empty() {
            return invalid("请提供股票代码");
        }
        if action_type.is_empty() {
            return invalid("请提供行动类型");
        }
        Ok(())
    }

    /// Checks an exchange rate update (see `fx_rate_checks`).
    pub fn check_fx_rate(&self, from: &str, to: &str, rate_positive: bool) -> (r: Result<(), ServiceError>)
        ensures
            reports_checks(r, fx_rate_checks(from@, to@, rate_positive)),
    {
        proof {
            reveal_with_fuel(first_failure, 4);
        }
        if from.is_empty() {
            return invalid("请提供源货币");
        }
        if to.is_empty() {
            return invalid("请提供目标货币");
        }
        if !rate_positive {
            return invalid("请提供有效汇率");
        }
        Ok(())
    }

    /// Checks one trade of an import (see `import_trade_checks`); a trade
    /// that fails is counted and reported by its index, the rest go on.
    pub fn check_import_trade(
        &self,
        account_id: i64,
        code: &str,
        direction: &str,
        price_positive: bool,
        quantity: i64,
    ) -> (r: Result<(), ServiceError>)
        ensures
            reports_checks(r, import_trade_checks(account_id, code@, direction@, price_positive, quantity)),
    {
        proof {
            reveal_with_fuel(first_failure, 6);
        }
        if account_id == 0 {
            return invalid("缺少accountId");
        }
        if code.is_empty() {
            return invalid("缺少code");
        }
        if direction.is_empty() {
            return invalid("缺少direction");
        }
        if !price_positive {
            return invalid("缺少有效price");
        }
        if quantity <= 0 {
            return invalid("缺少有效quantity");
        }
        Ok(())
    }

    /// The trades of an import request: the `trades` parameter must be
    /// there (`请提供trades数组`), be an array (`trades必须为数组`) and not be
    /// empty (`trades数组不能为空`).
    pub fn import_trade_list<'a>(&self, params: &'a JsonValue) -> (r: Result<&'a Vec<JsonValue>, ServiceError>)
        ensures
            match field(*params, "trades"@) {
                None => r matches Err(ServiceError::Validation(m)) && m@ == "请提供trades数组"@,
                Some(JsonValue::Array(items)) => if items.len() == 0 {
                    r matches Err(ServiceError::Validation(m)) && m@ == "trades数组不能为空"@
                } else {
                    r matches Ok(list) && *list == items
                },
                Some(_) => r matches Err(ServiceError::Validation(m)) && m@ == "trades必须为数组"@,
            },
    {
        match params.get("trades") {
            None => Err(ServiceError::Validation("请提供trades数组".to_owned())),
            Some(JsonValue::Array(items)) => {
                if items.len() == 0 {
                    Err(ServiceError::Validation("trades数组不能为空".to_owned()))
                } else {
                    Ok(items)
                }
            },
            Some(_) => Err(ServiceError::Validation("trades必须为数组".to_owned())),
        }
    }
}

/// The checks on the new fields of an edited trade: a positive price, a
/// positive quantity and a direction of `buy` or `sell`.
pub open spec fn trade_edit_checks(price_positive: bool, quantity: i64, direction: Seq<char>) -> Seq<(bool, Seq<char>)> {
    seq![
        (price_positive, "价格必须大于0"@),
        (quantity > 0, "数量必须大于0"@),
        (direction == "buy"@ || direction == "sell"@, "方向只能是buy或sell"@),
    ]
}

/// The assignments of a trade edit: the stock code and name only where
/// given, then direction, price, quantity, commission and remark, then the
/// trade date where one was given.
pub open spec fn trade_edit_assignments(code_given: bool, name_given: bool, date_given: bool) -> Seq<Seq<char>> {
    (if code_given { seq!["stock_code = :code"@] } else { Seq::empty() })
        + (if name_given { seq!["stock_name = :name"@] } else { Seq::empty() })
        + seq![
            "direction = :direction"@,
            "price = :price"@,
            "quantity = :quantity"@,
            "commission = :commission"@,
            "remark = :remark"@,
        ]
        + (if date_given { seq!["trade_date = :trade_date"@] } else { Seq::empty() })
}

impl PortfolioService {
    /// An edit or a deletion names a trade (`请提供交易ID`).
    pub fn check_trade_id(&self, trade_id: i64) -> (r: Result<(), ServiceError>)
        ensures
            reports_checks(r, seq![(trade_id != 0, "请提供交易ID"@)]),
    {
        proof {
            reveal_with_fuel(first_failure, 2);
        }
        if trade_id == 0 {
            return invalid("请提供交易ID");
        }
        Ok(())
    }

    /// Checks the new fields of an edited trade (see `trade_edit_checks`).
    pub fn check_trade_edit(&self, price_positive: bool, quantity: i64, direction: &str) -> (r: Result<(), ServiceError>)
        ensures
            reports_checks(r, trade_edit_checks(price_positive, quantity, direction@)),
    {
        proof {
            reveal_with_fuel(first_failure, 4);
        }
        if !price_positive {
            return invalid("价格必须大于0");
        }
        if quantity <= 0 {
            return invalid("数量必须大于0");
        }
        if !str_eq(direction, "buy") && !str_eq(direction, "sell") {
            return invalid("方向只能是buy或sell");
        }
        Ok(())
    }

    /// The statement that writes an edited trade back, given the new stock
    /// code and name (left as they are when empty) and whether a trade date
    /// was given.
    pub fn trade_edit_statement(&self, code: &str, name: &str, date_given: bool) -> (s: String)
        ensures
            s@ == "UPDATE portfolio_trades SET "@ + join(trade_edit_assignments(code@.len() != 0, name@.len() != 0, date_given), ", "@)
                + " WHERE id = :id"@,
    {
        let mut parts: Vec<String> = Vec::new();
        if !code.is_empty() {
            parts.push("stock_code = :code".to_owned());
        }
        if !name.is_empty() {
            parts.push("stock_name = :name".to_owned());
        }
        parts.push("direction = :direction".to_owned());
        parts.push("price = :price".to_owned());
        parts.push("quantity = :quantity".to_owned());
        parts.push("commission = :commission".to_owned());
        parts.push("remark = :remark".to_owned());
        if date_given {
            parts.push("trade_date = :trade_date".to_owned());
        }
        proof {
            assert(views(parts@) =~= trade_edit_assignments(code@.len() != 0, name@.len() != 0, date_given));
        }
        let body = join_lines(&parts, ", ");
        let mut out: Vec<char> = Vec::new();
        push_str(&mut out, "UPDATE portfolio_trades SET ");
        push_str(&mut out, body.as_str());
        push_str(&mut out, " WHERE id = :id");
        from_chars(&out)
    }
}

/// What `chrono::NaiveDateTime::parse_from_str(text, "%Y-%m-%d %H:%M:%S")`
/// reads from `text`: year, month, day, hour, minute, second; `None` when it
/// fails.
pub uninterp spec fn parsed_datetime(text: Seq<char>) -> Option<(i32, u32, u32, u32, u32, u32)>;

/// What `chrono::NaiveDate::parse_from_str(text, "%Y-%m-%d")` reads from
/// `text`: year, month, day; `None` when it fails.
pub uninterp spec fn parsed_date(text: Seq<char>) -> Option<(i32, u32, u32)>;

/// `chrono::NaiveDateTime::parse_from_str(text, "%Y-%m-%d %H:%M:%S")`, read
/// back field by field. What it accepts is named, not stated.
#[verifier::external_body]
fn parse_datetime(text: &str) -> (r: Option<(i32, u32, u32, u32, u32, u32)>)
    ensures
        r == parsed_datetime(text@),
{
    match chrono::NaiveDateTime::parse_from_str(text, "%Y-%m-%d %H:%M:%S") {
        Ok(t) => Some((t.year(), t.month(), t.day(), t.hour(), t.minute(), t.second())),
        Err(_) => None,
    }
}

/// `chrono::NaiveDate::parse_from_str(text, "%Y-%m-%d")`, read back field by
/// field. What it accepts is named, not stated.
#[verifier::external_body]
fn parse_date(text: &str) -> (r: Option<(i32, u32, u32)>)
    ensures
        r == parsed_date(text@),
{
    match chrono::NaiveDate::parse_from_str(text, "%Y-%m-%d") {
        Ok(d) => Some((d.year(), d.month(), d.day())),
        Err(_) => None,
    }
}

/// The trade date a request gives: a full date and time, else a date at
/// midnight.
pub open spec fn spec_trade_date(text: Seq<char>) -> Option<(i32, u32, u32, u32, u32, u32)> {
    match parsed_datetime(text) {
        Some(t) => Some(t),
        None => match parsed_date(text) {
            Some(d) => Some((d.0, d.1, d.2, 0u32, 0u32, 0u32)),
            None => None,
        },
    }
}

/// Reads the `tradeDate` of a request: `YYYY-MM-DD HH:MM:SS`, else
/// `YYYY-MM-DD` at midnight; `None` when it is neither (the trade is then
/// dated now).
pub fn parse_trade_date(text: &str) -> (r: Option<(i32, u32, u32, u32, u32, u32)>)
    ensures
        r == spec_trade_date(text@),
{
    let datetime = parse_datetime(text);
    let date = if datetime.is_some() { None } else { parse_date(text) };
    trade_date_from(datetime, date)
}

/// The trade date from what the two parsers returned: the date and time
/// where the first read one, else the date at midnight.
pub fn trade_date_from(datetime: Option<(i32, u32, u32, u32, u32, u32)>, date: Option<(i32, u32, u32)>)
    -> (r: Option<(i32, u32, u32, u32, u32, u32)>)
    ensures
        r == match datetime {
            Some(t) => Some(t),
            None => match date {
                Some(d) => Some((d.0, d.1, d.2, 0u32, 0u32, 0u32)),
                None => None,
            },
        },
{
    match datetime {
        Some(t) => Some(t),
        None => match date {
            Some(d) => Some((d.0, d.1, d.2, 0, 0, 0)),
            None => None,
        },
    }
}

} // verus!
