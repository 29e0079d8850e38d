//! The API router: which module a request names, and the method it asks for.
use vstd::prelude::*;
use crate::json::str_eq;
use crate::text::{from_chars, lowercased, push_str, to_chars, to_lowercase};

verus! {

/// The modules the API serves.
#[derive(Clone, Copy, PartialEq, Eq, Structural, Debug)]
pub enum ApiModule {
    Stock,
    Analysis,
    Market,
    Agent,
    Backtest,
    Scheduler,
    Portfolio,
    Config,
    Decision,
    Intelligence,
    Alert,
    Usage,
    System,
    Screening,
    Notification,
    Search,
    SocialSentiment,
    BacktestWorker,
    AlertWorker,
    DecisionExtractor,
    MarketContext,
    NameResolver,
    Report,
    Bot,
    Indicator,
}

/// The module whose (lower-case) name is `name`.
pub open spec fn module_named(name: Seq<char>) -> Option<ApiModule> {
    if name == "stock"@ {
        Some(ApiModule::Stock)
    } else if name == "analysis"@ {
        Some(ApiModule::Analysis)
    } else if name == "market"@ {
        Some(ApiModule::Market)
    } else if name == "agent"@ {
        Some(ApiModule::Agent)
    } else if name == "backtest"@ {
        Some(ApiModule::Backtest)
    } else if name == "scheduler"@ {
        Some(ApiModule::Scheduler)
    } else if name == "portfolio"@ {
        Some(ApiModule::Portfolio)
    } else if name == "config"@ {
        Some(ApiModule::Config)
    } else if name == "decision"@ {
        Some(ApiModule::Decision)
    } else if name == "intelligence"@ {
        Some(ApiModule::Intelligence)
    } else if name == "alert"@ {
        Some(ApiModule::Alert)
    } else if name == "usage"@ {
        Some(ApiModule::Usage)
    } else if name == "system"@ {
        Some(ApiModule::System)
    } else if name == "screening"@ {
        Some(ApiModule::Screening)
    } else if name == "notification"@ {
        Some(ApiModule::Notification)
    } else if name == "search"@ {
        Some(ApiModule::Search)
    } else if name == "social_sentiment"@ {
        Some(ApiModule::SocialSentiment)
    } else if name == "backtest_worker"@ {
        Some(ApiModule::BacktestWorker)
    } else if name == "alert_worker"@ {
        Some(ApiModule::AlertWorker)
    } else if name == "decision_extractor"@ {
        Some(ApiModule::DecisionExtractor)
    } else if name == "market_context"@ {
        Some(ApiModule::MarketContext)
    } else if name == "name_resolver"@ {
        Some(ApiModule::NameResolver)
    } else if name == "report"@ {
        Some(ApiModule::Report)
    } else if name == "bot"@ {
        Some(ApiModule::Bot)
    } else if name == "indicator"@ {
        Some(ApiModule::Indicator)
    } else {
        None
    }
}

/// The module a request names, its name compared after `str::to_lowercase`.
pub fn route_module(module: &str) -> (r: Option<ApiModule>)
    ensures
        r == module_named(lowercased(module@)),
{
    let lower = to_lowercase(module);
    let s = lower.as_str();
    if str_eq(s, "stock") {
        Some(ApiModule::Stock)
    } else if str_eq(s, "analysis") {
        Some(ApiModule::Analysis)
    } else if str_eq(s, "market") {
        Some(ApiModule::Market)
    } else if str_eq(s, "agent") {
        Some(ApiModule::Agent)
    } else if str_eq(s, "backtest") {
        Some(ApiModule::Backtest)
    } else if str_eq(s, "scheduler") {
        Some(ApiModule::Scheduler)
    } else if str_eq(s, "portfolio") {
        Some(ApiModule::Portfolio)
    } else if str_eq(s, "config") {
        Some(ApiModule::Config)
    } else if str_eq(s, "decision") {
        Some(ApiModule::Decision)
    } else if str_eq(s, "intelligence") {
        Some(ApiModule::Intelligence)
    } else if str_eq(s, "alert") {
        Some(ApiModule::Alert)
    } else if str_eq(s, "usage") {
        Some(ApiModule::Usage)
    } else if str_eq(s, "system") {
        Some(ApiModule::System)
    } else if str_eq(s, "screening") {
        Some(ApiModule::Screening)
    } else if str_eq(s, "notification") {
        Some(ApiModule::Notification)
    } else if str_eq(s, "search") {
        Some(ApiModule::Search)
    } else if str_eq(s, "social_sentiment") {
        Some(ApiModule::SocialSentiment)
    } else if str_eq(s, "backtest_worker") {
        Some(ApiModule::BacktestWorker)
    } else if str_eq(s, "alert_worker") {
        Some(ApiModule::AlertWorker)
    } else if str_eq(s, "decision_extractor") {
        Some(ApiModule::DecisionExtractor)
    } else if str_eq(s, "market_context") {
        Some(ApiModule::MarketContext)
    } else if str_eq(s, "name_resolver") {
        Some(ApiModule::NameResolver)
    } else if str_eq(s, "report") {
        Some(ApiModule::Report)
    } else if str_eq(s, "bot") {
        Some(ApiModule::Bot)
    } else if str_eq(s, "indicator") {
        Some(ApiModule::Indicator)
    } else {
        None
    }
}

/// `s` with every `/` replaced by `.`.
pub open spec fn slashes_to_dots(s: Seq<char>) -> Seq<char> {
    s.map_values(|c: char| if c == '/' { '.' } else { c })
}

/// The method a request asks for: a `get` request with a path asks for the
/// path with `/` turned into `.`; any other asks for its own method.
pub open spec fn spec_effective_method(method: Seq<char>, path: Seq<char>) -> Seq<char> {
    if method == "get"@ && path.len() != 0 {
        slashes_to_dots(path)
    } else {
        method
    }
}

pub fn effective_method(method: &str, path: &str) -> (r: String)
    ensures
        r@ == spec_effective_method(method@, path@),
{
    if str_eq(method, "get") && !path.is_empty() {
        let v = to_chars(path);
        let mut out: Vec<char> = Vec::new();
        let mut i: usize = 0;
        while i < v.len()
            invariant
                i <= v@.len(),
                out@ == slashes_to_dots(v@.take(i as int)),
            decreases v@.len() - i,
        {
            let c = v[i];
            out.push(if c == '/' { '.' } else { c });
            i = i + 1;
            assert(v@.take(i as int) == v@.take(i - 1).push(c));
        }
        assert(v@.take(v@.len() as int) == v@);
        from_chars(&out)
    } else {
        method.to_owned()
    }
}

/// The error for a module the API does not serve.
pub fn unknown_module_error(module: &str, method: &str) -> (r: String)
    ensures
        r@ == "请求方法"@ + module@ + "."@ + method@ + "系统未提供。"@,
{
    let mut out: Vec<char> = Vec::new();
    push_str(&mut out, "请求方法");
    push_str(&mut out, module);
    push_str(&mut out, ".");
    push_str(&mut out, method);
    push_str(&mut out, "系统未提供。");
    from_chars(&out)
}

} // verus!
