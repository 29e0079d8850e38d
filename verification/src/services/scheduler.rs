//! Scheduled analysis jobs.
use vstd::prelude::*;
use chrono::Timelike;
use crate::json::str_eq;
use crate::services::error::{unsupported_method, ServiceError};
use crate::strings::{comma_list, split_on, trimmed_codes, views};
use crate::text::{from_chars, push_str, to_chars};

verus! {

/// The methods the service answers.
#[derive(Clone, Copy, PartialEq, Eq, Structural, Debug)]
pub enum SchedulerMethod {
    Start,
    Stop,
    Status,
    Jobs,
    Trigger,
}

/// The method named `name`.
pub open spec fn scheduler_method_named(name: Seq<char>) -> Option<SchedulerMethod> {
    if name == "start"@ {
        Some(SchedulerMethod::Start)
    } else if name == "stop"@ {
        Some(SchedulerMethod::Stop)
    } else if name == "status"@ {
        Some(SchedulerMethod::Status)
    } else if name == "jobs"@ {
        Some(SchedulerMethod::Jobs)
    } else if name == "trigger"@ {
        Some(SchedulerMethod::Trigger)
    } else {
        None
    }
}

pub struct SchedulerService {}

impl SchedulerService {
    pub fn new() -> (s: Self) {
        SchedulerService {}
    }

    /// The method a request names; an unknown one is a routing error
    /// `scheduler不支持方法: <method>`.
    pub fn dispatch(&self, method: &str) -> (r: Result<SchedulerMethod, ServiceError>)
        ensures
            match scheduler_method_named(method@) {
                Some(m) => r == Ok::<SchedulerMethod, ServiceError>(m),
                None => r matches Err(ServiceError::ApiRouting(msg)) && msg@ == "scheduler不支持方法: "@ + method@,
            },
    {
        let r = if str_eq(method, "start") {
            Some(SchedulerMethod::Start)
        } else if str_eq(method, "stop") {
            Some(SchedulerMethod::Stop)
        } else if str_eq(method, "status") {
            Some(SchedulerMethod::Status)
        } else if str_eq(method, "jobs") {
            Some(SchedulerMethod::Jobs)
        } else if str_eq(method, "trigger") {
            Some(SchedulerMethod::Trigger)
        } else {
            None
        };
        match r {
            Some(m) => Ok(m),
            None => Err(unsupported_method("scheduler不支持方法: ", method)),
        }
    }
}


/// What `chrono::NaiveTime::parse_from_str(text, "%H:%M")` reads from
/// `text`, as an hour and a minute; `None` when it fails.
pub uninterp spec fn parsed_hhmm(text: Seq<char>) -> Option<(u32, u32)>;

/// `chrono::NaiveTime::parse_from_str(text, "%H:%M")`, read back as hour and
/// minute. What it accepts is named, not stated; a time it gives has an hour
/// below 24 and a minute below 60.
#[verifier::external_body]
fn parse_hhmm(text: &str) -> (r: Option<(u32, u32)>)
    ensures
        r == parsed_hhmm(text@),
        r matches Some(p) ==> p.0 < 24 && p.1 < 60,
{
    match chrono::NaiveTime::parse_from_str(text, "%H:%M") {
        Ok(t) => Some((t.hour(), t.minute())),
        Err(_) => None,
    }
}

/// A read time of day lies after `now` (minutes since midnight).
pub open spec fn is_later(t: Option<(u32, u32)>, now: int) -> bool {
    match t {
        Some(p) => p.0 * 60 + p.1 > now,
        None => false,
    }
}

/// The first entry whose time lies after `now`.
pub open spec fn first_later(entries: Seq<(Seq<char>, Option<(u32, u32)>)>, now: int) -> Option<int>
    decreases entries.len(),
{
    if entries.len() == 0 {
        None
    } else {
        match first_later(entries.drop_last(), now) {
            Some(i) => Some(i),
            None => if is_later(entries.last().1, now) {
                Some(entries.len() - 1)
            } else {
                None
            },
        }
    }
}

/// The next run among scheduled times, each with what it reads as: the
/// first that lies after `now`; else the first listed; nothing when none
/// is listed.
pub open spec fn spec_next_run(entries: Seq<(Seq<char>, Option<(u32, u32)>)>, now: int) -> Seq<char> {
    if entries.len() == 0 {
        Seq::empty()
    } else {
        match first_later(entries, now) {
            Some(i) => entries[i].0,
            None => entries[0].0,
        }
    }
}

pub open spec fn entry_views(e: Seq<(String, Option<(u32, u32)>)>) -> Seq<(Seq<char>, Option<(u32, u32)>)> {
    e.map_values(|p: (String, Option<(u32, u32)>)| (p.0@, p.1))
}

/// The scheduled times with what each reads as.
pub open spec fn read_times(times: Seq<Seq<char>>) -> Seq<(Seq<char>, Option<(u32, u32)>)> {
    times.map_values(|t: Seq<char>| (t, parsed_hhmm(t)))
}

/// The next run among `entries` (times with what they read as), `now`
/// being minutes since midnight.
pub fn next_run_from(entries: &Vec<(String, Option<(u32, u32)>)>, now: u32) -> (r: String)
    ensures
        r@ == spec_next_run(entry_views(entries@), now as int),
{
    let ghost ev = entry_views(entries@);
    if entries.len() == 0 {
        return String::new();
    }
    let mut i: usize = 0;
    while i < entries.len()
        invariant
            i <= entries@.len(),
            ev == entry_views(entries@),
            first_later(ev.take(i as int), now as int) is None,
        decreases entries@.len() - i,
    {
        let later = match entries[i].1 {
            Some(p) => p.0 as u64 * 60 + p.1 as u64 > now as u64,
            None => false,
        };
        assert(ev.take(i + 1).drop_last() == ev.take(i as int));
        assert(ev.take(i + 1).last() == ev[i as int]);
        if later {
            proof {
                lemma_first_later_prefix(ev, i + 1, now as int);
            }
            return entries[i].0.clone();
        }
        i = i + 1;
    }
    assert(ev.take(entries@.len() as int) == ev);
    entries[0].0.clone()
}

/// Once an entry is found in a prefix, it is the first in the whole.
proof fn lemma_first_later_prefix(e: Seq<(Seq<char>, Option<(u32, u32)>)>, k: int, now: int)
    requires
        0 < k <= e.len(),
        first_later(e.take(k), now) == Some(k - 1),
    ensures
        first_later(e, now) == Some(k - 1),
    decreases e.len() - k,
{
    if k < e.len() {
        assert(e.drop_last().take(k) == e.take(k));
        lemma_first_later_prefix(e.drop_last(), k, now);
    } else {
        assert(e.take(k) == e);
    }
}

/// The running state of the scheduler and the minute it last fired at.
pub struct SchedulerState {
    pub running: bool,
    pub last_trigger: Option<String>,
}

pub open spec fn last_view(st: SchedulerState) -> Option<Seq<char>> {
    match st.last_trigger {
        Some(s) => Some(s@),
        None => None,
    }
}

/// A tick at minute `now` (`HH:MM`) fires when the scheduler runs, the
/// schedule is enabled, `now` is a scheduled time and the last firing was
/// not at `now`.
pub open spec fn spec_fires(st: SchedulerState, enabled: bool, times: Seq<Seq<char>>, now: Seq<char>) -> bool {
    st.running && enabled && times.contains(now) && last_view(st) != Some(now)
}

fn contains_string(v: &Vec<String>, s: &str) -> (b: bool)
    ensures
        b == views(v@).contains(s@),
{
    let mut i: usize = 0;
    while i < v.len()
        invariant
            i <= v@.len(),
            forall|j: int| 0 <= j < i ==> views(v@)[j] != s@,
        decreases v@.len() - i,
    {
        if str_eq(v[i].as_str(), s) {
            assert(views(v@)[i as int] == s@);
            return true;
        }
        i = i + 1;
    }
    false
}

impl SchedulerState {
    pub fn new() -> (st: Self)
        ensures
            !st.running,
            st.last_trigger is None,
    {
        SchedulerState { running: false, last_trigger: None }
    }

    /// Starts the scheduler; `false` when it already ran.
    pub fn start(&mut self) -> (started: bool)
        ensures
            started == !old(self).running,
            final(self).running,
            last_view(*final(self)) == last_view(*old(self)),
    {
        if self.running {
            return false;
        }
        self.running = true;
        true
    }

    /// Stops the scheduler.
    pub fn stop(&mut self)
        ensures
            !final(self).running,
            last_view(*final(self)) == last_view(*old(self)),
    {
        self.running = false;
    }

    /// A minute's tick: whether analysis is due now; when it is, the minute
    /// is remembered so that it fires once.
    pub fn tick(&mut self, enabled: bool, times: &Vec<String>, now: &str) -> (fired: bool)
        ensures
            fired == spec_fires(*old(self), enabled, views(times@), now@),
            final(self).running == old(self).running,
            fired ==> last_view(*final(self)) == Some(now@),
            !fired ==> last_view(*final(self)) == last_view(*old(self)),
    {
        if !self.running || !enabled || !contains_string(times, now) {
            return false;
        }
        let same = match &self.last_trigger {
            Some(l) => str_eq(l.as_str(), now),
            None => false,
        };
        if same {
            return false;
        }
        self.last_trigger = Some(now.to_owned());
        true
    }
}

/// The scheduler fires at most once in a minute: right after a tick that
/// fired at `now`, another tick at `now` does not fire, whatever the
/// schedule says.
pub proof fn lemma_fires_once_per_minute(st: SchedulerState, after: SchedulerState, enabled: bool, times: Seq<Seq<char>>, now: Seq<char>, enabled2: bool, times2: Seq<Seq<char>>)
    requires
        spec_fires(st, enabled, times, now),
        last_view(after) == Some(now),
    ensures
        !spec_fires(after, enabled2, times2, now),
{
}

/// The codes a trigger analyses: the comma-separated list given, trimmed
/// and without empty items; the watch list when none is given.
pub open spec fn spec_trigger_codes(given: Seq<char>, watchlist: Seq<Seq<char>>) -> Seq<Seq<char>> {
    if given.len() > 0 {
        trimmed_codes(split_on(given, ','))
    } else {
        watchlist
    }
}

fn clone_strings(v: &Vec<String>) -> (r: Vec<String>)
    ensures
        views(r@) == views(v@),
{
    let mut r: Vec<String> = Vec::new();
    let mut i: usize = 0;
    while i < v.len()
        invariant
            i <= v@.len(),
            views(r@) == views(v@).take(i as int),
        decreases v@.len() - i,
    {
        let ghost before = views(r@);
        r.push(from_chars(&to_chars(v[i].as_str())));
        assert(views(r@) == before.push(v@[i as int]@));
        assert(views(v@).take(i + 1) == views(v@).take(i as int).push(v@[i as int]@));
        i = i + 1;
    }
    assert(views(v@).take(v@.len() as int) == views(v@));
    r
}

impl SchedulerService {
    /// The next scheduled run when the scheduler runs: the first time in
    /// `times` that lies after `hour:minute`, else the first listed; empty
    /// when the scheduler is stopped or nothing is scheduled.
    pub fn next_run(&self, running: bool, times: &Vec<String>, hour: u32, minute: u32) -> (r: String)
        requires
            hour < 24,
            minute < 60,
        ensures
            !running || times@.len() == 0 ==> r@.len() == 0,
            running && times@.len() > 0 ==> r@ == spec_next_run(read_times(views(times@)), hour * 60 + minute),
    {
        if !running || times.len() == 0 {
            return String::new();
        }
        let mut entries: Vec<(String, Option<(u32, u32)>)> = Vec::new();
        let mut i: usize = 0;
        while i < times.len()
            invariant
                i <= times@.len(),
                entry_views(entries@) == read_times(views(times@)).take(i as int),
            decreases times@.len() - i,
        {
            let t = times[i].as_str();
            let p = parse_hhmm(t);
            let ghost before = entry_views(entries@);
            entries.push((t.to_owned(), p));
            assert(entry_views(entries@) == before.push((t@, p)));
            assert(read_times(views(times@)).take(i + 1) == read_times(views(times@)).take(i as int).push((t@, p)));
            i = i + 1;
        }
        assert(read_times(views(times@)).take(times@.len() as int) == read_times(views(times@)));
        next_run_from(&entries, hour * 60 + minute)
    }

    /// The stock codes a trigger analyses (see `spec_trigger_codes`).
    pub fn trigger_codes(&self, given: &str, watchlist: &Vec<String>) -> (r: Vec<String>)
        ensures
            views(r@) == spec_trigger_codes(given@, views(watchlist@)),
    {
        if given.is_empty() {
            return clone_strings(watchlist);
        }
        comma_list(given)
    }

    /// A trigger needs codes to analyse (`无股票代码可供分析`) and a
    /// configured model key (`API Key 未配置`).
    pub fn check_trigger(&self, codes: &Vec<String>, api_key: &str) -> (r: Result<(), ServiceError>)
        ensures
            codes@.len() == 0 ==> (r matches Err(ServiceError::Validation(m)) && m@ == "无股票代码可供分析"@),
            codes@.len() > 0 && api_key@.len() == 0 ==> (r matches Err(ServiceError::LlmAnalysis(m)) && m@ == "API Key 未配置"@),
            codes@.len() > 0 && api_key@.len() > 0 ==> r is Ok,
    {
        if codes.len() == 0 {
            return Err(ServiceError::Validation("无股票代码可供分析".to_owned()));
        }
        if api_key.is_empty() {
            return Err(ServiceError::LlmAnalysis("API Key 未配置".to_owned()));
        }
        Ok(())
    }

    /// The message a finished trigger reports: `<type> analysis completed`.
    pub fn completion_message(&self, job_type: &str) -> (r: String)
        ensures
            r@ == job_type@ + " analysis completed"@,
    {
        let mut out: Vec<char> = Vec::new();
        push_str(&mut out, job_type);
        push_str(&mut out, " analysis completed");
        from_chars(&out)
    }
}

} // verus!
