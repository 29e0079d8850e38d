//! Bot command dispatcher: parses messages, routes commands and limits how
//! often one user may issue them.
use vstd::prelude::*;
use crate::json::{chars_eq, str_of, JsonValue};
use crate::text::{
    from_chars, is_ws, is_ws_char, push_str, slice, to_chars, trim, trim_vec,
};
use crate::bot::commands::{BuiltinCommand, command_name, command_description};

verus! {

/// Minimum number of seconds between two commands of the same user.
pub const RATE_LIMIT_WINDOW_SECS: u64 = 2;

/// Where a message came from and who sent it.
pub struct BotContext {
    pub platform: String,
    pub user_id: String,
    pub chat_id: String,
    pub is_admin: bool,
}

/// The time of the last accepted command of `user` in `entries`.
pub open spec fn last_seen(entries: Seq<(String, u64)>, user: Seq<char>) -> Option<u64>
    decreases entries.len(),
{
    if entries.len() == 0 {
        None
    } else if entries[0].0@ == user {
        Some(entries[0].1)
    } else {
        last_seen(entries.drop_first(), user)
    }
}

/// Whether a command of a user last accepted at `last` may run at `now`.
pub open spec fn rate_allows(last: Option<u64>, now: u64) -> bool {
    match last {
        None => true,
        Some(t) => !(now < t || now - t < RATE_LIMIT_WINDOW_SECS),
    }
}

/// The reply to a message that is not a command.
pub open spec fn spec_fallback_message() -> Seq<char> {
    "💡 输入 /help 查看可用命令列表"@
}

pub open spec fn spec_rate_limited_message() -> Seq<char> {
    "⏳ 操作过快，请稍后再试"@
}

/// The reply to a command that is not registered.
pub open spec fn spec_unknown_command_message(name: Seq<char>) -> Seq<char> {
    "❓ 未知命令: /"@ + name + "\n\n"@ + spec_fallback_message()
}

/// The command name of `/name args`: the text after the slash up to the
/// first white space.
pub open spec fn command_part(s: Seq<char>) -> Seq<char> {
    let w = s.drop_first();
    match first_ws(w) {
        Some(k) => w.subrange(0, k),
        None => w,
    }
}

/// The arguments of `/name args`: what follows that white space, trimmed.
pub open spec fn args_part(s: Seq<char>) -> Seq<char> {
    let w = s.drop_first();
    match first_ws(w) {
        Some(k) => trim(w.subrange(k + 1, w.len() as int)),
        None => Seq::empty(),
    }
}

/// The index of the first white-space character of `w`.
pub open spec fn first_ws(w: Seq<char>) -> Option<int> {
    if exists|k: int| 0 <= k < w.len() && #[trigger] is_ws(w[k]) {
        Some(
            choose|k: int|
                0 <= k < w.len() && #[trigger] is_ws(w[k]) && forall|j: int|
                    0 <= j < k ==> !is_ws(w[j]),
        )
    } else {
        None
    }
}

/// What a message asks of the dispatcher.
pub enum Dispatch {
    /// Answer at once with this text.
    Reply(String),
    /// Run this command with these arguments.
    Run { command: BuiltinCommand, args: String },
}

/// The command whose name is `name`, among the built-in ones.
pub open spec fn command_named(name: Seq<char>) -> Option<BuiltinCommand> {
    if name == "help"@ {
        Some(BuiltinCommand::Help)
    } else if name == "status"@ {
        Some(BuiltinCommand::Status)
    } else if name == "analyze"@ {
        Some(BuiltinCommand::Analyze)
    } else if name == "market"@ {
        Some(BuiltinCommand::Market)
    } else if name == "ask"@ {
        Some(BuiltinCommand::Ask)
    } else if name == "chat"@ {
        Some(BuiltinCommand::Chat)
    } else if name == "history"@ {
        Some(BuiltinCommand::History)
    } else {
        None
    }
}

/// `v` is the object `{"name": .., "description": ..}` of command `c`.
pub open spec fn is_command_entry(v: JsonValue, c: BuiltinCommand) -> bool {
    match v {
        JsonValue::Object(m) => {
            &&& m@.len() == 2
            &&& m@[0].0@ == "name"@
            &&& str_of(Some(m@[0].1)) == Some(command_name(c))
            &&& m@[1].0@ == "description"@
            &&& str_of(Some(m@[1].1)) == Some(command_description(c))
        },
        _ => false,
    }
}

/// Registers the built-in commands and remembers when each user last issued one.
pub struct BotDispatcher {
    commands: Vec<BuiltinCommand>,
    rate_limits: Vec<(String, u64)>,
}

/// Each built-in command is found under its own name.
pub proof fn lemma_command_named_inverse(c: BuiltinCommand)
    ensures
        command_named(command_name(c)) == Some(c),
{
    reveal_strlit("help");
    reveal_strlit("status");
    reveal_strlit("analyze");
    reveal_strlit("market");
    reveal_strlit("ask");
    reveal_strlit("chat");
    reveal_strlit("history");
    assert("help"@.len() == 4 && "help"@[0] == 'h');
    assert("status"@.len() == 6 && "status"@[0] == 's');
    assert("analyze"@.len() == 7 && "analyze"@[0] == 'a');
    assert("market"@.len() == 6 && "market"@[0] == 'm');
    assert("ask"@.len() == 3 && "ask"@[0] == 'a');
    assert("chat"@.len() == 4 && "chat"@[0] == 'c');
    assert("history"@.len() == 7 && "history"@[0] == 'h');
}

proof fn lemma_first_ws_is(w: Seq<char>, k: int)
    requires
        0 <= k < w.len(),
        is_ws(w[k]),
        forall|j: int| 0 <= j < k ==> !is_ws(w[j]),
    ensures
        first_ws(w) == Some(k),
{
    let c = choose|c: int|
        0 <= c < w.len() && #[trigger] is_ws(w[c]) && forall|j: int| 0 <= j < c ==> !is_ws(w[j]);
    assert(0 <= k < w.len() && is_ws(w[k]) && forall|j: int| 0 <= j < k ==> !is_ws(w[j]));
    if c < k {
    } else if c > k {
        assert(!is_ws(w[k]));
    }
}

impl BotDispatcher {
    /// The last accepted command time of each user.
    pub closed spec fn last_seen_of(&self, user: Seq<char>) -> Option<u64> {
        last_seen(self.rate_limits@, user)
    }

    /// The registered commands, in registration order.
    pub closed spec fn registered(&self) -> Seq<BuiltinCommand> {
        self.commands@
    }

    /// A dispatcher with the seven built-in commands and no user seen yet.
    pub fn new() -> (d: Self)
        ensures
            d.registered() == seq![
                BuiltinCommand::Help,
                BuiltinCommand::Status,
                BuiltinCommand::Analyze,
                BuiltinCommand::Market,
                BuiltinCommand::Ask,
                BuiltinCommand::Chat,
                BuiltinCommand::History,
            ],
            forall|u: Seq<char>| d.last_seen_of(u) is None,
    {
        let mut commands: Vec<BuiltinCommand> = Vec::new();
        commands.push(BuiltinCommand::Help);
        commands.push(BuiltinCommand::Status);
        commands.push(BuiltinCommand::Analyze);
        commands.push(BuiltinCommand::Market);
        commands.push(BuiltinCommand::Ask);
        commands.push(BuiltinCommand::Chat);
        commands.push(BuiltinCommand::History);
        BotDispatcher { commands, rate_limits: Vec::new() }
    }

    /// The hint that lists how to get help.
    pub fn nl_fallback_message() -> (s: String)
        ensures
            s@ == spec_fallback_message(),
    {
        "💡 输入 /help 查看可用命令列表".to_owned()
    }

    /// Splits `/name args` into the command name and its trimmed arguments.
    pub fn parse_command(input: &str) -> (r: (String, String))
        requires
            input@.len() > 0,
            input@[0] == '/',
        ensures
            r.0@ == command_part(input@),
            r.1@ == args_part(input@),
    {
        let v = to_chars(input);
        let w = slice(&v, 1, v.len());
        assert(w@ == input@.drop_first());
        let mut k: usize = 0;
        while k < w.len() && !is_ws_char(w[k])
            invariant
                k <= w@.len(),
                forall|j: int| 0 <= j < k ==> !is_ws(w@[j]),
            decreases w@.len() - k,
        {
            k = k + 1;
        }
        if k < w.len() {
            proof {
                lemma_first_ws_is(w@, k as int);
            }
            let cmd = slice(&w, 0, k);
            let rest = slice(&w, k + 1, w.len());
            let args = trim_vec(&rest);
            (from_chars(&cmd), from_chars(&args))
        } else {
            assert(first_ws(w@) is None);
            (from_chars(&w), String::new())
        }
    }

    /// The command registered under `name`.
    pub fn find_command(&self, name: &str) -> (r: Option<BuiltinCommand>)
        requires
            self.registered() == seq![
                BuiltinCommand::Help,
                BuiltinCommand::Status,
                BuiltinCommand::Analyze,
                BuiltinCommand::Market,
                BuiltinCommand::Ask,
                BuiltinCommand::Chat,
                BuiltinCommand::History,
            ],
        ensures
            r == command_named(name@),
    {
        let n = to_chars(name);
        let mut i: usize = 0;
        while i < self.commands.len()
            invariant
                i <= self.commands@.len(),
                n@ == name@,
                forall|j: int| 0 <= j < i ==> command_name(self.commands@[j]) != name@,
            decreases self.commands@.len() - i,
        {
            let c = self.commands[i];
            let cn = to_chars(c.name());
            if chars_eq(&cn, &n) {
                assert(command_name(c) == name@);
                proof {
                    lemma_command_named_inverse(c);
                }
                return Some(c);
            }
            i = i + 1;
        }
        proof {
            reveal_strlit("help");
            reveal_strlit("status");
            reveal_strlit("analyze");
            reveal_strlit("market");
            reveal_strlit("ask");
            reveal_strlit("chat");
            reveal_strlit("history");
            assert(command_name(self.commands@[0]) != name@);
            assert(command_name(self.commands@[1]) != name@);
            assert(command_name(self.commands@[2]) != name@);
            assert(command_name(self.commands@[3]) != name@);
            assert(command_name(self.commands@[4]) != name@);
            assert(command_name(self.commands@[5]) != name@);
            assert(command_name(self.commands@[6]) != name@);
        }
        None
    }

    /// The name and description of each registered command, as objects
    /// `{"name": .., "description": ..}`, in registration order.
    pub fn list_commands(&self) -> (r: Vec<JsonValue>)
        ensures
            r@.len() == self.registered().len(),
            forall|i: int| 0 <= i < r@.len() ==> is_command_entry(#[trigger] r@[i], self.registered()[i]),
    {
        let mut out: Vec<JsonValue> = Vec::new();
        let mut i: usize = 0;
        while i < self.commands.len()
            invariant
                i <= self.commands@.len(),
                out@.len() == i,
                forall|j: int| 0 <= j < i ==> is_command_entry(#[trigger] out@[j], self.commands@[j]),
            decreases self.commands@.len() - i,
        {
            let c = self.commands[i];
            let mut m: Vec<(String, JsonValue)> = Vec::new();
            m.push(("name".to_owned(), JsonValue::string(c.name())));
            m.push(("description".to_owned(), JsonValue::string(c.description())));
            out.push(JsonValue::Object(m));
            i = i + 1;
        }
        out
    }

    /// Accepts a command of `user_id` at time `now` (in seconds) unless the
    /// same user's last accepted command was less than
    /// `RATE_LIMIT_WINDOW_SECS` earlier; an accepted command records `now`.
    pub fn check_rate_limit_at(&mut self, user_id: &str, now: u64) -> (allowed: bool)
        ensures
            allowed == rate_allows(old(self).last_seen_of(user_id@), now),
            forall|u: Seq<char>|
                #[trigger] final(self).last_seen_of(u) == if allowed && u == user_id@ {
                    Some(now)
                } else {
                    old(self).last_seen_of(u)
                },
            final(self).registered() == old(self).registered(),
    {
        let uid = to_chars(user_id);
        let n = self.rate_limits.len();
        let mut i: usize = 0;
        assert(self.rate_limits@.subrange(0, n as int) == self.rate_limits@);
        while i < n
            invariant
                n == self.rate_limits@.len(),
                *self == *old(self),
                i <= n,
                uid@ == user_id@,
                forall|j: int| 0 <= j < i ==> self.rate_limits@[j].0@ != user_id@,
                last_seen(self.rate_limits@, user_id@) == last_seen(
                    self.rate_limits@.subrange(i as int, n as int),
                    user_id@,
                ),
            decreases n - i,
        {
            let kc = to_chars(self.rate_limits[i].0.as_str());
            let ghost rest = self.rate_limits@.subrange(i as int, n as int);
            assert(rest[0] == self.rate_limits@[i as int]);
            if chars_eq(&kc, &uid) {
                let last = self.rate_limits[i].1;
                assert(last_seen(rest, user_id@) == Some(last));
                if now < last || now - last < RATE_LIMIT_WINDOW_SECS {
                    return false;
                }
                let ghost before = self.rate_limits@;
                let name = self.rate_limits[i].0.clone();
                self.rate_limits.set(i, (name, now));
                proof {
                    lemma_last_seen_update(before, i as int, now, user_id@);
                }
                return true;
            }
            assert(rest.drop_first() == self.rate_limits@.subrange(i + 1, n as int));
            i = i + 1;
        }
        let ghost before = self.rate_limits@;
        let name = user_id.to_owned();
        let ghost name_g = name;
        self.rate_limits.push((name, now));
        proof {
            lemma_last_seen_push(before, name_g, now);
        }
        true
    }

    /// Accepts a command of `user_id` now; see `check_rate_limit_at`. The
    /// clock's reading is not stated: the decision is that of
    /// `check_rate_limit_at` at some time `now`.
    pub fn check_rate_limit(&mut self, user_id: &str) -> (allowed: bool)
        ensures
            exists|now: u64|
                #[trigger] rate_allows(old(self).last_seen_of(user_id@), now) == allowed
                && forall|u: Seq<char>|
                    #[trigger] final(self).last_seen_of(u) == if allowed && u == user_id@ {
                        Some(now)
                    } else {
                        old(self).last_seen_of(u)
                    },
            final(self).registered() == old(self).registered(),
    {
        let now = crate::clock::unix_now_secs();
        let allowed = self.check_rate_limit_at(user_id, now);
        assert(rate_allows(old(self).last_seen_of(user_id@), now) == allowed);
        allowed
    }

    /// Decides what to do with `raw_message` from `user_id` at time `now`:
    /// a message that does not start with `/` (after trimming) gets the help
    /// hint; a command beyond the rate limit gets the slow-down notice; a
    /// registered command is run with its arguments; any other command gets
    /// the unknown-command notice.
    pub fn route_at(&mut self, raw_message: &str, user_id: &str, now: u64) -> (r: Dispatch)
        requires
            old(self).registered() == seq![
                BuiltinCommand::Help,
                BuiltinCommand::Status,
                BuiltinCommand::Analyze,
                BuiltinCommand::Market,
                BuiltinCommand::Ask,
                BuiltinCommand::Chat,
                BuiltinCommand::History,
            ],
        ensures
            final(self).registered() == old(self).registered(),
            ({
                let t = trim(raw_message@);
                if !(t.len() > 0 && t[0] == '/') {
                    &&& r matches Dispatch::Reply(s) && s@ == spec_fallback_message()
                    &&& forall|u: Seq<char>| #[trigger] final(self).last_seen_of(u) == old(self).last_seen_of(u)
                } else if !rate_allows(old(self).last_seen_of(user_id@), now) {
                    &&& r matches Dispatch::Reply(s) && s@ == spec_rate_limited_message()
                    &&& forall|u: Seq<char>| #[trigger] final(self).last_seen_of(u) == old(self).last_seen_of(u)
                } else {
                    &&& forall|u: Seq<char>| #[trigger] final(self).last_seen_of(u) == if u == user_id@ {
                        Some(now)
                    } else {
                        old(self).last_seen_of(u)
                    }
                    &&& match command_named(command_part(t)) {
                        Some(c) => r matches Dispatch::Run { command, args } && command == c
                            && args@ == args_part(t),
                        None => r matches Dispatch::Reply(s) && s@
                            == spec_unknown_command_message(command_part(t)),
                    }
                }
            }),
    {
        let trimmed = crate::text::trim_str(raw_message);
        let tv = to_chars(trimmed.as_str());
        if tv.len() == 0 || tv[0] != '/' {
            return Dispatch::Reply(Self::nl_fallback_message());
        }
        let (cmd_name, args) = Self::parse_command(trimmed.as_str());
        if !self.check_rate_limit_at(user_id, now) {
            return Dispatch::Reply("⏳ 操作过快，请稍后再试".to_owned());
        }
        match self.find_command(cmd_name.as_str()) {
            Some(c) => Dispatch::Run { command: c, args },
            None => {
                let mut out: Vec<char> = Vec::new();
                push_str(&mut out, "❓ 未知命令: /");
                push_str(&mut out, cmd_name.as_str());
                push_str(&mut out, "\n\n");
                let fb = Self::nl_fallback_message();
                push_str(&mut out, fb.as_str());
                Dispatch::Reply(from_chars(&out))
            },
        }
    }
}

proof fn lemma_last_seen_update(entries: Seq<(String, u64)>, i: int, now: u64, user: Seq<char>)
    requires
        0 <= i < entries.len(),
        entries[i].0@ == user,
        forall|j: int| 0 <= j < i ==> entries[j].0@ != user,
    ensures
        forall|u: Seq<char>|
            #[trigger] last_seen(entries.update(i, (entries[i].0, now)), u) == if u == user {
                Some(now)
            } else {
                last_seen(entries, u)
            },
    decreases i,
{
    let e2 = entries.update(i, (entries[i].0, now));
    if i == 0 {
        assert(e2.drop_first() == entries.drop_first());
        assert forall|u: Seq<char>|
            #[trigger] last_seen(e2, u) == if u == user {
                Some(now)
            } else {
                last_seen(entries, u)
            } by {
            assert(e2[0] == (entries[0].0, now));
        }
    } else {
        let d = entries.drop_first();
        lemma_last_seen_update(d, i - 1, now, user);
        assert(e2.drop_first() == d.update(i - 1, (d[i - 1].0, now)));
        assert forall|u: Seq<char>|
            #[trigger] last_seen(e2, u) == if u == user {
                Some(now)
            } else {
                last_seen(entries, u)
            } by {
            assert(e2[0] == entries[0]);
            assert(last_seen(d.update(i - 1, (d[i - 1].0, now)), u) == if u == user {
                Some(now)
            } else {
                last_seen(d, u)
            });
        }
    }
}

proof fn lemma_last_seen_push(entries: Seq<(String, u64)>, name: String, now: u64)
    requires
        forall|j: int| 0 <= j < entries.len() ==> entries[j].0@ != name@,
    ensures
        forall|u: Seq<char>|
            #[trigger] last_seen(entries.push((name, now)), u) == if u == name@ {
                Some(now)
            } else {
                last_seen(entries, u)
            },
    decreases entries.len(),
{
    let e2 = entries.push((name, now));
    if entries.len() == 0 {
        assert(e2.drop_first() == Seq::<(String, u64)>::empty());
        assert forall|u: Seq<char>|
            #[trigger] last_seen(e2, u) == if u == name@ {
                Some(now)
            } else {
                last_seen(entries, u)
            } by {
            assert(e2[0] == (name, now));
            assert(last_seen(e2.drop_first(), u) is None);
        }
    } else {
        let d = entries.drop_first();
        lemma_last_seen_push(d, name, now);
        assert(e2.drop_first() == d.push((name, now)));
        assert forall|u: Seq<char>|
            #[trigger] last_seen(e2, u) == if u == name@ {
                Some(now)
            } else {
                last_seen(entries, u)
            } by {
            assert(e2[0] == entries[0]);
            assert(last_seen(d.push((name, now)), u) == if u == name@ {
                Some(now)
            } else {
                last_seen(d, u)
            });
        }
    }
}

/// Once a command of a user is accepted at `now`, the same user's commands
/// are refused until `RATE_LIMIT_WINDOW_SECS` seconds have passed and
/// accepted from then on; a user who issued no command is never refused.
pub proof fn lemma_rate_window(now: u64, later: u64)
    ensures
        now <= later < now + RATE_LIMIT_WINDOW_SECS ==> !rate_allows(Some(now), later),
        later >= now + RATE_LIMIT_WINDOW_SECS ==> rate_allows(Some(now), later),
        rate_allows(None, later),
{
}

} // verus!
