//! The built-in bot commands: their names, descriptions and the replies they
//! compose.
//!
//! Commands that need stored analyses or live quotes take what was looked up
//! as arguments; everything they decide and write is here.
use vstd::prelude::*;
use crate::strings::{
    decimal_string, decimal_text, join, join_lines, or_default, or_default_str, pad_right,
    pad_right_str, remove_all, remove_all_str, views,
};
use crate::text::{
    all_numeric, all_numeric_vec, chars_within_bytes, from_chars, prefix_within_bytes,
    push_str, slice, starts_with, to_chars, trim, trim_str, utf8_len, utf8_len_capped,
};

verus! {

/// The commands the dispatcher knows.
#[derive(Clone, Copy, PartialEq, Eq, Structural, Debug)]
pub enum BuiltinCommand {
    Help,
    Status,
    Analyze,
    Market,
    Ask,
    Chat,
    History,
}

pub open spec fn command_name(c: BuiltinCommand) -> Seq<char> {
    match c {
        BuiltinCommand::Help => "help"@,
        BuiltinCommand::Status => "status"@,
        BuiltinCommand::Analyze => "analyze"@,
        BuiltinCommand::Market => "market"@,
        BuiltinCommand::Ask => "ask"@,
        BuiltinCommand::Chat => "chat"@,
        BuiltinCommand::History => "history"@,
    }
}

pub open spec fn command_description(c: BuiltinCommand) -> Seq<char> {
    match c {
        BuiltinCommand::Help => "显示所有可用命令"@,
        BuiltinCommand::Status => "查看系统运行状态"@,
        BuiltinCommand::Analyze => "快速股票分析"@,
        BuiltinCommand::Market => "大盘指数概览"@,
        BuiltinCommand::Ask => "Agent 分析提问"@,
        BuiltinCommand::Chat => "自由对话"@,
        BuiltinCommand::History => "查看最近分析记录"@,
    }
}

impl BuiltinCommand {
    pub fn name(&self) -> (s: &'static str)
        ensures
            s@ == command_name(*self),
    {
        match self {
            BuiltinCommand::Help => "help",
            BuiltinCommand::Status => "status",
            BuiltinCommand::Analyze => "analyze",
            BuiltinCommand::Market => "market",
            BuiltinCommand::Ask => "ask",
            BuiltinCommand::Chat => "chat",
            BuiltinCommand::History => "history",
        }
    }

    pub fn description(&self) -> (s: &'static str)
        ensures
            s@ == command_description(*self),
    {
        match self {
            BuiltinCommand::Help => "显示所有可用命令",
            BuiltinCommand::Status => "查看系统运行状态",
            BuiltinCommand::Analyze => "快速股票分析",
            BuiltinCommand::Market => "大盘指数概览",
            BuiltinCommand::Ask => "Agent 分析提问",
            BuiltinCommand::Chat => "自由对话",
            BuiltinCommand::History => "查看最近分析记录",
        }
    }
}

// ------------------------------------------------------------------
// /help
// ------------------------------------------------------------------
/// One row of the help table: a title line when the description is empty,
/// an empty line when both are, the padded command and its description otherwise.
pub open spec fn help_line(cmd: Seq<char>, desc: Seq<char>) -> Seq<char> {
    if desc.len() == 0 && cmd.len() != 0 {
        cmd
    } else if cmd.len() == 0 {
        Seq::empty()
    } else {
        "  "@ + pad_right(cmd, 20) + " "@ + desc
    }
}

pub open spec fn help_rows() -> Seq<(Seq<char>, Seq<char>)> {
    seq![
        ("📖 可用命令列表"@, ""@),
        (""@, ""@),
        ("/help"@, "显示所有可用命令"@),
        ("/status"@, "查看系统运行状态"@),
        ("/analyze <代码>"@, "快速股票分析 (例: /analyze 600519)"@),
        ("/market"@, "大盘指数概览"@),
        ("/ask <问题>"@, "Agent 分析提问 (例: /ask 茅台值得买入吗?)"@),
        ("/chat <消息>"@, "自由对话"@),
        ("/history <代码>"@, "查看最近3次分析记录"@),
        (""@, ""@),
        ("💡 命令以 / 开头, 参数用空格分隔"@, ""@),
    ]
}

/// The help text: the rows of `help_rows`, one per line.
pub open spec fn spec_help_text() -> Seq<char> {
    join(help_rows().map_values(|r: (Seq<char>, Seq<char>)| help_line(r.0, r.1)), "\n"@)
}

/// Lists the commands.
pub struct HelpCommand;

fn help_line_exec(cmd: &str, desc: &str) -> (r: String)
    ensures
        r@ == help_line(cmd@, desc@),
{
    if desc.is_empty() && !cmd.is_empty() {
        cmd.to_owned()
    } else if cmd.is_empty() {
        String::new()
    } else {
        let mut out: Vec<char> = Vec::new();
        push_str(&mut out, "  ");
        let padded = pad_right_str(cmd, 20);
        push_str(&mut out, padded.as_str());
        push_str(&mut out, " ");
        push_str(&mut out, desc);
        from_chars(&out)
    }
}

impl HelpCommand {
    pub fn name(&self) -> (s: &'static str)
        ensures
            s@ == command_name(BuiltinCommand::Help),
    {
        BuiltinCommand::Help.name()
    }

    pub fn description(&self) -> (s: &'static str)
        ensures
            s@ == command_description(BuiltinCommand::Help),
    {
        BuiltinCommand::Help.description()
    }

    /// The help text.
    pub fn execute(&self) -> (r: String)
        ensures
            r@ == spec_help_text(),
    {
        let rows: [(&str, &str); 11] = [
            ("📖 可用命令列表", ""),
            ("", ""),
            ("/help", "显示所有可用命令"),
            ("/status", "查看系统运行状态"),
            ("/analyze <代码>", "快速股票分析 (例: /analyze 600519)"),
            ("/market", "大盘指数概览"),
            ("/ask <问题>", "Agent 分析提问 (例: /ask 茅台值得买入吗?)"),
            ("/chat <消息>", "自由对话"),
            ("/history <代码>", "查看最近3次分析记录"),
            ("", ""),
            ("💡 命令以 / 开头, 参数用空格分隔", ""),
        ];
        let ghost spec_rows = help_rows();
        let mut lines: Vec<String> = Vec::new();
        let mut i: usize = 0;
        while i < 11
            invariant
                i <= 11,
                forall|k: int| 0 <= k < 11 ==> (#[trigger] rows@[k]).0@ == spec_rows[k].0 && rows@[k].1@ == spec_rows[k].1,
                spec_rows.len() == 11,
                lines@.len() == i,
                forall|k: int| 0 <= k < i ==> (#[trigger] lines@[k])@ == help_line(spec_rows[k].0, spec_rows[k].1),
            decreases 11 - i,
        {
            let (c, d) = rows[i];
            lines.push(help_line_exec(c, d));
            i = i + 1;
        }
        let r = join_lines(&lines, "\n");
        assert(views(lines@) == spec_rows.map_values(|r: (Seq<char>, Seq<char>)| help_line(r.0, r.1)));
        r
    }
}

// ------------------------------------------------------------------
// /status
// ------------------------------------------------------------------
/// The status report: database reachability, whether an API key is set, and the model in use.
pub open spec fn spec_status_text(db_ok: bool, api_key_set: bool, provider: Seq<char>, model: Seq<char>) -> Seq<char> {
    join(
        seq![
            "🔍 系统状态检查"@,
            "  数据库: "@ + (if db_ok { "✅ 正常"@ } else { "❌ 异常"@ }),
            "  LLM服务: "@ + (if api_key_set { "✅ 已配置"@ } else { "⚠️ 未配置 API Key"@ }),
            "  调度器: ✅ 运行中"@,
            Seq::empty(),
            "  Provider: "@ + provider,
            "  Model: "@ + model,
        ],
        "\n"@,
    )
}

/// Reports whether the system's parts are usable.
pub struct StatusCommand;

fn concat2(a: &str, b: &str) -> (r: String)
    ensures
        r@ == a@ + b@,
{
    let mut out: Vec<char> = Vec::new();
    push_str(&mut out, a);
    push_str(&mut out, b);
    from_chars(&out)
}

impl StatusCommand {
    pub fn name(&self) -> (s: &'static str)
        ensures
            s@ == command_name(BuiltinCommand::Status),
    {
        BuiltinCommand::Status.name()
    }

    pub fn description(&self) -> (s: &'static str)
        ensures
            s@ == command_description(BuiltinCommand::Status),
    {
        BuiltinCommand::Status.description()
    }

    /// The status report for the probed facts.
    pub fn execute(&self, db_ok: bool, api_key_set: bool, provider: &str, model: &str) -> (r: String)
        ensures
            r@ == spec_status_text(db_ok, api_key_set, provider@, model@),
    {
        let mut lines: Vec<String> = Vec::new();
        lines.push("🔍 系统状态检查".to_owned());
        lines.push(concat2("  数据库: ", if db_ok { "✅ 正常" } else { "❌ 异常" }));
        lines.push(concat2("  LLM服务: ", if api_key_set { "✅ 已配置" } else { "⚠️ 未配置 API Key" }));
        lines.push("  调度器: ✅ 运行中".to_owned());
        lines.push(String::new());
        lines.push(concat2("  Provider: ", provider));
        lines.push(concat2("  Model: ", model));
        let r = join_lines(&lines, "\n");
        assert(views(lines@) == seq![
            "🔍 系统状态检查"@,
            "  数据库: "@ + (if db_ok { "✅ 正常"@ } else { "❌ 异常"@ }),
            "  LLM服务: "@ + (if api_key_set { "✅ 已配置"@ } else { "⚠️ 未配置 API Key"@ }),
            "  调度器: ✅ 运行中"@,
            Seq::<char>::empty(),
            "  Provider: "@ + provider@,
            "  Model: "@ + model@,
        ]);
        r
    }
}

// ------------------------------------------------------------------
// stock codes shared by /analyze and /history
// ------------------------------------------------------------------
/// The code with every `sh` and then every `sz` removed.
pub open spec fn clean_code(code: Seq<char>) -> Seq<char> {
    remove_all(remove_all(code, "sh"@), "sz"@)
}

/// A cleaned code is valid when it is six bytes long and every character is numeric.
pub open spec fn valid_clean_code(c: Seq<char>) -> bool {
    utf8_len(c) == 6 && all_numeric(c)
}

/// Cleans `code` and checks it; `None` when the result is not a valid code.
pub fn clean_stock_code(code: &str) -> (r: Option<String>)
    ensures
        match r {
            Some(c) => c@ == clean_code(code@) && valid_clean_code(c@),
            None => !valid_clean_code(clean_code(code@)),
        },
{
    proof {
        reveal_strlit("sh");
        reveal_strlit("sz");
    }
    let a = remove_all_str(code, "sh");
    let b = remove_all_str(a.as_str(), "sz");
    let chars = to_chars(b.as_str());
    let bytes_len = utf8_len_capped(&chars, 6);
    if bytes_len != 6 || !all_numeric_vec(&chars) {
        None
    } else {
        Some(b)
    }
}

/// `msg` followed by `code`.
fn labelled(msg: &str, code: &str) -> (r: String)
    ensures
        r@ == msg@ + code@,
{
    let mut out: Vec<char> = Vec::new();
    push_str(&mut out, msg);
    push_str(&mut out, code);
    from_chars(&out)
}

/// What a command that needs a stock code decides about its arguments: the
/// cleaned code, or the reply that rejects them.
pub open spec fn spec_code_argument(args: Seq<char>, empty_reply: Seq<char>) -> Result<Seq<char>, Seq<char>> {
    let code = trim(args);
    if code.len() == 0 {
        Err(empty_reply)
    } else if !valid_clean_code(clean_code(code)) {
        Err("❌ 无效股票代码: "@ + code)
    } else {
        Ok(clean_code(code))
    }
}

fn code_argument(args: &str, empty_reply: &str) -> (r: Result<String, String>)
    ensures
        match r {
            Ok(c) => spec_code_argument(args@, empty_reply@) == Ok::<Seq<char>, Seq<char>>(c@),
            Err(e) => spec_code_argument(args@, empty_reply@) == Err::<Seq<char>, Seq<char>>(e@),
        },
{
    let code = trim_str(args);
    if code.as_str().is_empty() {
        return Err(empty_reply.to_owned());
    }
    match clean_stock_code(code.as_str()) {
        Some(c) => Ok(c),
        None => Err(labelled("❌ 无效股票代码: ", code.as_str())),
    }
}

/// The reply when the database cannot be reached.
pub fn db_failure_reply(err: &str) -> (r: String)
    ensures
        r@ == "❌ 数据库连接失败: "@ + err@,
{
    labelled("❌ 数据库连接失败: ", err)
}

// ------------------------------------------------------------------
// /analyze
// ------------------------------------------------------------------
/// The stored fields of the latest analysis of a stock, as text; an empty
/// field was not recorded.
pub struct LatestAnalysis {
    pub stock_name: String,
    pub sentiment_score: String,
    pub decision_type: String,
    pub operation_advice: String,
    pub analysis_summary: String,
    pub create_time: String,
}

/// The summary, when it is longer than 200 bytes, cut after the characters
/// that fit in its first 200 bytes (so never inside a character) and
/// followed by `...`.
pub open spec fn truncated_summary(s: Seq<char>) -> Seq<char> {
    if utf8_len(s) > 200 {
        s.take(chars_within_bytes(s, 200)) + "..."@
    } else {
        s
    }
}

pub open spec fn spec_latest_reply(a: LatestAnalysis, code_clean: Seq<char>, full_code: Seq<char>) -> Seq<char> {
    "📊 "@ + or_default(a.stock_name@, code_clean) + " ("@ + full_code + ") 最新分析\n\n情绪评分: "@
        + or_default(a.sentiment_score@, "N/A"@) + "\n决策类型: "@ + or_default(a.decision_type@, "N/A"@)
        + "\n操作建议: "@ + or_default(a.operation_advice@, "N/A"@) + "\n分析时间: "@ + or_default(
        a.create_time@,
        "未知"@,
    ) + "\n\n📝 摘要: "@ + truncated_summary(or_default(a.analysis_summary@, "无摘要"@))
}

pub open spec fn spec_realtime_reply(name: Seq<char>, code_clean: Seq<char>, full_code: Seq<char>, price: Seq<char>, change: Seq<char>) -> Seq<char> {
    "📊 "@ + or_default(name, code_clean) + " ("@ + full_code + ") 实时行情\n\n当前价: "@ + price
        + "\n涨跌幅: "@ + change + "%\n\n💡 暂无分析记录, 可通过分析服务触发深度分析"@
}

/// Quick analysis of one stock.
pub struct AnalyzeCommand;

fn truncate_summary(s: &str) -> (r: String)
    ensures
        r@ == truncated_summary(s@),
{
    let v = to_chars(s);
    if utf8_len_capped(&v, 200) > 200 {
        let k = prefix_within_bytes(&v, 200);
        let head = slice(&v, 0, k);
        let h = from_chars(&head);
        labelled(h.as_str(), "...")
    } else {
        s.to_owned()
    }
}

impl AnalyzeCommand {
    pub fn name(&self) -> (s: &'static str)
        ensures
            s@ == command_name(BuiltinCommand::Analyze),
    {
        BuiltinCommand::Analyze.name()
    }

    pub fn description(&self) -> (s: &'static str)
        ensures
            s@ == command_description(BuiltinCommand::Analyze),
    {
        BuiltinCommand::Analyze.description()
    }

    /// The cleaned stock code that the arguments name, or the reply that
    /// rejects them (no code, or an invalid one).
    pub fn code_argument(&self, args: &str) -> (r: Result<String, String>)
        ensures
            match r {
                Ok(c) => spec_code_argument(args@, "❌ 请提供股票代码, 例: /analyze 600519"@) == Ok::<Seq<char>, Seq<char>>(c@),
                Err(e) => spec_code_argument(args@, "❌ 请提供股票代码, 例: /analyze 600519"@) == Err::<Seq<char>, Seq<char>>(e@),
            },
    {
        code_argument(args, "❌ 请提供股票代码, 例: /analyze 600519")
    }

    /// The reply that presents the latest stored analysis of `full_code`.
    pub fn latest_reply(&self, a: &LatestAnalysis, code_clean: &str, full_code: &str) -> (r: String)
        ensures
            r@ == spec_latest_reply(*a, code_clean@, full_code@),
    {
        let mut out: Vec<char> = Vec::new();
        push_str(&mut out, "📊 ");
        let name = or_default_str(a.stock_name.as_str(), code_clean);
        push_str(&mut out, name.as_str());
        push_str(&mut out, " (");
        push_str(&mut out, full_code);
        push_str(&mut out, ") 最新分析\n\n情绪评分: ");
        let score = or_default_str(a.sentiment_score.as_str(), "N/A");
        push_str(&mut out, score.as_str());
        push_str(&mut out, "\n决策类型: ");
        let decision = or_default_str(a.decision_type.as_str(), "N/A");
        push_str(&mut out, decision.as_str());
        push_str(&mut out, "\n操作建议: ");
        let advice = or_default_str(a.operation_advice.as_str(), "N/A");
        push_str(&mut out, advice.as_str());
        push_str(&mut out, "\n分析时间: ");
        let time = or_default_str(a.create_time.as_str(), "未知");
        push_str(&mut out, time.as_str());
        push_str(&mut out, "\n\n📝 摘要: ");
        let summary = or_default_str(a.analysis_summary.as_str(), "无摘要");
        let cut = truncate_summary(summary.as_str());
        push_str(&mut out, cut.as_str());
        from_chars(&out)
    }

    /// The reply that presents a live quote when no analysis is stored.
    pub fn realtime_reply(&self, name: &str, code_clean: &str, full_code: &str, price: &str, change: &str) -> (r: String)
        ensures
            r@ == spec_realtime_reply(name@, code_clean@, full_code@, price@, change@),
    {
        let mut out: Vec<char> = Vec::new();
        push_str(&mut out, "📊 ");
        let n = or_default_str(name, code_clean);
        push_str(&mut out, n.as_str());
        push_str(&mut out, " (");
        push_str(&mut out, full_code);
        push_str(&mut out, ") 实时行情\n\n当前价: ");
        push_str(&mut out, price);
        push_str(&mut out, "\n涨跌幅: ");
        push_str(&mut out, change);
        push_str(&mut out, "%\n\n💡 暂无分析记录, 可通过分析服务触发深度分析");
        from_chars(&out)
    }

    /// The reply when neither a stored analysis nor a quote could be had.
    pub fn not_found_reply(&self, full_code: &str, err: &str) -> (r: String)
        ensures
            r@ == "❌ 未找到 "@ + full_code@ + " 的分析记录, 获取行情也失败: "@ + err@,
    {
        let mut out: Vec<char> = Vec::new();
        push_str(&mut out, "❌ 未找到 ");
        push_str(&mut out, full_code);
        push_str(&mut out, " 的分析记录, 获取行情也失败: ");
        push_str(&mut out, err);
        from_chars(&out)
    }
}

// ------------------------------------------------------------------
// /market
// ------------------------------------------------------------------
/// A live index quote: its name, price and change in percent, as text.
pub struct IndexQuote {
    pub name: String,
    pub price: String,
    pub change_percent: String,
}

/// The line for one index: its quote with an arrow by the sign of the
/// change, or a failure note.
pub open spec fn spec_index_line(label: Seq<char>, quote: Option<IndexQuote>) -> Seq<char> {
    match quote {
        Some(q) => "  "@ + (if starts_with(q.change_percent@, "-"@) { "📉"@ } else { "📈"@ }) + " "@
            + or_default(q.name@, label) + ": "@ + q.price@ + "  "@ + q.change_percent@ + "%"@,
        None => "  ⚠️ "@ + label + ": 获取失败"@,
    }
}

/// Index overview.
pub struct MarketCommand;

impl MarketCommand {
    pub fn name(&self) -> (s: &'static str)
        ensures
            s@ == command_name(BuiltinCommand::Market),
    {
        BuiltinCommand::Market.name()
    }

    pub fn description(&self) -> (s: &'static str)
        ensures
            s@ == command_description(BuiltinCommand::Market),
    {
        BuiltinCommand::Market.description()
    }

    /// The indices shown, as (label, quote code), in display order.
    pub fn indices(&self) -> (r: Vec<(String, String)>)
        ensures
            r@.len() == 3,
            r@[0].0@ == "上证指数"@ && r@[0].1@ == "sh000001"@,
            r@[1].0@ == "深证成指"@ && r@[1].1@ == "sz399001"@,
            r@[2].0@ == "创业板指"@ && r@[2].1@ == "sz399006"@,
    {
        let mut r: Vec<(String, String)> = Vec::new();
        r.push(("上证指数".to_owned(), "sh000001".to_owned()));
        r.push(("深证成指".to_owned(), "sz399001".to_owned()));
        r.push(("创业板指".to_owned(), "sz399006".to_owned()));
        r
    }

    /// The line for one index.
    pub fn index_line(&self, label: &str, quote: &Option<IndexQuote>) -> (r: String)
        ensures
            r@ == spec_index_line(label@, *quote),
    {
        let mut out: Vec<char> = Vec::new();
        match quote {
            Some(q) => {
                push_str(&mut out, "  ");
                let cv = to_chars(q.change_percent.as_str());
                let minus = to_chars("-");
                let down = crate::text::starts_with_vec(&cv, &minus);
                push_str(&mut out, if down { "📉" } else { "📈" });
                push_str(&mut out, " ");
                let n = or_default_str(q.name.as_str(), label);
                push_str(&mut out, n.as_str());
                push_str(&mut out, ": ");
                push_str(&mut out, q.price.as_str());
                push_str(&mut out, "  ");
                push_str(&mut out, q.change_percent.as_str());
                push_str(&mut out, "%");
            },
            None => {
                push_str(&mut out, "  ⚠️ ");
                push_str(&mut out, label);
                push_str(&mut out, ": 获取失败");
            },
        }
        from_chars(&out)
    }

    /// The overview: a title, an empty line, then the index lines.
    pub fn overview(&self, lines: &Vec<String>) -> (r: String)
        ensures
            r@ == join(seq!["📈 大盘指数概览"@, Seq::empty()] + views(lines@), "\n"@),
    {
        let mut all: Vec<String> = Vec::new();
        all.push("📈 大盘指数概览".to_owned());
        all.push(String::new());
        let mut i: usize = 0;
        while i < lines.len()
            invariant
                i <= lines@.len(),
                views(all@) == seq!["📈 大盘指数概览"@, Seq::<char>::empty()] + views(lines@.subrange(0, i as int)),
            decreases lines@.len() - i,
        {
            let ghost before = all@;
            all.push(lines[i].clone());
            assert(views(all@) == views(before).push(lines@[i as int]@));
            i = i + 1;
            assert(views(lines@.subrange(0, i as int)) == views(lines@.subrange(0, i - 1)).push(lines@[i - 1]@));
        }
        assert(lines@.subrange(0, lines@.len() as int) == lines@);
        join_lines(&all, "\n")
    }
}

// ------------------------------------------------------------------
// /ask and /chat
// ------------------------------------------------------------------
pub open spec fn spec_ask_reply(args: Seq<char>) -> Seq<char> {
    let q = trim(args);
    if q.len() == 0 {
        "❌ 请输入问题, 例: /ask 茅台值得买入吗?"@
    } else {
        "🤖 Agent 分析\n\n问题: "@ + q + "\n\n💡 该功能需要接入 Agent 服务, 当前为预览模式。\n将通过 AI Agent 对您的问题进行深度分析。"@
    }
}

pub open spec fn spec_chat_reply(args: Seq<char>) -> Seq<char> {
    let m = trim(args);
    if m.len() == 0 {
        "❌ 请输入消息, 例: /chat 今天股市怎么样?"@
    } else {
        "💬 对话\n\n您说: "@ + m + "\n\n💡 该功能需要接入对话 Agent, 当前为预览模式。\n将通过 AI Agent 进行自由对话。"@
    }
}

/// Question for the analysis agent (preview reply).
pub struct AskCommand;

impl AskCommand {
    pub fn name(&self) -> (s: &'static str)
        ensures
            s@ == command_name(BuiltinCommand::Ask),
    {
        BuiltinCommand::Ask.name()
    }

    pub fn description(&self) -> (s: &'static str)
        ensures
            s@ == command_description(BuiltinCommand::Ask),
    {
        BuiltinCommand::Ask.description()
    }

    pub fn execute(&self, args: &str) -> (r: String)
        ensures
            r@ == spec_ask_reply(args@),
    {
        let q = trim_str(args);
        if q.as_str().is_empty() {
            return "❌ 请输入问题, 例: /ask 茅台值得买入吗?".to_owned();
        }
        let mut out: Vec<char> = Vec::new();
        push_str(&mut out, "🤖 Agent 分析\n\n问题: ");
        push_str(&mut out, q.as_str());
        push_str(&mut out, "\n\n💡 该功能需要接入 Agent 服务, 当前为预览模式。\n将通过 AI Agent 对您的问题进行深度分析。");
        from_chars(&out)
    }
}

/// Free conversation (preview reply).
pub struct ChatCommand;

impl ChatCommand {
    pub fn name(&self) -> (s: &'static str)
        ensures
            s@ == command_name(BuiltinCommand::Chat),
    {
        BuiltinCommand::Chat.name()
    }

    pub fn description(&self) -> (s: &'static str)
        ensures
            s@ == command_description(BuiltinCommand::Chat),
    {
        BuiltinCommand::Chat.description()
    }

    pub fn execute(&self, args: &str) -> (r: String)
        ensures
            r@ == spec_chat_reply(args@),
    {
        let m = trim_str(args);
        if m.as_str().is_empty() {
            return "❌ 请输入消息, 例: /chat 今天股市怎么样?".to_owned();
        }
        let mut out: Vec<char> = Vec::new();
        push_str(&mut out, "💬 对话\n\n您说: ");
        push_str(&mut out, m.as_str());
        push_str(&mut out, "\n\n💡 该功能需要接入对话 Agent, 当前为预览模式。\n将通过 AI Agent 进行自由对话。");
        from_chars(&out)
    }
}

// ------------------------------------------------------------------
// /history
// ------------------------------------------------------------------
/// One stored analysis as the history lists it; empty fields were not recorded.
pub struct HistoryRow {
    pub stock_name: String,
    pub sentiment_score: String,
    pub decision_type: String,
    pub operation_advice: String,
    pub create_time: String,
}

/// The two lines of the `i`-th (from 0) row.
pub open spec fn spec_history_entry(i: nat, row: HistoryRow, code_clean: Seq<char>) -> Seq<Seq<char>> {
    seq![
        decimal_text(i + 1) + ". "@ + or_default(row.stock_name@, code_clean) + " | 评分: "@ + or_default(
            row.sentiment_score@,
            "N/A"@,
        ) + " | 决策: "@ + or_default(row.decision_type@, "N/A"@),
        "   建议: "@ + or_default(row.operation_advice@, "N/A"@) + " | 时间: "@ + or_default(
            row.create_time@,
            "未知"@,
        ),
    ]
}

/// The lines for the first `n` rows, an empty line between rows.
pub open spec fn spec_history_lines(rows: Seq<HistoryRow>, code_clean: Seq<char>, n: nat) -> Seq<Seq<char>>
    decreases n,
{
    if n == 0 {
        Seq::empty()
    } else {
        let prev = spec_history_lines(rows, code_clean, (n - 1) as nat);
        let sep: Seq<Seq<char>> = if n - 1 < rows.len() - 1 { seq![Seq::empty()] } else { Seq::empty() };
        prev + spec_history_entry((n - 1) as nat, rows[n - 1], code_clean) + sep
    }
}

pub open spec fn spec_history_reply(rows: Seq<HistoryRow>, code_clean: Seq<char>, full_code: Seq<char>) -> Seq<char> {
    if rows.len() == 0 {
        "📭 暂无 "@ + full_code + " 的分析记录"@
    } else {
        join(
            seq!["📋 "@ + full_code + " 最近分析记录"@, Seq::empty()] + spec_history_lines(
                rows,
                code_clean,
                rows.len(),
            ),
            "\n"@,
        )
    }
}

/// The latest analyses of one stock.
pub struct HistoryCommand;

fn or_na(s: &str) -> (r: String)
    ensures
        r@ == or_default(s@, "N/A"@),
{
    or_default_str(s, "N/A")
}

impl HistoryCommand {
    pub fn name(&self) -> (s: &'static str)
        ensures
            s@ == command_name(BuiltinCommand::History),
    {
        BuiltinCommand::History.name()
    }

    pub fn description(&self) -> (s: &'static str)
        ensures
            s@ == command_description(BuiltinCommand::History),
    {
        BuiltinCommand::History.description()
    }

    /// The cleaned stock code that the arguments name, or the reply that rejects them.
    pub fn code_argument(&self, args: &str) -> (r: Result<String, String>)
        ensures
            match r {
                Ok(c) => spec_code_argument(args@, "❌ 请提供股票代码, 例: /history 600519"@) == Ok::<Seq<char>, Seq<char>>(c@),
                Err(e) => spec_code_argument(args@, "❌ 请提供股票代码, 例: /history 600519"@) == Err::<Seq<char>, Seq<char>>(e@),
            },
    {
        code_argument(args, "❌ 请提供股票代码, 例: /history 600519")
    }

    /// The reply that lists `rows`, newest first as given.
    pub fn history_reply(&self, rows: &Vec<HistoryRow>, code_clean: &str, full_code: &str) -> (r: String)
        requires
            rows@.len() < u64::MAX,
        ensures
            r@ == spec_history_reply(rows@, code_clean@, full_code@),
    {
        if rows.len() == 0 {
            let mut out: Vec<char> = Vec::new();
            push_str(&mut out, "📭 暂无 ");
            push_str(&mut out, full_code);
            push_str(&mut out, " 的分析记录");
            return from_chars(&out);
        }
        let mut parts: Vec<String> = Vec::new();
        let mut head: Vec<char> = Vec::new();
        push_str(&mut head, "📋 ");
        push_str(&mut head, full_code);
        push_str(&mut head, " 最近分析记录");
        parts.push(from_chars(&head));
        parts.push(String::new());
        let ghost header = seq!["📋 "@ + full_code@ + " 最近分析记录"@, Seq::<char>::empty()];
        let mut i: usize = 0;
        while i < rows.len()
            invariant
                i <= rows@.len() < u64::MAX,
                views(parts@) == header + spec_history_lines(rows@, code_clean@, i as nat),
            decreases rows@.len() - i,
        {
            let row = &rows[i];
            let mut l1: Vec<char> = Vec::new();
            let num = decimal_string((i + 1) as u64);
            push_str(&mut l1, num.as_str());
            push_str(&mut l1, ". ");
            let name = or_default_str(row.stock_name.as_str(), code_clean);
            push_str(&mut l1, name.as_str());
            push_str(&mut l1, " | 评分: ");
            let score = or_na(row.sentiment_score.as_str());
            push_str(&mut l1, score.as_str());
            push_str(&mut l1, " | 决策: ");
            let decision = or_na(row.decision_type.as_str());
            push_str(&mut l1, decision.as_str());
            let mut l2: Vec<char> = Vec::new();
            push_str(&mut l2, "   建议: ");
            let advice = or_na(row.operation_advice.as_str());
            push_str(&mut l2, advice.as_str());
            push_str(&mut l2, " | 时间: ");
            let time = or_default_str(row.create_time.as_str(), "未知");
            push_str(&mut l2, time.as_str());
            let ghost before = views(parts@);
            parts.push(from_chars(&l1));
            parts.push(from_chars(&l2));
            if i < rows.len() - 1 {
                parts.push(String::new());
            }
            proof {
                let e = spec_history_entry(i as nat, rows@[i as int], code_clean@);
                assert(views(parts@) == before + e + (if i < rows@.len() - 1 { seq![Seq::<char>::empty()] } else { Seq::<Seq<char>>::empty() }));
            }
            i = i + 1;
        }
        join_lines(&parts, "\n")
    }
}

} // verus!
