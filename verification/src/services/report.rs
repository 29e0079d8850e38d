//! Report rendering and its labels.
use vstd::prelude::*;
use crate::json::str_eq;
use crate::services::error::{unsupported_method, ServiceError};
use crate::strings::{join, or_default, views};
use crate::text::{
    before_char, before_char_vec, find_from, from_chars, occurs_at, occurs_at_vec, push_all, push_str, slice, starts_with,
    starts_with_vec, to_chars,
};

verus! {

/// The methods the service answers.
#[derive(Clone, Copy, PartialEq, Eq, Structural, Debug)]
pub enum ReportMethod {
    Render,
    RenderBrief,
    RenderWechat,
    HistoryCompare,
    Labels,
}

/// The method named `name`.
pub open spec fn report_method_named(name: Seq<char>) -> Option<ReportMethod> {
    if name == "render"@ {
        Some(ReportMethod::Render)
    } else if name == "render_brief"@ {
        Some(ReportMethod::RenderBrief)
    } else if name == "render_wechat"@ {
        Some(ReportMethod::RenderWechat)
    } else if name == "history_compare"@ {
        Some(ReportMethod::HistoryCompare)
    } else if name == "labels"@ {
        Some(ReportMethod::Labels)
    } else {
        None
    }
}

pub struct ReportService {}

impl ReportService {
    pub fn new() -> (s: Self) {
        ReportService {}
    }

    /// The method a request names; an unknown one is a routing error
    /// `report不支持方法: <method>`.
    pub fn dispatch(&self, method: &str) -> (r: Result<ReportMethod, ServiceError>)
        ensures
            match report_method_named(method@) {
                Some(m) => r == Ok::<ReportMethod, ServiceError>(m),
                None => r matches Err(ServiceError::ApiRouting(msg)) && msg@ == "report不支持方法: "@ + method@,
            },
    {
        let r = if str_eq(method, "render") {
            Some(ReportMethod::Render)
        } else if str_eq(method, "render_brief") {
            Some(ReportMethod::RenderBrief)
        } else if str_eq(method, "render_wechat") {
            Some(ReportMethod::RenderWechat)
        } else if str_eq(method, "history_compare") {
            Some(ReportMethod::HistoryCompare)
        } else if str_eq(method, "labels") {
            Some(ReportMethod::Labels)
        } else {
            None
        };
        match r {
            Some(m) => Ok(m),
            None => Err(unsupported_method("report不支持方法: ", method)),
        }
    }
}


/// The lines of `s` as `str::lines` gives them: split at `\n`, a `\r`
/// before the `\n` dropped, and no empty line after a final `\n`.
pub open spec fn md_lines(s: Seq<char>) -> Seq<Seq<char>>
    decreases s.len(),
{
    if s.len() == 0 {
        Seq::empty()
    } else {
        let l = before_char(s, '\n');
        if l.len() < s.len() {
            let line = if l.len() > 0 && l.last() == '\r' { l.drop_last() } else { l };
            seq![line] + md_lines(s.skip(l.len() as int + 1))
        } else {
            seq![l]
        }
    }
}

/// The bold mark `**`.
pub open spec fn bold_mark() -> Seq<char> {
    seq!['*', '*']
}

/// Some `**` starts at or after index `k` of `s`.
pub open spec fn stars_after(s: Seq<char>, k: int) -> bool {
    exists|j: int| k <= j && #[trigger] occurs_at(s, bold_mark(), j)
}

/// The text of `s` from index `i` on with its bold markup in pairs: taken
/// left to right, a `**` that has another `**` after it opens `<strong>`,
/// the next `**` closes it with `</strong>`, and a `**` with none after it
/// stays as it is. `open` says whether a `<strong>` is open at `i`.
pub open spec fn bold_from(s: Seq<char>, i: int, open: bool) -> Seq<char>
    decreases s.len() - i,
{
    if i < 0 || i >= s.len() {
        Seq::empty()
    } else if occurs_at(s, bold_mark(), i) {
        if open {
            "</strong>"@ + bold_from(s, i + 2, false)
        } else if stars_after(s, i + 2) {
            "<strong>"@ + bold_from(s, i + 2, true)
        } else {
            "**"@ + bold_from(s, i + 2, false)
        }
    } else {
        seq![s[i]] + bold_from(s, i + 1, open)
    }
}

/// The tags `bold_from(s, i, open)` writes, in order: `true` for
/// `<strong>`, `false` for `</strong>`.
pub open spec fn bold_tags(s: Seq<char>, i: int, open: bool) -> Seq<bool>
    decreases s.len() - i,
{
    if i < 0 || i >= s.len() {
        Seq::empty()
    } else if occurs_at(s, bold_mark(), i) {
        if open {
            seq![false] + bold_tags(s, i + 2, false)
        } else if stars_after(s, i + 2) {
            seq![true] + bold_tags(s, i + 2, true)
        } else {
            bold_tags(s, i + 2, false)
        }
    } else {
        bold_tags(s, i + 1, open)
    }
}

proof fn lemma_bold_tags_alternate(s: Seq<char>, i: int, open: bool)
    requires
        0 <= i,
        open ==> stars_after(s, i),
    ensures
        forall|k: int| 0 <= k < bold_tags(s, i, open).len() ==> #[trigger] bold_tags(s, i, open)[k] == ((k % 2 == 0) != open),
        bold_tags(s, i, open).len() % 2 == (if open { 1int } else { 0int }),
    decreases s.len() - i,
{
    if i >= s.len() {
        if open {
            let j = choose|j: int| i <= j && #[trigger] occurs_at(s, bold_mark(), j);
            assert(occurs_at(s, bold_mark(), j));
        }
    } else if occurs_at(s, bold_mark(), i) {
        if open {
            lemma_bold_tags_alternate(s, i + 2, false);
            let rest = bold_tags(s, i + 2, false);
            assert forall|k: int| 0 <= k < bold_tags(s, i, open).len() implies #[trigger] bold_tags(s, i, open)[k] == ((k % 2 == 0) != open) by {
                if k > 0 {
                    assert(bold_tags(s, i, open)[k] == rest[k - 1]);
                }
            }
        } else if stars_after(s, i + 2) {
            lemma_bold_tags_alternate(s, i + 2, true);
            let rest = bold_tags(s, i + 2, true);
            assert forall|k: int| 0 <= k < bold_tags(s, i, open).len() implies #[trigger] bold_tags(s, i, open)[k] == ((k % 2 == 0) != open) by {
                if k > 0 {
                    assert(bold_tags(s, i, open)[k] == rest[k - 1]);
                }
            }
        } else {
            lemma_bold_tags_alternate(s, i + 2, false);
        }
    } else {
        if open {
            let j = choose|j: int| i <= j && #[trigger] occurs_at(s, bold_mark(), j);
            assert(j != i);
            assert(stars_after(s, i + 1));
        }
        lemma_bold_tags_alternate(s, i + 1, open);
    }
}

/// Bold markup is written in pairs: the tags of a line open with `<strong>`,
/// alternate, and end closed, so no `</strong>` comes before its `<strong>`
/// and none is left open.
pub proof fn lemma_bold_in_pairs(line: Seq<char>)
    ensures
        forall|k: int| 0 <= k < bold_tags(line, 0, false).len() ==> #[trigger] bold_tags(line, 0, false)[k] == (k % 2 == 0),
        bold_tags(line, 0, false).len() % 2 == 0,
{
    lemma_bold_tags_alternate(line, 0, false);
}

/// The HTML for one Markdown line: `# ` and `## ` headings, a paragraph
/// that starts with `**` with its bold markup in pairs (see `bold_from`),
/// any other non-empty line as a paragraph, and nothing for an empty line.
pub open spec fn html_line(line: Seq<char>) -> Seq<char> {
    if starts_with(line, "# "@) {
        "<h1>"@ + line.skip(2) + "</h1>\n"@
    } else if starts_with(line, "## "@) {
        "<h2>"@ + line.skip(3) + "</h2>\n"@
    } else if starts_with(line, "**"@) {
        "<p>"@ + bold_from(line, 0, false) + "</p>\n"@
    } else if line.len() > 0 {
        "<p>"@ + line + "</p>\n"@
    } else {
        Seq::empty()
    }
}

/// Writes `bold_from(line, 0, false)`.
fn bold_vec(line: &[char]) -> (r: Vec<char>)
    ensures
        r@ == bold_from(line@, 0, false),
{
    let stars = to_chars("**");
    proof {
        reveal_strlit("**");
    }
    let n = line.len();
    let mut out: Vec<char> = Vec::new();
    let mut open = false;
    let mut i: usize = 0;
    while i < n
        invariant
            n == line@.len(),
            i <= n,
            stars@ == bold_mark(),
            open ==> stars_after(line@, i as int),
            out@ + bold_from(line@, i as int, open) == bold_from(line@, 0, false),
        decreases n - i,
    {
        let ghost before = out@;
        let ghost was_open = open;
        if occurs_at_vec(line, &stars, i) {
            if open {
                push_str(&mut out, "</strong>");
                open = false;
            } else {
                let later = find_from(line, &stars, i + 2);
                if later.is_some() {
                    push_str(&mut out, "<strong>");
                    open = true;
                    proof {
                        let j = later.unwrap();
                        assert(occurs_at(line@, bold_mark(), j as int));
                    }
                } else {
                    push_str(&mut out, "**");
                    proof {
                        assert(!stars_after(line@, i + 2));
                    }
                }
            }
            assert(out@ + bold_from(line@, i + 2, open) == before + bold_from(line@, i as int, was_open));
            i = i + 2;
        } else {
            out.push(line[i]);
            proof {
                if open {
                    let j = choose|j: int| i <= j && #[trigger] occurs_at(line@, bold_mark(), j);
                    assert(j != i);
                    assert(stars_after(line@, i + 1));
                }
            }
            i = i + 1;
        }
    }
    assert(bold_from(line@, i as int, open) == Seq::<char>::empty());
    assert(out@ + Seq::<char>::empty() == out@);
    out
}

/// The HTML of `lines`, one after the other.
pub open spec fn html_of(lines: Seq<Seq<char>>) -> Seq<char>
    decreases lines.len(),
{
    if lines.len() == 0 {
        Seq::empty()
    } else {
        html_line(lines[0]) + html_of(lines.drop_first())
    }
}

/// The HTML preview of a Markdown report.
pub open spec fn spec_html_preview(md: Seq<char>) -> Seq<char> {
    html_of(md_lines(md))
}

fn html_line_vec(line: &[char]) -> (r: Vec<char>)
    ensures
        r@ == html_line(line@),
{
    proof {
        reveal_strlit("**");
        reveal_strlit("<strong>");
        reveal_strlit("# ");
        reveal_strlit("## ");
    }
    let n = line.len();
    let mut out: Vec<char> = Vec::new();
    if starts_with_vec(line, &to_chars("# ")) {
        push_str(&mut out, "<h1>");
        push_all(&mut out, &slice(line, 2, n));
        push_str(&mut out, "</h1>\n");
    } else if starts_with_vec(line, &to_chars("## ")) {
        push_str(&mut out, "<h2>");
        push_all(&mut out, &slice(line, 3, n));
        push_str(&mut out, "</h2>\n");
    } else if starts_with_vec(line, &to_chars("**")) {
        let bold = bold_vec(line);
        push_str(&mut out, "<p>");
        push_all(&mut out, &bold);
        push_str(&mut out, "</p>\n");
    } else if n > 0 {
        push_str(&mut out, "<p>");
        push_all(&mut out, line);
        push_str(&mut out, "</p>\n");
    }
    assert(Seq::<char>::empty() + "<p>"@ == "<p>"@);
    assert(Seq::<char>::empty() + "<h1>"@ == "<h1>"@);
    assert(Seq::<char>::empty() + "<h2>"@ == "<h2>"@);
    out
}

/// A simple HTML preview of a Markdown report: headings and paragraphs only.
pub fn markdown_to_html_preview(md: &str) -> (r: String)
    ensures
        r@ == spec_html_preview(md@),
{
    let v = to_chars(md);
    let n = v.len();
    let mut out: Vec<char> = Vec::new();
    let mut i: usize = 0;
    assert(v@.skip(0) == v@);
    while i < n
        invariant
            i <= n == v@.len(),
            out@ + html_of(md_lines(v@.skip(i as int))) == html_of(md_lines(v@)),
        decreases n - i,
    {
        let rest = slice(&v, i, n);
        assert(rest@ == v@.skip(i as int));
        let l = before_char_vec(&rest, '\n');
        let k = l.len();
        let ghost before = out@;
        if k < rest.len() {
            let line = if k > 0 && l[k - 1] == '\r' { slice(&l, 0, k - 1) } else { slice(&l, 0, k) };
            let ghost tail = md_lines(rest@.skip(k + 1));
            assert(line@ == (if l@.len() > 0 && l@.last() == '\r' { l@.drop_last() } else { l@ }));
            assert(md_lines(rest@) == seq![line@] + tail);
            assert((seq![line@] + tail).drop_first() == tail);
            let h = html_line_vec(&line);
            push_all(&mut out, &h);
            assert(rest@.skip(k + 1) == v@.skip(i + k + 1));
            assert(out@ + html_of(tail) == before + (h@ + html_of(tail)));
            i = i + k + 1;
        } else {
            assert(md_lines(rest@) == seq![l@]);
            assert(seq![l@].drop_first() == Seq::<Seq<char>>::empty());
            let h = html_line_vec(&l);
            push_all(&mut out, &h);
            assert(v@.skip(n as int) == Seq::<char>::empty());
            assert(out@ + html_of(md_lines(v@.skip(n as int))) == out@ + Seq::<char>::empty());
            assert(out@ + Seq::<char>::empty() == out@);
            i = n;
        }
    }
    assert(v@.skip(n as int) == Seq::<char>::empty());
    assert(out@ + Seq::<char>::empty() == out@);
    from_chars(&out)
}

/// The labels a report uses.
#[derive(Clone, Copy, PartialEq, Eq, Structural, Debug)]
pub enum LabelKey {
    MarketOverview,
    TrendAnalysis,
    DecisionSignal,
    RiskWarnings,
    KeyIndicators,
    Buy,
    Sell,
    Hold,
    Watch,
    High,
    Medium,
    Low,
    Bullish,
    Bearish,
    Neutral,
    Date,
    Price,
    Change,
    Volume,
    Confidence,
    Recommendation,
}

/// The key a label is listed under.
pub open spec fn label_key_name(k: LabelKey) -> Seq<char> {
    match k {
        LabelKey::MarketOverview => "marketOverview"@,
        LabelKey::TrendAnalysis => "trendAnalysis"@,
        LabelKey::DecisionSignal => "decisionSignal"@,
        LabelKey::RiskWarnings => "riskWarnings"@,
        LabelKey::KeyIndicators => "keyIndicators"@,
        LabelKey::Buy => "buy"@,
        LabelKey::Sell => "sell"@,
        LabelKey::Hold => "hold"@,
        LabelKey::Watch => "watch"@,
        LabelKey::High => "high"@,
        LabelKey::Medium => "medium"@,
        LabelKey::Low => "low"@,
        LabelKey::Bullish => "bullish"@,
        LabelKey::Bearish => "bearish"@,
        LabelKey::Neutral => "neutral"@,
        LabelKey::Date => "date"@,
        LabelKey::Price => "price"@,
        LabelKey::Change => "change"@,
        LabelKey::Volume => "volume"@,
        LabelKey::Confidence => "confidence"@,
        LabelKey::Recommendation => "recommendation"@,
    }
}

/// The text of a label, in English or else in Chinese.
pub open spec fn spec_label(english: bool, k: LabelKey) -> Seq<char> {
    if english {
        match k {
            LabelKey::MarketOverview => "Market Overview"@,
            LabelKey::TrendAnalysis => "Trend Analysis"@,
            LabelKey::DecisionSignal => "Decision Signal"@,
            LabelKey::RiskWarnings => "Risk Warnings"@,
            LabelKey::KeyIndicators => "Key Indicators"@,
            LabelKey::Buy => "Buy"@,
            LabelKey::Sell => "Sell"@,
            LabelKey::Hold => "Hold"@,
            LabelKey::Watch => "Watch"@,
            LabelKey::High => "High"@,
            LabelKey::Medium => "Medium"@,
            LabelKey::Low => "Low"@,
            LabelKey::Bullish => "Bullish"@,
            LabelKey::Bearish => "Bearish"@,
            LabelKey::Neutral => "Neutral"@,
            LabelKey::Date => "Date"@,
            LabelKey::Price => "Price"@,
            LabelKey::Change => "Change"@,
            LabelKey::Volume => "Volume"@,
            LabelKey::Confidence => "Confidence"@,
            LabelKey::Recommendation => "Recommendation"@,
        }
    } else {
        match k {
            LabelKey::MarketOverview => "市场概况"@,
            LabelKey::TrendAnalysis => "趋势分析"@,
            LabelKey::DecisionSignal => "决策信号"@,
            LabelKey::RiskWarnings => "风险提示"@,
            LabelKey::KeyIndicators => "关键指标"@,
            LabelKey::Buy => "买入"@,
            LabelKey::Sell => "卖出"@,
            LabelKey::Hold => "持有"@,
            LabelKey::Watch => "观望"@,
            LabelKey::High => "高"@,
            LabelKey::Medium => "中"@,
            LabelKey::Low => "低"@,
            LabelKey::Bullish => "看多"@,
            LabelKey::Bearish => "看空"@,
            LabelKey::Neutral => "中性"@,
            LabelKey::Date => "日期"@,
            LabelKey::Price => "价格"@,
            LabelKey::Change => "涨跌"@,
            LabelKey::Volume => "成交量"@,
            LabelKey::Confidence => "置信度"@,
            LabelKey::Recommendation => "建议"@,
        }
    }
}

/// Every label, in the order they are listed.
pub open spec fn all_label_keys() -> Seq<LabelKey> {
    seq![
        LabelKey::MarketOverview,
        LabelKey::TrendAnalysis,
        LabelKey::DecisionSignal,
        LabelKey::RiskWarnings,
        LabelKey::KeyIndicators,
        LabelKey::Buy,
        LabelKey::Sell,
        LabelKey::Hold,
        LabelKey::Watch,
        LabelKey::High,
        LabelKey::Medium,
        LabelKey::Low,
        LabelKey::Bullish,
        LabelKey::Bearish,
        LabelKey::Neutral,
        LabelKey::Date,
        LabelKey::Price,
        LabelKey::Change,
        LabelKey::Volume,
        LabelKey::Confidence,
        LabelKey::Recommendation,
    ]
}

impl LabelKey {
    pub fn name(self) -> (s: &'static str)
        ensures
            s@ == label_key_name(self),
    {
        match self {
            LabelKey::MarketOverview => "marketOverview",
            LabelKey::TrendAnalysis => "trendAnalysis",
            LabelKey::DecisionSignal => "decisionSignal",
            LabelKey::RiskWarnings => "riskWarnings",
            LabelKey::KeyIndicators => "keyIndicators",
            LabelKey::Buy => "buy",
            LabelKey::Sell => "sell",
            LabelKey::Hold => "hold",
            LabelKey::Watch => "watch",
            LabelKey::High => "high",
            LabelKey::Medium => "medium",
            LabelKey::Low => "low",
            LabelKey::Bullish => "bullish",
            LabelKey::Bearish => "bearish",
            LabelKey::Neutral => "neutral",
            LabelKey::Date => "date",
            LabelKey::Price => "price",
            LabelKey::Change => "change",
            LabelKey::Volume => "volume",
            LabelKey::Confidence => "confidence",
            LabelKey::Recommendation => "recommendation",
        }
    }

    pub fn text(self, english: bool) -> (s: &'static str)
        ensures
            s@ == spec_label(english, self),
    {
        if english {
            match self {
                LabelKey::MarketOverview => "Market Overview",
                LabelKey::TrendAnalysis => "Trend Analysis",
                LabelKey::DecisionSignal => "Decision Signal",
                LabelKey::RiskWarnings => "Risk Warnings",
                LabelKey::KeyIndicators => "Key Indicators",
                LabelKey::Buy => "Buy",
                LabelKey::Sell => "Sell",
                LabelKey::Hold => "Hold",
                LabelKey::Watch => "Watch",
                LabelKey::High => "High",
                LabelKey::Medium => "Medium",
                LabelKey::Low => "Low",
                LabelKey::Bullish => "Bullish",
                LabelKey::Bearish => "Bearish",
                LabelKey::Neutral => "Neutral",
                LabelKey::Date => "Date",
                LabelKey::Price => "Price",
                LabelKey::Change => "Change",
                LabelKey::Volume => "Volume",
                LabelKey::Confidence => "Confidence",
                LabelKey::Recommendation => "Recommendation",
            }
        } else {
            match self {
                LabelKey::MarketOverview => "市场概况",
                LabelKey::TrendAnalysis => "趋势分析",
                LabelKey::DecisionSignal => "决策信号",
                LabelKey::RiskWarnings => "风险提示",
                LabelKey::KeyIndicators => "关键指标",
                LabelKey::Buy => "买入",
                LabelKey::Sell => "卖出",
                LabelKey::Hold => "持有",
                LabelKey::Watch => "观望",
                LabelKey::High => "高",
                LabelKey::Medium => "中",
                LabelKey::Low => "低",
                LabelKey::Bullish => "看多",
                LabelKey::Bearish => "看空",
                LabelKey::Neutral => "中性",
                LabelKey::Date => "日期",
                LabelKey::Price => "价格",
                LabelKey::Change => "涨跌",
                LabelKey::Volume => "成交量",
                LabelKey::Confidence => "置信度",
                LabelKey::Recommendation => "建议",
            }
        }
    }
}

fn label_keys_in_order() -> (r: Vec<LabelKey>)
    ensures
        r@ == all_label_keys(),
{
    let mut r: Vec<LabelKey> = Vec::new();
    r.push(LabelKey::MarketOverview);
    r.push(LabelKey::TrendAnalysis);
    r.push(LabelKey::DecisionSignal);
    r.push(LabelKey::RiskWarnings);
    r.push(LabelKey::KeyIndicators);
    r.push(LabelKey::Buy);
    r.push(LabelKey::Sell);
    r.push(LabelKey::Hold);
    r.push(LabelKey::Watch);
    r.push(LabelKey::High);
    r.push(LabelKey::Medium);
    r.push(LabelKey::Low);
    r.push(LabelKey::Bullish);
    r.push(LabelKey::Bearish);
    r.push(LabelKey::Neutral);
    r.push(LabelKey::Date);
    r.push(LabelKey::Price);
    r.push(LabelKey::Change);
    r.push(LabelKey::Volume);
    r.push(LabelKey::Confidence);
    r.push(LabelKey::Recommendation);
    r
}

/// Labels are in English for the language `en` and in Chinese for any other.
pub open spec fn is_english(language: Seq<char>) -> bool {
    language == "en"@
}

/// The label of a decision type; other types are shown as they are.
pub open spec fn spec_translate_decision(decision: Seq<char>, english: bool) -> Seq<char> {
    if decision == "buy"@ {
        spec_label(english, LabelKey::Buy)
    } else if decision == "sell"@ {
        spec_label(english, LabelKey::Sell)
    } else if decision == "hold"@ {
        spec_label(english, LabelKey::Hold)
    } else if decision == "watch"@ {
        spec_label(english, LabelKey::Watch)
    } else {
        decision
    }
}

/// The label of a confidence level; other levels are shown as they are.
pub open spec fn spec_translate_confidence(level: Seq<char>, english: bool) -> Seq<char> {
    if level == "high"@ {
        spec_label(english, LabelKey::High)
    } else if level == "medium"@ {
        spec_label(english, LabelKey::Medium)
    } else if level == "low"@ {
        spec_label(english, LabelKey::Low)
    } else {
        level
    }
}

pub fn translate_decision(decision: &str, english: bool) -> (r: String)
    ensures
        r@ == spec_translate_decision(decision@, english),
{
    if str_eq(decision, "buy") {
        LabelKey::Buy.text(english).to_owned()
    } else if str_eq(decision, "sell") {
        LabelKey::Sell.text(english).to_owned()
    } else if str_eq(decision, "hold") {
        LabelKey::Hold.text(english).to_owned()
    } else if str_eq(decision, "watch") {
        LabelKey::Watch.text(english).to_owned()
    } else {
        decision.to_owned()
    }
}

pub fn translate_confidence(level: &str, english: bool) -> (r: String)
    ensures
        r@ == spec_translate_confidence(level@, english),
{
    if str_eq(level, "high") {
        LabelKey::High.text(english).to_owned()
    } else if str_eq(level, "medium") {
        LabelKey::Medium.text(english).to_owned()
    } else if str_eq(level, "low") {
        LabelKey::Low.text(english).to_owned()
    } else {
        level.to_owned()
    }
}

/// The fields of a stored analysis that a report shows.
pub struct AnalysisRow {
    pub stock_code: String,
    pub stock_name: String,
    pub market_context: String,
    pub analysis_summary: String,
    pub decision_type: String,
    pub confidence_level: String,
    pub risk_warning: String,
    pub report_json: String,
}

/// `s`, or `-` when it is empty.
pub open spec fn or_dash(s: Seq<char>) -> Seq<char> {
    or_default(s, "-"@)
}

fn push_or_dash(out: &mut Vec<char>, s: &str)
    ensures
        final(out)@ == old(out)@ + or_dash(s@),
{
    if s.is_empty() {
        push_str(out, "-");
    } else {
        push_str(out, s);
    }
}

/// The heading line every Markdown report starts with.
pub open spec fn report_title(row: AnalysisRow, english: bool) -> Seq<char> {
    "# "@ + row.stock_code@ + " - "@ + row.stock_name@ + " "@ + spec_translate_decision(row.decision_type@, english)
}

/// The decision line: `**<decision>** | <Confidence>: <level>`.
pub open spec fn decision_line(row: AnalysisRow, english: bool) -> Seq<char> {
    "**"@ + spec_translate_decision(row.decision_type@, english) + "** | "@ + spec_label(english, LabelKey::Confidence)
        + ": "@ + spec_translate_confidence(row.confidence_level@, english)
}

/// A `## ` section: heading, blank line, body.
pub open spec fn section(english: bool, k: LabelKey, body: Seq<char>) -> Seq<char> {
    "\n\n## "@ + spec_label(english, k) + "\n\n"@ + body
}

/// The full report: market overview, trend, decision, risks and key indicators.
pub open spec fn spec_full_report(row: AnalysisRow, english: bool) -> Seq<char> {
    report_title(row, english)
        + section(english, LabelKey::MarketOverview, or_dash(row.market_context@))
        + section(english, LabelKey::TrendAnalysis, or_dash(row.analysis_summary@))
        + section(english, LabelKey::DecisionSignal, decision_line(row, english))
        + section(english, LabelKey::RiskWarnings, or_dash(row.risk_warning@))
        + section(english, LabelKey::KeyIndicators, or_dash(row.report_json@))
        + "\n"@
}

/// The brief report: market overview, decision and risks.
pub open spec fn spec_brief_report(row: AnalysisRow, english: bool) -> Seq<char> {
    report_title(row, english)
        + section(english, LabelKey::MarketOverview, or_dash(row.market_context@))
        + section(english, LabelKey::DecisionSignal, decision_line(row, english))
        + section(english, LabelKey::RiskWarnings, or_dash(row.risk_warning@))
        + "\n"@
}

/// The coloured mark a WeChat report puts before the decision.
pub open spec fn decision_mark(decision: Seq<char>) -> Seq<char> {
    if decision == "buy"@ {
        "\u{1f7e2}"@
    } else if decision == "sell"@ {
        "\u{1f534}"@
    } else if decision == "hold"@ {
        "\u{1f7e1}"@
    } else {
        "\u{26aa}"@
    }
}

/// The WeChat report: short, plain text.
pub open spec fn spec_wechat_report(row: AnalysisRow, english: bool) -> Seq<char> {
    let dl = spec_translate_decision(row.decision_type@, english);
    row.stock_code@ + " "@ + row.stock_name@ + " | "@ + decision_mark(row.decision_type@) + " "@ + dl
        + "\n\n"@ + spec_label(english, LabelKey::MarketOverview) + "\n"@ + or_dash(row.market_context@)
        + "\n\n"@ + spec_label(english, LabelKey::DecisionSignal) + " "@ + dl + " | "@
        + spec_label(english, LabelKey::Confidence) + ": "@ + spec_translate_confidence(row.confidence_level@, english)
        + "\n\n"@ + spec_label(english, LabelKey::RiskWarnings) + "\n"@ + or_dash(row.risk_warning@)
}

fn push_title(out: &mut Vec<char>, row: &AnalysisRow, english: bool)
    ensures
        final(out)@ == old(out)@ + report_title(*row, english),
{
    push_str(out, "# ");
    push_str(out, row.stock_code.as_str());
    push_str(out, " - ");
    push_str(out, row.stock_name.as_str());
    push_str(out, " ");
    let dl = translate_decision(row.decision_type.as_str(), english);
    push_str(out, dl.as_str());
}

fn push_section_heading(out: &mut Vec<char>, english: bool, k: LabelKey)
    ensures
        final(out)@ == old(out)@ + "\n\n## "@ + spec_label(english, k) + "\n\n"@,
{
    push_str(out, "\n\n## ");
    push_str(out, k.text(english));
    push_str(out, "\n\n");
}

fn push_section(out: &mut Vec<char>, english: bool, k: LabelKey, body: &str)
    ensures
        final(out)@ == old(out)@ + section(english, k, or_dash(body@)),
{
    push_section_heading(out, english, k);
    push_or_dash(out, body);
    assert(final(out)@ =~= old(out)@ + section(english, k, or_dash(body@)));
}

fn push_decision_section(out: &mut Vec<char>, row: &AnalysisRow, english: bool)
    ensures
        final(out)@ == old(out)@ + section(english, LabelKey::DecisionSignal, decision_line(*row, english)),
{
    push_section_heading(out, english, LabelKey::DecisionSignal);
    push_decision_line(out, row, english);
    assert(final(out)@ =~= old(out)@ + section(english, LabelKey::DecisionSignal, decision_line(*row, english)));
}

fn push_decision_line(out: &mut Vec<char>, row: &AnalysisRow, english: bool)
    ensures
        final(out)@ == old(out)@ + decision_line(*row, english),
{
    push_str(out, "**");
    let dl = translate_decision(row.decision_type.as_str(), english);
    push_str(out, dl.as_str());
    push_str(out, "** | ");
    push_str(out, LabelKey::Confidence.text(english));
    push_str(out, ": ");
    let cl = translate_confidence(row.confidence_level.as_str(), english);
    push_str(out, cl.as_str());
}

/// A rendered report.
pub struct RenderedReport {
    pub markdown: String,
    pub html_preview: String,
}

impl ReportService {
    /// A report needs a stock code or a positive analysis id
    /// (`请提供code或analysis_id`).
    pub fn check_report_request(&self, code: &str, analysis_id: i64) -> (r: Result<(), ServiceError>)
        ensures
            code@.len() == 0 && analysis_id <= 0 ==> (r matches Err(ServiceError::Validation(m)) && m@ == "请提供code或analysis_id"@),
            !(code@.len() == 0 && analysis_id <= 0) ==> r is Ok,
    {
        if code.is_empty() && analysis_id <= 0 {
            Err(ServiceError::Validation("请提供code或analysis_id".to_owned()))
        } else {
            Ok(())
        }
    }

    /// The full report of `row` in `language`, with its HTML preview.
    pub fn render(&self, row: &AnalysisRow, language: &str) -> (r: RenderedReport)
        ensures
            r.markdown@ == spec_full_report(*row, is_english(language@)),
            r.html_preview@ == spec_html_preview(r.markdown@),
    {
        let english = str_eq(language, "en");
        let mut out: Vec<char> = Vec::new();
        push_title(&mut out, row, english);
        assert(out@ =~= report_title(*row, english));
        push_section(&mut out, english, LabelKey::MarketOverview, row.market_context.as_str());
        push_section(&mut out, english, LabelKey::TrendAnalysis, row.analysis_summary.as_str());
        push_decision_section(&mut out, row, english);
        push_section(&mut out, english, LabelKey::RiskWarnings, row.risk_warning.as_str());
        push_section(&mut out, english, LabelKey::KeyIndicators, row.report_json.as_str());
        push_str(&mut out, "\n");
        let markdown = from_chars(&out);
        let html_preview = markdown_to_html_preview(markdown.as_str());
        RenderedReport { markdown, html_preview }
    }

    /// The brief report of `row` in `language`, with its HTML preview.
    pub fn render_brief(&self, row: &AnalysisRow, language: &str) -> (r: RenderedReport)
        ensures
            r.markdown@ == spec_brief_report(*row, is_english(language@)),
            r.html_preview@ == spec_html_preview(r.markdown@),
    {
        let english = str_eq(language, "en");
        let mut out: Vec<char> = Vec::new();
        push_title(&mut out, row, english);
        assert(out@ =~= report_title(*row, english));
        push_section(&mut out, english, LabelKey::MarketOverview, row.market_context.as_str());
        push_decision_section(&mut out, row, english);
        push_section(&mut out, english, LabelKey::RiskWarnings, row.risk_warning.as_str());
        push_str(&mut out, "\n");
        let markdown = from_chars(&out);
        let html_preview = markdown_to_html_preview(markdown.as_str());
        RenderedReport { markdown, html_preview }
    }

    /// The WeChat report of `row` in `language`.
    pub fn render_wechat(&self, row: &AnalysisRow, language: &str) -> (r: String)
        ensures
            r@ == spec_wechat_report(*row, is_english(language@)),
    {
        let english = str_eq(language, "en");
        let dt = row.decision_type.as_str();
        let mark = if str_eq(dt, "buy") {
            "\u{1f7e2}"
        } else if str_eq(dt, "sell") {
            "\u{1f534}"
        } else if str_eq(dt, "hold") {
            "\u{1f7e1}"
        } else {
            "\u{26aa}"
        };
        let dl = translate_decision(dt, english);
        let cl = translate_confidence(row.confidence_level.as_str(), english);
        let mut out: Vec<char> = Vec::new();
        push_str(&mut out, row.stock_code.as_str());
        push_str(&mut out, " ");
        push_str(&mut out, row.stock_name.as_str());
        push_str(&mut out, " | ");
        push_str(&mut out, mark);
        push_str(&mut out, " ");
        push_str(&mut out, dl.as_str());
        push_str(&mut out, "\n\n");
        push_str(&mut out, LabelKey::MarketOverview.text(english));
        push_str(&mut out, "\n");
        push_or_dash(&mut out, row.market_context.as_str());
        push_str(&mut out, "\n\n");
        push_str(&mut out, LabelKey::DecisionSignal.text(english));
        push_str(&mut out, " ");
        push_str(&mut out, dl.as_str());
        push_str(&mut out, " | ");
        push_str(&mut out, LabelKey::Confidence.text(english));
        push_str(&mut out, ": ");
        push_str(&mut out, cl.as_str());
        push_str(&mut out, "\n\n");
        push_str(&mut out, LabelKey::RiskWarnings.text(english));
        push_str(&mut out, "\n");
        push_or_dash(&mut out, row.risk_warning.as_str());
        assert(out@ =~= spec_wechat_report(*row, english));
        from_chars(&out)
    }

    /// Every label of `language` with the key it is listed under.
    pub fn labels(&self, language: &str) -> (r: Vec<(&'static str, &'static str)>)
        ensures
            r@.len() == all_label_keys().len(),
            forall|i: int| 0 <= i < r@.len() ==> (#[trigger] r@[i]).0@ == label_key_name(all_label_keys()[i])
                && r@[i].1@ == spec_label(is_english(language@), all_label_keys()[i]),
    {
        let english = str_eq(language, "en");
        let keys = label_keys_in_order();
        let mut r: Vec<(&'static str, &'static str)> = Vec::new();
        let mut i: usize = 0;
        while i < keys.len()
            invariant
                keys@ == all_label_keys(),
                english == is_english(language@),
                i <= keys@.len(),
                r@.len() == i,
                forall|j: int| 0 <= j < i ==> (#[trigger] r@[j]).0@ == label_key_name(all_label_keys()[j])
                    && r@[j].1@ == spec_label(english, all_label_keys()[j]),
            decreases keys@.len() - i,
        {
            let k = keys[i];
            r.push((k.name(), k.text(english)));
            i = i + 1;
        }
        r
    }

    /// How many earlier analyses a comparison shows: the request's count
    /// when it is positive, the configured one otherwise.
    pub fn compare_count(&self, requested: u32, configured: u32) -> (n: u32)
        ensures
            n == (if requested > 0 { requested } else { configured }),
    {
        if requested > 0 { requested } else { configured }
    }
}

/// One analysis in a history comparison, with its labels.
pub struct ComparisonRow {
    pub create_time: String,
    pub decision_label: String,
    pub confidence_label: String,
}

/// A table row `| <date> | <decision> | <confidence> |`, `-` for empty cells.
pub open spec fn table_row(a: Seq<char>, b: Seq<char>, c: Seq<char>) -> Seq<char> {
    "| "@ + a + " | "@ + b + " | "@ + c + " |"@
}

pub open spec fn comparison_lines(rows: Seq<ComparisonRow>) -> Seq<Seq<char>> {
    rows.map_values(|c: ComparisonRow| table_row(or_dash(c.create_time@), or_dash(c.decision_label@), or_dash(c.confidence_label@)))
}

/// The comparison summary: `-` when there is nothing to compare, else a
/// Markdown table with a header row, a rule and one row per analysis.
pub open spec fn spec_compare_summary(rows: Seq<ComparisonRow>, english: bool) -> Seq<char> {
    if rows.len() == 0 {
        "-"@
    } else {
        join(
            seq![
                table_row(spec_label(english, LabelKey::Date), spec_label(english, LabelKey::DecisionSignal), spec_label(english, LabelKey::Confidence)),
                "| --- | --- | --- |"@,
            ] + comparison_lines(rows),
            "\n"@,
        )
    }
}

fn table_row_string(a: &str, b: &str, c: &str) -> (r: String)
    ensures
        r@ == table_row(or_dash(a@), or_dash(b@), or_dash(c@)),
{
    let mut out: Vec<char> = Vec::new();
    push_str(&mut out, "| ");
    push_or_dash(&mut out, a);
    push_str(&mut out, " | ");
    push_or_dash(&mut out, b);
    push_str(&mut out, " | ");
    push_or_dash(&mut out, c);
    push_str(&mut out, " |");
    assert(out@ =~= table_row(or_dash(a@), or_dash(b@), or_dash(c@)));
    from_chars(&out)
}

impl ReportService {
    /// The Markdown table that compares the analyses `rows`.
    pub fn compare_summary(&self, rows: &Vec<ComparisonRow>, language: &str) -> (r: String)
        ensures
            r@ == spec_compare_summary(rows@, is_english(language@)),
    {
        if rows.len() == 0 {
            return "-".to_owned();
        }
        let english = str_eq(language, "en");
        let mut lines: Vec<String> = Vec::new();
        lines.push(table_row_string(LabelKey::Date.text(english), LabelKey::DecisionSignal.text(english), LabelKey::Confidence.text(english)));
        lines.push("| --- | --- | --- |".to_owned());
        let mut i: usize = 0;
        while i < rows.len()
            invariant
                i <= rows@.len(),
                english == is_english(language@),
                views(lines@) == seq![
                    table_row(or_dash(spec_label(english, LabelKey::Date)), or_dash(spec_label(english, LabelKey::DecisionSignal)), or_dash(spec_label(english, LabelKey::Confidence))),
                    "| --- | --- | --- |"@,
                ] + comparison_lines(rows@.take(i as int)),
            decreases rows@.len() - i,
        {
            let c = &rows[i];
            let line = table_row_string(c.create_time.as_str(), c.decision_label.as_str(), c.confidence_label.as_str());
            let ghost before = views(lines@);
            lines.push(line);
            assert(views(lines@) == before.push(line@));
            assert(rows@.take(i + 1) == rows@.take(i as int).push(rows@[i as int]));
            assert(comparison_lines(rows@.take(i + 1)) == comparison_lines(rows@.take(i as int)).push(line@));
            i = i + 1;
        }
        assert(rows@.take(rows@.len() as int) == rows@);
        proof {
            lemma_labels_not_empty(english);
        }
        crate::strings::join_lines(&lines, "\n")
    }
}

/// No label is empty, so `-` never stands in for one.
proof fn lemma_labels_not_empty(english: bool)
    ensures
        or_dash(spec_label(english, LabelKey::Date)) == spec_label(english, LabelKey::Date),
        or_dash(spec_label(english, LabelKey::DecisionSignal)) == spec_label(english, LabelKey::DecisionSignal),
        or_dash(spec_label(english, LabelKey::Confidence)) == spec_label(english, LabelKey::Confidence),
{
    reveal_strlit("Date");
    reveal_strlit("日期");
    reveal_strlit("Decision Signal");
    reveal_strlit("决策信号");
    reveal_strlit("Confidence");
    reveal_strlit("置信度");
}

} // verus!
