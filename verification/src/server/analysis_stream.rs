//! The messages of a streamed analysis: what the client is told at each
//! step, the text gathered from the model, and the token count recorded.
use vstd::prelude::*;
use crate::server::stream::{estimate_tokens, spec_estimate_tokens};
use crate::text::{from_chars, push_str, to_chars};

verus! {

/// A server-sent message: `{"type": kind, "content": content}`.
pub struct SseMessage {
    pub kind: &'static str,
    pub content: String,
}

/// Why a streamed analysis stops early.
#[derive(Clone, Copy, PartialEq, Eq, Structural, Debug)]
pub enum StreamFailure {
    /// No stock code was given.
    NoCode,
    /// No model key is configured.
    NoApiKey,
    /// The daily bars could not be fetched.
    Kline,
    /// The real-time quote could not be fetched.
    Quote,
    /// The analysis pipeline could not be set up.
    Pipeline,
    /// The model provider is unknown.
    Provider,
    /// The model request could not be built.
    Request,
    /// The model call failed.
    Llm,
}

/// The text of a failure, with the underlying error where there is one.
pub open spec fn failure_text(f: StreamFailure, detail: Seq<char>) -> Seq<char> {
    match f {
        StreamFailure::NoCode => "请提供股票代码"@,
        StreamFailure::NoApiKey => "API Key 未配置"@,
        StreamFailure::Kline => "获取K线失败: "@ + detail,
        StreamFailure::Quote => "获取实时行情失败: "@ + detail,
        StreamFailure::Pipeline => "Pipeline初始化失败: "@ + detail,
        StreamFailure::Provider => "Provider错误"@,
        StreamFailure::Request => "构建请求失败: "@ + detail,
        StreamFailure::Llm => "LLM调用失败: "@ + detail,
    }
}

fn prefixed(prefix: &str, detail: &str) -> (r: String)
    ensures
        r@ == prefix@ + detail@,
{
    let mut out: Vec<char> = Vec::new();
    push_str(&mut out, prefix);
    push_str(&mut out, detail);
    from_chars(&out)
}

/// The `error` message that ends a stream on failure `f`.
pub fn failure_message(f: StreamFailure, detail: &str) -> (m: SseMessage)
    ensures
        m.kind@ == "error"@,
        m.content@ == failure_text(f, detail@),
{
    let content = match f {
        StreamFailure::NoCode => "请提供股票代码".to_owned(),
        StreamFailure::NoApiKey => "API Key 未配置".to_owned(),
        StreamFailure::Kline => prefixed("获取K线失败: ", detail),
        StreamFailure::Quote => prefixed("获取实时行情失败: ", detail),
        StreamFailure::Pipeline => prefixed("Pipeline初始化失败: ", detail),
        StreamFailure::Provider => "Provider错误".to_owned(),
        StreamFailure::Request => prefixed("构建请求失败: ", detail),
        StreamFailure::Llm => prefixed("LLM调用失败: ", detail),
    };
    SseMessage { kind: "error", content }
}

/// The progress steps a stream reports.
#[derive(Clone, Copy, PartialEq, Eq, Structural, Debug)]
pub enum StreamStage {
    /// Fetching market data.
    Fetching,
    /// Waiting on the model.
    Analysing,
}

/// The `status` message of a stage.
pub fn status_message(stage: StreamStage) -> (m: SseMessage)
    ensures
        m.kind@ == "status"@,
        m.content@ == (match stage {
            StreamStage::Fetching => "正在获取行情数据..."@,
            StreamStage::Analysing => "正在进行AI分析..."@,
        }),
{
    let content = match stage {
        StreamStage::Fetching => "正在获取行情数据...".to_owned(),
        StreamStage::Analysing => "正在进行AI分析...".to_owned(),
    };
    SseMessage { kind: "status", content }
}

/// The model's reply as it streams in.
pub struct StreamSession {
    pub content: String,
}

impl StreamSession {
    pub fn new() -> (s: Self)
        ensures
            s.content@ == Seq::<char>::empty(),
    {
        StreamSession { content: String::new() }
    }

    /// A piece of the reply: a non-empty chunk is kept and passed on as a
    /// `text` message; the last one is followed by a `complete` message
    /// with the whole reply.
    pub fn on_chunk(&mut self, chunk: &str, is_over: bool) -> (msgs: Vec<SseMessage>)
        ensures
            final(self).content@ == old(self).content@ + chunk@,
            msgs@.len() == (if chunk@.len() > 0 { 1int } else { 0 }) + (if is_over { 1int } else { 0 }),
            chunk@.len() > 0 ==> msgs@[0].kind@ == "text"@ && msgs@[0].content@ == chunk@,
            is_over ==> msgs@.last().kind@ == "complete"@ && msgs@.last().content@ == final(self).content@,
    {
        let mut msgs: Vec<SseMessage> = Vec::new();
        if !chunk.is_empty() {
            let mut v = to_chars(self.content.as_str());
            push_str(&mut v, chunk);
            self.content = from_chars(&v);
            msgs.push(SseMessage { kind: "text", content: chunk.to_owned() });
        } else {
            assert(old(self).content@ + chunk@ == old(self).content@);
        }
        if is_over {
            let whole = from_chars(&to_chars(self.content.as_str()));
            msgs.push(SseMessage { kind: "complete", content: whole });
        }
        msgs
    }

    /// The prompt and completion token counts recorded: those the model
    /// reported, else the estimate of the reply for both.
    pub fn token_usage(&self, reported: Option<(i32, i32)>) -> (r: (i32, i32))
        ensures
            match reported {
                Some(p) => r == p,
                None => r.0 == spec_estimate_tokens(self.content@) && r.1 == spec_estimate_tokens(self.content@),
            },
    {
        match reported {
            Some(p) => p,
            None => {
                let est = estimate_tokens(self.content.as_str());
                (est, est)
            },
        }
    }
}

/// A message as plain text: its kind and its content.
pub open spec fn msg_view(m: SseMessage) -> (Seq<char>, Seq<char>) {
    (m.kind@, m.content@)
}

/// The views of `msgs`.
pub open spec fn msg_views(msgs: Seq<SseMessage>) -> Seq<(Seq<char>, Seq<char>)> {
    msgs.map_values(|m: SseMessage| msg_view(m))
}

/// Where a streamed analysis stands.
#[derive(Clone, Copy, PartialEq, Eq, Structural, Debug)]
pub enum StreamPhase {
    /// Nothing was sent yet.
    Start,
    /// Market data is being fetched.
    Fetching,
    /// The model request is being prepared.
    Analysing,
    /// The model's reply is streaming in.
    Streaming,
    /// The stream was closed with `done`.
    Finished,
}

/// A streamed analysis: its phase and the reply gathered so far.
pub struct StreamState {
    pub phase: StreamPhase,
    pub content: String,
}

/// What happens next in a streamed analysis; the outside work (fetching,
/// the model call, parsing the report) is done by the caller, which hands
/// its outcome back as an event.
pub enum StreamEvent {
    /// The request arrived: whether it names a stock code and whether a
    /// model key is configured.
    Begin { code_given: bool, key_given: bool },
    /// The daily bars and the quote were fetched.
    DataReady,
    /// The pipeline, the provider and the model request are ready.
    ModelReady,
    /// The model sent a piece of its reply; `is_over` on the last one.
    Chunk { text: String, is_over: bool },
    /// The model call ended well: `report` is the report message's JSON
    /// where the reply parsed as a report, `None` where it did not.
    Replied { report: Option<String> },
    /// A step failed.
    Failed { failure: StreamFailure, detail: String },
}

pub open spec fn done_msg() -> (Seq<char>, Seq<char>) {
    ("done"@, "{}"@)
}

pub open spec fn error_msg(f: StreamFailure, detail: Seq<char>) -> (Seq<char>, Seq<char>) {
    ("error"@, failure_text(f, detail))
}

pub open spec fn fetching_msg() -> (Seq<char>, Seq<char>) {
    ("status"@, "正在获取行情数据..."@)
}

pub open spec fn analysing_msg() -> (Seq<char>, Seq<char>) {
    ("status"@, "正在进行AI分析..."@)
}

/// The message that reports the reply: the report where it parsed, else
/// the raw reply.
pub open spec fn reply_msg(report: Option<String>, content: Seq<char>) -> (Seq<char>, Seq<char>) {
    match report {
        Some(r) => ("report"@, r@),
        None => ("raw"@, content),
    }
}

/// The phase after `event` in phase `phase`. A failure in any phase before
/// the end finishes the stream; an event that does not belong to the phase
/// changes nothing.
pub open spec fn next_phase(phase: StreamPhase, event: StreamEvent) -> StreamPhase {
    match (phase, event) {
        (StreamPhase::Finished, _) => StreamPhase::Finished,
        (_, StreamEvent::Failed { .. }) => StreamPhase::Finished,
        (StreamPhase::Start, StreamEvent::Begin { code_given, key_given }) =>
            if code_given && key_given { StreamPhase::Fetching } else { StreamPhase::Finished },
        (StreamPhase::Fetching, StreamEvent::DataReady) => StreamPhase::Analysing,
        (StreamPhase::Analysing, StreamEvent::ModelReady) => StreamPhase::Streaming,
        (StreamPhase::Streaming, StreamEvent::Replied { .. }) => StreamPhase::Finished,
        _ => phase,
    }
}

/// The reply gathered after `event`: a chunk while streaming adds its text.
pub open spec fn next_content(phase: StreamPhase, content: Seq<char>, event: StreamEvent) -> Seq<char> {
    match (phase, event) {
        (StreamPhase::Streaming, StreamEvent::Chunk { text, .. }) => content + text@,
        _ => content,
    }
}

/// The messages sent on `event` in phase `phase` with `content` gathered:
/// - nothing once finished;
/// - on a failure, its `error` message and `done`;
/// - at the start, the `error` for a missing code or key and `done`, else
///   the fetching status;
/// - when the data is in, the analysing status;
/// - on a chunk, a `text` message for a non-empty one and, on the last, a
///   `complete` message with the whole reply;
/// - when the model call ended, the report (or the raw reply) and `done`.
pub open spec fn step_out(phase: StreamPhase, content: Seq<char>, event: StreamEvent) -> Seq<(Seq<char>, Seq<char>)> {
    match (phase, event) {
        (StreamPhase::Finished, _) => Seq::empty(),
        (_, StreamEvent::Failed { failure, detail }) => seq![error_msg(failure, detail@), done_msg()],
        (StreamPhase::Start, StreamEvent::Begin { code_given, key_given }) =>
            if !code_given {
                seq![error_msg(StreamFailure::NoCode, Seq::empty()), done_msg()]
            } else if !key_given {
                seq![error_msg(StreamFailure::NoApiKey, Seq::empty()), done_msg()]
            } else {
                seq![fetching_msg()]
            },
        (StreamPhase::Fetching, StreamEvent::DataReady) => seq![analysing_msg()],
        (StreamPhase::Streaming, StreamEvent::Chunk { text, is_over }) =>
            (if text@.len() > 0 { seq![("text"@, text@)] } else { Seq::empty() })
                + (if is_over { seq![("complete"@, content + text@)] } else { Seq::empty() }),
        (StreamPhase::Streaming, StreamEvent::Replied { report }) => seq![reply_msg(report, content), done_msg()],
        _ => Seq::empty(),
    }
}

fn done_message() -> (m: SseMessage)
    ensures
        msg_view(m) == done_msg(),
{
    SseMessage { kind: "done", content: "{}".to_owned() }
}

/// One step of a streamed analysis: the next state and the messages to send
/// (see `next_phase`, `next_content` and `step_out`).
pub fn stream_step(state: &StreamState, event: StreamEvent) -> (r: (StreamState, Vec<SseMessage>))
    ensures
        r.0.phase == next_phase(state.phase, event),
        r.0.content@ == next_content(state.phase, state.content@, event),
        msg_views(r.1@) == step_out(state.phase, state.content@, event),
{
    let ghost ev = event;
    let phase = state.phase;
    let content = state.content.clone();
    let mut out: Vec<SseMessage> = Vec::new();
    if phase == StreamPhase::Finished {
        assert(msg_views(out@) =~= step_out(state.phase, state.content@, ev));
        return (StreamState { phase, content }, out);
    }
    match event {
        StreamEvent::Failed { failure, detail } => {
            out.push(failure_message(failure, detail.as_str()));
            out.push(done_message());
            assert(msg_views(out@) =~= step_out(state.phase, state.content@, ev));
            (StreamState { phase: StreamPhase::Finished, content }, out)
        },
        StreamEvent::Begin { code_given, key_given } => {
            if phase != StreamPhase::Start {
                assert(msg_views(out@) =~= step_out(state.phase, state.content@, ev));
                return (StreamState { phase, content }, out);
            }
            if !code_given {
                out.push(failure_message(StreamFailure::NoCode, ""));
                out.push(done_message());
                proof { reveal_strlit(""); }
                assert(msg_views(out@) =~= step_out(state.phase, state.content@, ev));
                (StreamState { phase: StreamPhase::Finished, content }, out)
            } else if !key_given {
                out.push(failure_message(StreamFailure::NoApiKey, ""));
                out.push(done_message());
                proof { reveal_strlit(""); }
                assert(msg_views(out@) =~= step_out(state.phase, state.content@, ev));
                (StreamState { phase: StreamPhase::Finished, content }, out)
            } else {
                out.push(status_message(StreamStage::Fetching));
                assert(msg_views(out@) =~= step_out(state.phase, state.content@, ev));
                (StreamState { phase: StreamPhase::Fetching, content }, out)
            }
        },
        StreamEvent::DataReady => {
            if phase == StreamPhase::Fetching {
                out.push(status_message(StreamStage::Analysing));
                assert(msg_views(out@) =~= step_out(state.phase, state.content@, ev));
                (StreamState { phase: StreamPhase::Analysing, content }, out)
            } else {
                assert(msg_views(out@) =~= step_out(state.phase, state.content@, ev));
                (StreamState { phase, content }, out)
            }
        },
        StreamEvent::ModelReady => {
            let next = if phase == StreamPhase::Analysing { StreamPhase::Streaming } else { phase };
            assert(msg_views(out@) =~= step_out(state.phase, state.content@, ev));
            (StreamState { phase: next, content }, out)
        },
        StreamEvent::Chunk { text, is_over } => {
            if phase != StreamPhase::Streaming {
                assert(msg_views(out@) =~= step_out(state.phase, state.content@, ev));
                return (StreamState { phase, content }, out);
            }
            let mut session = StreamSession { content };
            let msgs = session.on_chunk(text.as_str(), is_over);
            assert(msg_views(msgs@) =~= step_out(state.phase, state.content@, ev));
            (StreamState { phase, content: session.content }, msgs)
        },
        StreamEvent::Replied { report } => {
            if phase != StreamPhase::Streaming {
                assert(msg_views(out@) =~= step_out(state.phase, state.content@, ev));
                return (StreamState { phase, content }, out);
            }
            let m = match report {
                Some(r) => SseMessage { kind: "report", content: r },
                None => SseMessage { kind: "raw", content: content.clone() },
            };
            out.push(m);
            out.push(done_message());
            assert(msg_views(out@) =~= step_out(state.phase, state.content@, ev));
            (StreamState { phase: StreamPhase::Finished, content }, out)
        },
    }
}

/// The state reached and the messages sent on `events`, one after another,
/// from phase `phase` with `content` gathered.
pub open spec fn run_stream(phase: StreamPhase, content: Seq<char>, events: Seq<StreamEvent>) -> (
    StreamPhase,
    Seq<char>,
    Seq<(Seq<char>, Seq<char>)>,
)
    decreases events.len(),
{
    if events.len() == 0 {
        (phase, content, Seq::empty())
    } else {
        let e = events[0];
        let rest = run_stream(next_phase(phase, e), next_content(phase, content, e), events.drop_first());
        (rest.0, rest.1, step_out(phase, content, e) + rest.2)
    }
}

/// The pieces of a reply as the model streams them: at least one chunk,
/// and only the last marked as the end.
pub open spec fn reply_chunks(chunks: Seq<StreamEvent>) -> bool {
    &&& chunks.len() > 0
    &&& forall|k: int| 0 <= k < chunks.len() ==> (#[trigger] chunks[k] matches StreamEvent::Chunk { is_over, .. }
        && is_over == (k == chunks.len() - 1))
}

/// The text of a chunk.
pub open spec fn chunk_text(e: StreamEvent) -> Seq<char> {
    match e {
        StreamEvent::Chunk { text, .. } => text@,
        _ => Seq::empty(),
    }
}

/// The whole reply that `chunks` carry.
pub open spec fn chunk_concat(chunks: Seq<StreamEvent>) -> Seq<char>
    decreases chunks.len(),
{
    if chunks.len() == 0 {
        Seq::empty()
    } else {
        chunk_text(chunks[0]) + chunk_concat(chunks.drop_first())
    }
}

/// The `text` messages of `chunks`: one per non-empty chunk, in order.
pub open spec fn chunk_texts(chunks: Seq<StreamEvent>) -> Seq<(Seq<char>, Seq<char>)>
    decreases chunks.len(),
{
    if chunks.len() == 0 {
        Seq::empty()
    } else {
        (if chunk_text(chunks[0]).len() > 0 { seq![("text"@, chunk_text(chunks[0]))] } else { Seq::empty() })
            + chunk_texts(chunks.drop_first())
    }
}

proof fn lemma_run_split(phase: StreamPhase, content: Seq<char>, a: Seq<StreamEvent>, b: Seq<StreamEvent>)
    ensures
        run_stream(phase, content, a + b) == ({
            let ra = run_stream(phase, content, a);
            let rb = run_stream(ra.0, ra.1, b);
            (rb.0, rb.1, ra.2 + rb.2)
        }),
    decreases a.len(),
{
    if a.len() == 0 {
        assert(a + b =~= b);
        let rb = run_stream(phase, content, b);
        assert(Seq::<(Seq<char>, Seq<char>)>::empty() + rb.2 =~= rb.2);
    } else {
        let e = a[0];
        assert((a + b).drop_first() =~= a.drop_first() + b);
        assert((a + b)[0] == e);
        lemma_run_split(next_phase(phase, e), next_content(phase, content, e), a.drop_first(), b);
        let ra1 = run_stream(next_phase(phase, e), next_content(phase, content, e), a.drop_first());
        let rb = run_stream(ra1.0, ra1.1, b);
        assert(step_out(phase, content, e) + (ra1.2 + rb.2) =~= (step_out(phase, content, e) + ra1.2) + rb.2);
    }
}

proof fn lemma_chunks(content: Seq<char>, chunks: Seq<StreamEvent>)
    requires
        reply_chunks(chunks),
    ensures
        run_stream(StreamPhase::Streaming, content, chunks) == (
            StreamPhase::Streaming,
            content + chunk_concat(chunks),
            chunk_texts(chunks) + seq![("complete"@, content + chunk_concat(chunks))],
        ),
    decreases chunks.len(),
{
    let e = chunks[0];
    let t = chunk_text(e);
    assert(e matches StreamEvent::Chunk { .. });
    let rest = chunks.drop_first();
    let first_texts: Seq<(Seq<char>, Seq<char>)> = if t.len() > 0 { seq![("text"@, t)] } else { Seq::empty() };
    if chunks.len() == 1 {
        assert(rest =~= Seq::<StreamEvent>::empty());
        assert(run_stream(StreamPhase::Streaming, content + t, rest)
            == (StreamPhase::Streaming, content + t, Seq::<(Seq<char>, Seq<char>)>::empty()));
        assert(chunk_concat(rest) =~= Seq::<char>::empty());
        assert(chunk_texts(rest) =~= Seq::<(Seq<char>, Seq<char>)>::empty());
        assert(chunk_texts(chunks) == first_texts + chunk_texts(rest));
        assert(chunk_concat(chunks) == t + chunk_concat(rest));
        assert(t + Seq::<char>::empty() =~= t);
        assert(first_texts + Seq::<(Seq<char>, Seq<char>)>::empty() =~= first_texts);
        assert(step_out(StreamPhase::Streaming, content, e) =~= first_texts + seq![("complete"@, content + t)]);
        assert(step_out(StreamPhase::Streaming, content, e) + Seq::<(Seq<char>, Seq<char>)>::empty()
            =~= step_out(StreamPhase::Streaming, content, e));
    } else {
        assert forall|k: int| 0 <= k < rest.len() implies (#[trigger] rest[k] matches StreamEvent::Chunk { is_over, .. }
            && is_over == (k == rest.len() - 1)) by {
            assert(rest[k] == chunks[k + 1]);
        }
        lemma_chunks(content + t, rest);
        assert(chunk_texts(chunks) == first_texts + chunk_texts(rest));
        assert(chunk_concat(chunks) == t + chunk_concat(rest));
        assert(step_out(StreamPhase::Streaming, content, e) =~= first_texts);
        assert(content + t + chunk_concat(rest) =~= content + (t + chunk_concat(rest)));
        assert(first_texts + (chunk_texts(rest) + seq![("complete"@, content + t + chunk_concat(rest))])
            =~= (first_texts + chunk_texts(rest)) + seq![("complete"@, content + t + chunk_concat(rest))]);
    }
}

/// Once the stream is finished nothing more is sent.
pub proof fn lemma_nothing_after_finish(content: Seq<char>, events: Seq<StreamEvent>)
    ensures
        run_stream(StreamPhase::Finished, content, events).0 == StreamPhase::Finished,
        run_stream(StreamPhase::Finished, content, events).2 == Seq::<(Seq<char>, Seq<char>)>::empty(),
    decreases events.len(),
{
    if events.len() > 0 {
        lemma_nothing_after_finish(content, events.drop_first());
        assert(Seq::<(Seq<char>, Seq<char>)>::empty() + Seq::<(Seq<char>, Seq<char>)>::empty()
            =~= Seq::<(Seq<char>, Seq<char>)>::empty());
    }
}

/// A stream stops at its first failure: the failure's `error` message and
/// `done` are all that is sent from then on, whatever follows.
pub proof fn lemma_failure_ends_stream(
    phase: StreamPhase,
    content: Seq<char>,
    failure: StreamFailure,
    detail: String,
    later: Seq<StreamEvent>,
)
    requires
        phase != StreamPhase::Finished,
    ensures
        run_stream(phase, content, seq![StreamEvent::Failed { failure, detail }] + later).0 == StreamPhase::Finished,
        run_stream(phase, content, seq![StreamEvent::Failed { failure, detail }] + later).2
            == seq![error_msg(failure, detail@), done_msg()],
{
    let f = StreamEvent::Failed { failure, detail };
    lemma_run_split(phase, content, seq![f], later);
    assert(seq![f].drop_first() =~= Seq::<StreamEvent>::empty());
    assert(seq![f][0] == f);
    assert(run_stream(StreamPhase::Finished, content, seq![f].drop_first())
        == (StreamPhase::Finished, content, Seq::<(Seq<char>, Seq<char>)>::empty()));
    assert(run_stream(phase, content, seq![f])
        == (StreamPhase::Finished, content, seq![error_msg(failure, detail@), done_msg()] + Seq::<(Seq<char>, Seq<char>)>::empty()));
    lemma_nothing_after_finish(content, later);
    assert(seq![error_msg(failure, detail@), done_msg()] + Seq::<(Seq<char>, Seq<char>)>::empty()
        =~= seq![error_msg(failure, detail@), done_msg()]);
}

/// A successful streamed analysis sends, in order: the fetching and the
/// analysing status, a `text` message for each non-empty piece of the
/// reply, a `complete` message with the whole reply, the report (or the raw
/// reply), and `done`; the reply gathered is the pieces joined.
pub proof fn lemma_stream_order(chunks: Seq<StreamEvent>, report: Option<String>)
    requires
        reply_chunks(chunks),
    ensures
        run_stream(
            StreamPhase::Start,
            Seq::empty(),
            seq![
                StreamEvent::Begin { code_given: true, key_given: true },
                StreamEvent::DataReady,
                StreamEvent::ModelReady,
            ] + chunks + seq![StreamEvent::Replied { report }],
        ) == (
            StreamPhase::Finished,
            chunk_concat(chunks),
            seq![fetching_msg(), analysing_msg()] + chunk_texts(chunks) + seq![
                ("complete"@, chunk_concat(chunks)),
                reply_msg(report, chunk_concat(chunks)),
                done_msg(),
            ],
        ),
{
    let head = seq![
        StreamEvent::Begin { code_given: true, key_given: true },
        StreamEvent::DataReady,
        StreamEvent::ModelReady,
    ];
    let tail = seq![StreamEvent::Replied { report }];
    let empty = Seq::<char>::empty();
    let none = Seq::<(Seq<char>, Seq<char>)>::empty();
    lemma_run_split(StreamPhase::Start, empty, head + chunks, tail);
    lemma_run_split(StreamPhase::Start, empty, head, chunks);
    // The three opening events.
    assert(head.drop_first().drop_first().drop_first() =~= Seq::<StreamEvent>::empty());
    assert(run_stream(StreamPhase::Streaming, empty, head.drop_first().drop_first().drop_first())
        == (StreamPhase::Streaming, empty, none));
    assert(run_stream(StreamPhase::Analysing, empty, head.drop_first().drop_first())
        == (StreamPhase::Streaming, empty, none + none));
    assert(run_stream(StreamPhase::Fetching, empty, head.drop_first())
        == (StreamPhase::Streaming, empty, seq![analysing_msg()] + (none + none)));
    assert(run_stream(StreamPhase::Start, empty, head)
        == (StreamPhase::Streaming, empty, seq![fetching_msg()] + (seq![analysing_msg()] + (none + none))));
    assert(seq![fetching_msg()] + (seq![analysing_msg()] + (none + none)) =~= seq![fetching_msg(), analysing_msg()]);
    // The reply.
    lemma_chunks(empty, chunks);
    assert(empty + chunk_concat(chunks) =~= chunk_concat(chunks));
    // The end.
    let whole = chunk_concat(chunks);
    assert(tail.drop_first() =~= Seq::<StreamEvent>::empty());
    assert(tail[0] == StreamEvent::Replied { report });
    assert(run_stream(StreamPhase::Finished, whole, tail.drop_first()) == (StreamPhase::Finished, whole, none));
    assert(run_stream(StreamPhase::Streaming, whole, tail)
        == (StreamPhase::Finished, whole, seq![reply_msg(report, whole), done_msg()] + none));
    assert(seq![fetching_msg(), analysing_msg()] + (chunk_texts(chunks) + seq![("complete"@, whole)])
        + (seq![reply_msg(report, whole), done_msg()] + none)
        =~= seq![fetching_msg(), analysing_msg()] + chunk_texts(chunks) + seq![
            ("complete"@, whole),
            reply_msg(report, whole),
            done_msg(),
        ]);
}

} // verus!
