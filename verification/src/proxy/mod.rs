//! The proxy's handling of a chat completion: framing a backend's server-sent
//! event stream, folding its chunks into one completion, writing that completion
//! as JSON, and the answers given when a step fails.
use vstd::prelude::*;

use crate::json::{
    json_get, json_member_str, json_parsed, json_string, keys_ascending, lemma_member_lookup_at,
    object_keys, parse_json, push_json_string, text_less, JsonNumber, JsonValue,
};
use crate::models::Usage;
use crate::providers::openai::{usage_in, OpenAIProvider};
use crate::providers::OpenAIStreamChunk;
use crate::text::{
    append_chars, append_str, chars_of, contains_exec, contains_seq, decimal, decimal_int,
    has_prefix, has_prefix_exec, push_decimal, push_decimal_i64, split_exec, split_seq,
    strip_all, strip_all_exec, string_of, trim_exec, trim_seq,
};

pub mod chat;
pub mod logging;

verus! {

broadcast use vstd::string::group_string_axioms;

// ---------------------------------------------------------------------------
// Framing a server-sent event stream
// ---------------------------------------------------------------------------

/// One `data:` event of a backend's stream.
#[derive(Debug, PartialEq, Eq)]
pub struct StreamEvent {
    /// The JSON text after the `data: ` prefix.
    pub payload: String,
    /// The event's text as it stood between the blank lines, untrimmed.
    pub line: String,
}

/// The JSON text of one piece of a stream: the trimmed piece must start with
/// `data: `; what follows the prefixes must be neither empty nor `[DONE]`.
pub open spec fn event_payload(piece: Seq<char>) -> Option<Seq<char>> {
    let t = trim_seq(piece);
    if has_prefix(t, "data: "@) {
        let p = strip_all(t, "data: "@);
        if p.len() == 0 || p == "[DONE]"@ {
            None
        } else {
            Some(p)
        }
    } else {
        None
    }
}

/// The events among `pieces`, each as (payload, piece), in order.
pub open spec fn events_of(pieces: Seq<Seq<char>>) -> Seq<(Seq<char>, Seq<char>)>
    decreases pieces.len(),
{
    if pieces.len() == 0 {
        Seq::empty()
    } else {
        events_of(pieces.drop_last()) + match event_payload(pieces.last()) {
            Some(p) => seq![(p, pieces.last())],
            None => Seq::empty(),
        }
    }
}

/// The events of a stream body, which separates them by blank lines (`\n\n`).
pub open spec fn stream_events_spec(body: Seq<char>) -> Seq<(Seq<char>, Seq<char>)> {
    events_of(split_seq(body, "\n\n"@))
}

/// The view of an event.
pub open spec fn event_view(e: StreamEvent) -> (Seq<char>, Seq<char>) {
    (e.payload@, e.line@)
}

/// A body is streamed when it contains `data: `.
pub fn is_streaming_body(body: &str) -> (r: bool)
    ensures
        r == contains_seq(body@, "data: "@),
{
    let b = chars_of(body);
    let marker = chars_of("data: ");
    contains_exec(&b, &marker)
}

/// The `data:` events of a streamed body, in order.
pub fn stream_events(body: &str) -> (r: Vec<StreamEvent>)
    ensures
        r@.map_values(|e: StreamEvent| event_view(e)) == stream_events_spec(body@),
        forall|i: int|
            0 <= i < r@.len() ==> #[trigger] r@[i].payload@.len() > 0 && r@[i].payload@
                != "[DONE]"@,
{
    let b = chars_of(body);
    let sep = chars_of("\n\n");
    let prefix = chars_of("data: ");
    let done = chars_of("[DONE]");
    proof {
        reveal_strlit("\n\n");
    }
    let pieces = split_exec(&b, &sep);
    let ghost piece_views = pieces@.map_values(|p: Vec<char>| p@);
    let mut out: Vec<StreamEvent> = Vec::new();
    let mut i: usize = 0;
    while i < pieces.len()
        invariant
            i <= pieces.len(),
            piece_views == pieces@.map_values(|p: Vec<char>| p@),
            piece_views == split_seq(b@, sep@),
            b@ == body@,
            prefix@ == "data: "@,
            done@ == "[DONE]"@,
            sep@ == "\n\n"@,
            out@.map_values(|e: StreamEvent| event_view(e)) == events_of(
                piece_views.take(i as int),
            ),
            forall|k: int|
                0 <= k < out@.len() ==> #[trigger] out@[k].payload@.len() > 0 && out@[k].payload@
                    != "[DONE]"@,
        decreases pieces.len() - i,
    {
        let piece = &pieces[i];
        let t = trim_exec(piece);
        assert(piece_views.take(i + 1).drop_last() =~= piece_views.take(i as int));
        assert(piece_views.take(i + 1).last() == piece@);
        if has_prefix_exec(&t, &prefix) {
            let p = strip_all_exec(&t, &prefix);
            if p.len() > 0 && !crate::json::vec_eq(&p, &done) {
                let ghost old_out = out@;
                out.push(StreamEvent { payload: string_of(&p), line: string_of(piece) });
                assert(out@.map_values(|e: StreamEvent| event_view(e)) =~= old_out.map_values(
                    |e: StreamEvent| event_view(e),
                ) + seq![(p@, piece@)]);
            } else {
                assert(events_of(piece_views.take(i + 1)) =~= events_of(
                    piece_views.take(i as int),
                ));
            }
        } else {
            assert(events_of(piece_views.take(i + 1)) =~= events_of(piece_views.take(i as int)));
        }
        i += 1;
    }
    assert(piece_views.take(pieces.len() as int) =~= piece_views);
    out
}

// ---------------------------------------------------------------------------
// Folding the chunks of a stream
// ---------------------------------------------------------------------------

/// What the provider made of an event's line.
#[derive(Debug, PartialEq)]
pub enum ChunkParse {
    /// The line decoded to a chunk.
    Parsed(OpenAIStreamChunk),
    /// The line carried no chunk.
    NoData,
    /// The line could not be decoded.
    Failed,
}

/// What decoding one event gave: its payload as a JSON document, and its line as a chunk.
#[derive(Debug, PartialEq)]
pub struct ChunkOutcome {
    /// The payload decoded as JSON, or `None` when it is not JSON.
    pub value: Option<JsonValue>,
    /// The line decoded by the provider.
    pub chunk: ChunkParse,
}

/// What decoding an event with the payload `payload`, whose line the provider
/// made `chunk` of, gives: when the payload is JSON, its document and the chunk;
/// otherwise no document and no chunk.
pub open spec fn outcome_of(payload: Seq<char>, chunk: ChunkParse) -> ChunkOutcome {
    match json_parsed(payload) {
        Ok(v) => ChunkOutcome { value: Some(v), chunk },
        Err(_) => ChunkOutcome { value: None, chunk: ChunkParse::NoData },
    }
}

/// What decoding the events `events` (each as payload and line) gives, the `i`-th
/// line having been made `chunks[i]` of by the provider.
pub open spec fn decoded_outcomes(
    events: Seq<(Seq<char>, Seq<char>)>,
    chunks: Seq<ChunkParse>,
) -> Seq<ChunkOutcome> {
    Seq::new(events.len(), |i: int| outcome_of(events[i].0, chunks[i]))
}

/// Decodes one event: its payload as JSON (`serde_json`), and, when that succeeds,
/// the provider's decoding `chunk` of its line.
pub fn decode_event(event: &StreamEvent, chunk: ChunkParse) -> (r: ChunkOutcome)
    ensures
        r == outcome_of(event.payload@, chunk),
{
    match parse_json(event.payload.as_str()) {
        Ok(v) => ChunkOutcome { value: Some(v), chunk },
        Err(_) => ChunkOutcome { value: None, chunk: ChunkParse::NoData },
    }
}

/// Decodes every event of a stream, the `i`-th with the provider's decoding
/// `chunks[i]` of its line.
pub fn decode_events(events: &Vec<StreamEvent>, chunks: Vec<ChunkParse>) -> (r: Vec<ChunkOutcome>)
    requires
        chunks@.len() == events@.len(),
    ensures
        r@ == decoded_outcomes(events@.map_values(|e: StreamEvent| event_view(e)), chunks@),
{
    let ghost all = chunks@;
    let ghost evs = events@.map_values(|e: StreamEvent| event_view(e));
    let mut rest = chunks;
    let mut out: Vec<ChunkOutcome> = Vec::new();
    let mut i: usize = 0;
    while i < events.len()
        invariant
            i <= events.len(),
            all.len() == events@.len(),
            evs == events@.map_values(|e: StreamEvent| event_view(e)),
            rest@ == all.skip(i as int),
            out@ == decoded_outcomes(evs, all).take(i as int),
        decreases events.len() - i,
    {
        let chunk = rest.remove(0);
        assert(chunk == all[i as int]);
        let o = decode_event(&events[i], chunk);
        assert(evs[i as int].0 == events@[i as int].payload@);
        out.push(o);
        assert(rest@ =~= all.skip(i + 1));
        assert(out@ =~= decoded_outcomes(evs, all).take(i + 1));
        i += 1;
    }
    assert(out@ =~= decoded_outcomes(evs, all));
    out
}

/// The running totals of a stream.
pub struct StreamTotals {
    pub content: Seq<char>,
    pub usage: Option<Usage>,
    pub model: Seq<char>,
    pub id: Seq<char>,
}

/// The text a chunk adds: the content of its first choice's delta, when non-empty.
pub open spec fn chunk_text(c: OpenAIStreamChunk) -> Seq<char> {
    if c.choices@.len() > 0 {
        match c.choices@[0].delta {
            Some(d) => match d.content {
                Some(t) => t@,
                None => Seq::empty(),
            },
            None => Seq::empty(),
        }
    } else {
        Seq::empty()
    }
}

/// A member of the chunk's JSON read as a string, or empty.
pub open spec fn member_or_empty(v: JsonValue, key: Seq<char>) -> Seq<char> {
    match json_member_str(v, key) {
        Some(s) => s,
        None => Seq::empty(),
    }
}

/// The totals after one more event: an event counts only when its payload is
/// JSON and its line decoded to a chunk. It adds its text, replaces the usage
/// when it reports one, and sets the model and id to its own (empty when absent).
pub open spec fn step_totals(t: StreamTotals, o: ChunkOutcome) -> StreamTotals {
    match o.value {
        Some(v) => match o.chunk {
            ChunkParse::Parsed(c) => StreamTotals {
                content: t.content + chunk_text(c),
                usage: match usage_in(v) {
                    Some(u) => Some(u),
                    None => t.usage,
                },
                model: member_or_empty(v, "model"@),
                id: member_or_empty(v, "id"@),
            },
            _ => t,
        },
        None => t,
    }
}

/// The totals of a whole stream.
pub open spec fn totals_of(outcomes: Seq<ChunkOutcome>) -> StreamTotals
    decreases outcomes.len(),
{
    if outcomes.len() == 0 {
        StreamTotals { content: Seq::empty(), usage: None, model: Seq::empty(), id: Seq::empty() }
    } else {
        step_totals(totals_of(outcomes.drop_last()), outcomes.last())
    }
}

/// The text a stream folds into is the texts of its events, in order: folding two
/// runs of events one after the other gives the first run's text followed by the
/// second's; and the usage is the one the last reporting event gave.
pub proof fn law_stream_totals_concatenate(a: Seq<ChunkOutcome>, b: Seq<ChunkOutcome>)
    ensures
        totals_of(a + b).content == totals_of(a).content + totals_of(b).content,
        totals_of(a + b).usage == match totals_of(b).usage {
            Some(u) => Some(u),
            None => totals_of(a).usage,
        },
    decreases b.len(),
{
    if b.len() == 0 {
        assert(a + b =~= a);
        assert(totals_of(a).content + Seq::<char>::empty() =~= totals_of(a).content);
    } else {
        law_stream_totals_concatenate(a, b.drop_last());
        assert((a + b).drop_last() =~= a + b.drop_last());
        assert((a + b).last() == b.last());
        let ta = totals_of(a);
        let tb = totals_of(b.drop_last());
        match b.last().value {
            Some(v) => match b.last().chunk {
                ChunkParse::Parsed(c) => {
                    assert(ta.content + tb.content + chunk_text(c) =~= ta.content + (tb.content
                        + chunk_text(c)));
                },
                _ => {},
            },
            None => {},
        }
    }
}

/// The text a decoded chunk adds to the folded content is exactly the content of
/// its first choice's delta, whatever that delta's role or the choice's finish
/// reason; a stream of that one chunk folds to that text.
pub proof fn law_chunk_adds_its_delta_content(
    t: StreamTotals,
    v: JsonValue,
    c: OpenAIStreamChunk,
    text: String,
)
    requires
        c.choices@.len() > 0,
        c.choices@[0].delta matches Some(d) && d.content == Some(text),
    ensures
        step_totals(t, ChunkOutcome { value: Some(v), chunk: ChunkParse::Parsed(c) }).content
            == t.content + text@,
        totals_of(seq![ChunkOutcome { value: Some(v), chunk: ChunkParse::Parsed(c) }]).content
            == text@,
{
    let o = ChunkOutcome { value: Some(v), chunk: ChunkParse::Parsed(c) };
    let one = seq![o];
    assert(one.drop_last() =~= Seq::<ChunkOutcome>::empty());
    assert(one.last() == o);
    let z = totals_of(Seq::<ChunkOutcome>::empty());
    assert(z.content == Seq::<char>::empty());
    assert(totals_of(one) == step_totals(z, o));
    assert(Seq::<char>::empty() + text@ =~= text@);
}

/// A decoded chunk without delta content (no choice, no delta, or no content in
/// the first choice's delta) adds no text.
pub proof fn law_chunk_without_delta_content_adds_nothing(
    t: StreamTotals,
    v: JsonValue,
    c: OpenAIStreamChunk,
)
    requires
        c.choices@.len() == 0 || c.choices@[0].delta is None || c.choices@[0].delta->0.content is None,
    ensures
        step_totals(t, ChunkOutcome { value: Some(v), chunk: ChunkParse::Parsed(c) }).content
            == t.content,
{
    assert(t.content + Seq::<char>::empty() =~= t.content);
}

/// An event whose payload is not JSON, or whose line gave no chunk, changes nothing.
pub proof fn law_undecodable_events_are_skipped(t: StreamTotals, o: ChunkOutcome)
    requires
        o.value is None || !(o.chunk is Parsed),
    ensures
        step_totals(t, o) == t,
{
}

/// The totals of a stream, as strings.
#[derive(Debug, PartialEq, Eq)]
pub struct StreamSummary {
    pub content: String,
    pub usage: Option<Usage>,
    pub model: String,
    pub id: String,
}

/// The summary holds these totals.
pub open spec fn summary_is(s: StreamSummary, t: StreamTotals) -> bool {
    &&& s.content@ == t.content
    &&& s.usage == t.usage
    &&& s.model@ == t.model
    &&& s.id@ == t.id
}

/// The text a chunk adds.
fn chunk_text_exec(c: &OpenAIStreamChunk) -> (r: Vec<char>)
    ensures
        r@ == chunk_text(*c),
{
    if c.choices.len() > 0 {
        match &c.choices[0].delta {
            Some(d) => match &d.content {
                Some(t) => chars_of(t.as_str()),
                None => Vec::new(),
            },
            None => Vec::new(),
        }
    } else {
        Vec::new()
    }
}

/// A member of a JSON document read as a string, or an empty string.
fn member_or_empty_exec(v: &JsonValue, key: &str) -> (r: String)
    ensures
        r@ == member_or_empty(*v, key@),
{
    match v.member_str(key) {
        Some(s) => s,
        None => String::new(),
    }
}

/// Folds the decoded events of a stream, in order, into its totals.
pub fn aggregate_stream(outcomes: &Vec<ChunkOutcome>) -> (r: StreamSummary)
    ensures
        summary_is(r, totals_of(outcomes@)),
{
    let provider = OpenAIProvider::new();
    let mut content: Vec<char> = Vec::new();
    let mut usage: Option<Usage> = None;
    let mut model = String::new();
    let mut id = String::new();
    let mut i: usize = 0;
    while i < outcomes.len()
        invariant
            i <= outcomes.len(),
            content@ == totals_of(outcomes@.take(i as int)).content,
            usage == totals_of(outcomes@.take(i as int)).usage,
            model@ == totals_of(outcomes@.take(i as int)).model,
            id@ == totals_of(outcomes@.take(i as int)).id,
        decreases outcomes.len() - i,
    {
        let o = &outcomes[i];
        assert(outcomes@.take(i + 1).drop_last() =~= outcomes@.take(i as int));
        assert(outcomes@.take(i + 1).last() == outcomes@[i as int]);
        match &o.value {
            Some(v) => match &o.chunk {
                ChunkParse::Parsed(c) => {
                    let text = chunk_text_exec(c);
                    append_chars(&mut content, &text);
                    match provider.parse_usage(v) {
                        Some(u) => {
                            usage = Some(u);
                        },
                        None => {},
                    }
                    model = member_or_empty_exec(v, "model");
                    id = member_or_empty_exec(v, "id");
                },
                _ => {},
            },
            None => {},
        }
        i += 1;
    }
    assert(outcomes@.take(outcomes.len() as int) =~= outcomes@);
    StreamSummary { content: string_of(&content), usage, model, id }
}

// ---------------------------------------------------------------------------
// Writing the completion
// ---------------------------------------------------------------------------

/// Usage with no tokens.
pub open spec fn zero_usage() -> Usage {
    Usage { prompt_tokens: 0, completion_tokens: 0, total_tokens: 0 }
}

/// The JSON text of the completion a stream folds into, as `serde_json` writes
/// it: compact, the members of each object in ascending order of their names
/// (`law_completion_members_in_serde_order`), strings as `serde_json::to_string`
/// writes them (`json_string`), integers in decimal, and the usage absent from the
/// stream counted as zero.
pub open spec fn completion_text(
    content: Seq<char>,
    usage: Option<Usage>,
    model: Seq<char>,
    id: Seq<char>,
    created: u64,
) -> Seq<char> {
    let u = match usage {
        Some(u) => u,
        None => zero_usage(),
    };
    "{\"choices\":[{\"finish_reason\":\"stop\",\"index\":0,\"message\":{\"content\":"@
        + json_string(content) + ",\"role\":\"assistant\"}}],\"created\":"@ + decimal(
        created as nat,
    ) + ",\"id\":"@ + json_string(id) + ",\"model\":"@ + json_string(model)
        + ",\"object\":\"chat.completion\",\"usage\":{\"completion_tokens\":"@ + decimal_int(
        u.completion_tokens as int,
    ) + ",\"prompt_tokens\":"@ + decimal_int(u.prompt_tokens as int) + ",\"total_tokens\":"@
        + decimal_int(u.total_tokens as int) + "}}"@
}

/// The member names of the objects in `completion_text`, outermost first: the
/// completion, a choice, its message, and the usage.
pub open spec fn completion_member_names() -> Seq<Seq<Seq<char>>> {
    seq![
        seq!["choices"@, "created"@, "id"@, "model"@, "object"@, "usage"@],
        seq!["finish_reason"@, "index"@, "message"@],
        seq!["content"@, "role"@],
        seq!["completion_tokens"@, "prompt_tokens"@, "total_tokens"@],
    ]
}

/// Every object of the completion text lists its members in the order `serde_json`
/// gives an object built without insertion order: ascending by name.
pub proof fn law_completion_members_in_serde_order()
    ensures
        forall|i: int|
            0 <= i < completion_member_names().len() ==> keys_ascending(
                #[trigger] completion_member_names()[i],
            ),
{
    reveal_strlit("choices");
    reveal_strlit("created");
    reveal_strlit("id");
    reveal_strlit("model");
    reveal_strlit("object");
    reveal_strlit("usage");
    reveal_strlit("finish_reason");
    reveal_strlit("index");
    reveal_strlit("message");
    reveal_strlit("content");
    reveal_strlit("role");
    reveal_strlit("completion_tokens");
    reveal_strlit("prompt_tokens");
    reveal_strlit("total_tokens");
    let n = completion_member_names();
    assert("choices"@.drop_first()[0] == 'h' && "created"@.drop_first()[0] == 'r');
    assert(text_less("choices"@.drop_first(), "created"@.drop_first()));
    assert(text_less("choices"@, "created"@));
    assert(text_less("created"@, "id"@));
    assert(text_less("id"@, "model"@));
    assert(text_less("model"@, "object"@));
    assert(text_less("object"@, "usage"@));
    assert(keys_ascending(n[0]));
    assert(text_less("finish_reason"@, "index"@));
    assert(text_less("index"@, "message"@));
    assert(keys_ascending(n[1]));
    assert(text_less("content"@, "role"@));
    assert(keys_ascending(n[2]));
    assert(text_less("completion_tokens"@, "prompt_tokens"@));
    assert(text_less("prompt_tokens"@, "total_tokens"@));
    assert(keys_ascending(n[3]));
}

/// The completion text of a summary.
pub open spec fn summary_text(s: StreamSummary, created: u64) -> Seq<char> {
    completion_text(s.content@, s.usage, s.model@, s.id@, created)
}

/// The completion text a stream's decoded events fold into.
pub open spec fn stream_completion_text(outcomes: Seq<ChunkOutcome>, created: u64) -> Seq<char> {
    let t = totals_of(outcomes);
    completion_text(t.content, t.usage, t.model, t.id, created)
}

/// Writes a stream's summary as a complete chat completion created at `created`
/// (seconds since the Unix epoch).
pub fn render_completion(summary: &StreamSummary, created: u64) -> (r: String)
    ensures
        r@ == summary_text(*summary, created),
{
    let u = match summary.usage {
        Some(u) => u,
        None => Usage { prompt_tokens: 0, completion_tokens: 0, total_tokens: 0 },
    };
    let mut out: Vec<char> = Vec::new();
    append_str(
        &mut out,
        "{\"choices\":[{\"finish_reason\":\"stop\",\"index\":0,\"message\":{\"content\":",
    );
    push_json_string(&mut out, summary.content.as_str());
    append_str(&mut out, ",\"role\":\"assistant\"}}],\"created\":");
    push_decimal(&mut out, created);
    append_str(&mut out, ",\"id\":");
    push_json_string(&mut out, summary.id.as_str());
    append_str(&mut out, ",\"model\":");
    push_json_string(&mut out, summary.model.as_str());
    append_str(&mut out, ",\"object\":\"chat.completion\",\"usage\":{\"completion_tokens\":");
    push_decimal_i64(&mut out, u.completion_tokens);
    append_str(&mut out, ",\"prompt_tokens\":");
    push_decimal_i64(&mut out, u.prompt_tokens);
    append_str(&mut out, ",\"total_tokens\":");
    push_decimal_i64(&mut out, u.total_tokens);
    append_str(&mut out, "}}");
    string_of(&out)
}

/// `std::time::SystemTime`, declared so that the clock's readings can be carried.
#[verifier::external_type_specification]
#[verifier::external_body]
pub struct ExSystemTime(std::time::SystemTime);

/// `SystemTime::now`: it reads the clock, so nothing is promised of the value.
#[verifier::external_body]
fn system_now() -> std::time::SystemTime {
    std::time::SystemTime::now()
}

/// `SystemTime::duration_since(UNIX_EPOCH)`: the time elapsed since the epoch,
/// `None` for a time before it. Nothing is promised of a time read from the clock.
#[verifier::external_body]
fn since_unix_epoch(t: &std::time::SystemTime) -> Option<std::time::Duration> {
    t.duration_since(std::time::UNIX_EPOCH).ok()
}

/// `Duration::as_secs`: the whole seconds of a duration.
#[verifier::external_body]
fn whole_seconds(d: &std::time::Duration) -> u64 {
    d.as_secs()
}

/// The current time in whole seconds since the Unix epoch; 0 when the clock is set
/// before it (what the proxy stamps a folded completion with). The value rests on
/// the clock alone, so every `u64` is a possible result and no `ensures` is given.
fn unix_time_secs() -> u64 {
    let now = system_now();
    match since_unix_epoch(&now) {
        Some(d) => whole_seconds(&d),
        None => 0,
    }
}

/// The body the proxy answers with for a backend's body: a body without `data: `
/// is passed on as it is; a streamed body is folded into one completion, created now.
/// `outcomes[i]` is what decoding the `i`-th event of `stream_events(response_body)` gave.
pub fn process_backend_response(response_body: &str, outcomes: &Vec<ChunkOutcome>) -> (r: String)
    requires
        outcomes@.len() == stream_events_spec(response_body@).len(),
    ensures
        !contains_seq(response_body@, "data: "@) ==> r@ == response_body@,
        contains_seq(response_body@, "data: "@) ==> exists|created: u64|
            r@ == #[trigger] stream_completion_text(outcomes@, created),
{
    if is_streaming_body(response_body) {
        let summary = aggregate_stream(outcomes);
        let created = unix_time_secs();
        let r = render_completion(&summary, created);
        assert(r@ == stream_completion_text(outcomes@, created));
        r
    } else {
        response_body.to_owned()
    }
}

// ---------------------------------------------------------------------------
// The model listing
// ---------------------------------------------------------------------------

/// The entry of one model in the listing:
/// `{"created":1234567890,"id":<alias>,"object":"model","owned_by":"llamp"}`.
pub open spec fn is_model_entry(v: JsonValue, alias: Seq<char>) -> bool {
    &&& object_keys(v) == seq!["created"@, "id"@, "object"@, "owned_by"@]
    &&& json_get(v, "created"@) == Some(JsonValue::Number(JsonNumber::PosInt(1234567890)))
    &&& json_member_str(v, "id"@) == Some(alias)
    &&& json_member_str(v, "object"@) == Some("model"@)
    &&& json_member_str(v, "owned_by"@) == Some("llamp"@)
}

/// The listing of the models: `{"data":[<entries>],"object":"list"}`, one entry
/// per alias, in order.
pub open spec fn is_models_listing(v: JsonValue, aliases: Seq<String>) -> bool {
    &&& object_keys(v) == seq!["data"@, "object"@]
    &&& json_member_str(v, "object"@) == Some("list"@)
    &&& json_get(v, "data"@) matches Some(JsonValue::Array(items)) && items@.len() == aliases.len()
        && forall|i: int| 0 <= i < aliases.len() ==> is_model_entry(#[trigger] items@[i], aliases[i]@)
}

/// The listing entry of one model.
fn model_entry(alias: &String) -> (r: JsonValue)
    ensures
        is_model_entry(r, alias@),
{
    let mut members: Vec<(String, JsonValue)> = Vec::new();
    members.push(("created".to_owned(), JsonValue::Number(JsonNumber::PosInt(1234567890))));
    members.push(("id".to_owned(), JsonValue::from_text(alias.as_str())));
    members.push(("object".to_owned(), JsonValue::from_text("model")));
    members.push(("owned_by".to_owned(), JsonValue::from_text("llamp")));
    proof {
        reveal_strlit("created");
        reveal_strlit("id");
        reveal_strlit("object");
        reveal_strlit("owned_by");
    }
    let ghost m = members@;
    assert(m[0].0@ == "created"@ && "created"@.len() == 7);
    assert(m[1].0@ == "id"@ && "id"@.len() == 2);
    assert(m[2].0@ == "object"@ && "object"@.len() == 6);
    assert(m[3].0@ == "owned_by"@ && "owned_by"@.len() == 8);
    // The keys are distinct, so each lookup finds its own member.
    proof {
        lemma_member_lookup_at(m, "created"@, 0);
        lemma_member_lookup_at(m, "id"@, 1);
        lemma_member_lookup_at(m, "object"@, 2);
        lemma_member_lookup_at(m, "owned_by"@, 3);
    }
    let r = JsonValue::Object(members);
    assert(object_keys(r) =~= seq!["created"@, "id"@, "object"@, "owned_by"@]);
    r
}

/// The listing of the models whose aliases are given (the active backends').
pub fn models_listing(aliases: &Vec<String>) -> (r: JsonValue)
    ensures
        is_models_listing(r, aliases@),
{
    let mut items: Vec<JsonValue> = Vec::new();
    let mut i: usize = 0;
    while i < aliases.len()
        invariant
            i <= aliases.len(),
            items@.len() == i,
            forall|k: int| 0 <= k < i ==> is_model_entry(#[trigger] items@[k], aliases@[k]@),
        decreases aliases.len() - i,
    {
        items.push(model_entry(&aliases[i]));
        i += 1;
    }
    let ghost item_seq = items@;
    let mut members: Vec<(String, JsonValue)> = Vec::new();
    members.push(("data".to_owned(), JsonValue::Array(items)));
    members.push(("object".to_owned(), JsonValue::from_text("list")));
    proof {
        reveal_strlit("data");
        reveal_strlit("object");
    }
    let ghost m = members@;
    assert(m[0].0@ == "data"@ && "data"@.len() == 4);
    assert(m[1].0@ == "object"@ && "object"@.len() == 6);
    proof {
        lemma_member_lookup_at(m, "data"@, 0);
        lemma_member_lookup_at(m, "object"@, 1);
    }
    let r = JsonValue::Object(members);
    assert(object_keys(r) =~= seq!["data"@, "object"@]);
    r
}

// ---------------------------------------------------------------------------
// Failures of a chat completion
// ---------------------------------------------------------------------------

/// The status the proxy answers with when the backend answered `status` (>= 400):
/// 400, 401, 403, 404, 429, 500, 502 and 503 pass through; any other becomes 502.
pub open spec fn passed_status(status: u16) -> u16 {
    if status == 400 || status == 401 || status == 403 || status == 404 || status == 429
        || status == 500 || status == 502 || status == 503 {
        status
    } else {
        502
    }
}

/// The status passed to the client for a backend's error status.
fn passed_status_exec(status: u16) -> (r: u16)
    ensures
        r == passed_status(status),
{
    if status == 400 || status == 401 || status == 403 || status == 404 || status == 429
        || status == 500 || status == 502 || status == 503 {
        status
    } else {
        502
    }
}

/// An error status of a backend is answered with an error status: the statuses
/// the proxy knows pass through unchanged, and the others become 502.
pub proof fn law_error_status_stays_an_error(status: u16)
    requires
        status >= 400,
    ensures
        passed_status(status) >= 400,
        passed_status(status) == status || passed_status(status) == 502,
        passed_status(passed_status(status)) == passed_status(status),
{
}

/// A step of a chat completion that failed, with the text of the underlying error.
#[derive(Debug, PartialEq, Eq)]
pub enum ChatFailure {
    /// The database could not be opened.
    Database(String),
    /// The backend for the model could not be looked up.
    BackendLookup(String),
    /// No active backend has the requested model alias.
    ModelNotFound,
    /// The requested model is not among the user's allowed backends.
    ModelNotAllowed,
    /// The request to the backend could not be prepared.
    PrepareRequest(String),
    /// The backend could not be reached.
    BackendConnect(String),
    /// The backend's body could not be read.
    BackendRead(String),
    /// The backend answered with an error status; its body is passed on.
    BackendStatus { status: u16, body: String },
    /// The processed body is not JSON.
    ProcessedParse(String),
    /// The usage log could not be written.
    UsageLog(String),
}

/// The status code a failure is answered with.
pub open spec fn failure_status(f: ChatFailure) -> u16 {
    match f {
        ChatFailure::Database(_) => 500,
        ChatFailure::BackendLookup(_) => 500,
        ChatFailure::ModelNotFound => 404,
        ChatFailure::ModelNotAllowed => 403,
        ChatFailure::PrepareRequest(_) => 500,
        ChatFailure::BackendConnect(_) => 502,
        ChatFailure::BackendRead(_) => 502,
        ChatFailure::BackendStatus { status, body: _ } => passed_status(status),
        ChatFailure::ProcessedParse(_) => 502,
        ChatFailure::UsageLog(_) => 500,
    }
}

/// The body a failure is answered with.
pub open spec fn failure_text(f: ChatFailure) -> Seq<char> {
    match f {
        ChatFailure::Database(d) => "Failed to connect to database: "@ + d@,
        ChatFailure::BackendLookup(d) => "Failed to fetch backend: "@ + d@,
        ChatFailure::ModelNotFound => "Model not found"@,
        ChatFailure::ModelNotAllowed => "Model not allowed for this user"@,
        ChatFailure::PrepareRequest(d) => "Failed to prepare request: "@ + d@,
        ChatFailure::BackendConnect(d) => "Failed to connect to backend: "@ + d@,
        ChatFailure::BackendRead(d) => "Failed to read backend response: "@ + d@,
        ChatFailure::BackendStatus { status: _, body } => body@,
        ChatFailure::ProcessedParse(d) => "Failed to parse processed response: "@ + d@,
        ChatFailure::UsageLog(d) => "Failed to create usage log: "@ + d@,
    }
}

/// `prefix` followed by `detail`.
fn prefixed(prefix: &str, detail: &String) -> (r: String)
    ensures
        r@ == prefix@ + detail@,
{
    let mut out = chars_of(prefix);
    append_str(&mut out, detail.as_str());
    string_of(&out)
}

impl ChatFailure {
    /// The status code the failure is answered with.
    pub fn status_code(&self) -> (r: u16)
        ensures
            r == failure_status(*self),
    {
        match self {
            ChatFailure::Database(_) => 500,
            ChatFailure::BackendLookup(_) => 500,
            ChatFailure::ModelNotFound => 404,
            ChatFailure::ModelNotAllowed => 403,
            ChatFailure::PrepareRequest(_) => 500,
            ChatFailure::BackendConnect(_) => 502,
            ChatFailure::BackendRead(_) => 502,
            ChatFailure::BackendStatus { status, body: _ } => passed_status_exec(*status),
            ChatFailure::ProcessedParse(_) => 502,
            ChatFailure::UsageLog(_) => 500,
        }
    }

    /// The body the failure is answered with.
    pub fn message(&self) -> (r: String)
        ensures
            r@ == failure_text(*self),
    {
        match self {
            ChatFailure::Database(d) => prefixed("Failed to connect to database: ", d),
            ChatFailure::BackendLookup(d) => prefixed("Failed to fetch backend: ", d),
            ChatFailure::ModelNotFound => "Model not found".to_owned(),
            ChatFailure::ModelNotAllowed => "Model not allowed for this user".to_owned(),
            ChatFailure::PrepareRequest(d) => prefixed("Failed to prepare request: ", d),
            ChatFailure::BackendConnect(d) => prefixed("Failed to connect to backend: ", d),
            ChatFailure::BackendRead(d) => prefixed("Failed to read backend response: ", d),
            ChatFailure::BackendStatus { status: _, body } => body.clone(),
            ChatFailure::ProcessedParse(d) => prefixed("Failed to parse processed response: ", d),
            ChatFailure::UsageLog(d) => prefixed("Failed to create usage log: ", d),
        }
    }
}

// ---------------------------------------------------------------------------
// The usage record of a completion
// ---------------------------------------------------------------------------

/// The usage log entry of a completion (its cost is not recorded here).
#[derive(Debug, PartialEq, Eq)]
pub struct UsageRecord {
    pub user_id: Option<i64>,
    pub model_alias: Option<String>,
    pub prompt_tokens: i64,
    pub completion_tokens: i64,
    pub total_tokens: i64,
    pub latency_ms: Option<i64>,
    pub status: String,
    pub error_message: Option<String>,
}

/// The token counts a usage gives, zero when there is none.
pub open spec fn counts_of(usage: Option<Usage>) -> (i64, i64, i64) {
    match usage {
        Some(u) => (u.prompt_tokens, u.completion_tokens, u.total_tokens),
        None => (0, 0, 0),
    }
}

/// The usage log entry of a successful completion for `user_id` on `model_alias`,
/// with the usage the response reported and the time the backend took (the
/// milliseconds cut to an `i64` as `as` does).
pub fn success_usage_record(
    user_id: i64,
    model_alias: &String,
    usage: &Option<Usage>,
    elapsed_ms: u128,
) -> (r: UsageRecord)
    ensures
        r.user_id == Some(user_id),
        r.model_alias == Some(*model_alias),
        (r.prompt_tokens, r.completion_tokens, r.total_tokens) == counts_of(*usage),
        r.latency_ms == Some(elapsed_ms as i64),
        r.status@ == "success"@,
        r.error_message is None,
{
    let (p, c, t) = match usage {
        Some(u) => (u.prompt_tokens, u.completion_tokens, u.total_tokens),
        None => (0, 0, 0),
    };
    UsageRecord {
        user_id: Some(user_id),
        model_alias: Some(model_alias.clone()),
        prompt_tokens: p,
        completion_tokens: c,
        total_tokens: t,
        latency_ms: Some(elapsed_ms as i64),
        status: "success".to_owned(),
        error_message: None,
    }
}

/// The usage log entry of a failed completion for `user_id` on `model_alias`:
/// no tokens, no latency, status `error` and the failure's text as its message.
pub open spec fn is_error_record(r: UsageRecord, user_id: i64, model_alias: Seq<char>, f: ChatFailure) -> bool {
    &&& r.user_id == Some(user_id)
    &&& r.model_alias matches Some(m) && m@ == model_alias
    &&& r.prompt_tokens == 0 && r.completion_tokens == 0 && r.total_tokens == 0
    &&& r.latency_ms is None
    &&& r.status@ == "error"@
    &&& r.error_message matches Some(t) && t@ == failure_text(f)
}

/// The usage log entry that records a failure of a completion.
pub fn error_usage_record(user_id: i64, model_alias: &String, failure: &ChatFailure) -> (r: UsageRecord)
    ensures
        is_error_record(r, user_id, model_alias@, *failure),
{
    UsageRecord {
        user_id: Some(user_id),
        model_alias: Some(model_alias.clone()),
        prompt_tokens: 0,
        completion_tokens: 0,
        total_tokens: 0,
        latency_ms: None,
        status: "error".to_owned(),
        error_message: Some(failure.message()),
    }
}

} // verus!
