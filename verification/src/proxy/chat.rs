//! The course of one chat completion, as a machine that the HTTP handler drives:
//! the machine says which outside step comes next, the handler performs it and
//! reports what happened, until the machine gives the reply.
use vstd::prelude::*;

use crate::json::{json_parsed, parse_json, vec_eq, JsonValue};
use crate::providers::openai::{usage_in, OpenAIProvider};
use crate::proxy::{
    counts_of, decode_events, decoded_outcomes, error_usage_record, event_view, failure_status,
    failure_text, is_error_record, process_backend_response, stream_completion_text,
    stream_events, stream_events_spec, success_usage_record, ChatFailure, ChunkParse,
    StreamEvent, UsageRecord,
};
use crate::text::{chars_of, contains_seq, split_exec, split_seq, trim_exec, trim_seq};

verus! {

broadcast use vstd::string::group_string_axioms;

/// Where a chat completion stands.
#[derive(Debug, Clone, Copy, PartialEq, Eq)]
pub enum ChatStage {
    /// Opening the store.
    OpeningStore,
    /// Looking up the backend for the requested model.
    FindingBackend,
    /// Preparing the request to the backend.
    Preparing,
    /// Sending the request.
    Sending,
    /// Reading the backend's body.
    Reading,
    /// Decoding the body's events, processing the body and parsing it as JSON.
    Decoding,
    /// Writing the usage log.
    Logging,
    /// The reply was given.
    Answered,
}

/// The next thing the handler does.
#[derive(Debug, PartialEq, Eq)]
pub enum ChatAction {
    /// Open the store.
    OpenStore,
    /// Look up the active backend with this model alias.
    FindBackend(String),
    /// Prepare the request to the backend found.
    PrepareRequest,
    /// Send the prepared request.
    SendRequest,
    /// Read the backend's body.
    ReadBody,
    /// Decode the line of each of these events as a chunk (`parse_streaming_chunk`).
    ParseChunks(Vec<StreamEvent>),
    /// Write this usage log entry.
    WriteUsageLog(UsageRecord),
    /// Answer the client.
    Reply { status: u16, body: String },
}

/// What the handler's last step gave.
#[derive(Debug, PartialEq)]
pub enum ChatEvent {
    StoreOpened,
    StoreFailed(String),
    BackendFound,
    BackendMissing,
    BackendLookupFailed(String),
    Prepared,
    PrepareFailed(String),
    /// The backend answered with this status after this many milliseconds.
    Answered { status: u16, elapsed_ms: u128 },
    SendFailed(String),
    BodyRead(String),
    ReadFailed(String),
    /// What the provider made of the line of each event asked for, in order.
    ChunksParsed(Vec<ChunkParse>),
    Logged,
    LogFailed(String),
}

/// A chat completion in progress.
#[derive(Debug)]
pub struct ChatFlow {
    stage: ChatStage,
    user_id: i64,
    model: String,
    allowed: bool,
    status: u16,
    elapsed_ms: u128,
    body: String,
    processed: String,
    pending: Option<ChatFailure>,
}

/// The state of a completion.
pub struct ChatView {
    pub stage: ChatStage,
    pub user_id: i64,
    pub model: Seq<char>,
    /// The model is among the user's allowed backends.
    pub allowed: bool,
    pub status: u16,
    pub elapsed_ms: u128,
    /// The backend's body, once read.
    pub body: Seq<char>,
    pub processed: Seq<char>,
    /// A failure whose usage log is being written; it is answered next.
    pub pending: Option<ChatFailure>,
}

impl View for ChatFlow {
    type V = ChatView;

    closed spec fn view(&self) -> ChatView {
        ChatView {
            stage: self.stage,
            user_id: self.user_id,
            model: self.model@,
            allowed: self.allowed,
            status: self.status,
            elapsed_ms: self.elapsed_ms,
            body: self.body@,
            processed: self.processed@,
            pending: self.pending,
        }
    }
}

/// The event answers the step the completion waits for; the chunks answer the
/// events of the backend's body, one for one.
pub open spec fn event_fits(s: ChatView, e: ChatEvent) -> bool {
    match s.stage {
        ChatStage::OpeningStore => e is StoreOpened || e is StoreFailed,
        ChatStage::FindingBackend => e is BackendFound || e is BackendMissing
            || e is BackendLookupFailed,
        ChatStage::Preparing => e is Prepared || e is PrepareFailed,
        ChatStage::Sending => e is Answered || e is SendFailed,
        ChatStage::Reading => e is BodyRead || e is ReadFailed,
        ChatStage::Decoding => e matches ChatEvent::ChunksParsed(cs) && cs@.len()
            == stream_events_spec(s.body).len(),
        ChatStage::Logging => e is Logged || e is LogFailed,
        ChatStage::Answered => false,
    }
}

/// The failure an event reports, if it reports one; once the store is open, a
/// model outside the user's allowed backends is refused.
pub open spec fn failure_of(s: ChatView, e: ChatEvent) -> Option<ChatFailure> {
    match e {
        ChatEvent::StoreOpened => if s.allowed {
            None
        } else {
            Some(ChatFailure::ModelNotAllowed)
        },
        ChatEvent::StoreFailed(d) => Some(ChatFailure::Database(d)),
        ChatEvent::BackendMissing => Some(ChatFailure::ModelNotFound),
        ChatEvent::BackendLookupFailed(d) => Some(ChatFailure::BackendLookup(d)),
        ChatEvent::PrepareFailed(d) => Some(ChatFailure::PrepareRequest(d)),
        ChatEvent::SendFailed(d) => Some(ChatFailure::BackendConnect(d)),
        ChatEvent::ReadFailed(d) => Some(ChatFailure::BackendRead(d)),
        ChatEvent::BodyRead(b) => if s.status >= 400 {
            Some(ChatFailure::BackendStatus { status: s.status, body: b })
        } else {
            None
        },
        ChatEvent::LogFailed(d) => Some(ChatFailure::UsageLog(d)),
        _ => None,
    }
}

/// `processed` is what the proxy makes of the backend's body `body` whose events
/// decoded to `outcomes`: the body itself when it is not streamed, else the
/// completion they fold into, created at some time.
pub open spec fn processed_from(
    body: Seq<char>,
    outcomes: Seq<crate::proxy::ChunkOutcome>,
    processed: Seq<char>,
) -> bool {
    if contains_seq(body, "data: "@) {
        exists|created: u64| processed == #[trigger] stream_completion_text(outcomes, created)
    } else {
        processed == body
    }
}

/// The step after the chunks of the body's events came back: the body is processed
/// from its decoded events, and the processed text is parsed as JSON. A document
/// is logged as a success with the usage it reports, and its text is kept as the
/// reply; a text that is not JSON is a failure, logged as an error and then answered.
pub open spec fn decode_step(s: ChatView, cs: Seq<ChunkParse>, a: ChatAction, t: ChatView) -> bool {
    exists|processed: Seq<char>|
        #[trigger] processed_from(
            s.body,
            decoded_outcomes(stream_events_spec(s.body), cs),
            processed,
        ) && match json_parsed(processed) {
            Ok(document) => {
                &&& a matches ChatAction::WriteUsageLog(r) && is_success_record(r, s, document)
                &&& t == ChatView { stage: ChatStage::Logging, processed, ..s }
            },
            Err(m) => {
                &&& t == ChatView { stage: ChatStage::Logging, pending: t.pending, ..s }
                &&& t.pending matches Some(f) && f matches ChatFailure::ProcessedParse(d) && d@
                    == m
                &&& a matches ChatAction::WriteUsageLog(r) && is_error_record(
                    r,
                    s.user_id,
                    s.model,
                    t.pending->0,
                )
            },
        }
}

/// A failure reported by `e` is written to the usage log before it is answered:
/// every failure but the store failing to open and the log failing to be written.
pub open spec fn logs_failure(e: ChatEvent) -> bool {
    !(e is StoreFailed) && !(e is LogFailed)
}

/// Whether the comma-separated list of backend aliases `list` names `alias`
/// (each name taken without surrounding whitespace).
pub open spec fn alias_listed(list: Seq<char>, alias: Seq<char>) -> bool {
    exists|i: int|
        0 <= i < split_seq(list, ","@).len() && #[trigger] trim_seq(split_seq(list, ","@)[i])
            == alias
}

/// A user's allowed backends as text, when set.
pub open spec fn opt_text(o: Option<String>) -> Option<Seq<char>> {
    match o {
        Some(t) => Some(t@),
        None => None,
    }
}

/// A user whose allowed backends are `allowed` (every backend when unset) may use
/// the model alias `alias`.
pub open spec fn model_allowed(allowed: Option<Seq<char>>, alias: Seq<char>) -> bool {
    match allowed {
        None => true,
        Some(list) => alias_listed(list, alias),
    }
}

/// Whether a user with the allowed backends `allowed_backends` may use `model`.
pub fn model_allowed_exec(allowed_backends: &Option<String>, model: &String) -> (r: bool)
    ensures
        r == model_allowed(opt_text(*allowed_backends), model@),
{
    match allowed_backends {
        None => true,
        Some(list) => {
            let chars = chars_of(list.as_str());
            let sep = chars_of(",");
            proof {
                reveal_strlit(",");
            }
            let pieces = split_exec(&chars, &sep);
            let m = chars_of(model.as_str());
            let ghost names = split_seq(list@, ","@);
            assert(pieces@.len() == names.len());
            let mut i: usize = 0;
            while i < pieces.len()
                invariant
                    i <= pieces.len(),
                    names == split_seq(list@, ","@),
                    opt_text(*allowed_backends) == Some(list@),
                    pieces@.map_values(|p: Vec<char>| p@) == names,
                    m@ == model@,
                    forall|j: int| 0 <= j < i ==> trim_seq(#[trigger] names[j]) != model@,
                decreases pieces.len() - i,
            {
                assert(pieces@.map_values(|p: Vec<char>| p@)[i as int] == pieces@[i as int]@);
                let t = trim_exec(&pieces[i]);
                if vec_eq(&t, &m) {
                    assert(trim_seq(split_seq(list@, ","@)[i as int]) == model@);
                    assert(alias_listed(list@, model@));
                    return true;
                }
                i += 1;
            }
            assert forall|j: int| 0 <= j < names.len() implies trim_seq(#[trigger] names[j])
                != model@ by {}
            false
        },
    }
}

/// A completion past its first step that answers no failure was allowed its model.
pub open spec fn flow_wf(s: ChatView) -> bool {
    &&& (s.pending is None && stage_rank(s.stage) >= 1 && stage_rank(s.stage) <= 6) ==> s.allowed
    &&& s.pending is Some ==> (s.stage == ChatStage::Logging || s.stage == ChatStage::Answered)
}

/// The stage after an event that reports no failure.
pub open spec fn next_stage(stage: ChatStage) -> ChatStage {
    match stage {
        ChatStage::OpeningStore => ChatStage::FindingBackend,
        ChatStage::FindingBackend => ChatStage::Preparing,
        ChatStage::Preparing => ChatStage::Sending,
        ChatStage::Sending => ChatStage::Reading,
        ChatStage::Reading => ChatStage::Decoding,
        ChatStage::Decoding => ChatStage::Logging,
        _ => ChatStage::Answered,
    }
}

/// The position of a stage in the course of a completion.
pub open spec fn stage_rank(stage: ChatStage) -> int {
    match stage {
        ChatStage::OpeningStore => 0,
        ChatStage::FindingBackend => 1,
        ChatStage::Preparing => 2,
        ChatStage::Sending => 3,
        ChatStage::Reading => 4,
        ChatStage::Decoding => 5,
        ChatStage::Logging => 6,
        ChatStage::Answered => 7,
    }
}

/// The usage log entry of a completion whose processed body decoded to `document`.
pub open spec fn is_success_record(r: UsageRecord, s: ChatView, document: JsonValue) -> bool {
    &&& r.user_id == Some(s.user_id)
    &&& r.model_alias matches Some(m) && m@ == s.model
    &&& (r.prompt_tokens, r.completion_tokens, r.total_tokens) == counts_of(usage_in(document))
    &&& r.latency_ms == Some(s.elapsed_ms as i64)
    &&& r.status@ == "success"@
    &&& r.error_message is None
}

/// The action and state after `e`. A failure whose usage log was being written is
/// answered with its status and text, whatever the log gave. Otherwise a failure
/// that `logs_failure` covers is first written to the usage log as an error, and
/// any other failure is answered at once; an event without failure moves the
/// completion to the next stage, and after the usage log of a success was written
/// it is answered with 200 and the processed body.
pub open spec fn step_spec(s: ChatView, e: ChatEvent, a: ChatAction, t: ChatView) -> bool {
    match s.pending {
        Some(f) => {
            &&& t == ChatView { stage: ChatStage::Answered, ..s }
            &&& a matches ChatAction::Reply { status, body } && status == failure_status(f) && body@
                == failure_text(f)
        },
        None => match failure_of(s, e) {
            Some(f) => if logs_failure(e) {
                &&& t == ChatView { stage: ChatStage::Logging, pending: Some(f), ..s }
                &&& a matches ChatAction::WriteUsageLog(r) && is_error_record(
                    r,
                    s.user_id,
                    s.model,
                    f,
                )
            } else {
                &&& t == ChatView { stage: ChatStage::Answered, ..s }
                &&& a matches ChatAction::Reply { status, body } && status == failure_status(f)
                    && body@ == failure_text(f)
            },
            None => {
                &&& t.stage == next_stage(s.stage)
                &&& t.user_id == s.user_id
                &&& t.model == s.model
                &&& match e {
                    ChatEvent::StoreOpened => a matches ChatAction::FindBackend(m) && m@ == s.model
                        && t == ChatView { stage: t.stage, ..s },
                    ChatEvent::BackendFound => a == ChatAction::PrepareRequest && t == ChatView {
                        stage: t.stage,
                        ..s
                    },
                    ChatEvent::Prepared => a == ChatAction::SendRequest && t == ChatView {
                        stage: t.stage,
                        ..s
                    },
                    ChatEvent::Answered { status, elapsed_ms } => a == ChatAction::ReadBody && t
                        == ChatView { stage: t.stage, status, elapsed_ms, ..s },
                    ChatEvent::BodyRead(b) => a matches ChatAction::ParseChunks(evs) && evs@.map_values(
                        |ev: StreamEvent| event_view(ev),
                    ) == stream_events_spec(b@) && t == ChatView { stage: t.stage, body: b@, ..s },
                    ChatEvent::ChunksParsed(cs) => decode_step(s, cs@, a, t),
                    ChatEvent::Logged => a matches ChatAction::Reply { status, body } && status
                        == 200 && body@ == s.processed && t == ChatView { stage: t.stage, ..s },
                    _ => false,
                }
            },
        },
    }
}

impl ChatFlow {
    /// A completion for `user_id` on the model alias `model`, for a user whose
    /// allowed backends are `allowed_backends` (a comma-separated list of aliases;
    /// every backend when unset). Its first step is to open the store.
    pub fn new(user_id: i64, model: String, allowed_backends: Option<String>) -> (r: (
        ChatFlow,
        ChatAction,
    ))
        ensures
            r.0@.stage == ChatStage::OpeningStore,
            r.0@.user_id == user_id,
            r.0@.model == model@,
            r.0@.allowed == model_allowed(opt_text(allowed_backends), model@),
            r.0@.status == 0,
            r.0@.elapsed_ms == 0,
            r.0@.body.len() == 0,
            r.0@.processed.len() == 0,
            r.0@.pending is None,
            flow_wf(r.0@),
            r.1 == ChatAction::OpenStore,
    {
        let allowed = model_allowed_exec(&allowed_backends, &model);
        (
            ChatFlow {
                stage: ChatStage::OpeningStore,
                user_id,
                model,
                allowed,
                status: 0,
                elapsed_ms: 0,
                body: String::new(),
                processed: String::new(),
                pending: None,
            },
            ChatAction::OpenStore,
        )
    }

    /// Where the completion stands.
    pub fn stage(&self) -> (r: ChatStage)
        ensures
            r == self@.stage,
    {
        self.stage
    }

    /// Takes the outcome of the step the stage waits for and gives the next action.
    pub fn step(&mut self, e: ChatEvent) -> (a: ChatAction)
        requires
            event_fits(old(self)@, e),
        ensures
            step_spec(old(self)@, e, a, final(self)@),
    {
        match &self.pending {
            Some(f) => {
                let status = f.status_code();
                let body = f.message();
                self.stage = ChatStage::Answered;
                return ChatAction::Reply { status, body };
            },
            None => {},
        }
        let logs = match &e {
            ChatEvent::StoreFailed(_) => false,
            ChatEvent::LogFailed(_) => false,
            _ => true,
        };
        let failure = match &e {
            ChatEvent::StoreOpened => if self.allowed {
                None
            } else {
                Some(ChatFailure::ModelNotAllowed)
            },
            ChatEvent::StoreFailed(d) => Some(ChatFailure::Database(d.clone())),
            ChatEvent::BackendMissing => Some(ChatFailure::ModelNotFound),
            ChatEvent::BackendLookupFailed(d) => Some(ChatFailure::BackendLookup(d.clone())),
            ChatEvent::PrepareFailed(d) => Some(ChatFailure::PrepareRequest(d.clone())),
            ChatEvent::SendFailed(d) => Some(ChatFailure::BackendConnect(d.clone())),
            ChatEvent::ReadFailed(d) => Some(ChatFailure::BackendRead(d.clone())),
            ChatEvent::BodyRead(b) => if self.status >= 400 {
                Some(ChatFailure::BackendStatus { status: self.status, body: b.clone() })
            } else {
                None
            },
            ChatEvent::LogFailed(d) => Some(ChatFailure::UsageLog(d.clone())),
            _ => None,
        };
        match failure {
            Some(f) => {
                if logs {
                    let record = error_usage_record(self.user_id, &self.model, &f);
                    self.stage = ChatStage::Logging;
                    self.pending = Some(f);
                    return ChatAction::WriteUsageLog(record);
                } else {
                    self.stage = ChatStage::Answered;
                    return ChatAction::Reply { status: f.status_code(), body: f.message() };
                }
            },
            None => {},
        }
        match e {
            ChatEvent::StoreOpened => {
                self.stage = ChatStage::FindingBackend;
                ChatAction::FindBackend(self.model.clone())
            },
            ChatEvent::BackendFound => {
                self.stage = ChatStage::Preparing;
                ChatAction::PrepareRequest
            },
            ChatEvent::Prepared => {
                self.stage = ChatStage::Sending;
                ChatAction::SendRequest
            },
            ChatEvent::Answered { status, elapsed_ms } => {
                self.stage = ChatStage::Reading;
                self.status = status;
                self.elapsed_ms = elapsed_ms;
                ChatAction::ReadBody
            },
            ChatEvent::BodyRead(b) => {
                let events = stream_events(b.as_str());
                self.stage = ChatStage::Decoding;
                self.body = b;
                ChatAction::ParseChunks(events)
            },
            ChatEvent::ChunksParsed(cs) => {
                let ghost s = self@;
                let events = stream_events(self.body.as_str());
                let outcomes = decode_events(&events, cs);
                let processed = process_backend_response(self.body.as_str(), &outcomes);
                assert(processed_from(s.body, outcomes@, processed@));
                self.stage = ChatStage::Logging;
                match parse_json(processed.as_str()) {
                    Ok(document) => {
                        let provider = OpenAIProvider::new();
                        let usage = provider.parse_usage(&document);
                        let record = success_usage_record(
                            self.user_id,
                            &self.model,
                            &usage,
                            self.elapsed_ms,
                        );
                        self.processed = processed;
                        ChatAction::WriteUsageLog(record)
                    },
                    Err(m) => {
                        let f = ChatFailure::ProcessedParse(m);
                        let record = error_usage_record(self.user_id, &self.model, &f);
                        self.pending = Some(f);
                        ChatAction::WriteUsageLog(record)
                    },
                }
            },
            ChatEvent::Logged => {
                self.stage = ChatStage::Answered;
                ChatAction::Reply { status: 200, body: self.processed.clone() }
            },
            _ => {
                // Every other event reports a failure, handled above.
                self.stage = ChatStage::Answered;
                ChatAction::Reply { status: 500, body: String::new() }
            },
        }
    }
}

/// A completion only moves forward, and is answered with 200 only once the usage
/// log of its success was written: a reply of 200 comes from the logging stage on
/// `Logged` with no failure pending, and a reply with any other status answers a
/// failure, reported now or pending.
pub proof fn law_chat_moves_forward_and_succeeds_after_logging(
    s: ChatView,
    e: ChatEvent,
    a: ChatAction,
    t: ChatView,
)
    requires
        event_fits(s, e),
        flow_wf(s),
        step_spec(s, e, a, t),
    ensures
        stage_rank(t.stage) > stage_rank(s.stage),
        flow_wf(t),
        (a matches ChatAction::Reply { status, body: _ } && status == 200) ==> s.stage
            == ChatStage::Logging && e is Logged && s.pending is None && t.stage
            == ChatStage::Answered,
        (a matches ChatAction::Reply { status, body: _ } && status != 200) ==> (failure_of(s, e) is Some
            || s.pending is Some),
        a is Reply <==> t.stage == ChatStage::Answered,
{
    lemma_failure_status_is_not_200(s, e);
}

/// Every failure answered is an error: its status is not 200.
proof fn lemma_failure_status_is_not_200(s: ChatView, e: ChatEvent)
    ensures
        failure_of(s, e) matches Some(f) ==> failure_status(f) != 200,
        s.pending matches Some(f) ==> failure_status(f) != 200,
{
    match failure_of(s, e) {
        Some(f) => {
            match f {
                ChatFailure::BackendStatus { status, body: _ } => {
                    assert(crate::proxy::passed_status(status) >= 400);
                },
                _ => {},
            }
        },
        None => {},
    }
    match s.pending {
        Some(f) => {
            match f {
                ChatFailure::BackendStatus { status, body: _ } => {
                    assert(status >= 400 ==> crate::proxy::passed_status(status) >= 400);
                },
                _ => {},
            }
        },
        None => {},
    }
}

/// Every failure after the store was opened, other than the usage log failing, is
/// written to the usage log as an error (the user, the model, status `error` and
/// the failure's text) before it is answered; the next step answers it with its
/// own status and text whether or not the log could be written.
pub proof fn law_failures_are_logged_before_the_reply(
    s: ChatView,
    e: ChatEvent,
    a: ChatAction,
    t: ChatView,
    e2: ChatEvent,
    a2: ChatAction,
    t2: ChatView,
)
    requires
        event_fits(s, e),
        s.pending is None,
        failure_of(s, e) is Some,
        logs_failure(e),
        step_spec(s, e, a, t),
        event_fits(t, e2),
        step_spec(t, e2, a2, t2),
    ensures
        a matches ChatAction::WriteUsageLog(r) && is_error_record(
            r,
            s.user_id,
            s.model,
            failure_of(s, e)->0,
        ),
        t.stage == ChatStage::Logging,
        a2 matches ChatAction::Reply { status, body } && status == failure_status(failure_of(s, e)->0)
            && body@ == failure_text(failure_of(s, e)->0),
        t2.stage == ChatStage::Answered,
{
}

/// A model outside the user's allowed backends is never looked up, prepared or
/// sent: from a well-formed state of such a completion no step asks for it, and
/// the state stays well-formed.
pub proof fn law_disallowed_model_is_never_sent(s: ChatView, e: ChatEvent, a: ChatAction, t: ChatView)
    requires
        event_fits(s, e),
        flow_wf(s),
        !s.allowed,
        step_spec(s, e, a, t),
    ensures
        flow_wf(t),
        !t.allowed,
        !(a is FindBackend),
        !(a is PrepareRequest),
        !(a is SendRequest),
        !(a is ReadBody),
{
}

} // verus!
