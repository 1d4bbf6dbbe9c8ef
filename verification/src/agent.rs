//! The generate-and-log run: one timed request to the generation service,
//! and one audit record of it in the store.
//!
//! The run is a state machine. Whoever drives it hands over what happened
//! outside, as an [`Event`], and is told what to do next, as an [`Action`]:
//! send the request, append the record, or hand back the result. The machine
//! never sends anything twice, and every failure ends the run.

use crate::api::{
    generate_request, generated, generation_post, HttpPost, HttpPostView, ProbeOutcome,
    ReplyOutcome, ReplyOutcomeView, probed,
};
use crate::database::{
    appended, AIRequest, AIRequestView, AIResponse, AIResponseView, Database, DatabaseView,
    GenerationStats, InsertOutcome, InsertOutcomeView,
};
use crate::error::{
    result_view, GenerationError, GenerationErrorView, HealthError, OrchestratorError,
    OrchestratorErrorView, StoreError,
};
use crate::timing::{elapsed_nanos, is_timestamp, Instant, Timestamp, TimestampView};
use vstd::prelude::*;
use vstd::string::*;

verus! {

/// How far a run has come.
#[derive(Debug, PartialEq, Eq)]
pub enum Generation {
    /// Nothing has been sent yet.
    Start { store: Database, base_url: String, prompt: String, max_length: u32 },
    /// The request is on its way; `started` is the clock reading taken just
    /// before it left.
    Sent { store: Database, prompt: String, max_length: u32, started: Instant },
    /// A text was generated and its record is on its way to the store.
    Generated { store: Database, record: AIRequest },
    /// The record is stored; the run gave its text.
    Done { record: AIRequest },
    /// No text was generated. Nothing was handed to the store.
    GenerationFailed(GenerationError),
    /// A text was generated, but the store did not take its record.
    PersistFailed(StoreError),
}

/// The view of [`Generation`]: the same value with every text as a sequence of
/// characters.
pub enum GenerationView {
    Start { store: DatabaseView, base_url: Seq<char>, prompt: Seq<char>, max_length: u32 },
    Sent { store: DatabaseView, prompt: Seq<char>, max_length: u32, started: Instant },
    Generated { store: DatabaseView, record: AIRequestView },
    Done { record: AIRequestView },
    GenerationFailed(GenerationErrorView),
    PersistFailed(Seq<char>),
}

impl View for Generation {
    type V = GenerationView;

    open spec fn view(&self) -> GenerationView {
        match self {
            Generation::Start { store, base_url, prompt, max_length } => GenerationView::Start {
                store: store@,
                base_url: base_url@,
                prompt: prompt@,
                max_length: *max_length,
            },
            Generation::Sent { store, prompt, max_length, started } => GenerationView::Sent {
                store: store@,
                prompt: prompt@,
                max_length: *max_length,
                started: *started,
            },
            Generation::Generated { store, record } => GenerationView::Generated {
                store: store@,
                record: record@,
            },
            Generation::Done { record } => GenerationView::Done { record: record@ },
            Generation::GenerationFailed(error) => GenerationView::GenerationFailed(error@),
            Generation::PersistFailed(error) => GenerationView::PersistFailed(error@),
        }
    }
}

/// What happened outside the machine.
#[derive(Debug, PartialEq, Eq)]
pub enum Event {
    /// The run may begin; `at` is the clock reading of this moment.
    Begin { at: Instant },
    /// The generation request has come to an end. `at` is the clock reading
    /// taken as soon as the answer was in, `created` the moment after, in
    /// which a record of the answer is made.
    Replied { reply: ReplyOutcome, at: Instant, created: Timestamp },
    /// The insert has come to an end.
    Stored { outcome: InsertOutcome },
}

/// The view of [`Event`]: the same value with every text as a sequence of
/// characters.
pub enum EventView {
    Begin { at: Instant },
    Replied { reply: ReplyOutcomeView, at: Instant, created: TimestampView },
    Stored { outcome: InsertOutcomeView },
}

impl View for Event {
    type V = EventView;

    open spec fn view(&self) -> EventView {
        match self {
            Event::Begin { at } => EventView::Begin { at: *at },
            Event::Replied { reply, at, created } => EventView::Replied {
                reply: reply@,
                at: *at,
                created: created@,
            },
            Event::Stored { outcome } => EventView::Stored { outcome: outcome@ },
        }
    }
}

/// What is to be done outside the machine.
#[derive(Debug, PartialEq, Eq)]
pub enum Action {
    /// Send this request to the generation service, then report `Replied`.
    Post(HttpPost),
    /// Insert this record into the named collection, then report `Stored`.
    Append { db_name: String, collection_name: String, record: AIRequest },
    /// The run is over; this is its result.
    Return(Result<String, OrchestratorError>),
    /// The event was not the awaited one. Nothing is to be done.
    Wait,
}

/// The view of [`Action`]: the same value with every text as a sequence of
/// characters.
pub enum ActionView {
    Post(HttpPostView),
    Append { db_name: Seq<char>, collection_name: Seq<char>, record: AIRequestView },
    Return(Result<Seq<char>, OrchestratorErrorView>),
    Wait,
}

impl View for Action {
    type V = ActionView;

    open spec fn view(&self) -> ActionView {
        match self {
            Action::Post(post) => ActionView::Post(post@),
            Action::Append { db_name, collection_name, record } => ActionView::Append {
                db_name: db_name@,
                collection_name: collection_name@,
                record: record@,
            },
            Action::Return(result) => ActionView::Return(result_view(*result)),
            Action::Wait => ActionView::Wait,
        }
    }
}

impl EventView {
    /// What holds of every event: the moment in which a record is made has
    /// its own text.
    pub open spec fn wf(self) -> bool {
        self matches EventView::Replied { created, .. } ==> created.wf()
    }
}

/// The record of a generation, as it is made before the store has seen it:
/// without an identifier, with the prompt echoed beside the text and with the
/// time that the service took.
pub open spec fn audit_record(
    timestamp: Seq<char>,
    prompt: Seq<char>,
    max_length: u32,
    text: Seq<char>,
    generation_time_nanos: u64,
) -> AIRequestView {
    AIRequestView {
        id: None,
        timestamp,
        prompt,
        max_length,
        response: AIResponseView {
            prompt,
            response: text,
            stats: GenerationStats { generation_time_nanos },
        },
    }
}

impl GenerationView {
    /// Whether the run is over.
    pub open spec fn is_terminal(self) -> bool {
        self is Done || self is GenerationFailed || self is PersistFailed
    }

    /// What holds of every state that a run passes through: a record on its
    /// way to the store has no identifier yet, a stored one has, and each
    /// echoes its own prompt and is stamped with an instant.
    pub open spec fn wf(self) -> bool {
        match self {
            GenerationView::Generated { record, .. } => {
                &&& record.id is None
                &&& record.response.prompt == record.prompt
                &&& is_timestamp(record.timestamp)
            },
            GenerationView::Done { record } => {
                &&& record.id is Some
                &&& record.response.prompt == record.prompt
                &&& is_timestamp(record.timestamp)
            },
            _ => true,
        }
    }

    /// The result of a run that is over.
    pub open spec fn outcome(self) -> Option<Result<Seq<char>, OrchestratorErrorView>> {
        match self {
            GenerationView::Done { record } => Some(Ok(record.response.response)),
            GenerationView::GenerationFailed(error) => Some(
                Err(OrchestratorErrorView::Generation(error)),
            ),
            GenerationView::PersistFailed(error) => Some(
                Err(OrchestratorErrorView::Persist(error)),
            ),
            _ => None,
        }
    }

    /// The identifier under which the run's record is stored, if it is.
    pub open spec fn identifier(self) -> Option<[u8; 12]> {
        match self {
            GenerationView::Done { record } => record.id,
            _ => None,
        }
    }
}

/// The step of the machine: from a state and an event to the next state and
/// the action that it asks for.
///
/// Each state awaits one event. A run that is over answers every event with
/// its result again; before that, an event that is not the awaited one
/// changes nothing.
pub open spec fn transition(state: GenerationView, event: EventView) -> (
    GenerationView,
    ActionView,
) {
    match state {
        GenerationView::Start { store, base_url, prompt, max_length } => match event {
            EventView::Begin { at } => (
                GenerationView::Sent { store, prompt, max_length, started: at },
                ActionView::Post(generation_post(base_url, prompt, max_length)),
            ),
            _ => (state, ActionView::Wait),
        },
        GenerationView::Sent { store, prompt, max_length, started } => match event {
            EventView::Replied { reply, at, created } => match generated(reply) {
                Ok(text) => {
                    let record = audit_record(
                        created.text,
                        prompt,
                        max_length,
                        text,
                        elapsed_nanos(started, at),
                    );
                    (
                        GenerationView::Generated { store, record },
                        ActionView::Append {
                            db_name: store.db_name,
                            collection_name: store.collection_name,
                            record,
                        },
                    )
                },
                Err(error) => (
                    GenerationView::GenerationFailed(error),
                    ActionView::Return(Err(OrchestratorErrorView::Generation(error))),
                ),
            },
            _ => (state, ActionView::Wait),
        },
        GenerationView::Generated { store, record } => match event {
            EventView::Stored { outcome } => match appended(record, outcome) {
                Ok(stored) => (
                    GenerationView::Done { record: stored },
                    ActionView::Return(Ok(stored.response.response)),
                ),
                Err(cause) => (
                    GenerationView::PersistFailed(cause),
                    ActionView::Return(Err(OrchestratorErrorView::Persist(cause))),
                ),
            },
            _ => (state, ActionView::Wait),
        },
        GenerationView::Done { record } => (state, ActionView::Return(Ok(record.response.response))),
        GenerationView::GenerationFailed(error) => (
            state,
            ActionView::Return(Err(OrchestratorErrorView::Generation(error))),
        ),
        GenerationView::PersistFailed(error) => (
            state,
            ActionView::Return(Err(OrchestratorErrorView::Persist(error))),
        ),
    }
}

/// Settles the liveness probe, as the client does. The run does not ask for
/// it: a run may begin whether or not the service was probed.
pub fn check_health(outcome: ProbeOutcome) -> (result: Result<(), HealthError>)
    ensures
        result_view(result) == probed(outcome@),
{
    crate::api::check_health(outcome)
}

impl Generation {
    /// A run that has not begun: `prompt` is to be sent to the service at
    /// `base_url`, with `max_length` bounding the output, and the record of
    /// it is to go to `store`.
    pub fn new(store: &Database, base_url: &str, prompt: &str, max_length: u32) -> (state:
        Generation)
        ensures
            state@ == (GenerationView::Start {
                store: store@,
                base_url: base_url@,
                prompt: prompt@,
                max_length,
            }),
            state@.wf(),
    {
        Generation::Start {
            store: store.clone(),
            base_url: String::from_str(base_url),
            prompt: String::from_str(prompt),
            max_length,
        }
    }

    /// Whether the run is over.
    pub fn is_finished(&self) -> (over: bool)
        ensures
            over == self@.is_terminal(),
    {
        match self {
            Generation::Done { .. } => true,
            Generation::GenerationFailed(_) => true,
            Generation::PersistFailed(_) => true,
            _ => false,
        }
    }
}

/// Makes the record of a generation that succeeded.
fn new_record(
    timestamp: String,
    prompt: String,
    max_length: u32,
    text: String,
    generation_time_nanos: u64,
) -> (record: AIRequest)
    ensures
        record@ == audit_record(timestamp@, prompt@, max_length, text@, generation_time_nanos),
{
    let echo = prompt.clone();
    AIRequest {
        _id: None,
        timestamp,
        prompt,
        max_length,
        response: AIResponse {
            prompt: echo,
            response: text,
            stats: GenerationStats { generation_time_nanos },
        },
    }
}

/// Takes the run one step on: hands back the state that follows `state` on
/// `event`, and what is to be done now.
///
/// A record that is handed to the store is stamped with an instant, and a
/// run that was well-formed stays so.
pub fn generate_text(state: Generation, event: Event) -> (next: (Generation, Action))
    ensures
        (next.0@, next.1@) == transition(state@, event@),
        next.1@ matches ActionView::Append { record, .. } ==> is_timestamp(record.timestamp),
        state@.wf() ==> next.0@.wf(),
{
    proof {
        if let Event::Replied { created, .. } = &event {
            use_type_invariant(created);
        }
    }
    match state {
        Generation::Start { store, base_url, prompt, max_length } => match event {
            Event::Begin { at } => {
                let post = generate_request(base_url.as_str(), prompt.as_str(), max_length);
                (Generation::Sent { store, prompt, max_length, started: at }, Action::Post(post))
            },
            _ => (Generation::Start { store, base_url, prompt, max_length }, Action::Wait),
        },
        Generation::Sent { store, prompt, max_length, started } => match event {
            Event::Replied { reply, at, created } => match crate::api::generate_text(reply) {
                Ok(text) => {
                    let record = new_record(
                        created.into_text(),
                        prompt,
                        max_length,
                        text,
                        started.elapsed_until(at),
                    );
                    let action = Action::Append {
                        db_name: String::from_str(store.db_name()),
                        collection_name: String::from_str(store.collection_name()),
                        record: record.clone(),
                    };
                    (Generation::Generated { store, record }, action)
                },
                Err(error) => {
                    let report = OrchestratorError::Generation(error.clone());
                    (Generation::GenerationFailed(error), Action::Return(Err(report)))
                },
            },
            _ => (Generation::Sent { store, prompt, max_length, started }, Action::Wait),
        },
        Generation::Generated { store, record } => match event {
            Event::Stored { outcome } => match store.log_request(record, outcome) {
                Ok(stored) => {
                    let text = stored.response.response.clone();
                    (Generation::Done { record: stored }, Action::Return(Ok(text)))
                },
                Err(error) => {
                    let report = OrchestratorError::Persist(error.clone());
                    (Generation::PersistFailed(error), Action::Return(Err(report)))
                },
            },
            _ => (Generation::Generated { store, record }, Action::Wait),
        },
        Generation::Done { record } => {
            let text = record.response.response.clone();
            (Generation::Done { record }, Action::Return(Ok(text)))
        },
        Generation::GenerationFailed(error) => {
            let report = OrchestratorError::Generation(error.clone());
            (Generation::GenerationFailed(error), Action::Return(Err(report)))
        },
        Generation::PersistFailed(error) => {
            let report = OrchestratorError::Persist(error.clone());
            (Generation::PersistFailed(error), Action::Return(Err(report)))
        },
    }
}

} // verus!
