//! Whole runs of the generate-and-log machine, and what holds of every one
//! of them.

use crate::agent::{audit_record, transition, ActionView, EventView, GenerationView};
use crate::api::{generated, generation_post, response_key, text_or_stand_in, ReplyOutcomeView};
use crate::database::InsertOutcomeView;
use crate::error::OrchestratorErrorView;
use crate::json::json_text_member;
use crate::timing::{elapsed_nanos, is_timestamp, Instant, TimestampView};
use vstd::prelude::*;

verus! {

/// The state that a run reaches from `state` over `events`.
pub open spec fn run(state: GenerationView, events: Seq<EventView>) -> GenerationView
    decreases events.len(),
{
    if events.len() == 0 {
        state
    } else {
        run(transition(state, events.first()).0, events.drop_first())
    }
}

/// The actions that a run from `state` asks for, one for each of `events`.
pub open spec fn actions(state: GenerationView, events: Seq<EventView>) -> Seq<ActionView>
    decreases events.len(),
{
    if events.len() == 0 {
        Seq::empty()
    } else {
        seq![transition(state, events.first()).1] + actions(
            transition(state, events.first()).0,
            events.drop_first(),
        )
    }
}

/// Every event is answered with one action.
pub proof fn lemma_one_action_per_event(state: GenerationView, events: Seq<EventView>)
    ensures
        actions(state, events).len() == events.len(),
    decreases events.len(),
{
    if events.len() > 0 {
        lemma_one_action_per_event(transition(state, events.first()).0, events.drop_first());
    }
}

/// A run never leaves the well-formed states.
pub proof fn lemma_run_keeps_wf(state: GenerationView, events: Seq<EventView>)
    requires
        state.wf(),
        forall|i: int| 0 <= i < events.len() ==> (#[trigger] events[i]).wf(),
    ensures
        run(state, events).wf(),
    decreases events.len(),
{
    if events.len() > 0 {
        lemma_run_keeps_wf(transition(state, events.first()).0, events.drop_first());
    }
}

/// A record that is handed to the store is stamped with the moment in which
/// it was made, written down as an ISO-8601 instant.
pub proof fn lemma_record_is_stamped(state: GenerationView, event: EventView)
    requires
        event.wf(),
        transition(state, event).1 is Append,
    ensures
        transition(state, event).1->Append_record.timestamp == event->created.text,
        is_timestamp(transition(state, event).1->Append_record.timestamp),
{
}

/// A run that is over stays as it is: whatever is reported to it, the state
/// does not change and the answer is the result of the run.
pub proof fn lemma_finished_run_is_final(state: GenerationView, events: Seq<EventView>)
    requires
        state.is_terminal(),
    ensures
        run(state, events) == state,
        actions(state, events).len() == events.len(),
        forall|i: int|
            0 <= i < events.len() ==> #[trigger] actions(state, events)[i] == ActionView::Return(
                state.outcome()->0,
            ),
    decreases events.len(),
{
    if events.len() > 0 {
        lemma_finished_run_is_final(state, events.drop_first());
    }
}

/// A record is handed to the store by one step only: the one that takes the
/// answer of the service and finds a text in it.
pub proof fn lemma_append_follows_generation(state: GenerationView, event: EventView)
    ensures
        transition(state, event).1 is Append <==> (state is Sent && event is Replied && generated(
            event->reply,
        ) is Ok),
{
}

/// Once a record is on its way to the store, or the run is over, no record is
/// handed to the store any more.
pub proof fn lemma_no_append_after_generation(state: GenerationView, events: Seq<EventView>)
    requires
        state is Generated || state.is_terminal(),
    ensures
        forall|i: int|
            0 <= i < actions(state, events).len() ==> !(#[trigger] actions(state, events)[i]
                is Append),
    decreases events.len(),
{
    if events.len() > 0 {
        lemma_no_append_after_generation(
            transition(state, events.first()).0,
            events.drop_first(),
        );
    }
}

/// Where the generation fails, no record is ever handed to the store: not
/// before the failure is known, not by the step that takes it, and not by
/// any step after it. `at` is the place of the first answer that is reported
/// to a run whose request is on its way.
pub proof fn lemma_failed_generation_appends_nothing(
    state: GenerationView,
    events: Seq<EventView>,
    at: int,
)
    requires
        state is Sent,
        0 <= at < events.len(),
        forall|j: int| 0 <= j < at ==> !(#[trigger] events[j] is Replied),
        events[at] is Replied,
        generated(events[at]->reply) is Err,
    ensures
        run(state, events) == GenerationView::GenerationFailed(generated(events[at]->reply)->Err_0),
        forall|i: int|
            0 <= i < actions(state, events).len() ==> !(#[trigger] actions(state, events)[i]
                is Append),
    decreases events.len(),
{
    let rest = events.drop_first();
    let next = transition(state, events.first()).0;
    if at == 0 {
        lemma_finished_run_is_final(next, rest);
        lemma_no_append_after_generation(next, rest);
    } else {
        lemma_failed_generation_appends_nothing(state, rest, at - 1);
    }
}

/// A request is sent by one step only: the one that begins the run.
pub proof fn lemma_post_begins_the_run(state: GenerationView, event: EventView)
    ensures
        transition(state, event).1 is Post <==> (state is Start && event is Begin),
{
}

/// Once the request is on its way, no request is sent any more.
pub proof fn lemma_no_post_after_begin(state: GenerationView, events: Seq<EventView>)
    requires
        !(state is Start),
    ensures
        forall|i: int|
            0 <= i < actions(state, events).len() ==> !(#[trigger] actions(state, events)[i]
                is Post),
    decreases events.len(),
{
    if events.len() > 0 {
        lemma_no_post_after_begin(transition(state, events.first()).0, events.drop_first());
    }
}

/// No run sends its request twice: nothing is tried again.
pub proof fn lemma_at_most_one_post(state: GenerationView, events: Seq<EventView>)
    ensures
        forall|i: int, j: int|
            0 <= i < j < actions(state, events).len() ==> !(#[trigger] actions(state, events)[i]
                is Post && #[trigger] actions(state, events)[j] is Post),
    decreases events.len(),
{
    if events.len() > 0 {
        let rest = events.drop_first();
        let next = transition(state, events.first()).0;
        lemma_at_most_one_post(next, rest);
        if transition(state, events.first()).1 is Post {
            lemma_no_post_after_begin(next, rest);
        }
    }
}

/// No run hands a record to the store twice.
pub proof fn lemma_at_most_one_append(state: GenerationView, events: Seq<EventView>)
    ensures
        forall|i: int, j: int|
            0 <= i < j < actions(state, events).len() ==> !(#[trigger] actions(state, events)[i]
                is Append && #[trigger] actions(state, events)[j] is Append),
    decreases events.len(),
{
    if events.len() > 0 {
        let rest = events.drop_first();
        let next = transition(state, events.first()).0;
        lemma_at_most_one_append(next, rest);
        if transition(state, events.first()).1 is Append {
            lemma_no_append_after_generation(next, rest);
        }
    }
}

/// Whether `event` is an answer of the service in which `text` is what was
/// generated: the text under the response key of its body, or the stand-in
/// where the body is a document without a text there.
pub open spec fn answers_with(event: EventView, text: Seq<char>) -> bool {
    &&& event matches EventView::Replied { reply: ReplyOutcomeView::Body(body), .. }
    &&& json_text_member(body, response_key()) matches Ok(member)
    &&& text == text_or_stand_in(member)
}

/// The text that a run returns once a text has been generated is the text in
/// its record.
proof fn lemma_recorded_text_is_returned(state: GenerationView, events: Seq<EventView>, i: int)
    requires
        state is Generated || state is Done,
        0 <= i < actions(state, events).len(),
        actions(state, events)[i] matches ActionView::Return(Ok(_)),
    ensures
        state matches GenerationView::Generated { record, .. } ==> actions(
            state,
            events,
        )[i]->Return_0->Ok_0 == record.response.response,
        state matches GenerationView::Done { record } ==> actions(
            state,
            events,
        )[i]->Return_0->Ok_0 == record.response.response,
    decreases events.len(),
{
    if i > 0 {
        let rest = events.drop_first();
        let next = transition(state, events.first()).0;
        if next is Generated || next is Done {
            lemma_recorded_text_is_returned(next, rest, i - 1);
        } else {
            lemma_finished_run_is_final(next, rest);
        }
    }
}

/// Whatever is reported to a run, and in whatever order: a text that the run
/// returns is what the service generated, word for word. It is the text under
/// the response key of an answer that was reported before, or the stand-in
/// where that answer holds no text there.
pub proof fn lemma_returned_text_is_the_response(
    state: GenerationView,
    events: Seq<EventView>,
    i: int,
)
    requires
        state is Start || state is Sent,
        0 <= i < actions(state, events).len(),
        actions(state, events)[i] matches ActionView::Return(Ok(_)),
    ensures
        exists|k: int|
            0 <= k < i && k < events.len() && answers_with(
                #[trigger] events[k],
                actions(state, events)[i]->Return_0->Ok_0,
            ),
    decreases events.len(),
{
    let text = actions(state, events)[i]->Return_0->Ok_0;
    let rest = events.drop_first();
    let next = transition(state, events.first()).0;
    lemma_one_action_per_event(state, events);
    lemma_one_action_per_event(next, rest);
    if next is Start || next is Sent {
        lemma_returned_text_is_the_response(next, rest, i - 1);
        let k = choose|k: int|
            0 <= k < i - 1 && k < rest.len() && answers_with(#[trigger] rest[k], text);
        assert(answers_with(events[k + 1], text));
    } else if next is Generated {
        lemma_recorded_text_is_returned(next, rest, i - 1);
        assert(answers_with(events[0], text));
    } else {
        lemma_finished_run_is_final(next, rest);
    }
}

/// A run that goes well returns what the service generated: the text under
/// the response key of the answer, word for word, or the stand-in where the
/// answer holds no text there. On the way it sends one request and hands one
/// record to the store.
pub proof fn lemma_successful_run_returns_the_response(
    state: GenerationView,
    begun: Instant,
    body: Seq<u8>,
    answered: Instant,
    created: TimestampView,
    id: [u8; 12],
)
    requires
        state is Start,
        json_text_member(body, response_key()) is Ok,
    ensures
        ({
            let events = seq![
                EventView::Begin { at: begun },
                EventView::Replied {
                    reply: ReplyOutcomeView::Body(body),
                    at: answered,
                    created,
                },
                EventView::Stored { outcome: InsertOutcomeView::Inserted(id) },
            ];
            let text = text_or_stand_in(json_text_member(body, response_key())->Ok_0);
            let record = audit_record(
                created.text,
                state->Start_prompt,
                state->Start_max_length,
                text,
                elapsed_nanos(begun, answered),
            );
            &&& actions(state, events) == seq![
                ActionView::Post(
                    generation_post(
                        state->Start_base_url,
                        state->Start_prompt,
                        state->Start_max_length,
                    ),
                ),
                ActionView::Append {
                    db_name: state->Start_store.db_name,
                    collection_name: state->Start_store.collection_name,
                    record,
                },
                ActionView::Return(Ok(text)),
            ]
            &&& run(state, events) == (GenerationView::Done { record: record.stored_as(id) })
        }),
{
    let first = EventView::Begin { at: begun };
    let second = EventView::Replied {
        reply: ReplyOutcomeView::Body(body),
        at: answered,
        created,
    };
    let third = EventView::Stored { outcome: InsertOutcomeView::Inserted(id) };
    let events = seq![first, second, third];
    let tail = events.drop_first();
    let last = tail.drop_first();
    assert(tail =~= seq![second, third]);
    assert(last =~= seq![third]);
    assert(last.drop_first() =~= Seq::<EventView>::empty());
    let sent = transition(state, first).0;
    let made = transition(sent, second).0;
    let done = transition(made, third).0;
    assert(actions(done, last.drop_first()) =~= Seq::<ActionView>::empty());
    assert(actions(made, last) =~= seq![transition(made, third).1]);
    assert(actions(sent, tail) =~= seq![transition(sent, second).1, transition(made, third).1]);
    assert(actions(state, events) =~= seq![
        transition(state, first).1,
        transition(sent, second).1,
        transition(made, third).1,
    ]);
    assert(run(done, last.drop_first()) == done);
    assert(run(made, last) == done);
    assert(run(sent, tail) == done);
    assert(run(state, events) == done);
}

/// Where the store does not take the record, the run ends with the store's
/// failure and the generated text is not returned; no identifier comes of the
/// run, then or later.
pub proof fn lemma_failed_append_reports_persist(
    state: GenerationView,
    cause: Seq<char>,
    later: Seq<EventView>,
)
    requires
        state is Generated,
    ensures
        ({
            let rejected = EventView::Stored { outcome: InsertOutcomeView::Rejected(cause) };
            let report = ActionView::Return(Err(OrchestratorErrorView::Persist(cause)));
            &&& transition(state, rejected) == (GenerationView::PersistFailed(cause), report)
            &&& run(state, seq![rejected] + later).identifier() is None
            &&& forall|i: int|
                0 <= i < actions(state, seq![rejected] + later).len() ==> #[trigger] actions(
                    state,
                    seq![rejected] + later,
                )[i] == report
        }),
{
    let rejected = EventView::Stored { outcome: InsertOutcomeView::Rejected(cause) };
    assert((seq![rejected] + later).drop_first() =~= later);
    lemma_finished_run_is_final(transition(state, rejected).0, later);
}

/// The time in a record is the time from the begin of the request to the
/// arrival of its answer, and nothing else: the store has no part in it,
/// whether it takes the record or not and however long it needs.
pub proof fn lemma_generation_time_spans_the_call_only(
    state: GenerationView,
    begun: Instant,
    reply: ReplyOutcomeView,
    answered: Instant,
    created: TimestampView,
    stored: InsertOutcomeView,
)
    requires
        state is Start,
        generated(reply) is Ok,
    ensures
        ({
            let sent = transition(state, EventView::Begin { at: begun }).0;
            let replied = transition(
                sent,
                EventView::Replied { reply, at: answered, created },
            );
            let settled = transition(replied.0, EventView::Stored { outcome: stored }).0;
            &&& replied.1 is Append
            &&& replied.1->Append_record.response.stats.generation_time_nanos == elapsed_nanos(
                begun,
                answered,
            )
            &&& replied.1->Append_record.response.stats.generation_time_nanos >= 0
            &&& settled matches GenerationView::Done { record }
                ==> record.response.stats.generation_time_nanos == elapsed_nanos(begun, answered)
        }),
{
}

} // verus!
