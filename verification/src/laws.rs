//! What holds of the relay whatever it is asked and told.

use crate::cache::Slot;
use crate::discord::ask_step;
use crate::discord::cache_of;
use crate::discord::ignored;
use crate::discord::log_step;
use crate::discord::resume_step;
use crate::discord::returned;
use crate::discord::RelayView;
use crate::discord::Step;
use crate::error::Failure;
use crate::protocol::has_remote_effect;
use crate::protocol::is_remote;
use crate::protocol::is_return;
use crate::protocol::ActionView;
use crate::protocol::BodyView;
use crate::protocol::CallView;
use crate::protocol::EventView;
use crate::protocol::Operation;
use crate::protocol::StageView;
use crate::text::question_message;
use crate::text::thread_title;
use vstd::prelude::*;

verus! {

/// The relay after `questions` were asked one after another while nothing
/// was reported back.
pub open spec fn relay_after_asks(relay: RelayView, questions: Seq<Seq<char>>) -> RelayView
    decreases questions.len(),
{
    if questions.len() == 0 {
        relay
    } else {
        ask_step(relay_after_asks(relay, questions.drop_last()), questions.last()).relay
    }
}

/// The first step of the `i`-th of `questions` that are asked one after
/// another while nothing is reported back.
pub open spec fn nth_ask(relay: RelayView, questions: Seq<Seq<char>>, i: int) -> Step {
    ask_step(relay_after_asks(relay, questions.take(i)), questions[i])
}

/// A call that is creating its thread or waiting for it, with `body` to
/// post.
pub open spec fn call_without_thread(
    operation: Operation,
    waiting: bool,
    body: BodyView,
) -> CallView {
    CallView {
        operation,
        stage: if waiting {
            StageView::Waiting(body)
        } else {
            StageView::Creating(body)
        },
    }
}

/// Asking only ever moves the question thread from empty to being created.
proof fn lemma_asks_after_first(relay: RelayView, questions: Seq<Seq<char>>)
    requires
        relay.ready,
        relay.thread == Slot::Creating,
    ensures
        relay_after_asks(relay, questions) == relay,
    decreases questions.len(),
{
    if questions.len() > 0 {
        lemma_asks_after_first(relay, questions.drop_last());
    }
}

/// The relay after some questions, the first of which found no thread.
proof fn lemma_relay_after_asks(relay: RelayView, questions: Seq<Seq<char>>)
    requires
        relay.ready,
        relay.thread == Slot::Empty,
    ensures
        relay_after_asks(relay, questions) == if questions.len() == 0 {
            relay
        } else {
            RelayView { thread: Slot::Creating, ..relay }
        },
    decreases questions.len(),
{
    if questions.len() > 0 {
        lemma_relay_after_asks(relay, questions.drop_last());
    }
}

/// Questions that arrive together create one thread. Of any number of
/// questions asked while no question thread exists and nothing is reported
/// back, the first has the thread created, under the configured channel and
/// titled after that question; every other waits for that creation, and
/// asks nothing of the platform.
pub proof fn lemma_first_asks_create_once(relay: RelayView, questions: Seq<Seq<char>>)
    requires
        relay.ready,
        relay.thread == Slot::Empty,
        questions.len() >= 1,
    ensures
        nth_ask(relay, questions, 0).action == (ActionView::CreateThread {
            parent: relay.channel_id,
            name: thread_title(questions[0]),
            archive: crate::protocol::Archive::OneDay,
        }),
        forall|i: int|
            1 <= i < questions.len() ==> #[trigger] nth_ask(relay, questions, i).action
                == ActionView::AwaitThread,
        forall|i: int|
            0 <= i < questions.len() ==> (has_remote_effect(
                #[trigger] nth_ask(relay, questions, i).action,
            ) <==> i == 0),
        relay_after_asks(relay, questions).thread == Slot::Creating,
{
    lemma_relay_after_asks(relay, questions);
    lemma_relay_after_asks(relay, questions.take(0));
    assert forall|i: int| 1 <= i < questions.len() implies #[trigger] nth_ask(
        relay,
        questions,
        i,
    ).action == ActionView::AwaitThread by {
        lemma_relay_after_asks(relay, questions.take(i));
    }
}

/// A call that has no thread yet and is told that the thread was created
/// as `id`.
pub struct Arrival {
    /// Whether the call was waiting for the creation, not creating.
    pub waiting: bool,
    /// What the call has to post.
    pub body: BodyView,
    /// The identifier that the call is told.
    pub id: u64,
}

/// An arrival as the call that arrives.
pub open spec fn arriving_call(operation: Operation, arrival: Arrival) -> CallView {
    call_without_thread(operation, arrival.waiting, arrival.body)
}

/// The relay after the calls of `arrivals` were told, one after another,
/// that the thread of `operation` was created.
pub open spec fn relay_after_arrivals(
    relay: RelayView,
    operation: Operation,
    arrivals: Seq<Arrival>,
) -> RelayView
    decreases arrivals.len(),
{
    if arrivals.len() == 0 {
        relay
    } else {
        resume_step(
            relay_after_arrivals(relay, operation, arrivals.drop_last()),
            arriving_call(operation, arrivals.last()),
            EventView::ThreadCreated(arrivals.last().id),
        ).relay
    }
}

/// The step of the `i`-th of the calls of `arrivals` that are told, one
/// after another, that the thread of `operation` was created.
pub open spec fn nth_arrival(
    relay: RelayView,
    operation: Operation,
    arrivals: Seq<Arrival>,
    i: int,
) -> Step {
    resume_step(
        relay_after_arrivals(relay, operation, arrivals.take(i)),
        arriving_call(operation, arrivals[i]),
        EventView::ThreadCreated(arrivals[i].id),
    )
}

/// The thread that calls are handed which are told that the thread was
/// created: the one that the relay has, or else the one that the first of
/// them reports.
pub open spec fn shared_thread(
    relay: RelayView,
    operation: Operation,
    arrivals: Seq<Arrival>,
) -> u64 {
    match cache_of(relay, operation) {
        Slot::Ready(thread) => thread,
        _ => arrivals[0].id,
    }
}

/// The relay keeps the thread of the first arrival.
proof fn lemma_relay_after_arrivals(relay: RelayView, operation: Operation, arrivals: Seq<Arrival>)
    requires
        arrivals.len() >= 1,
    ensures
        cache_of(relay_after_arrivals(relay, operation, arrivals), operation) == Slot::Ready(
            shared_thread(relay, operation, arrivals),
        ),
    decreases arrivals.len(),
{
    let earlier = arrivals.drop_last();
    if arrivals.len() > 1 {
        lemma_relay_after_arrivals(relay, operation, earlier);
        assert(earlier[0] == arrivals[0]);
    } else {
        assert(relay_after_arrivals(relay, operation, earlier) == relay);
    }
}

/// One thread for all. When any number of calls of one operation that have
/// no thread yet are told, one after another, that the thread was created,
/// each of them goes on to post what it has into the same thread, whatever
/// identifiers they are told, whichever of them was creating, and in
/// whatever order they go on: the thread that the relay had before, or else
/// the one that the first of them reports. The relay keeps that thread.
pub proof fn lemma_calls_share_thread(
    relay: RelayView,
    operation: Operation,
    arrivals: Seq<Arrival>,
)
    requires
        arrivals.len() >= 1,
    ensures
        forall|i: int|
            0 <= i < arrivals.len() ==> #[trigger] nth_arrival(relay, operation, arrivals, i).action
                == (ActionView::Send {
                thread: shared_thread(relay, operation, arrivals),
                body: arrivals[i].body,
            }),
        cache_of(relay_after_arrivals(relay, operation, arrivals), operation) == Slot::Ready(
            shared_thread(relay, operation, arrivals),
        ),
{
    lemma_relay_after_arrivals(relay, operation, arrivals);
    assert forall|i: int| 0 <= i < arrivals.len() implies #[trigger] nth_arrival(
        relay,
        operation,
        arrivals,
        i,
    ).action == (ActionView::Send {
        thread: shared_thread(relay, operation, arrivals),
        body: arrivals[i].body,
    }) by {
        if i > 0 {
            lemma_relay_after_arrivals(relay, operation, arrivals.take(i));
        }
    }
}

/// One failure for all, and none kept. A call that has no thread yet and is
/// told that the creation failed returns that failure in the platform's
/// words, whether it was creating or waiting. After the creating call has
/// failed the slot is empty again, so that the next question has the thread
/// created anew.
pub proof fn lemma_calls_share_failure(
    relay: RelayView,
    operation: Operation,
    waiting: bool,
    body: BodyView,
    cause: Seq<char>,
)
    ensures
        ({
            let step = resume_step(
                relay,
                call_without_thread(operation, waiting, body),
                EventView::ThreadCreationFailed(cause),
            );
            &&& step.action == ActionView::Fail(Failure::ThreadCreationFailed(cause))
            &&& step.call.stage is Finished
            &&& waiting ==> step.relay == relay
            &&& !waiting && cache_of(relay, operation) == Slot::Creating ==> cache_of(
                step.relay,
                operation,
            ) == Slot::Empty
        }),
{
}

/// A thread that exists stays. No start of a call and no event replaces or
/// forgets the thread of either operation.
pub proof fn lemma_thread_is_kept(
    relay: RelayView,
    operation: Operation,
    question: Seq<char>,
    role: Seq<char>,
    message: Seq<char>,
    context: Option<Seq<char>>,
    call: CallView,
    event: EventView,
)
    requires
        cache_of(relay, operation) is Ready,
    ensures
        cache_of(ask_step(relay, question).relay, operation) == cache_of(relay, operation),
        cache_of(log_step(relay, role, message, context).relay, operation) == cache_of(
            relay,
            operation,
        ),
        cache_of(resume_step(relay, call, event).relay, operation) == cache_of(relay, operation),
{
}

/// The configuration stays, and so does readiness. No start of a call and
/// no event changes whom the relay asks, where it posts, whether it logs,
/// or that the gateway is connected.
pub proof fn lemma_configuration_is_kept(
    relay: RelayView,
    question: Seq<char>,
    role: Seq<char>,
    message: Seq<char>,
    context: Option<Seq<char>>,
    call: CallView,
    event: EventView,
)
    ensures
        same_configuration(ask_step(relay, question).relay, relay),
        same_configuration(log_step(relay, role, message, context).relay, relay),
        same_configuration(resume_step(relay, call, event).relay, relay),
{
}

/// Whether two states of a relay differ in their threads at most.
pub open spec fn same_configuration(after: RelayView, before: RelayView) -> bool {
    after == (RelayView { thread: after.thread, log_thread: after.log_thread, ..before })
}

/// A question asked once the question thread exists is posted into that
/// thread at once: nothing is created, and the relay stays as it is.
pub proof fn lemma_ask_reuses_thread(relay: RelayView, thread: u64, question: Seq<char>)
    requires
        relay.ready,
        relay.thread == Slot::Ready(thread),
    ensures
        ask_step(relay, question).relay == relay,
        ask_step(relay, question).call.stage == StageView::Sending(thread),
        ask_step(relay, question).action == (ActionView::Send {
            thread,
            body: BodyView::Text(question_message(relay.user_id, question)),
        }),
{
}

/// Two questions in succession share one thread. The first question has
/// the thread created and is posted into it; once the respondent has
/// answered there, the second question is posted into the same thread, and
/// its answer is awaited there too.
pub proof fn lemma_asks_in_succession(
    relay: RelayView,
    first: Seq<char>,
    thread: u64,
    answer: Seq<char>,
    second: Seq<char>,
)
    requires
        relay.ready,
        relay.thread == Slot::Empty,
    ensures
        ({
            let asked = ask_step(relay, first);
            let created = resume_step(asked.relay, asked.call, EventView::ThreadCreated(thread));
            let sent = resume_step(created.relay, created.call, EventView::Sent);
            let answered = resume_step(
                sent.relay,
                sent.call,
                EventView::Message { channel: thread, author: relay.user_id, content: answer },
            );
            let again = ask_step(answered.relay, second);
            let sent_again = resume_step(again.relay, again.call, EventView::Sent);
            &&& asked.action is CreateThread
            &&& created.action == (ActionView::Send {
                thread,
                body: BodyView::Text(question_message(relay.user_id, first)),
            })
            &&& sent.action == (ActionView::AwaitReply { thread, author: relay.user_id })
            &&& answered.action == ActionView::Answer(answer)
            &&& again.action == (ActionView::Send {
                thread,
                body: BodyView::Text(question_message(relay.user_id, second)),
            })
            &&& sent_again.action == (ActionView::AwaitReply { thread, author: relay.user_id })
        }),
{
}

/// With logging off, `log_conversation` returns at once, successfully; it
/// asks nothing of the platform and leaves the relay as it is, whether or
/// not the gateway is connected.
pub proof fn lemma_logging_off(
    relay: RelayView,
    role: Seq<char>,
    message: Seq<char>,
    context: Option<Seq<char>>,
)
    requires
        !relay.logging,
    ensures
        log_step(relay, role, message, context) == returned(
            relay,
            Operation::Log,
            ActionView::Logged,
        ),
        !is_remote(log_step(relay, role, message, context).action),
{
}

/// With logging on and no log channel configured, `log_conversation` fails
/// at once as misconfigured; it asks nothing of the platform and leaves the
/// relay as it is, whether or not the gateway is connected.
pub proof fn lemma_logging_misconfigured(
    relay: RelayView,
    role: Seq<char>,
    message: Seq<char>,
    context: Option<Seq<char>>,
)
    requires
        relay.logging,
        relay.log_channel is None,
    ensures
        log_step(relay, role, message, context) == returned(
            relay,
            Operation::Log,
            ActionView::Fail(Failure::LoggingMisconfigured),
        ),
        !is_remote(log_step(relay, role, message, context).action),
{
}

/// A message that somebody other than the respondent wrote answers no
/// question: whatever call is told of it stays as it is, and so does the
/// relay.
pub proof fn lemma_only_respondent_answers(
    relay: RelayView,
    call: CallView,
    channel: u64,
    author: u64,
    content: Seq<char>,
)
    requires
        author != relay.user_id,
    ensures
        resume_step(relay, call, EventView::Message { channel, author, content }) == ignored(
            relay,
            call,
        ),
{
}

/// A call returns an answer only when it was waiting for one and is told of
/// a message that the respondent wrote in the thread of the question; the
/// answer is that message's text.
pub proof fn lemma_answer_is_respondents_reply(relay: RelayView, call: CallView, event: EventView)
    requires
        resume_step(relay, call, event).action is Answer,
    ensures
        call.stage is Listening,
        event == (EventView::Message {
            channel: call.stage->Listening_0,
            author: relay.user_id,
            content: resume_step(relay, call, event).action->Answer_0,
        }),
{
}

/// Before the gateway is connected, `ask` fails at once as not ready; it
/// asks nothing of the platform and leaves the relay as it is.
pub proof fn lemma_ask_needs_gateway(relay: RelayView, question: Seq<char>)
    requires
        !relay.ready,
    ensures
        ask_step(relay, question) == returned(
            relay,
            Operation::Ask,
            ActionView::Fail(Failure::NotReady),
        ),
        !is_remote(ask_step(relay, question).action),
{
}

/// Before the gateway is connected, `log_conversation` with logging on and
/// a log channel configured fails at once as not ready; it asks nothing of
/// the platform and leaves the relay as it is.
pub proof fn lemma_log_needs_gateway(
    relay: RelayView,
    role: Seq<char>,
    message: Seq<char>,
    context: Option<Seq<char>>,
)
    requires
        !relay.ready,
        relay.logging,
        relay.log_channel is Some,
    ensures
        log_step(relay, role, message, context) == returned(
            relay,
            Operation::Log,
            ActionView::Fail(Failure::NotReady),
        ),
        !is_remote(log_step(relay, role, message, context).action),
{
}

/// Whether the relay holds the identifier: as the respondent, as one of its
/// channels, or as one of its threads.
pub open spec fn relay_holds(relay: RelayView, id: u64) -> bool {
    ||| id == relay.user_id
    ||| id == relay.channel_id
    ||| relay.log_channel == Some(id)
    ||| relay.thread == Slot::Ready(id)
    ||| relay.log_thread == Slot::Ready(id)
}

/// Whether the call holds the identifier, as the thread that it posts into
/// or listens in.
pub open spec fn call_holds(call: CallView, id: u64) -> bool {
    call.stage == StageView::Sending(id) || call.stage == StageView::Listening(id)
}

/// Whether the action names the identifier.
pub open spec fn action_names(action: ActionView, id: u64) -> bool {
    match action {
        ActionView::CreateThread { parent, .. } => id == parent,
        ActionView::Send { thread, .. } => id == thread,
        ActionView::AwaitReply { thread, author } => id == thread || id == author,
        _ => false,
    }
}

/// The relay invents no identifier. Whatever an action names, the relay was
/// given: at its construction, or as the thread that an event reported.
pub proof fn lemma_identifiers_are_given(
    relay: RelayView,
    question: Seq<char>,
    role: Seq<char>,
    message: Seq<char>,
    context: Option<Seq<char>>,
    call: CallView,
    event: EventView,
    id: u64,
)
    ensures
        action_names(ask_step(relay, question).action, id) ==> relay_holds(relay, id),
        action_names(log_step(relay, role, message, context).action, id) ==> relay_holds(
            relay,
            id,
        ),
        action_names(resume_step(relay, call, event).action, id) ==> relay_holds(relay, id)
            || call_holds(call, id) || event == EventView::ThreadCreated(id),
        relay_holds(resume_step(relay, call, event).relay, id) ==> relay_holds(relay, id) || event
            == EventView::ThreadCreated(id),
        call_holds(resume_step(relay, call, event).call, id) ==> relay_holds(relay, id)
            || call_holds(call, id) || event == EventView::ThreadCreated(id),
{
}

/// Whether a call is one that the relay can have handed out: only a
/// question listens for an answer.
pub open spec fn call_is_sound(call: CallView) -> bool {
    call.stage is Listening ==> call.operation == Operation::Ask
}

/// The calls that the relay hands out are sound, and stay so.
pub proof fn lemma_calls_stay_sound(
    relay: RelayView,
    question: Seq<char>,
    role: Seq<char>,
    message: Seq<char>,
    context: Option<Seq<char>>,
    call: CallView,
    event: EventView,
)
    ensures
        call_is_sound(ask_step(relay, question).call),
        ask_step(relay, question).call.operation == Operation::Ask,
        call_is_sound(log_step(relay, role, message, context).call),
        log_step(relay, role, message, context).call.operation == Operation::Log,
        call_is_sound(call) ==> call_is_sound(resume_step(relay, call, event).call),
        resume_step(relay, call, event).call.operation == call.operation,
{
}

/// Each operation ends in its own way. A question never ends as logged, and
/// a log entry never ends with an answer: a question returns an answer or a
/// failure, a log entry returns that it is logged or a failure. The call is
/// finished exactly when the action returns.
pub proof fn lemma_calls_end_in_kind(
    relay: RelayView,
    question: Seq<char>,
    role: Seq<char>,
    message: Seq<char>,
    context: Option<Seq<char>>,
    call: CallView,
    event: EventView,
)
    requires
        call_is_sound(call),
        !(call.stage is Finished),
    ensures
        !(ask_step(relay, question).action is Logged),
        !(ask_step(relay, question).action is Answer),
        !(log_step(relay, role, message, context).action is Answer),
        resume_step(relay, call, event).action is Answer ==> call.operation == Operation::Ask,
        resume_step(relay, call, event).action is Logged ==> call.operation == Operation::Log,
        is_return(ask_step(relay, question).action) <==> ask_step(
            relay,
            question,
        ).call.stage is Finished,
        is_return(log_step(relay, role, message, context).action) <==> log_step(
            relay,
            role,
            message,
            context,
        ).call.stage is Finished,
        is_return(resume_step(relay, call, event).action) <==> resume_step(
            relay,
            call,
            event,
        ).call.stage is Finished,
{
}

/// A thread is created only by the first step of a call that found none,
/// and never on an event: `resume` asks for no creation.
pub proof fn lemma_resume_creates_nothing(relay: RelayView, call: CallView, event: EventView)
    ensures
        !(resume_step(relay, call, event).action is CreateThread),
        !(resume_step(relay, call, event).action is AwaitThread),
{
}

} // verus!
