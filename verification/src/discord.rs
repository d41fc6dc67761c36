//! The relay between an agent and one person on a chat platform.
//!
//! The relay never talks to the platform itself. An operation is started
//! with `ask` or `log_conversation`, which return the `Call` and the first
//! `Action`; whoever owns the connection performs the action, reports what
//! happened as an `Event` to `resume`, and goes on until an action ends the
//! call.
//!
//! Two things are left as they are, and a caller should know them. A
//! question waits for its answer without a limit of time: the call ends
//! only when it is told of the respondent's message or that the wait was
//! released. And questions that overlap are not queued: each listens in the
//! one question thread, and a message of the respondent answers whichever
//! call is told of it.

use crate::cache::lookup_of;
use crate::cache::slot_after_acquire;
use crate::cache::slot_after_created;
use crate::cache::slot_after_failed;
use crate::cache::Lookup;
use crate::cache::Slot;
use crate::cache::ThreadCache;
use crate::error::Failure;
use crate::error::RelayError;
use crate::protocol::Action;
use crate::protocol::ActionView;
use crate::protocol::Archive;
use crate::protocol::Body;
use crate::protocol::BodyView;
use crate::protocol::Call;
use crate::protocol::CallView;
use crate::protocol::Event;
use crate::protocol::EventView;
use crate::protocol::Operation;
use crate::protocol::Stage;
use crate::protocol::StageView;
use crate::text::address;
use crate::text::decorate;
use crate::text::log_entry;
use crate::text::question_message;
use crate::text::str_view;
use crate::text::thread_title;
use crate::text::title_of;
use vstd::prelude::*;

verus! {

/// The name of the log thread where none is configured.
pub const DEFAULT_LOG_THREAD_NAME: &'static str = "Conversation Log";

/// The readiness gate: a slot for the session handle of the chat gateway,
/// written once, when the gateway reports that it is connected.
pub struct Handler<C> {
    ctx: Option<C>,
}

impl<C> Handler<C> {
    /// The session handle, once the gateway is connected.
    pub closed spec fn context(&self) -> Option<C> {
        self.ctx
    }

    /// Whether the gateway is connected.
    pub open spec fn is_ready(&self) -> bool {
        self.context() is Some
    }

    /// Takes the session handle of a gateway that has just connected. Only
    /// the first handle is kept; `first` tells whether this was it.
    pub fn set(&mut self, ctx: C) -> (first: bool)
        ensures
            first == !old(self).is_ready(),
            final(self).context() == if first {
                Some(ctx)
            } else {
                old(self).context()
            },
    {
        if self.ctx.is_none() {
            self.ctx = Some(ctx);
            true
        } else {
            false
        }
    }

    /// The session handle, or `NotReady` while the gateway is not
    /// connected.
    pub fn get(&self) -> (ctx: Result<&C, RelayError>)
        ensures
            match ctx {
                Ok(ctx) => self.context() == Some(*ctx),
                Err(error) => !self.is_ready() && error@ == Failure::NotReady,
            },
    {
        match &self.ctx {
            Some(ctx) => Ok(ctx),
            None => Err(RelayError::NotReady),
        }
    }

    /// Whether the gateway is connected.
    pub fn connected(&self) -> (ready: bool)
        ensures
            ready == self.is_ready(),
    {
        self.ctx.is_some()
    }
}

impl<C> Default for Handler<C> {
    /// A gate that waits for the gateway.
    fn default() -> (handler: Self)
        ensures
            !handler.is_ready(),
    {
        Handler { ctx: None }
    }
}

/// The relay as contracts see it.
pub struct RelayView {
    /// The designated respondent.
    pub user_id: u64,
    /// The channel under which the question thread is created.
    pub channel_id: u64,
    /// Whether the gateway is connected.
    pub ready: bool,
    /// The question thread.
    pub thread: Slot,
    /// Whether messages are logged.
    pub logging: bool,
    /// The channel under which the log thread is created.
    pub log_channel: Option<u64>,
    /// The name of the log thread.
    pub log_thread_name: Seq<char>,
    /// The log thread.
    pub log_thread: Slot,
}

/// The outcome of one step: the relay and the call after it, and what the
/// relay asks for.
pub struct Step {
    pub relay: RelayView,
    pub call: CallView,
    pub action: ActionView,
}

/// The thread that an operation posts into.
pub open spec fn cache_of(relay: RelayView, operation: Operation) -> Slot {
    match operation {
        Operation::Ask => relay.thread,
        Operation::Log => relay.log_thread,
    }
}

/// The relay with another state of the thread that an operation posts into.
pub open spec fn with_cache(relay: RelayView, operation: Operation, slot: Slot) -> RelayView {
    match operation {
        Operation::Ask => RelayView { thread: slot, ..relay },
        Operation::Log => RelayView { log_thread: slot, ..relay },
    }
}

/// How long an operation's thread stays open without activity: the log is
/// kept longer than the questions.
pub open spec fn archive_of(operation: Operation) -> Archive {
    match operation {
        Operation::Ask => Archive::OneDay,
        Operation::Log => Archive::OneWeek,
    }
}

/// A step that ends its call at once and leaves the relay as it is.
pub open spec fn returned(relay: RelayView, operation: Operation, action: ActionView) -> Step {
    Step { relay, call: CallView { operation, stage: StageView::Finished }, action }
}

/// A step that changes nothing: the event did not concern the call.
pub open spec fn ignored(relay: RelayView, call: CallView) -> Step {
    Step { relay, call, action: ActionView::Ignore }
}

/// The first step of a call that has `body` to post into its operation's
/// thread. Where the thread exists, the call posts at once. Where it does
/// not, the first call creates it, under `parent` and named `name`, and
/// every call that comes while that creation is under way waits for it.
pub open spec fn enter(
    relay: RelayView,
    operation: Operation,
    parent: u64,
    name: Seq<char>,
    body: BodyView,
) -> Step {
    let slot = cache_of(relay, operation);
    match lookup_of(slot) {
        Lookup::Hit(thread) => Step {
            relay,
            call: CallView { operation, stage: StageView::Sending(thread) },
            action: ActionView::Send { thread, body },
        },
        Lookup::Create => Step {
            relay: with_cache(relay, operation, slot_after_acquire(slot)),
            call: CallView { operation, stage: StageView::Creating(body) },
            action: ActionView::CreateThread { parent, name, archive: archive_of(operation) },
        },
        Lookup::Wait => Step {
            relay,
            call: CallView { operation, stage: StageView::Waiting(body) },
            action: ActionView::AwaitThread,
        },
    }
}

/// The first step of `ask`. Before the gateway is connected the call fails
/// at once. After that it posts the question, with a mention of the
/// respondent, into the question thread, which is titled after the first
/// question.
pub open spec fn ask_step(relay: RelayView, question: Seq<char>) -> Step {
    if !relay.ready {
        returned(relay, Operation::Ask, ActionView::Fail(Failure::NotReady))
    } else {
        enter(
            relay,
            Operation::Ask,
            relay.channel_id,
            thread_title(question),
            BodyView::Text(question_message(relay.user_id, question)),
        )
    }
}

/// The first step of `log_conversation`. With logging off the call returns
/// at once, successfully. With logging on it fails at once where no log
/// channel is configured, or where the gateway is not connected; else it
/// posts the decorated entry into the log thread.
pub open spec fn log_step(
    relay: RelayView,
    role: Seq<char>,
    message: Seq<char>,
    context: Option<Seq<char>>,
) -> Step {
    if !relay.logging {
        returned(relay, Operation::Log, ActionView::Logged)
    } else {
        match relay.log_channel {
            None => returned(
                relay,
                Operation::Log,
                ActionView::Fail(Failure::LoggingMisconfigured),
            ),
            Some(channel) => if !relay.ready {
                returned(relay, Operation::Log, ActionView::Fail(Failure::NotReady))
            } else {
                enter(
                    relay,
                    Operation::Log,
                    channel,
                    relay.log_thread_name,
                    BodyView::Embed(log_entry(role, message, context)),
                )
            },
        }
    }
}

/// The step of a call that learns that its thread was created as `id`: the
/// thread recorded first is the one that the call posts into.
pub open spec fn thread_ready(
    relay: RelayView,
    operation: Operation,
    id: u64,
    body: BodyView,
) -> Step {
    let slot = slot_after_created(cache_of(relay, operation), id);
    let thread = slot->Ready_0;
    Step {
        relay: with_cache(relay, operation, slot),
        call: CallView { operation, stage: StageView::Sending(thread) },
        action: ActionView::Send { thread, body },
    }
}

/// The step that a call takes when it is told an event. An event that the
/// call is not waiting for changes nothing.
pub open spec fn resume_step(relay: RelayView, call: CallView, event: EventView) -> Step {
    let operation = call.operation;
    match call.stage {
        StageView::Creating(body) => match event {
            EventView::ThreadCreated(id) => thread_ready(relay, operation, id, body),
            EventView::ThreadCreationFailed(cause) => returned(
                with_cache(relay, operation, slot_after_failed(cache_of(relay, operation))),
                operation,
                ActionView::Fail(Failure::ThreadCreationFailed(cause)),
            ),
            _ => ignored(relay, call),
        },
        StageView::Waiting(body) => match event {
            EventView::ThreadCreated(id) => thread_ready(relay, operation, id, body),
            EventView::ThreadCreationFailed(cause) => returned(
                relay,
                operation,
                ActionView::Fail(Failure::ThreadCreationFailed(cause)),
            ),
            _ => ignored(relay, call),
        },
        StageView::Sending(thread) => match event {
            EventView::Sent => match operation {
                Operation::Ask => Step {
                    relay,
                    call: CallView { operation, stage: StageView::Listening(thread) },
                    action: ActionView::AwaitReply { thread, author: relay.user_id },
                },
                Operation::Log => returned(relay, operation, ActionView::Logged),
            },
            EventView::SendFailed(cause) => returned(
                relay,
                operation,
                ActionView::Fail(Failure::SendFailed(cause)),
            ),
            _ => ignored(relay, call),
        },
        StageView::Listening(thread) => match event {
            EventView::Message { channel, author, content } => if channel == thread && author
                == relay.user_id {
                returned(relay, operation, ActionView::Answer(content))
            } else {
                ignored(relay, call)
            },
            EventView::NoReply => returned(
                relay,
                operation,
                ActionView::Fail(Failure::NoReplyObserved),
            ),
            _ => ignored(relay, call),
        },
        StageView::Finished => ignored(relay, call),
    }
}

/// The relay: one respondent, one channel for questions, and, where logging
/// is on, one channel for the log.
pub struct HumanInDiscord<C> {
    user_id: u64,
    channel_id: u64,
    handler: Handler<C>,
    thread: ThreadCache,
    enable_conversation_log: bool,
    log_channel_id: Option<u64>,
    log_thread_name: String,
    log_thread: ThreadCache,
}

impl<C> View for HumanInDiscord<C> {
    type V = RelayView;

    closed spec fn view(&self) -> RelayView {
        RelayView {
            user_id: self.user_id,
            channel_id: self.channel_id,
            ready: self.handler.is_ready(),
            thread: self.thread@,
            logging: self.enable_conversation_log,
            log_channel: self.log_channel_id,
            log_thread_name: self.log_thread_name@,
            log_thread: self.log_thread@,
        }
    }
}

impl<C> HumanInDiscord<C> {
    /// The readiness gate of this relay.
    pub closed spec fn gate(&self) -> Handler<C> {
        self.handler
    }

    /// A relay for respondent `user_id` that asks under channel
    /// `channel_id`. It has no thread yet and waits for the gateway.
    pub fn new(
        user_id: u64,
        channel_id: u64,
        enable_conversation_log: bool,
        log_channel_id: Option<u64>,
        log_thread_name: String,
    ) -> (relay: Self)
        ensures
            relay@ == (RelayView {
                user_id,
                channel_id,
                ready: false,
                thread: Slot::Empty,
                logging: enable_conversation_log,
                log_channel: log_channel_id,
                log_thread_name: log_thread_name@,
                log_thread: Slot::Empty,
            }),
            !relay.gate().is_ready(),
    {
        HumanInDiscord {
            user_id,
            channel_id,
            handler: Handler::default(),
            thread: ThreadCache::new(),
            enable_conversation_log,
            log_channel_id,
            log_thread_name,
            log_thread: ThreadCache::new(),
        }
    }

    /// The readiness gate of this relay.
    pub fn handler(&self) -> (handler: &Handler<C>)
        ensures
            *handler == self.gate(),
            handler.is_ready() == self@.ready,
    {
        &self.handler
    }

    /// Takes the session handle of a gateway that has just connected. Only
    /// the first handle is kept; `first` tells whether this was it. Nothing
    /// else about the relay changes.
    pub fn ready(&mut self, ctx: C) -> (first: bool)
        ensures
            first == !old(self)@.ready,
            final(self)@ == (RelayView { ready: true, ..old(self)@ }),
            final(self).gate().context() == if first {
                Some(ctx)
            } else {
                old(self).gate().context()
            },
    {
        self.handler.set(ctx)
    }

    /// Starts a call that puts `question` to the respondent.
    pub fn ask(&mut self, question: &str) -> (step: (Call, Action))
        ensures
            final(self)@ == ask_step(old(self)@, question@).relay,
            step.0@ == ask_step(old(self)@, question@).call,
            step.1@ == ask_step(old(self)@, question@).action,
            final(self).gate() == old(self).gate(),
    {
        if !self.handler.connected() {
            return (
                Call { operation: Operation::Ask, stage: Stage::Finished },
                Action::Fail(RelayError::NotReady),
            );
        }
        let body = Body::Text(address(self.user_id, question));
        match self.thread.acquire() {
            Lookup::Hit(thread) => (
                Call { operation: Operation::Ask, stage: Stage::Sending(thread) },
                Action::Send { thread, body },
            ),
            Lookup::Create => (
                Call { operation: Operation::Ask, stage: Stage::Creating(body) },
                Action::CreateThread {
                    parent: self.channel_id,
                    name: title_of(question),
                    archive: Archive::OneDay,
                },
            ),
            Lookup::Wait => (
                Call { operation: Operation::Ask, stage: Stage::Waiting(body) },
                Action::AwaitThread,
            ),
        }
    }

    /// Starts a call that mirrors `message`, written by `role`, into the log
    /// thread.
    pub fn log_conversation(&mut self, role: &str, message: &str, context: Option<&str>) -> (step:
        (Call, Action))
        ensures
            final(self)@ == log_step(old(self)@, role@, message@, str_view(context)).relay,
            step.0@ == log_step(old(self)@, role@, message@, str_view(context)).call,
            step.1@ == log_step(old(self)@, role@, message@, str_view(context)).action,
            final(self).gate() == old(self).gate(),
    {
        if !self.enable_conversation_log {
            return (Call { operation: Operation::Log, stage: Stage::Finished }, Action::Logged);
        }
        let channel = match self.log_channel_id {
            Some(channel) => channel,
            None => {
                return (
                    Call { operation: Operation::Log, stage: Stage::Finished },
                    Action::Fail(RelayError::LoggingMisconfigured),
                );
            },
        };
        if !self.handler.connected() {
            return (
                Call { operation: Operation::Log, stage: Stage::Finished },
                Action::Fail(RelayError::NotReady),
            );
        }
        let body = Body::Embed(decorate(role, message, context));
        match self.log_thread.acquire() {
            Lookup::Hit(thread) => (
                Call { operation: Operation::Log, stage: Stage::Sending(thread) },
                Action::Send { thread, body },
            ),
            Lookup::Create => (
                Call { operation: Operation::Log, stage: Stage::Creating(body) },
                Action::CreateThread {
                    parent: channel,
                    name: self.log_thread_name.clone(),
                    archive: Archive::OneWeek,
                },
            ),
            Lookup::Wait => (
                Call { operation: Operation::Log, stage: Stage::Waiting(body) },
                Action::AwaitThread,
            ),
        }
    }

    /// Records that the thread of `operation` was created as `id`, and goes
    /// on to post `body` into the thread that was recorded first.
    fn thread_ready(&mut self, operation: Operation, id: u64, body: Body) -> (step: (Call, Action))
        ensures
            final(self)@ == thread_ready(old(self)@, operation, id, body@).relay,
            step.0@ == thread_ready(old(self)@, operation, id, body@).call,
            step.1@ == thread_ready(old(self)@, operation, id, body@).action,
            final(self).gate() == old(self).gate(),
    {
        let thread = match operation {
            Operation::Ask => self.thread.created(id),
            Operation::Log => self.log_thread.created(id),
        };
        (Call { operation, stage: Stage::Sending(thread) }, Action::Send { thread, body })
    }

    /// Records that the call that was creating the thread of `operation`
    /// failed.
    fn creation_failed(&mut self, operation: Operation)
        ensures
            final(self)@ == with_cache(
                old(self)@,
                operation,
                slot_after_failed(cache_of(old(self)@, operation)),
            ),
            final(self).gate() == old(self).gate(),
    {
        match operation {
            Operation::Ask => self.thread.failed(),
            Operation::Log => self.log_thread.failed(),
        }
    }

    /// Tells `call` what happened, and returns the call as it stands after
    /// that and what the relay asks for next.
    pub fn resume(&mut self, call: Call, event: Event) -> (step: (Call, Action))
        ensures
            final(self)@ == resume_step(old(self)@, call@, event@).relay,
            step.0@ == resume_step(old(self)@, call@, event@).call,
            step.1@ == resume_step(old(self)@, call@, event@).action,
            final(self).gate() == old(self).gate(),
    {
        let Call { operation, stage } = call;
        let finished = Call { operation, stage: Stage::Finished };
        match stage {
            Stage::Creating(body) => match event {
                Event::ThreadCreated(id) => self.thread_ready(operation, id, body),
                Event::ThreadCreationFailed(cause) => {
                    self.creation_failed(operation);
                    (finished, Action::Fail(RelayError::ThreadCreationFailed(cause)))
                },
                _ => (Call { operation, stage: Stage::Creating(body) }, Action::Ignore),
            },
            Stage::Waiting(body) => match event {
                Event::ThreadCreated(id) => self.thread_ready(operation, id, body),
                Event::ThreadCreationFailed(cause) => (
                    finished,
                    Action::Fail(RelayError::ThreadCreationFailed(cause)),
                ),
                _ => (Call { operation, stage: Stage::Waiting(body) }, Action::Ignore),
            },
            Stage::Sending(thread) => match event {
                Event::Sent => match operation {
                    Operation::Ask => (
                        Call { operation, stage: Stage::Listening(thread) },
                        Action::AwaitReply { thread, author: self.user_id },
                    ),
                    Operation::Log => (finished, Action::Logged),
                },
                Event::SendFailed(cause) => (finished, Action::Fail(RelayError::SendFailed(cause))),
                _ => (Call { operation, stage: Stage::Sending(thread) }, Action::Ignore),
            },
            Stage::Listening(thread) => match event {
                Event::Message { channel, author, content } => {
                    if channel == thread && author == self.user_id {
                        (finished, Action::Answer(content))
                    } else {
                        (Call { operation, stage: Stage::Listening(thread) }, Action::Ignore)
                    }
                },
                Event::NoReply => (finished, Action::Fail(RelayError::NoReplyObserved)),
                _ => (Call { operation, stage: Stage::Listening(thread) }, Action::Ignore),
            },
            Stage::Finished => (finished, Action::Ignore),
        }
    }
}

} // verus!
