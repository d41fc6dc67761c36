//! What passes between the relay and whoever talks to the chat platform for
//! it: the actions that the relay asks for, and the events that it is told.

use crate::error::Failure;
use crate::error::RelayError;
use crate::text::EmbedView;
use crate::text::LogEmbed;
use vstd::prelude::*;

verus! {

/// The two operations of the relay.
#[derive(Clone, Copy, Debug, PartialEq, Eq, Structural)]
pub enum Operation {
    /// Put a question to the respondent and wait for the answer.
    Ask,
    /// Mirror a message into the log thread.
    Log,
}

/// After how long without activity the platform archives a thread.
#[derive(Clone, Copy, Debug, PartialEq, Eq, Structural)]
pub enum Archive {
    OneDay,
    OneWeek,
}

/// The archive time in minutes.
pub open spec fn archive_minutes(archive: Archive) -> u16 {
    match archive {
        Archive::OneDay => 1440,
        Archive::OneWeek => 10080,
    }
}

impl Archive {
    /// The archive time in minutes.
    pub fn minutes(self) -> (minutes: u16)
        ensures
            minutes == archive_minutes(self),
    {
        match self {
            Archive::OneDay => 1440,
            Archive::OneWeek => 10080,
        }
    }
}

/// What is posted into a thread.
#[derive(Debug, PartialEq, Eq)]
pub enum Body {
    /// A plain message.
    Text(String),
    /// A decorated log entry.
    Embed(LogEmbed),
}

/// A `Body` with its texts as sequences of characters.
pub enum BodyView {
    Text(Seq<char>),
    Embed(EmbedView),
}

impl View for Body {
    type V = BodyView;

    open spec fn view(&self) -> BodyView {
        match self {
            Body::Text(text) => BodyView::Text(text@),
            Body::Embed(entry) => BodyView::Embed(entry@),
        }
    }
}

impl Clone for Body {
    fn clone(&self) -> (copy: Self)
        ensures
            copy@ == self@,
    {
        match self {
            Body::Text(text) => Body::Text(text.clone()),
            Body::Embed(entry) => Body::Embed(entry.clone()),
        }
    }
}

/// How far one call of an operation has come.
#[derive(Debug, PartialEq, Eq)]
pub enum Stage {
    /// This call is creating the thread; it holds what it will post.
    Creating(Body),
    /// Another call is creating the thread; this one waits for the outcome.
    Waiting(Body),
    /// The message is on its way into the thread.
    Sending(u64),
    /// The question stands in the thread; the call waits for the answer.
    Listening(u64),
    /// The call has returned.
    Finished,
}

/// A `Stage` with its texts as sequences of characters.
pub enum StageView {
    Creating(BodyView),
    Waiting(BodyView),
    Sending(u64),
    Listening(u64),
    Finished,
}

impl View for Stage {
    type V = StageView;

    open spec fn view(&self) -> StageView {
        match self {
            Stage::Creating(body) => StageView::Creating(body@),
            Stage::Waiting(body) => StageView::Waiting(body@),
            Stage::Sending(thread) => StageView::Sending(*thread),
            Stage::Listening(thread) => StageView::Listening(*thread),
            Stage::Finished => StageView::Finished,
        }
    }
}

impl Clone for Stage {
    fn clone(&self) -> (copy: Self)
        ensures
            copy@ == self@,
    {
        match self {
            Stage::Creating(body) => Stage::Creating(body.clone()),
            Stage::Waiting(body) => Stage::Waiting(body.clone()),
            Stage::Sending(thread) => Stage::Sending(*thread),
            Stage::Listening(thread) => Stage::Listening(*thread),
            Stage::Finished => Stage::Finished,
        }
    }
}

/// One call of an operation, from its start until it returns. Calls that
/// overlap are told apart by their `Call` values; the relay does not queue
/// them.
#[derive(Debug, PartialEq, Eq)]
pub struct Call {
    pub operation: Operation,
    pub stage: Stage,
}

/// A `Call` with its texts as sequences of characters.
pub struct CallView {
    pub operation: Operation,
    pub stage: StageView,
}

impl View for Call {
    type V = CallView;

    open spec fn view(&self) -> CallView {
        CallView { operation: self.operation, stage: self.stage@ }
    }
}

impl Clone for Call {
    fn clone(&self) -> (copy: Self)
        ensures
            copy@ == self@,
    {
        Call { operation: self.operation, stage: self.stage.clone() }
    }
}

/// What the relay asks for next on behalf of a call.
#[derive(Debug, PartialEq, Eq)]
pub enum Action {
    /// Create a public thread named `name` under channel `parent`, then
    /// report `Event::ThreadCreated` or `Event::ThreadCreationFailed`.
    CreateThread { parent: u64, name: String, archive: Archive },
    /// Wait until the creation that another call has under way ends, then
    /// report its outcome as that call does.
    AwaitThread,
    /// Post `body` into `thread`, then report `Event::Sent` or
    /// `Event::SendFailed`.
    Send { thread: u64, body: Body },
    /// Wait for the next message that `author` writes in `thread` and report
    /// it as `Event::Message`, or report `Event::NoReply` when the wait is
    /// released without one.
    AwaitReply { thread: u64, author: u64 },
    /// The event changed nothing: go on with what the call was waiting for.
    Ignore,
    /// The call returns the respondent's answer.
    Answer(String),
    /// The call returns: the message is logged, or logging is off.
    Logged,
    /// The call returns the failure.
    Fail(RelayError),
}

/// An `Action` with its texts as sequences of characters.
pub enum ActionView {
    CreateThread { parent: u64, name: Seq<char>, archive: Archive },
    AwaitThread,
    Send { thread: u64, body: BodyView },
    AwaitReply { thread: u64, author: u64 },
    Ignore,
    Answer(Seq<char>),
    Logged,
    Fail(Failure),
}

impl View for Action {
    type V = ActionView;

    open spec fn view(&self) -> ActionView {
        match self {
            Action::CreateThread { parent, name, archive } => ActionView::CreateThread {
                parent: *parent,
                name: name@,
                archive: *archive,
            },
            Action::AwaitThread => ActionView::AwaitThread,
            Action::Send { thread, body } => ActionView::Send { thread: *thread, body: body@ },
            Action::AwaitReply { thread, author } => ActionView::AwaitReply {
                thread: *thread,
                author: *author,
            },
            Action::Ignore => ActionView::Ignore,
            Action::Answer(answer) => ActionView::Answer(answer@),
            Action::Logged => ActionView::Logged,
            Action::Fail(error) => ActionView::Fail(error@),
        }
    }
}

impl Clone for Action {
    fn clone(&self) -> (copy: Self)
        ensures
            copy@ == self@,
    {
        match self {
            Action::CreateThread { parent, name, archive } => Action::CreateThread {
                parent: *parent,
                name: name.clone(),
                archive: *archive,
            },
            Action::AwaitThread => Action::AwaitThread,
            Action::Send { thread, body } => Action::Send { thread: *thread, body: body.clone() },
            Action::AwaitReply { thread, author } => Action::AwaitReply {
                thread: *thread,
                author: *author,
            },
            Action::Ignore => Action::Ignore,
            Action::Answer(answer) => Action::Answer(answer.clone()),
            Action::Logged => Action::Logged,
            Action::Fail(error) => Action::Fail(error.clone()),
        }
    }
}

/// Whether an action changes anything on the chat platform.
pub open spec fn has_remote_effect(action: ActionView) -> bool {
    action is CreateThread || action is Send
}

/// Whether an action reaches out to the chat platform at all.
pub open spec fn is_remote(action: ActionView) -> bool {
    has_remote_effect(action) || action is AwaitReply
}

/// Whether an action ends its call.
pub open spec fn is_return(action: ActionView) -> bool {
    action is Answer || action is Logged || action is Fail
}

impl Action {
    /// Whether this action changes anything on the chat platform.
    pub fn changes_platform(&self) -> (remote: bool)
        ensures
            remote == has_remote_effect(self@),
    {
        match self {
            Action::CreateThread { .. } => true,
            Action::Send { .. } => true,
            _ => false,
        }
    }

    /// Whether this action ends its call.
    pub fn ends_call(&self) -> (done: bool)
        ensures
            done == is_return(self@),
    {
        match self {
            Action::Answer(_) => true,
            Action::Logged => true,
            Action::Fail(_) => true,
            _ => false,
        }
    }
}

/// What happened on the chat platform, as the relay is told.
#[derive(Debug, PartialEq, Eq)]
pub enum Event {
    /// The thread was created and has this identifier.
    ThreadCreated(u64),
    /// The thread could not be created; holds the platform's words.
    ThreadCreationFailed(String),
    /// The message was posted.
    Sent,
    /// The message could not be posted; holds the platform's words.
    SendFailed(String),
    /// Somebody wrote a message.
    Message { channel: u64, author: u64, content: String },
    /// The wait for a reply was released without a message.
    NoReply,
}

/// An `Event` with its texts as sequences of characters.
pub enum EventView {
    ThreadCreated(u64),
    ThreadCreationFailed(Seq<char>),
    Sent,
    SendFailed(Seq<char>),
    Message { channel: u64, author: u64, content: Seq<char> },
    NoReply,
}

impl View for Event {
    type V = EventView;

    open spec fn view(&self) -> EventView {
        match self {
            Event::ThreadCreated(id) => EventView::ThreadCreated(*id),
            Event::ThreadCreationFailed(cause) => EventView::ThreadCreationFailed(cause@),
            Event::Sent => EventView::Sent,
            Event::SendFailed(cause) => EventView::SendFailed(cause@),
            Event::Message { channel, author, content } => EventView::Message {
                channel: *channel,
                author: *author,
                content: content@,
            },
            Event::NoReply => EventView::NoReply,
        }
    }
}

impl Clone for Event {
    fn clone(&self) -> (copy: Self)
        ensures
            copy@ == self@,
    {
        match self {
            Event::ThreadCreated(id) => Event::ThreadCreated(*id),
            Event::ThreadCreationFailed(cause) => Event::ThreadCreationFailed(cause.clone()),
            Event::Sent => Event::Sent,
            Event::SendFailed(cause) => Event::SendFailed(cause.clone()),
            Event::Message { channel, author, content } => Event::Message {
                channel: *channel,
                author: *author,
                content: content.clone(),
            },
            Event::NoReply => Event::NoReply,
        }
    }
}

} // verus!
