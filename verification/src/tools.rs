//! The two tools that the agent is offered, `ask_human` and
//! `log_conversation`, and what each of them replies.

use crate::error::description;
use crate::error::Failure;
use crate::error::RelayError;
use crate::text::text_view;
use vstd::prelude::*;
use vstd::string::StringExecFns;

verus! {

/// What `log_conversation` replies when the message was logged.
pub const ACKNOWLEDGEMENT: &'static str = "Message logged successfully";

/// What the server tells an agent about itself.
pub const INSTRUCTIONS: &'static str =
    "This is a Human-in-the-Loop MCP server that enables AI assistants to request \
     information from humans via Discord. Use the 'ask_human' tool when you need \
     information that only a human would know, such as: personal preferences, \
     project-specific context, local environment details, or any information that \
     is not publicly available or documented. The human will be notified in Discord \
     and their response will be returned to you. \
     \
     IMPORTANT: Please proactively use the 'log_conversation' tool to maintain a record of: \
     1. User requests and requirements (role='human') \
     2. Your responses and implementations (role='assistant') \
     3. Important decisions or milestones \
     4. Errors or issues encountered (role='system') \
     This helps maintain project history and enables better collaboration. \
     Logged messages will be formatted with role indicators and timestamps in a dedicated thread.";

/// A human who can be asked, and a place where the conversation is logged.
///
/// What an implementation may return is its own affair: one that is
/// verified says so in `may_answer` and `may_log`, and the tools promise
/// their replies in those terms. Left as they are, the two admit every
/// outcome.
pub trait Human {
    /// Whether `outcome` is one that `ask` may return for `question`.
    open spec fn may_answer(
        &self,
        question: Seq<char>,
        outcome: Result<Seq<char>, Failure>,
    ) -> bool {
        true
    }

    /// Whether `outcome` is one that `log_conversation` may return for the
    /// message.
    open spec fn may_log(
        &self,
        role: Seq<char>,
        message: Seq<char>,
        context: Option<Seq<char>>,
        outcome: Result<(), Failure>,
    ) -> bool {
        true
    }

    /// Puts the question to the human and returns the answer.
    fn ask(&self, question: &str) -> (outcome: Result<String, RelayError>)
        ensures
            self.may_answer(question@, answer_view(outcome)),
    ;

    /// Logs a message of the conversation.
    fn log_conversation(&self, role: &str, message: &str, context: Option<&str>) -> (outcome:
        Result<(), RelayError>)
        ensures
            self.may_log(role@, message@, crate::text::str_view(context), log_view(outcome)),
    ;
}

/// The outcome of `Human::ask` with its texts as sequences of characters.
pub open spec fn answer_view(outcome: Result<String, RelayError>) -> Result<Seq<char>, Failure> {
    match outcome {
        Ok(answer) => Ok(answer@),
        Err(error) => Err(error@),
    }
}

/// The outcome of `Human::log_conversation` with its texts as sequences of
/// characters.
pub open spec fn log_view(outcome: Result<(), RelayError>) -> Result<(), Failure> {
    match outcome {
        Ok(()) => Ok(()),
        Err(error) => Err(error@),
    }
}

/// The parameters of `ask_human`.
#[derive(Debug, PartialEq, Eq)]
pub struct AskHumanRequest {
    /// The question to ask the human.
    pub question: String,
}

impl Clone for AskHumanRequest {
    fn clone(&self) -> (copy: Self)
        ensures
            copy.question@ == self.question@,
    {
        AskHumanRequest { question: self.question.clone() }
    }
}

/// The parameters of `log_conversation`.
#[derive(Debug, PartialEq, Eq)]
pub struct LogConversationRequest {
    /// The role of the message sender: `human`, `assistant` or `system`.
    pub role: String,
    /// The message content to log.
    pub message: String,
    /// Optional context or metadata about the message.
    pub context: Option<String>,
}

impl Clone for LogConversationRequest {
    fn clone(&self) -> (copy: Self)
        ensures
            copy.role@ == self.role@,
            copy.message@ == self.message@,
            text_view(copy.context) == text_view(self.context),
    {
        LogConversationRequest {
            role: self.role.clone(),
            message: self.message.clone(),
            context: match &self.context {
                Some(context) => Some(context.clone()),
                None => None,
            },
        }
    }
}

/// A tool call that failed. It carries a description for the agent to read
/// and no code.
#[derive(Debug, PartialEq, Eq)]
pub struct ToolError {
    pub message: String,
}

impl Clone for ToolError {
    fn clone(&self) -> (copy: Self)
        ensures
            copy.message@ == self.message@,
    {
        ToolError { message: self.message.clone() }
    }
}

/// A tool's reply with its texts as sequences of characters: the text
/// returned, or the description of the failure.
pub open spec fn reply_view(reply: Result<String, ToolError>) -> Result<Seq<char>, Seq<char>> {
    match reply {
        Ok(text) => Ok(text@),
        Err(error) => Err(error.message@),
    }
}

/// What `ask_human` replies for an outcome of the relay: the answer as it
/// is, or the description of the failure.
pub open spec fn ask_reply(outcome: Result<Seq<char>, Failure>) -> Result<Seq<char>, Seq<char>> {
    match outcome {
        Ok(answer) => Ok(answer),
        Err(failure) => Err(description(failure)),
    }
}

/// What `log_conversation` replies for an outcome of the relay: the fixed
/// acknowledgement, or the description of the failure.
pub open spec fn log_reply(outcome: Result<(), Failure>) -> Result<Seq<char>, Seq<char>> {
    match outcome {
        Ok(()) => Ok(ACKNOWLEDGEMENT@),
        Err(failure) => Err(description(failure)),
    }
}

/// Turns the relay's outcome of a question into the reply of `ask_human`.
pub fn reply_to_ask(outcome: Result<String, RelayError>) -> (reply: Result<String, ToolError>)
    ensures
        reply_view(reply) == ask_reply(answer_view(outcome)),
{
    match outcome {
        Ok(answer) => Ok(answer),
        Err(error) => Err(ToolError { message: error.describe() }),
    }
}

/// Turns the relay's outcome of logging into the reply of
/// `log_conversation`.
pub fn reply_to_log(outcome: Result<(), RelayError>) -> (reply: Result<String, ToolError>)
    ensures
        reply_view(reply) == log_reply(log_view(outcome)),
{
    match outcome {
        Ok(()) => Ok(String::from_str(ACKNOWLEDGEMENT)),
        Err(error) => Err(ToolError { message: error.describe() }),
    }
}

/// What a server says of itself when a client connects.
#[derive(Debug, PartialEq, Eq)]
pub struct ServerDescription {
    /// How an agent should use the server.
    pub instructions: String,
    /// Whether the server offers tools.
    pub tools: bool,
}

impl Clone for ServerDescription {
    fn clone(&self) -> (copy: Self)
        ensures
            copy.instructions@ == self.instructions@,
            copy.tools == self.tools,
    {
        ServerDescription { instructions: self.instructions.clone(), tools: self.tools }
    }
}

/// The tools of a server that relays to the human `H`.
pub struct HumanInTheLoop<H> {
    human: H,
}

impl<H: Human> HumanInTheLoop<H> {
    /// The human that the tools relay to.
    pub closed spec fn relay(&self) -> H {
        self.human
    }

    /// The tools that relay to `human`.
    pub fn new(human: H) -> (server: Self)
        ensures
            server.relay() == human,
    {
        HumanInTheLoop { human }
    }

    /// The human that the tools relay to.
    pub fn human(&self) -> (human: &H)
        ensures
            *human == self.relay(),
    {
        &self.human
    }

    /// The tool `ask_human`: puts the request's question, whole, to the
    /// human, and replies with what came back: the answer, or the
    /// description of the failure.
    pub fn ask_human(&self, request: AskHumanRequest) -> (reply: Result<String, ToolError>)
        ensures
            exists|outcome: Result<Seq<char>, Failure>|
                #![trigger ask_reply(outcome)]
                self.relay().may_answer(request.question@, outcome) && reply_view(reply)
                    == ask_reply(outcome),
    {
        let outcome = self.human.ask(request.question.as_str());
        let reply = reply_to_ask(outcome);
        proof {
            let witness = answer_view(outcome);
            assert(reply_view(reply) == ask_reply(witness));
        }
        reply
    }

    /// The tool `log_conversation`: hands role, message and context to the
    /// human's log as they are, and replies with the acknowledgement, or
    /// with the description of the failure.
    pub fn log_conversation(&self, request: LogConversationRequest) -> (reply: Result<
        String,
        ToolError,
    >)
        ensures
            exists|outcome: Result<(), Failure>|
                #![trigger log_reply(outcome)]
                self.relay().may_log(
                    request.role@,
                    request.message@,
                    text_view(request.context),
                    outcome,
                ) && reply_view(reply) == log_reply(outcome),
    {
        let context = match &request.context {
            Some(context) => Some(context.as_str()),
            None => None,
        };
        let outcome = self.human.log_conversation(
            request.role.as_str(),
            request.message.as_str(),
            context,
        );
        let reply = reply_to_log(outcome);
        proof {
            let witness = log_view(outcome);
            assert(reply_view(reply) == log_reply(witness));
        }
        reply
    }

    /// What the server says of itself: its instructions, and that it offers
    /// tools.
    pub fn get_info(&self) -> (info: ServerDescription)
        ensures
            info.instructions@ == INSTRUCTIONS@,
            info.tools,
    {
        ServerDescription { instructions: String::from_str(INSTRUCTIONS), tools: true }
    }
}

} // verus!
