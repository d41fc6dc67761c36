//! The catalog of tools and the dispatch of a decoded tool call.

use crate::error::Failure;
use crate::text::same_text;
use crate::text::text_view;
use crate::tools::ask_reply;
use crate::tools::log_reply;
use crate::tools::reply_view;
use crate::tools::AskHumanRequest;
use crate::tools::Human;
use crate::tools::HumanInTheLoop;
use crate::tools::LogConversationRequest;
use crate::tools::ToolError;
use vstd::prelude::*;

verus! {

/// The name of the tool that asks the human.
pub const ASK_HUMAN: &'static str = "ask_human";

/// The name of the tool that logs the conversation.
pub const LOG_CONVERSATION: &'static str = "log_conversation";

/// What the catalog says of `ask_human`.
pub const ASK_HUMAN_DESCRIPTION: &'static str =
    "Ask a human for information that only they would know, such as personal preferences, project-specific context, local environment details, or non-public information";

/// What the catalog says of `log_conversation`.
pub const LOG_CONVERSATION_DESCRIPTION: &'static str =
    "Log conversation messages to Discord for review and history tracking. Use this to record important interactions, decisions, or context that should be preserved";

/// What the catalog says of the parameter `question`.
pub const QUESTION_DESCRIPTION: &'static str =
    "The question to ask the human. Be specific and provide context to help the human understand what information you need. Ask the only one question at once.";

/// What the catalog says of the parameter `role`.
pub const ROLE_DESCRIPTION: &'static str =
    "The role of the message sender: 'human', 'assistant', or 'system'";

/// What the catalog says of the parameter `message`.
pub const MESSAGE_DESCRIPTION: &'static str = "The message content to log";

/// What the catalog says of the parameter `context`.
pub const CONTEXT_DESCRIPTION: &'static str = "Optional context or metadata about the message";

/// The tools of the catalog.
#[derive(Clone, Copy, Debug, PartialEq, Eq, Structural)]
pub enum ToolKind {
    AskHuman,
    LogConversation,
}

/// The parameters of the tools. Each is a text.
#[derive(Clone, Copy, Debug, PartialEq, Eq, Structural)]
pub enum Parameter {
    Question,
    Role,
    Message,
    Context,
}

/// The tool of a name, if the catalog has one of that name. Names are
/// matched exactly.
pub open spec fn tool_named(name: Seq<char>) -> Option<ToolKind> {
    if name == ASK_HUMAN@ {
        Some(ToolKind::AskHuman)
    } else if name == LOG_CONVERSATION@ {
        Some(ToolKind::LogConversation)
    } else {
        None
    }
}

/// The name of a tool.
pub open spec fn tool_name(tool: ToolKind) -> Seq<char> {
    match tool {
        ToolKind::AskHuman => ASK_HUMAN@,
        ToolKind::LogConversation => LOG_CONVERSATION@,
    }
}

/// What the catalog says of a tool.
pub open spec fn tool_description(tool: ToolKind) -> Seq<char> {
    match tool {
        ToolKind::AskHuman => ASK_HUMAN_DESCRIPTION@,
        ToolKind::LogConversation => LOG_CONVERSATION_DESCRIPTION@,
    }
}

/// The parameters of a tool, in the order in which the catalog lists them.
pub open spec fn tool_parameters(tool: ToolKind) -> Seq<Parameter> {
    match tool {
        ToolKind::AskHuman => seq![Parameter::Question],
        ToolKind::LogConversation => seq![Parameter::Role, Parameter::Message, Parameter::Context],
    }
}

/// The name of a parameter.
pub open spec fn parameter_name(parameter: Parameter) -> Seq<char> {
    match parameter {
        Parameter::Question => "question"@,
        Parameter::Role => "role"@,
        Parameter::Message => "message"@,
        Parameter::Context => "context"@,
    }
}

/// What the catalog says of a parameter.
pub open spec fn parameter_description(parameter: Parameter) -> Seq<char> {
    match parameter {
        Parameter::Question => QUESTION_DESCRIPTION@,
        Parameter::Role => ROLE_DESCRIPTION@,
        Parameter::Message => MESSAGE_DESCRIPTION@,
        Parameter::Context => CONTEXT_DESCRIPTION@,
    }
}

/// Whether a call must give the parameter: all but the context.
pub open spec fn parameter_required(parameter: Parameter) -> bool {
    parameter != Parameter::Context
}

impl ToolKind {
    /// The tool of a name, if the catalog has one of that name.
    pub fn from_name(name: &str) -> (tool: Option<ToolKind>)
        ensures
            tool == tool_named(name@),
    {
        if same_text(name, ASK_HUMAN) {
            Some(ToolKind::AskHuman)
        } else if same_text(name, LOG_CONVERSATION) {
            Some(ToolKind::LogConversation)
        } else {
            None
        }
    }

    /// The name of this tool.
    pub fn name(self) -> (name: &'static str)
        ensures
            name@ == tool_name(self),
    {
        match self {
            ToolKind::AskHuman => ASK_HUMAN,
            ToolKind::LogConversation => LOG_CONVERSATION,
        }
    }

    /// What the catalog says of this tool.
    pub fn description(self) -> (description: &'static str)
        ensures
            description@ == tool_description(self),
    {
        match self {
            ToolKind::AskHuman => ASK_HUMAN_DESCRIPTION,
            ToolKind::LogConversation => LOG_CONVERSATION_DESCRIPTION,
        }
    }

    /// The parameters of this tool, in the order in which the catalog lists
    /// them.
    pub fn parameters(self) -> (parameters: Vec<Parameter>)
        ensures
            parameters@ == tool_parameters(self),
    {
        let mut parameters = Vec::new();
        match self {
            ToolKind::AskHuman => {
                parameters.push(Parameter::Question);
            },
            ToolKind::LogConversation => {
                parameters.push(Parameter::Role);
                parameters.push(Parameter::Message);
                parameters.push(Parameter::Context);
            },
        }
        assert(parameters@ =~= tool_parameters(self));
        parameters
    }
}

impl Parameter {
    /// The name of this parameter.
    pub fn name(self) -> (name: &'static str)
        ensures
            name@ == parameter_name(self),
    {
        match self {
            Parameter::Question => "question",
            Parameter::Role => "role",
            Parameter::Message => "message",
            Parameter::Context => "context",
        }
    }

    /// What the catalog says of this parameter.
    pub fn description(self) -> (description: &'static str)
        ensures
            description@ == parameter_description(self),
    {
        match self {
            Parameter::Question => QUESTION_DESCRIPTION,
            Parameter::Role => ROLE_DESCRIPTION,
            Parameter::Message => MESSAGE_DESCRIPTION,
            Parameter::Context => CONTEXT_DESCRIPTION,
        }
    }

    /// Whether a call must give this parameter.
    pub fn required(self) -> (required: bool)
        ensures
            required == parameter_required(self),
    {
        match self {
            Parameter::Context => false,
            _ => true,
        }
    }
}

/// Every tool is found again under its own name, and under no other name is
/// anything found.
pub proof fn lemma_tools_by_name(tool: ToolKind, name: Seq<char>)
    ensures
        tool_named(tool_name(tool)) == Some(tool),
        tool_named(name) == Some(tool) ==> name == tool_name(tool),
{
    reveal_strlit("ask_human");
    reveal_strlit("log_conversation");
    assert(ASK_HUMAN@.len() == 9);
    assert(LOG_CONVERSATION@.len() == 16);
}

/// A call of one of the tools, with its parameters decoded.
#[derive(Debug, PartialEq, Eq)]
pub enum HumanTools {
    AskHumanTool(AskHumanRequest),
    LogConversationTool(LogConversationRequest),
}

/// Whether two calls are for the same tool with the same parameters.
pub open spec fn same_call(left: HumanTools, right: HumanTools) -> bool {
    match (left, right) {
        (HumanTools::AskHumanTool(left), HumanTools::AskHumanTool(right)) => left.question@
            == right.question@,
        (HumanTools::LogConversationTool(left), HumanTools::LogConversationTool(right)) => {
            &&& left.role@ == right.role@
            &&& left.message@ == right.message@
            &&& text_view(left.context) == text_view(right.context)
        },
        _ => false,
    }
}

impl Clone for HumanTools {
    fn clone(&self) -> (copy: Self)
        ensures
            same_call(copy, *self),
    {
        match self {
            HumanTools::AskHumanTool(ask) => HumanTools::AskHumanTool(ask.clone()),
            HumanTools::LogConversationTool(log) => HumanTools::LogConversationTool(log.clone()),
        }
    }
}

impl HumanTools {
    /// The tool that this call is for.
    pub open spec fn tool(&self) -> ToolKind {
        match self {
            HumanTools::AskHumanTool(_) => ToolKind::AskHuman,
            HumanTools::LogConversationTool(_) => ToolKind::LogConversation,
        }
    }

    /// The tool that this call is for.
    pub fn kind(&self) -> (tool: ToolKind)
        ensures
            tool == self.tool(),
    {
        match self {
            HumanTools::AskHumanTool(_) => ToolKind::AskHuman,
            HumanTools::LogConversationTool(_) => ToolKind::LogConversation,
        }
    }
}

/// The router: it lists the tools and hands each call to its tool.
pub struct Handler<H> {
    tools: HumanInTheLoop<H>,
}

impl<H: Human> Handler<H> {
    /// The human that the tools relay to.
    pub closed spec fn relay(&self) -> H {
        self.tools.relay()
    }

    /// A router for the tools that relay to `human`.
    pub fn new(human: H) -> (handler: Self)
        ensures
            handler.relay() == human,
    {
        Handler { tools: HumanInTheLoop::new(human) }
    }

    /// The catalog: `ask_human`, then `log_conversation`.
    pub fn list_tools(&self) -> (tools: Vec<ToolKind>)
        ensures
            tools@ == seq![ToolKind::AskHuman, ToolKind::LogConversation],
    {
        let mut tools = Vec::new();
        tools.push(ToolKind::AskHuman);
        tools.push(ToolKind::LogConversation);
        assert(tools@ =~= seq![ToolKind::AskHuman, ToolKind::LogConversation]);
        tools
    }

    /// Hands the call to its tool, with the parameters as they were given,
    /// and replies with what the tool replies.
    pub fn call_tool(&self, request: HumanTools) -> (reply: Result<String, ToolError>)
        ensures
            match request {
                HumanTools::AskHumanTool(ask) => exists|outcome: Result<Seq<char>, Failure>|
                    #![trigger ask_reply(outcome)]
                    self.relay().may_answer(ask.question@, outcome) && reply_view(reply)
                        == ask_reply(outcome),
                HumanTools::LogConversationTool(log) => exists|outcome: Result<(), Failure>|
                    #![trigger log_reply(outcome)]
                    self.relay().may_log(log.role@, log.message@, text_view(log.context), outcome)
                        && reply_view(reply) == log_reply(outcome),
            },
    {
        match request {
            HumanTools::AskHumanTool(ask) => self.tools.ask_human(ask),
            HumanTools::LogConversationTool(log) => self.tools.log_conversation(log),
        }
    }
}

} // verus!
