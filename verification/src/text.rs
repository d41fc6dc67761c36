//! The texts that the relay puts on the chat platform: thread titles,
//! questions that mention the respondent, and decorated log entries.

use vstd::prelude::*;
use vstd::string::StrSliceExecFns;
use vstd::string::StringExecFns;

verus! {

/// A thread title holds at most this many characters of the question.
pub const TITLE_LIMIT: usize = 100;

/// The character of a decimal digit.
pub open spec fn digit(d: nat) -> char {
    if d == 0 {
        '0'
    } else if d == 1 {
        '1'
    } else if d == 2 {
        '2'
    } else if d == 3 {
        '3'
    } else if d == 4 {
        '4'
    } else if d == 5 {
        '5'
    } else if d == 6 {
        '6'
    } else if d == 7 {
        '7'
    } else if d == 8 {
        '8'
    } else {
        '9'
    }
}

/// A number in decimal, without sign or leading zeros.
pub open spec fn decimal(n: nat) -> Seq<char>
    decreases n,
{
    if n < 10 {
        seq![digit(n)]
    } else {
        decimal(n / 10).push(digit(n % 10))
    }
}

/// How a user is mentioned in a message.
pub open spec fn mention(user: u64) -> Seq<char> {
    "<@"@ + decimal(user as nat) + ">"@
}

/// The message that puts a question to a user: the mention, a space, and
/// the whole question.
pub open spec fn question_message(user: u64, question: Seq<char>) -> Seq<char> {
    mention(user) + " "@ + question
}

/// The title of the thread opened for a question: its first `TITLE_LIMIT`
/// characters, or all of it where it has fewer.
pub open spec fn thread_title(question: Seq<char>) -> Seq<char> {
    if question.len() <= TITLE_LIMIT {
        question
    } else {
        question.subrange(0, TITLE_LIMIT as int)
    }
}

/// A title never exceeds the limit, and it is the beginning of its
/// question: the whole of it where the question is short enough.
pub proof fn lemma_title_begins_question(question: Seq<char>)
    ensures
        thread_title(question).len() <= TITLE_LIMIT,
        thread_title(question).is_prefix_of(question),
        question.len() <= TITLE_LIMIT ==> thread_title(question) == question,
        question.len() > TITLE_LIMIT ==> thread_title(question).len() == TITLE_LIMIT,
{
}

/// A number in decimal is made of digits, at least one, and begins with a
/// zero only where the number is zero.
pub proof fn lemma_decimal_is_digits(n: nat)
    ensures
        decimal(n).len() >= 1,
        forall|i: int| 0 <= i < decimal(n).len() ==> '0' <= #[trigger] decimal(n)[i] <= '9',
        n > 0 ==> decimal(n)[0] != '0',
    decreases n,
{
    if n >= 10 {
        lemma_decimal_is_digits(n / 10);
    }
}

fn digit_text(d: u64) -> (text: &'static str)
    requires
        d < 10,
    ensures
        text@ == seq![digit(d as nat)],
{
    proof {
        reveal_strlit("0");
        reveal_strlit("1");
        reveal_strlit("2");
        reveal_strlit("3");
        reveal_strlit("4");
        reveal_strlit("5");
        reveal_strlit("6");
        reveal_strlit("7");
        reveal_strlit("8");
        reveal_strlit("9");
    }
    let text = if d == 0 {
        "0"
    } else if d == 1 {
        "1"
    } else if d == 2 {
        "2"
    } else if d == 3 {
        "3"
    } else if d == 4 {
        "4"
    } else if d == 5 {
        "5"
    } else if d == 6 {
        "6"
    } else if d == 7 {
        "7"
    } else if d == 8 {
        "8"
    } else {
        "9"
    };
    assert(text@ =~= seq![digit(d as nat)]);
    text
}

/// Appends a number in decimal to a text.
pub fn push_decimal(out: &mut String, n: u64)
    ensures
        final(out)@ == old(out)@ + decimal(n as nat),
    decreases n,
{
    if n >= 10 {
        push_decimal(out, n / 10);
    }
    out.append(digit_text(n % 10));
    assert(out@ =~= old(out)@ + decimal(n as nat));
}

/// The title of the thread opened for a question.
pub fn title_of(question: &str) -> (title: String)
    ensures
        title@ == thread_title(question@),
{
    let length = question.unicode_len();
    let kept = if length <= TITLE_LIMIT {
        length
    } else {
        TITLE_LIMIT
    };
    let title = String::from_str(question.substring_char(0, kept));
    assert(title@ =~= thread_title(question@));
    title
}

/// The message that puts a question to a user.
pub fn address(user: u64, question: &str) -> (message: String)
    ensures
        message@ == question_message(user, question@),
{
    let mut message = String::from_str("<@");
    push_decimal(&mut message, user);
    message.append(">");
    message.append(" ");
    message.append(question);
    assert(message@ =~= question_message(user, question@));
    message
}

/// Who wrote a logged message.
#[derive(Clone, Copy, Debug, PartialEq, Eq, Structural)]
pub enum Role {
    Human,
    Assistant,
    System,
    /// Any role name but `human`, `assistant` and `system`.
    Other,
}

/// The role that a role name stands for. Names are matched exactly.
pub open spec fn role_of(name: Seq<char>) -> Role {
    if name == "human"@ {
        Role::Human
    } else if name == "assistant"@ {
        Role::Assistant
    } else if name == "system"@ {
        Role::System
    } else {
        Role::Other
    }
}

/// The colour of a role's log entries, as `0xRRGGBB`: blue for the human,
/// green for the assistant, gray for the system and a darker gray for the
/// rest.
pub open spec fn color_of(role: Role) -> u32 {
    match role {
        Role::Human => 0x3498db,
        Role::Assistant => 0x2ecc71,
        Role::System => 0x95a5a6,
        Role::Other => 0x7f8c8d,
    }
}

/// Each of the three named roles is found under its name.
pub proof fn lemma_roles_by_name()
    ensures
        role_of("human"@) == Role::Human,
        role_of("assistant"@) == Role::Assistant,
        role_of("system"@) == Role::System,
        role_of(""@) == Role::Other,
{
    reveal_strlit("human");
    reveal_strlit("assistant");
    reveal_strlit("system");
    reveal_strlit("");
    assert("human"@.len() == 5);
    assert("assistant"@.len() == 9);
    assert("system"@.len() == 6);
    assert(""@.len() == 0);
}

/// `==` of std on `str`: true exactly when both texts hold the same
/// characters.
#[verifier::external_body]
pub(crate) fn same_text(left: &str, right: &str) -> (same: bool)
    ensures
        same == (left@ == right@),
{
    left == right
}

impl Role {
    /// The role that a role name stands for.
    pub fn parse(name: &str) -> (role: Role)
        ensures
            role == role_of(name@),
    {
        if same_text(name, "human") {
            Role::Human
        } else if same_text(name, "assistant") {
            Role::Assistant
        } else if same_text(name, "system") {
            Role::System
        } else {
            Role::Other
        }
    }

    /// The colour of this role's log entries.
    pub fn color(self) -> (color: u32)
        ensures
            color == color_of(self),
    {
        match self {
            Role::Human => 0x3498db,
            Role::Assistant => 0x2ecc71,
            Role::System => 0x95a5a6,
            Role::Other => 0x7f8c8d,
        }
    }
}

/// The upper-case form that std's `str::to_uppercase` gives a text.
pub uninterp spec fn uppercase(text: Seq<char>) -> Seq<char>;

/// `str::to_uppercase` of std. The result depends on the text alone; it is
/// named here, not described: Unicode's case tables decide it.
#[verifier::external_body]
fn to_uppercase(text: &str) -> (upper: String)
    ensures
        upper@ == uppercase(text@),
{
    text.to_uppercase()
}

/// A decorated log entry, ready to be posted. Whoever posts it stamps it
/// with the time of posting.
#[derive(Debug, PartialEq, Eq)]
pub struct LogEmbed {
    /// A speech balloon and the role's label.
    pub title: String,
    /// The logged message.
    pub description: String,
    /// The role's colour, as `0xRRGGBB`.
    pub color: u32,
    /// The context of the message, where one was given.
    pub footer: Option<String>,
}

/// A `LogEmbed` with its texts as sequences of characters.
pub struct EmbedView {
    pub title: Seq<char>,
    pub description: Seq<char>,
    pub color: u32,
    pub footer: Option<Seq<char>>,
}

/// An optional text as an optional sequence of characters.
pub open spec fn text_view(text: Option<String>) -> Option<Seq<char>> {
    match text {
        Some(text) => Some(text@),
        None => None,
    }
}

/// An optional borrowed text as an optional sequence of characters.
pub open spec fn str_view(text: Option<&str>) -> Option<Seq<char>> {
    match text {
        Some(text) => Some(text@),
        None => None,
    }
}

impl View for LogEmbed {
    type V = EmbedView;

    open spec fn view(&self) -> EmbedView {
        EmbedView {
            title: self.title@,
            description: self.description@,
            color: self.color,
            footer: text_view(self.footer),
        }
    }
}

impl Clone for LogEmbed {
    fn clone(&self) -> (copy: Self)
        ensures
            copy@ == self@,
    {
        LogEmbed {
            title: self.title.clone(),
            description: self.description.clone(),
            color: self.color,
            footer: match &self.footer {
                Some(footer) => Some(footer.clone()),
                None => None,
            },
        }
    }
}

/// The title of a log entry: a speech balloon, a space and the label.
pub open spec fn embed_title(label: Seq<char>) -> Seq<char> {
    "\u{1F4AC} "@ + label
}

/// The log entry for a message, given the label to show for its role.
pub open spec fn labelled_entry(
    label: Seq<char>,
    role: Seq<char>,
    message: Seq<char>,
    context: Option<Seq<char>>,
) -> EmbedView {
    EmbedView {
        title: embed_title(label),
        description: message,
        color: color_of(role_of(role)),
        footer: context,
    }
}

/// The log entry for a message: its label is the role's name in upper case.
pub open spec fn log_entry(
    role: Seq<char>,
    message: Seq<char>,
    context: Option<Seq<char>>,
) -> EmbedView {
    labelled_entry(uppercase(role), role, message, context)
}

/// Builds the log entry for a message, given the label to show for its role.
pub fn decorate_as(label: &str, role: &str, message: &str, context: Option<&str>) -> (entry:
    LogEmbed)
    ensures
        entry@ == labelled_entry(label@, role@, message@, str_view(context)),
{
    let mut title = String::from_str("\u{1F4AC} ");
    title.append(label);
    let footer = match context {
        Some(context) => Some(String::from_str(context)),
        None => None,
    };
    LogEmbed {
        title,
        description: String::from_str(message),
        color: Role::parse(role).color(),
        footer,
    }
}

/// Builds the log entry for a message.
pub fn decorate(role: &str, message: &str, context: Option<&str>) -> (entry: LogEmbed)
    ensures
        entry@ == log_entry(role@, message@, str_view(context)),
{
    let label = to_uppercase(role);
    decorate_as(label.as_str(), role, message, context)
}

} // verus!
