use human_in_the_loop::discord::Handler;
use human_in_the_loop::discord::HumanInDiscord;
use human_in_the_loop::discord::DEFAULT_LOG_THREAD_NAME;
use human_in_the_loop::error::RelayError;
use human_in_the_loop::protocol::Action;
use human_in_the_loop::protocol::Archive;
use human_in_the_loop::protocol::Body;
use human_in_the_loop::protocol::Call;
use human_in_the_loop::protocol::Event;
use human_in_the_loop::protocol::Operation;
use human_in_the_loop::protocol::Stage;
use human_in_the_loop::text::LogEmbed;

const RESPONDENT: u64 = 42;
const STRANGER: u64 = 43;
const QUESTIONS: u64 = 1000;
const LOGS: u64 = 3000;

fn relay(logging: bool, log_channel: Option<u64>) -> HumanInDiscord<&'static str> {
    HumanInDiscord::new(RESPONDENT, QUESTIONS, logging, log_channel, "Log".to_string())
}

fn connected(logging: bool, log_channel: Option<u64>) -> HumanInDiscord<&'static str> {
    let mut relay = relay(logging, log_channel);
    assert!(relay.ready("session"));
    relay
}

fn text(content: &str) -> Body {
    Body::Text(content.to_string())
}

fn finished(operation: Operation) -> Call {
    Call { operation, stage: Stage::Finished }
}

fn message(channel: u64, author: u64, content: &str) -> Event {
    Event::Message { channel, author, content: content.to_string() }
}

#[test]
fn log_thread_has_a_default_name() {
    assert_eq!(DEFAULT_LOG_THREAD_NAME, "Conversation Log");
    let name = DEFAULT_LOG_THREAD_NAME.to_string();
    let mut relay: HumanInDiscord<()> =
        HumanInDiscord::new(RESPONDENT, QUESTIONS, true, Some(LOGS), name);
    relay.ready(());
    let (_, action) = relay.log_conversation("human", "hello", None);
    assert_eq!(
        action,
        Action::CreateThread {
            parent: LOGS,
            name: "Conversation Log".to_string(),
            archive: Archive::OneWeek,
        }
    );
}

#[test]
fn gate_is_closed_at_first() {
    let gate: Handler<u8> = Handler::default();
    assert!(!gate.connected());
    assert_eq!(gate.get(), Err(RelayError::NotReady));
}

#[test]
fn gate_keeps_the_first_handle() {
    let mut gate: Handler<&str> = Handler::default();
    assert!(gate.set("first"));
    assert!(gate.connected());
    assert_eq!(gate.get(), Ok(&"first"));
    assert!(!gate.set("second"));
    assert_eq!(gate.get(), Ok(&"first"));
}

#[test]
fn new_relay_waits_for_the_gateway() {
    let relay = relay(true, Some(LOGS));
    assert!(!relay.handler().connected());
    assert_eq!(relay.handler().get(), Err(RelayError::NotReady));
}

#[test]
fn relay_keeps_the_first_session() {
    let mut relay = relay(false, None);
    assert!(relay.ready("one"));
    assert!(!relay.ready("two"));
    assert_eq!(relay.handler().get(), Ok(&"one"));
}

#[test]
fn ask_before_the_gateway_is_ready_fails() {
    let mut relay = relay(false, None);
    let (call, action) = relay.ask("anyone there?");
    assert_eq!(call, finished(Operation::Ask));
    assert_eq!(action, Action::Fail(RelayError::NotReady));
    assert!(!action.changes_platform());
    assert!(relay.ready("session"));
    let (_, action) = relay.ask("anyone there?");
    assert_eq!(
        action,
        Action::CreateThread {
            parent: QUESTIONS,
            name: "anyone there?".to_string(),
            archive: Archive::OneDay,
        }
    );
}

#[test]
fn log_before_the_gateway_is_ready_fails() {
    let mut relay = relay(true, Some(LOGS));
    let (call, action) = relay.log_conversation("human", "hello", None);
    assert_eq!(call, finished(Operation::Log));
    assert_eq!(action, Action::Fail(RelayError::NotReady));
    assert!(!action.changes_platform());
    assert!(relay.ready("session"));
    let (_, action) = relay.log_conversation("human", "hello", None);
    assert_eq!(
        action,
        Action::CreateThread { parent: LOGS, name: "Log".to_string(), archive: Archive::OneWeek }
    );
}

#[test]
fn log_with_logging_off_succeeds_and_does_nothing() {
    for channel in [None, Some(LOGS)] {
        let mut waiting = relay(false, channel);
        let (call, action) = waiting.log_conversation("assistant", "done", Some("ctx"));
        assert_eq!(call, finished(Operation::Log));
        assert_eq!(action, Action::Logged);
        assert!(!action.changes_platform());
        assert!(action.ends_call());

        let mut ready = connected(false, channel);
        let (call, action) = ready.log_conversation("assistant", "done", Some("ctx"));
        assert_eq!(call, finished(Operation::Log));
        assert_eq!(action, Action::Logged);
        let (_, action) = ready.ask("is the question thread still to be created?");
        assert!(matches!(action, Action::CreateThread { .. }));
    }
}

#[test]
fn log_without_a_channel_is_misconfigured() {
    let mut waiting = relay(true, None);
    let (call, action) = waiting.log_conversation("assistant", "done", None);
    assert_eq!(call, finished(Operation::Log));
    assert_eq!(action, Action::Fail(RelayError::LoggingMisconfigured));
    assert!(!action.changes_platform());

    let mut ready = connected(true, None);
    let (call, action) = ready.log_conversation("assistant", "done", None);
    assert_eq!(call, finished(Operation::Log));
    assert_eq!(action, Action::Fail(RelayError::LoggingMisconfigured));
    assert!(!action.changes_platform());
}

#[test]
fn question_is_asked_and_answered() {
    let mut relay = connected(false, None);
    let (call, action) = relay.ask("What port should the service use?");
    assert_eq!(
        action,
        Action::CreateThread {
            parent: QUESTIONS,
            name: "What port should the service use?".to_string(),
            archive: Archive::OneDay,
        }
    );
    assert!(action.changes_platform());
    let (call, action) = relay.resume(call, Event::ThreadCreated(2000));
    assert_eq!(
        action,
        Action::Send { thread: 2000, body: text("<@42> What port should the service use?") }
    );
    let (call, action) = relay.resume(call, Event::Sent);
    assert_eq!(action, Action::AwaitReply { thread: 2000, author: RESPONDENT });
    assert!(!action.changes_platform());
    assert!(!action.ends_call());
    let (call, action) = relay.resume(call, message(2000, RESPONDENT, "8080"));
    assert_eq!(action, Action::Answer("8080".to_string()));
    assert!(action.ends_call());
    assert_eq!(call, finished(Operation::Ask));
}

#[test]
fn message_is_logged() {
    let mut relay = connected(true, Some(LOGS));
    let (call, action) = relay.log_conversation("assistant", "Deployed v1.2", Some("build #42"));
    assert_eq!(
        action,
        Action::CreateThread { parent: LOGS, name: "Log".to_string(), archive: Archive::OneWeek }
    );
    let (call, action) = relay.resume(call, Event::ThreadCreated(3100));
    assert_eq!(
        action,
        Action::Send {
            thread: 3100,
            body: Body::Embed(LogEmbed {
                title: "\u{1F4AC} ASSISTANT".to_string(),
                description: "Deployed v1.2".to_string(),
                color: 0x2ecc71,
                footer: Some("build #42".to_string()),
            }),
        }
    );
    let (call, action) = relay.resume(call, Event::Sent);
    assert_eq!(action, Action::Logged);
    assert_eq!(call, finished(Operation::Log));
}

#[test]
fn second_log_entry_goes_into_the_same_thread() {
    let mut relay = connected(true, Some(LOGS));
    let (call, _) = relay.log_conversation("human", "first", None);
    let (call, _) = relay.resume(call, Event::ThreadCreated(3100));
    relay.resume(call, Event::Sent);
    let (call, action) = relay.log_conversation("system", "second", None);
    assert_eq!(call, Call { operation: Operation::Log, stage: Stage::Sending(3100) });
    assert_eq!(
        action,
        Action::Send {
            thread: 3100,
            body: Body::Embed(LogEmbed {
                title: "\u{1F4AC} SYSTEM".to_string(),
                description: "second".to_string(),
                color: 0x95a5a6,
                footer: None,
            }),
        }
    );
}

#[test]
fn questions_and_log_have_threads_of_their_own() {
    let mut relay = connected(true, Some(LOGS));
    let (ask, action) = relay.ask("first?");
    assert!(matches!(action, Action::CreateThread { parent: QUESTIONS, .. }));
    let (log, action) = relay.log_conversation("human", "first?", None);
    assert!(matches!(action, Action::CreateThread { parent: LOGS, .. }));
    let (_, action) = relay.resume(log, Event::ThreadCreated(3100));
    assert!(matches!(action, Action::Send { thread: 3100, .. }));
    let (_, action) = relay.resume(ask, Event::ThreadCreated(2000));
    assert_eq!(action, Action::Send { thread: 2000, body: text("<@42> first?") });
    let (_, action) = relay.ask("second?");
    assert_eq!(action, Action::Send { thread: 2000, body: text("<@42> second?") });
    let (_, action) = relay.log_conversation("human", "second?", None);
    assert!(matches!(action, Action::Send { thread: 3100, .. }));
}

#[test]
fn two_questions_in_succession_share_the_thread() {
    let mut relay = connected(false, None);
    let (call, _) = relay.ask("first?");
    let (call, action) = relay.resume(call, Event::ThreadCreated(2000));
    assert_eq!(action, Action::Send { thread: 2000, body: text("<@42> first?") });
    let (call, action) = relay.resume(call, Event::Sent);
    assert_eq!(action, Action::AwaitReply { thread: 2000, author: RESPONDENT });
    let (_, action) = relay.resume(call, message(2000, RESPONDENT, "yes"));
    assert_eq!(action, Action::Answer("yes".to_string()));

    let (call, action) = relay.ask("second?");
    assert_eq!(action, Action::Send { thread: 2000, body: text("<@42> second?") });
    let (call, action) = relay.resume(call, Event::Sent);
    assert_eq!(action, Action::AwaitReply { thread: 2000, author: RESPONDENT });
    let (_, action) = relay.resume(call, message(2000, RESPONDENT, "no"));
    assert_eq!(action, Action::Answer("no".to_string()));
}

#[test]
fn thread_is_titled_after_the_first_hundred_characters() {
    let mut relay = connected(false, None);
    let question = "x".repeat(99) + "yz and more";
    let (call, action) = relay.ask(&question);
    assert_eq!(
        action,
        Action::CreateThread {
            parent: QUESTIONS,
            name: "x".repeat(99) + "y",
            archive: Archive::OneDay,
        }
    );
    let (_, action) = relay.resume(call, Event::ThreadCreated(2000));
    let body = Body::Text(format!("<@42> {question}"));
    assert_eq!(action, Action::Send { thread: 2000, body });
}

#[test]
fn questions_that_come_together_create_one_thread() {
    let mut relay = connected(false, None);
    let (first, action) = relay.ask("one?");
    assert_eq!(
        action,
        Action::CreateThread {
            parent: QUESTIONS,
            name: "one?".to_string(),
            archive: Archive::OneDay,
        }
    );
    let (second, action) = relay.ask("two?");
    assert_eq!(action, Action::AwaitThread);
    let waiting = Stage::Waiting(text("<@42> two?"));
    assert_eq!(second, Call { operation: Operation::Ask, stage: waiting });
    let (third, action) = relay.ask("three?");
    assert_eq!(action, Action::AwaitThread);
    assert!(!action.changes_platform());

    let (_, action) = relay.resume(third, Event::ThreadCreated(2000));
    assert_eq!(action, Action::Send { thread: 2000, body: text("<@42> three?") });
    let (_, action) = relay.resume(first, Event::ThreadCreated(2000));
    assert_eq!(action, Action::Send { thread: 2000, body: text("<@42> one?") });
    let (_, action) = relay.resume(second, Event::ThreadCreated(2000));
    assert_eq!(action, Action::Send { thread: 2000, body: text("<@42> two?") });
    let (_, action) = relay.ask("four?");
    assert_eq!(action, Action::Send { thread: 2000, body: text("<@42> four?") });
}

#[test]
fn thread_reported_first_is_the_thread_of_all() {
    let mut relay = connected(false, None);
    let (first, _) = relay.ask("one?");
    let (second, _) = relay.ask("two?");
    let (_, action) = relay.resume(first, Event::ThreadCreated(2000));
    assert_eq!(action, Action::Send { thread: 2000, body: text("<@42> one?") });
    let (_, action) = relay.resume(second, Event::ThreadCreated(2999));
    assert_eq!(action, Action::Send { thread: 2000, body: text("<@42> two?") });
}

#[test]
fn failed_creation_fails_every_waiting_question() {
    let mut relay = connected(false, None);
    let (first, _) = relay.ask("one?");
    let (second, _) = relay.ask("two?");
    let refused = || Event::ThreadCreationFailed("Missing Permissions".to_string());
    let (call, action) = relay.resume(first, refused());
    assert_eq!(call, finished(Operation::Ask));
    assert_eq!(
        action,
        Action::Fail(RelayError::ThreadCreationFailed("Missing Permissions".to_string()))
    );
    let (call, action) = relay.resume(second, refused());
    assert_eq!(call, finished(Operation::Ask));
    assert_eq!(
        action,
        Action::Fail(RelayError::ThreadCreationFailed("Missing Permissions".to_string()))
    );
}

#[test]
fn question_after_a_failed_creation_creates_anew() {
    let mut relay = connected(false, None);
    let (call, _) = relay.ask("one?");
    relay.resume(call, Event::ThreadCreationFailed("Missing Permissions".to_string()));
    let (call, action) = relay.ask("two?");
    assert_eq!(
        action,
        Action::CreateThread {
            parent: QUESTIONS,
            name: "two?".to_string(),
            archive: Archive::OneDay,
        }
    );
    let (_, action) = relay.resume(call, Event::ThreadCreated(2001));
    assert_eq!(action, Action::Send { thread: 2001, body: text("<@42> two?") });
}

#[test]
fn waiting_question_that_fails_leaves_the_creation_under_way() {
    let mut relay = connected(false, None);
    let (first, _) = relay.ask("one?");
    let (second, _) = relay.ask("two?");
    relay.resume(second, Event::ThreadCreationFailed("gone".to_string()));
    let (_, action) = relay.ask("three?");
    assert_eq!(action, Action::AwaitThread);
    let (_, action) = relay.resume(first, Event::ThreadCreated(2000));
    assert_eq!(action, Action::Send { thread: 2000, body: text("<@42> one?") });
}

#[test]
fn failed_send_fails_the_question() {
    let mut relay = connected(false, None);
    let (call, _) = relay.ask("one?");
    let (call, _) = relay.resume(call, Event::ThreadCreated(2000));
    let (call, action) = relay.resume(call, Event::SendFailed("Unknown Channel".to_string()));
    assert_eq!(call, finished(Operation::Ask));
    assert_eq!(action, Action::Fail(RelayError::SendFailed("Unknown Channel".to_string())));
    let (_, action) = relay.ask("two?");
    assert_eq!(action, Action::Send { thread: 2000, body: text("<@42> two?") });
}

#[test]
fn failed_send_fails_the_log_entry() {
    let mut relay = connected(true, Some(LOGS));
    let (call, _) = relay.log_conversation("human", "hello", None);
    let (call, _) = relay.resume(call, Event::ThreadCreated(3100));
    let (call, action) = relay.resume(call, Event::SendFailed("Unknown Channel".to_string()));
    assert_eq!(call, finished(Operation::Log));
    assert_eq!(action, Action::Fail(RelayError::SendFailed("Unknown Channel".to_string())));
}

#[test]
fn failed_creation_fails_the_log_entry() {
    let mut relay = connected(true, Some(LOGS));
    let (call, _) = relay.log_conversation("human", "hello", None);
    let (_, action) = relay.resume(call, Event::ThreadCreationFailed("no".to_string()));
    assert_eq!(action, Action::Fail(RelayError::ThreadCreationFailed("no".to_string())));
    let (_, action) = relay.log_conversation("human", "hello again", None);
    assert!(matches!(action, Action::CreateThread { parent: LOGS, .. }));
}

#[test]
fn released_wait_is_no_reply() {
    let mut relay = connected(false, None);
    let (call, _) = relay.ask("one?");
    let (call, _) = relay.resume(call, Event::ThreadCreated(2000));
    let (call, _) = relay.resume(call, Event::Sent);
    let (call, action) = relay.resume(call, Event::NoReply);
    assert_eq!(call, finished(Operation::Ask));
    assert_eq!(action, Action::Fail(RelayError::NoReplyObserved));
}

#[test]
fn message_of_a_stranger_is_no_answer() {
    let mut relay = connected(false, None);
    let (call, _) = relay.ask("one?");
    let (call, _) = relay.resume(call, Event::ThreadCreated(2000));
    let (call, _) = relay.resume(call, Event::Sent);
    let listening = Call { operation: Operation::Ask, stage: Stage::Listening(2000) };
    assert_eq!(call, listening);
    let (call, action) = relay.resume(call, message(2000, STRANGER, "8080"));
    assert_eq!(action, Action::Ignore);
    assert_eq!(call, listening);
    let (call, action) = relay.resume(call, message(2000, 0, "8080"));
    assert_eq!(action, Action::Ignore);
    let (_, action) = relay.resume(call, message(2000, RESPONDENT, "9090"));
    assert_eq!(action, Action::Answer("9090".to_string()));
}

#[test]
fn message_in_another_channel_is_no_answer() {
    let mut relay = connected(false, None);
    let (call, _) = relay.ask("one?");
    let (call, _) = relay.resume(call, Event::ThreadCreated(2000));
    let (call, _) = relay.resume(call, Event::Sent);
    let (call, action) = relay.resume(call, message(QUESTIONS, RESPONDENT, "8080"));
    assert_eq!(action, Action::Ignore);
    let (_, action) = relay.resume(call, message(2000, RESPONDENT, "8080"));
    assert_eq!(action, Action::Answer("8080".to_string()));
}

#[test]
fn message_before_the_question_stands_is_no_answer() {
    let mut relay = connected(false, None);
    let (call, _) = relay.ask("one?");
    let (call, action) = relay.resume(call, message(2000, RESPONDENT, "early"));
    assert_eq!(action, Action::Ignore);
    let (call, _) = relay.resume(call, Event::ThreadCreated(2000));
    let (call, action) = relay.resume(call, message(2000, RESPONDENT, "early"));
    assert_eq!(action, Action::Ignore);
    assert_eq!(call, Call { operation: Operation::Ask, stage: Stage::Sending(2000) });
}

#[test]
fn events_out_of_turn_change_nothing() {
    let mut relay = connected(true, Some(LOGS));
    let (call, _) = relay.ask("one?");
    let creating = call.clone();
    for event in [Event::Sent, Event::SendFailed("x".to_string()), Event::NoReply] {
        let (after, action) = relay.resume(call.clone(), event);
        assert_eq!(action, Action::Ignore);
        assert_eq!(after, creating);
    }
    let (call, _) = relay.resume(call, Event::ThreadCreated(2000));
    for event in [
        Event::ThreadCreated(5),
        Event::ThreadCreationFailed("x".to_string()),
        Event::NoReply,
    ] {
        let (after, action) = relay.resume(call.clone(), event);
        assert_eq!(action, Action::Ignore);
        assert_eq!(after, call);
    }
    let (call, _) = relay.resume(call, Event::Sent);
    for event in [Event::ThreadCreated(5), Event::Sent, Event::SendFailed("x".to_string())] {
        let (after, action) = relay.resume(call.clone(), event);
        assert_eq!(action, Action::Ignore);
        assert_eq!(after, call);
    }
    let (_, action) = relay.ask("two?");
    assert_eq!(action, Action::Send { thread: 2000, body: text("<@42> two?") });
}

#[test]
fn finished_call_stays_finished() {
    let mut relay = connected(false, None);
    for event in [
        Event::ThreadCreated(1),
        Event::ThreadCreationFailed("x".to_string()),
        Event::Sent,
        Event::SendFailed("x".to_string()),
        message(1, RESPONDENT, "hi"),
        Event::NoReply,
    ] {
        let (call, action) = relay.resume(finished(Operation::Ask), event);
        assert_eq!(call, finished(Operation::Ask));
        assert_eq!(action, Action::Ignore);
    }
    let (_, action) = relay.ask("one?");
    assert!(matches!(action, Action::CreateThread { .. }));
}

#[test]
fn log_entry_is_not_answered() {
    let mut relay = connected(true, Some(LOGS));
    let (call, _) = relay.log_conversation("human", "hello", None);
    let (call, _) = relay.resume(call, Event::ThreadCreated(3100));
    let (call, action) = relay.resume(call, message(3100, RESPONDENT, "hi"));
    assert_eq!(action, Action::Ignore);
    let (_, action) = relay.resume(call, Event::Sent);
    assert_eq!(action, Action::Logged);
}

#[test]
fn overlapping_questions_are_answered_by_the_same_message() {
    let mut relay = connected(false, None);
    let (first, _) = relay.ask("one?");
    let (first, _) = relay.resume(first, Event::ThreadCreated(2000));
    let (first, _) = relay.resume(first, Event::Sent);
    let (second, _) = relay.ask("two?");
    let (second, _) = relay.resume(second, Event::Sent);
    let (_, action) = relay.resume(first, message(2000, RESPONDENT, "both"));
    assert_eq!(action, Action::Answer("both".to_string()));
    let (_, action) = relay.resume(second, message(2000, RESPONDENT, "both"));
    assert_eq!(action, Action::Answer("both".to_string()));
}
