use rustix::pty::{openpt, OpenptFlags};
use rustix::termios::{tcgetattr, LocalModes, Termios};
use unix_terminal::protocol::{
    Channel, InternalEvent, Query, Reply, Request, Step, TerminalError, POLL_TIMEOUT_MS,
};
use unix_terminal::global;
use unix_terminal::terminal::Terminal;

type Plain = Terminal<u8, u8, u8>;
type TestReply = Reply<&'static str>;

/// The mode of a new terminal.
fn cooked() -> Termios {
    let pty = openpt(OpenptFlags::RDWR | OpenptFlags::NOCTTY).unwrap();
    tcgetattr(&pty).unwrap()
}

fn done() -> TestReply {
    Reply::Completed(Ok(()))
}

fn failed(error: &'static str) -> TestReply {
    Reply::Completed(Err(error))
}

fn event(event: InternalEvent) -> TestReply {
    Reply::Event(Ok(event))
}

/// What a request is, in a few words.
fn name(request: &Request) -> String {
    match request {
        Request::SetAttributes(mode) => {
            if mode.local_modes.contains(LocalModes::ICANON) {
                "set cooked".to_string()
            } else {
                "set raw".to_string()
            }
        }
        Request::GetAttributes => "get".to_string(),
        Request::Write(Channel::Terminal, query) => format!("write tty {:?}", query),
        Request::Write(Channel::Stdout, query) => format!("write stdout {:?}", query),
        Request::Flush(Channel::Terminal) => "flush tty".to_string(),
        Request::Flush(Channel::Stdout) => "flush stdout".to_string(),
        Request::Poll(filter, timeout) => {
            assert_eq!(*timeout, 2000);
            format!("poll {:?}", filter)
        }
        Request::Read(filter) => format!("read {:?}", filter),
        Request::WindowSize => "window size".to_string(),
        Request::Tput(dimension) => format!("tput {:?}", dimension),
    }
}

fn keyboard(
    terminal: &mut Plain,
    replies: Vec<TestReply>,
) -> (Vec<String>, Result<bool, TerminalError<&'static str>>) {
    let mut names = Vec::new();
    let mut step = terminal.supports_keyboard_enhancement();
    for reply in replies {
        match step {
            Step::Ask(request, pending) => {
                names.push(name(&request));
                step = terminal.supports_keyboard_enhancement_resume(pending, reply);
            }
            Step::Done(_) => panic!("ended too early after {:?}", names),
        }
    }
    match step {
        Step::Done(end) => (names, end),
        Step::Ask(_, _) => panic!("did not end after {:?}", names),
    }
}

fn cursor(
    terminal: &mut Plain,
    raw_mode: bool,
    replies: Vec<TestReply>,
) -> (Vec<String>, Result<(u16, u16), TerminalError<&'static str>>) {
    let mut names = Vec::new();
    let mut step = terminal.cursor_position(raw_mode);
    for reply in replies {
        match step {
            Step::Ask(request, pending) => {
                names.push(name(&request));
                step = terminal.cursor_position_resume(pending, reply);
            }
            Step::Done(_) => panic!("ended too early after {:?}", names),
        }
    }
    match step {
        Step::Done(end) => (names, end),
        Step::Ask(_, _) => panic!("did not end after {:?}", names),
    }
}

fn plain() -> Plain {
    Terminal::new(0, 0, 0)
}

fn in_raw_mode() -> Plain {
    let mut terminal = plain();
    let replies: Vec<TestReply> = vec![Reply::Attributes(Ok(cooked())), done()];
    let mut step = terminal.enable_raw_mode();
    for reply in replies {
        if let Step::Ask(_, pending) = step {
            step = terminal.enable_raw_mode_resume(pending, reply);
        } else {
            panic!("ended too early");
        }
    }
    assert!(terminal.is_raw_mode_enabled());
    terminal
}

#[test]
fn queries_are_escape_sequences() {
    assert_eq!(Query::KeyboardEnhancement.bytes(), b"\x1B[?u\x1B[c".to_vec());
    assert_eq!(Query::CursorPosition.bytes(), b"\x1B[6n".to_vec());
    assert_eq!(POLL_TIMEOUT_MS, 2000);
}

#[test]
fn timeouts_have_a_message() {
    assert_eq!(
        TerminalError::<u8>::KeyboardEnhancementTimeout.message(),
        Some("The keyboard enhancement status could not be read within a normal duration")
    );
    assert_eq!(
        TerminalError::<u8>::CursorPositionTimeout.message(),
        Some("The cursor position could not be read within a normal duration")
    );
    assert_eq!(TerminalError::Os(1u8).message(), None);
    assert_eq!(TerminalError::<u8>::LastOs.message(), None);
}

#[test]
fn keyboard_support_in_raw_mode() {
    let mut terminal = in_raw_mode();
    let (names, end) = keyboard(
        &mut terminal,
        vec![
            done(),
            done(),
            Reply::Polled(Ok(true)),
            event(InternalEvent::KeyboardEnhancementFlags(1)),
            event(InternalEvent::PrimaryDeviceAttributes),
        ],
    );
    assert!(matches!(end, Ok(true)));
    assert_eq!(
        names,
        vec![
            "write tty KeyboardEnhancement",
            "flush tty",
            "poll KeyboardEnhancementFlags",
            "read KeyboardEnhancementFlags",
            "read PrimaryDeviceAttributes",
        ]
    );
    assert!(terminal.is_raw_mode_enabled());
}

#[test]
fn keyboard_support_brackets_the_query() {
    let mut terminal = plain();
    let (names, end) = keyboard(
        &mut terminal,
        vec![
            Reply::Attributes(Ok(cooked())),
            done(),
            done(),
            done(),
            Reply::Polled(Err("interrupted")),
            Reply::Polled(Err("interrupted")),
            Reply::Polled(Ok(true)),
            event(InternalEvent::KeyboardEnhancementFlags(0)),
            Reply::Event(Err("no attributes")),
            done(),
        ],
    );
    assert!(matches!(end, Ok(true)));
    assert_eq!(
        names,
        vec![
            "get",
            "set raw",
            "write tty KeyboardEnhancement",
            "flush tty",
            "poll KeyboardEnhancementFlags",
            "poll KeyboardEnhancementFlags",
            "poll KeyboardEnhancementFlags",
            "read KeyboardEnhancementFlags",
            "read PrimaryDeviceAttributes",
            "set cooked",
        ]
    );
    assert!(!terminal.is_raw_mode_enabled());
}

#[test]
fn keyboard_without_flags_is_not_supported() {
    let answers = vec![
        Ok(InternalEvent::PrimaryDeviceAttributes),
        Ok(InternalEvent::Event),
        Ok(InternalEvent::CursorPosition(1, 1)),
        Err("unreadable"),
    ];
    for answer in answers {
        let replies = vec![done(), done(), Reply::Polled(Ok(true)), Reply::Event(answer)];
        let (_, end) = keyboard(&mut in_raw_mode(), replies);
        assert!(matches!(end, Ok(false)));
    }
}

#[test]
fn keyboard_that_does_not_answer_is_an_error() {
    let mut terminal = plain();
    let (names, end) = keyboard(
        &mut terminal,
        vec![
            Reply::Attributes(Ok(cooked())),
            done(),
            done(),
            done(),
            Reply::Polled(Ok(false)),
            done(),
        ],
    );
    assert!(matches!(end, Err(TerminalError::KeyboardEnhancementTimeout)));
    assert_eq!(names[names.len() - 1], "set cooked");
    assert!(!terminal.is_raw_mode_enabled());
}

#[test]
fn keyboard_query_that_cannot_be_sent_is_an_error() {
    let (_, end) = keyboard(&mut in_raw_mode(), vec![failed("no write")]);
    assert!(matches!(end, Err(TerminalError::Os("no write"))));
    let (_, end) = keyboard(&mut in_raw_mode(), vec![done(), failed("no flush")]);
    assert!(matches!(end, Err(TerminalError::Os("no flush"))));
}

#[test]
fn keyboard_query_is_not_asked_outside_raw_mode() {
    let mut terminal = plain();
    let (names, end) = keyboard(&mut terminal, vec![Reply::Attributes(Err("no attributes"))]);
    assert!(matches!(end, Err(TerminalError::Os("no attributes"))));
    assert_eq!(names, vec!["get"]);
    let (names, end) =
        keyboard(&mut terminal, vec![Reply::Attributes(Ok(cooked())), failed("no switch")]);
    assert!(matches!(end, Err(TerminalError::Os("no switch"))));
    assert_eq!(names, vec!["get", "set raw"]);
    assert!(!terminal.is_raw_mode_enabled());
}

#[test]
fn keyboard_answer_is_lost_where_raw_mode_stays_on() {
    let mut terminal = plain();
    let (_, end) = keyboard(
        &mut terminal,
        vec![
            Reply::Attributes(Ok(cooked())),
            done(),
            done(),
            done(),
            Reply::Polled(Ok(true)),
            event(InternalEvent::KeyboardEnhancementFlags(0)),
            event(InternalEvent::PrimaryDeviceAttributes),
            failed("no switch"),
        ],
    );
    assert!(matches!(end, Err(TerminalError::Os("no switch"))));
    assert!(terminal.is_raw_mode_enabled());
}

#[test]
fn keyboard_query_needs_no_reader_before_it_is_out() {
    let mut terminal = Plain::without_events(0);
    let replies = vec![Reply::Attributes(Ok(cooked())), done(), failed("no write"), done()];
    let (_, end) = keyboard(&mut terminal, replies);
    assert!(matches!(end, Err(TerminalError::Os("no write"))));
    assert!(!terminal.is_raw_mode_enabled());
}

#[test]
fn cursor_position_is_the_first_report() {
    let mut terminal = plain();
    let (names, end) = cursor(
        &mut terminal,
        true,
        vec![
            done(),
            done(),
            Reply::Polled(Err("interrupted")),
            Reply::Polled(Ok(true)),
            event(InternalEvent::Event),
            Reply::Polled(Ok(true)),
            Reply::Event(Err("unreadable")),
            Reply::Polled(Ok(true)),
            event(InternalEvent::CursorPosition(12, 34)),
        ],
    );
    assert!(matches!(end, Ok((12, 34))));
    assert_eq!(
        names,
        vec![
            "write stdout CursorPosition",
            "flush stdout",
            "poll CursorPosition",
            "poll CursorPosition",
            "read CursorPosition",
            "poll CursorPosition",
            "read CursorPosition",
            "poll CursorPosition",
            "read CursorPosition",
        ]
    );
    assert!(!terminal.is_raw_mode_enabled());
}

#[test]
fn cursor_position_brackets_the_query() {
    let mut terminal = plain();
    let (names, end) = cursor(
        &mut terminal,
        false,
        vec![
            Reply::Attributes(Ok(cooked())),
            done(),
            done(),
            done(),
            Reply::Polled(Ok(true)),
            event(InternalEvent::CursorPosition(0, 65535)),
            done(),
        ],
    );
    assert!(matches!(end, Ok((0, 65535))));
    assert_eq!(
        names,
        vec![
            "get",
            "set raw",
            "write stdout CursorPosition",
            "flush stdout",
            "poll CursorPosition",
            "read CursorPosition",
            "set cooked",
        ]
    );
    assert!(!terminal.is_raw_mode_enabled());
}

#[test]
fn cursor_that_is_not_reported_is_an_error() {
    let replies = vec![done(), done(), Reply::Polled(Ok(false))];
    let (_, end) = cursor(&mut plain(), true, replies);
    assert!(matches!(end, Err(TerminalError::CursorPositionTimeout)));
}

#[test]
fn cursor_query_that_cannot_be_sent_is_an_error() {
    let (_, end) = cursor(&mut plain(), true, vec![failed("no write")]);
    assert!(matches!(end, Err(TerminalError::Os("no write"))));
    let (_, end) = cursor(&mut plain(), true, vec![done(), failed("no flush")]);
    assert!(matches!(end, Err(TerminalError::Os("no flush"))));
}

#[test]
fn cursor_answer_is_lost_where_raw_mode_stays_on() {
    let mut terminal = plain();
    let (_, end) = cursor(
        &mut terminal,
        false,
        vec![
            Reply::Attributes(Ok(cooked())),
            done(),
            done(),
            done(),
            Reply::Polled(Ok(true)),
            event(InternalEvent::CursorPosition(1, 2)),
            failed("no switch"),
        ],
    );
    assert!(matches!(end, Err(TerminalError::Os("no switch"))));
    assert!(terminal.is_raw_mode_enabled());
}

#[test]
fn cursor_position_ends_raw_mode_of_a_terminal_aside() {
    let mut terminal = in_raw_mode();
    let (names, end) = cursor(
        &mut terminal,
        false,
        vec![
            done(),
            done(),
            Reply::Polled(Ok(true)),
            event(InternalEvent::CursorPosition(3, 4)),
            done(),
        ],
    );
    assert!(matches!(end, Ok((3, 4))));
    assert_eq!(names[0], "write stdout CursorPosition");
    assert_eq!(names[4], "set cooked");
    assert!(!terminal.is_raw_mode_enabled());
}

#[test]
fn terminal_of_the_process_answers_the_keyboard_question() {
    let answers = vec![
        (Reply::Polled(Ok(true)), Some(InternalEvent::KeyboardEnhancementFlags(5))),
        (Reply::Polled(Ok(true)), Some(InternalEvent::PrimaryDeviceAttributes)),
        (Reply::Polled(Ok(false)), None),
    ];
    let mut ends = Vec::new();
    for (polled, answer) in answers {
        let mut slot: Option<Plain> = None;
        let opened: Result<(u8, u8, u8), &'static str> = Ok((0, 0, 0));
        assert!(global::terminal_with_events_resume(&mut slot, opened).is_ok());
        let mut terminal = slot.unwrap();
        let mut replies = vec![Reply::Attributes(Ok(cooked())), done(), done(), done()];
        replies.push(Reply::Polled(Err("interrupted")));
        replies.push(polled);
        if let Some(answer) = answer {
            replies.push(event(answer));
            if answer == InternalEvent::KeyboardEnhancementFlags(5) {
                replies.push(event(InternalEvent::PrimaryDeviceAttributes));
            }
        }
        replies.push(done());
        let (_, end) = keyboard(&mut terminal, replies);
        assert!(!terminal.is_raw_mode_enabled());
        ends.push(end);
    }
    assert!(matches!(ends[0], Ok(true)));
    assert!(matches!(ends[1], Ok(false)));
    assert!(matches!(ends[2], Err(TerminalError::KeyboardEnhancementTimeout)));
}
