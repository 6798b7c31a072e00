use unix_terminal::global;
use unix_terminal::global::Acquire;
use unix_terminal::protocol::{Request, Step, TerminalError};
use unix_terminal::terminal::Terminal;

type Named = Terminal<String, Vec<u8>, u32>;

fn named() -> Named {
    Terminal::new("tty".to_string(), vec![1, 2, 3], 7)
}

#[test]
fn new_terminal_has_its_events() {
    let mut terminal = named();
    assert_eq!(terminal.file(), "tty");
    assert_eq!(terminal.event_reader(), Some(&7));
    assert!(terminal.has_input_stream());
    assert_eq!(terminal.input_stream(), &vec![1, 2, 3]);
}

#[test]
fn file_can_be_written() {
    let mut terminal = named();
    terminal.file_mut().push_str("0");
    assert_eq!(terminal.file(), "tty0");
}

#[test]
fn input_stream_is_the_one_in_the_terminal() {
    let mut terminal = named();
    terminal.input_stream().push(4);
    assert_eq!(terminal.input_stream(), &vec![1, 2, 3, 4]);
}

#[test]
fn taking_the_stream_leaves_the_reader() {
    let mut terminal = named();
    assert_eq!(terminal.take_input_stream(), vec![1, 2, 3]);
    assert!(!terminal.has_input_stream());
    assert_eq!(terminal.event_reader(), Some(&7));
    assert_eq!(terminal.file(), "tty");
}

#[test]
fn terminal_of_the_process_is_opened_once() {
    let mut slot: Option<Named> = None;
    assert_eq!(global::terminal(&slot), Acquire::Open);
    assert_eq!(global::terminal_resume(&mut slot, Ok::<String, &str>("tty".to_string())), Ok(()));
    assert_eq!(global::terminal(&slot), Acquire::Ready);
    let terminal = slot.unwrap();
    assert_eq!(terminal.file(), "tty");
    assert_eq!(terminal.event_reader(), None);
    assert!(!terminal.has_input_stream());
    assert!(!terminal.is_raw_mode_enabled());
}

#[test]
fn terminal_of_the_process_stays_closed_where_it_cannot_be_opened() {
    let mut slot: Option<Named> = None;
    assert_eq!(global::terminal_resume(&mut slot, Err("no tty")), Err("no tty"));
    assert!(slot.is_none());
    assert_eq!(global::terminal(&slot), Acquire::Open);
}

#[test]
fn a_terminal_that_was_never_needed_is_not_in_raw_mode() {
    let slot: Option<Named> = None;
    assert!(!global::is_raw_mode_enabled(&slot));
    assert!(!global::is_raw_mode_enabled(&Some(named())));
}

#[test]
fn operations_fail_where_the_terminal_cannot_be_acquired() {
    fn none() -> Result<&'static Named, &'static str> {
        Err("no tty")
    }
    assert!(matches!(global::window_size(none()), Step::Done(Err(TerminalError::Os("no tty")))));
    assert!(matches!(global::size(none()), Step::Done(Err(TerminalError::Os("no tty")))));
    assert!(matches!(global::enable_raw_mode(none()), Step::Done(Err(TerminalError::Os("no tty")))));
    assert!(matches!(global::disable_raw_mode(none()), Step::Done(Err(TerminalError::Os("no tty")))));
    assert!(matches!(
        global::supports_keyboard_enhancement(none()),
        Step::Done(Err(TerminalError::Os("no tty")))
    ));
}

#[test]
fn operations_begin_as_on_the_terminal() {
    let terminal = named();
    let ok: Result<&Named, &str> = Ok(&terminal);
    assert!(matches!(global::window_size(ok), Step::Ask(Request::WindowSize, _)));
    assert!(matches!(global::size(ok), Step::Ask(Request::WindowSize, _)));
    assert!(matches!(global::enable_raw_mode(ok), Step::Ask(Request::GetAttributes, _)));
    assert!(matches!(global::disable_raw_mode(ok), Step::Done(Ok(()))));
    assert!(matches!(
        global::supports_keyboard_enhancement(ok),
        Step::Ask(Request::GetAttributes, _)
    ));
}

#[test]
fn terminal_of_the_process_is_opened_with_its_events() {
    let mut slot: Option<Named> = None;
    assert_eq!(global::terminal_with_events(&slot), Acquire::Open);
    let opened: Result<(String, Vec<u8>, u32), &str> = Ok(("tty".to_string(), vec![1], 9));
    assert_eq!(global::terminal_with_events_resume(&mut slot, opened), Ok(()));
    assert_eq!(global::terminal_with_events(&slot), Acquire::Ready);
    assert_eq!(global::terminal(&slot), Acquire::Ready);
    let mut terminal = slot.unwrap();
    assert_eq!(terminal.file(), "tty");
    assert_eq!(terminal.event_reader(), Some(&9));
    assert_eq!(terminal.take_input_stream(), vec![1]);
    assert!(!terminal.is_raw_mode_enabled());
}

#[test]
fn events_are_attached_to_a_terminal_that_is_open() {
    let mut slot: Option<Named> = Some(Terminal::without_events("tty".to_string()));
    assert_eq!(global::terminal(&slot), Acquire::Ready);
    assert_eq!(global::terminal_with_events(&slot), Acquire::Attach);
    assert_eq!(global::attach_events_resume(&mut slot, Err("no events")), Err("no events"));
    assert_eq!(global::terminal_with_events(&slot), Acquire::Attach);
    let events: Result<(Vec<u8>, u32), &str> = Ok((vec![2], 5));
    assert_eq!(global::attach_events_resume(&mut slot, events), Ok(()));
    assert_eq!(global::terminal_with_events(&slot), Acquire::Ready);
    let terminal = slot.unwrap();
    assert_eq!(terminal.file(), "tty");
    assert_eq!(terminal.event_reader(), Some(&5));
    assert!(terminal.has_input_stream());
}

#[test]
fn terminal_with_events_stays_closed_where_it_cannot_be_opened() {
    let mut slot: Option<Named> = None;
    let opened: Result<(String, Vec<u8>, u32), &str> = Err("no tty");
    assert_eq!(global::terminal_with_events_resume(&mut slot, opened), Err("no tty"));
    assert!(slot.is_none());
}
