use rustix::pty::{openpt, OpenptFlags};
use rustix::termios::{
    tcgetattr, ControlModes, InputModes, LocalModes, OutputModes, SpecialCodeIndex, Termios,
};
use unix_terminal::protocol::{Reply, Request, Step, TerminalError};
use unix_terminal::terminal::Terminal;

type Plain = Terminal<u8, u8, u8>;

fn plain() -> Plain {
    Terminal::new(0, 0, 0)
}

/// The mode of a new terminal.
fn cooked() -> Termios {
    let pty = openpt(OpenptFlags::RDWR | OpenptFlags::NOCTTY).unwrap();
    tcgetattr(&pty).unwrap()
}

/// A mode that differs from that of a new terminal.
fn silent() -> Termios {
    let mut mode = cooked();
    mode.local_modes -= LocalModes::ECHO;
    mode
}

fn same(a: &Termios, b: &Termios) -> bool {
    format!("{:?}", a) == format!("{:?}", b)
}

/// Switches on raw mode on a terminal that is in `mode`; gives what the terminal is set to.
fn enable(terminal: &mut Plain, mode: Termios) -> Termios {
    let pending = match terminal.enable_raw_mode::<&'static str>() {
        Step::Ask(Request::GetAttributes, pending) => pending,
        _ => panic!("the attributes are asked for"),
    };
    let (raw, pending) =
        match terminal.enable_raw_mode_resume(pending, Reply::<&'static str>::Attributes(Ok(mode))) {
            Step::Ask(Request::SetAttributes(raw), pending) => (raw, pending),
            _ => panic!("the attributes are set"),
        };
    assert!(!terminal.is_raw_mode_enabled());
    let step = terminal.enable_raw_mode_resume(pending, Reply::<&'static str>::Completed(Ok(())));
    assert!(matches!(step, Step::Done(Ok(()))));
    raw
}

#[test]
fn a_new_terminal_is_not_in_raw_mode() {
    assert!(!plain().is_raw_mode_enabled());
    assert!(!Plain::without_events(0).is_raw_mode_enabled());
}

#[test]
fn raw_mode_delivers_bytes_as_they_are() {
    let before = cooked();
    assert!(before.local_modes.contains(LocalModes::ECHO | LocalModes::ICANON | LocalModes::ISIG));
    assert!(before.input_modes.contains(InputModes::ICRNL | InputModes::IXON));
    assert!(before.output_modes.contains(OutputModes::OPOST));
    let raw = enable(&mut plain(), before.clone());
    assert!(!raw.input_modes.intersects(
        InputModes::IGNBRK
            | InputModes::BRKINT
            | InputModes::PARMRK
            | InputModes::ISTRIP
            | InputModes::INLCR
            | InputModes::IGNCR
            | InputModes::ICRNL
            | InputModes::IXON
    ));
    assert!(!raw.output_modes.intersects(OutputModes::OPOST));
    assert!(!raw.local_modes.intersects(
        LocalModes::ECHO
            | LocalModes::ECHONL
            | LocalModes::ICANON
            | LocalModes::ISIG
            | LocalModes::IEXTEN
    ));
    assert_eq!(raw.control_modes & ControlModes::CSIZE, ControlModes::CS8);
    assert!(!raw.control_modes.intersects(ControlModes::PARENB));
    assert_eq!(raw.special_codes[SpecialCodeIndex::VMIN], 1);
    assert_eq!(raw.special_codes[SpecialCodeIndex::VTIME], 0);
}

#[test]
fn raw_mode_keeps_the_other_settings() {
    let mut before = cooked();
    before.input_modes |= InputModes::IUTF8 | InputModes::IXANY;
    before.local_modes |= LocalModes::ECHOE | LocalModes::TOSTOP;
    before.control_modes |= ControlModes::CLOCAL;
    before.special_codes[SpecialCodeIndex::VMIN] = 9;
    before.special_codes[SpecialCodeIndex::VTIME] = 7;
    let raw = enable(&mut plain(), before.clone());
    assert!(raw.input_modes.contains(InputModes::IUTF8 | InputModes::IXANY));
    assert!(raw.local_modes.contains(LocalModes::ECHOE | LocalModes::TOSTOP));
    assert!(raw.control_modes.contains(ControlModes::CLOCAL));
    assert_eq!(raw.special_codes[SpecialCodeIndex::VMIN], 1);
    assert_eq!(raw.special_codes[SpecialCodeIndex::VTIME], 0);
    assert_eq!(
        raw.special_codes[SpecialCodeIndex::VINTR],
        before.special_codes[SpecialCodeIndex::VINTR]
    );
    assert_eq!(raw.line_discipline, before.line_discipline);
    assert_eq!(raw.input_speed(), before.input_speed());
    assert_eq!(raw.output_speed(), before.output_speed());
}

#[test]
fn raw_form_of_raw_is_the_same() {
    let once = enable(&mut plain(), cooked());
    let twice = enable(&mut plain(), once.clone());
    assert!(same(&once, &twice));
}

#[test]
fn enable_fails_where_the_attributes_cannot_be_read() {
    let mut terminal = plain();
    let pending = match terminal.enable_raw_mode::<&'static str>() {
        Step::Ask(Request::GetAttributes, pending) => pending,
        _ => panic!("the attributes are asked for"),
    };
    let step = terminal.enable_raw_mode_resume(pending, Reply::Attributes(Err("no attributes")));
    assert!(matches!(step, Step::Done(Err(TerminalError::Os("no attributes")))));
    assert!(!terminal.is_raw_mode_enabled());
}

#[test]
fn enable_keeps_no_mode_where_the_switch_fails() {
    let mut terminal = plain();
    let pending = match terminal.enable_raw_mode::<&'static str>() {
        Step::Ask(_, pending) => pending,
        Step::Done(_) => panic!("the attributes are asked for"),
    };
    let step = terminal.enable_raw_mode_resume(pending, Reply::<&'static str>::Attributes(Ok(cooked())));
    let pending = match step {
        Step::Ask(Request::SetAttributes(_), pending) => pending,
        _ => panic!("the attributes are set"),
    };
    let step = terminal.enable_raw_mode_resume(pending, Reply::Completed(Err("no switch")));
    assert!(matches!(step, Step::Done(Err(TerminalError::Os("no switch")))));
    assert!(!terminal.is_raw_mode_enabled());
    assert!(matches!(terminal.disable_raw_mode::<&'static str>(), Step::Done(Ok(()))));
}

#[test]
fn enable_where_raw_mode_is_on_asks_for_nothing() {
    let mut terminal = plain();
    enable(&mut terminal, cooked());
    assert!(terminal.is_raw_mode_enabled());
    assert!(matches!(terminal.enable_raw_mode::<&'static str>(), Step::Done(Ok(()))));
    assert!(terminal.is_raw_mode_enabled());
}

#[test]
fn disable_where_raw_mode_is_off_asks_for_nothing() {
    assert!(matches!(plain().disable_raw_mode::<&'static str>(), Step::Done(Ok(()))));
}

#[test]
fn disable_restores_the_mode_before_the_first_enable() {
    let mut terminal = plain();
    enable(&mut terminal, silent());
    assert!(matches!(terminal.enable_raw_mode::<&'static str>(), Step::Done(Ok(()))));
    let (mode, pending) = match terminal.disable_raw_mode::<&'static str>() {
        Step::Ask(Request::SetAttributes(mode), pending) => (mode, pending),
        _ => panic!("the attributes are set"),
    };
    assert!(same(&mode, &silent()));
    assert!(!same(&mode, &cooked()));
    assert!(terminal.is_raw_mode_enabled());
    let step = terminal.disable_raw_mode_resume(pending, Reply::<&'static str>::Completed(Ok(())));
    assert!(matches!(step, Step::Done(Ok(()))));
    assert!(!terminal.is_raw_mode_enabled());
    assert!(matches!(terminal.disable_raw_mode::<&'static str>(), Step::Done(Ok(()))));
}

#[test]
fn disable_can_be_tried_again() {
    let mut terminal = plain();
    enable(&mut terminal, silent());
    let pending = match terminal.disable_raw_mode::<&'static str>() {
        Step::Ask(_, pending) => pending,
        Step::Done(_) => panic!("the attributes are set"),
    };
    let step = terminal.disable_raw_mode_resume(pending, Reply::Completed(Err("no switch")));
    assert!(matches!(step, Step::Done(Err(TerminalError::Os("no switch")))));
    assert!(terminal.is_raw_mode_enabled());
    match terminal.disable_raw_mode::<&'static str>() {
        Step::Ask(Request::SetAttributes(mode), _) => assert!(same(&mode, &silent())),
        _ => panic!("the attributes are set"),
    }
}

#[test]
fn a_failed_enable_does_not_count_as_the_first() {
    let mut terminal = plain();
    let pending = match terminal.enable_raw_mode::<&'static str>() {
        Step::Ask(_, pending) => pending,
        Step::Done(_) => panic!("the attributes are asked for"),
    };
    let step = terminal.enable_raw_mode_resume(pending, Reply::<&'static str>::Attributes(Ok(cooked())));
    if let Step::Ask(_, pending) = step {
        terminal.enable_raw_mode_resume(pending, Reply::Completed(Err("no switch")));
    }
    enable(&mut terminal, silent());
    match terminal.disable_raw_mode::<&'static str>() {
        Step::Ask(Request::SetAttributes(mode), _) => assert!(same(&mode, &silent())),
        _ => panic!("the attributes are set"),
    }
}
