use unix_terminal::protocol::{Dimension, Reply, Request, Step, TerminalError};
use unix_terminal::size::{tput_size, tput_value, WindowSize, Winsize};
use unix_terminal::terminal::{SizePending, Terminal};

type Plain = Terminal<u8, u8, u8>;
type SizeStep = Step<SizePending, (u16, u16), &'static str>;

fn plain() -> Plain {
    Terminal::new(0, 0, 0)
}

fn report() -> Winsize {
    Winsize { ws_row: 24, ws_col: 80, ws_xpixel: 640, ws_ypixel: 480 }
}

fn output(text: &str) -> Option<Vec<u8>> {
    Some(text.as_bytes().to_vec())
}

/// Runs the size operation past a window size that cannot be read.
fn size_by_tput(columns: Option<Vec<u8>>, lines: Option<Vec<u8>>) -> SizeStep {
    let terminal = plain();
    let pending = match terminal.size::<&'static str>() {
        Step::Ask(Request::WindowSize, pending) => pending,
        _ => panic!("the window size comes first"),
    };
    let pending = match terminal.size_resume(pending, Reply::WindowSize(Err("no window"))) {
        Step::Ask(Request::Tput(Dimension::Columns), pending) => pending,
        _ => panic!("the columns come second"),
    };
    let pending = match terminal.size_resume(pending, Reply::<&'static str>::Tput(columns)) {
        Step::Ask(Request::Tput(Dimension::Lines), pending) => pending,
        _ => panic!("the lines come third"),
    };
    terminal.size_resume(pending, Reply::Tput(lines))
}

#[test]
fn window_size_names_the_fields_of_the_report() {
    assert_eq!(
        WindowSize::from(report()),
        WindowSize { rows: 24, columns: 80, width: 640, height: 480 }
    );
}

#[test]
fn different_reports_are_different_sizes() {
    let other = Winsize { ws_xpixel: 641, ..report() };
    assert_ne!(WindowSize::from(report()), WindowSize::from(other));
}

#[test]
fn tput_value_reads_a_printed_number() {
    assert_eq!(tput_value(&output("80\n")), Some(80));
    assert_eq!(tput_value(&output("65535\n")), Some(65535));
    assert_eq!(tput_value(&output("007")), Some(7));
}

#[test]
fn tput_value_ignores_bytes_that_are_no_digits() {
    assert_eq!(tput_value(&output("a1b2/3:\r\n")), Some(123));
    assert_eq!(tput_value(&Some(vec![0xB2, b'4', 0xFF, b'2'])), Some(42));
}

#[test]
fn tput_value_is_never_zero() {
    assert_eq!(tput_value(&output("0\n")), None);
    assert_eq!(tput_value(&output("")), None);
    assert_eq!(tput_value(&output("unknown terminal\n")), None);
}

#[test]
fn tput_value_needs_the_command_to_run() {
    assert_eq!(tput_value(&None), None);
}

#[test]
fn tput_value_that_is_no_dimension_is_none() {
    assert_eq!(tput_value(&output("0000000000065535")), Some(65535));
    assert_eq!(tput_value(&output("65536")), None);
    assert_eq!(tput_value(&output("65616\n")), None);
    assert_eq!(tput_value(&output("99999999999999999999")), None);
}

#[test]
fn tput_size_needs_both_dimensions() {
    assert_eq!(tput_size(Some(80), Some(24)), Some((80, 24)));
    assert_eq!(tput_size(Some(80), None), None);
    assert_eq!(tput_size(None, Some(24)), None);
    assert_eq!(tput_size(None, None), None);
}

#[test]
fn tput_runs_with_the_name_of_the_dimension() {
    assert_eq!(Dimension::Columns.tput_arg(), "cols");
    assert_eq!(Dimension::Lines.tput_arg(), "lines");
}

#[test]
fn window_size_is_the_one_reported() {
    let terminal = plain();
    let pending = match terminal.window_size::<&'static str>() {
        Step::Ask(Request::WindowSize, pending) => pending,
        _ => panic!("the window size is asked for"),
    };
    let step = terminal.window_size_resume(pending, Reply::<&'static str>::WindowSize(Ok(report())));
    assert!(matches!(
        step,
        Step::Done(Ok(WindowSize { rows: 24, columns: 80, width: 640, height: 480 }))
    ));
}

#[test]
fn window_size_fails_as_its_request_does() {
    let terminal = plain();
    let pending = match terminal.window_size::<&'static str>() {
        Step::Ask(_, pending) => pending,
        Step::Done(_) => panic!("the window size is asked for"),
    };
    let step = terminal.window_size_resume(pending, Reply::WindowSize(Err("no window")));
    assert!(matches!(step, Step::Done(Err(TerminalError::Os("no window")))));
}

#[test]
fn size_is_that_of_the_window() {
    let terminal = plain();
    let pending = match terminal.size::<&'static str>() {
        Step::Ask(Request::WindowSize, pending) => pending,
        _ => panic!("the window size comes first"),
    };
    let step = terminal.size_resume(pending, Reply::<&'static str>::WindowSize(Ok(report())));
    assert!(matches!(step, Step::Done(Ok((80, 24)))));
}

#[test]
fn size_falls_back_on_tput() {
    let step = size_by_tput(output("132\n"), output("43\n"));
    assert!(matches!(step, Step::Done(Ok((132, 43)))));
}

#[test]
fn size_without_a_dimension_is_the_last_os_error() {
    let cases = vec![
        (None, output("43\n")),
        (output("132\n"), None),
        (output("0\n"), output("43\n")),
        (output("132\n"), output("65579\n")),
        (None, None),
    ];
    for (columns, lines) in cases {
        let step = size_by_tput(columns, lines);
        assert!(matches!(step, Step::Done(Err(TerminalError::LastOs))));
    }
}
