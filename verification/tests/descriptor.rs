use unix_terminal::descriptor::{
    disable_raw_mode, disable_raw_mode_resume, enable_raw_mode, enable_raw_mode_resume,
    is_raw_mode_enabled, window_size, window_size_resume, wrap_with_result, FdReply, FdRequest, FdStep,
};
use unix_terminal::protocol::TerminalError;
use unix_terminal::size::{WindowSize, Winsize};

const COOKED: u32 = 11;
const RAW: u32 = 12;

fn zero() -> Winsize {
    Winsize { ws_row: 0, ws_col: 0, ws_xpixel: 0, ws_ypixel: 0 }
}

/// Reads the window size; gives the descriptor that it is asked of, and the end.
fn read_window(opened: Result<i32, &'static str>, status: i32) -> (i32, Option<WindowSize>) {
    let pending = match window_size::<u32, &'static str>() {
        FdStep::Ask(FdRequest::OpenTty, pending) => pending,
        _ => panic!("the device is opened"),
    };
    let (fd, pending) = match window_size_resume(pending, FdReply::<u32, &'static str>::Opened(opened)) {
        FdStep::Ask(FdRequest::WindowSize(fd, size), pending) => {
            assert_eq!(size, zero());
            (fd, pending)
        }
        _ => panic!("the window size is read"),
    };
    let size = Winsize { ws_row: 24, ws_col: 80, ws_xpixel: 640, ws_ypixel: 480 };
    match window_size_resume(pending, FdReply::<u32, &'static str>::WindowSize(status, size)) {
        FdStep::Done(Ok(size)) => (fd, Some(size)),
        FdStep::Done(Err(TerminalError::LastOs)) => (fd, None),
        _ => panic!("the window size ends here"),
    }
}

/// Switches on raw mode with these replies; gives the error of the end.
fn enable(
    prior: &mut Option<u32>,
    opened: Result<i32, &'static str>,
    read: i32,
    switched: i32,
) -> Result<(), TerminalError<&'static str>> {
    let mut step = enable_raw_mode::<u32, &'static str>(prior);
    loop {
        let (request, pending) = match step {
            FdStep::Ask(request, pending) => (request, pending),
            FdStep::Done(end) => return end,
        };
        let reply = match request {
            FdRequest::TtyFd => FdReply::Opened(opened),
            FdRequest::GetAttributes(fd) => {
                assert_eq!(Ok(fd), opened);
                FdReply::Attributes(read, COOKED)
            }
            FdRequest::MakeRaw(mode) => {
                assert_eq!(mode, COOKED);
                FdReply::Raw(RAW)
            }
            FdRequest::SetAttributes(fd, mode) => {
                assert_eq!(Ok(fd), opened);
                assert_eq!(mode, RAW);
                assert_eq!(*prior, None);
                FdReply::Status(switched)
            }
            _ => panic!("not asked for here"),
        };
        step = enable_raw_mode_resume(prior, pending, reply);
    }
}

/// Switches off raw mode with these replies; gives the error of the end.
fn disable(
    prior: &mut Option<u32>,
    opened: Result<i32, &'static str>,
    switched: i32,
) -> Result<(), TerminalError<&'static str>> {
    let mut step = disable_raw_mode::<u32, &'static str>(prior);
    loop {
        let (request, pending) = match step {
            FdStep::Ask(request, pending) => (request, pending),
            FdStep::Done(end) => return end,
        };
        let reply = match request {
            FdRequest::TtyFd => FdReply::Opened(opened),
            FdRequest::SetAttributes(fd, mode) => {
                assert_eq!(Ok(fd), opened);
                assert_eq!(mode, COOKED);
                FdReply::Status(switched)
            }
            _ => panic!("not asked for here"),
        };
        step = disable_raw_mode_resume(prior, pending, reply);
    }
}

#[test]
fn only_minus_one_is_a_failure() {
    assert!(wrap_with_result::<u8>(0).is_ok());
    assert!(wrap_with_result::<u8>(1).is_ok());
    assert!(wrap_with_result::<u8>(-2).is_ok());
    assert!(matches!(wrap_with_result::<u8>(-1), Err(TerminalError::LastOs)));
}

#[test]
fn window_size_is_that_of_the_device() {
    let size = WindowSize { rows: 24, columns: 80, width: 640, height: 480 };
    assert_eq!(read_window(Ok(5), 0), (5, Some(size)));
}

#[test]
fn window_size_falls_back_on_the_standard_output() {
    let size = WindowSize { rows: 24, columns: 80, width: 640, height: 480 };
    assert_eq!(read_window(Err("no tty"), 0), (1, Some(size)));
}

#[test]
fn window_size_that_cannot_be_read_is_the_last_os_error() {
    assert_eq!(read_window(Ok(5), -1), (5, None));
    assert_eq!(read_window(Err("no tty"), -1), (1, None));
}

#[test]
fn descriptor_enable_keeps_the_mode_that_was_read() {
    let mut prior = None;
    assert!(enable(&mut prior, Ok(3), 0, 0).is_ok());
    assert_eq!(prior, Some(COOKED));
}

#[test]
fn descriptor_enable_is_idempotent() {
    let mut prior = Some(99);
    assert!(enable(&mut prior, Err("not asked for"), -1, -1).is_ok());
    assert_eq!(prior, Some(99));
}

#[test]
fn descriptor_enable_leaves_nothing_behind_where_it_fails() {
    let mut prior = None;
    assert!(matches!(enable(&mut prior, Err("no tty"), 0, 0), Err(TerminalError::Os("no tty"))));
    assert_eq!(prior, None);
    assert!(matches!(enable(&mut prior, Ok(3), -1, 0), Err(TerminalError::LastOs)));
    assert_eq!(prior, None);
    assert!(matches!(enable(&mut prior, Ok(3), 0, -1), Err(TerminalError::LastOs)));
    assert_eq!(prior, None);
}

#[test]
fn descriptor_disable_restores_the_mode() {
    let mut prior = None;
    assert!(enable(&mut prior, Ok(3), 0, 0).is_ok());
    assert!(disable(&mut prior, Ok(4), 0).is_ok());
    assert_eq!(prior, None);
}

#[test]
fn descriptor_disable_keeps_the_mode_where_it_fails() {
    let mut prior = Some(COOKED);
    assert!(matches!(disable(&mut prior, Err("no tty"), 0), Err(TerminalError::Os("no tty"))));
    assert_eq!(prior, Some(COOKED));
    assert!(matches!(disable(&mut prior, Ok(3), -1), Err(TerminalError::LastOs)));
    assert_eq!(prior, Some(COOKED));
    assert!(disable(&mut prior, Ok(3), 0).is_ok());
    assert_eq!(prior, None);
}

#[test]
fn descriptor_disable_is_idempotent() {
    let mut prior = None;
    assert!(disable(&mut prior, Err("not asked for"), -1).is_ok());
    assert_eq!(prior, None);
}

#[test]
fn descriptor_disable_restores_the_mode_after_many_attempts() {
    let mut prior = None;
    assert!(enable(&mut prior, Err("no tty"), 0, 0).is_err());
    assert!(enable(&mut prior, Ok(3), 0, 0).is_ok());
    assert!(enable(&mut prior, Ok(3), 0, 0).is_ok());
    assert!(disable(&mut prior, Ok(3), -1).is_err());
    assert!(enable(&mut prior, Ok(3), 0, 0).is_ok());
    assert_eq!(prior, Some(COOKED));
    assert!(disable(&mut prior, Ok(4), 0).is_ok());
    assert_eq!(prior, None);
}

#[test]
fn descriptor_raw_mode_is_on_until_it_is_switched_off() {
    let mut prior = None;
    assert!(!is_raw_mode_enabled(&prior));
    assert!(enable(&mut prior, Ok(3), 0, -1).is_err());
    assert!(!is_raw_mode_enabled(&prior));
    assert!(enable(&mut prior, Ok(3), 0, 0).is_ok());
    assert!(is_raw_mode_enabled(&prior));
    assert!(disable(&mut prior, Ok(3), -1).is_err());
    assert!(is_raw_mode_enabled(&prior));
    assert!(disable(&mut prior, Ok(3), 0).is_ok());
    assert!(!is_raw_mode_enabled(&prior));
}
