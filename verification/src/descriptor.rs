//! Raw mode and the window size by way of plain file descriptors and C calls, with a mode of the
//! process in place of one per terminal.
//!
//! `M` is the C terminal mode. C calls report failure by the status -1 and leave the reason to the
//! last error of the operating system.

use crate::protocol::TerminalError;
use crate::size::{window_size_of, WindowSize, Winsize};
use vstd::prelude::*;

verus! {

/// What the caller is asked to do before the operation goes on.
pub enum FdRequest<M> {
    /// Open the terminal device of the process for reading.
    OpenTty,
    /// Find a descriptor of the terminal, to change its mode by.
    TtyFd,
    /// `ioctl` of the window size, into this size.
    WindowSize(i32, Winsize),
    /// `tcgetattr`.
    GetAttributes(i32),
    /// `cfmakeraw`.
    MakeRaw(M),
    /// `tcsetattr`, at once.
    SetAttributes(i32, M),
}

/// How a request went.
pub enum FdReply<M, E> {
    /// To `FdRequest::OpenTty` and `FdRequest::TtyFd`.
    Opened(Result<i32, E>),
    /// To `FdRequest::WindowSize`: the status and the size.
    WindowSize(i32, Winsize),
    /// To `FdRequest::GetAttributes`: the status and the mode.
    Attributes(i32, M),
    /// To `FdRequest::MakeRaw`.
    Raw(M),
    /// To `FdRequest::SetAttributes`: the status.
    Status(i32),
}

/// How far an operation has come.
pub enum FdStep<M, P, T, E> {
    Ask(FdRequest<M>, P),
    Done(Result<T, TerminalError<E>>),
}

/// What is pending while the window size is read.
pub enum FdWindowSizePending {
    Open,
    Read,
}

/// What is pending while raw mode is switched on.
pub enum FdEnablePending<M> {
    /// A descriptor of the terminal.
    Open,
    /// The mode of the terminal with this descriptor.
    Attributes(i32),
    /// The raw form of this mode.
    Raw(i32, M),
    /// The change of the mode; this is the one to go back to.
    Switch(M),
}

/// What is pending while raw mode is switched off, with the mode to go back to.
pub enum FdDisablePending<M> {
    /// A descriptor of the terminal.
    Open(M),
    /// The change of the mode.
    Restore,
}

impl FdWindowSizePending {
    /// `reply` is one that is waited for.
    pub open spec fn accepts<M, E>(self, reply: FdReply<M, E>) -> bool {
        match self {
            FdWindowSizePending::Open => reply is Opened,
            FdWindowSizePending::Read => reply is WindowSize,
        }
    }
}

impl<M> FdEnablePending<M> {
    /// `reply` is one that is waited for.
    pub open spec fn accepts<E>(self, reply: FdReply<M, E>) -> bool {
        match self {
            FdEnablePending::Open => reply is Opened,
            FdEnablePending::Attributes(_) => reply is Attributes,
            FdEnablePending::Raw(_, _) => reply is Raw,
            FdEnablePending::Switch(_) => reply is Status,
        }
    }
}

impl<M> FdDisablePending<M> {
    /// `reply` is one that is waited for.
    pub open spec fn accepts<E>(self, reply: FdReply<M, E>) -> bool {
        match self {
            FdDisablePending::Open(_) => reply is Opened,
            FdDisablePending::Restore => reply is Status,
        }
    }
}

/// `libc::STDOUT_FILENO`: the descriptor of the standard output, which is 1.
#[verifier::external_body]
fn stdout_fileno() -> (r: i32)
    ensures
        r == 1,
{
    libc::STDOUT_FILENO
}

/// What a status of a C call means.
pub open spec fn status_result<E>(status: i32) -> Result<(), TerminalError<E>> {
    if status == -1 {
        Err(TerminalError::LastOs)
    } else {
        Ok(())
    }
}

/// Turns the status of a C call into a result.
pub fn wrap_with_result<E>(result: i32) -> (r: Result<(), TerminalError<E>>)
    ensures
        r == status_result::<E>(result),
{
    if result == -1 {
        Err(TerminalError::LastOs)
    } else {
        Ok(())
    }
}

/// The window size is that of the terminal device, or of the standard output where the device
/// cannot be opened.
pub open spec fn fd_window_size_next<M, E>(
    pending: FdWindowSizePending,
    reply: FdReply<M, E>,
) -> FdStep<M, FdWindowSizePending, WindowSize, E> {
    match (pending, reply) {
        (FdWindowSizePending::Open, FdReply::Opened(opened)) => FdStep::Ask(
            FdRequest::WindowSize(
                match opened {
                    Ok(fd) => fd,
                    Err(_) => 1,
                },
                Winsize { ws_row: 0, ws_col: 0, ws_xpixel: 0, ws_ypixel: 0 },
            ),
            FdWindowSizePending::Read,
        ),
        (FdWindowSizePending::Read, FdReply::WindowSize(status, size)) => FdStep::Done(
            if status == -1 {
                Err(TerminalError::LastOs)
            } else {
                Ok(window_size_of(size))
            },
        ),
        _ => arbitrary(),
    }
}

/// Starts to read the size of the window.
pub fn window_size<M, E>() -> (r: FdStep<M, FdWindowSizePending, WindowSize, E>)
    ensures
        r == FdStep::<M, FdWindowSizePending, WindowSize, E>::Ask(
            FdRequest::OpenTty,
            FdWindowSizePending::Open,
        ),
{
    FdStep::Ask(FdRequest::OpenTty, FdWindowSizePending::Open)
}

/// Goes on with the size of the window.
pub fn window_size_resume<M, E>(pending: FdWindowSizePending, reply: FdReply<M, E>) -> (r: FdStep<
    M,
    FdWindowSizePending,
    WindowSize,
    E,
>)
    requires
        pending.accepts(reply),
    ensures
        r == fd_window_size_next(pending, reply),
{
    match (pending, reply) {
        (FdWindowSizePending::Open, FdReply::Opened(opened)) => {
            let size = Winsize { ws_row: 0, ws_col: 0, ws_xpixel: 0, ws_ypixel: 0 };
            let fd: i32 = match opened {
                Ok(fd) => fd,
                Err(_) => stdout_fileno(),
            };
            FdStep::Ask(FdRequest::WindowSize(fd, size), FdWindowSizePending::Read)
        },
        (FdWindowSizePending::Read, FdReply::WindowSize(status, size)) => {
            if wrap_with_result::<E>(status).is_ok() {
                FdStep::Done(Ok(WindowSize::from(size)))
            } else {
                FdStep::Done(Err(TerminalError::LastOs))
            }
        },
        _ => vstd::pervasive::unreached(),
    }
}

/// Whether the process is in raw mode: the mode before it is kept then, and only then.
pub fn is_raw_mode_enabled<M>(prior_mode: &Option<M>) -> (r: bool)
    ensures
        r == (*prior_mode is Some),
{
    prior_mode.is_some()
}

/// Switching on raw mode begins with a descriptor, unless raw mode is on already.
pub open spec fn fd_enable_start<M, E>(prior_mode: Option<M>) -> FdStep<
    M,
    FdEnablePending<M>,
    (),
    E,
> {
    if prior_mode is Some {
        FdStep::Done(Ok(()))
    } else {
        FdStep::Ask(FdRequest::TtyFd, FdEnablePending::Open)
    }
}

/// The mode is read, made raw and set; the prior mode is kept once that has succeeded.
pub open spec fn fd_enable_next<M, E>(
    prior_mode: Option<M>,
    pending: FdEnablePending<M>,
    reply: FdReply<M, E>,
) -> (Option<M>, FdStep<M, FdEnablePending<M>, (), E>) {
    match (pending, reply) {
        (FdEnablePending::Open, FdReply::Opened(Ok(fd))) => (
            prior_mode,
            FdStep::Ask(FdRequest::GetAttributes(fd), FdEnablePending::Attributes(fd)),
        ),
        (FdEnablePending::Open, FdReply::Opened(Err(e))) => (
            prior_mode,
            FdStep::Done(Err(TerminalError::Os(e))),
        ),
        (FdEnablePending::Attributes(fd), FdReply::Attributes(status, mode)) => (
            prior_mode,
            if status == -1 {
                FdStep::Done(Err(TerminalError::LastOs))
            } else {
                FdStep::Ask(FdRequest::MakeRaw(mode), FdEnablePending::Raw(fd, mode))
            },
        ),
        (FdEnablePending::Raw(fd, mode), FdReply::Raw(raw)) => (
            prior_mode,
            FdStep::Ask(FdRequest::SetAttributes(fd, raw), FdEnablePending::Switch(mode)),
        ),
        (FdEnablePending::Switch(mode), FdReply::Status(status)) => if status == -1 {
            (prior_mode, FdStep::Done(Err(TerminalError::LastOs)))
        } else {
            (Some(mode), FdStep::Done(Ok(())))
        },
        _ => arbitrary(),
    }
}

/// Switching off raw mode begins with a descriptor, if raw mode is on.
pub open spec fn fd_disable_start<M, E>(prior_mode: Option<M>) -> FdStep<
    M,
    FdDisablePending<M>,
    (),
    E,
> {
    match prior_mode {
        Some(mode) => FdStep::Ask(FdRequest::TtyFd, FdDisablePending::Open(mode)),
        None => FdStep::Done(Ok(())),
    }
}

/// The prior mode is forgotten once it has been set.
pub open spec fn fd_disable_next<M, E>(
    prior_mode: Option<M>,
    pending: FdDisablePending<M>,
    reply: FdReply<M, E>,
) -> (Option<M>, FdStep<M, FdDisablePending<M>, (), E>) {
    match (pending, reply) {
        (FdDisablePending::Open(mode), FdReply::Opened(Ok(fd))) => (
            prior_mode,
            FdStep::Ask(FdRequest::SetAttributes(fd, mode), FdDisablePending::Restore),
        ),
        (FdDisablePending::Open(_), FdReply::Opened(Err(e))) => (
            prior_mode,
            FdStep::Done(Err(TerminalError::Os(e))),
        ),
        (FdDisablePending::Restore, FdReply::Status(status)) => if status == -1 {
            (prior_mode, FdStep::Done(Err(TerminalError::LastOs)))
        } else {
            (None, FdStep::Done(Ok(())))
        },
        _ => arbitrary(),
    }
}

/// Starts to switch on raw mode.
pub fn enable_raw_mode<M, E>(prior_mode: &Option<M>) -> (r: FdStep<M, FdEnablePending<M>, (), E>)
    ensures
        r == fd_enable_start::<M, E>(*prior_mode),
{
    if prior_mode.is_some() {
        return FdStep::Done(Ok(()));
    }
    FdStep::Ask(FdRequest::TtyFd, FdEnablePending::Open)
}

/// Goes on with switching on raw mode, which is still off.
pub fn enable_raw_mode_resume<M: Copy, E>(
    prior_mode: &mut Option<M>,
    pending: FdEnablePending<M>,
    reply: FdReply<M, E>,
) -> (r: FdStep<M, FdEnablePending<M>, (), E>)
    requires
        pending.accepts(reply),
        *old(prior_mode) is None,
    ensures
        *final(prior_mode) == fd_enable_next(*old(prior_mode), pending, reply).0,
        r == fd_enable_next(*old(prior_mode), pending, reply).1,
{
    match (pending, reply) {
        (FdEnablePending::Open, FdReply::Opened(Ok(fd))) => FdStep::Ask(
            FdRequest::GetAttributes(fd),
            FdEnablePending::Attributes(fd),
        ),
        (FdEnablePending::Open, FdReply::Opened(Err(e))) => FdStep::Done(
            Err(TerminalError::Os(e)),
        ),
        (FdEnablePending::Attributes(fd), FdReply::Attributes(status, mode)) => {
            match wrap_with_result(status) {
                Ok(_) => FdStep::Ask(FdRequest::MakeRaw(mode), FdEnablePending::Raw(fd, mode)),
                Err(e) => FdStep::Done(Err(e)),
            }
        },
        (FdEnablePending::Raw(fd, mode), FdReply::Raw(raw)) => FdStep::Ask(
            FdRequest::SetAttributes(fd, raw),
            FdEnablePending::Switch(mode),
        ),
        (FdEnablePending::Switch(mode), FdReply::Status(status)) => match wrap_with_result(status) {
            Ok(_) => {
                // Kept only now that the terminal has switched to raw mode.
                *prior_mode = Some(mode);
                FdStep::Done(Ok(()))
            },
            Err(e) => FdStep::Done(Err(e)),
        },
        _ => vstd::pervasive::unreached(),
    }
}

/// Starts to switch off raw mode: the whole mode is reset to what it was before raw mode was first
/// switched on.
pub fn disable_raw_mode<M: Copy, E>(prior_mode: &Option<M>) -> (r: FdStep<
    M,
    FdDisablePending<M>,
    (),
    E,
>)
    ensures
        r == fd_disable_start::<M, E>(*prior_mode),
{
    match prior_mode {
        Some(mode) => FdStep::Ask(FdRequest::TtyFd, FdDisablePending::Open(*mode)),
        None => FdStep::Done(Ok(())),
    }
}

/// Goes on with switching off raw mode.
pub fn disable_raw_mode_resume<M, E>(
    prior_mode: &mut Option<M>,
    pending: FdDisablePending<M>,
    reply: FdReply<M, E>,
) -> (r: FdStep<M, FdDisablePending<M>, (), E>)
    requires
        pending.accepts(reply),
    ensures
        *final(prior_mode) == fd_disable_next(*old(prior_mode), pending, reply).0,
        r == fd_disable_next(*old(prior_mode), pending, reply).1,
{
    match (pending, reply) {
        (FdDisablePending::Open(mode), FdReply::Opened(Ok(fd))) => FdStep::Ask(
            FdRequest::SetAttributes(fd, mode),
            FdDisablePending::Restore,
        ),
        (FdDisablePending::Open(_), FdReply::Opened(Err(e))) => FdStep::Done(
            Err(TerminalError::Os(e)),
        ),
        (FdDisablePending::Restore, FdReply::Status(status)) => match wrap_with_result(status) {
            Ok(_) => {
                // Forgotten only now that the terminal has switched back.
                *prior_mode = None;
                FdStep::Done(Ok(()))
            },
            Err(e) => FdStep::Done(Err(e)),
        },
        _ => vstd::pervasive::unreached(),
    }
}

} // verus!
