//! What an operation asks for, what it is told, and how it ends.

use crate::size::Winsize;
use rustix::termios::Termios;
use vstd::prelude::*;

verus! {

/// How long one poll waits for an event, in milliseconds.
pub const POLL_TIMEOUT_MS: u64 = 2000;

/// Where bytes are written.
#[derive(Clone, Copy, Debug, PartialEq, Eq, Structural)]
pub enum Channel {
    /// The file of the terminal.
    Terminal,
    /// The standard output of the process.
    Stdout,
}

/// A question to the terminal, asked by an escape sequence.
#[derive(Clone, Copy, Debug, PartialEq, Eq, Structural)]
pub enum Query {
    /// `ESC [ ? u`, the progressive keyboard enhancement flags, and `ESC [ c`, the primary
    /// device attributes. Every terminal answers the second, so a terminal that does not answer
    /// the first supports none of the flags.
    KeyboardEnhancement,
    /// `ESC [ 6 n`, the position of the cursor.
    CursorPosition,
}

/// The bytes that ask `query`.
pub open spec fn query_bytes(query: Query) -> Seq<u8> {
    match query {
        Query::KeyboardEnhancement => seq![0x1Bu8, 0x5B, 0x3F, 0x75, 0x1B, 0x5B, 0x63],
        Query::CursorPosition => seq![0x1Bu8, 0x5B, 0x36, 0x6E],
    }
}

impl Query {
    /// The bytes to write.
    pub fn bytes(&self) -> (r: Vec<u8>)
        ensures
            r@ == query_bytes(*self),
    {
        match self {
            Query::KeyboardEnhancement => vec![0x1B, 0x5B, 0x3F, 0x75, 0x1B, 0x5B, 0x63],
            Query::CursorPosition => vec![0x1B, 0x5B, 0x36, 0x6E],
        }
    }
}

/// Which events a poll or a read is about.
#[derive(Clone, Copy, Debug, PartialEq, Eq, Structural)]
pub enum Filter {
    CursorPosition,
    KeyboardEnhancementFlags,
    PrimaryDeviceAttributes,
}

/// An event that the reader of the terminal delivers.
#[derive(Clone, Copy, Debug, PartialEq, Eq, Structural)]
pub enum InternalEvent {
    /// The column and the row of the cursor.
    CursorPosition(u16, u16),
    /// The keyboard enhancement flags that are in force.
    KeyboardEnhancementFlags(u8),
    /// The primary device attributes.
    PrimaryDeviceAttributes,
    /// Any event for the user of the terminal.
    Event,
}

/// A dimension that `tput` is asked for.
#[derive(Clone, Copy, Debug, PartialEq, Eq, Structural)]
pub enum Dimension {
    Columns,
    Lines,
}

impl Dimension {
    /// The argument to run `tput` with.
    pub fn tput_arg(&self) -> (r: &'static str)
        ensures
            r@ == match self {
                Dimension::Columns => "cols"@,
                Dimension::Lines => "lines"@,
            },
    {
        match self {
            Dimension::Columns => "cols",
            Dimension::Lines => "lines",
        }
    }
}

/// What the caller is asked to do before the operation goes on.
pub enum Request {
    /// Read the window size of the terminal.
    WindowSize,
    /// Run `tput` for one dimension.
    Tput(Dimension),
    /// Read the attributes of the terminal.
    GetAttributes,
    /// Set the attributes of the terminal, at once.
    SetAttributes(Termios),
    /// Write the whole query.
    Write(Channel, Query),
    /// Flush what was written.
    Flush(Channel),
    /// Wait up to so many milliseconds for an event.
    Poll(Filter, u64),
    /// Read an event.
    Read(Filter),
}

/// How a request went.
pub enum Reply<E> {
    /// To `Request::WindowSize`.
    WindowSize(Result<Winsize, E>),
    /// To `Request::Tput`: what the command printed, or `None` where it could not be run.
    Tput(Option<Vec<u8>>),
    /// To `Request::GetAttributes`.
    Attributes(Result<Termios, E>),
    /// To `Request::SetAttributes`, `Request::Write` and `Request::Flush`.
    Completed(Result<(), E>),
    /// To `Request::Poll`: whether there is an event.
    Polled(Result<bool, E>),
    /// To `Request::Read`.
    Event(Result<InternalEvent, E>),
}

/// `reply` is a reply to `request`.
pub open spec fn answers<E>(request: Request, reply: Reply<E>) -> bool {
    match request {
        Request::WindowSize => reply is WindowSize,
        Request::Tput(_) => reply is Tput,
        Request::GetAttributes => reply is Attributes,
        Request::SetAttributes(_) | Request::Write(_, _) | Request::Flush(_) => reply is Completed,
        Request::Poll(_, _) => reply is Polled,
        Request::Read(_) => reply is Event,
    }
}

/// Why an operation failed.
#[derive(Debug)]
pub enum TerminalError<E> {
    /// A request failed with this error.
    Os(E),
    /// The reason is the last error that the operating system reported.
    LastOs,
    /// The terminal did not say which keyboard enhancements it supports.
    KeyboardEnhancementTimeout,
    /// The terminal did not say where the cursor is.
    CursorPositionTimeout,
}

impl<E> TerminalError<E> {
    /// What to tell the user, where the error is not one of the operating system.
    pub fn message(&self) -> (r: Option<&'static str>)
        ensures
            match self {
                TerminalError::Os(_) | TerminalError::LastOs => r is None,
                TerminalError::KeyboardEnhancementTimeout => r is Some && r->0@
                    == "The keyboard enhancement status could not be read within a normal duration"@,
                TerminalError::CursorPositionTimeout => r is Some && r->0@
                    == "The cursor position could not be read within a normal duration"@,
            },
    {
        match self {
            TerminalError::Os(_) => None,
            TerminalError::LastOs => None,
            TerminalError::KeyboardEnhancementTimeout => Some(
                "The keyboard enhancement status could not be read within a normal duration",
            ),
            TerminalError::CursorPositionTimeout => Some(
                "The cursor position could not be read within a normal duration",
            ),
        }
    }
}

/// How far an operation has come: it waits for the reply to a request, or it has ended.
pub enum Step<P, T, E> {
    Ask(Request, P),
    Done(Result<T, TerminalError<E>>),
}

} // verus!
