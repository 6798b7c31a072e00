//! The terminal of the process: one slot, which is filled when the terminal is first needed.
//!
//! The operations take what acquiring the terminal gave. Each begins as the operation of the same
//! name does on the terminal, and goes on with that one's `_resume`.
//!
//! A question to the terminal is answered by an event. Where one is to be asked, the terminal is
//! acquired with [`terminal_with_events`], so that it has a reader for the answer.

use crate::protocol::{Request, Step, TerminalError};
use crate::query::{keyboard_start, KeyboardPending};
use crate::size::WindowSize;
use crate::terminal::{
    disable_start, enable_start, DisablePending, EnablePending, SizePending, Terminal,
    TerminalModel, WindowSizePending,
};
use vstd::prelude::*;

verus! {

/// What it takes to acquire the terminal of the process.
#[derive(Clone, Copy, Debug, PartialEq, Eq, Structural)]
pub enum Acquire {
    /// It is there.
    Ready,
    /// The terminal device of the process has to be opened for reading and writing.
    Open,
    /// It is there, and its events are still to be set up.
    Attach,
}

/// Starts to acquire the terminal of the process.
pub fn terminal<F, S, R>(slot: &Option<Terminal<F, S, R>>) -> (r: Acquire)
    ensures
        r == if *slot is Some {
            Acquire::Ready
        } else {
            Acquire::Open
        },
{
    if slot.is_none() {
        Acquire::Open
    } else {
        Acquire::Ready
    }
}

/// Goes on with acquiring the terminal of the process once the device was opened.
pub fn terminal_resume<F, S, R, E>(
    slot: &mut Option<Terminal<F, S, R>>,
    opened: Result<F, E>,
) -> (r: Result<(), E>)
    requires
        *old(slot) is None,
    ensures
        match opened {
            Ok(file) => {
                &&& r == Ok::<(), E>(())
                &&& *final(slot) is Some
                &&& final(slot)->0@ == (TerminalModel::<F, S, R> {
                    file,
                    prior_mode: None,
                    event_stream: None,
                    event_reader: None,
                })
            },
            Err(e) => r == Err::<(), E>(e) && *final(slot) == *old(slot),
        },
{
    match opened {
        Ok(file) => {
            *slot = Some(Terminal::without_events(file));
            Ok(())
        },
        Err(e) => Err(e),
    }
}

/// Starts to acquire the terminal of the process together with its events.
pub fn terminal_with_events<F, S, R>(slot: &Option<Terminal<F, S, R>>) -> (r: Acquire)
    ensures
        r == match *slot {
            Some(terminal) => if terminal@.event_reader is Some {
                Acquire::Ready
            } else {
                Acquire::Attach
            },
            None => Acquire::Open,
        },
{
    match slot {
        Some(terminal) => match terminal.event_reader() {
            Some(_) => Acquire::Ready,
            None => Acquire::Attach,
        },
        None => Acquire::Open,
    }
}

/// Goes on with acquiring the terminal of the process together with its events, once the device was
/// opened and its events were set up.
pub fn terminal_with_events_resume<F, S, R, E>(
    slot: &mut Option<Terminal<F, S, R>>,
    opened: Result<(F, S, R), E>,
) -> (r: Result<(), E>)
    requires
        *old(slot) is None,
    ensures
        match opened {
            Ok((file, event_stream, event_reader)) => {
                &&& r == Ok::<(), E>(())
                &&& *final(slot) is Some
                &&& final(slot)->0@ == (TerminalModel::<F, S, R> {
                    file,
                    prior_mode: None,
                    event_stream: Some(event_stream),
                    event_reader: Some(event_reader),
                })
            },
            Err(e) => r == Err::<(), E>(e) && *final(slot) == *old(slot),
        },
{
    match opened {
        Ok((file, event_stream, event_reader)) => {
            *slot = Some(Terminal::new(file, event_stream, event_reader));
            Ok(())
        },
        Err(e) => Err(e),
    }
}

/// Goes on with acquiring the terminal of the process together with its events, once the events of
/// a terminal that is there were set up.
pub fn attach_events_resume<F, S, R, E>(
    slot: &mut Option<Terminal<F, S, R>>,
    events: Result<(S, R), E>,
) -> (r: Result<(), E>)
    requires
        *old(slot) is Some,
    ensures
        match events {
            Ok((event_stream, event_reader)) => {
                &&& r == Ok::<(), E>(())
                &&& *final(slot) is Some
                &&& final(slot)->0@ == (TerminalModel {
                    event_stream: Some(event_stream),
                    event_reader: Some(event_reader),
                    ..old(slot)->0@
                })
            },
            Err(e) => r == Err::<(), E>(e) && *final(slot) == *old(slot),
        },
{
    match events {
        Ok((event_stream, event_reader)) => {
            if let Some(terminal) = slot {
                terminal.attach_events(event_stream, event_reader);
            }
            Ok(())
        },
        Err(e) => Err(e),
    }
}

/// Whether the terminal of the process is in raw mode. One that was never needed is not.
pub fn is_raw_mode_enabled<F, S, R>(slot: &Option<Terminal<F, S, R>>) -> (r: bool)
    ensures
        r == (*slot matches Some(terminal) && terminal@.prior_mode is Some),
{
    match slot {
        Some(terminal) => terminal.is_raw_mode_enabled(),
        None => false,
    }
}

/// Starts to read the size of the window.
pub fn window_size<F, S, R, E>(terminal: Result<&Terminal<F, S, R>, E>) -> (r: Step<
    WindowSizePending,
    WindowSize,
    E,
>)
    ensures
        r == match terminal {
            Ok(_) => Step::<WindowSizePending, WindowSize, E>::Ask(
                Request::WindowSize,
                WindowSizePending,
            ),
            Err(e) => Step::<WindowSizePending, WindowSize, E>::Done(Err(TerminalError::Os(e))),
        },
{
    match terminal {
        Ok(terminal) => terminal.window_size(),
        Err(e) => Step::Done(Err(TerminalError::Os(e))),
    }
}

/// Starts to find out the size in columns and rows.
pub fn size<F, S, R, E>(terminal: Result<&Terminal<F, S, R>, E>) -> (r: Step<
    SizePending,
    (u16, u16),
    E,
>)
    ensures
        r == match terminal {
            Ok(_) => Step::<SizePending, (u16, u16), E>::Ask(
                Request::WindowSize,
                SizePending::Window(WindowSizePending),
            ),
            Err(e) => Step::<SizePending, (u16, u16), E>::Done(Err(TerminalError::Os(e))),
        },
{
    match terminal {
        Ok(terminal) => terminal.size(),
        Err(e) => Step::Done(Err(TerminalError::Os(e))),
    }
}

/// Starts to switch on raw mode.
pub fn enable_raw_mode<F, S, R, E>(terminal: Result<&Terminal<F, S, R>, E>) -> (r: Step<
    EnablePending,
    (),
    E,
>)
    ensures
        r == match terminal {
            Ok(terminal) => enable_start::<E>(terminal@.prior_mode),
            Err(e) => Step::<EnablePending, (), E>::Done(Err(TerminalError::Os(e))),
        },
{
    match terminal {
        Ok(terminal) => terminal.enable_raw_mode(),
        Err(e) => Step::Done(Err(TerminalError::Os(e))),
    }
}

/// Starts to switch off raw mode.
pub fn disable_raw_mode<F, S, R, E>(terminal: Result<&Terminal<F, S, R>, E>) -> (r: Step<
    DisablePending,
    (),
    E,
>)
    ensures
        r == match terminal {
            Ok(terminal) => disable_start::<E>(terminal@.prior_mode),
            Err(e) => Step::<DisablePending, (), E>::Done(Err(TerminalError::Os(e))),
        },
{
    match terminal {
        Ok(terminal) => terminal.disable_raw_mode(),
        Err(e) => Step::Done(Err(TerminalError::Os(e))),
    }
}

/// Starts to find out whether the terminal supports progressive keyboard enhancement.
///
/// Acquired with its events, the terminal has the reader that going on needs.
pub fn supports_keyboard_enhancement<F, S, R, E>(
    terminal: Result<&Terminal<F, S, R>, E>,
) -> (r: Step<KeyboardPending<E>, bool, E>)
    ensures
        r == match terminal {
            Ok(terminal) => keyboard_start::<E>(terminal@.prior_mode),
            Err(e) => Step::<KeyboardPending<E>, bool, E>::Done(Err(TerminalError::Os(e))),
        },
{
    match terminal {
        Ok(terminal) => terminal.supports_keyboard_enhancement(),
        Err(e) => Step::Done(Err(TerminalError::Os(e))),
    }
}

} // verus!
