//! The terminal handle, its raw mode and its size.

use crate::attributes::{attributes, raw_attributes, raw_copy, raw_form};
use crate::protocol::{answers, Dimension, Reply, Request, Step, TerminalError};
use crate::size::{both_dimensions, tput_dimension, tput_size, tput_value, window_size_of, WindowSize};
use rustix::termios::Termios;
use vstd::prelude::*;

verus! {

/// A terminal: its file, its events and the mode that it was in before raw mode.
///
/// `F` is the open file, `S` the stream of input events, and `R` the reader that the stream and
/// the queries to the terminal share.
pub struct Terminal<F, S, R> {
    file: F,
    // Some(mode): the terminal is in raw mode, and this is the mode before it.
    // None: the terminal is not in raw mode.
    prior_mode: Option<Termios>,
    event_stream: Option<S>,
    event_reader: Option<R>,
}

/// What a [`Terminal`] holds.
pub struct TerminalModel<F, S, R> {
    pub file: F,
    pub prior_mode: Option<Termios>,
    pub event_stream: Option<S>,
    pub event_reader: Option<R>,
}

impl<F, S, R> View for Terminal<F, S, R> {
    type V = TerminalModel<F, S, R>;

    closed spec fn view(&self) -> TerminalModel<F, S, R> {
        TerminalModel {
            file: self.file,
            prior_mode: self.prior_mode,
            event_stream: self.event_stream,
            event_reader: self.event_reader,
        }
    }
}

impl<F, S, R> TerminalModel<F, S, R> {
    /// A terminal that has an input stream has the reader behind it.
    pub open spec fn well_formed(self) -> bool {
        self.event_stream is Some ==> self.event_reader is Some
    }

    /// The same terminal with another prior mode.
    pub open spec fn with_prior_mode(self, prior_mode: Option<Termios>) -> Self {
        TerminalModel { prior_mode, ..self }
    }
}

/// Whatever mode a terminal is left in, it keeps its file and its events, and with them its
/// validity.
pub proof fn law_mode_does_not_touch_events<F, S, R>(
    terminal: TerminalModel<F, S, R>,
    prior_mode: Option<Termios>,
)
    ensures
        ({
            let after = terminal.with_prior_mode(prior_mode);
            &&& terminal.well_formed() ==> after.well_formed()
            &&& after.prior_mode == prior_mode
            &&& after.file == terminal.file
            &&& after.event_stream == terminal.event_stream
            &&& after.event_reader == terminal.event_reader
        }),
{
}

/// What is pending while raw mode is switched on.
pub enum EnablePending {
    /// The reply to `Request::GetAttributes`.
    Attributes,
    /// The reply to `Request::SetAttributes`; the mode is the one to go back to.
    Switch(Termios),
}

impl EnablePending {
    /// `reply` is one that is waited for.
    pub open spec fn accepts<E>(self, reply: Reply<E>) -> bool {
        match self {
            EnablePending::Attributes => reply is Attributes,
            EnablePending::Switch(_) => reply is Completed,
        }
    }
}

/// What is pending while raw mode is switched off: the reply to `Request::SetAttributes`.
pub struct DisablePending;

/// What is pending while the window size is read: the reply to `Request::WindowSize`.
pub struct WindowSizePending;

/// What is pending while the size is found out.
pub enum SizePending {
    /// The window size.
    Window(WindowSizePending),
    /// The columns that `tput` prints.
    Columns,
    /// The lines that `tput` prints; the columns are known.
    Lines(Option<u16>),
}

impl SizePending {
    /// `reply` is one that is waited for.
    pub open spec fn accepts<E>(self, reply: Reply<E>) -> bool {
        match self {
            SizePending::Window(_) => answers(Request::WindowSize, reply),
            SizePending::Columns => answers(Request::Tput(Dimension::Columns), reply),
            SizePending::Lines(_) => answers(Request::Tput(Dimension::Lines), reply),
        }
    }
}

/// Switching on raw mode begins with the attributes, unless raw mode is on already.
pub open spec fn enable_start<E>(prior_mode: Option<Termios>) -> Step<EnablePending, (), E> {
    if prior_mode is Some {
        Step::Done(Ok(()))
    } else {
        Step::Ask(Request::GetAttributes, EnablePending::Attributes)
    }
}

/// The attributes are set to their raw form, and the prior mode is kept once that has succeeded.
pub open spec fn enable_next<E>(
    prior_mode: Option<Termios>,
    pending: EnablePending,
    reply: Reply<E>,
) -> (Option<Termios>, Step<EnablePending, (), E>) {
    match (pending, reply) {
        (EnablePending::Attributes, Reply::Attributes(Ok(mode))) => (
            prior_mode,
            Step::Ask(Request::SetAttributes(raw_form(mode)), EnablePending::Switch(mode)),
        ),
        (EnablePending::Switch(mode), Reply::Completed(Ok(_))) => (Some(mode), Step::Done(Ok(()))),
        (EnablePending::Attributes, Reply::Attributes(Err(e))) => (
            prior_mode,
            Step::Done(Err(TerminalError::Os(e))),
        ),
        (EnablePending::Switch(_), Reply::Completed(Err(e))) => (
            prior_mode,
            Step::Done(Err(TerminalError::Os(e))),
        ),
        _ => arbitrary(),
    }
}

/// Switching off raw mode sets the prior mode, if raw mode is on.
pub open spec fn disable_start<E>(prior_mode: Option<Termios>) -> Step<DisablePending, (), E> {
    match prior_mode {
        Some(mode) => Step::Ask(Request::SetAttributes(mode), DisablePending),
        None => Step::Done(Ok(())),
    }
}

/// The prior mode is forgotten once it has been set.
pub open spec fn disable_next<E>(prior_mode: Option<Termios>, reply: Reply<E>) -> (
    Option<Termios>,
    Step<DisablePending, (), E>,
) {
    match reply {
        Reply::Completed(Ok(_)) => (None, Step::Done(Ok(()))),
        Reply::Completed(Err(e)) => (prior_mode, Step::Done(Err(TerminalError::Os(e)))),
        _ => arbitrary(),
    }
}

/// The window size is the one that was reported.
pub open spec fn window_size_next<E>(reply: Reply<E>) -> Step<WindowSizePending, WindowSize, E> {
    match reply {
        Reply::WindowSize(Ok(size)) => Step::Done(Ok(window_size_of(size))),
        Reply::WindowSize(Err(e)) => Step::Done(Err(TerminalError::Os(e))),
        _ => arbitrary(),
    }
}

/// The size is that of the window; where that cannot be read, the one that `tput` prints.
pub open spec fn size_next<E>(pending: SizePending, reply: Reply<E>) -> Step<
    SizePending,
    (u16, u16),
    E,
> {
    match (pending, reply) {
        (SizePending::Window(_), Reply::WindowSize(Ok(size))) => Step::Done(
            Ok((size.ws_col, size.ws_row)),
        ),
        (SizePending::Window(_), Reply::WindowSize(Err(_))) => Step::Ask(
            Request::Tput(Dimension::Columns),
            SizePending::Columns,
        ),
        (SizePending::Columns, Reply::Tput(output)) => Step::Ask(
            Request::Tput(Dimension::Lines),
            SizePending::Lines(tput_dimension(output)),
        ),
        (SizePending::Lines(columns), Reply::Tput(output)) => match both_dimensions(
            columns,
            tput_dimension(output),
        ) {
            Some(size) => Step::Done(Ok(size)),
            None => Step::Done(Err(TerminalError::LastOs)),
        },
        _ => arbitrary(),
    }
}

/// The attributes that a step sets to enter raw mode are the raw form of the mode to go back to.
pub open spec fn switches_to_raw<E>(step: Step<EnablePending, (), E>) -> bool {
    step matches Step::Ask(Request::SetAttributes(raw), EnablePending::Switch(mode)) ==> {
        attributes(raw) == raw_attributes(attributes(mode))
    }
}

impl<F, S, R> Terminal<F, S, R> {
    /// A terminal with its input events.
    pub fn new(file: F, event_stream: S, event_reader: R) -> (r: Terminal<F, S, R>)
        ensures
            r@ == (TerminalModel {
                file,
                prior_mode: None,
                event_stream: Some(event_stream),
                event_reader: Some(event_reader),
            }),
            r@.well_formed(),
    {
        Terminal {
            file,
            prior_mode: None,
            event_stream: Some(event_stream),
            event_reader: Some(event_reader),
        }
    }

    /// A terminal without input events.
    pub fn without_events(file: F) -> (r: Terminal<F, S, R>)
        ensures
            r@ == (TerminalModel::<F, S, R> {
                file,
                prior_mode: None,
                event_stream: None,
                event_reader: None,
            }),
            r@.well_formed(),
    {
        Terminal { file, prior_mode: None, event_stream: None, event_reader: None }
    }

    /// Gives the terminal its input events.
    pub fn attach_events(&mut self, event_stream: S, event_reader: R)
        ensures
            final(self)@ == (TerminalModel {
                event_stream: Some(event_stream),
                event_reader: Some(event_reader),
                ..old(self)@
            }),
            final(self)@.well_formed(),
    {
        self.event_stream = Some(event_stream);
        self.event_reader = Some(event_reader);
    }

    /// The file of the terminal.
    pub fn file(&self) -> (r: &F)
        ensures
            *r == self@.file,
    {
        &self.file
    }

    /// The file of the terminal, to write to.
    pub fn file_mut(&mut self) -> (r: &mut F)
        ensures
            *r == old(self)@.file,
            final(self)@ == (TerminalModel { file: *final(r), ..old(self)@ }),
    {
        &mut self.file
    }

    /// The reader of the events, if the terminal has one.
    pub fn event_reader(&self) -> (r: Option<&R>)
        ensures
            match self@.event_reader {
                Some(reader) => r == Some(&reader),
                None => r is None,
            },
    {
        match &self.event_reader {
            Some(reader) => Some(reader),
            None => None,
        }
    }

    /// Whether the terminal has its input stream.
    pub fn has_input_stream(&self) -> (r: bool)
        ensures
            r == (self@.event_stream is Some),
    {
        self.event_stream.is_some()
    }

    /// The stream of input events.
    pub fn input_stream(&mut self) -> (r: &mut S)
        requires
            old(self)@.event_stream is Some,
        ensures
            *r == old(self)@.event_stream->0,
            final(self)@ == (TerminalModel { event_stream: Some(*final(r)), ..old(self)@ }),
    {
        self.event_stream.as_mut().unwrap()
    }

    /// Takes the stream of input events out of the terminal.
    pub fn take_input_stream(&mut self) -> (r: S)
        requires
            old(self)@.event_stream is Some,
        ensures
            r == old(self)@.event_stream->0,
            final(self)@ == (TerminalModel { event_stream: None, ..old(self)@ }),
            old(self)@.well_formed() ==> final(self)@.well_formed(),
    {
        self.event_stream.take().unwrap()
    }

    /// Whether the terminal is in raw mode.
    pub fn is_raw_mode_enabled(&self) -> (r: bool)
        ensures
            r == (self@.prior_mode is Some),
    {
        self.prior_mode.is_some()
    }

    /// Starts to read the size of the window.
    pub fn window_size<E>(&self) -> (r: Step<WindowSizePending, WindowSize, E>)
        ensures
            r == Step::<WindowSizePending, WindowSize, E>::Ask(
                Request::WindowSize,
                WindowSizePending,
            ),
    {
        Step::Ask(Request::WindowSize, WindowSizePending)
    }

    /// Goes on with the size of the window.
    pub fn window_size_resume<E>(&self, pending: WindowSizePending, reply: Reply<E>) -> (r: Step<
        WindowSizePending,
        WindowSize,
        E,
    >)
        requires
            answers(Request::WindowSize, reply),
        ensures
            r == window_size_next(reply),
    {
        match reply {
            Reply::WindowSize(Ok(size)) => Step::Done(Ok(WindowSize::from(size))),
            Reply::WindowSize(Err(e)) => Step::Done(Err(TerminalError::Os(e))),
            _ => vstd::pervasive::unreached(),
        }
    }

    /// Starts to find out the size in columns and rows.
    pub fn size<E>(&self) -> (r: Step<SizePending, (u16, u16), E>)
        ensures
            r == Step::<SizePending, (u16, u16), E>::Ask(
                Request::WindowSize,
                SizePending::Window(WindowSizePending),
            ),
    {
        Step::Ask(Request::WindowSize, SizePending::Window(WindowSizePending))
    }

    /// Goes on with the size in columns and rows.
    pub fn size_resume<E>(&self, pending: SizePending, reply: Reply<E>) -> (r: Step<
        SizePending,
        (u16, u16),
        E,
    >)
        requires
            pending.accepts(reply),
        ensures
            r == size_next(pending, reply),
    {
        match pending {
            SizePending::Window(pending) => match self.window_size_resume(pending, reply) {
                Step::Done(Ok(size)) => Step::Done(Ok((size.columns, size.rows))),
                _ => Step::Ask(Request::Tput(Dimension::Columns), SizePending::Columns),
            },
            SizePending::Columns => match reply {
                Reply::Tput(output) => Step::Ask(
                    Request::Tput(Dimension::Lines),
                    SizePending::Lines(tput_value(&output)),
                ),
                _ => vstd::pervasive::unreached(),
            },
            SizePending::Lines(columns) => match reply {
                Reply::Tput(output) => match tput_size(columns, tput_value(&output)) {
                    Some(size) => Step::Done(Ok(size)),
                    None => Step::Done(Err(TerminalError::LastOs)),
                },
                _ => vstd::pervasive::unreached(),
            },
        }
    }

    /// Starts to switch on raw mode.
    pub fn enable_raw_mode<E>(&self) -> (r: Step<EnablePending, (), E>)
        ensures
            r == enable_start::<E>(self@.prior_mode),
    {
        if self.prior_mode.is_some() {
            return Step::Done(Ok(()));
        }
        Step::Ask(Request::GetAttributes, EnablePending::Attributes)
    }

    /// Goes on with switching on raw mode, which is still off.
    pub fn enable_raw_mode_resume<E>(&mut self, pending: EnablePending, reply: Reply<E>) -> (r: Step<
        EnablePending,
        (),
        E,
    >)
        requires
            pending.accepts(reply),
            old(self)@.prior_mode is None,
        ensures
            final(self)@ == old(self)@.with_prior_mode(
                enable_next(old(self)@.prior_mode, pending, reply).0,
            ),
            r == enable_next(old(self)@.prior_mode, pending, reply).1,
            switches_to_raw(r),
    {
        match pending {
            EnablePending::Attributes => match reply {
                Reply::Attributes(Ok(mode)) => {
                    let raw = raw_copy(&mode);
                    Step::Ask(Request::SetAttributes(raw), EnablePending::Switch(mode))
                },
                Reply::Attributes(Err(e)) => Step::Done(Err(TerminalError::Os(e))),
                _ => vstd::pervasive::unreached(),
            },
            EnablePending::Switch(mode) => match reply {
                Reply::Completed(Ok(_)) => {
                    // Kept only now that the terminal has switched to raw mode.
                    self.prior_mode = Some(mode);
                    Step::Done(Ok(()))
                },
                Reply::Completed(Err(e)) => Step::Done(Err(TerminalError::Os(e))),
                _ => vstd::pervasive::unreached(),
            },
        }
    }

    /// Starts to switch off raw mode: the whole mode is reset to what it was before raw mode was
    /// first switched on.
    pub fn disable_raw_mode<E>(&self) -> (r: Step<DisablePending, (), E>)
        ensures
            r == disable_start::<E>(self@.prior_mode),
    {
        match &self.prior_mode {
            Some(mode) => Step::Ask(Request::SetAttributes(mode.clone()), DisablePending),
            None => Step::Done(Ok(())),
        }
    }

    /// Goes on with switching off raw mode.
    pub fn disable_raw_mode_resume<E>(&mut self, pending: DisablePending, reply: Reply<E>) -> (r:
        Step<DisablePending, (), E>)
        requires
            reply is Completed,
        ensures
            final(self)@ == old(self)@.with_prior_mode(
                disable_next(old(self)@.prior_mode, reply).0,
            ),
            r == disable_next(old(self)@.prior_mode, reply).1,
    {
        match reply {
            Reply::Completed(Ok(_)) => {
                // Forgotten only now that the terminal has switched back.
                self.prior_mode = None;
                Step::Done(Ok(()))
            },
            Reply::Completed(Err(e)) => Step::Done(Err(TerminalError::Os(e))),
            _ => vstd::pervasive::unreached(),
        }
    }
}

} // verus!
