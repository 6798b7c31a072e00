//! Questions that the terminal itself answers: whether it supports the keyboard enhancement
//! protocol, and where the cursor is.
//!
//! An answer arrives as input, so it is read in raw mode. Where raw mode is off, a question is
//! asked in a bracket: raw mode is switched on, the question is asked, and raw mode is switched
//! off again, whatever came of the question.

use crate::attributes::{attributes, raw_attributes};
use crate::protocol::{
    Channel, Filter, InternalEvent, Query, Reply, Request, Step, TerminalError, POLL_TIMEOUT_MS,
};
use crate::terminal::{
    disable_next, disable_start, enable_next, enable_start, switches_to_raw, DisablePending,
    EnablePending, Terminal,
};
use rustix::termios::Termios;
use vstd::prelude::*;

verus! {

/// What is pending while the terminal is asked for the keyboard enhancement flags.
pub enum KeyboardQuery {
    /// The query is written.
    Write,
    /// The query is flushed.
    Flush,
    /// The flags are polled for.
    Poll,
    /// The flags are read.
    Read,
    /// The flags were read, and the device attributes are taken out of the event queue.
    Drain,
}

/// What is pending while the terminal is asked for the position of the cursor.
pub enum CursorQuery {
    /// The query is written.
    Write,
    /// The query is flushed.
    Flush,
    /// The position is polled for.
    Poll,
    /// The position is read.
    Read,
}

/// What is pending while a question is asked in between switching raw mode on and off.
pub enum Bracket<P, T, E> {
    /// Raw mode is switched on.
    Enter(EnablePending),
    /// The question is asked.
    Ask(P),
    /// The outcome is known, and raw mode is switched off.
    Leave(Result<T, TerminalError<E>>),
}

/// What is pending while support for the keyboard enhancement protocol is found out.
pub enum KeyboardPending<E> {
    /// Raw mode was on.
    Raw(KeyboardQuery),
    /// Raw mode was off.
    Bracketed(Bracket<KeyboardQuery, bool, E>),
}

/// What is pending while the position of the cursor is found out.
pub enum CursorPending<E> {
    /// Raw mode was on.
    Raw(CursorQuery),
    /// Raw mode was off.
    Bracketed(Bracket<CursorQuery, (u16, u16), E>),
}

impl KeyboardQuery {
    /// `reply` is one that is waited for.
    pub open spec fn accepts<E>(self, reply: Reply<E>) -> bool {
        match self {
            KeyboardQuery::Write | KeyboardQuery::Flush => reply is Completed,
            KeyboardQuery::Poll => reply is Polled,
            KeyboardQuery::Read | KeyboardQuery::Drain => reply is Event,
        }
    }

    /// The query is out, and its answer comes through the reader of the terminal.
    pub open spec fn needs_reader<E>(self, reply: Reply<E>) -> bool {
        self is Flush && reply matches Reply::Completed(Ok(_))
    }
}

impl CursorQuery {
    /// `reply` is one that is waited for.
    pub open spec fn accepts<E>(self, reply: Reply<E>) -> bool {
        match self {
            CursorQuery::Write | CursorQuery::Flush => reply is Completed,
            CursorQuery::Poll => reply is Polled,
            CursorQuery::Read => reply is Event,
        }
    }

    /// The query is out, and its answer comes through the reader of the terminal.
    pub open spec fn needs_reader<E>(self, reply: Reply<E>) -> bool {
        self is Flush && reply matches Reply::Completed(Ok(_))
    }
}

impl<E> KeyboardPending<E> {
    /// Raw mode is still being switched on for the question.
    pub open spec fn entering(self) -> bool {
        self matches KeyboardPending::Bracketed(Bracket::Enter(_))
    }

    /// `reply` is one that is waited for.
    pub open spec fn accepts(self, reply: Reply<E>) -> bool {
        match self {
            KeyboardPending::Raw(query) => query.accepts(reply),
            KeyboardPending::Bracketed(Bracket::Enter(pending)) => pending.accepts(reply),
            KeyboardPending::Bracketed(Bracket::Ask(query)) => query.accepts(reply),
            KeyboardPending::Bracketed(Bracket::Leave(_)) => reply is Completed,
        }
    }

    /// The query is out, and its answer comes through the reader of the terminal.
    pub open spec fn needs_reader(self, reply: Reply<E>) -> bool {
        match self {
            KeyboardPending::Raw(query) => query.needs_reader(reply),
            KeyboardPending::Bracketed(Bracket::Ask(query)) => query.needs_reader(reply),
            _ => false,
        }
    }
}

impl<E> CursorPending<E> {
    /// Raw mode is still being switched on for the question.
    pub open spec fn entering(self) -> bool {
        self matches CursorPending::Bracketed(Bracket::Enter(_))
    }

    /// `reply` is one that is waited for.
    pub open spec fn accepts(self, reply: Reply<E>) -> bool {
        match self {
            CursorPending::Raw(query) => query.accepts(reply),
            CursorPending::Bracketed(Bracket::Enter(pending)) => pending.accepts(reply),
            CursorPending::Bracketed(Bracket::Ask(query)) => query.accepts(reply),
            CursorPending::Bracketed(Bracket::Leave(_)) => reply is Completed,
        }
    }

    /// The query is out, and its answer comes through the reader of the terminal.
    pub open spec fn needs_reader(self, reply: Reply<E>) -> bool {
        match self {
            CursorPending::Raw(query) => query.needs_reader(reply),
            CursorPending::Bracketed(Bracket::Ask(query)) => query.needs_reader(reply),
            _ => false,
        }
    }
}

/// The keyboard query begins with its bytes, which go to the file of the terminal.
pub open spec fn keyboard_query_start<E>() -> Step<KeyboardQuery, bool, E> {
    Step::Ask(
        Request::Write(Channel::Terminal, Query::KeyboardEnhancement),
        KeyboardQuery::Write,
    )
}

/// The answer is polled for until a poll does not fail. The protocol is supported when the
/// flags are what is read then.
pub open spec fn keyboard_query_next<E>(pending: KeyboardQuery, reply: Reply<E>) -> Step<
    KeyboardQuery,
    bool,
    E,
> {
    let poll = Step::Ask(
        Request::Poll(Filter::KeyboardEnhancementFlags, POLL_TIMEOUT_MS),
        KeyboardQuery::Poll,
    );
    match (pending, reply) {
        (KeyboardQuery::Write, Reply::Completed(Ok(_))) => Step::Ask(
            Request::Flush(Channel::Terminal),
            KeyboardQuery::Flush,
        ),
        (KeyboardQuery::Write, Reply::Completed(Err(e))) => Step::Done(Err(TerminalError::Os(e))),
        (KeyboardQuery::Flush, Reply::Completed(Ok(_))) => poll,
        (KeyboardQuery::Flush, Reply::Completed(Err(e))) => Step::Done(Err(TerminalError::Os(e))),
        (KeyboardQuery::Poll, Reply::Polled(Ok(true))) => Step::Ask(
            Request::Read(Filter::KeyboardEnhancementFlags),
            KeyboardQuery::Read,
        ),
        (KeyboardQuery::Poll, Reply::Polled(Ok(false))) => Step::Done(
            Err(TerminalError::KeyboardEnhancementTimeout),
        ),
        (KeyboardQuery::Poll, Reply::Polled(Err(_))) => poll,
        (
            KeyboardQuery::Read,
            Reply::Event(Ok(InternalEvent::KeyboardEnhancementFlags(_))),
        ) => Step::Ask(Request::Read(Filter::PrimaryDeviceAttributes), KeyboardQuery::Drain),
        (KeyboardQuery::Read, Reply::Event(_)) => Step::Done(Ok(false)),
        (KeyboardQuery::Drain, Reply::Event(_)) => Step::Done(Ok(true)),
        _ => arbitrary(),
    }
}

/// The cursor query begins with its bytes, which go to the standard output.
pub open spec fn cursor_query_start<E>() -> Step<CursorQuery, (u16, u16), E> {
    Step::Ask(Request::Write(Channel::Stdout, Query::CursorPosition), CursorQuery::Write)
}

/// The answer is polled for and read until a position is read or a poll finds nothing in time.
pub open spec fn cursor_query_next<E>(pending: CursorQuery, reply: Reply<E>) -> Step<
    CursorQuery,
    (u16, u16),
    E,
> {
    let poll = Step::Ask(
        Request::Poll(Filter::CursorPosition, POLL_TIMEOUT_MS),
        CursorQuery::Poll,
    );
    match (pending, reply) {
        (CursorQuery::Write, Reply::Completed(Ok(_))) => Step::Ask(
            Request::Flush(Channel::Stdout),
            CursorQuery::Flush,
        ),
        (CursorQuery::Write, Reply::Completed(Err(e))) => Step::Done(Err(TerminalError::Os(e))),
        (CursorQuery::Flush, Reply::Completed(Ok(_))) => poll,
        (CursorQuery::Flush, Reply::Completed(Err(e))) => Step::Done(Err(TerminalError::Os(e))),
        (CursorQuery::Poll, Reply::Polled(Ok(true))) => Step::Ask(
            Request::Read(Filter::CursorPosition),
            CursorQuery::Read,
        ),
        (CursorQuery::Poll, Reply::Polled(Ok(false))) => Step::Done(
            Err(TerminalError::CursorPositionTimeout),
        ),
        (CursorQuery::Poll, Reply::Polled(Err(_))) => poll,
        (CursorQuery::Read, Reply::Event(Ok(InternalEvent::CursorPosition(x, y)))) => Step::Done(
            Ok((x, y)),
        ),
        (CursorQuery::Read, Reply::Event(_)) => poll,
        _ => arbitrary(),
    }
}

/// A step of the question inside the bracket. Once the outcome is known, raw mode is switched
/// off; where that takes no request, the outcome is the end.
pub open spec fn bracket_ask<P, T, E>(
    prior_mode: Option<Termios>,
    step: Step<P, T, E>,
) -> Step<Bracket<P, T, E>, T, E> {
    match step {
        Step::Ask(request, pending) => Step::Ask(request, Bracket::Ask(pending)),
        Step::Done(outcome) => match disable_start::<E>(prior_mode) {
            Step::Ask(request, _) => Step::Ask(request, Bracket::Leave(outcome)),
            Step::Done(_) => Step::Done(outcome),
        },
    }
}

/// A step of switching on raw mode. Once that has succeeded the question begins with `first`;
/// where it fails the question is not asked.
pub open spec fn bracket_enter<P, T, E>(
    prior_mode: Option<Termios>,
    step: Step<EnablePending, (), E>,
    first: Step<P, T, E>,
) -> Step<Bracket<P, T, E>, T, E> {
    match step {
        Step::Ask(request, pending) => Step::Ask(request, Bracket::Enter(pending)),
        Step::Done(Ok(_)) => bracket_ask(prior_mode, first),
        Step::Done(Err(e)) => Step::Done(Err(e)),
    }
}

/// A bracket begins with switching on raw mode.
pub open spec fn bracket_start<P, T, E>(
    prior_mode: Option<Termios>,
    first: Step<P, T, E>,
) -> Step<Bracket<P, T, E>, T, E> {
    bracket_enter(prior_mode, enable_start::<E>(prior_mode), first)
}

/// What becomes of the prior mode and the bracket. The outcome of the question is the end of the
/// bracket, unless raw mode cannot be switched off.
pub open spec fn bracket_next<P, T, E>(
    prior_mode: Option<Termios>,
    pending: Bracket<P, T, E>,
    reply: Reply<E>,
    first: Step<P, T, E>,
    ask: spec_fn(P, Reply<E>) -> Step<P, T, E>,
) -> (Option<Termios>, Step<Bracket<P, T, E>, T, E>) {
    match pending {
        Bracket::Enter(pending) => {
            let (mode, step) = enable_next(prior_mode, pending, reply);
            (mode, bracket_enter(mode, step, first))
        },
        Bracket::Ask(pending) => (prior_mode, bracket_ask(prior_mode, ask(pending, reply))),
        Bracket::Leave(outcome) => {
            let (mode, step) = disable_next(prior_mode, reply);
            match step {
                Step::Done(Err(e)) => (mode, Step::Done(Err(e))),
                _ => (mode, Step::Done(outcome)),
            }
        },
    }
}

/// The rule of the keyboard query.
pub open spec fn keyboard_rule<E>() -> spec_fn(KeyboardQuery, Reply<E>) -> Step<
    KeyboardQuery,
    bool,
    E,
> {
    |pending: KeyboardQuery, reply: Reply<E>| keyboard_query_next(pending, reply)
}

/// The replies that the keyboard query waits for.
pub open spec fn keyboard_accepts<E>() -> spec_fn(KeyboardQuery, Reply<E>) -> bool {
    |pending: KeyboardQuery, reply: Reply<E>| pending.accepts(reply)
}

/// The replies that the cursor query waits for.
pub open spec fn cursor_accepts<E>() -> spec_fn(CursorQuery, Reply<E>) -> bool {
    |pending: CursorQuery, reply: Reply<E>| pending.accepts(reply)
}

/// The rule of the cursor query.
pub open spec fn cursor_rule<E>() -> spec_fn(CursorQuery, Reply<E>) -> Step<
    CursorQuery,
    (u16, u16),
    E,
> {
    |pending: CursorQuery, reply: Reply<E>| cursor_query_next(pending, reply)
}

/// A step of the keyboard query in raw mode.
pub open spec fn keyboard_raw<E>(step: Step<KeyboardQuery, bool, E>) -> Step<
    KeyboardPending<E>,
    bool,
    E,
> {
    match step {
        Step::Ask(request, pending) => Step::Ask(request, KeyboardPending::Raw(pending)),
        Step::Done(outcome) => Step::Done(outcome),
    }
}

/// A step of the keyboard query in a bracket.
pub open spec fn keyboard_bracketed<E>(
    step: Step<Bracket<KeyboardQuery, bool, E>, bool, E>,
) -> Step<KeyboardPending<E>, bool, E> {
    match step {
        Step::Ask(request, pending) => Step::Ask(request, KeyboardPending::Bracketed(pending)),
        Step::Done(outcome) => Step::Done(outcome),
    }
}

/// A step of the cursor query in raw mode.
pub open spec fn cursor_raw<E>(step: Step<CursorQuery, (u16, u16), E>) -> Step<
    CursorPending<E>,
    (u16, u16),
    E,
> {
    match step {
        Step::Ask(request, pending) => Step::Ask(request, CursorPending::Raw(pending)),
        Step::Done(outcome) => Step::Done(outcome),
    }
}

/// A step of the cursor query in a bracket.
pub open spec fn cursor_bracketed<E>(
    step: Step<Bracket<CursorQuery, (u16, u16), E>, (u16, u16), E>,
) -> Step<CursorPending<E>, (u16, u16), E> {
    match step {
        Step::Ask(request, pending) => Step::Ask(request, CursorPending::Bracketed(pending)),
        Step::Done(outcome) => Step::Done(outcome),
    }
}

/// Finding out keyboard support takes a bracket unless raw mode is on.
pub open spec fn keyboard_start<E>(prior_mode: Option<Termios>) -> Step<
    KeyboardPending<E>,
    bool,
    E,
> {
    if prior_mode is Some {
        keyboard_raw(keyboard_query_start())
    } else {
        keyboard_bracketed(bracket_start(prior_mode, keyboard_query_start()))
    }
}

/// What becomes of the prior mode and of finding out keyboard support.
pub open spec fn keyboard_next<E>(
    prior_mode: Option<Termios>,
    pending: KeyboardPending<E>,
    reply: Reply<E>,
) -> (Option<Termios>, Step<KeyboardPending<E>, bool, E>) {
    match pending {
        KeyboardPending::Raw(query) => (
            prior_mode,
            keyboard_raw(keyboard_query_next(query, reply)),
        ),
        KeyboardPending::Bracketed(pending) => {
            let (mode, step) = bracket_next(
                prior_mode,
                pending,
                reply,
                keyboard_query_start(),
                keyboard_rule(),
            );
            (mode, keyboard_bracketed(step))
        },
    }
}

/// Finding out the position takes a bracket unless raw mode is said to be on.
pub open spec fn cursor_start<E>(prior_mode: Option<Termios>, raw_mode: bool) -> Step<
    CursorPending<E>,
    (u16, u16),
    E,
> {
    if raw_mode {
        cursor_raw(cursor_query_start())
    } else {
        cursor_bracketed(bracket_start(prior_mode, cursor_query_start()))
    }
}

/// What becomes of the prior mode and of finding out the position.
pub open spec fn cursor_next<E>(
    prior_mode: Option<Termios>,
    pending: CursorPending<E>,
    reply: Reply<E>,
) -> (Option<Termios>, Step<CursorPending<E>, (u16, u16), E>) {
    match pending {
        CursorPending::Raw(query) => (prior_mode, cursor_raw(cursor_query_next(query, reply))),
        CursorPending::Bracketed(pending) => {
            let (mode, step) = bracket_next(
                prior_mode,
                pending,
                reply,
                cursor_query_start(),
                cursor_rule(),
            );
            (mode, cursor_bracketed(step))
        },
    }
}

/// Starts to ask for the keyboard enhancement flags. The terminal has to be in raw mode.
fn read_supports_keyboard_enhancement_raw<E>() -> (r: Step<KeyboardQuery, bool, E>)
    ensures
        r == keyboard_query_start::<E>(),
{
    Step::Ask(
        Request::Write(Channel::Terminal, Query::KeyboardEnhancement),
        KeyboardQuery::Write,
    )
}

/// Goes on with asking for the keyboard enhancement flags.
fn read_supports_keyboard_enhancement_raw_resume<E>(
    pending: KeyboardQuery,
    reply: Reply<E>,
) -> (r: Step<KeyboardQuery, bool, E>)
    requires
        pending.accepts(reply),
    ensures
        r == keyboard_query_next(pending, reply),
{
    match (pending, reply) {
        (KeyboardQuery::Write, Reply::Completed(Ok(_))) => Step::Ask(
            Request::Flush(Channel::Terminal),
            KeyboardQuery::Flush,
        ),
        (KeyboardQuery::Write, Reply::Completed(Err(e))) => Step::Done(Err(TerminalError::Os(e))),
        (KeyboardQuery::Flush, Reply::Completed(Err(e))) => Step::Done(Err(TerminalError::Os(e))),
        (KeyboardQuery::Poll, Reply::Polled(Ok(ready))) => {
            if ready {
                Step::Ask(Request::Read(Filter::KeyboardEnhancementFlags), KeyboardQuery::Read)
            } else {
                Step::Done(Err(TerminalError::KeyboardEnhancementTimeout))
            }
        },
        (KeyboardQuery::Read, Reply::Event(event)) => match event {
            // The device attributes are still to come, and nobody else waits for them.
            Ok(InternalEvent::KeyboardEnhancementFlags(_)) => Step::Ask(
                Request::Read(Filter::PrimaryDeviceAttributes),
                KeyboardQuery::Drain,
            ),
            _ => Step::Done(Ok(false)),
        },
        (KeyboardQuery::Drain, _) => Step::Done(Ok(true)),
        // The query is out, or the last poll failed.
        _ => Step::Ask(
            Request::Poll(Filter::KeyboardEnhancementFlags, POLL_TIMEOUT_MS),
            KeyboardQuery::Poll,
        ),
    }
}

/// Starts to ask for the position of the cursor. The terminal has to be in raw mode.
fn read_position_raw<E>() -> (r: Step<CursorQuery, (u16, u16), E>)
    ensures
        r == cursor_query_start::<E>(),
{
    Step::Ask(Request::Write(Channel::Stdout, Query::CursorPosition), CursorQuery::Write)
}

/// Goes on with asking for the position of the cursor.
fn read_position_raw_resume<E>(pending: CursorQuery, reply: Reply<E>) -> (r: Step<
    CursorQuery,
    (u16, u16),
    E,
>)
    requires
        pending.accepts(reply),
    ensures
        r == cursor_query_next(pending, reply),
{
    match (pending, reply) {
        (CursorQuery::Write, Reply::Completed(Ok(_))) => Step::Ask(
            Request::Flush(Channel::Stdout),
            CursorQuery::Flush,
        ),
        (CursorQuery::Write, Reply::Completed(Err(e))) => Step::Done(Err(TerminalError::Os(e))),
        (CursorQuery::Flush, Reply::Completed(Err(e))) => Step::Done(Err(TerminalError::Os(e))),
        (CursorQuery::Poll, Reply::Polled(Ok(ready))) => {
            if ready {
                Step::Ask(Request::Read(Filter::CursorPosition), CursorQuery::Read)
            } else {
                Step::Done(Err(TerminalError::CursorPositionTimeout))
            }
        },
        (CursorQuery::Read, Reply::Event(Ok(InternalEvent::CursorPosition(x, y)))) => Step::Done(
            Ok((x, y)),
        ),
        // The query is out, the last poll failed, or what was read is no position.
        _ => Step::Ask(
            Request::Poll(Filter::CursorPosition, POLL_TIMEOUT_MS),
            CursorQuery::Poll,
        ),
    }
}

/// In a bracket, the attributes that a step sets to enter raw mode are the raw form of the mode
/// to go back to.
pub open spec fn enters_raw<P, T, E>(step: Step<Bracket<P, T, E>, T, E>) -> bool {
    step matches Step::Ask(
        Request::SetAttributes(raw),
        Bracket::Enter(EnablePending::Switch(mode)),
    ) ==> attributes(raw) == raw_attributes(attributes(mode))
}

impl<F, S, R> Terminal<F, S, R> {
    /// Goes on with the bracket after a step of the question.
    fn after_question<P, T, E>(&self, step: Step<P, T, E>) -> (r: Step<Bracket<P, T, E>, T, E>)
        ensures
            r == bracket_ask(self@.prior_mode, step),
            enters_raw(r),
    {
        match step {
            Step::Ask(request, pending) => Step::Ask(request, Bracket::Ask(pending)),
            Step::Done(outcome) => match self.disable_raw_mode::<E>() {
                Step::Ask(request, _) => Step::Ask(request, Bracket::Leave(outcome)),
                Step::Done(_) => Step::Done(outcome),
            },
        }
    }

    /// Goes on with the bracket after a step of switching on raw mode.
    fn after_enable<P, T, E>(
        &self,
        step: Step<EnablePending, (), E>,
        first: Step<P, T, E>,
    ) -> (r: Step<Bracket<P, T, E>, T, E>)
        requires
            switches_to_raw(step),
        ensures
            r == bracket_enter(self@.prior_mode, step, first),
            enters_raw(r),
    {
        match step {
            Step::Ask(request, pending) => Step::Ask(request, Bracket::Enter(pending)),
            Step::Done(Ok(_)) => self.after_question(first),
            Step::Done(Err(e)) => Step::Done(Err(e)),
        }
    }

    /// Goes on with the bracket after the reply to switching off raw mode.
    fn after_disable<P, T, E>(
        &mut self,
        outcome: Result<T, TerminalError<E>>,
        reply: Reply<E>,
    ) -> (r: Step<Bracket<P, T, E>, T, E>)
        requires
            reply is Completed,
        ensures
            final(self)@ == old(self)@.with_prior_mode(
                disable_next(old(self)@.prior_mode, reply).0,
            ),
            r == match disable_next(old(self)@.prior_mode, reply).1 {
                Step::Done(Err(e)) => Step::<Bracket<P, T, E>, T, E>::Done(Err(e)),
                _ => Step::<Bracket<P, T, E>, T, E>::Done(outcome),
            },
    {
        match self.disable_raw_mode_resume(DisablePending, reply) {
            Step::Done(Err(e)) => Step::Done(Err(e)),
            _ => Step::Done(outcome),
        }
    }

    /// Starts to ask for the keyboard enhancement flags in a bracket.
    fn read_supports_keyboard_enhancement_flags<E>(&self) -> (r: Step<
        Bracket<KeyboardQuery, bool, E>,
        bool,
        E,
    >)
        ensures
            r == bracket_start(self@.prior_mode, keyboard_query_start::<E>()),
            enters_raw(r),
    {
        let step = self.enable_raw_mode();
        self.after_enable(step, read_supports_keyboard_enhancement_raw())
    }

    /// Goes on with asking for the keyboard enhancement flags in a bracket.
    fn read_supports_keyboard_enhancement_flags_resume<E>(
        &mut self,
        pending: Bracket<KeyboardQuery, bool, E>,
        reply: Reply<E>,
    ) -> (r: Step<Bracket<KeyboardQuery, bool, E>, bool, E>)
        requires
            KeyboardPending::Bracketed(pending).accepts(reply),
            pending is Enter ==> old(self)@.prior_mode is None,
        ensures
            final(self)@ == old(self)@.with_prior_mode(
                bracket_next(
                    old(self)@.prior_mode,
                    pending,
                    reply,
                    keyboard_query_start(),
                    keyboard_rule(),
                ).0,
            ),
            r == bracket_next(
                old(self)@.prior_mode,
                pending,
                reply,
                keyboard_query_start(),
                keyboard_rule(),
            ).1,
            enters_raw(r),
    {
        match pending {
            Bracket::Enter(pending) => {
                let step = self.enable_raw_mode_resume(pending, reply);
                self.after_enable(step, read_supports_keyboard_enhancement_raw())
            },
            Bracket::Ask(pending) => {
                let step = read_supports_keyboard_enhancement_raw_resume(pending, reply);
                self.after_question(step)
            },
            Bracket::Leave(outcome) => self.after_disable(outcome, reply),
        }
    }

    /// Starts to ask for the position of the cursor in a bracket.
    fn read_position<E>(&self) -> (r: Step<Bracket<CursorQuery, (u16, u16), E>, (u16, u16), E>)
        ensures
            r == bracket_start(self@.prior_mode, cursor_query_start::<E>()),
            enters_raw(r),
    {
        let step = self.enable_raw_mode();
        self.after_enable(step, read_position_raw())
    }

    /// Goes on with asking for the position of the cursor in a bracket.
    fn read_position_resume<E>(
        &mut self,
        pending: Bracket<CursorQuery, (u16, u16), E>,
        reply: Reply<E>,
    ) -> (r: Step<Bracket<CursorQuery, (u16, u16), E>, (u16, u16), E>)
        requires
            CursorPending::Bracketed(pending).accepts(reply),
            pending is Enter ==> old(self)@.prior_mode is None,
        ensures
            final(self)@ == old(self)@.with_prior_mode(
                bracket_next(
                    old(self)@.prior_mode,
                    pending,
                    reply,
                    cursor_query_start(),
                    cursor_rule(),
                ).0,
            ),
            r == bracket_next(
                old(self)@.prior_mode,
                pending,
                reply,
                cursor_query_start(),
                cursor_rule(),
            ).1,
            enters_raw(r),
    {
        match pending {
            Bracket::Enter(pending) => {
                let step = self.enable_raw_mode_resume(pending, reply);
                self.after_enable(step, read_position_raw())
            },
            Bracket::Ask(pending) => {
                let step = read_position_raw_resume(pending, reply);
                self.after_question(step)
            },
            Bracket::Leave(outcome) => self.after_disable(outcome, reply),
        }
    }

    /// Starts to find out whether the terminal supports the keyboard enhancement protocol.
    pub fn supports_keyboard_enhancement<E>(&self) -> (r: Step<KeyboardPending<E>, bool, E>)
        ensures
            r == keyboard_start::<E>(self@.prior_mode),
    {
        if self.is_raw_mode_enabled() {
            match read_supports_keyboard_enhancement_raw() {
                Step::Ask(request, pending) => Step::Ask(request, KeyboardPending::Raw(pending)),
                Step::Done(outcome) => Step::Done(outcome),
            }
        } else {
            match self.read_supports_keyboard_enhancement_flags() {
                Step::Ask(request, pending) => Step::Ask(
                    request,
                    KeyboardPending::Bracketed(pending),
                ),
                Step::Done(outcome) => Step::Done(outcome),
            }
        }
    }

    /// Goes on with finding out whether the terminal supports the keyboard enhancement protocol.
    ///
    /// Once the query is out, the terminal needs a reader for the answer.
    pub fn supports_keyboard_enhancement_resume<E>(
        &mut self,
        pending: KeyboardPending<E>,
        reply: Reply<E>,
    ) -> (r: Step<KeyboardPending<E>, bool, E>)
        requires
            pending.accepts(reply),
            pending.entering() ==> old(self)@.prior_mode is None,
            pending.needs_reader(reply) ==> old(self)@.event_reader is Some,
        ensures
            final(self)@ == old(self)@.with_prior_mode(
                keyboard_next(old(self)@.prior_mode, pending, reply).0,
            ),
            r == keyboard_next(old(self)@.prior_mode, pending, reply).1,
            r matches Step::Ask(
                Request::SetAttributes(raw),
                KeyboardPending::Bracketed(Bracket::Enter(EnablePending::Switch(mode))),
            ) ==> attributes(raw) == raw_attributes(attributes(mode)),
    {
        match pending {
            KeyboardPending::Raw(query) => {
                match read_supports_keyboard_enhancement_raw_resume(query, reply) {
                    Step::Ask(request, pending) => Step::Ask(
                        request,
                        KeyboardPending::Raw(pending),
                    ),
                    Step::Done(outcome) => Step::Done(outcome),
                }
            },
            KeyboardPending::Bracketed(pending) => {
                match self.read_supports_keyboard_enhancement_flags_resume(pending, reply) {
                    Step::Ask(request, pending) => Step::Ask(
                        request,
                        KeyboardPending::Bracketed(pending),
                    ),
                    Step::Done(outcome) => Step::Done(outcome),
                }
            },
        }
    }

    /// Starts to find out where the cursor is.
    ///
    /// `raw_mode` says whether the terminal of the process is in raw mode, which need not be this
    /// terminal.
    pub fn cursor_position<E>(&self, raw_mode: bool) -> (r: Step<CursorPending<E>, (u16, u16), E>)
        ensures
            r == cursor_start::<E>(self@.prior_mode, raw_mode),
    {
        if raw_mode {
            match read_position_raw() {
                Step::Ask(request, pending) => Step::Ask(request, CursorPending::Raw(pending)),
                Step::Done(outcome) => Step::Done(outcome),
            }
        } else {
            match self.read_position() {
                Step::Ask(request, pending) => Step::Ask(
                    request,
                    CursorPending::Bracketed(pending),
                ),
                Step::Done(outcome) => Step::Done(outcome),
            }
        }
    }

    /// Goes on with finding out where the cursor is.
    ///
    /// Once the query is out, the terminal needs a reader for the answer.
    pub fn cursor_position_resume<E>(
        &mut self,
        pending: CursorPending<E>,
        reply: Reply<E>,
    ) -> (r: Step<CursorPending<E>, (u16, u16), E>)
        requires
            pending.accepts(reply),
            pending.entering() ==> old(self)@.prior_mode is None,
            pending.needs_reader(reply) ==> old(self)@.event_reader is Some,
        ensures
            final(self)@ == old(self)@.with_prior_mode(
                cursor_next(old(self)@.prior_mode, pending, reply).0,
            ),
            r == cursor_next(old(self)@.prior_mode, pending, reply).1,
            r matches Step::Ask(
                Request::SetAttributes(raw),
                CursorPending::Bracketed(Bracket::Enter(EnablePending::Switch(mode))),
            ) ==> attributes(raw) == raw_attributes(attributes(mode)),
    {
        match pending {
            CursorPending::Raw(query) => match read_position_raw_resume(query, reply) {
                Step::Ask(request, pending) => Step::Ask(request, CursorPending::Raw(pending)),
                Step::Done(outcome) => Step::Done(outcome),
            },
            CursorPending::Bracketed(pending) => match self.read_position_resume(pending, reply) {
                Step::Ask(request, pending) => Step::Ask(
                    request,
                    CursorPending::Bracketed(pending),
                ),
                Step::Done(outcome) => Step::Done(outcome),
            },
        }
    }
}

} // verus!
