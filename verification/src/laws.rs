//! What holds of the operations as a whole, whatever replies they get.

pub mod answers;
pub mod bracket;
pub mod descriptor;
pub mod raw_mode;
pub mod requests;
pub mod requests_in_order;
pub mod size;

use crate::protocol::{Reply, Step};
use crate::query::{
    cursor_next, cursor_start, keyboard_next, keyboard_start, CursorPending, KeyboardPending,
};
use crate::terminal::{disable_next, enable_next, DisablePending, EnablePending};
use rustix::termios::Termios;
use vstd::prelude::*;

verus! {

/// How far an operation has come, and the prior mode of its terminal.
#[verifier::reject_recursive_types(P)]
#[verifier::reject_recursive_types(T)]
#[verifier::reject_recursive_types(E)]
pub struct State<P, T, E> {
    pub prior_mode: Option<Termios>,
    pub step: Step<P, T, E>,
}

/// The rules of an operation: the replies it waits for, in view of the prior mode, and what it does
/// with one.
#[verifier::reject_recursive_types(P)]
#[verifier::reject_recursive_types(T)]
#[verifier::reject_recursive_types(E)]
pub struct Rules<P, T, E> {
    pub accepts: spec_fn(Option<Termios>, P, Reply<E>) -> bool,
    pub next: spec_fn(Option<Termios>, P, Reply<E>) -> (Option<Termios>, Step<P, T, E>),
}

impl<P, T, E> Rules<P, T, E> {
    /// The state after one reply.
    pub open spec fn after(self, state: State<P, T, E>, reply: Reply<E>) -> State<P, T, E> {
        match state.step {
            Step::Ask(_, pending) => {
                let (prior_mode, step) = (self.next)(state.prior_mode, pending, reply);
                State { prior_mode, step }
            },
            Step::Done(_) => state,
        }
    }

    /// Each of the replies is one that is waited for when it comes.
    pub open spec fn fits(self, state: State<P, T, E>, replies: Seq<Reply<E>>) -> bool
        decreases replies.len(),
    {
        replies.len() > 0 ==> {
            &&& state.step matches Step::Ask(_, pending) && (self.accepts)(
                state.prior_mode,
                pending,
                replies[0],
            )
            &&& self.fits(self.after(state, replies[0]), replies.drop_first())
        }
    }

    /// The state after all of the replies.
    pub open spec fn run(self, state: State<P, T, E>, replies: Seq<Reply<E>>) -> State<P, T, E>
        decreases replies.len(),
    {
        if replies.len() == 0 {
            state
        } else {
            self.run(self.after(state, replies[0]), replies.drop_first())
        }
    }
}

/// Switching on raw mode.
pub open spec fn enable_rules<E>() -> Rules<EnablePending, (), E> {
    Rules {
        accepts: |prior_mode: Option<Termios>, pending: EnablePending, reply: Reply<E>|
            prior_mode is None && pending.accepts(reply),
        next: |prior_mode: Option<Termios>, pending: EnablePending, reply: Reply<E>|
            enable_next(prior_mode, pending, reply),
    }
}

/// Switching off raw mode.
pub open spec fn disable_rules<E>() -> Rules<DisablePending, (), E> {
    Rules {
        accepts: |prior_mode: Option<Termios>, pending: DisablePending, reply: Reply<E>|
            reply is Completed,
        next: |prior_mode: Option<Termios>, pending: DisablePending, reply: Reply<E>|
            disable_next(prior_mode, reply),
    }
}

/// Finding out keyboard support.
pub open spec fn keyboard_rules<E>() -> Rules<KeyboardPending<E>, bool, E> {
    Rules {
        accepts: |prior_mode: Option<Termios>, pending: KeyboardPending<E>, reply: Reply<E>|
            pending.accepts(reply) && (pending.entering() ==> prior_mode is None),
        next: |prior_mode: Option<Termios>, pending: KeyboardPending<E>, reply: Reply<E>|
            keyboard_next(prior_mode, pending, reply),
    }
}

/// Finding out the position of the cursor.
pub open spec fn cursor_rules<E>() -> Rules<CursorPending<E>, (u16, u16), E> {
    Rules {
        accepts: |prior_mode: Option<Termios>, pending: CursorPending<E>, reply: Reply<E>|
            pending.accepts(reply) && (pending.entering() ==> prior_mode is None),
        next: |prior_mode: Option<Termios>, pending: CursorPending<E>, reply: Reply<E>|
            cursor_next(prior_mode, pending, reply),
    }
}

/// Finding out the position after these replies; `raw_mode` says whether raw mode is on.
pub open spec fn cursor_run<E>(
    prior_mode: Option<Termios>,
    raw_mode: bool,
    replies: Seq<Reply<E>>,
) -> State<CursorPending<E>, (u16, u16), E> {
    cursor_rules().run(State { prior_mode, step: cursor_start::<E>(prior_mode, raw_mode) }, replies)
}

/// The replies fit finding out the position.
pub open spec fn cursor_fits<E>(
    prior_mode: Option<Termios>,
    raw_mode: bool,
    replies: Seq<Reply<E>>,
) -> bool {
    cursor_rules().fits(
        State { prior_mode, step: cursor_start::<E>(prior_mode, raw_mode) },
        replies,
    )
}

/// Finding out keyboard support, after these replies.
pub open spec fn keyboard_run<E>(prior_mode: Option<Termios>, replies: Seq<Reply<E>>) -> State<
    KeyboardPending<E>,
    bool,
    E,
> {
    keyboard_rules().run(State { prior_mode, step: keyboard_start::<E>(prior_mode) }, replies)
}

/// The replies fit finding out keyboard support.
pub open spec fn keyboard_fits<E>(prior_mode: Option<Termios>, replies: Seq<Reply<E>>) -> bool {
    keyboard_rules().fits(State { prior_mode, step: keyboard_start::<E>(prior_mode) }, replies)
}

} // verus!
