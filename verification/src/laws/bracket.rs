//! A question to the terminal does not disturb the mode that the terminal is in.

use crate::attributes::raw_form;
use crate::laws::{
    cursor_fits, cursor_rules, cursor_run, keyboard_fits, keyboard_rules, keyboard_run, Rules, State,
};
use crate::protocol::{Reply, Request, Step, TerminalError};
use crate::query::{
    bracket_next, cursor_query_start, cursor_rule, cursor_start, keyboard_query_start, keyboard_rule,
    keyboard_start, Bracket, CursorPending, KeyboardPending,
};
use crate::terminal::EnablePending;
use rustix::termios::Termios;
use vstd::prelude::*;

verus! {

/// A step that does not touch the mode of the terminal.
pub open spec fn leaves_mode<P, T, E>(step: Step<P, T, E>) -> bool {
    !(step matches Step::Ask(Request::SetAttributes(_), _))
}

/// Where raw mode is on, finding out keyboard support never touches the mode of the terminal.
pub proof fn law_keyboard_support_in_raw_mode_leaves_mode<E>(
    mode: Termios,
    replies: Seq<Reply<E>>,
)
    requires
        keyboard_fits(Some(mode), replies),
    ensures
        keyboard_run(Some(mode), replies).prior_mode == Some(mode),
        leaves_mode(keyboard_run(Some(mode), replies).step),
{
    lemma_keyboard_raw_leaves_mode(
        State { prior_mode: Some(mode), step: keyboard_start::<E>(Some(mode)) },
        replies,
    );
}

proof fn lemma_keyboard_raw_leaves_mode<E>(
    state: State<KeyboardPending<E>, bool, E>,
    replies: Seq<Reply<E>>,
)
    requires
        keyboard_rules().fits(state, replies),
        !(state.step matches Step::Ask(_, KeyboardPending::Bracketed(_))),
        leaves_mode(state.step),
    ensures
        keyboard_rules().run(state, replies).prior_mode == state.prior_mode,
        leaves_mode(keyboard_rules().run(state, replies).step),
    decreases replies.len(),
{
    if replies.len() > 0 {
        lemma_keyboard_raw_leaves_mode(
            keyboard_rules().after(state, replies[0]),
            replies.drop_first(),
        );
    }
}

/// Where raw mode is said to be on, finding out the position never touches the mode of the terminal.
pub proof fn law_cursor_position_in_raw_mode_leaves_mode<E>(
    prior_mode: Option<Termios>,
    replies: Seq<Reply<E>>,
)
    requires
        cursor_fits(prior_mode, true, replies),
    ensures
        cursor_run(prior_mode, true, replies).prior_mode == prior_mode,
        leaves_mode(cursor_run(prior_mode, true, replies).step),
{
    lemma_cursor_raw_leaves_mode(
        State { prior_mode, step: cursor_start::<E>(prior_mode, true) },
        replies,
    );
}

proof fn lemma_cursor_raw_leaves_mode<E>(
    state: State<CursorPending<E>, (u16, u16), E>,
    replies: Seq<Reply<E>>,
)
    requires
        cursor_rules().fits(state, replies),
        !(state.step matches Step::Ask(_, CursorPending::Bracketed(_))),
        leaves_mode(state.step),
    ensures
        cursor_rules().run(state, replies).prior_mode == state.prior_mode,
        leaves_mode(cursor_rules().run(state, replies).step),
    decreases replies.len(),
{
    if replies.len() > 0 {
        lemma_cursor_raw_leaves_mode(
            cursor_rules().after(state, replies[0]),
            replies.drop_first(),
        );
    }
}

/// Every mode that a step sets is the raw form of `mode` or `mode` itself.
pub open spec fn sets_only<P, T, E>(mode: Termios, step: Step<P, T, E>) -> bool {
    step matches Step::Ask(Request::SetAttributes(set), _) ==> set == raw_form(mode) || set
        == mode
}

/// What is promised of an operation that switches raw mode on and off around a question, on a
/// terminal whose mode is `mode` without raw mode.
pub open spec fn bracket_promise<P, T, E>(
    mode: Termios,
    state: State<P, T, E>,
    last_reply: Reply<E>,
) -> bool {
    // Only this mode is ever kept, and only it and its raw form are set.
    &&& state.prior_mode is Some ==> state.prior_mode == Some(mode)
    &&& sets_only(mode, state.step)
    // An answer is given with raw mode off.
    &&& state.step matches Step::Done(Ok(_)) ==> state.prior_mode is None
    // Raw mode is left on only where it could not be switched off, and that is the error then.
    &&& state.step is Done && state.prior_mode is Some ==> {
        &&& last_reply matches Reply::Completed(Err(e))
        &&& state.step == Step::<P, T, E>::Done(Err(TerminalError::Os(e)))
    }
}

/// Where a bracket around a question can be, once the mode is known.
spec fn in_bracket<P, T, E>(
    mode: Termios,
    prior_mode: Option<Termios>,
    step: Step<Bracket<P, T, E>, T, E>,
) -> bool {
    match step {
        Step::Ask(_, Bracket::Enter(EnablePending::Attributes)) => false,
        Step::Ask(request, Bracket::Enter(EnablePending::Switch(m))) => {
            &&& prior_mode is None
            &&& m == mode
            &&& request == Request::SetAttributes(raw_form(mode))
        },
        Step::Ask(_, Bracket::Ask(_)) => prior_mode == Some(mode) && leaves_mode(step),
        Step::Ask(request, Bracket::Leave(_)) => prior_mode == Some(mode) && request
            == Request::SetAttributes(mode),
        Step::Done(_) => prior_mode is None,
    }
}

/// The outcome of one reply inside a bracket: it stays a bracket, or it could not be left.
proof fn lemma_bracket_next<P, T, E>(
    mode: Termios,
    prior_mode: Option<Termios>,
    request: Request,
    pending: Bracket<P, T, E>,
    reply: Reply<E>,
    first: Step<P, T, E>,
    ask: spec_fn(P, Reply<E>) -> Step<P, T, E>,
)
    requires
        in_bracket(mode, prior_mode, Step::Ask(request, pending)),
        leaves_mode(first),
        match pending {
            Bracket::Enter(pending) => pending.accepts(reply),
            Bracket::Ask(pending) => leaves_mode(ask(pending, reply)),
            Bracket::Leave(_) => reply is Completed,
        },
    ensures
        ({
            let (mode_after, step_after) = bracket_next(prior_mode, pending, reply, first, ask);
            ||| in_bracket(mode, mode_after, step_after)
            ||| {
                &&& mode_after == Some(mode)
                &&& reply matches Reply::Completed(Err(e))
                &&& step_after == Step::<Bracket<P, T, E>, T, E>::Done(Err(TerminalError::Os(e)))
            }
        }),
{
}

spec fn keyboard_in_bracket<E>(mode: Termios, state: State<KeyboardPending<E>, bool, E>) -> bool {
    match state.step {
        Step::Ask(request, KeyboardPending::Bracketed(pending)) => in_bracket(
            mode,
            state.prior_mode,
            Step::Ask(request, pending),
        ),
        Step::Ask(_, KeyboardPending::Raw(_)) => false,
        Step::Done(_) => state.prior_mode is None,
    }
}

proof fn lemma_keyboard_bracket<E>(
    mode: Termios,
    state: State<KeyboardPending<E>, bool, E>,
    replies: Seq<Reply<E>>,
)
    requires
        keyboard_in_bracket(mode, state),
        keyboard_rules().fits(state, replies),
        replies.len() > 0,
    ensures
        bracket_promise(mode, keyboard_rules().run(state, replies), replies.last()),
    decreases replies.len(),
{
    if let Step::Ask(request, KeyboardPending::Bracketed(pending)) = state.step {
        lemma_bracket_next(
            mode,
            state.prior_mode,
            request,
            pending,
            replies[0],
            keyboard_query_start::<E>(),
            keyboard_rule(),
        );
    }
    let next = keyboard_rules().after(state, replies[0]);
    let rest = replies.drop_first();
    if rest.len() > 0 {
        reveal_with_fuel(Rules::fits, 2);
        lemma_keyboard_bracket(mode, next, rest);
    }
}

/// Where raw mode is off, finding out keyboard support leaves it off, unless it could not be
/// switched off again; then that is the error, and the mode to go back to is still known.
/// Where the mode cannot be read, nothing is touched.
pub proof fn law_keyboard_support_leaves_raw_mode<E>(replies: Seq<Reply<E>>)
    requires
        keyboard_fits(None, replies),
        replies.len() > 0,
    ensures
        match replies[0] {
            Reply::Attributes(Ok(mode)) => bracket_promise(
                mode,
                keyboard_run(None, replies),
                replies.last(),
            ),
            Reply::Attributes(Err(e)) => keyboard_run(None, replies) == (State {
                prior_mode: None,
                step: Step::<KeyboardPending<E>, bool, E>::Done(Err(TerminalError::Os(e))),
            }),
            _ => false,
        },
{
    let start = State { prior_mode: None::<Termios>, step: keyboard_start::<E>(None) };
    let next = keyboard_rules().after(start, replies[0]);
    let rest = replies.drop_first();
    reveal_with_fuel(Rules::run, 2);
    reveal_with_fuel(Rules::fits, 2);
    if let Reply::Attributes(Ok(mode)) = replies[0] {
        if rest.len() > 0 {
            lemma_keyboard_bracket(mode, next, rest);
        }
    }
}

spec fn cursor_in_bracket<E>(
    mode: Termios,
    state: State<CursorPending<E>, (u16, u16), E>,
) -> bool {
    match state.step {
        Step::Ask(request, CursorPending::Bracketed(pending)) => in_bracket(
            mode,
            state.prior_mode,
            Step::Ask(request, pending),
        ),
        Step::Ask(_, CursorPending::Raw(_)) => false,
        Step::Done(_) => state.prior_mode is None,
    }
}

proof fn lemma_cursor_bracket<E>(
    mode: Termios,
    state: State<CursorPending<E>, (u16, u16), E>,
    replies: Seq<Reply<E>>,
)
    requires
        cursor_in_bracket(mode, state),
        cursor_rules().fits(state, replies),
        replies.len() > 0,
    ensures
        bracket_promise(mode, cursor_rules().run(state, replies), replies.last()),
    decreases replies.len(),
{
    if let Step::Ask(request, CursorPending::Bracketed(pending)) = state.step {
        lemma_bracket_next(
            mode,
            state.prior_mode,
            request,
            pending,
            replies[0],
            cursor_query_start::<E>(),
            cursor_rule(),
        );
    }
    let next = cursor_rules().after(state, replies[0]);
    let rest = replies.drop_first();
    if rest.len() > 0 {
        reveal_with_fuel(Rules::fits, 2);
        lemma_cursor_bracket(mode, next, rest);
    }
}

/// Where raw mode is off, finding out the position leaves it off, unless it could not be switched
/// off again; then that is the error, and the mode to go back to is still known. Where the mode
/// cannot be read, nothing is touched.
pub proof fn law_cursor_position_leaves_raw_mode<E>(replies: Seq<Reply<E>>)
    requires
        cursor_fits(None, false, replies),
        replies.len() > 0,
    ensures
        match replies[0] {
            Reply::Attributes(Ok(mode)) => bracket_promise(
                mode,
                cursor_run(None, false, replies),
                replies.last(),
            ),
            Reply::Attributes(Err(e)) => cursor_run(None, false, replies) == (State {
                prior_mode: None,
                step: Step::<CursorPending<E>, (u16, u16), E>::Done(Err(TerminalError::Os(e))),
            }),
            _ => false,
        },
{
    let start = State { prior_mode: None::<Termios>, step: cursor_start::<E>(None, false) };
    let next = cursor_rules().after(start, replies[0]);
    let rest = replies.drop_first();
    reveal_with_fuel(Rules::run, 2);
    reveal_with_fuel(Rules::fits, 2);
    if let Reply::Attributes(Ok(mode)) = replies[0] {
        if rest.len() > 0 {
            lemma_cursor_bracket(mode, next, rest);
        }
    }
}

/// Where a terminal is in raw mode and raw mode is nevertheless said to be off, finding out the
/// position takes the terminal back to the mode before raw mode.
pub proof fn law_cursor_position_ends_own_raw_mode<E>(mode: Termios, replies: Seq<Reply<E>>)
    requires
        cursor_fits(Some(mode), false, replies),
        replies.len() > 0,
    ensures
        bracket_promise(mode, cursor_run(Some(mode), false, replies), replies.last()),
{
    lemma_cursor_bracket(
        mode,
        State { prior_mode: Some(mode), step: cursor_start::<E>(Some(mode), false) },
        replies,
    );
}

} // verus!
