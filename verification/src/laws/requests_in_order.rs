//! What each operation asks for at each point of a run, and how it ends, told by the replies alone.

use crate::attributes::raw_form;
use crate::laws::answers::{
    lemma_cursor_bracket_run, lemma_cursor_raw_run, lemma_keyboard_bracket_run,
    lemma_keyboard_raw_run, lemma_run_concat, query_open, query_run,
};
use crate::laws::raw_mode::{disable_fits, disable_run, enable_fits, enable_run};
use crate::laws::{
    cursor_fits, cursor_rules, cursor_run, keyboard_fits, keyboard_rules, keyboard_run, Rules, State,
};
use crate::protocol::{Channel, Filter, InternalEvent, Query, Reply, Request, Step, TerminalError};
use crate::query::{
    bracket_ask, cursor_accepts, cursor_bracketed, cursor_next, cursor_query_next,
    cursor_query_start, cursor_raw, cursor_rule, keyboard_accepts, keyboard_bracketed,
    keyboard_next, keyboard_query_next, keyboard_query_start, keyboard_raw, keyboard_rule, Bracket,
    CursorPending, CursorQuery, KeyboardPending, KeyboardQuery,
};
use crate::terminal::disable_next;
use rustix::termios::Termios;
use vstd::prelude::*;

verus! {

/// The step asks for this request.
pub open spec fn asks<P, T, E>(step: Step<P, T, E>, request: Request) -> bool {
    step matches Step::Ask(asked, _) && asked == request
}

/// The step is the end, with this outcome.
pub open spec fn ends<P, T, E>(step: Step<P, T, E>, outcome: Result<T, TerminalError<E>>) -> bool {
    step matches Step::Done(end) && end == outcome
}

/// The mode that the first reply reports.
pub open spec fn mode_read<E>(replies: Seq<Reply<E>>) -> Option<Termios> {
    if replies.len() > 0 {
        match replies[0] {
            Reply::Attributes(Ok(mode)) => Some(mode),
            _ => None,
        }
    } else {
        None
    }
}

/// The question has this outcome. Where raw mode is to be left for `mode`, that mode is set first;
/// else this is the end.
pub open spec fn settled<P, T, E>(
    state: State<P, T, E>,
    mode: Option<Termios>,
    outcome: Result<T, TerminalError<E>>,
) -> bool {
    match mode {
        Some(mode) => asks(state.step, Request::SetAttributes(mode)) && state.prior_mode == Some(
            mode,
        ),
        None => ends(state.step, outcome),
    }
}

/// Raw mode was to be left for `mode`, with this reply. Where that succeeded the end is the outcome
/// of the question, and there is no mode to go back to; else it is the error, and the mode is kept.
pub open spec fn left<P, T, E>(
    state: State<P, T, E>,
    mode: Option<Termios>,
    reply: Reply<E>,
    outcome: Result<T, TerminalError<E>>,
) -> bool {
    &&& mode is Some
    &&& match reply {
        Reply::Completed(Ok(_)) => ends(state.step, outcome) && state.prior_mode is None,
        Reply::Completed(Err(e)) => ends(state.step, Err(TerminalError::Os(e)))
            && state.prior_mode == mode,
        _ => false,
    }
}

/// Switching on raw mode reads the mode and sets its raw form. It ends well where both succeed, with
/// the mode that was read to go back to; where one fails it ends with that error, and no mode is
/// kept. Where raw mode is on, it ends well at once.
pub proof fn law_enable_run<E>(prior_mode: Option<Termios>, replies: Seq<Reply<E>>)
    requires
        enable_fits(prior_mode, replies),
    ensures
        ({
            let state = enable_run(prior_mode, replies);
            if prior_mode is Some {
                &&& replies.len() == 0
                &&& ends(state.step, Ok(()))
                &&& state.prior_mode == prior_mode
            } else if replies.len() == 0 {
                asks(state.step, Request::GetAttributes) && state.prior_mode is None
            } else {
                match replies[0] {
                    Reply::Attributes(Ok(mode)) => if replies.len() == 1 {
                        asks(state.step, Request::SetAttributes(raw_form(mode)))
                            && state.prior_mode is None
                    } else {
                        &&& replies.len() == 2
                        &&& match replies[1] {
                            Reply::Completed(Ok(_)) => ends(state.step, Ok(()))
                                && state.prior_mode == Some(mode),
                            Reply::Completed(Err(e)) => ends(
                                state.step,
                                Err(TerminalError::Os(e)),
                            ) && state.prior_mode is None,
                            _ => false,
                        }
                    },
                    Reply::Attributes(Err(e)) => {
                        &&& replies.len() == 1
                        &&& ends(state.step, Err(TerminalError::Os(e)))
                        &&& state.prior_mode is None
                    },
                    _ => false,
                }
            }
        }),
{
    reveal_with_fuel(Rules::fits, 4);
    reveal_with_fuel(Rules::run, 4);
    if replies.len() > 1 {
        assert(replies.drop_first()[0] == replies[1]);
        if replies.len() > 2 {
            assert(replies.drop_first().drop_first().len() > 0);
        }
    }
}

/// Switching off raw mode sets the prior mode. It ends well where that succeeds, and nothing is left
/// to go back to; where it fails it ends with that error, and the mode is kept. Where raw mode is
/// off, it ends well at once.
pub proof fn law_disable_run<E>(prior_mode: Option<Termios>, replies: Seq<Reply<E>>)
    requires
        disable_fits(prior_mode, replies),
    ensures
        ({
            let state = disable_run(prior_mode, replies);
            match prior_mode {
                None => replies.len() == 0 && ends(state.step, Ok(())) && state.prior_mode is None,
                Some(mode) => if replies.len() == 0 {
                    asks(state.step, Request::SetAttributes(mode)) && state.prior_mode == Some(mode)
                } else {
                    &&& replies.len() == 1
                    &&& match replies[0] {
                        Reply::Completed(Ok(_)) => ends(state.step, Ok(()))
                            && state.prior_mode is None,
                        Reply::Completed(Err(e)) => ends(state.step, Err(TerminalError::Os(e)))
                            && state.prior_mode == Some(mode),
                        _ => false,
                    }
                },
            }
        }),
{
    reveal_with_fuel(Rules::fits, 3);
    reveal_with_fuel(Rules::run, 3);
}

/// The last reply to an open question.
proof fn lemma_query_last<P, T, E>(
    accepts: spec_fn(P, Reply<E>) -> bool,
    ask: spec_fn(P, Reply<E>) -> Step<P, T, E>,
    step: Step<P, T, E>,
    replies: Seq<Reply<E>>,
)
    requires
        query_open(accepts, ask, step, replies),
        replies.len() > 0,
    ensures
        query_open(accepts, ask, step, replies.drop_last()),
        query_run(ask, step, replies.drop_last()) matches Step::Ask(_, pending) && accepts(
            pending,
            replies.last(),
        ) && query_run(ask, step, replies) == ask(pending, replies.last()),
    decreases replies.len(),
{
    if let Step::Ask(_, pending) = step {
        let rest = replies.drop_first();
        if rest.len() > 0 {
            lemma_query_last(accepts, ask, ask(pending, replies[0]), rest);
            assert(replies.drop_last().drop_first() =~= rest.drop_last());
            assert(replies.drop_last()[0] == replies[0]);
        } else {
            assert(replies.drop_last().len() == 0);
            assert(replies.last() == replies[0]);
            reveal_with_fuel(query_run, 2);
        }
    }
}

/// Where the cursor query is after these replies.
spec fn cursor_at<E>(rest: Seq<Reply<E>>) -> Step<CursorQuery, (u16, u16), E> {
    let poll = Step::Ask(Request::Poll(Filter::CursorPosition, 2000), CursorQuery::Poll);
    if rest.len() == 0 {
        Step::Ask(Request::Write(Channel::Stdout, Query::CursorPosition), CursorQuery::Write)
    } else {
        match rest.last() {
            Reply::Completed(Ok(_)) => if rest.len() == 1 {
                Step::Ask(Request::Flush(Channel::Stdout), CursorQuery::Flush)
            } else {
                poll
            },
            Reply::Completed(Err(e)) => Step::Done(Err(TerminalError::Os(e))),
            Reply::Polled(Ok(true)) => Step::Ask(
                Request::Read(Filter::CursorPosition),
                CursorQuery::Read,
            ),
            Reply::Polled(Ok(false)) => Step::Done(Err(TerminalError::CursorPositionTimeout)),
            Reply::Event(Ok(InternalEvent::CursorPosition(x, y))) => Step::Done(Ok((x, y))),
            _ => poll,
        }
    }
}

proof fn lemma_cursor_at<E>(rest: Seq<Reply<E>>)
    requires
        query_open(cursor_accepts(), cursor_rule(), cursor_query_start::<E>(), rest),
    ensures
        query_run(cursor_rule(), cursor_query_start::<E>(), rest) == cursor_at(rest),
        rest.len() > 0 ==> rest[0] is Completed,
        rest.len() > 1 ==> (rest[0] matches Reply::Completed(Ok(_))) && rest[1] is Completed,
        rest.len() > 2 ==> (rest[1] matches Reply::Completed(Ok(_))) && (rest.last() is Polled
            || rest.last() is Event),
    decreases rest.len(),
{
    if rest.len() > 0 {
        let front = rest.drop_last();
        lemma_query_last(cursor_accepts(), cursor_rule(), cursor_query_start::<E>(), rest);
        lemma_cursor_at(front);
        if front.len() > 0 {
            assert(front[0] == rest[0]);
            assert(front.last() == rest[rest.len() - 2]);
        }
        if front.len() > 1 {
            assert(front[1] == rest[1]);
        }
    }
}

/// Replies that fit the query in raw mode keep it open.
proof fn lemma_cursor_raw_open<E>(
    prior_mode: Option<Termios>,
    step: Step<CursorQuery, (u16, u16), E>,
    replies: Seq<Reply<E>>,
)
    requires
        cursor_rules().fits(State { prior_mode, step: cursor_raw(step) }, replies),
    ensures
        query_open(cursor_accepts(), cursor_rule(), step, replies),
    decreases replies.len(),
{
    if replies.len() > 0 {
        if let Step::Ask(_, pending) = step {
            lemma_cursor_raw_open(
                prior_mode,
                cursor_query_next(pending, replies[0]),
                replies.drop_first(),
            );
        }
    }
}

/// Replies that fit the query in a bracket keep it open, but for one more reply once it is settled.
proof fn lemma_cursor_bracket_open<E>(
    mode: Termios,
    step: Step<CursorQuery, (u16, u16), E>,
    replies: Seq<Reply<E>>,
)
    requires
        cursor_rules().fits(
            State {
                prior_mode: Some(mode),
                step: cursor_bracketed(bracket_ask(Some(mode), step)),
            },
            replies,
        ),
    ensures
        query_open(cursor_accepts(), cursor_rule(), step, replies) || {
            &&& replies.len() > 0
            &&& query_open(cursor_accepts(), cursor_rule(), step, replies.drop_last())
            &&& query_run(cursor_rule(), step, replies.drop_last()) is Done
            &&& replies.last() is Completed
        },
    decreases replies.len(),
{
    if replies.len() > 0 {
        let rest = replies.drop_first();
        match step {
            Step::Ask(_, pending) => {
                let next = cursor_query_next(pending, replies[0]);
                lemma_cursor_bracket_open(mode, next, rest);
                if !query_open(cursor_accepts(), cursor_rule(), next, rest) {
                    assert(replies.drop_last().drop_first() =~= rest.drop_last());
                    assert(replies.drop_last()[0] == replies[0]);
                    assert(replies.last() == rest.last());
                }
            },
            Step::Done(_) => {
                reveal_with_fuel(Rules::fits, 2);
                assert(rest.len() == 0);
                assert(replies.drop_last().len() == 0);
                assert(replies.last() == replies[0]);
            },
        }
    }
}

/// Where the cursor operation is, from the start of the question in a bracket.
proof fn lemma_cursor_bracket_state<E>(mode: Termios, replies: Seq<Reply<E>>)
    requires
        cursor_rules().fits(
            State {
                prior_mode: Some(mode),
                step: cursor_bracketed(bracket_ask(Some(mode), cursor_query_start::<E>())),
            },
            replies,
        ),
    ensures
        ({
            let start = State {
                prior_mode: Some(mode),
                step: cursor_bracketed(bracket_ask(Some(mode), cursor_query_start::<E>())),
            };
            let state = cursor_rules().run(start, replies);
            ||| {
                &&& query_open(cursor_accepts(), cursor_rule(), cursor_query_start::<E>(), replies)
                &&& state.prior_mode == Some(mode)
                &&& match cursor_at(replies) {
                    Step::Ask(request, _) => asks(state.step, request),
                    Step::Done(_) => asks(state.step, Request::SetAttributes(mode)),
                }
            }
            ||| {
                &&& replies.len() > 0
                &&& query_open(cursor_accepts(), cursor_rule(), cursor_query_start::<E>(), replies.drop_last())
                &&& cursor_at(replies.drop_last()) matches Step::Done(outcome)
                &&& left(state, Some(mode), replies.last(), outcome)
            }
        }),
{
    let first = cursor_query_start::<E>();
    let start = State { prior_mode: Some(mode), step: cursor_bracketed(bracket_ask(Some(mode), first)) };
    lemma_cursor_bracket_open(mode, first, replies);
    if query_open(cursor_accepts(), cursor_rule(), first, replies) {
        lemma_cursor_at(replies);
        lemma_cursor_bracket_run(Some(mode), first, replies);
    } else {
        let front = replies.drop_last();
        lemma_cursor_at(front);
        lemma_cursor_bracket_run(Some(mode), first, front);
        let one = seq![replies.last()];
        assert(front + one =~= replies);
        lemma_run_concat(cursor_rules(), start, front, one);
        reveal_with_fuel(Rules::run, 2);
        assert(one.drop_first().len() == 0);
    }
}

/// What the cursor operation asks for in a bracket, from the start of the question.
proof fn lemma_cursor_inside<E>(inner_mode: Termios, rest: Seq<Reply<E>>)
    requires
        cursor_rules().fits(
            State {
                prior_mode: Some(inner_mode),
                step: cursor_bracketed(bracket_ask(Some(inner_mode), cursor_query_start::<E>())),
            },
            rest,
        ),
    ensures
        ({
            let state = cursor_rules().run(
                State {
                    prior_mode: Some(inner_mode),
                    step: cursor_bracketed(bracket_ask(Some(inner_mode), cursor_query_start::<E>())),
                },
                rest,
            );
            let mode = Some(inner_mode);
            let kept = Some(inner_mode);
            {
                if rest.len() == 0 {
                    asks(state.step, Request::Write(Channel::Stdout, Query::CursorPosition))
                        && state.prior_mode == kept
                } else if rest.len() == 1 {
                    match rest[0] {
                        Reply::Completed(Ok(_)) => asks(
                            state.step,
                            Request::Flush(Channel::Stdout),
                        ) && state.prior_mode == kept,
                        Reply::Completed(Err(e)) => settled(state, mode, Err(TerminalError::Os(e))),
                        _ => false,
                    }
                } else if let Reply::Completed(Err(e)) = rest[0] {
                    rest.len() == 2 && left(state, mode, rest[1], Err(TerminalError::Os(e)))
                } else if rest.len() == 2 {
                    &&& rest[0] is Completed
                    &&& match rest[1] {
                        Reply::Completed(Ok(_)) => asks(
                            state.step,
                            Request::Poll(Filter::CursorPosition, 2000),
                        ) && state.prior_mode == kept,
                        Reply::Completed(Err(e)) => settled(state, mode, Err(TerminalError::Os(e))),
                        _ => false,
                    }
                } else if let Reply::Completed(Err(e)) = rest[1] {
                    rest.len() == 3 && left(state, mode, rest[2], Err(TerminalError::Os(e)))
                } else {
                    &&& rest[0] is Completed
                    &&& rest[1] is Completed
                    &&& match rest.last() {
                        Reply::Polled(Ok(true)) => asks(
                            state.step,
                            Request::Read(Filter::CursorPosition),
                        ) && state.prior_mode == kept,
                        Reply::Polled(Ok(false)) => settled(
                            state,
                            mode,
                            Err(TerminalError::CursorPositionTimeout),
                        ),
                        Reply::Polled(Err(_)) => asks(
                            state.step,
                            Request::Poll(Filter::CursorPosition, 2000),
                        ) && state.prior_mode == kept,
                        Reply::Event(Ok(InternalEvent::CursorPosition(x, y))) => settled(
                            state,
                            mode,
                            Ok((x, y)),
                        ),
                        Reply::Event(_) => asks(
                            state.step,
                            Request::Poll(Filter::CursorPosition, 2000),
                        ) && state.prior_mode == kept,
                        Reply::Completed(_) => rest.len() > 3 && match rest[rest.len() - 2] {
                            Reply::Polled(Ok(false)) => left(
                                state,
                                mode,
                                rest.last(),
                                Err(TerminalError::CursorPositionTimeout),
                            ),
                            Reply::Event(Ok(InternalEvent::CursorPosition(x, y))) => left(
                                state,
                                mode,
                                rest.last(),
                                Ok((x, y)),
                            ),
                            _ => false,
                        },
                        _ => false,
                    }
                }
            }
        }),
{
    lemma_cursor_bracket_state(inner_mode, rest);
    if query_open(cursor_accepts(), cursor_rule(), cursor_query_start::<E>(), rest) {
        lemma_cursor_at(rest);
    } else {
        let front = rest.drop_last();
        lemma_cursor_at(front);
        if front.len() > 0 {
            assert(front[0] == rest[0]);
            assert(front.last() == rest[rest.len() - 2]);
        }
        if front.len() > 1 {
            assert(front[1] == rest[1]);
            assert(front[front.len() - 2] == rest[rest.len() - 3]);
        }
    }
}

/// The cursor operation, at every point of every run. Where raw mode is said to be on, the query goes
/// to the standard output and is flushed; then it is polled for, again after a poll that fails or
/// an event that is no position, until a position is read or there is nothing in time. Where raw
/// mode is said to be off, it is switched on first, unless this terminal has it on, and the mode
/// before is set again once the outcome is known.
pub proof fn law_cursor_position_run<E>(
    prior_mode: Option<Termios>,
    raw_mode: bool, replies: Seq<Reply<E>>)
    requires
        cursor_fits(prior_mode, raw_mode, replies),
    ensures
        ({
            let state = cursor_run(prior_mode, raw_mode, replies);
            let raw = raw_mode;
            let entry: int = if raw || prior_mode is Some {
                0
            } else {
                2
            };
            let rest = replies.skip(entry);
            // The mode that raw mode is left for once the question is settled.
            let mode = if raw {
                None
            } else if prior_mode is Some {
                prior_mode
            } else {
                mode_read(replies)
            };
            // The prior mode as long as it is not.
            let kept = if raw {
                prior_mode
            } else {
                mode
            };
            if entry == 2 && replies.len() == 0 {
                asks(state.step, Request::GetAttributes) && state.prior_mode is None
            } else if entry == 2 && (replies[0] matches Reply::Attributes(Err(_))) {
                &&& replies.len() == 1
                &&& replies[0] matches Reply::Attributes(Err(e))
                &&& ends(state.step, Err(TerminalError::Os(e)))
                &&& state.prior_mode is None
            } else if entry == 2 && replies.len() == 1 {
                &&& replies[0] matches Reply::Attributes(Ok(read))
                &&& asks(state.step, Request::SetAttributes(raw_form(read)))
                &&& state.prior_mode is None
            } else if entry == 2 && (replies[1] matches Reply::Completed(Err(_))) {
                &&& replies.len() == 2
                &&& replies[1] matches Reply::Completed(Err(e))
                &&& ends(state.step, Err(TerminalError::Os(e)))
                &&& state.prior_mode is None
            } else {
                &&& entry == 2 ==> mode is Some && replies[1] is Completed
                &&& raw ==> state.prior_mode == prior_mode
                &&& {
                    if rest.len() == 0 {
                        asks(state.step, Request::Write(Channel::Stdout, Query::CursorPosition))
                            && state.prior_mode == kept
                    } else if rest.len() == 1 {
                        match rest[0] {
                            Reply::Completed(Ok(_)) => asks(
                                state.step,
                                Request::Flush(Channel::Stdout),
                            ) && state.prior_mode == kept,
                            Reply::Completed(Err(e)) => settled(state, mode, Err(TerminalError::Os(e))),
                            _ => false,
                        }
                    } else if let Reply::Completed(Err(e)) = rest[0] {
                        rest.len() == 2 && left(state, mode, rest[1], Err(TerminalError::Os(e)))
                    } else if rest.len() == 2 {
                        &&& rest[0] is Completed
                        &&& match rest[1] {
                            Reply::Completed(Ok(_)) => asks(
                                state.step,
                                Request::Poll(Filter::CursorPosition, 2000),
                            ) && state.prior_mode == kept,
                            Reply::Completed(Err(e)) => settled(state, mode, Err(TerminalError::Os(e))),
                            _ => false,
                        }
                    } else if let Reply::Completed(Err(e)) = rest[1] {
                        rest.len() == 3 && left(state, mode, rest[2], Err(TerminalError::Os(e)))
                    } else {
                        &&& rest[0] is Completed
                        &&& rest[1] is Completed
                        &&& match rest.last() {
                            Reply::Polled(Ok(true)) => asks(
                                state.step,
                                Request::Read(Filter::CursorPosition),
                            ) && state.prior_mode == kept,
                            Reply::Polled(Ok(false)) => settled(
                                state,
                                mode,
                                Err(TerminalError::CursorPositionTimeout),
                            ),
                            Reply::Polled(Err(_)) => asks(
                                state.step,
                                Request::Poll(Filter::CursorPosition, 2000),
                            ) && state.prior_mode == kept,
                            Reply::Event(Ok(InternalEvent::CursorPosition(x, y))) => settled(
                                state,
                                mode,
                                Ok((x, y)),
                            ),
                            Reply::Event(_) => asks(
                                state.step,
                                Request::Poll(Filter::CursorPosition, 2000),
                            ) && state.prior_mode == kept,
                            Reply::Completed(_) => rest.len() > 3 && match rest[rest.len() - 2] {
                                Reply::Polled(Ok(false)) => left(
                                    state,
                                    mode,
                                    rest.last(),
                                    Err(TerminalError::CursorPositionTimeout),
                                ),
                                Reply::Event(Ok(InternalEvent::CursorPosition(x, y))) => left(
                                    state,
                                    mode,
                                    rest.last(),
                                    Ok((x, y)),
                                ),
                                _ => false,
                            },
                            _ => false,
                        }
                    }
                }
            }
        }),
{
    let first = cursor_query_start::<E>();
    if raw_mode {
        assert(replies.skip(0) =~= replies);
        lemma_cursor_raw_open(prior_mode, first, replies);
        lemma_cursor_at(replies);
        lemma_cursor_raw_run(prior_mode, first, replies);
    } else if prior_mode is Some {
        assert(replies.skip(0) =~= replies);
        lemma_cursor_inside(prior_mode->0, replies);
    } else {
        reveal_with_fuel(Rules::fits, 3);
        reveal_with_fuel(Rules::run, 3);
        if replies.len() > 0 {
            let tail = replies.drop_first();
            if tail.len() > 0 {
                assert(tail[0] == replies[1]);
                assert(tail.drop_first() =~= replies.skip(2));
                if replies[1] matches Reply::Completed(Ok(_)) {
                    lemma_cursor_inside(mode_read(replies)->0, replies.skip(2));
                }
            }
        }
    }
}

/// Where the keyboard query is after these replies.
spec fn keyboard_at<E>(rest: Seq<Reply<E>>) -> Step<KeyboardQuery, bool, E> {
    let poll = Step::Ask(Request::Poll(Filter::KeyboardEnhancementFlags, 2000), KeyboardQuery::Poll);
    if rest.len() == 0 {
        Step::Ask(
            Request::Write(Channel::Terminal, Query::KeyboardEnhancement),
            KeyboardQuery::Write,
        )
    } else {
        match rest.last() {
            Reply::Completed(Ok(_)) => if rest.len() == 1 {
                Step::Ask(Request::Flush(Channel::Terminal), KeyboardQuery::Flush)
            } else {
                poll
            },
            Reply::Completed(Err(e)) => Step::Done(Err(TerminalError::Os(e))),
            Reply::Polled(Ok(true)) => Step::Ask(
                Request::Read(Filter::KeyboardEnhancementFlags),
                KeyboardQuery::Read,
            ),
            Reply::Polled(Ok(false)) => Step::Done(Err(TerminalError::KeyboardEnhancementTimeout)),
            Reply::Event(event) => if rest[rest.len() - 2] is Event {
                Step::Done(Ok(true))
            } else if event matches Ok(InternalEvent::KeyboardEnhancementFlags(_)) {
                Step::Ask(Request::Read(Filter::PrimaryDeviceAttributes), KeyboardQuery::Drain)
            } else {
                Step::Done(Ok(false))
            },
            _ => poll,
        }
    }
}

proof fn lemma_keyboard_at<E>(rest: Seq<Reply<E>>)
    requires
        query_open(keyboard_accepts(), keyboard_rule(), keyboard_query_start::<E>(), rest),
    ensures
        query_run(keyboard_rule(), keyboard_query_start::<E>(), rest) == keyboard_at(rest),
        rest.len() > 0 ==> rest[0] is Completed,
        rest.len() > 1 ==> (rest[0] matches Reply::Completed(Ok(_))) && rest[1] is Completed,
        rest.len() > 2 ==> (rest[1] matches Reply::Completed(Ok(_))) && (rest.last() is Polled
            || rest.last() is Event),
        rest.len() > 2 && rest.last() is Event ==> rest.len() > 3 && ((rest[rest.len()
            - 2] matches Reply::Polled(Ok(true))) || (rest[rest.len() - 2] matches Reply::Event(
            Ok(InternalEvent::KeyboardEnhancementFlags(_)),
        ))),
    decreases rest.len(),
{
    if rest.len() > 0 {
        let front = rest.drop_last();
        lemma_query_last(keyboard_accepts(), keyboard_rule(), keyboard_query_start::<E>(), rest);
        lemma_keyboard_at(front);
        if front.len() > 0 {
            assert(front[0] == rest[0]);
            assert(front.last() == rest[rest.len() - 2]);
        }
        if front.len() > 1 {
            assert(front[1] == rest[1]);
        }
    }
}

/// Replies that fit the query in raw mode keep it open.
proof fn lemma_keyboard_raw_open<E>(
    prior_mode: Option<Termios>,
    step: Step<KeyboardQuery, bool, E>,
    replies: Seq<Reply<E>>,
)
    requires
        keyboard_rules().fits(State { prior_mode, step: keyboard_raw(step) }, replies),
    ensures
        query_open(keyboard_accepts(), keyboard_rule(), step, replies),
    decreases replies.len(),
{
    if replies.len() > 0 {
        if let Step::Ask(_, pending) = step {
            lemma_keyboard_raw_open(
                prior_mode,
                keyboard_query_next(pending, replies[0]),
                replies.drop_first(),
            );
        }
    }
}

/// Replies that fit the query in a bracket keep it open, but for one more reply once it is settled.
proof fn lemma_keyboard_bracket_open<E>(
    mode: Termios,
    step: Step<KeyboardQuery, bool, E>,
    replies: Seq<Reply<E>>,
)
    requires
        keyboard_rules().fits(
            State {
                prior_mode: Some(mode),
                step: keyboard_bracketed(bracket_ask(Some(mode), step)),
            },
            replies,
        ),
    ensures
        query_open(keyboard_accepts(), keyboard_rule(), step, replies) || {
            &&& replies.len() > 0
            &&& query_open(keyboard_accepts(), keyboard_rule(), step, replies.drop_last())
            &&& query_run(keyboard_rule(), step, replies.drop_last()) is Done
            &&& replies.last() is Completed
        },
    decreases replies.len(),
{
    if replies.len() > 0 {
        let rest = replies.drop_first();
        match step {
            Step::Ask(_, pending) => {
                let next = keyboard_query_next(pending, replies[0]);
                lemma_keyboard_bracket_open(mode, next, rest);
                if !query_open(keyboard_accepts(), keyboard_rule(), next, rest) {
                    assert(replies.drop_last().drop_first() =~= rest.drop_last());
                    assert(replies.drop_last()[0] == replies[0]);
                    assert(replies.last() == rest.last());
                }
            },
            Step::Done(_) => {
                reveal_with_fuel(Rules::fits, 2);
                assert(rest.len() == 0);
                assert(replies.drop_last().len() == 0);
                assert(replies.last() == replies[0]);
            },
        }
    }
}

/// Where the keyboard operation is, from the start of the question in a bracket.
proof fn lemma_keyboard_bracket_state<E>(mode: Termios, replies: Seq<Reply<E>>)
    requires
        keyboard_rules().fits(
            State {
                prior_mode: Some(mode),
                step: keyboard_bracketed(bracket_ask(Some(mode), keyboard_query_start::<E>())),
            },
            replies,
        ),
    ensures
        ({
            let start = State {
                prior_mode: Some(mode),
                step: keyboard_bracketed(bracket_ask(Some(mode), keyboard_query_start::<E>())),
            };
            let state = keyboard_rules().run(start, replies);
            ||| {
                &&& query_open(keyboard_accepts(), keyboard_rule(), keyboard_query_start::<E>(), replies)
                &&& state.prior_mode == Some(mode)
                &&& match keyboard_at(replies) {
                    Step::Ask(request, _) => asks(state.step, request),
                    Step::Done(_) => asks(state.step, Request::SetAttributes(mode)),
                }
            }
            ||| {
                &&& replies.len() > 0
                &&& query_open(keyboard_accepts(), keyboard_rule(), keyboard_query_start::<E>(), replies.drop_last())
                &&& keyboard_at(replies.drop_last()) matches Step::Done(outcome)
                &&& left(state, Some(mode), replies.last(), outcome)
            }
        }),
{
    let first = keyboard_query_start::<E>();
    let start = State { prior_mode: Some(mode), step: keyboard_bracketed(bracket_ask(Some(mode), first)) };
    lemma_keyboard_bracket_open(mode, first, replies);
    if query_open(keyboard_accepts(), keyboard_rule(), first, replies) {
        lemma_keyboard_at(replies);
        lemma_keyboard_bracket_run(Some(mode), first, replies);
    } else {
        let front = replies.drop_last();
        lemma_keyboard_at(front);
        lemma_keyboard_bracket_run(Some(mode), first, front);
        let one = seq![replies.last()];
        assert(front + one =~= replies);
        lemma_run_concat(keyboard_rules(), start, front, one);
        reveal_with_fuel(Rules::run, 2);
        assert(one.drop_first().len() == 0);
    }
}

/// What the keyboard operation asks for in a bracket, from the start of the question.
proof fn lemma_keyboard_inside<E>(inner_mode: Termios, rest: Seq<Reply<E>>)
    requires
        keyboard_rules().fits(
            State {
                prior_mode: Some(inner_mode),
                step: keyboard_bracketed(bracket_ask(Some(inner_mode), keyboard_query_start::<E>())),
            },
            rest,
        ),
    ensures
        ({
            let state = keyboard_rules().run(
                State {
                    prior_mode: Some(inner_mode),
                    step: keyboard_bracketed(bracket_ask(Some(inner_mode), keyboard_query_start::<E>())),
                },
                rest,
            );
            let mode = Some(inner_mode);
            let kept = Some(inner_mode);
            {
                if rest.len() == 0 {
                    asks(state.step, Request::Write(Channel::Terminal, Query::KeyboardEnhancement))
                        && state.prior_mode == kept
                } else if rest.len() == 1 {
                    match rest[0] {
                        Reply::Completed(Ok(_)) => asks(
                            state.step,
                            Request::Flush(Channel::Terminal),
                        ) && state.prior_mode == kept,
                        Reply::Completed(Err(e)) => settled(state, mode, Err(TerminalError::Os(e))),
                        _ => false,
                    }
                } else if let Reply::Completed(Err(e)) = rest[0] {
                    rest.len() == 2 && left(state, mode, rest[1], Err(TerminalError::Os(e)))
                } else if rest.len() == 2 {
                    &&& rest[0] is Completed
                    &&& match rest[1] {
                        Reply::Completed(Ok(_)) => asks(
                            state.step,
                            Request::Poll(Filter::KeyboardEnhancementFlags, 2000),
                        ) && state.prior_mode == kept,
                        Reply::Completed(Err(e)) => settled(state, mode, Err(TerminalError::Os(e))),
                        _ => false,
                    }
                } else if let Reply::Completed(Err(e)) = rest[1] {
                    rest.len() == 3 && left(state, mode, rest[2], Err(TerminalError::Os(e)))
                } else {
                    &&& rest[0] is Completed
                    &&& rest[1] is Completed
                    &&& match rest.last() {
                        Reply::Polled(Ok(true)) => asks(
                            state.step,
                            Request::Read(Filter::KeyboardEnhancementFlags),
                        ) && state.prior_mode == kept,
                        Reply::Polled(Ok(false)) => settled(
                            state,
                            mode,
                            Err(TerminalError::KeyboardEnhancementTimeout),
                        ),
                        Reply::Polled(Err(_)) => asks(
                            state.step,
                            Request::Poll(Filter::KeyboardEnhancementFlags, 2000),
                        ) && state.prior_mode == kept,
                        Reply::Event(event) => rest.len() > 3 && if rest[rest.len() - 2] is Event {
                            settled(state, mode, Ok(true))
                        } else if event matches Ok(InternalEvent::KeyboardEnhancementFlags(_)) {
                            asks(state.step, Request::Read(Filter::PrimaryDeviceAttributes))
                                && state.prior_mode == kept
                        } else {
                            settled(state, mode, Ok(false))
                        },
                        Reply::Completed(_) => rest.len() > 3 && match rest[rest.len() - 2] {
                            Reply::Polled(Ok(false)) => left(
                                state,
                                mode,
                                rest.last(),
                                Err(TerminalError::KeyboardEnhancementTimeout),
                            ),
                            Reply::Event(_) => rest.len() > 4 && left(
                                state,
                                mode,
                                rest.last(),
                                Ok(rest[rest.len() - 3] is Event),
                            ),
                            _ => false,
                        },
                        _ => false,
                    }
                }
            }
        }),
{
    lemma_keyboard_bracket_state(inner_mode, rest);
    if query_open(keyboard_accepts(), keyboard_rule(), keyboard_query_start::<E>(), rest) {
        lemma_keyboard_at(rest);
    } else {
        let front = rest.drop_last();
        lemma_keyboard_at(front);
        if front.len() > 0 {
            assert(front[0] == rest[0]);
            assert(front.last() == rest[rest.len() - 2]);
        }
        if front.len() > 1 {
            assert(front[1] == rest[1]);
            assert(front[front.len() - 2] == rest[rest.len() - 3]);
        }
    }
}

/// The keyboard operation, at every point of every run. The query goes to the file of the terminal and
/// is flushed; then it is polled for, again after a poll that fails. Whatever flags are read, the
/// device attributes are read next, and the outcome is yes; anything else that is read makes it no.
/// Where raw mode is off, it is switched on first, and the mode before is set again once the outcome
/// is known.
pub proof fn law_keyboard_support_run<E>(prior_mode: Option<Termios>, replies: Seq<Reply<E>>)
    requires
        keyboard_fits(prior_mode, replies),
    ensures
        ({
            let state = keyboard_run(prior_mode, replies);
            let raw = prior_mode is Some;
            let entry: int = if raw || prior_mode is Some {
                0
            } else {
                2
            };
            let rest = replies.skip(entry);
            // The mode that raw mode is left for once the question is settled.
            let mode = if raw {
                None
            } else if prior_mode is Some {
                prior_mode
            } else {
                mode_read(replies)
            };
            // The prior mode as long as it is not.
            let kept = if raw {
                prior_mode
            } else {
                mode
            };
            if entry == 2 && replies.len() == 0 {
                asks(state.step, Request::GetAttributes) && state.prior_mode is None
            } else if entry == 2 && (replies[0] matches Reply::Attributes(Err(_))) {
                &&& replies.len() == 1
                &&& replies[0] matches Reply::Attributes(Err(e))
                &&& ends(state.step, Err(TerminalError::Os(e)))
                &&& state.prior_mode is None
            } else if entry == 2 && replies.len() == 1 {
                &&& replies[0] matches Reply::Attributes(Ok(read))
                &&& asks(state.step, Request::SetAttributes(raw_form(read)))
                &&& state.prior_mode is None
            } else if entry == 2 && (replies[1] matches Reply::Completed(Err(_))) {
                &&& replies.len() == 2
                &&& replies[1] matches Reply::Completed(Err(e))
                &&& ends(state.step, Err(TerminalError::Os(e)))
                &&& state.prior_mode is None
            } else {
                &&& entry == 2 ==> mode is Some && replies[1] is Completed
                &&& raw ==> state.prior_mode == prior_mode
                &&& {
                    if rest.len() == 0 {
                        asks(state.step, Request::Write(Channel::Terminal, Query::KeyboardEnhancement))
                            && state.prior_mode == kept
                    } else if rest.len() == 1 {
                        match rest[0] {
                            Reply::Completed(Ok(_)) => asks(
                                state.step,
                                Request::Flush(Channel::Terminal),
                            ) && state.prior_mode == kept,
                            Reply::Completed(Err(e)) => settled(state, mode, Err(TerminalError::Os(e))),
                            _ => false,
                        }
                    } else if let Reply::Completed(Err(e)) = rest[0] {
                        rest.len() == 2 && left(state, mode, rest[1], Err(TerminalError::Os(e)))
                    } else if rest.len() == 2 {
                        &&& rest[0] is Completed
                        &&& match rest[1] {
                            Reply::Completed(Ok(_)) => asks(
                                state.step,
                                Request::Poll(Filter::KeyboardEnhancementFlags, 2000),
                            ) && state.prior_mode == kept,
                            Reply::Completed(Err(e)) => settled(state, mode, Err(TerminalError::Os(e))),
                            _ => false,
                        }
                    } else if let Reply::Completed(Err(e)) = rest[1] {
                        rest.len() == 3 && left(state, mode, rest[2], Err(TerminalError::Os(e)))
                    } else {
                        &&& rest[0] is Completed
                        &&& rest[1] is Completed
                        &&& match rest.last() {
                            Reply::Polled(Ok(true)) => asks(
                                state.step,
                                Request::Read(Filter::KeyboardEnhancementFlags),
                            ) && state.prior_mode == kept,
                            Reply::Polled(Ok(false)) => settled(
                                state,
                                mode,
                                Err(TerminalError::KeyboardEnhancementTimeout),
                            ),
                            Reply::Polled(Err(_)) => asks(
                                state.step,
                                Request::Poll(Filter::KeyboardEnhancementFlags, 2000),
                            ) && state.prior_mode == kept,
                            Reply::Event(event) => rest.len() > 3 && if rest[rest.len() - 2] is Event {
                                settled(state, mode, Ok(true))
                            } else if event matches Ok(InternalEvent::KeyboardEnhancementFlags(_)) {
                                asks(state.step, Request::Read(Filter::PrimaryDeviceAttributes))
                                    && state.prior_mode == kept
                            } else {
                                settled(state, mode, Ok(false))
                            },
                            Reply::Completed(_) => rest.len() > 3 && match rest[rest.len() - 2] {
                                Reply::Polled(Ok(false)) => left(
                                    state,
                                    mode,
                                    rest.last(),
                                    Err(TerminalError::KeyboardEnhancementTimeout),
                                ),
                                Reply::Event(_) => rest.len() > 4 && left(
                                    state,
                                    mode,
                                    rest.last(),
                                    Ok(rest[rest.len() - 3] is Event),
                                ),
                                _ => false,
                            },
                            _ => false,
                        }
                    }
                }
            }
        }),
{
    let first = keyboard_query_start::<E>();
    if prior_mode is Some {
        assert(replies.skip(0) =~= replies);
        lemma_keyboard_raw_open(prior_mode, first, replies);
        lemma_keyboard_at(replies);
        lemma_keyboard_raw_run(prior_mode, first, replies);
    } else if prior_mode is Some {
        assert(replies.skip(0) =~= replies);
        lemma_keyboard_inside(prior_mode->0, replies);
    } else {
        reveal_with_fuel(Rules::fits, 3);
        reveal_with_fuel(Rules::run, 3);
        if replies.len() > 0 {
            let tail = replies.drop_first();
            if tail.len() > 0 {
                assert(tail[0] == replies[1]);
                assert(tail.drop_first() =~= replies.skip(2));
                if replies[1] matches Reply::Completed(Ok(_)) {
                    lemma_keyboard_inside(mode_read(replies)->0, replies.skip(2));
                }
            }
        }
    }
}

/// Every request of a run of the cursor operation has to do with the position: the query and no other
/// goes to the standard output, that is what is flushed, and positions are all that is polled for
/// and read. Before the first poll the query was written and flushed with success.
pub proof fn law_cursor_position_asks_for_the_position<E>(
    prior_mode: Option<Termios>,
    raw_mode: bool,
    replies: Seq<Reply<E>>,
)
    requires
        cursor_fits(prior_mode, raw_mode, replies),
    ensures
        ({
            let entry: int = if raw_mode || prior_mode is Some {
                0
            } else {
                2
            };
            match cursor_run(prior_mode, raw_mode, replies).step {
                Step::Ask(Request::Write(channel, query), _) => channel == Channel::Stdout && query
                    == Query::CursorPosition && replies.len() == entry,
                Step::Ask(Request::Flush(channel), _) => channel == Channel::Stdout
                    && replies.len() == entry + 1 && (replies[entry] matches Reply::Completed(
                    Ok(_),
                )),
                Step::Ask(Request::Poll(filter, _), _) | Step::Ask(Request::Read(filter), _) => {
                    &&& filter == Filter::CursorPosition
                    &&& replies.len() > entry + 1
                    &&& (replies[entry] matches Reply::Completed(Ok(_)))
                    &&& (replies[entry + 1] matches Reply::Completed(Ok(_)))
                },
                Step::Ask(Request::WindowSize, _) | Step::Ask(Request::Tput(_), _) => false,
                _ => true,
            }
        }),
{
    law_cursor_position_run(prior_mode, raw_mode, replies);
    let entry: int = if raw_mode || prior_mode is Some {
        0
    } else {
        2
    };
    let rest = replies.skip(entry);
    if replies.len() > entry {
        assert(rest[0] == replies[entry]);
        assert(rest.last() == replies.last());
    }
    if replies.len() > entry + 1 {
        assert(rest[1] == replies[entry + 1]);
    }
}

/// Every request of a run of the keyboard operation has to do with the flags: the query and no other
/// goes to the file of the terminal, that is what is flushed, and the flags are all that is polled
/// for and read, until they were read. Then the device attributes are read, once. Before the first
/// poll the query was written and flushed with success.
pub proof fn law_keyboard_support_asks_for_the_flags<E>(
    prior_mode: Option<Termios>,
    replies: Seq<Reply<E>>,
)
    requires
        keyboard_fits(prior_mode, replies),
    ensures
        ({
            let entry: int = if prior_mode is Some {
                0
            } else {
                2
            };
            let flags_read = replies.len() > 0 && replies.last() matches Reply::Event(
                Ok(InternalEvent::KeyboardEnhancementFlags(_)),
            );
            match keyboard_run(prior_mode, replies).step {
                Step::Ask(Request::Write(channel, query), _) => channel == Channel::Terminal
                    && query == Query::KeyboardEnhancement && replies.len() == entry,
                Step::Ask(Request::Flush(channel), _) => channel == Channel::Terminal
                    && replies.len() == entry + 1 && (replies[entry] matches Reply::Completed(
                    Ok(_),
                )),
                Step::Ask(Request::Poll(filter, _), _) => {
                    &&& filter == Filter::KeyboardEnhancementFlags
                    &&& !flags_read
                    &&& replies.len() > entry + 1
                    &&& (replies[entry] matches Reply::Completed(Ok(_)))
                    &&& (replies[entry + 1] matches Reply::Completed(Ok(_)))
                },
                Step::Ask(Request::Read(filter), _) => {
                    &&& filter == if flags_read {
                        Filter::PrimaryDeviceAttributes
                    } else {
                        Filter::KeyboardEnhancementFlags
                    }
                    &&& replies.len() > entry + 2
                    &&& (replies[entry] matches Reply::Completed(Ok(_)))
                    &&& (replies[entry + 1] matches Reply::Completed(Ok(_)))
                },
                Step::Ask(Request::WindowSize, _) | Step::Ask(Request::Tput(_), _) => false,
                _ => true,
            }
        }),
{
    law_keyboard_support_run(prior_mode, replies);
    let entry: int = if prior_mode is Some {
        0
    } else {
        2
    };
    let rest = replies.skip(entry);
    if replies.len() > entry {
        assert(rest[0] == replies[entry]);
        assert(rest.last() == replies.last());
    }
    if replies.len() > entry + 1 {
        assert(rest[1] == replies[entry + 1]);
    }
}

/// However switching off raw mode was begun, a mode that could be set leaves none to go back to, and
/// one that could not changes nothing.
pub proof fn law_disable_goes_by_reply<E>(prior_mode: Option<Termios>, done: Result<(), E>)
    ensures
        ({
            let (mode, step) = disable_next(prior_mode, Reply::Completed(done));
            match done {
                Ok(_) => mode is None && ends(step, Ok(())),
                Err(e) => mode == prior_mode && ends(step, Err(TerminalError::Os(e))),
            }
        }),
{
}

/// The question is the same whatever the prior mode, and leaves it alone. In a bracket it asks for the
/// same, and its outcome is held back while a prior mode is there to set. Setting it gives the
/// outcome back, or its own error, with which the prior mode is kept.
pub proof fn law_cursor_question_is_the_same_in_a_bracket<E>(
    prior_mode: Option<Termios>,
    other: Option<Termios>,
    query: CursorQuery,
    reply: Reply<E>,
    outcome: Result<(u16, u16), TerminalError<E>>,
    done: Result<(), E>,
)
    requires
        query.accepts(reply),
    ensures
        ({
            let (mode, step) = cursor_next(prior_mode, CursorPending::Raw(query), reply);
            let (held, inside) = cursor_next(
                prior_mode,
                CursorPending::Bracketed(Bracket::Ask(query)),
                reply,
            );
            let leave = CursorPending::Bracketed(Bracket::Leave(outcome));
            let (after, end) = cursor_next(prior_mode, leave, Reply::Completed(done));
            &&& step == cursor_next(other, CursorPending::Raw(query), reply).1
            &&& mode == prior_mode && held == prior_mode
            &&& match step {
                Step::Ask(request, _) => asks(inside, request),
                Step::Done(outcome) => match prior_mode {
                    Some(mode) => asks(inside, Request::SetAttributes(mode)),
                    None => ends(inside, outcome),
                },
            }
            &&& leave.accepts(Reply::Completed(done))
            &&& match done {
                Ok(_) => ends(end, outcome) && after is None,
                Err(e) => ends(end, Err(TerminalError::Os(e))) && after == prior_mode,
            }
        }),
{
}

/// The question is the same whatever the prior mode, and leaves it alone. In a bracket it asks for the
/// same, and its outcome is held back while a prior mode is there to set. Setting it gives the
/// outcome back, or its own error, with which the prior mode is kept.
pub proof fn law_keyboard_question_is_the_same_in_a_bracket<E>(
    prior_mode: Option<Termios>,
    other: Option<Termios>,
    query: KeyboardQuery,
    reply: Reply<E>,
    outcome: Result<bool, TerminalError<E>>,
    done: Result<(), E>,
)
    requires
        query.accepts(reply),
    ensures
        ({
            let (mode, step) = keyboard_next(prior_mode, KeyboardPending::Raw(query), reply);
            let (held, inside) = keyboard_next(
                prior_mode,
                KeyboardPending::Bracketed(Bracket::Ask(query)),
                reply,
            );
            let leave = KeyboardPending::Bracketed(Bracket::Leave(outcome));
            let (after, end) = keyboard_next(prior_mode, leave, Reply::Completed(done));
            &&& step == keyboard_next(other, KeyboardPending::Raw(query), reply).1
            &&& mode == prior_mode && held == prior_mode
            &&& match step {
                Step::Ask(request, _) => asks(inside, request),
                Step::Done(outcome) => match prior_mode {
                    Some(mode) => asks(inside, Request::SetAttributes(mode)),
                    None => ends(inside, outcome),
                },
            }
            &&& leave.accepts(Reply::Completed(done))
            &&& match done {
                Ok(_) => ends(end, outcome) && after is None,
                Err(e) => ends(end, Err(TerminalError::Os(e))) && after == prior_mode,
            }
        }),
{
}

} // verus!
