//! A question to the terminal is settled by the first answer.

use crate::laws::{
    cursor_fits, cursor_rules, cursor_run, keyboard_fits, keyboard_rules, keyboard_run, Rules, State,
};
use crate::laws::requests::{keyboard_can_go_on, law_keyboard_support_can_go_on};
use crate::protocol::{
    Filter, InternalEvent, Reply, Request, Step, TerminalError, POLL_TIMEOUT_MS,
};
use crate::query::{
    bracket_ask, cursor_accepts, cursor_bracketed, cursor_query_next, cursor_query_start, cursor_raw, cursor_rule,
    cursor_start, keyboard_accepts, keyboard_bracketed, keyboard_query_next, keyboard_query_start, keyboard_raw,
    keyboard_rule, keyboard_start, CursorPending, CursorQuery, KeyboardPending, KeyboardQuery,
};
use crate::terminal::TerminalModel;
use rustix::termios::Termios;
use vstd::prelude::*;

verus! {

/// How far a question has come after these replies.
pub open spec fn query_run<P, T, E>(
    ask: spec_fn(P, Reply<E>) -> Step<P, T, E>,
    step: Step<P, T, E>,
    replies: Seq<Reply<E>>,
) -> Step<P, T, E>
    decreases replies.len(),
{
    if replies.len() == 0 {
        step
    } else {
        match step {
            Step::Ask(_, pending) => query_run(
                ask,
                ask(pending, replies[0]),
                replies.drop_first(),
            ),
            Step::Done(_) => step,
        }
    }
}

/// The question is open until the last of these replies, and each of them is one that is waited for
/// when it comes.
pub open spec fn query_open<P, T, E>(
    accepts: spec_fn(P, Reply<E>) -> bool,
    ask: spec_fn(P, Reply<E>) -> Step<P, T, E>,
    step: Step<P, T, E>,
    replies: Seq<Reply<E>>,
) -> bool
    decreases replies.len(),
{
    replies.len() > 0 ==> {
        &&& step matches Step::Ask(_, pending)
        &&& accepts(pending, replies[0])
        &&& query_open(accepts, ask, ask(pending, replies[0]), replies.drop_first())
    }
}

proof fn lemma_query_run_concat<P, T, E>(
    accepts: spec_fn(P, Reply<E>) -> bool,
    ask: spec_fn(P, Reply<E>) -> Step<P, T, E>,
    step: Step<P, T, E>,
    a: Seq<Reply<E>>,
    b: Seq<Reply<E>>,
)
    requires
        query_open(accepts, ask, step, a),
        query_open(accepts, ask, query_run(ask, step, a), b),
    ensures
        query_open(accepts, ask, step, a + b),
        query_run(ask, step, a + b) == query_run(ask, query_run(ask, step, a), b),
    decreases a.len(),
{
    if a.len() == 0 {
        assert(a + b =~= b);
    } else {
        assert((a + b).drop_first() =~= a.drop_first() + b);
        if let Step::Ask(_, pending) = step {
            lemma_query_run_concat(accepts, ask, ask(pending, a[0]), a.drop_first(), b);
        }
    }
}

/// One look for an answer: a poll, and a read where there is something to read.
pub enum Round<E> {
    /// The poll fails.
    Failed(E),
    /// The poll finds nothing in time.
    Nothing,
    /// The poll finds an event, which is read like this.
    Event(Result<InternalEvent, E>),
}

impl<E> Round<E> {
    /// The replies that the look gets.
    pub open spec fn replies(self) -> Seq<Reply<E>> {
        match self {
            Round::Failed(e) => seq![Reply::Polled(Err(e))],
            Round::Nothing => seq![Reply::Polled(Ok(false))],
            Round::Event(event) => seq![Reply::Polled(Ok(true)), Reply::Event(event)],
        }
    }

    /// What the look says about the position of the cursor, if anything.
    pub open spec fn position(self) -> Option<Result<(u16, u16), TerminalError<E>>> {
        match self {
            Round::Failed(_) => None,
            Round::Nothing => Some(Err(TerminalError::CursorPositionTimeout)),
            Round::Event(Ok(InternalEvent::CursorPosition(x, y))) => Some(Ok((x, y))),
            Round::Event(_) => None,
        }
    }

    /// What the look says about keyboard support, if anything.
    pub open spec fn support(self) -> Option<Result<bool, TerminalError<E>>> {
        match self {
            Round::Failed(_) => None,
            Round::Nothing => Some(Err(TerminalError::KeyboardEnhancementTimeout)),
            Round::Event(Ok(InternalEvent::KeyboardEnhancementFlags(_))) => Some(Ok(true)),
            Round::Event(_) => Some(Ok(false)),
        }
    }
}

/// The replies that look after look gets.
pub open spec fn all_replies<E>(rounds: Seq<Round<E>>) -> Seq<Reply<E>>
    decreases rounds.len(),
{
    if rounds.len() == 0 {
        Seq::empty()
    } else {
        rounds[0].replies() + all_replies(rounds.drop_first())
    }
}

/// The replies when a query has gone out.
pub open spec fn sent<E>() -> Seq<Reply<E>> {
    seq![Reply::Completed(Ok(())), Reply::Completed(Ok(()))]
}

/// The replies of a cursor query that is answered by the look `last`, and by none before it.
pub open spec fn cursor_replies<E>(rounds: Seq<Round<E>>, last: Round<E>) -> Seq<Reply<E>> {
    sent::<E>() + (all_replies(rounds) + last.replies())
}

/// The replies of a keyboard query that is answered by the look `last`, and by none before it.
/// Where the flags were read, the device attributes are read as well.
pub open spec fn keyboard_replies<E>(
    rounds: Seq<Round<E>>,
    last: Round<E>,
    attributes: Result<InternalEvent, E>,
) -> Seq<Reply<E>> {
    let drained = if last.support() == Some(Ok::<bool, TerminalError<E>>(true)) {
        seq![Reply::<E>::Event(attributes)]
    } else {
        Seq::<Reply<E>>::empty()
    };
    sent::<E>() + (all_replies(rounds) + (last.replies() + drained))
}

spec fn cursor_poll<E>() -> Step<CursorQuery, (u16, u16), E> {
    Step::Ask(Request::Poll(Filter::CursorPosition, POLL_TIMEOUT_MS), CursorQuery::Poll)
}

spec fn keyboard_poll<E>() -> Step<KeyboardQuery, bool, E> {
    Step::Ask(
        Request::Poll(Filter::KeyboardEnhancementFlags, POLL_TIMEOUT_MS),
        KeyboardQuery::Poll,
    )
}

proof fn lemma_cursor_round<E>(round: Round<E>)
    ensures
        query_open(cursor_accepts(), cursor_rule(), cursor_poll::<E>(), round.replies()),
        query_run(cursor_rule(), cursor_poll::<E>(), round.replies()) == match round.position() {
            Some(answer) => Step::<CursorQuery, (u16, u16), E>::Done(answer),
            None => cursor_poll::<E>(),
        },
{
    reveal_with_fuel(query_open, 3);
    reveal_with_fuel(query_run, 3);
    let replies = round.replies();
    if round is Event {
        assert(replies.drop_first()[0] == replies[1]);
        assert(replies.drop_first().drop_first().len() == 0);
    }
}

proof fn lemma_cursor_rounds<E>(rounds: Seq<Round<E>>)
    requires
        forall|i: int| 0 <= i < rounds.len() ==> (#[trigger] rounds[i]).position() is None,
    ensures
        query_open(cursor_accepts(), cursor_rule(), cursor_poll::<E>(), all_replies(rounds)),
        query_run(cursor_rule(), cursor_poll::<E>(), all_replies(rounds)) == cursor_poll::<E>(),
    decreases rounds.len(),
{
    if rounds.len() > 0 {
        lemma_cursor_round(rounds[0]);
        assert(rounds[0].position() is None);
        lemma_cursor_rounds(rounds.drop_first());
        lemma_query_run_concat(
            cursor_accepts(),
            cursor_rule(),
            cursor_poll::<E>(),
            rounds[0].replies(),
            all_replies(rounds.drop_first()),
        );
    }
}

proof fn lemma_cursor_sent<E>()
    ensures
        query_open(cursor_accepts(), cursor_rule(), cursor_query_start::<E>(), sent::<E>()),
        query_run(cursor_rule(), cursor_query_start::<E>(), sent::<E>()) == cursor_poll::<E>(),
{
    reveal_with_fuel(query_open, 3);
    reveal_with_fuel(query_run, 3);
    assert(sent::<E>().drop_first()[0] == sent::<E>()[1]);
    assert(sent::<E>().drop_first().drop_first().len() == 0);
}

/// The cursor query is settled by the first look that says something: the position that it reads,
/// or that there was nothing to read in time. Polls that fail and events of any other kind are
/// passed over, however many there are, and leave the question open.
pub proof fn law_cursor_query_takes_first_position<E>(rounds: Seq<Round<E>>, last: Round<E>)
    requires
        forall|i: int| 0 <= i < rounds.len() ==> (#[trigger] rounds[i]).position() is None,
    ensures
        query_open(cursor_accepts(), cursor_rule(), cursor_query_start::<E>(), cursor_replies(rounds, last)),
        match last.position() {
            Some(answer) => query_run(
                cursor_rule(),
                cursor_query_start::<E>(),
                cursor_replies(rounds, last),
            ) == Step::<CursorQuery, (u16, u16), E>::Done(answer),
            None => query_run(
                cursor_rule(),
                cursor_query_start::<E>(),
                cursor_replies(rounds, last),
            ) is Ask,
        },
{
    lemma_cursor_sent::<E>();
    lemma_cursor_rounds(rounds);
    lemma_cursor_round(last);
    lemma_query_run_concat(
        cursor_accepts(),
        cursor_rule(),
        cursor_poll::<E>(),
        all_replies(rounds),
        last.replies(),
    );
    lemma_query_run_concat(
        cursor_accepts(),
        cursor_rule(),
        cursor_query_start::<E>(),
        sent::<E>(),
        all_replies(rounds) + last.replies(),
    );
}

proof fn lemma_keyboard_failed_round<E>(round: Round<E>)
    requires
        round.support() is None,
    ensures
        query_open(keyboard_accepts(), keyboard_rule(), keyboard_poll::<E>(), round.replies()),
        query_run(keyboard_rule(), keyboard_poll::<E>(), round.replies()) == keyboard_poll::<E>(),
{
    reveal_with_fuel(query_open, 3);
    reveal_with_fuel(query_run, 3);
}

proof fn lemma_keyboard_rounds<E>(rounds: Seq<Round<E>>)
    requires
        forall|i: int| 0 <= i < rounds.len() ==> (#[trigger] rounds[i]).support() is None,
    ensures
        query_open(keyboard_accepts(), keyboard_rule(), keyboard_poll::<E>(), all_replies(rounds)),
        query_run(keyboard_rule(), keyboard_poll::<E>(), all_replies(rounds))
            == keyboard_poll::<E>(),
    decreases rounds.len(),
{
    if rounds.len() > 0 {
        assert(rounds[0].support() is None);
        lemma_keyboard_failed_round(rounds[0]);
        lemma_keyboard_rounds(rounds.drop_first());
        lemma_query_run_concat(
            keyboard_accepts(),
            keyboard_rule(),
            keyboard_poll::<E>(),
            rounds[0].replies(),
            all_replies(rounds.drop_first()),
        );
    }
}

proof fn lemma_keyboard_sent<E>()
    ensures
        query_open(keyboard_accepts(), keyboard_rule(), keyboard_query_start::<E>(), sent::<E>()),
        query_run(keyboard_rule(), keyboard_query_start::<E>(), sent::<E>())
            == keyboard_poll::<E>(),
{
    reveal_with_fuel(query_open, 3);
    reveal_with_fuel(query_run, 3);
    assert(sent::<E>().drop_first()[0] == sent::<E>()[1]);
    assert(sent::<E>().drop_first().drop_first().len() == 0);
}

/// The keyboard query is settled by the first poll that does not fail. The protocol is supported
/// when the flags are read then, and it is not when anything else is read, or the read fails.
/// Where there was nothing to read in time the query fails. What is read for the device attributes
/// makes no difference.
pub proof fn law_keyboard_query_takes_first_answer<E>(
    rounds: Seq<Round<E>>,
    last: Round<E>,
    attributes: Result<InternalEvent, E>,
)
    requires
        forall|i: int| 0 <= i < rounds.len() ==> (#[trigger] rounds[i]).support() is None,
        last.support() is Some,
    ensures
        query_open(
            keyboard_accepts(),
            keyboard_rule(),
            keyboard_query_start::<E>(),
            keyboard_replies(rounds, last, attributes),
        ),
        query_run(
            keyboard_rule(),
            keyboard_query_start::<E>(),
            keyboard_replies(rounds, last, attributes),
        ) == Step::<KeyboardQuery, bool, E>::Done(last.support()->0),
{
    lemma_keyboard_sent::<E>();
    lemma_keyboard_rounds(rounds);
    let drained = if last.support() == Some(Ok::<bool, TerminalError<E>>(true)) {
        seq![Reply::<E>::Event(attributes)]
    } else {
        Seq::<Reply<E>>::empty()
    };
    let end = last.replies() + drained;
    assert(query_open(keyboard_accepts(), keyboard_rule(), keyboard_poll::<E>(), end) && query_run(
        keyboard_rule(),
        keyboard_poll::<E>(),
        end,
    ) == Step::<KeyboardQuery, bool, E>::Done(last.support()->0)) by {
        reveal_with_fuel(query_open, 4);
        reveal_with_fuel(query_run, 4);
        if last is Event {
            assert(end.drop_first()[0] == end[1]);
            if drained.len() > 0 {
                assert(end.drop_first().drop_first()[0] == end[2]);
                assert(end.drop_first().drop_first().drop_first().len() == 0);
            } else {
                assert(end.drop_first().drop_first().len() == 0);
            }
        }
    }
    lemma_query_run_concat(keyboard_accepts(), keyboard_rule(), keyboard_poll::<E>(), all_replies(rounds), end);
    lemma_query_run_concat(
        keyboard_accepts(),
        keyboard_rule(),
        keyboard_query_start::<E>(),
        sent::<E>(),
        all_replies(rounds) + end,
    );
}

pub(crate) proof fn lemma_run_concat<P, T, E>(
    rules: Rules<P, T, E>,
    state: State<P, T, E>,
    a: Seq<Reply<E>>,
    b: Seq<Reply<E>>,
)
    ensures
        rules.run(state, a + b) == rules.run(rules.run(state, a), b),
        rules.fits(state, a) && rules.fits(rules.run(state, a), b) ==> rules.fits(state, a + b),
    decreases a.len(),
{
    if a.len() == 0 {
        assert(a + b =~= b);
    } else {
        assert((a + b).drop_first() =~= a.drop_first() + b);
        lemma_run_concat(rules, rules.after(state, a[0]), a.drop_first(), b);
    }
}

pub(crate) proof fn lemma_cursor_raw_run<E>(
    prior_mode: Option<Termios>,
    step: Step<CursorQuery, (u16, u16), E>,
    replies: Seq<Reply<E>>,
)
    requires
        query_open(cursor_accepts(), cursor_rule(), step, replies),
    ensures
        cursor_rules().fits(State { prior_mode, step: cursor_raw(step) }, replies),
        cursor_rules().run(State { prior_mode, step: cursor_raw(step) }, replies) == (State {
            prior_mode,
            step: cursor_raw(query_run(cursor_rule(), step, replies)),
        }),
    decreases replies.len(),
{
    if replies.len() > 0 {
        if let Step::Ask(_, pending) = step {
            lemma_cursor_raw_run(
                prior_mode,
                cursor_query_next(pending, replies[0]),
                replies.drop_first(),
            );
        }
    }
}

pub(crate) proof fn lemma_cursor_bracket_run<E>(
    prior_mode: Option<Termios>,
    step: Step<CursorQuery, (u16, u16), E>,
    replies: Seq<Reply<E>>,
)
    requires
        query_open(cursor_accepts(), cursor_rule(), step, replies),
    ensures
        cursor_rules().fits(
            State { prior_mode, step: cursor_bracketed(bracket_ask(prior_mode, step)) },
            replies,
        ),
        cursor_rules().run(
            State { prior_mode, step: cursor_bracketed(bracket_ask(prior_mode, step)) },
            replies,
        ) == (State {
            prior_mode,
            step: cursor_bracketed(
                bracket_ask(prior_mode, query_run(cursor_rule(), step, replies)),
            ),
        }),
    decreases replies.len(),
{
    if replies.len() > 0 {
        if let Step::Ask(_, pending) = step {
            lemma_cursor_bracket_run(
                prior_mode,
                cursor_query_next(pending, replies[0]),
                replies.drop_first(),
            );
        }
    }
}

pub(crate) proof fn lemma_keyboard_raw_run<E>(
    prior_mode: Option<Termios>,
    step: Step<KeyboardQuery, bool, E>,
    replies: Seq<Reply<E>>,
)
    requires
        query_open(keyboard_accepts(), keyboard_rule(), step, replies),
    ensures
        keyboard_rules().fits(State { prior_mode, step: keyboard_raw(step) }, replies),
        keyboard_rules().run(State { prior_mode, step: keyboard_raw(step) }, replies) == (State {
            prior_mode,
            step: keyboard_raw(query_run(keyboard_rule(), step, replies)),
        }),
    decreases replies.len(),
{
    if replies.len() > 0 {
        if let Step::Ask(_, pending) = step {
            lemma_keyboard_raw_run(
                prior_mode,
                keyboard_query_next(pending, replies[0]),
                replies.drop_first(),
            );
        }
    }
}

pub(crate) proof fn lemma_keyboard_bracket_run<E>(
    prior_mode: Option<Termios>,
    step: Step<KeyboardQuery, bool, E>,
    replies: Seq<Reply<E>>,
)
    requires
        query_open(keyboard_accepts(), keyboard_rule(), step, replies),
    ensures
        keyboard_rules().fits(
            State { prior_mode, step: keyboard_bracketed(bracket_ask(prior_mode, step)) },
            replies,
        ),
        keyboard_rules().run(
            State { prior_mode, step: keyboard_bracketed(bracket_ask(prior_mode, step)) },
            replies,
        ) == (State {
            prior_mode,
            step: keyboard_bracketed(
                bracket_ask(prior_mode, query_run(keyboard_rule(), step, replies)),
            ),
        }),
    decreases replies.len(),
{
    if replies.len() > 0 {
        if let Step::Ask(_, pending) = step {
            lemma_keyboard_bracket_run(
                prior_mode,
                keyboard_query_next(pending, replies[0]),
                replies.drop_first(),
            );
        }
    }
}

/// The replies when raw mode is switched on where it was off and this was the mode.
pub open spec fn entered<E>(mode: Termios) -> Seq<Reply<E>> {
    seq![Reply::Attributes(Ok(mode)), Reply::Completed(Ok(()))]
}

/// The position is the first that the terminal reports. It is the same whether raw mode was on or
/// had to be switched on for the question, and in the second case raw mode is off again at the end.
pub proof fn law_cursor_position_is_first_report<E>(
    prior_mode: Option<Termios>,
    mode: Termios,
    rounds: Seq<Round<E>>,
    last: Round<E>,
)
    requires
        forall|i: int| 0 <= i < rounds.len() ==> (#[trigger] rounds[i]).position() is None,
        last.position() is Some,
    ensures
        cursor_fits(prior_mode, true, cursor_replies(rounds, last)),
        cursor_run(prior_mode, true, cursor_replies(rounds, last)) == (State {
            prior_mode,
            step: Step::<CursorPending<E>, (u16, u16), E>::Done(last.position()->0),
        }),
        cursor_fits(
            None,
            false,
            entered(mode) + (cursor_replies(rounds, last) + seq![Reply::Completed(Ok(()))]),
        ),
        cursor_run(
            None,
            false,
            entered(mode) + (cursor_replies(rounds, last) + seq![Reply::Completed(Ok(()))]),
        ) == (State {
            prior_mode: None,
            step: Step::<CursorPending<E>, (u16, u16), E>::Done(last.position()->0),
        }),
{
    law_cursor_query_takes_first_position(rounds, last);
    let first = cursor_query_start::<E>();
    let replies = cursor_replies(rounds, last);
    lemma_cursor_raw_run(prior_mode, first, replies);
    let start = State { prior_mode: None::<Termios>, step: cursor_start::<E>(None, false) };
    let inside = State {
        prior_mode: Some(mode),
        step: cursor_bracketed(bracket_ask(Some(mode), first)),
    };
    let left = seq![Reply::<E>::Completed(Ok(()))];
    assert(cursor_rules().run(start, entered(mode)) == inside && cursor_rules().fits(
        start,
        entered(mode),
    )) by {
        reveal_with_fuel(Rules::run, 3);
        reveal_with_fuel(Rules::fits, 3);
        assert(entered::<E>(mode).drop_first()[0] == entered::<E>(mode)[1]);
        assert(entered::<E>(mode).drop_first().drop_first().len() == 0);
    }
    lemma_cursor_bracket_run(Some(mode), first, replies);
    lemma_run_concat(cursor_rules(), start, entered(mode), replies + left);
    lemma_run_concat(cursor_rules(), inside, replies, left);
    reveal_with_fuel(Rules::run, 2);
    reveal_with_fuel(Rules::fits, 2);
}

/// Keyboard support is as the first answer of the terminal has it. It is the same whether raw mode
/// was on or had to be switched on for the question, and in the second case raw mode is off again
/// at the end.
pub proof fn law_keyboard_support_is_first_answer<E>(
    prior_mode: Termios,
    mode: Termios,
    rounds: Seq<Round<E>>,
    last: Round<E>,
    attributes: Result<InternalEvent, E>,
)
    requires
        forall|i: int| 0 <= i < rounds.len() ==> (#[trigger] rounds[i]).support() is None,
        last.support() is Some,
    ensures
        keyboard_fits(Some(prior_mode), keyboard_replies(rounds, last, attributes)),
        keyboard_run(Some(prior_mode), keyboard_replies(rounds, last, attributes)) == (State {
            prior_mode: Some(prior_mode),
            step: Step::<KeyboardPending<E>, bool, E>::Done(last.support()->0),
        }),
        keyboard_fits(
            None,
            entered(mode) + (keyboard_replies(rounds, last, attributes)
                + seq![Reply::Completed(Ok(()))]),
        ),
        keyboard_run(
            None,
            entered(mode) + (keyboard_replies(rounds, last, attributes)
                + seq![Reply::Completed(Ok(()))]),
        ) == (State {
            prior_mode: None,
            step: Step::<KeyboardPending<E>, bool, E>::Done(last.support()->0),
        }),
{
    law_keyboard_query_takes_first_answer(rounds, last, attributes);
    let first = keyboard_query_start::<E>();
    let replies = keyboard_replies(rounds, last, attributes);
    lemma_keyboard_raw_run(Some(prior_mode), first, replies);
    let start = State { prior_mode: None::<Termios>, step: keyboard_start::<E>(None) };
    let inside = State {
        prior_mode: Some(mode),
        step: keyboard_bracketed(bracket_ask(Some(mode), first)),
    };
    let left = seq![Reply::<E>::Completed(Ok(()))];
    assert(keyboard_rules().run(start, entered(mode)) == inside && keyboard_rules().fits(
        start,
        entered(mode),
    )) by {
        reveal_with_fuel(Rules::run, 3);
        reveal_with_fuel(Rules::fits, 3);
        assert(entered::<E>(mode).drop_first()[0] == entered::<E>(mode)[1]);
        assert(entered::<E>(mode).drop_first().drop_first().len() == 0);
    }
    lemma_keyboard_bracket_run(Some(mode), first, replies);
    lemma_run_concat(keyboard_rules(), start, entered(mode), replies + left);
    lemma_run_concat(keyboard_rules(), inside, replies, left);
    reveal_with_fuel(Rules::run, 2);
    reveal_with_fuel(Rules::fits, 2);
}

/// The terminal of the process answers the keyboard question once it was acquired with its events
/// and raw mode can be switched on and off. The answer is yes where the flags are the first thing
/// that is read, no where it is the device attributes, and an error where nothing is there to be
/// read in time. Polls that fail before make no difference. All along, each reply is one that can
/// be gone on with: it is waited for, and there is a reader where one is needed.
pub proof fn law_process_keyboard_question_is_answered<F, S, R, E>(
    terminal: TerminalModel<F, S, R>,
    mode: Termios,
    rounds: Seq<Round<E>>,
    last: Round<E>,
    attributes: Result<InternalEvent, E>,
)
    requires
        terminal.event_reader is Some,
        terminal.prior_mode is None,
        forall|i: int| 0 <= i < rounds.len() ==> #[trigger] rounds[i] is Failed,
        !(last is Failed),
    ensures
        ({
            let replies = entered(mode) + (keyboard_replies(rounds, last, attributes)
                + seq![Reply::Completed(Ok(()))]);
            let end = keyboard_run(terminal.prior_mode, replies);
            &&& end.prior_mode is None
            &&& last matches Round::Event(Ok(InternalEvent::KeyboardEnhancementFlags(_)))
                ==> end.step == Step::<KeyboardPending<E>, bool, E>::Done(Ok(true))
            &&& last matches Round::Event(Ok(InternalEvent::PrimaryDeviceAttributes)) ==> end.step
                == Step::<KeyboardPending<E>, bool, E>::Done(Ok(false))
            &&& last is Nothing ==> end.step == Step::<KeyboardPending<E>, bool, E>::Done(
                Err(TerminalError::KeyboardEnhancementTimeout),
            )
            &&& forall|i: int| 0 <= i < replies.len() ==> #[trigger] keyboard_can_go_on(
                terminal,
                replies,
                i,
            )
        }),
{
    law_keyboard_support_is_first_answer(mode, mode, rounds, last, attributes);
    let replies = entered(mode) + (keyboard_replies(rounds, last, attributes)
        + seq![Reply::Completed(Ok(()))]);
    assert forall|i: int| 0 <= i < replies.len() implies #[trigger] keyboard_can_go_on(
        terminal,
        replies,
        i,
    ) by {
        law_keyboard_support_can_go_on(terminal, replies, i);
    }
}

} // verus!
