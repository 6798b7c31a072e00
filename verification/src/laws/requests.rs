//! Whoever answers the request of a step can always go on: the answer is one that is waited for.

use crate::laws::{
    cursor_fits, cursor_rules, cursor_run, disable_rules, enable_rules, keyboard_fits,
    keyboard_rules, keyboard_run, Rules, State,
};
use crate::protocol::{
    answers, Channel, Dimension, Filter, InternalEvent, Query, Reply, Request, Step,
};
use crate::size::Winsize;
use crate::query::{
    cursor_next, cursor_start, keyboard_next, keyboard_start, Bracket, CursorPending, CursorQuery,
    KeyboardPending, KeyboardQuery,
};
use crate::terminal::{
    disable_next, disable_start, enable_next, enable_start, size_next, EnablePending, SizePending,
    TerminalModel,
};
use rustix::termios::Termios;
use vstd::prelude::*;

verus! {

/// Every reply to the request of the step is one that is waited for.
pub open spec fn waits_for_answer<P, T, E>(rules: Rules<P, T, E>, state: State<P, T, E>) -> bool {
    state.step matches Step::Ask(request, pending) ==> forall|reply: Reply<E>|
        answers(request, reply) ==> #[trigger] (rules.accepts)(state.prior_mode, pending, reply)
}

/// Switching on raw mode can go on with any answer to its requests.
pub proof fn law_enable_goes_on<E>(
    prior_mode: Option<Termios>,
    pending: EnablePending,
    reply: Reply<E>,
)
    requires
        (enable_rules().accepts)(prior_mode, pending, reply),
    ensures
        forall|mode: Option<Termios>|
            waits_for_answer(
                enable_rules(),
                State { prior_mode: mode, step: #[trigger] enable_start::<E>(mode) },
            ),
        ({
            let (prior_mode, step) = enable_next(prior_mode, pending, reply);
            waits_for_answer(enable_rules(), State { prior_mode, step })
        }),
{
}

/// Switching off raw mode can go on with any answer to its requests.
pub proof fn law_disable_goes_on<E>(prior_mode: Option<Termios>, reply: Reply<E>)
    requires
        reply is Completed,
    ensures
        waits_for_answer(
            disable_rules(),
            State { prior_mode, step: disable_start::<E>(prior_mode) },
        ),
        ({
            let (prior_mode, step) = disable_next(prior_mode, reply);
            waits_for_answer(disable_rules(), State { prior_mode, step })
        }),
{
}

/// Finding out keyboard support can go on with any answer to its requests.
pub proof fn law_keyboard_support_goes_on<E>(
    prior_mode: Option<Termios>,
    pending: KeyboardPending<E>,
    reply: Reply<E>,
)
    requires
        (keyboard_rules().accepts)(prior_mode, pending, reply),
    ensures
        forall|mode: Option<Termios>|
            waits_for_answer(
                keyboard_rules(),
                State { prior_mode: mode, step: #[trigger] keyboard_start::<E>(mode) },
            ),
        ({
            let (prior_mode, step) = keyboard_next(prior_mode, pending, reply);
            waits_for_answer(keyboard_rules(), State { prior_mode, step })
        }),
{
}

/// Finding out the position can go on with any answer to its requests.
pub proof fn law_cursor_position_goes_on<E>(
    prior_mode: Option<Termios>,
    raw_mode: bool,
    pending: CursorPending<E>,
    reply: Reply<E>,
)
    requires
        (cursor_rules().accepts)(prior_mode, pending, reply),
    ensures
        forall|mode: Option<Termios>|
            waits_for_answer(
                cursor_rules(),
                State { prior_mode: mode, step: #[trigger] cursor_start::<E>(mode, raw_mode) },
            ),
        ({
            let (prior_mode, step) = cursor_next(prior_mode, pending, reply);
            waits_for_answer(cursor_rules(), State { prior_mode, step })
        }),
{
}

/// Finding out the size can go on with any answer to its requests.
pub proof fn law_size_goes_on<E>(pending: SizePending, reply: Reply<E>, answer: Reply<E>)
    requires
        pending.accepts(reply),
    ensures
        size_next(pending, reply) matches Step::Ask(request, next) ==> (answers(request, answer)
            <==> next.accepts(answer)),
{
}

proof fn lemma_fits_at<P, T, E>(
    rules: Rules<P, T, E>,
    state: State<P, T, E>,
    replies: Seq<Reply<E>>,
    i: int,
)
    requires
        rules.fits(state, replies),
        0 <= i < replies.len(),
    ensures
        rules.run(state, replies.take(i)).step matches Step::Ask(_, pending) && (rules.accepts)(
            rules.run(state, replies.take(i)).prior_mode,
            pending,
            replies[i],
        ),
    decreases i,
{
    if i == 0 {
        assert(replies.take(i).len() == 0);
    } else {
        lemma_fits_at(rules, rules.after(state, replies[0]), replies.drop_first(), i - 1);
        assert(replies.take(i).drop_first() =~= replies.drop_first().take(i - 1));
        assert(replies.drop_first()[i - 1] == replies[i]);
    }
}

/// Finding out keyboard support on this terminal can go on with the reply `i`: it is waited for
/// then, raw mode is off as long as it is being switched on, and the terminal has its reader where
/// one is needed.
pub open spec fn keyboard_can_go_on<F, S, R, E>(
    terminal: TerminalModel<F, S, R>,
    replies: Seq<Reply<E>>,
    i: int,
) -> bool {
    let state = keyboard_run(terminal.prior_mode, replies.take(i));
    &&& state.step matches Step::Ask(_, pending)
    &&& pending.accepts(replies[i])
    &&& pending.entering() ==> state.prior_mode is None
    &&& pending.needs_reader(replies[i]) ==> terminal.with_prior_mode(
        state.prior_mode,
    ).event_reader is Some
}

/// Finding out the position on this terminal can go on with the reply `i`: it is waited for then,
/// raw mode is off as long as it is being switched on, and the terminal has its reader where one is
/// needed.
pub open spec fn cursor_can_go_on<F, S, R, E>(
    terminal: TerminalModel<F, S, R>,
    raw_mode: bool,
    replies: Seq<Reply<E>>,
    i: int,
) -> bool {
    let state = cursor_run(terminal.prior_mode, raw_mode, replies.take(i));
    &&& state.step matches Step::Ask(_, pending)
    &&& pending.accepts(replies[i])
    &&& pending.entering() ==> state.prior_mode is None
    &&& pending.needs_reader(replies[i]) ==> terminal.with_prior_mode(
        state.prior_mode,
    ).event_reader is Some
}

/// On a terminal with a reader, finding out keyboard support can go on with every reply that fits.
pub proof fn law_keyboard_support_can_go_on<F, S, R, E>(
    terminal: TerminalModel<F, S, R>,
    replies: Seq<Reply<E>>,
    i: int,
)
    requires
        terminal.event_reader is Some,
        keyboard_fits(terminal.prior_mode, replies),
        0 <= i < replies.len(),
    ensures
        keyboard_can_go_on(terminal, replies, i),
{
    lemma_fits_at(
        keyboard_rules(),
        State {
            prior_mode: terminal.prior_mode,
            step: keyboard_start::<E>(terminal.prior_mode),
        },
        replies,
        i,
    );
}

/// On a terminal with a reader, finding out the position can go on with every reply that fits.
pub proof fn law_cursor_position_can_go_on<F, S, R, E>(
    terminal: TerminalModel<F, S, R>,
    raw_mode: bool,
    replies: Seq<Reply<E>>,
    i: int,
)
    requires
        terminal.event_reader is Some,
        cursor_fits(terminal.prior_mode, raw_mode, replies),
        0 <= i < replies.len(),
    ensures
        cursor_can_go_on(terminal, raw_mode, replies, i),
{
    lemma_fits_at(
        cursor_rules(),
        State {
            prior_mode: terminal.prior_mode,
            step: cursor_start::<E>(terminal.prior_mode, raw_mode),
        },
        replies,
        i,
    );
}

/// Whatever comes of a request answers it, good or bad.
pub proof fn law_whatever_comes_of_it_answers<E>(
    size: Result<Winsize, E>,
    output: Option<Vec<u8>>,
    read: Result<Termios, E>,
    done: Result<(), E>,
    ready: Result<bool, E>,
    event: Result<InternalEvent, E>,
)
    ensures
        answers(Request::WindowSize, Reply::WindowSize(size)),
        forall|dimension: Dimension|
            #[trigger] answers(Request::Tput(dimension), Reply::<E>::Tput(output)),
        answers(Request::GetAttributes, Reply::Attributes(read)),
        forall|mode: Termios|
            #[trigger] answers(Request::SetAttributes(mode), Reply::Completed(done)),
        forall|channel: Channel, query: Query|
            #[trigger] answers(Request::Write(channel, query), Reply::Completed(done)),
        forall|channel: Channel|
            #[trigger] answers(Request::Flush(channel), Reply::Completed(done)),
        forall|filter: Filter, timeout: u64|
            #[trigger] answers(Request::Poll(filter, timeout), Reply::Polled(ready)),
        forall|filter: Filter| #[trigger] answers(Request::Read(filter), Reply::Event(event)),
{
}

/// A reader is needed no sooner than the query was flushed with success.
pub proof fn law_reader_is_needed_once_flushed<E>(
    keyboard: KeyboardPending<E>,
    cursor: CursorPending<E>,
    reply: Reply<E>,
)
    ensures
        keyboard.needs_reader(reply) || cursor.needs_reader(reply) ==> (reply matches Reply::Completed(
            Ok(_),
        )),
        keyboard.needs_reader(reply) ==> keyboard == KeyboardPending::<E>::Raw(KeyboardQuery::Flush)
            || keyboard == KeyboardPending::<E>::Bracketed(Bracket::Ask(KeyboardQuery::Flush)),
        cursor.needs_reader(reply) ==> cursor == CursorPending::<E>::Raw(CursorQuery::Flush)
            || cursor == CursorPending::<E>::Bracketed(Bracket::Ask(CursorQuery::Flush)),
{
}

} // verus!
