//! Raw mode is switched on and off without losing the mode to go back to.

use crate::laws::{disable_rules, enable_rules, Rules, State};
use crate::protocol::{Reply, Request, Step};
use crate::terminal::{disable_start, enable_start, DisablePending, EnablePending};
use rustix::termios::Termios;
use vstd::prelude::*;

verus! {

/// Switching on raw mode on a terminal with this prior mode, after these replies.
pub open spec fn enable_run<E>(prior_mode: Option<Termios>, replies: Seq<Reply<E>>) -> State<
    EnablePending,
    (),
    E,
> {
    enable_rules().run(State { prior_mode, step: enable_start::<E>(prior_mode) }, replies)
}

/// The replies fit switching on raw mode.
pub open spec fn enable_fits<E>(prior_mode: Option<Termios>, replies: Seq<Reply<E>>) -> bool {
    enable_rules().fits(State { prior_mode, step: enable_start::<E>(prior_mode) }, replies)
}

/// Switching off raw mode on a terminal with this prior mode, after these replies.
pub open spec fn disable_run<E>(prior_mode: Option<Termios>, replies: Seq<Reply<E>>) -> State<
    DisablePending,
    (),
    E,
> {
    disable_rules().run(State { prior_mode, step: disable_start::<E>(prior_mode) }, replies)
}

/// The replies fit switching off raw mode.
pub open spec fn disable_fits<E>(prior_mode: Option<Termios>, replies: Seq<Reply<E>>) -> bool {
    disable_rules().fits(State { prior_mode, step: disable_start::<E>(prior_mode) }, replies)
}

/// Where raw mode is off, switching it on either ends well, with the mode that was read as the
/// prior mode, or leaves the terminal as it was.
pub proof fn law_enable_keeps_mode_only_on_success<E>(replies: Seq<Reply<E>>)
    requires
        enable_fits(None, replies),
    ensures
        ({
            let end = enable_run(None, replies);
            &&& end.prior_mode is Some <==> (end.step matches Step::Done(Ok(_)))
            &&& end.prior_mode is Some ==> {
                &&& replies.len() == 2
                &&& replies[0] == Reply::<E>::Attributes(Ok(end.prior_mode->0))
                &&& (replies[1] matches Reply::Completed(Ok(_)))
            }
        }),
{
    let rules = enable_rules::<E>();
    let start = State { prior_mode: None::<Termios>, step: enable_start::<E>(None) };
    reveal_with_fuel(Rules::fits, 4);
    reveal_with_fuel(Rules::run, 4);
    if replies.len() > 0 {
        let one = rules.after(start, replies[0]);
        let rest = replies.drop_first();
        if rest.len() > 0 {
            assert(rest[0] == replies[1]);
            let two = rules.after(one, rest[0]);
            assert(two.step is Done);
            assert(rest.drop_first().len() == 0);
        }
    }
}

/// Switching on raw mode where it is on takes no request and changes nothing.
pub proof fn law_enable_is_idempotent<E>(mode: Termios, replies: Seq<Reply<E>>)
    requires
        enable_fits(Some(mode), replies),
    ensures
        replies.len() == 0,
        enable_run(Some(mode), replies) == (State::<EnablePending, (), E> {
            prior_mode: Some(mode),
            step: Step::Done(Ok(())),
        }),
{
}

/// Where raw mode is on, switching it off asks for exactly the prior mode. It ends well with
/// nothing left to go back to, or keeps the prior mode for another attempt.
pub proof fn law_disable_forgets_mode_only_on_success<E>(mode: Termios, replies: Seq<Reply<E>>)
    requires
        disable_fits(Some(mode), replies),
    ensures
        disable_start::<E>(Some(mode)) == Step::<DisablePending, (), E>::Ask(
            Request::SetAttributes(mode),
            DisablePending,
        ),
        ({
            let end = disable_run(Some(mode), replies);
            &&& end.prior_mode is None <==> (end.step matches Step::Done(Ok(_)))
            &&& end.prior_mode is Some ==> end.prior_mode == Some(mode)
            &&& end.step is Done <==> replies.len() == 1
        }),
{
    reveal_with_fuel(Rules::fits, 3);
    reveal_with_fuel(Rules::run, 3);
}

/// Switching off raw mode where it is off takes no request and changes nothing.
pub proof fn law_disable_is_idempotent<E>(replies: Seq<Reply<E>>)
    requires
        disable_fits(None, replies),
    ensures
        replies.len() == 0,
        disable_run(None, replies) == (State::<DisablePending, (), E> {
            prior_mode: None,
            step: Step::Done(Ok(())),
        }),
{
}

/// One attempt at raw mode, with the replies that it gets.
pub enum Change<E> {
    /// Raw mode is to be switched on.
    Enable(Seq<Reply<E>>),
    /// Raw mode is to be switched off.
    Disable(Seq<Reply<E>>),
}

impl<E> Change<E> {
    /// The replies fit.
    pub open spec fn fits(self, prior_mode: Option<Termios>) -> bool {
        match self {
            Change::Enable(replies) => enable_fits(prior_mode, replies),
            Change::Disable(replies) => disable_fits(prior_mode, replies),
        }
    }

    /// The prior mode afterwards.
    pub open spec fn after(self, prior_mode: Option<Termios>) -> Option<Termios> {
        match self {
            Change::Enable(replies) => enable_run(prior_mode, replies).prior_mode,
            Change::Disable(replies) => disable_run(prior_mode, replies).prior_mode,
        }
    }

    /// Raw mode is switched on, and that succeeds, or it was on already.
    pub open spec fn switches_on(self, prior_mode: Option<Termios>) -> bool {
        self matches Change::Enable(replies) && enable_run(
            prior_mode,
            replies,
        ).step matches Step::Done(Ok(_))
    }

    /// Raw mode is switched off, and that succeeds.
    pub open spec fn switches_off(self, prior_mode: Option<Termios>) -> bool {
        self matches Change::Disable(replies) && disable_run(
            prior_mode,
            replies,
        ).step matches Step::Done(Ok(_))
    }
}

/// The prior mode of a terminal that was not in raw mode, after these attempts.
pub open spec fn after_changes<E>(changes: Seq<Change<E>>) -> Option<Termios>
    decreases changes.len(),
{
    if changes.len() == 0 {
        None
    } else {
        changes.last().after(after_changes(changes.drop_last()))
    }
}

/// The replies of each attempt fit.
pub open spec fn changes_fit<E>(changes: Seq<Change<E>>) -> bool {
    forall|i: int|
        0 <= i < changes.len() ==> (#[trigger] changes[i]).fits(after_changes(changes.take(i)))
}

/// What one attempt does to the prior mode.
proof fn lemma_change<E>(change: Change<E>, prior_mode: Option<Termios>)
    requires
        change.fits(prior_mode),
    ensures
        change.switches_on(prior_mode) ==> change.after(prior_mode) is Some,
        change.switches_off(prior_mode) ==> change.after(prior_mode) is None,
        prior_mode is Some && !change.switches_off(prior_mode) ==> change.after(prior_mode)
            == prior_mode,
        prior_mode is None && !change.switches_on(prior_mode) ==> change.after(prior_mode) is None,
{
    match (change, prior_mode) {
        (Change::Enable(replies), Some(mode)) => law_enable_is_idempotent(mode, replies),
        (Change::Enable(replies), None) => law_enable_keeps_mode_only_on_success(replies),
        (Change::Disable(replies), Some(mode)) => law_disable_forgets_mode_only_on_success(
            mode,
            replies,
        ),
        (Change::Disable(replies), None) => law_disable_is_idempotent(replies),
    }
}

/// A mode that is kept stays the same as long as raw mode is not switched off with success.
proof fn lemma_mode_stays<E>(changes: Seq<Change<E>>, from: int, n: int)
    requires
        changes_fit(changes),
        0 <= from <= n <= changes.len(),
        after_changes(changes.take(from)) is Some,
        forall|i: int|
            from <= i < changes.len() ==> !(#[trigger] changes[i]).switches_off(
                after_changes(changes.take(i)),
            ),
    ensures
        after_changes(changes.take(n)) == after_changes(changes.take(from)),
    decreases n,
{
    if from < n {
        lemma_mode_stays(changes, from, n - 1);
        assert(changes.take(n).drop_last() =~= changes.take(n - 1));
        assert(changes.take(n).last() == changes[n - 1]);
        lemma_change(changes[n - 1], after_changes(changes.take(n - 1)));
    }
}

/// Raw mode is on, as `is_raw_mode_enabled` tells it by the prior mode, from an attempt that switches
/// it on with success until one that switches it off with success.
pub proof fn law_raw_mode_is_on_until_switched_off<E>(changes: Seq<Change<E>>, on: int)
    requires
        changes_fit(changes),
        0 <= on < changes.len(),
        changes[on].switches_on(after_changes(changes.take(on))),
        forall|i: int|
            on < i < changes.len() ==> !(#[trigger] changes[i]).switches_off(
                after_changes(changes.take(i)),
            ),
    ensures
        after_changes(changes) is Some,
{
    assert(changes.take(on + 1).drop_last() =~= changes.take(on));
    assert(changes.take(on + 1).last() == changes[on]);
    lemma_change(changes[on], after_changes(changes.take(on)));
    lemma_mode_stays(changes, on + 1, changes.len() as int);
    assert(changes.take(changes.len() as int) =~= changes);
}

/// Raw mode is off, as `is_raw_mode_enabled` tells it by the prior mode, from the start and from an
/// attempt that switches it off with success, until one that switches it on with success.
pub proof fn law_raw_mode_is_off_until_switched_on<E>(changes: Seq<Change<E>>, off: int)
    requires
        changes_fit(changes),
        0 <= off <= changes.len(),
        off > 0 ==> changes[off - 1].switches_off(after_changes(changes.take(off - 1))),
        forall|i: int|
            off <= i < changes.len() ==> !(#[trigger] changes[i]).switches_on(
                after_changes(changes.take(i)),
            ),
    ensures
        after_changes(changes) is None,
    decreases changes.len(),
{
    if changes.len() > 0 {
        let n = changes.len() - 1;
        let front = changes.drop_last();
        assert(front =~= changes.take(n));
        assert forall|i: int| 0 <= i <= n implies #[trigger] front.take(i) == changes.take(i) by {
            assert(front.take(i) =~= changes.take(i));
        }
        assert forall|i: int| 0 <= i < front.len() implies (#[trigger] front[i]).fits(
            after_changes(front.take(i)),
        ) by {
            assert(front[i] == changes[i]);
        }
        lemma_change(changes[n], after_changes(front));
        if off <= n {
            assert forall|i: int| off <= i < front.len() implies !(#[trigger] front[i]).switches_on(
                after_changes(front.take(i)),
            ) by {
                assert(front[i] == changes[i]);
            }
            law_raw_mode_is_off_until_switched_on(front, off);
        }
    }
}

/// Switching off raw mode resets the mode to what it was before raw mode was first switched on.
/// That holds after every history of attempts, succeeded or failed, in which raw mode was off,
/// was switched on by the attempt `first`, which read `mode`, and has not been switched off with
/// success since.
pub proof fn law_disable_restores_mode_before_first_enable<E>(
    mode: Termios,
    changes: Seq<Change<E>>,
    first: int,
)
    requires
        changes_fit(changes),
        0 <= first < changes.len(),
        after_changes(changes.take(first)) is None,
        changes[first].switches_on(None),
        changes[first]->Enable_0[0] == Reply::<E>::Attributes(Ok(mode)),
        forall|i: int|
            first < i < changes.len() ==> !(#[trigger] changes[i]).switches_off(
                after_changes(changes.take(i)),
            ),
    ensures
        disable_start::<E>(after_changes(changes)) == Step::<DisablePending, (), E>::Ask(
            Request::SetAttributes(mode),
            DisablePending,
        ),
        disable_run(
            after_changes(changes),
            seq![Reply::<E>::Completed(Ok(()))],
        ).prior_mode is None,
{
    assert(changes.take(first + 1).drop_last() =~= changes.take(first));
    assert(changes.take(first + 1).last() == changes[first]);
    assert(changes[first].fits(None));
    law_enable_keeps_mode_only_on_success(changes[first]->Enable_0);
    lemma_mode_stays(changes, first + 1, changes.len() as int);
    assert(changes.take(changes.len() as int) =~= changes);
    reveal_with_fuel(Rules::run, 3);
}

} // verus!
