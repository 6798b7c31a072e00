//! What holds of raw mode holds of it by way of descriptors as well.

use crate::descriptor::{
    fd_disable_next, fd_disable_start, fd_enable_next, fd_enable_start, fd_window_size_next,
    status_result, FdDisablePending, FdEnablePending, FdReply, FdRequest, FdStep,
    FdWindowSizePending,
};
use crate::protocol::TerminalError;
use crate::size::{WindowSize, Winsize};
use vstd::prelude::*;

verus! {

/// How far switching on raw mode has come, and the prior mode of the process.
pub open spec fn fd_enable_run_from<M, E>(
    prior_mode: Option<M>,
    step: FdStep<M, FdEnablePending<M>, (), E>,
    replies: Seq<FdReply<M, E>>,
) -> (Option<M>, FdStep<M, FdEnablePending<M>, (), E>)
    decreases replies.len(),
{
    match step {
        FdStep::Ask(_, pending) if replies.len() > 0 => {
            let (mode, next) = fd_enable_next(prior_mode, pending, replies[0]);
            fd_enable_run_from(mode, next, replies.drop_first())
        },
        _ => (prior_mode, step),
    }
}

/// Each of the replies is one that is waited for when it comes.
pub open spec fn fd_enable_fits_from<M, E>(
    prior_mode: Option<M>,
    step: FdStep<M, FdEnablePending<M>, (), E>,
    replies: Seq<FdReply<M, E>>,
) -> bool
    decreases replies.len(),
{
    replies.len() > 0 ==> {
        &&& step matches FdStep::Ask(_, pending)
        &&& pending.accepts(replies[0])
        &&& prior_mode is None
        &&& ({
            let (mode, next) = fd_enable_next(prior_mode, pending, replies[0]);
            fd_enable_fits_from(mode, next, replies.drop_first())
        })
    }
}

/// How far switching off raw mode has come, and the prior mode of the process.
pub open spec fn fd_disable_run_from<M, E>(
    prior_mode: Option<M>,
    step: FdStep<M, FdDisablePending<M>, (), E>,
    replies: Seq<FdReply<M, E>>,
) -> (Option<M>, FdStep<M, FdDisablePending<M>, (), E>)
    decreases replies.len(),
{
    match step {
        FdStep::Ask(_, pending) if replies.len() > 0 => {
            let (mode, next) = fd_disable_next(prior_mode, pending, replies[0]);
            fd_disable_run_from(mode, next, replies.drop_first())
        },
        _ => (prior_mode, step),
    }
}

/// Each of the replies is one that is waited for when it comes.
pub open spec fn fd_disable_fits_from<M, E>(
    prior_mode: Option<M>,
    step: FdStep<M, FdDisablePending<M>, (), E>,
    replies: Seq<FdReply<M, E>>,
) -> bool
    decreases replies.len(),
{
    replies.len() > 0 ==> {
        &&& step matches FdStep::Ask(_, pending)
        &&& pending.accepts(replies[0])
        &&& ({
            let (mode, next) = fd_disable_next(prior_mode, pending, replies[0]);
            fd_disable_fits_from(mode, next, replies.drop_first())
        })
    }
}

/// Switching on raw mode with this prior mode, after these replies.
pub open spec fn fd_enable_run<M, E>(prior_mode: Option<M>, replies: Seq<FdReply<M, E>>) -> (
    Option<M>,
    FdStep<M, FdEnablePending<M>, (), E>,
) {
    fd_enable_run_from(prior_mode, fd_enable_start(prior_mode), replies)
}

/// The replies fit switching on raw mode.
pub open spec fn fd_enable_fits<M, E>(
    prior_mode: Option<M>,
    replies: Seq<FdReply<M, E>>,
) -> bool {
    fd_enable_fits_from(prior_mode, fd_enable_start(prior_mode), replies)
}

/// Switching off raw mode with this prior mode, after these replies.
pub open spec fn fd_disable_run<M, E>(prior_mode: Option<M>, replies: Seq<FdReply<M, E>>) -> (
    Option<M>,
    FdStep<M, FdDisablePending<M>, (), E>,
) {
    fd_disable_run_from(prior_mode, fd_disable_start(prior_mode), replies)
}

/// The replies fit switching off raw mode.
pub open spec fn fd_disable_fits<M, E>(
    prior_mode: Option<M>,
    replies: Seq<FdReply<M, E>>,
) -> bool {
    fd_disable_fits_from(prior_mode, fd_disable_start(prior_mode), replies)
}

/// Switching on raw mode where it is on, and switching it off where it is off, take no request and
/// change nothing.
pub proof fn law_fd_raw_mode_is_idempotent<M, E>(mode: M, replies: Seq<FdReply<M, E>>)
    ensures
        fd_enable_fits(Some(mode), replies) ==> replies.len() == 0 && fd_enable_run(
            Some(mode),
            replies,
        ) == (Some(mode), FdStep::<M, FdEnablePending<M>, (), E>::Done(Ok(()))),
        fd_disable_fits(None, replies) ==> replies.len() == 0 && fd_disable_run(None, replies) == (
            None::<M>,
            FdStep::<M, FdDisablePending<M>, (), E>::Done(Ok(())),
        ),
{
}

/// Where raw mode is off, switching it on either ends well, with the mode that was read as the
/// prior mode, or leaves no prior mode behind.
pub proof fn law_fd_enable_keeps_mode_only_on_success<M, E>(replies: Seq<FdReply<M, E>>)
    requires
        fd_enable_fits(None, replies),
    ensures
        ({
            let (mode, step) = fd_enable_run(None, replies);
            &&& mode is Some <==> (step matches FdStep::Done(Ok(_)))
            &&& mode is Some ==> {
                &&& replies.len() == 4
                &&& replies[1] matches FdReply::Attributes(status, read)
                &&& status != -1 && mode == Some(read)
            }
        }),
{
    reveal_with_fuel(fd_enable_run_from, 6);
    reveal_with_fuel(fd_enable_fits_from, 6);
    if replies.len() > 1 {
        let rest = replies.drop_first();
        assert(rest[0] == replies[1]);
        if replies.len() > 2 {
            assert(rest.drop_first()[0] == replies[2]);
            if replies.len() > 3 {
                assert(rest.drop_first().drop_first()[0] == replies[3]);
            }
        }
    }
}

/// Where raw mode is on, switching it off ends well with nothing left to go back to, or keeps the
/// prior mode for another attempt. The mode that it sets is exactly the prior mode.
pub proof fn law_fd_disable_forgets_mode_only_on_success<M, E>(
    mode: M,
    replies: Seq<FdReply<M, E>>,
)
    requires
        fd_disable_fits(Some(mode), replies),
    ensures
        ({
            let (after, step) = fd_disable_run(Some(mode), replies);
            &&& after is None <==> (step matches FdStep::Done(Ok(_)))
            &&& after is Some ==> after == Some(mode)
            &&& step matches FdStep::Ask(FdRequest::SetAttributes(_, set), _) ==> set == mode
        }),
{
    reveal_with_fuel(fd_disable_run_from, 4);
    reveal_with_fuel(fd_disable_fits_from, 4);
    if replies.len() > 1 {
        assert(replies.drop_first()[0] == replies[1]);
    }
}

/// One attempt at raw mode, with the replies that it gets.
pub enum FdChange<M, E> {
    /// Raw mode is to be switched on.
    Enable(Seq<FdReply<M, E>>),
    /// Raw mode is to be switched off.
    Disable(Seq<FdReply<M, E>>),
}

impl<M, E> FdChange<M, E> {
    /// The replies fit.
    pub open spec fn fits(self, prior_mode: Option<M>) -> bool {
        match self {
            FdChange::Enable(replies) => fd_enable_fits(prior_mode, replies),
            FdChange::Disable(replies) => fd_disable_fits(prior_mode, replies),
        }
    }

    /// The prior mode afterwards.
    pub open spec fn after(self, prior_mode: Option<M>) -> Option<M> {
        match self {
            FdChange::Enable(replies) => fd_enable_run(prior_mode, replies).0,
            FdChange::Disable(replies) => fd_disable_run(prior_mode, replies).0,
        }
    }

    /// Raw mode is switched on, and that succeeds, or it was on already.
    pub open spec fn switches_on(self, prior_mode: Option<M>) -> bool {
        self matches FdChange::Enable(replies) && fd_enable_run(
            prior_mode,
            replies,
        ).1 matches FdStep::Done(Ok(_))
    }

    /// Raw mode is switched off, and that succeeds.
    pub open spec fn switches_off(self, prior_mode: Option<M>) -> bool {
        self matches FdChange::Disable(replies) && fd_disable_run(
            prior_mode,
            replies,
        ).1 matches FdStep::Done(Ok(_))
    }
}

/// The prior mode of a process that was not in raw mode, after these attempts.
pub open spec fn fd_after_changes<M, E>(changes: Seq<FdChange<M, E>>) -> Option<M>
    decreases changes.len(),
{
    if changes.len() == 0 {
        None
    } else {
        changes.last().after(fd_after_changes(changes.drop_last()))
    }
}

/// The replies of each attempt fit.
pub open spec fn fd_changes_fit<M, E>(changes: Seq<FdChange<M, E>>) -> bool {
    forall|i: int|
        0 <= i < changes.len() ==> (#[trigger] changes[i]).fits(fd_after_changes(changes.take(i)))
}

/// What one attempt does to the prior mode.
proof fn lemma_fd_change<M, E>(change: FdChange<M, E>, prior_mode: Option<M>)
    requires
        change.fits(prior_mode),
    ensures
        change.switches_on(prior_mode) ==> change.after(prior_mode) is Some,
        change.switches_off(prior_mode) ==> change.after(prior_mode) is None,
        prior_mode is Some && !change.switches_off(prior_mode) ==> change.after(prior_mode)
            == prior_mode,
        prior_mode is None && !change.switches_on(prior_mode) ==> change.after(prior_mode) is None,
{
    match (change, prior_mode) {
        (FdChange::Enable(replies), Some(mode)) => law_fd_raw_mode_is_idempotent(mode, replies),
        (FdChange::Enable(replies), None) => law_fd_enable_keeps_mode_only_on_success(replies),
        (FdChange::Disable(replies), Some(mode)) => law_fd_disable_forgets_mode_only_on_success(
            mode,
            replies,
        ),
        (FdChange::Disable(replies), None) => {
            assert(fd_disable_start::<M, E>(None) is Done);
        },
    }
}

/// A mode that is kept stays the same as long as raw mode is not switched off with success.
proof fn lemma_fd_mode_stays<M, E>(changes: Seq<FdChange<M, E>>, from: int, n: int)
    requires
        fd_changes_fit(changes),
        0 <= from <= n <= changes.len(),
        fd_after_changes(changes.take(from)) is Some,
        forall|i: int|
            from <= i < changes.len() ==> !(#[trigger] changes[i]).switches_off(
                fd_after_changes(changes.take(i)),
            ),
    ensures
        fd_after_changes(changes.take(n)) == fd_after_changes(changes.take(from)),
    decreases n,
{
    if from < n {
        lemma_fd_mode_stays(changes, from, n - 1);
        assert(changes.take(n).drop_last() =~= changes.take(n - 1));
        assert(changes.take(n).last() == changes[n - 1]);
        lemma_fd_change(changes[n - 1], fd_after_changes(changes.take(n - 1)));
    }
}

/// Raw mode is on, as `is_raw_mode_enabled` tells it by the prior mode, from an attempt that switches
/// it on with success until one that switches it off with success.
pub proof fn law_fd_raw_mode_is_on_until_switched_off<M, E>(changes: Seq<FdChange<M, E>>, on: int)
    requires
        fd_changes_fit(changes),
        0 <= on < changes.len(),
        changes[on].switches_on(fd_after_changes(changes.take(on))),
        forall|i: int|
            on < i < changes.len() ==> !(#[trigger] changes[i]).switches_off(
                fd_after_changes(changes.take(i)),
            ),
    ensures
        fd_after_changes(changes) is Some,
{
    assert(changes.take(on + 1).drop_last() =~= changes.take(on));
    assert(changes.take(on + 1).last() == changes[on]);
    lemma_fd_change(changes[on], fd_after_changes(changes.take(on)));
    lemma_fd_mode_stays(changes, on + 1, changes.len() as int);
    assert(changes.take(changes.len() as int) =~= changes);
}

/// Raw mode is off, as `is_raw_mode_enabled` tells it by the prior mode, from the start and from an
/// attempt that switches it off with success, until one that switches it on with success.
pub proof fn law_fd_raw_mode_is_off_until_switched_on<M, E>(changes: Seq<FdChange<M, E>>, off: int)
    requires
        fd_changes_fit(changes),
        0 <= off <= changes.len(),
        off > 0 ==> changes[off - 1].switches_off(fd_after_changes(changes.take(off - 1))),
        forall|i: int|
            off <= i < changes.len() ==> !(#[trigger] changes[i]).switches_on(
                fd_after_changes(changes.take(i)),
            ),
    ensures
        fd_after_changes(changes) is None,
    decreases changes.len(),
{
    if changes.len() > 0 {
        let n = changes.len() - 1;
        let front = changes.drop_last();
        assert(front =~= changes.take(n));
        assert forall|i: int| 0 <= i <= n implies #[trigger] front.take(i) == changes.take(i) by {
            assert(front.take(i) =~= changes.take(i));
        }
        assert forall|i: int| 0 <= i < front.len() implies (#[trigger] front[i]).fits(
            fd_after_changes(front.take(i)),
        ) by {
            assert(front[i] == changes[i]);
        }
        lemma_fd_change(changes[n], fd_after_changes(front));
        if off <= n {
            assert forall|i: int| off <= i < front.len() implies !(#[trigger] front[i]).switches_on(
                fd_after_changes(front.take(i)),
            ) by {
                assert(front[i] == changes[i]);
            }
            law_fd_raw_mode_is_off_until_switched_on(front, off);
        }
    }
}

/// Switching off raw mode resets the mode to what it was before raw mode was first switched on.
/// That holds after every history of attempts, succeeded or failed, in which raw mode was off,
/// was switched on by the attempt `first`, which read `mode`, and has not been switched off with
/// success since.
pub proof fn law_fd_disable_restores_mode_before_first_enable<M, E>(
    mode: M,
    changes: Seq<FdChange<M, E>>,
    first: int,
    read: i32,
    fd: i32,
    status: i32,
)
    requires
        fd_changes_fit(changes),
        0 <= first < changes.len(),
        fd_after_changes(changes.take(first)) is None,
        changes[first].switches_on(None),
        changes[first]->Enable_0[1] == FdReply::<M, E>::Attributes(read, mode),
        forall|i: int|
            first < i < changes.len() ==> !(#[trigger] changes[i]).switches_off(
                fd_after_changes(changes.take(i)),
            ),
        status != -1,
    ensures
        fd_disable_start::<M, E>(fd_after_changes(changes)) == FdStep::<
            M,
            FdDisablePending<M>,
            (),
            E,
        >::Ask(FdRequest::TtyFd, FdDisablePending::Open(mode)),
        fd_disable_run(fd_after_changes(changes), seq![FdReply::<M, E>::Opened(Ok(fd))]).1
            == FdStep::<M, FdDisablePending<M>, (), E>::Ask(
            FdRequest::SetAttributes(fd, mode),
            FdDisablePending::Restore,
        ),
        fd_disable_run(
            fd_after_changes(changes),
            seq![FdReply::<M, E>::Opened(Ok(fd)), FdReply::<M, E>::Status(status)],
        ).0 is None,
{
    assert(changes.take(first + 1).drop_last() =~= changes.take(first));
    assert(changes.take(first + 1).last() == changes[first]);
    assert(changes[first].fits(None));
    law_fd_enable_keeps_mode_only_on_success(changes[first]->Enable_0);
    lemma_fd_mode_stays(changes, first + 1, changes.len() as int);
    assert(changes.take(changes.len() as int) =~= changes);
    lemma_fd_restore::<M, E>(mode, fd, status);
}

proof fn lemma_fd_restore<M, E>(mode: M, fd: i32, status: i32)
    requires
        status != -1,
    ensures
        fd_disable_run(Some(mode), seq![FdReply::<M, E>::Opened(Ok(fd))]).1 == FdStep::<
            M,
            FdDisablePending<M>,
            (),
            E,
        >::Ask(FdRequest::SetAttributes(fd, mode), FdDisablePending::Restore),
        fd_disable_run(
            Some(mode),
            seq![FdReply::<M, E>::Opened(Ok(fd)), FdReply::<M, E>::Status(status)],
        ).0 is None,
{
    reveal_with_fuel(fd_disable_run_from, 4);
    let replies = seq![FdReply::<M, E>::Opened(Ok(fd)), FdReply::<M, E>::Status(status)];
    assert(replies.drop_first()[0] == replies[1]);
}

/// The step asks for this request.
pub open spec fn fd_asks<M, P, T, E>(step: FdStep<M, P, T, E>, request: FdRequest<M>) -> bool {
    step matches FdStep::Ask(asked, _) && asked == request
}

/// The step is the end, with this outcome.
pub open spec fn fd_ends<M, P, T, E>(
    step: FdStep<M, P, T, E>,
    outcome: Result<T, TerminalError<E>>,
) -> bool {
    step matches FdStep::Done(end) && end == outcome
}

/// A C call failed exactly where its status is -1, and the reason is the last error of the operating
/// system.
pub proof fn law_only_minus_one_is_failure<E>(status: i32)
    ensures
        status == -1 ==> status_result::<E>(status) == Err::<(), TerminalError<E>>(
            TerminalError::LastOs,
        ),
        status != -1 ==> status_result::<E>(status) == Ok::<(), TerminalError<E>>(()),
{
}

/// How far reading the window size has come, from this step.
pub open spec fn fd_window_size_run_from<M, E>(
    step: FdStep<M, FdWindowSizePending, WindowSize, E>,
    replies: Seq<FdReply<M, E>>,
) -> FdStep<M, FdWindowSizePending, WindowSize, E>
    decreases replies.len(),
{
    match step {
        FdStep::Ask(_, pending) if replies.len() > 0 => fd_window_size_run_from(
            fd_window_size_next(pending, replies[0]),
            replies.drop_first(),
        ),
        _ => step,
    }
}

/// Reading the window size, after these replies.
pub open spec fn fd_window_size_run<M, E>(replies: Seq<FdReply<M, E>>) -> FdStep<
    M,
    FdWindowSizePending,
    WindowSize,
    E,
> {
    fd_window_size_run_from(FdStep::Ask(FdRequest::OpenTty, FdWindowSizePending::Open), replies)
}

/// The window size is read by the descriptor that was opened, or by that of the standard output, into
/// an empty size. It is an error exactly where the status is -1; else it is the one that was
/// reported, field by field, whatever the numbers.
pub proof fn law_fd_window_size_is_the_report<M, E>(
    opened: Result<i32, E>,
    status: i32,
    size: Winsize,
)
    ensures
        ({
            let open = FdReply::<M, E>::Opened(opened);
            let read = FdReply::<M, E>::WindowSize(status, size);
            let fd: i32 = match opened {
                Ok(fd) => fd,
                Err(_) => 1,
            };
            let empty = Winsize { ws_row: 0, ws_col: 0, ws_xpixel: 0, ws_ypixel: 0 };
            &&& FdWindowSizePending::Open.accepts(open)
            &&& FdWindowSizePending::Read.accepts(read)
            &&& fd_asks(fd_window_size_run::<M, E>(seq![]), FdRequest::OpenTty)
            &&& fd_asks(fd_window_size_run(seq![open]), FdRequest::WindowSize(fd, empty))
            &&& match fd_window_size_run(seq![open, read]) {
                FdStep::Done(Ok(window)) => {
                    &&& status != -1
                    &&& window.columns == size.ws_col && window.rows == size.ws_row
                    &&& window.width == size.ws_xpixel && window.height == size.ws_ypixel
                },
                FdStep::Done(Err(e)) => status == -1 && e == TerminalError::<E>::LastOs,
                FdStep::Ask(_, _) => false,
            }
        }),
{
    reveal_with_fuel(fd_window_size_run_from, 3);
    let open = FdReply::<M, E>::Opened(opened);
    let read = FdReply::<M, E>::WindowSize(status, size);
    assert(seq![open].drop_first().len() == 0);
    assert(seq![open, read].drop_first() =~= seq![read]);
    assert(seq![read].drop_first().len() == 0);
}

/// Switching on raw mode finds a descriptor, reads the mode by it, makes that mode raw, and sets what
/// came of that by the same descriptor. The first failure is the end; with none, the mode that was
/// read is the one to go back to. Where raw mode is on, it ends well at once.
pub proof fn law_fd_enable_run<M, E>(prior_mode: Option<M>, replies: Seq<FdReply<M, E>>)
    requires
        fd_enable_fits(prior_mode, replies),
    ensures
        ({
            let (kept, step) = fd_enable_run(prior_mode, replies);
            if prior_mode is Some {
                replies.len() == 0 && kept == prior_mode && fd_ends(step, Ok(()))
            } else if replies.len() == 0 {
                kept is None && fd_asks(step, FdRequest::TtyFd)
            } else {
                match replies[0] {
                    FdReply::Opened(Err(e)) => {
                        &&& replies.len() == 1
                        &&& kept is None
                        &&& fd_ends(step, Err(TerminalError::Os(e)))
                    },
                    FdReply::Opened(Ok(fd)) => if replies.len() == 1 {
                        kept is None && fd_asks(step, FdRequest::GetAttributes(fd))
                    } else {
                        &&& replies[1] matches FdReply::Attributes(read_status, mode)
                        &&& if read_status == -1 {
                            &&& replies.len() == 2
                            &&& kept is None
                            &&& fd_ends(step, Err(TerminalError::LastOs))
                        } else if replies.len() == 2 {
                            kept is None && fd_asks(step, FdRequest::MakeRaw(mode))
                        } else {
                            &&& replies[2] matches FdReply::Raw(raw)
                            &&& if replies.len() == 3 {
                                kept is None && fd_asks(step, FdRequest::SetAttributes(fd, raw))
                            } else {
                                &&& replies.len() == 4
                                &&& replies[3] matches FdReply::Status(status)
                                &&& if status == -1 {
                                    kept is None && fd_ends(step, Err(TerminalError::LastOs))
                                } else {
                                    kept == Some(mode) && fd_ends(step, Ok(()))
                                }
                            }
                        }
                    },
                    _ => false,
                }
            }
        }),
{
    reveal_with_fuel(fd_enable_run_from, 6);
    reveal_with_fuel(fd_enable_fits_from, 6);
    if replies.len() > 1 {
        let rest = replies.drop_first();
        assert(rest[0] == replies[1]);
        if replies.len() > 2 {
            assert(rest.drop_first()[0] == replies[2]);
            if replies.len() > 3 {
                assert(rest.drop_first().drop_first()[0] == replies[3]);
            }
        }
    }
}

/// Switching off raw mode finds a descriptor and sets the prior mode by it. It ends well, with no mode
/// to go back to, exactly where both succeed; else it ends with the failure, and keeps the mode.
/// Where raw mode is off, it ends well at once.
pub proof fn law_fd_disable_run<M, E>(prior_mode: Option<M>, replies: Seq<FdReply<M, E>>)
    requires
        fd_disable_fits(prior_mode, replies),
    ensures
        ({
            let (kept, step) = fd_disable_run(prior_mode, replies);
            match prior_mode {
                None => replies.len() == 0 && kept is None && fd_ends(step, Ok(())),
                Some(mode) => if replies.len() == 0 {
                    kept == prior_mode && fd_asks(step, FdRequest::TtyFd)
                } else {
                    match replies[0] {
                        FdReply::Opened(Err(e)) => {
                            &&& replies.len() == 1
                            &&& kept == prior_mode
                            &&& fd_ends(step, Err(TerminalError::Os(e)))
                        },
                        FdReply::Opened(Ok(fd)) => if replies.len() == 1 {
                            kept == prior_mode && fd_asks(step, FdRequest::SetAttributes(fd, mode))
                        } else {
                            &&& replies.len() == 2
                            &&& replies[1] matches FdReply::Status(status)
                            &&& if status == -1 {
                                kept == prior_mode && fd_ends(step, Err(TerminalError::LastOs))
                            } else {
                                kept is None && fd_ends(step, Ok(()))
                            }
                        },
                        _ => false,
                    }
                },
            }
        }),
{
    reveal_with_fuel(fd_disable_run_from, 4);
    reveal_with_fuel(fd_disable_fits_from, 4);
    if replies.len() > 1 {
        assert(replies.drop_first()[0] == replies[1]);
    }
}

/// Whatever comes of a request while raw mode is switched on or off, the operation goes on with it.
pub proof fn law_fd_raw_mode_goes_on<M, E>(
    prior_mode: Option<M>,
    replies: Seq<FdReply<M, E>>,
    opened: Result<i32, E>,
    status: i32,
    mode: M,
)
    ensures
        fd_enable_fits(prior_mode, replies) ==> match fd_enable_run(prior_mode, replies).1 {
            FdStep::Ask(FdRequest::TtyFd, pending) => pending.accepts(
                FdReply::<M, E>::Opened(opened),
            ),
            FdStep::Ask(FdRequest::GetAttributes(_), pending) => pending.accepts(
                FdReply::<M, E>::Attributes(status, mode),
            ),
            FdStep::Ask(FdRequest::MakeRaw(_), pending) => pending.accepts(
                FdReply::<M, E>::Raw(mode),
            ),
            FdStep::Ask(FdRequest::SetAttributes(_, _), pending) => pending.accepts(
                FdReply::<M, E>::Status(status),
            ),
            FdStep::Ask(_, _) => false,
            FdStep::Done(_) => true,
        },
        fd_disable_fits(prior_mode, replies) ==> match fd_disable_run(prior_mode, replies).1 {
            FdStep::Ask(FdRequest::TtyFd, pending) => pending.accepts(
                FdReply::<M, E>::Opened(opened),
            ),
            FdStep::Ask(FdRequest::SetAttributes(_, _), pending) => pending.accepts(
                FdReply::<M, E>::Status(status),
            ),
            FdStep::Ask(_, _) => false,
            FdStep::Done(_) => true,
        },
{
    reveal_with_fuel(fd_enable_run_from, 6);
    reveal_with_fuel(fd_enable_fits_from, 6);
    reveal_with_fuel(fd_disable_run_from, 4);
    reveal_with_fuel(fd_disable_fits_from, 4);
}

/// Switching off raw mode goes on by what it waits for and the reply alone. The prior mode has no say
/// in it; it is forgotten at a good end, and kept else.
pub proof fn law_fd_disable_goes_by_reply<M, E>(
    a: Option<M>,
    b: Option<M>,
    pending: FdDisablePending<M>,
    reply: FdReply<M, E>,
)
    requires
        pending.accepts(reply),
    ensures
        fd_disable_next(a, pending, reply).1 == fd_disable_next(b, pending, reply).1,
        fd_disable_next(a, pending, reply).0 == if fd_disable_next(
            a,
            pending,
            reply,
        ).1 matches FdStep::Done(Ok(_)) {
            None
        } else {
            a
        },
{
}

} // verus!
