//! The size in columns and rows is that of the window, or the one that `tput` prints.

use crate::protocol::{answers, Dimension, Reply, Request, Step, TerminalError};
use crate::size::{
    digits, is_digit, law_tput_dimension_is_the_number, law_tput_reads_printed_number,
    tput_dimension, Winsize,
};
use crate::terminal::{size_next, window_size_next, SizePending, WindowSizePending};
use vstd::prelude::*;

verus! {

/// Where the window size can be read, the size is its columns and rows, and `tput` is not run.
pub proof fn law_size_is_that_of_window<E>(size: Winsize)
    ensures
        ({
            let reply = Reply::<E>::WindowSize(Ok(size));
            &&& window_size_next(reply) matches Step::Done(Ok(window))
            &&& size_next(SizePending::Window(WindowSizePending), reply) == Step::<
                SizePending,
                (u16, u16),
                E,
            >::Done(Ok((window.columns, window.rows)))
        }),
{
}

/// What is reported of the window is what comes out, field by field, whatever the numbers: all four
/// for the window size, columns and rows for the size.
pub proof fn law_size_is_the_report<E>(size: Winsize)
    ensures
        ({
            let reply = Reply::<E>::WindowSize(Ok(size));
            &&& answers(Request::WindowSize, reply)
            &&& SizePending::Window(WindowSizePending).accepts(reply)
            &&& window_size_next(reply) matches Step::Done(Ok(window))
            &&& window.columns == size.ws_col && window.rows == size.ws_row
            &&& window.width == size.ws_xpixel && window.height == size.ws_ypixel
            &&& size_next(SizePending::Window(WindowSizePending), reply) matches Step::Done(
                Ok((columns, rows)),
            )
            &&& columns == size.ws_col && rows == size.ws_row
        }),
{
}

/// A window size that cannot be read is an error of the window size, with its reason, and never one
/// of the size, which goes on with the columns that `tput` prints.
pub proof fn law_size_outlives_failure<E>(error: E)
    ensures
        ({
            let reply = Reply::WindowSize(Err(error));
            &&& answers(Request::WindowSize, reply)
            &&& SizePending::Window(WindowSizePending).accepts(reply)
            &&& window_size_next(reply) matches Step::Done(Err(TerminalError::Os(e))) && e == error
            &&& size_next(SizePending::Window(WindowSizePending), reply) matches Step::Ask(
                Request::Tput(Dimension::Columns),
                SizePending::Columns,
            )
        }),
{
}

/// The columns that `tput` printed are kept while it is run for the lines. With both there is a size,
/// columns first; else the error is the last one of the operating system.
pub proof fn law_size_takes_columns_then_lines<E>(columns: Option<u16>, output: Option<Vec<u8>>)
    ensures
        ({
            let reply = Reply::<E>::Tput(output);
            &&& SizePending::Columns.accepts(reply)
            &&& SizePending::Lines(columns).accepts(reply)
            &&& size_next(SizePending::Columns, reply) matches Step::Ask(
                Request::Tput(Dimension::Lines),
                SizePending::Lines(known),
            ) && known == tput_dimension(output)
            &&& match size_next(SizePending::Lines(columns), reply) {
                Step::Done(Ok((w, h))) => columns == Some(w) && tput_dimension(output) == Some(h),
                Step::Done(Err(TerminalError::LastOs)) => columns is None || tput_dimension(
                    output,
                ) is None,
                _ => false,
            }
        }),
{
}

/// The end of finding out the size by `tput`.
pub open spec fn tput_run<E>(
    error: E,
    columns: Option<Vec<u8>>,
    lines: Option<Vec<u8>>,
) -> Step<SizePending, (u16, u16), E> {
    match size_next(
        SizePending::Window(WindowSizePending),
        Reply::WindowSize(Err(error)),
    ) {
        Step::Ask(Request::Tput(Dimension::Columns), pending) => match size_next(
            pending,
            Reply::<E>::Tput(columns),
        ) {
            Step::Ask(Request::Tput(Dimension::Lines), pending) => size_next(
                pending,
                Reply::<E>::Tput(lines),
            ),
            step => step,
        },
        step => step,
    }
}

/// Where the window size cannot be read, both dimensions are asked of `tput`. A size that comes of
/// it has no zero in it, and there is one exactly where both dimensions are printed.
pub proof fn law_size_falls_back_on_tput<E>(
    error: E,
    columns: Option<Vec<u8>>,
    lines: Option<Vec<u8>>,
)
    ensures
        match tput_run(error, columns, lines) {
            Step::Done(Ok((w, h))) => {
                &&& tput_dimension(columns) == Some(w)
                &&& tput_dimension(lines) == Some(h)
                &&& w > 0 && h > 0
            },
            Step::Done(Err(e)) => {
                &&& e == TerminalError::<E>::LastOs
                &&& tput_dimension(columns) is None || tput_dimension(lines) is None
            },
            Step::Ask(_, _) => false,
        },
{
    law_tput_dimension_is_the_number(columns);
    law_tput_dimension_is_the_number(lines);
}

/// A size that is printed in decimal is the size that comes of it.
pub proof fn law_size_is_the_printed_one<E>(
    error: E,
    size: (u16, u16),
    columns: Vec<u8>,
    lines: Vec<u8>,
    columns_tail: Seq<u8>,
    lines_tail: Seq<u8>,
)
    requires
        size.0 > 0,
        size.1 > 0,
        columns@ == digits(size.0 as nat) + columns_tail,
        lines@ == digits(size.1 as nat) + lines_tail,
        forall|i: int| 0 <= i < columns_tail.len() ==> !is_digit(#[trigger] columns_tail[i]),
        forall|i: int| 0 <= i < lines_tail.len() ==> !is_digit(#[trigger] lines_tail[i]),
    ensures
        tput_run(error, Some(columns), Some(lines)) == Step::<SizePending, (u16, u16), E>::Done(
            Ok(size),
        ),
{
    law_tput_reads_printed_number(size.0 as nat, columns_tail);
    law_tput_reads_printed_number(size.1 as nat, lines_tail);
}

} // verus!
