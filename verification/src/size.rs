//! The size of the terminal window, as the kernel reports it and as `tput` prints it.

use vstd::prelude::*;

verus! {

/// A window size in the order of the kernel's `struct winsize`.
#[derive(Clone, Copy, Debug, PartialEq, Eq, Structural)]
pub struct Winsize {
    pub ws_row: u16,
    pub ws_col: u16,
    pub ws_xpixel: u16,
    pub ws_ypixel: u16,
}

/// The size of the terminal window, in cells and in pixels.
#[derive(Clone, Copy, Debug, PartialEq, Eq, Structural)]
pub struct WindowSize {
    pub rows: u16,
    pub columns: u16,
    pub width: u16,
    pub height: u16,
}

impl From<Winsize> for WindowSize {
    fn from(size: Winsize) -> (r: WindowSize) {
        WindowSize {
            columns: size.ws_col,
            rows: size.ws_row,
            width: size.ws_xpixel,
            height: size.ws_ypixel,
        }
    }
}

impl vstd::std_specs::convert::FromSpecImpl<Winsize> for WindowSize {
    open spec fn obeys_from_spec() -> bool {
        true
    }

    open spec fn from_spec(size: Winsize) -> WindowSize {
        window_size_of(size)
    }
}

/// The window size that `size` reports.
pub open spec fn window_size_of(size: Winsize) -> WindowSize {
    WindowSize {
        columns: size.ws_col,
        rows: size.ws_row,
        width: size.ws_xpixel,
        height: size.ws_ypixel,
    }
}

/// Nothing of the report is lost: different reports are different window sizes.
pub proof fn law_window_size_is_lossless(a: Winsize, b: Winsize)
    ensures
        window_size_of(a) == window_size_of(b) <==> a == b,
{
}

/// Each number of the report keeps its meaning: columns and rows of cells, width and height in
/// pixels. The conversion says the same.
pub proof fn law_window_size_is_the_report(size: Winsize)
    ensures
        window_size_of(size).columns == size.ws_col,
        window_size_of(size).rows == size.ws_row,
        window_size_of(size).width == size.ws_xpixel,
        window_size_of(size).height == size.ws_ypixel,
        <WindowSize as vstd::std_specs::convert::FromSpec<Winsize>>::from_spec(size)
            == window_size_of(size),
        <WindowSize as vstd::std_specs::convert::FromSpec<Winsize>>::obeys_from_spec(),
{
}

/// `b` is the code of a decimal digit.
pub open spec fn is_digit(b: u8) -> bool {
    0x30 <= b <= 0x39
}

/// The number that the decimal digits among `bytes` spell; other bytes count for nothing.
pub open spec fn decimal(bytes: Seq<u8>) -> nat
    decreases bytes.len(),
{
    if bytes.len() == 0 {
        0
    } else if is_digit(bytes.last()) {
        decimal(bytes.drop_last()) * 10 + (bytes.last() - 0x30) as nat
    } else {
        decimal(bytes.drop_last())
    }
}

/// The dimension printed by `tput`: a positive number that fits in 16 bits, or nothing.
pub open spec fn tput_dimension(output: Option<Vec<u8>>) -> Option<u16> {
    match output {
        Some(bytes) => if 0 < decimal(bytes@) <= u16::MAX {
            Some(decimal(bytes@) as u16)
        } else {
            None
        },
        None => None,
    }
}

/// Two dimensions make a size when both are there.
pub open spec fn both_dimensions(columns: Option<u16>, lines: Option<u16>) -> Option<(u16, u16)> {
    match (columns, lines) {
        (Some(w), Some(h)) => Some((w, h)),
        _ => None,
    }
}

/// A longer output never spells a smaller number.
proof fn lemma_decimal_grows(bytes: Seq<u8>, n: int)
    requires
        0 <= n <= bytes.len(),
    ensures
        decimal(bytes.take(n)) <= decimal(bytes),
    decreases bytes.len(),
{
    if n == bytes.len() {
        assert(bytes.take(n) =~= bytes);
    } else {
        lemma_decimal_grows(bytes.drop_last(), n);
        assert(bytes.drop_last().take(n) =~= bytes.take(n));
    }
}

/// The dimension in what `tput` printed, which is `None` where the command could not be run.
///
/// The decimal digits of the output are read as one number; there is no dimension where that
/// number is zero or does not fit in 16 bits.
pub fn tput_value(output: &Option<Vec<u8>>) -> (r: Option<u16>)
    ensures
        r == tput_dimension(*output),
{
    match output {
        None => None,
        Some(bytes) => {
            let mut value: u32 = 0;
            let mut i: usize = 0;
            while i < bytes.len()
                invariant
                    *output == Some(*bytes),
                    0 <= i <= bytes.len(),
                    value == decimal(bytes@.take(i as int)),
                    value <= u16::MAX,
                decreases bytes.len() - i,
            {
                let b: u8 = bytes[i];
                proof {
                    lemma_decimal_grows(bytes@, i + 1);
                    assert(bytes@.take(i + 1).drop_last() =~= bytes@.take(i as int));
                }
                if 0x30 <= b && b <= 0x39 {
                    value = value * 10 + (b - 0x30) as u32;
                    if value > 0xFFFF {
                        return None;
                    }
                }
                i = i + 1;
            }
            assert(bytes@.take(i as int) =~= bytes@);
            if value > 0 {
                Some(value as u16)
            } else {
                None
            }
        },
    }
}

/// The size of the screen, from the columns and the lines that `tput` printed.
pub fn tput_size(columns: Option<u16>, lines: Option<u16>) -> (r: Option<(u16, u16)>)
    ensures
        r == both_dimensions(columns, lines),
{
    match (columns, lines) {
        (Some(w), Some(h)) => Some((w, h)),
        _ => None,
    }
}

/// The decimal digits of `n`, most significant first.
pub open spec fn digits(n: nat) -> Seq<u8>
    decreases n,
{
    if n < 10 {
        seq![(0x30 + n) as u8]
    } else {
        digits(n / 10).push((0x30 + n % 10) as u8)
    }
}

/// The bytes of `bytes` that are decimal digits.
pub open spec fn only_digits(bytes: Seq<u8>) -> Seq<u8> {
    bytes.filter(|b: u8| is_digit(b))
}

/// Bytes that are no digits, such as a newline, make no difference.
pub proof fn law_tput_ignores_other_bytes(bytes: Seq<u8>)
    ensures
        decimal(bytes) == decimal(only_digits(bytes)),
    decreases bytes.len(),
{
    reveal(Seq::filter);
    if bytes.len() > 0 {
        law_tput_ignores_other_bytes(bytes.drop_last());
        let kept = only_digits(bytes.drop_last());
        if is_digit(bytes.last()) {
            assert(only_digits(bytes) =~= kept.push(bytes.last()));
            assert(kept.push(bytes.last()).drop_last() =~= kept);
        } else {
            assert(only_digits(bytes) =~= kept);
        }
    }
}

/// One more byte appends its digit to the number, or changes nothing where it is no digit.
pub proof fn law_decimal_appends_digit(bytes: Seq<u8>, b: u8)
    ensures
        decimal(Seq::<u8>::empty()) == 0,
        0x30 <= b <= 0x39 ==> decimal(bytes.push(b)) == decimal(bytes) * 10 + (b - 0x30),
        b < 0x30 || 0x39 < b ==> decimal(bytes.push(b)) == decimal(bytes),
{
    assert(bytes.push(b).drop_last() =~= bytes);
}

/// Zeros in front change nothing.
pub proof fn law_decimal_ignores_leading_zeros(zeros: nat, bytes: Seq<u8>)
    ensures
        decimal(Seq::new(zeros, |i: int| 0x30u8) + bytes) == decimal(bytes),
    decreases bytes.len(), zeros,
{
    let front = Seq::new(zeros, |i: int| 0x30u8);
    if bytes.len() > 0 {
        law_decimal_ignores_leading_zeros(zeros, bytes.drop_last());
        assert((front + bytes).drop_last() =~= front + bytes.drop_last());
    } else if zeros > 0 {
        law_decimal_ignores_leading_zeros((zeros - 1) as nat, bytes);
        assert((front + bytes).drop_last() =~= Seq::new(
            (zeros - 1) as nat,
            |i: int| 0x30u8,
        ) + bytes);
    }
}

/// A size is made of both dimensions, columns first, and of nothing less.
pub proof fn law_size_takes_both_dimensions(columns: Option<u16>, lines: Option<u16>)
    ensures
        both_dimensions(columns, lines) is Some <==> columns is Some && lines is Some,
        both_dimensions(columns, lines) matches Some(size) ==> columns == Some(size.0) && lines
            == Some(size.1),
{
}

/// A number that is printed in decimal is read back, whatever follows it that is no digit.
pub proof fn law_tput_reads_printed_number(n: nat, tail: Seq<u8>)
    requires
        forall|i: int| 0 <= i < tail.len() ==> !is_digit(#[trigger] tail[i]),
    ensures
        decimal(digits(n) + tail) == n,
    decreases n, tail.len(),
{
    if tail.len() > 0 {
        law_tput_reads_printed_number(n, tail.drop_last());
        assert((digits(n) + tail).drop_last() =~= digits(n) + tail.drop_last());
        assert(!is_digit(tail[tail.len() - 1]));
    } else {
        assert(digits(n) + tail =~= digits(n));
        if n < 10 {
            assert(digits(n).drop_last() =~= Seq::<u8>::empty());
            assert(decimal(Seq::<u8>::empty()) == 0);
        } else {
            law_tput_reads_printed_number(n / 10, Seq::<u8>::empty());
            assert(digits(n / 10) + Seq::<u8>::empty() =~= digits(n / 10));
            assert(digits(n).drop_last() =~= digits(n / 10));
        }
    }
}

/// A dimension that `tput` gives is never zero and is always the whole number that was printed.
/// There is one exactly where the command ran, a digit other than `0` was printed, and the number
/// fits in 16 bits.
pub proof fn law_tput_dimension_is_the_number(output: Option<Vec<u8>>)
    ensures
        tput_dimension(output) matches Some(v) ==> v > 0 && output is Some && v == decimal(
            output->0@,
        ),
        tput_dimension(output) is Some <==> (output matches Some(bytes) && decimal(bytes@)
            <= u16::MAX && exists|i: int|
            0 <= i < bytes@.len() && is_digit(#[trigger] bytes@[i]) && bytes@[i] != 0x30),
        output matches Some(bytes) && 0 < decimal(bytes@) <= 0xFFFF ==> tput_dimension(output)
            is Some,
{
    if let Some(bytes) = output {
        lemma_decimal_positive(bytes@);
    }
}

proof fn lemma_decimal_positive(bytes: Seq<u8>)
    ensures
        decimal(bytes) > 0 <==> exists|i: int|
            0 <= i < bytes.len() && is_digit(#[trigger] bytes[i]) && bytes[i] != 0x30,
    decreases bytes.len(),
{
    if bytes.len() > 0 {
        let front = bytes.drop_last();
        lemma_decimal_positive(front);
        if exists|i: int| 0 <= i < front.len() && is_digit(#[trigger] front[i]) && front[i] != 0x30 {
            let i = choose|i: int|
                0 <= i < front.len() && is_digit(#[trigger] front[i]) && front[i] != 0x30;
            assert(bytes[i] == front[i]);
        }
        if exists|i: int| 0 <= i < bytes.len() && is_digit(#[trigger] bytes[i]) && bytes[i] != 0x30 {
            let i = choose|i: int|
                0 <= i < bytes.len() && is_digit(#[trigger] bytes[i]) && bytes[i] != 0x30;
            if i < front.len() {
                assert(front[i] == bytes[i]);
            }
        }
        if is_digit(bytes.last()) && bytes.last() != 0x30 {
            assert(is_digit(bytes[bytes.len() - 1]));
        }
    }
}

} // verus!
