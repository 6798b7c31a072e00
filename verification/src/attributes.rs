//! Terminal attributes: the `Termios` values that a terminal hands out and takes back.

use rustix::termios::Termios;
use vstd::prelude::*;

verus! {

/// `rustix::termios::Termios`, carried through without a look inside.
#[verifier::external_type_specification]
#[verifier::external_body]
pub struct ExTermios(rustix::termios::Termios);

/// The settings that a `Termios` value holds, as plain values.
///
/// Each setting that raw mode touches has a field of its own. What is left of each flag word
/// once those flags are taken out is kept in the matching `other_` field.
pub struct Attributes {
    /// `IGNBRK`: a break is ignored.
    pub ignore_break: bool,
    /// `BRKINT`: a break raises a signal.
    pub signal_on_break: bool,
    /// `PARMRK`: bytes with a parity error are marked.
    pub mark_parity_errors: bool,
    /// `ISTRIP`: the eighth bit is stripped.
    pub strip_eighth_bit: bool,
    /// `INLCR`: a newline is turned into a carriage return.
    pub newline_to_return: bool,
    /// `IGNCR`: a carriage return is ignored.
    pub ignore_return: bool,
    /// `ICRNL`: a carriage return is turned into a newline.
    pub return_to_newline: bool,
    /// `IXON`: output stops and starts on request.
    pub flow_control: bool,
    /// The remaining input flags.
    pub other_input: u32,
    /// `OPOST`: output is processed before it is sent.
    pub process_output: bool,
    /// The remaining output flags.
    pub other_output: u32,
    /// `CSIZE`: the number of bits in a character.
    pub character_size: u8,
    /// `PARENB`: parity is generated and checked.
    pub parity: bool,
    /// The remaining control flags.
    pub other_control: u32,
    /// `ECHO`: what is typed is echoed.
    pub echo: bool,
    /// `ECHONL`: a newline is echoed.
    pub echo_newline: bool,
    /// `ICANON`: input is available line by line.
    pub canonical: bool,
    /// `ISIG`: some characters raise signals.
    pub signals: bool,
    /// `IEXTEN`: some characters get extended processing.
    pub extended_processing: bool,
    /// The remaining local flags.
    pub other_local: u32,
    /// The line discipline.
    pub line_discipline: u8,
    /// `VMIN`: the number of bytes that a read waits for.
    pub read_minimum: u8,
    /// `VTIME`: the time that a read waits for more bytes.
    pub read_timeout: u8,
    /// The remaining special codes, in index order.
    pub other_codes: Seq<u8>,
    /// The input speed.
    pub input_speed: u32,
    /// The output speed.
    pub output_speed: u32,
}

/// The settings inside a `Termios` value.
pub uninterp spec fn attributes(termios: Termios) -> Attributes;

/// What `Termios::make_raw` turns a `Termios` value into.
pub uninterp spec fn raw_form(termios: Termios) -> Termios;

/// The settings of raw mode, taken from the settings `a`.
pub open spec fn raw_attributes(a: Attributes) -> Attributes {
    Attributes {
        ignore_break: false,
        signal_on_break: false,
        mark_parity_errors: false,
        strip_eighth_bit: false,
        newline_to_return: false,
        ignore_return: false,
        return_to_newline: false,
        flow_control: false,
        process_output: false,
        character_size: 8,
        parity: false,
        echo: false,
        echo_newline: false,
        canonical: false,
        signals: false,
        extended_processing: false,
        read_minimum: 1,
        read_timeout: 0,
        ..a
    }
}

/// Input arrives a byte at a time, unaltered and without an echo, and output is sent as it is.
pub open spec fn is_raw(a: Attributes) -> bool {
    &&& !a.canonical && a.read_minimum == 1 && a.read_timeout == 0
    &&& !a.echo && !a.echo_newline
    &&& !a.signals && !a.signal_on_break && !a.flow_control && !a.extended_processing
    &&& !a.newline_to_return && !a.ignore_return && !a.return_to_newline
    &&& !a.ignore_break && !a.strip_eighth_bit && !a.mark_parity_errors
    &&& a.character_size == 8 && !a.parity
    &&& !a.process_output
}

/// `rustix::termios::Termios::make_raw`, as it is on Linux: the result depends on the value
/// alone; the settings named in [`raw_attributes`] are changed as told there, and all others
/// are kept.
pub assume_specification[ Termios::make_raw ](termios: &mut Termios)
    ensures
        *final(termios) == raw_form(*old(termios)),
        attributes(*final(termios)) == raw_attributes(attributes(*old(termios))),
;

/// The `Clone` of `rustix::termios::Termios`: the copy is equal to the value.
pub assume_specification[ <Termios as Clone>::clone ](termios: &Termios) -> (copy: Termios)
    ensures
        copy == *termios,
;

/// Raw settings are raw, whatever they are taken from, and settings that are already raw are
/// not altered further.
pub proof fn law_raw_attributes_are_raw(a: Attributes)
    ensures
        is_raw(raw_attributes(a)),
        is_raw(a) ==> raw_attributes(a) == a,
        raw_attributes(raw_attributes(a)) == raw_attributes(a),
{
}

/// The raw copy of `mode`.
pub(crate) fn raw_copy(mode: &Termios) -> (raw: Termios)
    ensures
        raw == raw_form(*mode),
        attributes(raw) == raw_attributes(attributes(*mode)),
{
    let mut raw = mode.clone();
    raw.make_raw();
    raw
}

} // verus!
