//! The report: four newline-terminated lines of ASCII text.
//!
//! ```text
//! Memory Max: <bytes>
//! Cpu Max: <percent>
//! <memory samples, comma-separated, oldest first>
//! <cpu samples, comma-separated, oldest first>
//! ```
//!
//! Memory is written as a plain decimal number. CPU utilisation is held in
//! tenths of a percent and written in percent: the whole part, then a point
//! and one digit unless that digit would be zero.

use vstd::prelude::*;
use vstd::string::*;

use crate::status::{cpu_column, max_of, memory_column, Sample};

verus! {

/// How a number appears in the report.
#[derive(Clone, Copy, Debug, PartialEq, Eq, Structural)]
pub enum Notation {
    /// A count, written as it is.
    Whole,
    /// A count of tenths, written in units.
    Tenths,
}

/// The ASCII digit for `d`, which is below ten.
pub open spec fn digit(d: nat) -> u8 {
    (48 + d) as u8
}

/// The decimal numeral of `n`: most significant digit first, no leading zero.
pub open spec fn decimal(n: nat) -> Seq<u8>
    decreases n,
{
    if n < 10 {
        seq![digit(n)]
    } else {
        decimal(n / 10).push(digit(n % 10))
    }
}

/// The number that a string of ASCII digits stands for.
pub open spec fn decimal_value(digits: Seq<u8>) -> nat
    decreases digits.len(),
{
    if digits.len() == 0 {
        0
    } else {
        (decimal_value(digits.drop_last()) * 10 + (digits.last() - 48)) as nat
    }
}

/// `decimal(n)` is the numeral of `n`: at least one character, ASCII digits
/// only, no leading zero but for zero itself, and read back it gives `n`.
pub proof fn lemma_decimal_is_numeral(n: nat)
    ensures
        decimal(n).len() >= 1,
        forall|i: int| 0 <= i < decimal(n).len() ==> 48 <= #[trigger] decimal(n)[i] <= 57,
        decimal(n)[0] == 48 ==> n == 0,
        decimal_value(decimal(n)) == n,
    decreases n,
{
    if n >= 10 {
        let front = decimal(n / 10);
        lemma_decimal_is_numeral(n / 10);
        assert(decimal(n).drop_last() == front);
        assert(decimal(n)[0] == front[0]);
        assert forall|i: int| 0 <= i < decimal(n).len() implies 48 <= #[trigger] decimal(n)[i]
            <= 57 by {
            if i < front.len() {
                assert(decimal(n)[i] == front[i]);
            }
        }
        assert(decimal(n).last() == digit(n % 10));
        assert(decimal_value(decimal(n)) == decimal_value(front) * 10 + n % 10);
    } else {
        assert(decimal(n).drop_last() == Seq::<u8>::empty());
        assert(decimal_value(decimal(n).drop_last()) == 0);
        assert(decimal(n).last() == digit(n));
    }
}

/// `n` tenths written in units: `205` is `20.5`, `200` is `20`, `5` is `0.5`.
pub open spec fn tenths_text(n: nat) -> Seq<u8> {
    if n % 10 == 0 {
        decimal(n / 10)
    } else {
        decimal(n / 10).push(46u8).push(digit(n % 10))
    }
}

/// The text of `n` in the given notation.
pub open spec fn numeral(notation: Notation, n: nat) -> Seq<u8> {
    match notation {
        Notation::Whole => decimal(n),
        Notation::Tenths => tenths_text(n),
    }
}

/// The numerals of `values` in order, with a comma between neighbours and
/// none after the last.
pub open spec fn joined(notation: Notation, values: Seq<u64>) -> Seq<u8>
    decreases values.len(),
{
    if values.len() == 0 {
        Seq::empty()
    } else if values.len() == 1 {
        numeral(notation, values[0] as nat)
    } else {
        joined(notation, values.drop_last()).push(44u8) + numeral(
            notation,
            values.last() as nat,
        )
    }
}

/// A line of text followed by its newline.
pub open spec fn line(text: Seq<u8>) -> Seq<u8> {
    text.push(10u8)
}

/// The whole report for the samples taken so far.
pub open spec fn report_text(samples: Seq<Sample>) -> Seq<u8> {
    let memory = memory_column(samples);
    let cpu = cpu_column(samples);
    line("Memory Max: ".spec_bytes() + decimal(max_of(memory)))
        + line("Cpu Max: ".spec_bytes() + tenths_text(max_of(cpu)))
        + line(joined(Notation::Whole, memory))
        + line(joined(Notation::Tenths, cpu))
}

/// Appends the UTF-8 bytes of `text`.
pub fn push_text(buf: &mut Vec<u8>, text: &str)
    ensures
        final(buf)@ == old(buf)@ + text.spec_bytes(),
{
    let bytes = text.as_bytes();
    let mut i: usize = 0;
    while i < bytes.len()
        invariant
            i <= bytes@.len(),
            bytes@ == text.spec_bytes(),
            buf@ == old(buf)@ + bytes@.take(i as int),
        decreases bytes@.len() - i,
    {
        buf.push(bytes[i]);
        i += 1;
        assert(bytes@.take(i as int) == bytes@.take(i - 1).push(bytes@[i - 1]));
    }
    assert(bytes@.take(i as int) == bytes@);
}

/// Appends the decimal numeral of `n`.
pub fn push_decimal(buf: &mut Vec<u8>, n: u64)
    ensures
        final(buf)@ == old(buf)@ + decimal(n as nat),
    decreases n,
{
    if n >= 10 {
        push_decimal(buf, n / 10);
    }
    let d: u8 = (n % 10) as u8;
    buf.push(48 + d);
    assert(buf@ == old(buf)@ + decimal(n as nat));
}

/// Appends `n` tenths written in units.
pub fn push_tenths(buf: &mut Vec<u8>, n: u64)
    ensures
        final(buf)@ == old(buf)@ + tenths_text(n as nat),
{
    push_decimal(buf, n / 10);
    let d: u8 = (n % 10) as u8;
    if d != 0 {
        buf.push(46);
        buf.push(48 + d);
    }
    assert(buf@ == old(buf)@ + tenths_text(n as nat));
}

/// Appends `n` in the given notation.
pub fn push_numeral(buf: &mut Vec<u8>, notation: Notation, n: u64)
    ensures
        final(buf)@ == old(buf)@ + numeral(notation, n as nat),
{
    match notation {
        Notation::Whole => push_decimal(buf, n),
        Notation::Tenths => push_tenths(buf, n),
    }
}

/// Appends the numerals of `values`, comma-separated.
pub fn push_joined(buf: &mut Vec<u8>, notation: Notation, values: &Vec<u64>)
    ensures
        final(buf)@ == old(buf)@ + joined(notation, values@),
{
    let mut i: usize = 0;
    while i < values.len()
        invariant
            i <= values@.len(),
            buf@ == old(buf)@ + joined(notation, values@.take(i as int)),
        decreases values@.len() - i,
    {
        if i > 0 {
            buf.push(44);
        }
        push_numeral(buf, notation, values[i]);
        i += 1;
        proof {
            let done = values@.take(i as int);
            assert(done.drop_last() == values@.take(i - 1));
            assert(done.last() == values@[i - 1]);
            assert(buf@ == old(buf)@ + joined(notation, done));
        }
    }
    assert(values@.take(i as int) == values@);
}

} // verus!
