//! Numbers and times as text, in a buffer that the caller brings.

use vstd::prelude::*;

use crate::displayinfo::TimeOfDay;

verus! {

/// The text did not fit the buffer.
#[derive(Debug, Clone, Copy, PartialEq, Eq, Structural)]
pub struct Error;

/// The character of a digit.
pub open spec fn digit(n: nat) -> u8 {
    (48 + n % 10) as u8
}

/// A number in decimal.
pub open spec fn decimal(n: nat) -> Seq<u8>
    decreases n,
{
    if n < 10 {
        seq![digit(n)]
    } else {
        decimal(n / 10).push(digit(n))
    }
}

/// A number in decimal, with a zero in front of a single digit.
pub open spec fn padded(n: nat) -> Seq<u8> {
    if n < 10 {
        seq![48u8, digit(n)]
    } else {
        decimal(n)
    }
}

/// A time of day as hours, minutes and seconds with colons between them.
pub open spec fn time_text(time: TimeOfDay) -> Seq<u8> {
    padded(time.hours as nat) + seq![58u8] + padded(time.minutes as nat) + seq![58u8] + padded(
        time.seconds as nat,
    )
}

/// The buffer after as much of the text as fits was written to its
/// beginning.
pub open spec fn written(buffer: Seq<u8>, text: Seq<u8>) -> Seq<u8> {
    Seq::new(
        buffer.len(),
        |i: int|
            if i < text.len() {
                text[i]
            } else {
                buffer[i]
            },
    )
}

fn digits_of(value: u32) -> (text: Vec<u8>)
    ensures
        text@ == decimal(value as nat),
{
    let mut text: Vec<u8> = Vec::new();
    text.push(48 + (value % 10) as u8);
    let mut rest: u32 = value / 10;
    proof {
        reveal_with_fuel(decimal, 2);
        assert(decimal(value as nat) =~= (if rest == 0 {
            Seq::<u8>::empty()
        } else {
            decimal(rest as nat)
        }) + text@);
    }
    while rest > 0
        invariant
            decimal(value as nat) == (if rest == 0 {
                Seq::<u8>::empty()
            } else {
                decimal(rest as nat)
            }) + text@,
        decreases rest,
    {
        let units = (rest % 10) as u8;
        let ghost before = text@;
        text.insert(0, 48 + units);
        proof {
            reveal_with_fuel(decimal, 2);
            assert(text@ =~= seq![digit(rest as nat)] + before);
            assert(decimal(rest as nat) =~= (if rest / 10 == 0 {
                Seq::<u8>::empty()
            } else {
                decimal((rest / 10) as nat)
            }) + seq![digit(rest as nat)]);
        }
        rest = rest / 10;
    }
    text
}

fn push_padded(text: &mut Vec<u8>, value: u8)
    ensures
        final(text)@ == old(text)@ + padded(value as nat),
{
    let ghost before = text@;
    if value < 10 {
        text.push(48);
        text.push(48 + value);
        proof {
            assert(text@ =~= before + padded(value as nat));
        }
    } else {
        let mut digits = digits_of(value as u32);
        text.append(&mut digits);
    }
}

/// Writes the text to the beginning of the buffer and returns its length.
/// Of a text longer than the buffer the part that fits is written, and the
/// result is an error.
pub fn format_string(buffer: &mut [u8], text: &[u8]) -> (result: Result<usize, Error>)
    ensures
        final(buffer)@ == written(old(buffer)@, text@),
        text@.len() <= old(buffer)@.len() ==> result == Ok::<usize, Error>(text@.len() as usize),
        text@.len() > old(buffer)@.len() ==> result is Err,
{
    let write_num = if text.len() < buffer.len() {
        text.len()
    } else {
        buffer.len()
    };
    let mut i: usize = 0;
    while i < write_num
        invariant
            i <= write_num,
            write_num <= text@.len(),
            write_num == buffer@.len() || write_num == text@.len(),
            buffer@.len() == old(buffer)@.len(),
            write_num <= buffer@.len(),
            forall|j: int| 0 <= j < i ==> buffer@[j] == text@[j],
            forall|j: int| i <= j < buffer@.len() ==> buffer@[j] == old(buffer)@[j],
        decreases write_num - i,
    {
        buffer[i] = text[i];
        i += 1;
    }
    proof {
        assert(buffer@ =~= written(old(buffer)@, text@));
    }
    if write_num < text.len() {
        Err(Error)
    } else {
        Ok(text.len())
    }
}

/// Writes the time as hours, minutes and seconds, two digits each, with
/// colons between them.
pub fn format_time(buffer: &mut [u8], time: &TimeOfDay) -> (result: Result<usize, Error>)
    ensures
        final(buffer)@ == written(old(buffer)@, time_text(*time)),
        time_text(*time).len() <= old(buffer)@.len() ==> result == Ok::<usize, Error>(
            time_text(*time).len() as usize,
        ),
        time_text(*time).len() > old(buffer)@.len() ==> result is Err,
{
    let mut text: Vec<u8> = Vec::new();
    push_padded(&mut text, time.hours);
    text.push(58);
    push_padded(&mut text, time.minutes);
    text.push(58);
    push_padded(&mut text, time.seconds);
    proof {
        assert(text@ =~= time_text(*time));
    }
    format_string(buffer, text.as_slice())
}

/// Writes the number in decimal.
pub fn format_u32(buffer: &mut [u8], time: u32) -> (result: Result<usize, Error>)
    ensures
        final(buffer)@ == written(old(buffer)@, decimal(time as nat)),
        decimal(time as nat).len() <= old(buffer)@.len() ==> result == Ok::<usize, Error>(
            decimal(time as nat).len() as usize,
        ),
        decimal(time as nat).len() > old(buffer)@.len() ==> result is Err,
{
    let text = digits_of(time);
    format_string(buffer, text.as_slice())
}

/// A time that a clock shows takes eight characters.
pub proof fn law_time_text_length(time: TimeOfDay)
    requires
        time.is_valid(),
    ensures
        time_text(time).len() == 8,
{
    reveal_with_fuel(decimal, 2);
}

} // verus!
