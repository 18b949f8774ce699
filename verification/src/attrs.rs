//! Content logic of the attribute store.
//!
//! The kernel exposes one attribute per file, as text.  The caller reads
//! and writes the files; this module turns file content into values and
//! values into file content, and judges write-then-verify readbacks.
//! No operation retries: a verification mismatch is an outcome the
//! caller logs, never an error.

use vstd::prelude::*;

use crate::Error;
use crate::bytes::{spec_trim, trim_ascii, spec_parse_u32, parse_u32_digits, spec_u32_digits,
    u32_digits, spec_find, find_byte, lemma_find_props, bytes_eq, all_digits, is_ascii_digit,
    is_ascii_space, lemma_parse_of_rendered, lemma_rendered_digits_are_digits};

verus! {

/// The scalar an attribute file holds: its text, trimmed, read as an
/// unsigned decimal.
pub open spec fn spec_read_u32(content: Seq<u8>) -> Option<u32> {
    spec_parse_u32(spec_trim(content))
}

/// Read a scalar attribute out of file content.  A non-numeric or empty
/// file is an error, not a default.
pub fn read_u32_content(content: &[u8]) -> (r: Result<u32, Error>)
    ensures
        match r {
            Ok(v) => spec_read_u32(content@) == Some(v),
            Err(e) => e == Error::DataFormat && spec_read_u32(content@) is None,
        },
{
    let trimmed = trim_ascii(content);
    match parse_u32_digits(trimmed.as_slice()) {
        Some(v) => Ok(v),
        None => Err(Error::DataFormat),
    }
}

/// Read a string attribute out of file content: the text, trimmed.
pub fn read_str_content(content: &[u8]) -> (r: Vec<u8>)
    ensures
        r@ == spec_trim(content@),
{
    trim_ascii(content)
}

/// What is written to a scalar attribute: the decimal digits of the
/// value and a newline.
pub open spec fn spec_u32_content(value: u32) -> Seq<u8> {
    spec_u32_digits(value as int).push(10)
}

pub fn u32_write_content(value: u32) -> (r: Vec<u8>)
    ensures
        r@ == spec_u32_content(value),
{
    let mut out = u32_digits(value);
    out.push(10);
    out
}

/// What is written to an enumerated attribute: the requested token and a
/// newline.
pub fn token_write_content(token: &[u8]) -> (r: Vec<u8>)
    ensures
        r@ == token@.push(10),
{
    let mut out = vstd::slice::slice_to_vec(token);
    out.push(10);
    out
}

/// The token an enumerated attribute reports as current: the readback
/// lists the legal values and wraps the selected one in brackets, and
/// the selected token is what stands between the first `[` and the `]`
/// after it.
pub open spec fn spec_bracketed(content: Seq<u8>) -> Option<Seq<u8>> {
    let i = spec_find(content, 91, 0);
    if i == content.len() {
        None
    } else {
        let j = spec_find(content, 93, i + 1);
        if j == content.len() {
            None
        } else {
            Some(content.subrange(i + 1, j))
        }
    }
}

/// Extract the currently-selected token from an enumerated attribute's
/// readback.  Content without a bracketed token is a data-format error.
pub fn enum_current_value(content: &[u8]) -> (r: Result<Vec<u8>, Error>)
    ensures
        match r {
            Ok(v) => spec_bracketed(content@) == Some(v@),
            Err(e) => e == Error::DataFormat && spec_bracketed(content@) is None,
        },
{
    let i = find_byte(content, 91, 0);
    proof {
        lemma_find_props(content@, 91, 0);
    }
    if i == content.len() {
        return Err(Error::DataFormat);
    }
    let j = find_byte(content, 93, i + 1);
    proof {
        lemma_find_props(content@, 93, i as int + 1);
    }
    if j == content.len() {
        return Err(Error::DataFormat);
    }
    Ok(vstd::slice::slice_to_vec(vstd::slice::slice_subrange(content, i + 1, j)))
}

/// Judgement of a write-then-verify cycle: the driver either stored the
/// requested value or clamped it to something else.
#[derive(Debug, Clone, Copy, PartialEq, Eq, Structural)]
pub enum WriteOutcome {
    /// The readback equals the request.
    Confirmed,
    /// The readback differs: logged as a warning, never fatal.
    Mismatch,
}

/// Judge a scalar write against its readback.
pub fn assess_u32_write(requested: u32, actual: u32) -> (o: WriteOutcome)
    ensures
        o == (if actual == requested {
            WriteOutcome::Confirmed
        } else {
            WriteOutcome::Mismatch
        }),
{
    if actual == requested {
        WriteOutcome::Confirmed
    } else {
        WriteOutcome::Mismatch
    }
}

/// Judge an enumerated write against the token its readback selects.
pub fn assess_token_write(requested: &[u8], actual: &[u8]) -> (o: WriteOutcome)
    ensures
        o == (if actual@ == requested@ {
            WriteOutcome::Confirmed
        } else {
            WriteOutcome::Mismatch
        }),
{
    if bytes_eq(actual, requested) {
        WriteOutcome::Confirmed
    } else {
        WriteOutcome::Mismatch
    }
}

proof fn lemma_trim_of_digits(d: Seq<u8>)
    requires
        d.len() > 0,
        all_digits(d),
    ensures
        spec_trim(d) == d,
{
    assert(is_ascii_digit(d[0]));
    assert(is_ascii_digit(d[d.len() - 1]));
    assert(!is_ascii_space(d[0]));
    assert(!is_ascii_space(d.last()));
}

/// A scalar attribute round-trips: reading back the exact content that
/// `u32_write_content` produced yields the written value, so a
/// write-then-verify cycle on a driver that stores the request verbatim
/// is always confirmed.
pub proof fn lemma_u32_content_round_trip(value: u32)
    ensures
        spec_read_u32(spec_u32_content(value)) == Some(value),
{
    lemma_rendered_digits_are_digits(value as int);
    lemma_parse_of_rendered(value);
    let d = spec_u32_digits(value as int);
    let c = d.push(10);
    assert(c[0] == d[0]);
    assert(is_ascii_digit(d[0]));
    assert(c.last() == 10u8);
    assert(is_ascii_space(c.last()));
    assert(c.drop_last() =~= d);
    lemma_trim_of_digits(d);
    assert(spec_trim(c) == d);
}

} // verus!
