//! Decoders for the primitive fields: integers, guards, blobs and strings.
//!
//! Every decoder takes the bytes that are left of a stream and returns the
//! bytes that follow its field together with the field's value. Its contract
//! equates that outcome with a specification function of the input.

use std::borrow::Cow;
use vstd::prelude::*;
use vstd::slice::slice_subrange;
use vstd::string::StrSliceExecFns;
use crate::error::{Error, ErrorKind};

verus! {

/// The outcome of a decoder whose value is its own model.
pub open spec fn plain<T>(res: Result<(&[u8], T), Error>) -> Result<(Seq<u8>, T), Error> {
    match res {
        Ok((rest, value)) => Ok((rest@, value)),
        Err(e) => Err(e),
    }
}

/// The outcome of a decoder whose value is modelled by its view.
pub open spec fn viewed<T: View>(res: Result<(&[u8], T), Error>) -> Result<(Seq<u8>, T::V), Error> {
    match res {
        Ok((rest, value)) => Ok((rest@, value@)),
        Err(e) => Err(e),
    }
}

/// The bytes of `s` from index `n` on.
pub open spec fn after(s: Seq<u8>, n: int) -> Seq<u8> {
    s.subrange(n, s.len() as int)
}

/// The number that two bytes hold, least significant byte first.
pub open spec fn u16_le(b0: u8, b1: u8) -> u16 {
    (b0 + 0x100 * b1) as u16
}

/// The number that four bytes hold, least significant byte first.
pub open spec fn u32_le(b0: u8, b1: u8, b2: u8, b3: u8) -> u32 {
    (b0 + 0x100 * b1 + 0x1_0000 * b2 + 0x100_0000 * b3) as u32
}

/// The signed number that four bytes hold in two's complement, least significant byte first.
pub open spec fn i32_le(b0: u8, b1: u8, b2: u8, b3: u8) -> i32 {
    let unsigned = u32_le(b0, b1, b2, b3);
    if unsigned < 0x8000_0000 {
        unsigned as i32
    } else {
        (unsigned - 0x1_0000_0000) as i32
    }
}

/// The number that the first eight bytes of `s` hold, least significant byte first.
pub open spec fn u64_le(s: Seq<u8>) -> u64
    recommends
        s.len() >= 8,
{
    (u32_le(s[0], s[1], s[2], s[3]) + 0x1_0000_0000 * u32_le(s[4], s[5], s[6], s[7])) as u64
}

/// What `le_u8` returns on `s`.
pub open spec fn spec_le_u8(s: Seq<u8>) -> Result<(Seq<u8>, u8), Error> {
    if s.len() < 1 {
        Err(Error::Incomplete)
    } else {
        Ok((after(s, 1), s[0]))
    }
}

/// What `le_u16` returns on `s`.
pub open spec fn spec_le_u16(s: Seq<u8>) -> Result<(Seq<u8>, u16), Error> {
    if s.len() < 2 {
        Err(Error::Incomplete)
    } else {
        Ok((after(s, 2), u16_le(s[0], s[1])))
    }
}

/// What `le_u32` returns on `s`.
pub open spec fn spec_le_u32(s: Seq<u8>) -> Result<(Seq<u8>, u32), Error> {
    if s.len() < 4 {
        Err(Error::Incomplete)
    } else {
        Ok((after(s, 4), u32_le(s[0], s[1], s[2], s[3])))
    }
}

/// What `le_i32` returns on `s`.
pub open spec fn spec_le_i32(s: Seq<u8>) -> Result<(Seq<u8>, i32), Error> {
    if s.len() < 4 {
        Err(Error::Incomplete)
    } else {
        Ok((after(s, 4), i32_le(s[0], s[1], s[2], s[3])))
    }
}

/// What `le_u64` returns on `s`.
pub open spec fn spec_le_u64(s: Seq<u8>) -> Result<(Seq<u8>, u64), Error> {
    if s.len() < 8 {
        Err(Error::Incomplete)
    } else {
        Ok((after(s, 8), u64_le(s)))
    }
}

/// What `le_u32_2` returns on `s`.
pub open spec fn spec_le_u32_2(s: Seq<u8>) -> Result<(Seq<u8>, (u32, u32)), Error> {
    match spec_le_u32(s) {
        Ok((r1, a)) => match spec_le_u32(r1) {
            Ok((r2, b)) => Ok((r2, (a, b))),
            Err(e) => Err(e),
        },
        Err(e) => Err(e),
    }
}

/// What `take` returns on `s` and `n`: the bytes left, then the `n` bytes taken.
pub open spec fn spec_take(s: Seq<u8>, n: nat) -> Result<(Seq<u8>, Seq<u8>), Error> {
    if s.len() < n {
        Err(Error::Incomplete)
    } else {
        Ok((after(s, n as int), s.subrange(0, n as int)))
    }
}

/// What `magic` returns on `s` and `expected`.
pub open spec fn spec_magic(s: Seq<u8>, expected: u32) -> Result<(Seq<u8>, ()), Error> {
    match spec_le_u32(s) {
        Ok((rest, found)) => if found == expected {
            Ok((rest, ()))
        } else {
            Err(Error::ParseError(ErrorKind::Magic, s.len() as usize))
        },
        Err(e) => Err(e),
    }
}

/// What `version` returns on `s` and the expected pair.
pub open spec fn spec_version(s: Seq<u8>, minor: u16, major: u16) -> Result<(Seq<u8>, ()), Error> {
    match spec_le_u16(s) {
        Ok((r1, found_minor)) => match spec_le_u16(r1) {
            Ok((r2, found_major)) => if found_minor == minor && found_major == major {
                Ok((r2, ()))
            } else {
                Err(Error::ParseError(ErrorKind::Version, s.len() as usize))
            },
            Err(e) => Err(e),
        },
        Err(e) => Err(e),
    }
}

/// Reads one byte.
pub fn le_u8(input: &[u8]) -> (res: Result<(&[u8], u8), Error>)
    ensures
        plain(res) == spec_le_u8(input@),
{
    if input.len() < 1 {
        return Err(Error::Incomplete);
    }
    Ok((slice_subrange(input, 1, input.len()), input[0]))
}

/// Reads an unsigned 16-bit integer, least significant byte first.
pub fn le_u16(input: &[u8]) -> (res: Result<(&[u8], u16), Error>)
    ensures
        plain(res) == spec_le_u16(input@),
{
    if input.len() < 2 {
        return Err(Error::Incomplete);
    }
    let value: u16 = input[0] as u16 + 0x100 * (input[1] as u16);
    Ok((slice_subrange(input, 2, input.len()), value))
}

/// Reads an unsigned 32-bit integer, least significant byte first.
pub fn le_u32(input: &[u8]) -> (res: Result<(&[u8], u32), Error>)
    ensures
        plain(res) == spec_le_u32(input@),
{
    if input.len() < 4 {
        return Err(Error::Incomplete);
    }
    let value: u32 = input[0] as u32 + 0x100 * (input[1] as u32) + 0x1_0000 * (input[2] as u32)
        + 0x100_0000 * (input[3] as u32);
    Ok((slice_subrange(input, 4, input.len()), value))
}

/// Reads a signed 32-bit integer in two's complement, least significant byte first.
pub fn le_i32(input: &[u8]) -> (res: Result<(&[u8], i32), Error>)
    ensures
        plain(res) == spec_le_i32(input@),
{
    let (rest, unsigned) = le_u32(input)?;
    let value: i32 = if unsigned < 0x8000_0000 {
        unsigned as i32
    } else {
        (unsigned - 0x8000_0000) as i32 + i32::MIN
    };
    Ok((rest, value))
}

/// Reads an unsigned 64-bit integer, least significant byte first.
pub fn le_u64(input: &[u8]) -> (res: Result<(&[u8], u64), Error>)
    ensures
        plain(res) == spec_le_u64(input@),
{
    if input.len() < 8 {
        return Err(Error::Incomplete);
    }
    let (high_half, low) = le_u32(input)?;
    let (_, high) = le_u32(high_half)?;
    let value: u64 = low as u64 + 0x1_0000_0000 * (high as u64);
    Ok((slice_subrange(input, 8, input.len()), value))
}

/// Reads two unsigned 32-bit integers.
pub fn le_u32_2(input: &[u8]) -> (res: Result<(&[u8], (u32, u32)), Error>)
    ensures
        plain(res) == spec_le_u32_2(input@),
{
    let (input, a) = le_u32(input)?;
    let (input, b) = le_u32(input)?;
    Ok((input, (a, b)))
}

/// Splits `n` bytes off the front of the input.
pub fn take(input: &[u8], n: usize) -> (res: Result<(&[u8], &[u8]), Error>)
    ensures
        match spec_take(input@, n as nat) {
            Ok((rest, taken)) => res matches Ok((r, t)) && r@ == rest && t@ == taken,
            Err(e) => res == Err::<(&[u8], &[u8]), Error>(e),
        },
{
    if input.len() < n {
        return Err(Error::Incomplete);
    }
    Ok((slice_subrange(input, n, input.len()), slice_subrange(input, 0, n)))
}

/// Reads a 32-bit guard and compares it with the number that the format puts there.
pub fn magic(input: &[u8], expected: u32) -> (res: Result<(&[u8], ()), Error>)
    ensures
        plain(res) == spec_magic(input@, expected),
{
    let (rest, found) = le_u32(input)?;
    if found != expected {
        return Err(Error::ParseError(ErrorKind::Magic, input.len()));
    }
    Ok((rest, ()))
}

/// Reads a version pair, minor then major, and compares it with the one known version.
pub fn version(input: &[u8], minor: u16, major: u16) -> (res: Result<(&[u8], ()), Error>)
    ensures
        plain(res) == spec_version(input@, minor, major),
{
    let (rest, found_minor) = le_u16(input)?;
    let (rest, found_major) = le_u16(rest)?;
    if found_minor != minor || found_major != major {
        return Err(Error::ParseError(ErrorKind::Version, input.len()));
    }
    Ok((rest, ()))
}

/// The text that a run of bytes holds as UTF-16, least significant byte first,
/// or `None` where the bytes are not well-formed UTF-16.
pub uninterp spec fn utf16le_decoding(bytes: Seq<u8>) -> Option<Seq<char>>;

/// Decodes UTF-16 text through `encoding_rs`.
///
/// Calls `Encoding::decode_without_bom_handling_and_without_replacement` on
/// `encoding_rs::UTF_16LE`. The result depends on the bytes alone, so it is
/// named: `utf16le_decoding`. The call returns `None` on malformed input and
/// panics only where `3 * (len + 1) / 2 + 1` overflows `usize`, which no slice
/// reaches, as a slice holds at most `isize::MAX` bytes.
#[verifier::external_body]
fn decode_utf16(input: &[u8]) -> (res: Option<String>)
    ensures
        match res {
            Some(text) => utf16le_decoding(input@) == Some(text@),
            None => utf16le_decoding(input@).is_none(),
        },
{
    encoding_rs::UTF_16LE.decode_without_bom_handling_and_without_replacement(input).map(
        Cow::into_owned,
    )
}

/// What `wstring` returns on `s` and `n`: the text of the first `n` bytes.
pub open spec fn spec_wstring(s: Seq<u8>, n: nat) -> Result<(Seq<u8>, Seq<char>), Error> {
    if s.len() < n {
        Err(Error::Incomplete)
    } else {
        match utf16le_decoding(s.subrange(0, n as int)) {
            Some(text) => Ok((after(s, n as int), text)),
            None => Err(Error::StringEncoding(s.len() as usize)),
        }
    }
}

/// What `terminator` returns on `s`.
pub open spec fn spec_terminator(s: Seq<u8>) -> Result<(Seq<u8>, ()), Error> {
    match spec_le_u16(s) {
        Ok((rest, unit)) => if unit == 0 {
            Ok((rest, ()))
        } else {
            Err(Error::ParseError(ErrorKind::Terminator, s.len() as usize))
        },
        Err(e) => Err(e),
    }
}

/// The index of the first zero code unit of `s` at or after unit `from`, if any.
pub open spec fn terminator_index(s: Seq<u8>, from: nat) -> Option<nat>
    decreases s.len() - 2 * from,
{
    if 2 * from + 2 > s.len() {
        None
    } else if s[2 * from as int] == 0 && s[2 * from + 1 as int] == 0 {
        Some(from)
    } else {
        terminator_index(s, from + 1)
    }
}

/// What `parse_wstring_nt` returns on `s`.
pub open spec fn spec_wstring_nt(s: Seq<u8>) -> Result<(Seq<u8>, Seq<char>), Error> {
    match terminator_index(s, 0) {
        Some(units) => match spec_wstring(s, 2 * units) {
            Ok((rest, text)) => Ok((after(rest, 2), text)),
            Err(e) => Err(e),
        },
        None => Err(Error::Incomplete),
    }
}

/// What `parse_u32_bytes_wstring_nt` returns on `s`.
pub open spec fn spec_u32_bytes_wstring_nt(s: Seq<u8>) -> Result<(Seq<u8>, Seq<char>), Error> {
    match spec_le_u32(s) {
        Ok((rest, len)) => if len < 2 {
            Err(Error::ParseError(ErrorKind::Length, s.len() as usize))
        } else {
            match spec_wstring(rest, (len - 2) as nat) {
                Ok((rest, text)) => match spec_terminator(rest) {
                    Ok((rest, _)) => Ok((rest, text)),
                    Err(e) => Err(e),
                },
                Err(e) => Err(e),
            }
        },
        Err(e) => Err(e),
    }
}

/// What `parse_u32_wstring_nt` returns on `s`.
pub open spec fn spec_u32_wstring_nt(s: Seq<u8>) -> Result<(Seq<u8>, Seq<char>), Error> {
    match spec_le_u32(s) {
        Ok((rest, count)) => if count < 1 {
            Err(Error::ParseError(ErrorKind::Length, s.len() as usize))
        } else {
            match spec_wstring(rest, (2 * count - 2) as nat) {
                Ok((rest, text)) => match spec_terminator(rest) {
                    Ok((rest, _)) => Ok((rest, text)),
                    Err(e) => Err(e),
                },
                Err(e) => Err(e),
            }
        },
        Err(e) => Err(e),
    }
}

/// What `parse_u16_wstring` returns on `s`.
pub open spec fn spec_u16_wstring(s: Seq<u8>) -> Result<(Seq<u8>, Seq<char>), Error> {
    match spec_le_u16(s) {
        Ok((rest, count)) => spec_wstring(rest, (2 * count) as nat),
        Err(e) => Err(e),
    }
}

/// Decodes the first `n` bytes of the input as UTF-16 text.
pub fn wstring(input: &[u8], n: usize) -> (res: Result<(&[u8], String), Error>)
    ensures
        viewed(res) == spec_wstring(input@, n as nat),
{
    let (rest, bytes) = take(input, n)?;
    match decode_utf16(bytes) {
        Some(text) => Ok((rest, text)),
        None => Err(Error::StringEncoding(input.len())),
    }
}

/// Reads the zero code unit that ends a string.
pub fn terminator(input: &[u8]) -> (res: Result<(&[u8], ()), Error>)
    ensures
        plain(res) == spec_terminator(input@),
{
    let (rest, unit) = le_u16(input)?;
    if unit != 0 {
        return Err(Error::ParseError(ErrorKind::Terminator, input.len()));
    }
    Ok((rest, ()))
}

/// Reads UTF-16 text that runs up to the first zero code unit, and that unit.
pub fn parse_wstring_nt(input: &[u8]) -> (res: Result<(&[u8], String), Error>)
    ensures
        viewed(res) == spec_wstring_nt(input@),
{
    let mut units: usize = 0;
    while input.len() - 2 * units >= 2 && (input[2 * units] != 0 || input[2 * units + 1] != 0)
        invariant
            2 * units <= input.len(),
            terminator_index(input@, 0) == terminator_index(input@, units as nat),
        decreases input.len() - 2 * units,
    {
        units = units + 1;
    }
    if input.len() - 2 * units < 2 {
        return Err(Error::Incomplete);
    }
    let (rest, text) = wstring(input, 2 * units)?;
    Ok((slice_subrange(rest, 2, rest.len()), text))
}

/// Reads a string with a 32-bit length in bytes, which counts the zero code unit at its end.
pub fn parse_u32_bytes_wstring_nt(input: &[u8]) -> (res: Result<(&[u8], String), Error>)
    ensures
        viewed(res) == spec_u32_bytes_wstring_nt(input@),
{
    let (rest, len) = le_u32(input)?;
    if len < 2 {
        return Err(Error::ParseError(ErrorKind::Length, input.len()));
    }
    let (rest, text) = wstring(rest, (len - 2) as usize)?;
    let (rest, _) = terminator(rest)?;
    Ok((rest, text))
}

/// Reads a string with a 32-bit length in code units, which counts the zero code unit at its end.
pub fn parse_u32_wstring_nt(input: &[u8]) -> (res: Result<(&[u8], String), Error>)
    ensures
        viewed(res) == spec_u32_wstring_nt(input@),
{
    let (rest, count) = le_u32(input)?;
    if count < 1 {
        return Err(Error::ParseError(ErrorKind::Length, input.len()));
    }
    let bytes: u64 = 2 * (count as u64) - 2;
    if (rest.len() as u64) < bytes {
        return Err(Error::Incomplete);
    }
    let (rest, text) = wstring(rest, bytes as usize)?;
    let (rest, _) = terminator(rest)?;
    Ok((rest, text))
}

/// Reads a string with a 16-bit length in code units and no terminator.
pub fn parse_u16_wstring(input: &[u8]) -> (res: Result<(&[u8], String), Error>)
    ensures
        viewed(res) == spec_u16_wstring(input@),
{
    let (rest, count) = le_u16(input)?;
    wstring(rest, 2 * (count as usize))
}

/// The unsigned 32-bit integer that stands at index `at` of `s`.
pub open spec fn u32_at(s: Seq<u8>, at: int) -> u32 {
    u32_le(s[at], s[at + 1], s[at + 2], s[at + 3])
}

/// The `count` unsigned 32-bit integers that stand at the front of `s`.
pub open spec fn u32_run(s: Seq<u8>, count: nat) -> Seq<u32> {
    Seq::new(count, |i: int| u32_at(s, 4 * i))
}

/// What `u32_array` returns on `s` and `count`.
pub open spec fn spec_u32_array(s: Seq<u8>, count: nat) -> Result<(Seq<u8>, Seq<u32>), Error> {
    if s.len() < 4 * count {
        Err(Error::Incomplete)
    } else {
        Ok((after(s, 4 * count as int), u32_run(s, count)))
    }
}

/// What `counted_u32_array` returns on `s`.
pub open spec fn spec_counted_u32_array(s: Seq<u8>) -> Result<(Seq<u8>, Seq<u32>), Error> {
    match spec_le_u32(s) {
        Ok((rest, count)) => spec_u32_array(rest, count as nat),
        Err(e) => Err(e),
    }
}

/// Reads `count` unsigned 32-bit integers.
pub fn u32_array(input: &[u8], count: u32) -> (res: Result<(&[u8], Vec<u32>), Error>)
    ensures
        viewed(res) == spec_u32_array(input@, count as nat),
{
    if input.len() / 4 < count as usize {
        return Err(Error::Incomplete);
    }
    let mut values: Vec<u32> = Vec::new();
    let mut rest: &[u8] = input;
    let mut done: u32 = 0;
    while done < count
        invariant
            done <= count,
            4 * count <= input@.len(),
            rest@ == after(input@, 4 * done),
            values@ == u32_run(input@, done as nat),
        decreases count - done,
    {
        let (after_value, value) = le_u32(rest)?;
        values.push(value);
        rest = after_value;
        done = done + 1;
    }
    Ok((rest, values))
}

/// Reads a 32-bit count and that many unsigned 32-bit integers.
pub fn counted_u32_array(input: &[u8]) -> (res: Result<(&[u8], Vec<u32>), Error>)
    ensures
        viewed(res) == spec_counted_u32_array(input@),
{
    let (rest, count) = le_u32(input)?;
    u32_array(rest, count)
}

/// What `literal` returns on `s` and `expected`: the characters that follow.
pub open spec fn spec_literal(s: Seq<char>, expected: Seq<char>) -> Result<Seq<char>, Error> {
    if expected.is_prefix_of(s) {
        Ok(s.subrange(expected.len() as int, s.len() as int))
    } else {
        Err(Error::ParseError(ErrorKind::Caption, s.len() as usize))
    }
}

/// The index of the first `'` of `s` at or after `from`, if any.
pub open spec fn quote_index(s: Seq<char>, from: nat) -> Option<nat>
    decreases s.len() - from,
{
    if from >= s.len() {
        None
    } else if s[from as int] == '\'' {
        Some(from)
    } else {
        quote_index(s, from + 1)
    }
}

/// What `until_quote` returns on `s`: the characters from the first `'` on,
/// then those before it.
pub open spec fn spec_until_quote(s: Seq<char>) -> Result<(Seq<char>, Seq<char>), Error> {
    match quote_index(s, 0) {
        Some(at) => Ok((s.subrange(at as int, s.len() as int), s.subrange(0, at as int))),
        None => Err(Error::ParseError(ErrorKind::Caption, s.len() as usize)),
    }
}

/// What `parse_relationship` returns on `s`: the characters left, then the
/// name of the relationship and of the two tables that it joins.
pub open spec fn spec_relationship(s: Seq<char>) -> Result<
    (Seq<char>, (Seq<char>, Seq<char>, Seq<char>)),
    Error,
> {
    match spec_literal(s, "Relationship '"@) {
        Ok(r0) => match spec_until_quote(r0) {
            Ok((r1, name)) => match spec_literal(r1, "' between '"@) {
                Ok(r2) => match spec_until_quote(r2) {
                    Ok((r3, from)) => match spec_literal(r3, "' and '"@) {
                        Ok(r4) => match spec_until_quote(r4) {
                            Ok((rest, to)) => Ok((rest, (name, from, to))),
                            Err(e) => Err(e),
                        },
                        Err(e) => Err(e),
                    },
                    Err(e) => Err(e),
                },
                Err(e) => Err(e),
            },
            Err(e) => Err(e),
        },
        Err(e) => Err(e),
    }
}

/// Takes `expected` off the front of the input.
pub fn literal<'a>(input: &'a str, expected: &str) -> (res: Result<&'a str, Error>)
    ensures
        match spec_literal(input@, expected@) {
            Ok(rest) => res matches Ok(r) && r@ == rest,
            Err(e) => res == Err::<&str, Error>(e),
        },
{
    let len: usize = input.unicode_len();
    let expected_len: usize = expected.unicode_len();
    if len < expected_len {
        return Err(Error::ParseError(ErrorKind::Caption, len));
    }
    let mut at: usize = 0;
    while at < expected_len
        invariant
            at <= expected_len <= len,
            len == input@.len(),
            expected_len == expected@.len(),
            expected@.subrange(0, at as int) == input@.subrange(0, at as int),
        decreases expected_len - at,
    {
        if input.get_char(at) != expected.get_char(at) {
            return Err(Error::ParseError(ErrorKind::Caption, len));
        }
        assert(expected@.subrange(0, at + 1) == expected@.subrange(0, at as int).push(
            expected@[at as int],
        ));
        assert(input@.subrange(0, at + 1) == input@.subrange(0, at as int).push(input@[at as int]));
        at = at + 1;
    }
    assert(expected@ == expected@.subrange(0, expected_len as int));
    Ok(input.substring_char(expected_len, len))
}

/// Splits the input before its first `'`.
pub fn until_quote<'a>(input: &'a str) -> (res: Result<(&'a str, &'a str), Error>)
    ensures
        match spec_until_quote(input@) {
            Ok((rest, taken)) => res matches Ok((r, t)) && r@ == rest && t@ == taken,
            Err(e) => res == Err::<(&str, &str), Error>(e),
        },
{
    let len: usize = input.unicode_len();
    let mut at: usize = 0;
    let mut found: bool = false;
    for c in it: input.chars()
        invariant_except_break
            !found,
            at == it.index(),
        invariant
            it.seq() == input@,
            len == input@.len(),
            quote_index(input@, 0) == quote_index(input@, at as nat),
        ensures
            found ==> at < input@.len() && input@[at as int] == '\'',
            !found ==> at == input@.len(),
            quote_index(input@, 0) == quote_index(input@, at as nat),
    {
        if c == '\'' {
            found = true;
            break;
        }
        at = at + 1;
    }
    if !found {
        return Err(Error::ParseError(ErrorKind::Caption, len));
    }
    Ok((input.substring_char(at, len), input.substring_char(0, at)))
}

/// Reads the caption of a relationship,
/// `Relationship '<name>' between '<from>' and '<to>'`, and returns what
/// follows `<to>` together with the three names.
pub fn parse_relationship(input: &str) -> (res: Result<(&str, (String, String, String)), Error>)
    ensures
        match spec_relationship(input@) {
            Ok((rest, (name, from, to))) => res matches Ok((r, (n, f, t))) && r@ == rest && n@
                == name && f@ == from && t@ == to,
            Err(e) => res == Err::<(&str, (String, String, String)), Error>(e),
        },
{
    let rest = literal(input, "Relationship '")?;
    let (rest, name) = until_quote(rest)?;
    let rest = literal(rest, "' between '")?;
    let (rest, from) = until_quote(rest)?;
    let rest = literal(rest, "' and '")?;
    let (rest, to) = until_quote(rest)?;
    Ok((rest, (name.to_owned(), from.to_owned(), to.to_owned())))
}

/// Decoding is a function of the bytes.
///
/// Every decoder states what it returns as `viewed(res) == spec(input@)`,
/// where `spec` is a function of the bytes alone. So two outcomes of a
/// decoder on the same bytes, each of which meets that contract, have the
/// same model: both fail with the same error, or both leave the same bytes
/// and hold values with the same model.
pub proof fn lemma_decoding_is_stable<T: View>(
    first: Result<(&[u8], T), Error>,
    second: Result<(&[u8], T), Error>,
    specified: Result<(Seq<u8>, T::V), Error>,
)
    requires
        viewed(first) == specified,
        viewed(second) == specified,
    ensures
        viewed(first) == viewed(second),
        first is Ok <==> second is Ok,
        first matches Ok((r1, v1)) ==> second matches Ok((r2, v2)) && r1@ == r2@ && v1@ == v2@,
        first matches Err(e1) ==> second matches Err(e2) && e1 == e2,
{
}

} // verus!
