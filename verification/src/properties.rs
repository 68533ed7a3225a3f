//! Values of the form layer that the controls of a diagram embed: positions,
//! sizes and colors.

use ms_oforms::properties::types::color::OleColor;
use vstd::prelude::*;
use crate::error::{Error, ErrorKind};
use crate::parser::{
    after, i32_le, le_i32, le_u32, plain, spec_le_i32, spec_le_u32, take, u32_at,
};

verus! {

/// A place on the diagram surface, in units of 1/100 mm.
#[derive(Clone, Copy, Debug, PartialEq, Eq, Structural)]
pub struct Position {
    /// The distance below the reference point.
    pub top: i32,
    /// The distance to the right of the reference point.
    pub left: i32,
}

/// An extent on the diagram surface, in units of 1/100 mm.
#[derive(Clone, Copy, Debug, PartialEq, Eq, Structural)]
pub struct Size {
    pub width: u32,
    pub height: u32,
}

/// The position that stands at index `at` of `s`.
pub open spec fn position_at(s: Seq<u8>, at: int) -> Position {
    Position {
        top: i32_le(s[at], s[at + 1], s[at + 2], s[at + 3]),
        left: i32_le(s[at + 4], s[at + 5], s[at + 6], s[at + 7]),
    }
}

/// The size that stands at index `at` of `s`.
pub open spec fn size_at(s: Seq<u8>, at: int) -> Size {
    Size { width: u32_at(s, at), height: u32_at(s, at + 4) }
}

/// What `parse_position` returns on `s`.
pub open spec fn spec_position(s: Seq<u8>) -> Result<(Seq<u8>, Position), Error> {
    match spec_le_i32(s) {
        Ok((r1, top)) => match spec_le_i32(r1) {
            Ok((r2, left)) => Ok((r2, (Position { top, left }))),
            Err(e) => Err(e),
        },
        Err(e) => Err(e),
    }
}

/// What `parse_size` returns on `s`.
pub open spec fn spec_size(s: Seq<u8>) -> Result<(Seq<u8>, Size), Error> {
    match spec_le_u32(s) {
        Ok((r1, width)) => match spec_le_u32(r1) {
            Ok((r2, height)) => Ok((r2, (Size { width, height }))),
            Err(e) => Err(e),
        },
        Err(e) => Err(e),
    }
}

/// Reads a position: the distance from the top, then the distance from the left.
pub fn parse_position(input: &[u8]) -> (res: Result<(&[u8], Position), Error>)
    ensures
        plain(res) == spec_position(input@),
{
    let (rest, top) = le_i32(input)?;
    let (rest, left) = le_i32(rest)?;
    Ok((rest, Position { top, left }))
}

/// Reads a size: the width, then the height.
pub fn parse_size(input: &[u8]) -> (res: Result<(&[u8], Size), Error>)
    ensures
        plain(res) == spec_size(input@),
{
    let (rest, width) = le_u32(input)?;
    let (rest, height) = le_u32(rest)?;
    Ok((rest, Size { width, height }))
}

/// The color type of `ms_oforms`. The decoders carry such a value through and
/// never look inside it.
#[verifier::external_type_specification]
#[verifier::external_body]
pub struct ExOleColor(OleColor);

/// The color that `ms_oforms` reads from a run of bytes, or `None` where it
/// rejects them.
pub uninterp spec fn ole_color_decoding(bytes: Seq<u8>) -> Option<OleColor>;

/// Decodes a color through `ms_oforms`.
///
/// Calls `ms_oforms::properties::types::color::parser::parse_ole_color`, which
/// tries its four color forms in turn on the first four bytes and fails when
/// none of them matches. The result depends on the bytes alone, so it is
/// named: `ole_color_decoding`.
#[verifier::external_body]
fn decode_ole_color(bytes: &[u8]) -> (res: Option<OleColor>)
    ensures
        res == ole_color_decoding(bytes@),
{
    match ms_oforms::properties::types::color::parser::parse_ole_color(bytes) {
        Ok((_, color)) => Some(color),
        Err(_) => None,
    }
}

/// What `parse_ole_color` returns on `s`.
pub open spec fn spec_ole_color(s: Seq<u8>) -> Result<(Seq<u8>, OleColor), Error> {
    if s.len() < 4 {
        Err(Error::Incomplete)
    } else {
        match ole_color_decoding(s.subrange(0, 4)) {
            Some(color) => Ok((after(s, 4), color)),
            None => Err(Error::ParseError(ErrorKind::Color, s.len() as usize)),
        }
    }
}

/// Reads a color: four bytes, interpreted by the form layer.
pub fn parse_ole_color(input: &[u8]) -> (res: Result<(&[u8], OleColor), Error>)
    ensures
        plain(res) == spec_ole_color(input@),
{
    let (rest, bytes) = take(input, 4)?;
    match decode_ole_color(bytes) {
        Some(color) => Ok((rest, color)),
        None => Err(Error::ParseError(ErrorKind::Color, input.len())),
    }
}

} // verus!
