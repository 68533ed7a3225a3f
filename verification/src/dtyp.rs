//! Values of automation properties.

use vstd::prelude::*;
use crate::error::{Error, ErrorKind};
use crate::parser::{
    le_u16, parse_u32_bytes_wstring_nt, spec_le_u16, spec_u32_bytes_wstring_nt, viewed,
};

verus! {

/// The type tag of a string value.
pub const VT_BSTR: u16 = 0x0008;

/// The type tag of a boolean value.
pub const VT_BOOL: u16 = 0x000B;

/// A property value, tagged by its type.
#[derive(Debug, Clone, Eq, PartialEq)]
#[non_exhaustive]
pub enum Variant {
    BStr(String),
    Bool(bool),
}

/// The model of a `Variant`.
pub enum VariantView {
    BStr(Seq<char>),
    Bool(bool),
}

impl View for Variant {
    type V = VariantView;

    open spec fn view(&self) -> VariantView {
        match self {
            Variant::BStr(text) => VariantView::BStr(text@),
            Variant::Bool(flag) => VariantView::Bool(*flag),
        }
    }
}

/// What `parse_variant` returns on `s`.
pub open spec fn spec_variant(s: Seq<u8>) -> Result<(Seq<u8>, VariantView), Error> {
    match spec_le_u16(s) {
        Ok((rest, tag)) => if tag == VT_BSTR {
            match spec_u32_bytes_wstring_nt(rest) {
                Ok((rest, text)) => Ok((rest, VariantView::BStr(text))),
                Err(e) => Err(e),
            }
        } else if tag == VT_BOOL {
            match spec_le_u16(rest) {
                Ok((after_word, word)) => if word == 0x0000 {
                    Ok((after_word, VariantView::Bool(false)))
                } else if word == 0xFFFF {
                    Ok((after_word, VariantView::Bool(true)))
                } else {
                    Err(Error::ParseError(ErrorKind::Boolean, rest.len() as usize))
                },
                Err(e) => Err(e),
            }
        } else {
            Err(Error::NotImplemented)
        },
        Err(e) => Err(e),
    }
}

/// Reads a 16-bit type tag and the value that it announces.
///
/// A string is a length in bytes and UTF-16 text; a boolean is a word of all
/// zeros or all ones. Any other tag is refused with `Error::NotImplemented`.
pub fn parse_variant(input: &[u8]) -> (res: Result<(&[u8], Variant), Error>)
    ensures
        viewed(res) == spec_variant(input@),
{
    let (rest, tag) = le_u16(input)?;
    if tag == VT_BSTR {
        let (rest, text) = parse_u32_bytes_wstring_nt(rest)?;
        Ok((rest, Variant::BStr(text)))
    } else if tag == VT_BOOL {
        let (after_word, word) = le_u16(rest)?;
        if word == 0x0000 {
            Ok((after_word, Variant::Bool(false)))
        } else if word == 0xFFFF {
            Ok((after_word, Variant::Bool(true)))
        } else {
            Err(Error::ParseError(ErrorKind::Boolean, rest.len()))
        }
    } else {
        Err(Error::NotImplemented)
    }
}

} // verus!
