//! Failures of a decode call.

use vstd::prelude::*;

verus! {

/// What a decoder expected at the place where it gave up.
#[derive(Clone, Copy, Debug, PartialEq, Eq, Structural)]
pub enum ErrorKind {
    /// A magic number that guards a record.
    Magic,
    /// The version pair that follows a magic number.
    Version,
    /// The zero code unit that ends a string.
    Terminator,
    /// A length prefix that leaves room for what it counts.
    Length,
    /// A number that names a member of a closed set.
    Enumerant,
    /// A flag word with recognized bits only.
    Flags,
    /// A boolean word, all zeros or all ones.
    Boolean,
    /// A color of the form layer.
    Color,
    /// A font descriptor of the form layer.
    Font,
    /// The text of a relationship caption.
    Caption,
}

/// Why a decode call returned no value.
///
/// The number carried by a variant is the count of bytes (for a caption, of
/// characters) that were left of the input at the field that failed.
#[derive(Clone, Copy, Debug, PartialEq, Eq, Structural)]
pub enum Error {
    /// The field has a type tag that no decoder exists for.
    NotImplemented,
    /// The input ends before the field does.
    Incomplete,
    /// The field does not hold what the format asks for.
    ParseError(ErrorKind, usize),
    /// The bytes of a string field are not well-formed UTF-16.
    StringEncoding(usize),
}

} // verus!
