//! The controls of the design surface: the polyline that draws a relationship
//! and the label that annotates it.

use ms_oforms::properties::types::color::OleColor;
use vstd::prelude::*;
use vstd::slice::{slice_subrange, slice_to_vec};
use crate::error::{Error, ErrorKind};
use crate::guid::Guid;
use crate::parser::{
    after, le_u16, le_u32, le_u8, parse_u16_wstring, plain, spec_le_u16, spec_le_u32, spec_le_u8,
    spec_take, spec_u16_wstring, take, u16_le, u32_at, viewed,
};
use crate::properties::{
    parse_ole_color, parse_position, parse_size, position_at, size_at, spec_ole_color, spec_size,
    Position, Size,
};

verus! {

/// Microsoft DT PolyLine Control 2 (ProgID `MSDTPolylineControl.2`)
pub const CLSID_POLYLINE: Guid = 0xd24d4453_1f01_11d1_8e63_006097d2df48;

/// Microsoft DT Label Control (ProgID `MSDTDDSLabel.1`)
pub const CLSID_DDSLABEL: Guid = 0xd24d4451_1f01_11d1_8e63_006097d2df48;

/// Microsoft DT Diagram Surface 2 (ProgID `MSDTDDS.2`)
pub const CLSID_MSDTDDS: Guid = 0xb0406340_b0c5_11d0_89a9_00a0c9054129;

/// Microsoft DT DDS TypeLib 2 (`mdt2dd.dll`)
pub const TYPELIB_DTDDS2: Guid = 0xb0406341_b0c5_11d0_89a9_00a0c9054129;

/// Microsoft DT Typelib
pub const TYPELIB_MSDT: Guid = 0xa92cc3f0_e7c4_11ce_a47b_00aa005119fb;

/// Microsoft DT DDS Form 2.0 (aka `MDTDF.Form.1`)
pub const CLSID_MSDT_DDS_FORM_2: Guid = 0x105b80d2_95f1_11d0_b0a0_00aa00bdcb5c;

/// Microsoft DDS Form 2.0 (aka `MSDDS.Form.080.1`)
pub const CLSID_DDS_FORM: Guid = 0x77d2c92e_7779_11d8_9070_00065b840d9c;

/// Microsoft DT DDSForm (`mdt2df.dll`)
pub const TYPELIB_DDS_FORM: Guid = 0x105b80d0_95f1_11d0_b0a0_00aa00bdcb5c;

/// Microsoft DT DDSform 2.1 FormPackage
pub const CLSID_DDS2_FORM_PACKAGE: Guid = 0x105b80d5_95f1_11d0_b0a0_00aa00bdcb5c;

/// The shape that ends a polyline.
#[derive(Debug, Copy, Clone, PartialEq, Eq, Structural)]
pub enum DdsPolylineEndType {
    Many,
    LittleNub,
    Key,
    SingleArrowFill,
    DoubleArrow,
    RoundNub,
    /// No shape at all.
    NoCap,
    OpenArrow,
    SingleArrow,
    Diamond,
    DiamondFill,
    DiamondArrow,
    DiamondFillArrow,
    ManyDelete,
    ManyUpdate,
    ManyUpdateDelete,
    KeyDelete,
    KeyUpdate,
    KeyUpdateDelete,
    Custom,
}

/// The end type that a number stands for, if any.
pub open spec fn spec_end_type(v: u32) -> Option<DdsPolylineEndType> {
    if v == 0 {
        Some(DdsPolylineEndType::Many)
    } else if v == 1 {
        Some(DdsPolylineEndType::LittleNub)
    } else if v == 2 {
        Some(DdsPolylineEndType::Key)
    } else if v == 3 {
        Some(DdsPolylineEndType::SingleArrowFill)
    } else if v == 4 {
        Some(DdsPolylineEndType::DoubleArrow)
    } else if v == 5 {
        Some(DdsPolylineEndType::RoundNub)
    } else if v == 6 {
        Some(DdsPolylineEndType::NoCap)
    } else if v == 7 {
        Some(DdsPolylineEndType::OpenArrow)
    } else if v == 8 {
        Some(DdsPolylineEndType::SingleArrow)
    } else if v == 9 {
        Some(DdsPolylineEndType::Diamond)
    } else if v == 10 {
        Some(DdsPolylineEndType::DiamondFill)
    } else if v == 11 {
        Some(DdsPolylineEndType::DiamondArrow)
    } else if v == 12 {
        Some(DdsPolylineEndType::DiamondFillArrow)
    } else if v == 13 {
        Some(DdsPolylineEndType::ManyDelete)
    } else if v == 14 {
        Some(DdsPolylineEndType::ManyUpdate)
    } else if v == 15 {
        Some(DdsPolylineEndType::ManyUpdateDelete)
    } else if v == 16 {
        Some(DdsPolylineEndType::KeyDelete)
    } else if v == 17 {
        Some(DdsPolylineEndType::KeyUpdate)
    } else if v == 18 {
        Some(DdsPolylineEndType::KeyUpdateDelete)
    } else if v == 99 {
        Some(DdsPolylineEndType::Custom)
    } else {
        None
    }
}

impl DdsPolylineEndType {
    /// The end type that `v` stands for, if any.
    pub fn from_u32(v: u32) -> (res: Option<DdsPolylineEndType>)
        ensures
            res == spec_end_type(v),
    {
        match v {
            0 => Some(DdsPolylineEndType::Many),
            1 => Some(DdsPolylineEndType::LittleNub),
            2 => Some(DdsPolylineEndType::Key),
            3 => Some(DdsPolylineEndType::SingleArrowFill),
            4 => Some(DdsPolylineEndType::DoubleArrow),
            5 => Some(DdsPolylineEndType::RoundNub),
            6 => Some(DdsPolylineEndType::NoCap),
            7 => Some(DdsPolylineEndType::OpenArrow),
            8 => Some(DdsPolylineEndType::SingleArrow),
            9 => Some(DdsPolylineEndType::Diamond),
            10 => Some(DdsPolylineEndType::DiamondFill),
            11 => Some(DdsPolylineEndType::DiamondArrow),
            12 => Some(DdsPolylineEndType::DiamondFillArrow),
            13 => Some(DdsPolylineEndType::ManyDelete),
            14 => Some(DdsPolylineEndType::ManyUpdate),
            15 => Some(DdsPolylineEndType::ManyUpdateDelete),
            16 => Some(DdsPolylineEndType::KeyDelete),
            17 => Some(DdsPolylineEndType::KeyUpdate),
            18 => Some(DdsPolylineEndType::KeyUpdateDelete),
            99 => Some(DdsPolylineEndType::Custom),
            _ => None,
        }
    }
}

/// Horizontal justification of the text of a label.
#[derive(Debug, Clone, Copy, PartialEq, Eq, Structural)]
pub enum LabelJustification {
    Left,
    Center,
    Right,
}

/// The justification that a number stands for, if any.
pub open spec fn spec_justification(v: u16) -> Option<LabelJustification> {
    if v == 0 {
        Some(LabelJustification::Left)
    } else if v == 1 {
        Some(LabelJustification::Center)
    } else if v == 2 {
        Some(LabelJustification::Right)
    } else {
        None
    }
}

impl LabelJustification {
    /// The justification that `v` stands for, if any.
    pub fn from_u16(v: u16) -> (res: Option<LabelJustification>)
        ensures
            res == spec_justification(v),
    {
        match v {
            0 => Some(LabelJustification::Left),
            1 => Some(LabelJustification::Center),
            2 => Some(LabelJustification::Right),
            _ => None,
        }
    }
}

/// The flag word of a label. A value holds recognized bits only; its model
/// is the word itself.
#[derive(Debug, Copy, Clone, PartialEq, Eq)]
pub struct LabelFlags {
    bits: u16,
}

impl View for LabelFlags {
    type V = u16;

    closed spec fn view(&self) -> u16 {
        self.bits
    }
}

/// Whether every bit of `flag` is set in `bits`.
pub open spec fn has_label_flag(bits: u16, flag: u16) -> bool {
    bits & flag == flag
}

/// Whether `bits` holds no bit outside the recognized flags of a label.
pub open spec fn known_label_flags(bits: u16) -> bool {
    bits & !LabelFlags::ALL == 0
}

impl LabelFlags {
    pub const READ_ONLY: u16 = 0b000001;

    /// The text is not centered vertically.
    pub const ALIGN_TOP: u16 = 0b000010;

    pub const AUTO_SIZE: u16 = 0b000100;

    pub const DELETE_EMPTY: u16 = 0b001000;

    pub const WORD_WRAP: u16 = 0b010000;

    pub const TRANSPARENT: u16 = 0b100000;

    /// Every recognized bit.
    pub const ALL: u16 = 0b111111;

    #[verifier::type_invariant]
    spec fn recognized(self) -> bool {
        known_label_flags(self.bits)
    }

    /// Makes a flag word of `bits`, unless a bit outside the recognized flags is set.
    pub fn from_bits(bits: u16) -> (res: Option<LabelFlags>)
        ensures
            res is Some <==> known_label_flags(bits),
            res matches Some(flags) ==> flags@ == bits,
    {
        if bits & !Self::ALL == 0 {
            Some(LabelFlags { bits })
        } else {
            None
        }
    }

    /// The word itself.
    pub fn bits(&self) -> (bits: u16)
        ensures
            bits == self@,
            known_label_flags(bits),
    {
        proof {
            use_type_invariant(self);
        }
        self.bits
    }

    /// Whether every bit of `flag` is set.
    pub fn contains(&self, flag: u16) -> (res: bool)
        ensures
            res == has_label_flag(self@, flag),
    {
        self.bits & flag == flag
    }
}

/// The place of a label that belongs to a polyline.
#[derive(Debug, Clone, Copy, PartialEq, Eq, Structural)]
pub struct LabelRef {
    /// The identifier of the label's site.
    pub id: u32,
    /// A word that is zero in every diagram seen so far.
    pub reserved: u32,
    pub pos: Position,
    pub size: Size,
}

/// The label reference that stands at index `at` of `s`.
pub open spec fn label_ref_at(s: Seq<u8>, at: int) -> LabelRef {
    LabelRef {
        id: u32_at(s, at),
        reserved: u32_at(s, at + 4),
        pos: position_at(s, at + 8),
        size: size_at(s, at + 16),
    }
}

/// What `parse_label_ref` returns on `s`.
pub open spec fn spec_label_ref(s: Seq<u8>) -> Result<(Seq<u8>, LabelRef), Error> {
    if s.len() < 24 {
        Err(Error::Incomplete)
    } else {
        Ok((after(s, 24), label_ref_at(s, 0)))
    }
}

/// Reads a label reference: the identifier, a reserved word, the position and the size.
pub fn parse_label_ref(input: &[u8]) -> (res: Result<(&[u8], LabelRef), Error>)
    ensures
        plain(res) == spec_label_ref(input@),
{
    let (rest, id) = le_u32(input)?;
    let (rest, reserved) = le_u32(rest)?;
    let (rest, pos) = parse_position(rest)?;
    let (rest, size) = parse_size(rest)?;
    assert(rest@ =~= after(input@, 24));
    Ok((rest, LabelRef { id, reserved, pos, size }))
}

/// The `count` positions that stand at the front of `s`.
pub open spec fn position_run(s: Seq<u8>, count: nat) -> Seq<Position> {
    Seq::new(count, |i: int| position_at(s, 8 * i))
}

/// The `count` label references that stand at the front of `s`.
pub open spec fn label_ref_run(s: Seq<u8>, count: nat) -> Seq<LabelRef> {
    Seq::new(count, |i: int| label_ref_at(s, 24 * i))
}

/// What `positions` returns on `s` and `count`.
pub open spec fn spec_positions(s: Seq<u8>, count: nat) -> Result<
    (Seq<u8>, Seq<Position>),
    Error,
> {
    if s.len() < 8 * count {
        Err(Error::Incomplete)
    } else {
        Ok((after(s, 8 * count as int), position_run(s, count)))
    }
}

/// What `label_refs` returns on `s`.
pub open spec fn spec_label_refs(s: Seq<u8>) -> Result<(Seq<u8>, Seq<LabelRef>), Error> {
    match spec_le_u32(s) {
        Ok((rest, count)) => if rest.len() < 24 * count {
            Err(Error::Incomplete)
        } else {
            Ok((after(rest, 24 * count), label_ref_run(rest, count as nat)))
        },
        Err(e) => Err(e),
    }
}

/// Reads `count` positions.
pub fn positions(input: &[u8], count: u16) -> (res: Result<(&[u8], Vec<Position>), Error>)
    ensures
        viewed(res) == spec_positions(input@, count as nat),
{
    if input.len() / 8 < count as usize {
        return Err(Error::Incomplete);
    }
    let mut points: Vec<Position> = Vec::new();
    let mut rest: &[u8] = input;
    let mut done: u16 = 0;
    while done < count
        invariant
            done <= count,
            8 * count <= input@.len(),
            rest@ == after(input@, 8 * done),
            points@ == position_run(input@, done as nat),
        decreases count - done,
    {
        let (after_point, point) = parse_position(rest)?;
        points.push(point);
        rest = after_point;
        done = done + 1;
    }
    Ok((rest, points))
}

/// Reads a 32-bit count and that many label references.
pub fn label_refs(input: &[u8]) -> (res: Result<(&[u8], Vec<LabelRef>), Error>)
    ensures
        viewed(res) == spec_label_refs(input@),
{
    let (entries, count) = le_u32(input)?;
    if entries.len() / 24 < count as usize {
        return Err(Error::Incomplete);
    }
    let mut labels: Vec<LabelRef> = Vec::new();
    let mut rest: &[u8] = entries;
    let mut done: u32 = 0;
    while done < count
        invariant
            done <= count,
            24 * count <= entries@.len(),
            rest@ == after(entries@, 24 * done),
            labels@ == label_ref_run(entries@, done as nat),
        decreases count - done,
    {
        let (after_label, label) = parse_label_ref(rest)?;
        labels.push(label);
        rest = after_label;
        done = done + 1;
    }
    Ok((rest, labels))
}

/// The control that draws a relationship as a line through a run of points.
#[derive(Debug)]
pub struct Polyline {
    /// A word after the number of points, not yet understood.
    pub unknown_word: u16,
    /// The points of the line, from the source to the destination.
    pub positions: Vec<Position>,
    pub end_type_src: DdsPolylineEndType,
    pub end_type_dest: DdsPolylineEndType,
    pub color: OleColor,
    /// Sixteen bytes after the color, not yet understood.
    pub opaque_block: Vec<u8>,
    pub labels: Vec<LabelRef>,
    /// A byte after the labels, not yet understood.
    pub unknown_byte: u8,
    /// Whatever follows, kept as it is.
    pub trailing: Vec<u8>,
}

/// The model of a `Polyline`.
pub struct PolylineView {
    pub unknown_word: u16,
    pub positions: Seq<Position>,
    pub end_type_src: DdsPolylineEndType,
    pub end_type_dest: DdsPolylineEndType,
    pub color: OleColor,
    pub opaque_block: Seq<u8>,
    pub labels: Seq<LabelRef>,
    pub unknown_byte: u8,
    pub trailing: Seq<u8>,
}

impl View for Polyline {
    type V = PolylineView;

    open spec fn view(&self) -> PolylineView {
        PolylineView {
            unknown_word: self.unknown_word,
            positions: self.positions@,
            end_type_src: self.end_type_src,
            end_type_dest: self.end_type_dest,
            color: self.color,
            opaque_block: self.opaque_block@,
            labels: self.labels@,
            unknown_byte: self.unknown_byte,
            trailing: self.trailing@,
        }
    }
}

impl Polyline {
    /// The point at which the line starts, if it has any point.
    pub fn first_position(&self) -> (res: Option<Position>)
        ensures
            res == (if self.positions@.len() > 0 {
                Some(self.positions@[0])
            } else {
                None
            }),
    {
        if self.positions.len() > 0 {
            Some(self.positions[0])
        } else {
            None
        }
    }

    /// The point at which the line ends, if it has any point.
    pub fn last_position(&self) -> (res: Option<Position>)
        ensures
            res == (if self.positions@.len() > 0 {
                Some(self.positions@[self.positions@.len() - 1])
            } else {
                None
            }),
    {
        if self.positions.len() > 0 {
            Some(self.positions[self.positions.len() - 1])
        } else {
            None
        }
    }
}

/// What `end_type` returns on `s`.
pub open spec fn spec_end_type_field(s: Seq<u8>) -> Result<(Seq<u8>, DdsPolylineEndType), Error> {
    match spec_le_u32(s) {
        Ok((rest, v)) => match spec_end_type(v) {
            Some(end_type) => Ok((rest, end_type)),
            None => Err(Error::ParseError(ErrorKind::Enumerant, s.len() as usize)),
        },
        Err(e) => Err(e),
    }
}

/// Reads the 32-bit number of an end type.
pub fn end_type(input: &[u8]) -> (res: Result<(&[u8], DdsPolylineEndType), Error>)
    ensures
        plain(res) == spec_end_type_field(input@),
{
    let (rest, v) = le_u32(input)?;
    match DdsPolylineEndType::from_u32(v) {
        Some(end_type) => Ok((rest, end_type)),
        None => Err(Error::ParseError(ErrorKind::Enumerant, input.len())),
    }
}

/// What `parse_polyline` returns on `s`.
pub open spec fn spec_polyline(s: Seq<u8>) -> Result<(Seq<u8>, PolylineView), Error> {
    match spec_le_u16(s) {
        Ok((r0, count)) => match spec_le_u16(r0) {
            Ok((r1, unknown_word)) => match spec_positions(r1, count as nat) {
                Ok((r2, positions)) => match spec_end_type_field(r2) {
                    Ok((r3, end_type_src)) => match spec_end_type_field(r3) {
                        Ok((r4, end_type_dest)) => match spec_ole_color(r4) {
                            Ok((r5, color)) => match spec_take(r5, 16) {
                                Ok((r6, opaque_block)) => match spec_label_refs(r6) {
                                    Ok((r7, labels)) => match spec_le_u8(r7) {
                                        Ok((r8, unknown_byte)) => Ok(
                                            (
                                                Seq::empty(),
                                                (PolylineView {
                                                    unknown_word,
                                                    positions,
                                                    end_type_src,
                                                    end_type_dest,
                                                    color,
                                                    opaque_block,
                                                    labels,
                                                    unknown_byte,
                                                    trailing: r8,
                                                }),
                                            ),
                                        ),
                                        Err(e) => Err(e),
                                    },
                                    Err(e) => Err(e),
                                },
                                Err(e) => Err(e),
                            },
                            Err(e) => Err(e),
                        },
                        Err(e) => Err(e),
                    },
                    Err(e) => Err(e),
                },
                Err(e) => Err(e),
            },
            Err(e) => Err(e),
        },
        Err(e) => Err(e),
    }
}

/// Reads a polyline control.
///
/// In order: a 16-bit number of points, a word, the points, the end types of
/// the source and of the destination, the color, sixteen bytes, the counted
/// label references and a byte. What follows is kept as `trailing`, so
/// nothing is left of the input.
pub fn parse_polyline(input: &[u8]) -> (res: Result<(&[u8], Polyline), Error>)
    ensures
        viewed(res) == spec_polyline(input@),
{
    let (rest, count) = le_u16(input)?;
    let (rest, unknown_word) = le_u16(rest)?;
    let (rest, positions) = positions(rest, count)?;
    let (rest, end_type_src) = end_type(rest)?;
    let (rest, end_type_dest) = end_type(rest)?;
    let (rest, color) = parse_ole_color(rest)?;
    let (rest, opaque_block) = take(rest, 16)?;
    let (rest, labels) = label_refs(rest)?;
    let (rest, unknown_byte) = le_u8(rest)?;
    let polyline = Polyline {
        unknown_word,
        positions,
        end_type_src,
        end_type_dest,
        color,
        opaque_block: slice_to_vec(opaque_block),
        labels,
        unknown_byte,
        trailing: slice_to_vec(rest),
    };
    let end: &[u8] = slice_subrange(rest, rest.len(), rest.len());
    assert(end@ =~= Seq::<u8>::empty());
    Ok((end, polyline))
}

/// The index of a label's bytes at which its font descriptor starts.
pub const LABEL_FONT_OFFSET: usize = 32;

/// The control that shows a text on the diagram.
///
/// `F` is the font descriptor of the form layer, which the decoder takes from
/// its caller and carries through.
#[derive(Debug)]
pub struct Label<F> {
    /// A word before the size, not yet understood.
    pub unknown_word: u32,
    pub size: Size,
    /// Six bytes after the size, not yet understood.
    pub opaque_block: Vec<u8>,
    pub back_color: OleColor,
    pub fore_color: OleColor,
    pub justification: LabelJustification,
    /// A word after the justification, not yet understood.
    pub unknown_half: u16,
    pub flags: LabelFlags,
    pub font: F,
    pub text: String,
}

/// The model of a `Label`.
pub struct LabelView<F> {
    pub unknown_word: u32,
    pub size: Size,
    pub opaque_block: Seq<u8>,
    pub back_color: OleColor,
    pub fore_color: OleColor,
    pub justification: LabelJustification,
    pub unknown_half: u16,
    pub flags: u16,
    pub font: F,
    pub text: Seq<char>,
}

impl<F> View for Label<F> {
    type V = LabelView<F>;

    open spec fn view(&self) -> LabelView<F> {
        LabelView {
            unknown_word: self.unknown_word,
            size: self.size,
            opaque_block: self.opaque_block@,
            back_color: self.back_color,
            fore_color: self.fore_color,
            justification: self.justification,
            unknown_half: self.unknown_half,
            flags: self.flags@,
            font: self.font,
            text: self.text@,
        }
    }
}

/// The fields of a label that stand before its font descriptor.
pub struct LabelHead {
    pub unknown_word: u32,
    pub size: Size,
    pub opaque_block: Seq<u8>,
    pub back_color: OleColor,
    pub fore_color: OleColor,
    pub justification: LabelJustification,
    pub unknown_half: u16,
    pub flags: u16,
}

/// What is read of a label up to its font descriptor.
pub open spec fn spec_label_head(s: Seq<u8>) -> Result<(Seq<u8>, LabelHead), Error> {
    match spec_le_u32(s) {
        Ok((r0, unknown_word)) => match spec_size(r0) {
            Ok((r1, size)) => match spec_take(r1, 6) {
                Ok((r2, opaque_block)) => match spec_ole_color(r2) {
                    Ok((r3, back_color)) => match spec_ole_color(r3) {
                        Ok((r4, fore_color)) => match spec_le_u16(r4) {
                            Ok((r5, v)) => match spec_justification(v) {
                                Some(justification) => match spec_le_u16(r5) {
                                    Ok((r6, unknown_half)) => match spec_le_u16(r6) {
                                        Ok((r7, flags)) => if known_label_flags(flags) {
                                            Ok(
                                                (
                                                    r7,
                                                    (LabelHead {
                                                        unknown_word,
                                                        size,
                                                        opaque_block,
                                                        back_color,
                                                        fore_color,
                                                        justification,
                                                        unknown_half,
                                                        flags,
                                                    }),
                                                ),
                                            )
                                        } else {
                                            Err(
                                                Error::ParseError(
                                                    ErrorKind::Flags,
                                                    r6.len() as usize,
                                                ),
                                            )
                                        },
                                        Err(e) => Err(e),
                                    },
                                    Err(e) => Err(e),
                                },
                                None => Err(
                                    Error::ParseError(ErrorKind::Enumerant, r4.len() as usize),
                                ),
                            },
                            Err(e) => Err(e),
                        },
                        Err(e) => Err(e),
                    },
                    Err(e) => Err(e),
                },
                Err(e) => Err(e),
            },
            Err(e) => Err(e),
        },
        Err(e) => Err(e),
    }
}

/// What `parse_label` returns on `s` and on what the form layer made of the
/// bytes from `LABEL_FONT_OFFSET` on.
pub open spec fn spec_label<F>(s: Seq<u8>, font: Option<(F, usize)>) -> Result<
    (Seq<u8>, LabelView<F>),
    Error,
> {
    match spec_label_head(s) {
        Ok((at_font, head)) => match font {
            Some((font, font_len)) => if at_font.len() < font_len {
                Err(Error::Incomplete)
            } else {
                match spec_u16_wstring(after(at_font, font_len as int)) {
                    Ok((rest, text)) => Ok(
                        (
                            rest,
                            (LabelView {
                                unknown_word: head.unknown_word,
                                size: head.size,
                                opaque_block: head.opaque_block,
                                back_color: head.back_color,
                                fore_color: head.fore_color,
                                justification: head.justification,
                                unknown_half: head.unknown_half,
                                flags: head.flags,
                                font,
                                text,
                            }),
                        ),
                    ),
                    Err(e) => Err(e),
                }
            },
            None => Err(Error::ParseError(ErrorKind::Font, at_font.len() as usize)),
        },
        Err(e) => Err(e),
    }
}

/// The font descriptor of a label starts at `LABEL_FONT_OFFSET`: the fields
/// before it take that many bytes, whatever they hold.
pub proof fn lemma_label_font_offset(s: Seq<u8>)
    ensures
        spec_label_head(s) matches Ok((at_font, _)) ==> s.len() >= LABEL_FONT_OFFSET && at_font
            == after(s, LABEL_FONT_OFFSET as int),
{
    if let Ok((at_font, _)) = spec_label_head(s) {
        assert(at_font =~= after(s, LABEL_FONT_OFFSET as int));
    }
}

/// Reads a label control.
///
/// In order: a word, the size, six bytes, the back color, the fore color, the
/// 16-bit justification, a word, the 16-bit flag word, the font descriptor
/// and the text with its 16-bit length.
///
/// The font descriptor is in the format of the form layer, so the caller
/// decodes it: `font` is the descriptor that stands at `LABEL_FONT_OFFSET`
/// with the number of bytes that it takes, or `None` where the form layer
/// finds no descriptor there. It is looked at once the fields before it have
/// been decoded.
pub fn parse_label<F>(input: &[u8], font: Option<(F, usize)>) -> (res: Result<
    (&[u8], Label<F>),
    Error,
>)
    ensures
        viewed(res) == spec_label(input@, font),
{
    let (rest, unknown_word) = le_u32(input)?;
    let (rest, size) = parse_size(rest)?;
    let (rest, opaque_block) = take(rest, 6)?;
    let (rest, back_color) = parse_ole_color(rest)?;
    let (at_justification, fore_color) = parse_ole_color(rest)?;
    let (rest, v) = le_u16(at_justification)?;
    let justification: LabelJustification = match LabelJustification::from_u16(v) {
        Some(justification) => justification,
        None => {
            return Err(Error::ParseError(ErrorKind::Enumerant, at_justification.len()));
        },
    };
    let (at_flags, unknown_half) = le_u16(rest)?;
    let (at_font, bits) = le_u16(at_flags)?;
    let flags: LabelFlags = match LabelFlags::from_bits(bits) {
        Some(flags) => flags,
        None => { return Err(Error::ParseError(ErrorKind::Flags, at_flags.len())); },
    };
    let (font, font_len) = match font {
        Some(found) => found,
        None => { return Err(Error::ParseError(ErrorKind::Font, at_font.len())); },
    };
    let (rest, _) = take(at_font, font_len)?;
    let (rest, text) = parse_u16_wstring(rest)?;
    Ok(
        (
            rest,
            Label {
                unknown_word,
                size,
                opaque_block: slice_to_vec(opaque_block),
                back_color,
                fore_color,
                justification,
                unknown_half,
                flags,
                font,
                text,
            },
        ),
    )
}

/// The points of a decoded polyline are those of the stream, unchanged and in
/// order: there are as many as the first word says, and the point of index
/// `i` is the one that stands at byte `4 + 8 * i`. So the first point is
/// the one at byte 4 and the last is the one at byte `4 + 8 * (count - 1)`,
/// however many points lie between them.
pub proof fn lemma_polyline_points(s: Seq<u8>)
    ensures
        spec_polyline(s) matches Ok((_, polyline)) ==> {
            &&& polyline.positions.len() == u16_le(s[0], s[1])
            &&& forall|i: int|
                0 <= i < polyline.positions.len() ==> #[trigger] polyline.positions[i]
                    == position_at(s, 4 + 8 * i)
        },
{
}

} // verus!
