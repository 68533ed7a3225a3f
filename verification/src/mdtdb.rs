//! The grid control of the database designer, which shows a table.

use vstd::prelude::*;
use crate::error::{Error, ErrorKind};
use crate::guid::Guid;
use crate::parser::{
    after, counted_u32_array, le_u32, magic, parse_u32_wstring_nt, parse_wstring_nt, plain,
    spec_counted_u32_array, spec_le_u32, spec_magic, spec_take, spec_u32_array,
    spec_u32_wstring_nt, spec_version, spec_wstring_nt, take, u32_array, u32_at, version, viewed,
};
use crate::properties::{parse_size, spec_size, Size};

verus! {

/// `SchGrid OLE Custom Control module` (`mdt2db.dll`)
pub const TYPELIB_SCHGRID: Guid = 0xe9b0e6da_811c_11d0_ad51_00a0c90f5739;

/// Microsoft Data Tools Database Designer
pub const CLSID_MSDTDB_DESIGNER: Guid = 0xe9b0e6d4_811c_11d0_ad51_00a0c90f5739;

/// The ProgID of the Microsoft Data Tools Database Designer
pub const PROGID_MSDTDB_DESIGNER: &'static str = "MSDTDatabaseDesigner2";

/// Microsoft Data Tools Database Designer SQL Server Table Property Page
pub const CLSID_MSDTDB_SQLSERVER_TABLE_PROPERTY_PAGE: Guid = 0xe9b0e6d5_811c_11d0_ad51_00a0c90f5739;

/// Microsoft Data Tools Database Designer SQL Server Relationship Property Page
pub const CLSID_MSDTDB_SQLSERVER_RELATIONSHIP_PROPERTY_PAGE: Guid =
    0xe9b0e6d6_811c_11d0_ad51_00a0c90f5739;

/// Microsoft Data Tools Database Designer SQL Server Index Property Page
pub const CLSID_MSDTDB_SQLSERVER_INDEX_PROPERTY_PAGE: Guid = 0xe9b0e6d8_811c_11d0_ad51_00a0c90f5739;

/// MSDTDDGridCtrl2 Object (ProgID `SchGrid.MSDTDDGridCtrl2.1`)
pub const CLSID_SCHGRID: Guid = 0xe9b0e6d9_811c_11d0_ad51_00a0c90f5739;

pub const IID_ISCHGRID_ALT: Guid = 0x91a88675_8bc8_11ce_9bfd_00aa0062bebf;

pub const IID_DSCHGRID_EVENTS: Guid = 0x91a88676_8bc8_11ce_9bfd_00aa0062bebf;

pub const IID_CONTROL_EVENTS: Guid = 0x77d2c934_7779_11d8_9070_00065b840d9c;

pub const CLSID_ISCHGRID: Guid = 0xb27d32a0_62d8_4295_8d98_273c25a2da2d;

pub const CLSID_DSCHGRID_EVENTS: Guid = 0x847f3bf4_617f_43c7_8535_2986e1d552f8;

/// The guard that opens the extent of an OLE control.
pub const OLE_CONTROL_MAGIC: u32 = 0x1234_4321;

/// The guard that opens the frame of a grid and its data source.
pub const FRAME_MAGIC: u32 = 0x1234_5678;

/// The number of layouts in a frame.
pub const LAYOUT_COUNT: usize = 5;

/// The index in `GridFrameWnd::layouts` of the layout of the whole grid.
pub const LAYOUT_PRIMARY: usize = 0;

/// The index in `GridFrameWnd::layouts` of the layout of the columns.
pub const LAYOUT_COLUMNS: usize = 1;

/// The index in `GridFrameWnd::layouts` of the layout of the keys.
pub const LAYOUT_KEYS: usize = 2;

/// One of the five layouts of a grid.
#[derive(Debug, Clone, PartialEq, Eq)]
pub struct GridLayoutSpec {
    /// Whether the first word of the layout is set.
    pub hidden: bool,
    /// The second word of the layout, not yet understood.
    pub unknown_flag: u32,
    pub position_size: Size,
    /// The word after the size, not yet understood.
    pub unknown_word: u32,
    pub row_count: u32,
    pub row_min: u32,
    pub col_count: u32,
    pub col_min: u32,
    /// The width of each column; there are `col_count` of them.
    pub column_widths: Vec<u32>,
}

/// The model of a `GridLayoutSpec`.
pub struct GridLayoutSpecView {
    pub hidden: bool,
    pub unknown_flag: u32,
    pub position_size: Size,
    pub unknown_word: u32,
    pub row_count: u32,
    pub row_min: u32,
    pub col_count: u32,
    pub col_min: u32,
    pub column_widths: Seq<u32>,
}

impl View for GridLayoutSpec {
    type V = GridLayoutSpecView;

    open spec fn view(&self) -> GridLayoutSpecView {
        GridLayoutSpecView {
            hidden: self.hidden,
            unknown_flag: self.unknown_flag,
            position_size: self.position_size,
            unknown_word: self.unknown_word,
            row_count: self.row_count,
            row_min: self.row_min,
            col_count: self.col_count,
            col_min: self.col_min,
            column_widths: self.column_widths@,
        }
    }
}

impl GridLayoutSpecView {
    /// Whether the layout has one width for each of its columns.
    pub open spec fn wf(self) -> bool {
        self.column_widths.len() == self.col_count
    }
}

/// What `parse_sch_grid_layout` returns on `s`.
#[verifier::opaque]
pub open spec fn spec_layout(s: Seq<u8>) -> Result<(Seq<u8>, GridLayoutSpecView), Error> {
    match spec_le_u32(s) {
        Ok((r0, hidden)) => match spec_le_u32(r0) {
            Ok((r1, unknown_flag)) => match spec_size(r1) {
                Ok((r2, position_size)) => match spec_le_u32(r2) {
                    Ok((r3, unknown_word)) => match spec_le_u32(r3) {
                        Ok((r4, row_count)) => match spec_le_u32(r4) {
                            Ok((r5, row_min)) => match spec_le_u32(r5) {
                                Ok((r6, col_count)) => match spec_le_u32(r6) {
                                    Ok((r7, col_min)) => match spec_u32_array(
                                        r7,
                                        col_count as nat,
                                    ) {
                                        Ok((rest, column_widths)) => Ok(
                                            (
                                                rest,
                                                (GridLayoutSpecView {
                                                    hidden: hidden != 0,
                                                    unknown_flag,
                                                    position_size,
                                                    unknown_word,
                                                    row_count,
                                                    row_min,
                                                    col_count,
                                                    col_min,
                                                    column_widths,
                                                }),
                                            ),
                                        ),
                                        Err(e) => Err(e),
                                    },
                                    Err(e) => Err(e),
                                },
                                Err(e) => Err(e),
                            },
                            Err(e) => Err(e),
                        },
                        Err(e) => Err(e),
                    },
                    Err(e) => Err(e),
                },
                Err(e) => Err(e),
            },
            Err(e) => Err(e),
        },
        Err(e) => Err(e),
    }
}

/// Reads one layout of a grid.
///
/// In order: the word of the hidden flag, a word, the size, a word, the
/// numbers of rows and of rows at least shown, the numbers of columns and of
/// columns at least shown, then one width for each column.
pub fn parse_sch_grid_layout(input: &[u8]) -> (res: Result<(&[u8], GridLayoutSpec), Error>)
    ensures
        viewed(res) == spec_layout(input@),
        res matches Ok((_, layout)) ==> layout@.wf(),
{
    reveal(spec_layout);
    let (rest, hidden) = le_u32(input)?;
    let (rest, unknown_flag) = le_u32(rest)?;
    let (rest, position_size) = parse_size(rest)?;
    let (rest, unknown_word) = le_u32(rest)?;
    let (rest, row_count) = le_u32(rest)?;
    let (rest, row_min) = le_u32(rest)?;
    let (rest, col_count) = le_u32(rest)?;
    let (rest, col_min) = le_u32(rest)?;
    let (rest, column_widths) = u32_array(rest, col_count)?;
    Ok(
        (
            rest,
            GridLayoutSpec {
                hidden: hidden != 0,
                unknown_flag,
                position_size,
                unknown_word,
                row_count,
                row_min,
                col_count,
                col_min,
                column_widths,
            },
        ),
    )
}

/// What `parse_ole_control_extent` returns on `s`.
pub open spec fn spec_ole_control_extent(s: Seq<u8>) -> Result<(Seq<u8>, Size), Error> {
    match spec_magic(s, OLE_CONTROL_MAGIC) {
        Ok((r0, _)) => match spec_version(r0, 8, 0) {
            Ok((r1, _)) => spec_size(r1),
            Err(e) => Err(e),
        },
        Err(e) => Err(e),
    }
}

/// Reads the extent of an OLE control: its guard, the version 0.8 and the size.
pub fn parse_ole_control_extent(input: &[u8]) -> (res: Result<(&[u8], Size), Error>)
    ensures
        plain(res) == spec_ole_control_extent(input@),
{
    let (rest, _) = magic(input, OLE_CONTROL_MAGIC)?;
    let (rest, _) = version(rest, 8, 0)?;
    parse_size(rest)
}

/// What `window` returns on `s`: the bytes left, then the bytes of the window.
pub open spec fn spec_window(s: Seq<u8>) -> Result<(Seq<u8>, Seq<u8>), Error> {
    match spec_le_u32(s) {
        Ok((rest, len)) => spec_take(rest, len as nat),
        Err(e) => Err(e),
    }
}

/// Reads a 32-bit length and splits that many bytes off the input.
pub fn window(input: &[u8]) -> (res: Result<(&[u8], &[u8]), Error>)
    ensures
        match spec_window(input@) {
            Ok((rest, taken)) => res matches Ok((r, t)) && r@ == rest && t@ == taken,
            Err(e) => res == Err::<(&[u8], &[u8]), Error>(e),
        },
{
    let (rest, len) = le_u32(input)?;
    take(rest, len as usize)
}

/// The table that a grid is bound to.
#[derive(Debug, Clone, PartialEq, Eq)]
pub struct DataSource {
    /// The first word of the record, not yet understood.
    pub unknown1: u32,
    /// The second word of the record, not yet understood.
    pub unknown2: u32,
    /// The indices of the selected columns.
    pub selected_columns: Vec<u32>,
    pub table: String,
    pub schema: String,
}

/// The model of a `DataSource`.
pub struct DataSourceView {
    pub unknown1: u32,
    pub unknown2: u32,
    pub selected_columns: Seq<u32>,
    pub table: Seq<char>,
    pub schema: Seq<char>,
}

impl View for DataSource {
    type V = DataSourceView;

    open spec fn view(&self) -> DataSourceView {
        DataSourceView {
            unknown1: self.unknown1,
            unknown2: self.unknown2,
            selected_columns: self.selected_columns@,
            table: self.table@,
            schema: self.schema@,
        }
    }
}

/// What `parse_data_source_record` returns on `s`.
pub open spec fn spec_data_source_record(s: Seq<u8>) -> Result<(Seq<u8>, DataSourceView), Error> {
    match spec_le_u32(s) {
        Ok((r0, unknown1)) => match spec_le_u32(r0) {
            Ok((r1, unknown2)) => match spec_counted_u32_array(r1) {
                Ok((r2, selected_columns)) => match spec_u32_wstring_nt(r2) {
                    Ok((r3, schema)) => match spec_u32_wstring_nt(r3) {
                        Ok((rest, table)) => Ok(
                            (
                                rest,
                                (DataSourceView {
                                    unknown1,
                                    unknown2,
                                    selected_columns,
                                    table,
                                    schema,
                                }),
                            ),
                        ),
                        Err(e) => Err(e),
                    },
                    Err(e) => Err(e),
                },
                Err(e) => Err(e),
            },
            Err(e) => Err(e),
        },
        Err(e) => Err(e),
    }
}

/// What `parse_data_source` returns on `s`.
#[verifier::opaque]
pub open spec fn spec_data_source(s: Seq<u8>) -> Result<(Seq<u8>, DataSourceView), Error> {
    match spec_magic(s, FRAME_MAGIC) {
        Ok((r0, _)) => match spec_version(r0, 4, 0) {
            Ok((r1, _)) => match spec_window(r1) {
                Ok((rest, record)) => match spec_data_source_record(record) {
                    Ok((_, data_source)) => Ok((rest, data_source)),
                    Err(e) => Err(e),
                },
                Err(e) => Err(e),
            },
            Err(e) => Err(e),
        },
        Err(e) => Err(e),
    }
}

/// Reads the record of a data source: two words, the counted indices of the
/// selected columns, the schema name and the table name.
pub fn parse_data_source_record(input: &[u8]) -> (res: Result<(&[u8], DataSource), Error>)
    ensures
        viewed(res) == spec_data_source_record(input@),
{
    let (rest, unknown1) = le_u32(input)?;
    let (rest, unknown2) = le_u32(rest)?;
    let (rest, selected_columns) = counted_u32_array(rest)?;
    let (rest, schema) = parse_u32_wstring_nt(rest)?;
    let (rest, table) = parse_u32_wstring_nt(rest)?;
    Ok((rest, DataSource { unknown1, unknown2, selected_columns, table, schema }))
}

/// Reads a data source: its guard, the version 0.4, and the record in a
/// window of its own. What the record leaves of its window is skipped.
pub fn parse_data_source(input: &[u8]) -> (res: Result<(&[u8], DataSource), Error>)
    ensures
        viewed(res) == spec_data_source(input@),
{
    reveal(spec_data_source);
    let (rest, _) = magic(input, FRAME_MAGIC)?;
    let (rest, _) = version(rest, 4, 0)?;
    let (rest, record) = window(rest)?;
    let (_, data_source) = parse_data_source_record(record)?;
    Ok((rest, data_source))
}

/// The frame of a grid: its caption and its five layouts.
#[derive(Debug, Clone, PartialEq, Eq)]
pub struct GridFrameWnd {
    pub caption: String,
    /// The layouts in the order of the stream: the whole grid, the columns,
    /// the keys, and two more.
    pub layouts: [GridLayoutSpec; 5],
}

/// The model of a `GridFrameWnd`.
pub struct GridFrameWndView {
    pub caption: Seq<char>,
    pub layouts: Seq<GridLayoutSpecView>,
}

impl View for GridFrameWnd {
    type V = GridFrameWndView;

    open spec fn view(&self) -> GridFrameWndView {
        GridFrameWndView {
            caption: self.caption@,
            layouts: Seq::new(5, |i: int| self.layouts@[i]@),
        }
    }
}

/// The grid control.
#[derive(Debug, Clone, PartialEq, Eq)]
pub struct SchGrid {
    pub extent: Size,
    pub frame: Box<GridFrameWnd>,
    pub data_source: DataSource,
}

/// The model of a `SchGrid`.
pub struct SchGridView {
    pub extent: Size,
    pub frame: GridFrameWndView,
    pub data_source: DataSourceView,
}

impl View for SchGrid {
    type V = SchGridView;

    open spec fn view(&self) -> SchGridView {
        SchGridView { extent: self.extent, frame: self.frame@, data_source: self.data_source@ }
    }
}

impl SchGridView {
    /// Whether the grid has five layouts, each with one width for each of its columns.
    pub open spec fn wf(self) -> bool {
        &&& self.frame.layouts.len() == LAYOUT_COUNT
        &&& forall|i: int| 0 <= i < self.frame.layouts.len() ==> (#[trigger] self.frame.layouts[i]).wf()
    }
}

/// What is read of the caption of a frame: a window, and in it text up to a
/// zero code unit.
pub open spec fn spec_caption(s: Seq<u8>) -> Result<(Seq<u8>, Seq<char>), Error> {
    match spec_window(s) {
        Ok((rest, bytes)) => match spec_wstring_nt(bytes) {
            Ok((_, caption)) => Ok((rest, caption)),
            Err(e) => Err(e),
        },
        Err(e) => Err(e),
    }
}

/// What `parse_sch_grid` returns on `s`.
pub open spec fn spec_sch_grid(s: Seq<u8>) -> Result<(Seq<u8>, SchGridView), Error> {
    match spec_ole_control_extent(s) {
        Ok((r0, extent)) => match spec_magic(r0, FRAME_MAGIC) {
            Ok((r1, _)) => match spec_version(r1, 7, 0) {
                Ok((r2, _)) => match spec_caption(r2) {
                    Ok((r3, caption)) => match spec_layout(r3) {
                        Ok((r4, primary)) => match spec_layout(r4) {
                            Ok((r5, columns)) => match spec_layout(r5) {
                                Ok((r6, keys)) => match spec_layout(r6) {
                                    Ok((r7, x2)) => match spec_layout(r7) {
                                        Ok((r8, x3)) => match spec_data_source(r8) {
                                            Ok((rest, data_source)) => Ok(
                                                (
                                                    rest,
                                                    (SchGridView {
                                                        extent,
                                                        frame: (GridFrameWndView {
                                                            caption,
                                                            layouts: seq![
                                                                primary,
                                                                columns,
                                                                keys,
                                                                x2,
                                                                x3,
                                                            ],
                                                        }),
                                                        data_source,
                                                    }),
                                                ),
                                            ),
                                            Err(e) => Err(e),
                                        },
                                        Err(e) => Err(e),
                                    },
                                    Err(e) => Err(e),
                                },
                                Err(e) => Err(e),
                            },
                            Err(e) => Err(e),
                        },
                        Err(e) => Err(e),
                    },
                    Err(e) => Err(e),
                },
                Err(e) => Err(e),
            },
            Err(e) => Err(e),
        },
        Err(e) => Err(e),
    }
}

/// Reads a grid control.
///
/// In order: the extent of the control behind its guard and version 0.8; the
/// guard of the frame and its version 0.7; the caption in a window of its
/// own; the five layouts; the data source.
pub fn parse_sch_grid(input: &[u8]) -> (res: Result<(&[u8], SchGrid), Error>)
    ensures
        viewed(res) == spec_sch_grid(input@),
        res matches Ok((_, grid)) ==> grid@.wf(),
{
    let (rest, extent) = parse_ole_control_extent(input)?;
    let (rest, _) = magic(rest, FRAME_MAGIC)?;
    let (rest, _) = version(rest, 7, 0)?;
    let (rest, bytes) = window(rest)?;
    let (_, caption) = parse_wstring_nt(bytes)?;
    let (rest, primary) = parse_sch_grid_layout(rest)?;
    let (rest, columns) = parse_sch_grid_layout(rest)?;
    let (rest, keys) = parse_sch_grid_layout(rest)?;
    let (rest, x2) = parse_sch_grid_layout(rest)?;
    let (rest, x3) = parse_sch_grid_layout(rest)?;
    let (rest, data_source) = parse_data_source(rest)?;
    let frame = GridFrameWnd { caption, layouts: [primary, columns, keys, x2, x3] };
    let grid = SchGrid { extent, frame: Box::new(frame), data_source };
    assert(grid@.frame.layouts =~= seq![primary@, columns@, keys@, x2@, x3@]);
    Ok((rest, grid))
}

/// Whether an error says that a guard or a version is not the one that the
/// format puts at that place.
pub open spec fn structural_mismatch(e: Error) -> bool {
    e matches Error::ParseError(kind, _) && (kind == ErrorKind::Magic || kind == ErrorKind::Version)
}

/// The guard of the control's extent is enforced: a grid whose first four
/// bytes do not hold `OLE_CONTROL_MAGIC`, be it by one bit, is refused with
/// `ErrorKind::Magic` at its first byte, whatever the other bytes hold.
pub proof fn lemma_control_magic_is_enforced(s: Seq<u8>)
    requires
        s.len() >= 4,
        u32_at(s, 0) != OLE_CONTROL_MAGIC,
    ensures
        spec_sch_grid(s) == Err::<(Seq<u8>, SchGridView), Error>(
            Error::ParseError(ErrorKind::Magic, s.len() as usize),
        ),
{
}

/// The guard of the frame is enforced: a grid whose bytes 16 to 19 do not
/// hold `FRAME_MAGIC`, be it by one bit, is refused as a structural mismatch;
/// with a well-formed extent before it, with `ErrorKind::Magic` at byte 16.
pub proof fn lemma_frame_magic_is_enforced(s: Seq<u8>)
    requires
        s.len() >= 20,
        u32_at(s, 16) != FRAME_MAGIC,
    ensures
        spec_sch_grid(s) matches Err(e) && structural_mismatch(e),
        spec_ole_control_extent(s) is Ok ==> spec_sch_grid(s) == Err::<
            (Seq<u8>, SchGridView),
            Error,
        >(Error::ParseError(ErrorKind::Magic, (s.len() - 16) as usize)),
{
    if let Ok((r0, _)) = spec_ole_control_extent(s) {
        assert(r0 =~= after(s, 16));
    }
}

/// Every decoded layout has one width for each of its columns.
pub proof fn lemma_layout_has_a_width_for_each_column(s: Seq<u8>)
    ensures
        spec_layout(s) matches Ok((_, layout)) ==> layout.column_widths.len() == layout.col_count,
{
    reveal(spec_layout);
}

/// Every decoded grid has five layouts, each with one width for each of its columns.
pub proof fn lemma_grid_layouts_are_well_formed(s: Seq<u8>)
    ensures
        spec_sch_grid(s) matches Ok((_, grid)) ==> grid.wf(),
{
    if let Ok((r0, _)) = spec_ole_control_extent(s) {
        if let Ok((r1, _)) = spec_magic(r0, FRAME_MAGIC) {
            if let Ok((r2, _)) = spec_version(r1, 7, 0) {
                if let Ok((r3, _)) = spec_caption(r2) {
                    lemma_layout_has_a_width_for_each_column(r3);
                    if let Ok((r4, _)) = spec_layout(r3) {
                        lemma_layout_has_a_width_for_each_column(r4);
                        if let Ok((r5, _)) = spec_layout(r4) {
                            lemma_layout_has_a_width_for_each_column(r5);
                            if let Ok((r6, _)) = spec_layout(r5) {
                                lemma_layout_has_a_width_for_each_column(r6);
                                if let Ok((r7, _)) = spec_layout(r6) {
                                    lemma_layout_has_a_width_for_each_column(r7);
                                }
                            }
                        }
                    }
                }
            }
        }
    }
}

} // verus!
