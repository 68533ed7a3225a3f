//! The sites of a diagram and the controls that they hold.

use vstd::prelude::*;
use crate::dds::{
    parse_label, parse_polyline, spec_label, spec_polyline, Label, LabelView, Polyline,
    PolylineView, CLSID_DDSLABEL, CLSID_POLYLINE,
};
use crate::dsref::DSRefSchemaContents;
use crate::error::Error;
use crate::guid::Guid;
use crate::mdtdb::{parse_sch_grid, spec_sch_grid, SchGrid, SchGridView, CLSID_SCHGRID};
use crate::parser::{parse_relationship, spec_relationship};
use crate::properties::Position;

verus! {

/// What the form says of a site: where the control stands and what its tooltip is.
#[derive(Debug)]
pub struct SiteInfo {
    pub id: i32,
    pub depth: u8,
    pub pos: Position,
    pub tooltip: String,
}

/// The control of a site.
#[derive(Debug)]
pub enum Control<F> {
    SchGrid(SchGrid),
    Label(Label<F>),
    Polyline(Polyline),
    /// A control of a class that has no decoder, with the identifier of that class.
    Unknown(Guid),
}

/// The model of a `Control`.
pub enum ControlView<F> {
    SchGrid(SchGridView),
    Label(LabelView<F>),
    Polyline(PolylineView),
    Unknown(Guid),
}

impl<F> View for Control<F> {
    type V = ControlView<F>;

    open spec fn view(&self) -> ControlView<F> {
        match self {
            Control::SchGrid(grid) => ControlView::SchGrid(grid@),
            Control::Label(label) => ControlView::Label(label@),
            Control::Polyline(polyline) => ControlView::Polyline(polyline@),
            Control::Unknown(clsid) => ControlView::Unknown(*clsid),
        }
    }
}

/// The model of what decoding a site gave.
pub open spec fn control_outcome<F>(res: Result<Control<F>, Error>) -> Result<
    ControlView<F>,
    Error,
> {
    match res {
        Ok(control) => Ok(control@),
        Err(e) => Err(e),
    }
}

/// What `decode_control` returns on the class `clsid`, the bytes `data` and
/// the font outcome `font`.
pub open spec fn spec_control<F>(clsid: Guid, data: Seq<u8>, font: Option<(F, usize)>) -> Result<
    ControlView<F>,
    Error,
> {
    if clsid == CLSID_SCHGRID {
        match spec_sch_grid(data) {
            Ok((_, grid)) => Ok(ControlView::SchGrid(grid)),
            Err(e) => Err(e),
        }
    } else if clsid == CLSID_POLYLINE {
        match spec_polyline(data) {
            Ok((_, polyline)) => Ok(ControlView::Polyline(polyline)),
            Err(e) => Err(e),
        }
    } else if clsid == CLSID_DDSLABEL {
        match spec_label(data, font) {
            Ok((_, label)) => Ok(ControlView::Label(label)),
            Err(e) => Err(e),
        }
    } else {
        Ok(ControlView::Unknown(clsid))
    }
}

/// Decodes the bytes of a site by the class of its control.
///
/// A grid, a polyline and a label have a decoder each; a site of any other
/// class gives `Control::Unknown` with that class, and never an error.
/// `font` is what `parse_label` takes; it is looked at for a label only.
pub fn decode_control<F>(clsid: Guid, data: &[u8], font: Option<(F, usize)>) -> (res: Result<
    Control<F>,
    Error,
>)
    ensures
        control_outcome(res) == spec_control(clsid, data@, font),
{
    if clsid == CLSID_SCHGRID {
        let (_, grid) = parse_sch_grid(data)?;
        Ok(Control::SchGrid(grid))
    } else if clsid == CLSID_POLYLINE {
        let (_, polyline) = parse_polyline(data)?;
        Ok(Control::Polyline(polyline))
    } else if clsid == CLSID_DDSLABEL {
        let (_, label) = parse_label(data, font)?;
        Ok(Control::Label(label))
    } else {
        Ok(Control::Unknown(clsid))
    }
}

/// A site as the form hands it over: what the form says of it, the class of
/// its control, the bytes of the control, and what the form layer made of the
/// font descriptor in them (see `parse_label`).
#[derive(Debug)]
pub struct Site<F> {
    pub info: SiteInfo,
    pub clsid: Guid,
    pub data: Vec<u8>,
    pub font: Option<(F, usize)>,
}

/// Decodes each site of a form on its own.
///
/// The result has one entry for each site, in the order of the sites: what
/// the form says of the site, and the control or the reason why it could not
/// be decoded. A site that fails leaves the other sites as they are.
pub fn decode_sites<F>(sites: Vec<Site<F>>) -> (res: Vec<(SiteInfo, Result<Control<F>, Error>)>)
    ensures
        res@.len() == sites@.len(),
        forall|i: int|
            0 <= i < sites@.len() ==> {
                &&& (#[trigger] res@[i]).0 == sites@[i].info
                &&& control_outcome(res@[i].1) == spec_control(
                    sites@[i].clsid,
                    sites@[i].data@,
                    sites@[i].font,
                )
            },
{
    let ghost all = sites@;
    let mut decoded: Vec<(SiteInfo, Result<Control<F>, Error>)> = Vec::new();
    for site in it: sites.into_iter()
        invariant
            it.seq() == all,
            decoded@.len() == it.index(),
            forall|i: int|
                0 <= i < decoded@.len() ==> {
                    &&& (#[trigger] decoded@[i]).0 == all[i].info
                    &&& control_outcome(decoded@[i].1) == spec_control(
                        all[i].clsid,
                        all[i].data@,
                        all[i].font,
                    )
                },
    {
        let Site { info, clsid, data, font } = site;
        let control = decode_control(clsid, data.as_slice(), font);
        decoded.push((info, control));
    }
    decoded
}

/// A table of the diagram: a grid, with the identifier and the tooltip of its site.
#[derive(Debug)]
pub struct Table {
    pub id: i32,
    pub sch_grid: SchGrid,
    pub caption: String,
}

/// A relationship of the diagram: a polyline, with the identifier and the
/// tooltip of its site and the names that the tooltip gives.
#[derive(Debug)]
pub struct Relationship {
    pub id: i32,
    pub control: Polyline,
    pub caption: String,
    pub from: String,
    pub to: String,
    pub name: String,
}

/// A diagram: its tables, its relationships and its data source reference.
#[derive(Debug)]
pub struct SysDiagram {
    pub tables: Vec<Table>,
    pub relationships: Vec<Relationship>,
    pub dsref_schema_contents: DSRefSchemaContents,
}

/// The model of a `Table`.
pub struct TableView {
    pub id: i32,
    pub sch_grid: SchGridView,
    pub caption: Seq<char>,
}

/// The model of a `Relationship`.
pub struct RelationshipView {
    pub id: i32,
    pub control: PolylineView,
    pub caption: Seq<char>,
    pub from: Seq<char>,
    pub to: Seq<char>,
    pub name: Seq<char>,
}

impl View for Table {
    type V = TableView;

    open spec fn view(&self) -> TableView {
        TableView { id: self.id, sch_grid: self.sch_grid@, caption: self.caption@ }
    }
}

impl View for Relationship {
    type V = RelationshipView;

    open spec fn view(&self) -> RelationshipView {
        RelationshipView {
            id: self.id,
            control: self.control@,
            caption: self.caption@,
            from: self.from@,
            to: self.to@,
            name: self.name@,
        }
    }
}

/// The models of a run of tables.
pub open spec fn tables_view(tables: Seq<Table>) -> Seq<TableView> {
    Seq::new(tables.len(), |i: int| tables[i]@)
}

/// The models of a run of relationships.
pub open spec fn relationships_view(relationships: Seq<Relationship>) -> Seq<RelationshipView> {
    Seq::new(relationships.len(), |i: int| relationships[i]@)
}

/// What `relationship_of_site` returns for a site with the identifier `id`,
/// the tooltip `tooltip` and the polyline `control`.
pub open spec fn spec_relationship_of_site(
    id: i32,
    tooltip: Seq<char>,
    control: PolylineView,
) -> Result<RelationshipView, Error> {
    match spec_relationship(tooltip) {
        Ok((_, (name, from, to))) => Ok(
            RelationshipView { id, control, caption: tooltip, from, to, name },
        ),
        Err(e) => Err(e),
    }
}

/// Makes a relationship of a polyline and of what the form says of its site.
///
/// The tooltip of the site names the relationship and the two tables that it
/// joins (see `parse_relationship`). A tooltip of another form is an error of
/// this site alone.
pub fn relationship_of_site(info: SiteInfo, control: Polyline) -> (res: Result<
    Relationship,
    Error,
>)
    ensures
        match spec_relationship_of_site(info.id, info.tooltip@, control@) {
            Ok(relationship) => res matches Ok(r) && r@ == relationship,
            Err(e) => res == Err::<Relationship, Error>(e),
        },
{
    let (_, (name, from, to)) = parse_relationship(info.tooltip.as_str())?;
    Ok(Relationship { id: info.id, control, caption: info.tooltip, from, to, name })
}

/// What becomes of a site when a diagram is assembled.
pub enum Part {
    /// A grid: it becomes this table.
    Table(TableView),
    /// A polyline with a caption of the usual form: it becomes this relationship.
    Relationship(RelationshipView),
    /// A site that could not be decoded, or a polyline with a caption of
    /// another form: its identifier and the error.
    Failure(i32, Error),
    /// A label or a control of an unknown class: it is left out.
    Other,
}

/// What becomes of the site `info` with the outcome `control`.
pub open spec fn spec_part<F>(info: SiteInfo, control: Result<Control<F>, Error>) -> Part {
    match control {
        Ok(Control::SchGrid(grid)) => Part::Table(
            TableView { id: info.id, sch_grid: grid@, caption: info.tooltip@ },
        ),
        Ok(Control::Polyline(polyline)) => match spec_relationship_of_site(
            info.id,
            info.tooltip@,
            polyline@,
        ) {
            Ok(relationship) => Part::Relationship(relationship),
            Err(e) => Part::Failure(info.id, e),
        },
        Ok(_) => Part::Other,
        Err(e) => Part::Failure(info.id, e),
    }
}

/// The tables among the sites, in the order of the sites.
pub open spec fn spec_tables<F>(sites: Seq<(SiteInfo, Result<Control<F>, Error>)>) -> Seq<
    TableView,
>
    decreases sites.len(),
{
    if sites.len() == 0 {
        Seq::empty()
    } else {
        let before = spec_tables(sites.drop_last());
        match spec_part(sites.last().0, sites.last().1) {
            Part::Table(table) => before.push(table),
            _ => before,
        }
    }
}

/// The relationships among the sites, in the order of the sites.
pub open spec fn spec_relationships<F>(sites: Seq<(SiteInfo, Result<Control<F>, Error>)>) -> Seq<
    RelationshipView,
>
    decreases sites.len(),
{
    if sites.len() == 0 {
        Seq::empty()
    } else {
        let before = spec_relationships(sites.drop_last());
        match spec_part(sites.last().0, sites.last().1) {
            Part::Relationship(relationship) => before.push(relationship),
            _ => before,
        }
    }
}

/// The failures among the sites, in the order of the sites.
pub open spec fn spec_failures<F>(sites: Seq<(SiteInfo, Result<Control<F>, Error>)>) -> Seq<
    (i32, Error),
>
    decreases sites.len(),
{
    if sites.len() == 0 {
        Seq::empty()
    } else {
        let before = spec_failures(sites.drop_last());
        match spec_part(sites.last().0, sites.last().1) {
            Part::Failure(id, e) => before.push((id, e)),
            _ => before,
        }
    }
}

/// Assembles a diagram from its data source reference and its decoded sites.
///
/// Each grid becomes a table and each polyline a relationship, named by the
/// tooltip of its site. A site that could not be decoded, and a polyline
/// whose tooltip is not the caption of a relationship, is reported by its
/// identifier and its error; the other sites are not touched by it. Labels
/// and controls of unknown classes have no place in the result.
pub fn assemble_diagram<F>(
    dsref_schema_contents: DSRefSchemaContents,
    sites: Vec<(SiteInfo, Result<Control<F>, Error>)>,
) -> (res: (SysDiagram, Vec<(i32, Error)>))
    ensures
        res.0.dsref_schema_contents == dsref_schema_contents,
        tables_view(res.0.tables@) == spec_tables(sites@),
        relationships_view(res.0.relationships@) == spec_relationships(sites@),
        res.1@ == spec_failures(sites@),
{
    let ghost all = sites@;
    let mut tables: Vec<Table> = Vec::new();
    let mut relationships: Vec<Relationship> = Vec::new();
    let mut failures: Vec<(i32, Error)> = Vec::new();
    for site in it: sites.into_iter()
        invariant
            it.seq() == all,
            tables_view(tables@) == spec_tables(all.take(it.index() as int)),
            relationships_view(relationships@) == spec_relationships(all.take(it.index() as int)),
            failures@ == spec_failures(all.take(it.index() as int)),
    {
        proof {
            let done = all.take(it.index() as int);
            let next = all.take(it.index() + 1);
            assert(next.drop_last() =~= done);
            assert(next.last() == all[it.index() as int]);
        }
        let (info, control) = site;
        match control {
            Ok(Control::SchGrid(sch_grid)) => {
                tables.push(Table { id: info.id, sch_grid, caption: info.tooltip });
            },
            Ok(Control::Polyline(polyline)) => {
                let id: i32 = info.id;
                match relationship_of_site(info, polyline) {
                    Ok(relationship) => {
                        relationships.push(relationship);
                    },
                    Err(e) => {
                        failures.push((id, e));
                    },
                }
            },
            Ok(_) => {},
            Err(e) => {
                failures.push((info.id, e));
            },
        }
    }
    assert(all.take(all.len() as int) =~= all);
    (SysDiagram { tables, relationships, dsref_schema_contents }, failures)
}

/// A site of a class without a decoder is passed through: it gives
/// `Control::Unknown` with that class, whatever its bytes hold, and never an
/// error.
pub proof fn lemma_unknown_class_is_passed_through<F>(
    clsid: Guid,
    data: Seq<u8>,
    font: Option<(F, usize)>,
)
    requires
        clsid != CLSID_SCHGRID,
        clsid != CLSID_POLYLINE,
        clsid != CLSID_DDSLABEL,
    ensures
        spec_control(clsid, data, font) == Ok::<ControlView<F>, Error>(ControlView::Unknown(clsid)),
{
}

/// Decoding a site is a function of its class, its bytes and its font
/// outcome: two outcomes of `decode_control` on the same site have the same
/// model.
pub proof fn lemma_decode_control_is_stable<F>(
    clsid: Guid,
    data: Seq<u8>,
    font: Option<(F, usize)>,
    first: Result<Control<F>, Error>,
    second: Result<Control<F>, Error>,
)
    requires
        control_outcome(first) == spec_control(clsid, data, font),
        control_outcome(second) == spec_control(clsid, data, font),
    ensures
        control_outcome(first) == control_outcome(second),
{
}

} // verus!
