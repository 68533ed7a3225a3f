//! Decoders for the database diagrams of SQL Server.
//!
//! A diagram is kept as a compound document. One of its streams holds a data
//! source reference, a tree that names the database, the diagram and its
//! tables (`dsref`). Another holds a form whose sites are the controls of the
//! diagram: a grid for each table (`mdtdb`), a polyline for each relationship
//! and a label for each annotation (`dds`). This crate decodes the bytes of
//! those streams; opening the document and walking the form is left to the
//! caller, who hands over the bytes of each site (`diagram`).

pub mod dds;
pub mod diagram;
pub mod dsref;
pub mod dtyp;
pub mod error;
pub mod guid;
pub mod mdtdb;
pub mod parser;
pub mod properties;

pub use diagram::{
    assemble_diagram, decode_control, decode_sites, relationship_of_site, Control, Relationship,
    Site, SiteInfo, SysDiagram, Table,
};
pub use error::{Error, ErrorKind};
pub use mdtdb::SchGrid;
pub use parser::parse_relationship;
