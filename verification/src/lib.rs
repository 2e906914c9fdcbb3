//! Compiler from a typed tabletop-content model (spells, rollable tables,
//! module metadata) to the nested markup documents that a virtual-tabletop
//! application loads from a two-entry archive.
//!
//! The library covers the content-to-schema mapping: identifier allocation,
//! the markup tree builder, the per-record emitters and the assembly of the
//! two output documents. Reading source files and writing the archive are
//! left to the surrounding application.

pub mod fgu_module;
pub mod ids;
pub mod inputs;
pub mod markup;
pub mod spell;
pub mod tables;
pub mod xml;
