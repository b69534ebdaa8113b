//! Flattening of two medical code catalogues into tabular rows.
//!
//! `catalogue` models the tree-shaped search catalogue and `icd10_extractor`
//! flattens its diagnosis criteria into rows. `icdo3_extractor` recovers
//! site and morphology rows from the text of a topography document, with
//! `text` for its lines and `pattern` for the regular expressions that it
//! holds each line against. `table` renders rows as CSV bytes.

pub mod catalogue;
pub mod icd10_extractor;
pub mod icdo3_extractor;
pub mod table;
pub mod pattern;
pub mod text;
