//! Validation of mission/scenario description files for a simulation editor.
//!
//! The library projects a generic node/value tree into a typed model of
//! "units" (`Scenario`, `UnitRef`), interprets each unit's raw fields
//! according to its category (`Fields`), and runs referential-integrity
//! checks across the model, producing human-readable warnings.

pub mod catalog;
pub mod catalog_data;
pub mod fields;
pub mod lints;
pub mod strutil;
pub mod tree;
pub mod units;

pub use strutil::parse_i64_str;
