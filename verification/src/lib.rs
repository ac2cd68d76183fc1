//! Records that can stand as rows of a terminal table.
//!
//! A table widget shows a collection of records, one row each. What a row holds
//! is up to the record's type: it implements [`ToDataRow`] and builds the row
//! from its own fields, the table's columns, the table's styling and the
//! record's position. The same trait lets a type suggest column widths; left
//! alone it suggests none, which is [`default_column_widths`].
//!
//! The rows are those of the `tui` crate. [`laws`] holds what follows from the
//! contracts for every implementation.

pub mod laws;
pub mod row;
pub mod to_data_row;

pub use to_data_row::{default_column_widths, ToDataRow};
