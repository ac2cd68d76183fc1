//! The conversion from a record to a table row.

use tui::widgets::Row;
use vstd::prelude::*;

verus! {

/// No width hints at all: the table is to size every column by its own rules.
///
/// This is what [`ToDataRow::column_widths`] answers unless a type overrides
/// it. The records are not looked at, so the answer is the same for every
/// slice, the empty one included. A type that overrides `column_widths` only
/// for some data can call this for the rest.
#[allow(unused_variables)]
pub fn default_column_widths<T>(data: &[T]) -> (widths: Vec<u16>)
    ensures
        widths@ == Seq::<u16>::empty(),
{
    Vec::new()
}

/// A record that a table can show as one of its rows.
pub trait ToDataRow {
    /// What the table knows about one of its columns.
    type DataColumn;

    /// The table's presentation rules, such as its colours and how it marks
    /// the selected row.
    type Styling;

    /// The row that stands for `self` when it is the record at position
    /// `index` of a table with these columns and this styling.
    ///
    /// An implementation may define it. Where none does, it is some function
    /// of the record, the columns, the styling and the position, of which no
    /// more is known; that it is a function of these four alone is what
    /// [`ToDataRow::to_data_row`] promises.
    open spec fn data_row<'a>(
        &'a self,
        columns: Seq<Self::DataColumn>,
        styling: Self::Styling,
        index: usize,
    ) -> Row<'a> {
        arbitrary::<spec_fn(&'a Self, Seq<Self::DataColumn>, Self::Styling, usize) -> Row<'a>>()(
            self,
            columns,
            styling,
            index,
        )
    }

    /// Builds the row for `self`, the record at position `index` (counted from
    /// zero) of what the table shows.
    ///
    /// The row borrows from `self` and so cannot outlive it. It is
    /// [`ToDataRow::data_row`] of the arguments as they are at the call:
    /// nothing else has a part in it, and nothing that happens to the record
    /// afterwards reaches a row that was already built. There is no failure:
    /// a type that is handed fewer columns than it has fields to show still
    /// answers with a row.
    fn to_data_row<'a>(
        &'a self,
        columns: &[Self::DataColumn],
        styling: &Self::Styling,
        index: usize,
    ) -> (row: Row<'a>)
        ensures
            row == self.data_row(columns@, *styling, index),
    ;

    /// Width hints for the columns of a table that shows `data`, in column
    /// order.
    ///
    /// A type that does not override this gives no hints, whatever `data`
    /// holds: see [`default_column_widths`].
    fn column_widths(data: &[Self]) -> (widths: Vec<u16>) where Self: Sized
        default_ensures
            widths@ == Seq::<u16>::empty(),
    {
        default_column_widths(data)
    }
}

} // verus!
