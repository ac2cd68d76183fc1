//! What the contracts of [`crate::to_data_row`] imply for every implementation.

use crate::to_data_row::{default_column_widths, ToDataRow};
use tui::widgets::Row;
use vstd::prelude::*;

verus! {

/// Converting a record twice, with the same columns, the same styling and the
/// same position, gives the same row: if `first` and `second` can both come
/// back from such a call of `to_data_row`, they are equal.
pub proof fn conversion_is_repeatable<'a, T: ToDataRow>(
    value: &'a T,
    columns: &[T::DataColumn],
    styling: &T::Styling,
    index: usize,
    first: Row<'a>,
    second: Row<'a>,
)
    requires
        call_ensures(T::to_data_row, (value, columns, styling, index), first),
        call_ensures(T::to_data_row, (value, columns, styling, index), second),
    ensures
        first == second,
{
}

/// The default width hints do not depend on the records: for any two slices,
/// of any lengths and contents, what `default_column_widths` can return for
/// the one and for the other is the same, namely nothing.
pub proof fn default_widths_ignore_data<T>(
    one: &[T],
    other: &[T],
    of_one: Vec<u16>,
    of_other: Vec<u16>,
)
    requires
        call_ensures(default_column_widths::<T>, (one,), of_one),
        call_ensures(default_column_widths::<T>, (other,), of_other),
    ensures
        of_one@ == of_other@,
        of_one@.len() == 0,
{
}

} // verus!
