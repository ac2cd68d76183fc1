//! The row type of the `tui` crate, as far as the verifier needs to know it.

use vstd::prelude::*;

verus! {

/// Declares `tui::widgets::Row`, the row of a `tui` table.
///
/// Nothing is claimed about what a row holds. To the verifier a row is a value
/// that can be handed on and compared with another row, and nothing else.
#[verifier::external_type_specification]
#[verifier::external_body]
pub struct ExRow<'a>(tui::widgets::Row<'a>);

} // verus!
