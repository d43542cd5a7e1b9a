//! The `tui` command.

use vstd::prelude::*;

verus! {

/// The arguments of `tui`: none.
#[derive(Debug, Clone, PartialEq, Eq)]
pub struct TuiArgs {}

} // verus!
