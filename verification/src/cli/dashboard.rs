//! The `dashboard` command.

use vstd::prelude::*;

verus! {

/// The arguments of `dashboard`: none.
#[derive(Debug, Clone, PartialEq, Eq)]
pub struct DashboardArgs {}

} // verus!
