//! The `watch` command: the interfaces, shown again and again.

use vstd::prelude::*;
use crate::cli::diff::text_view;
use crate::cli::stats::{select_links, selected};
use crate::netlink::links_view;
use crate::network::LinkInfo;

verus! {

/// The arguments of `watch`.
#[derive(Debug, Clone, PartialEq, Eq)]
pub struct WatchArgs {
    /// The interface to watch; all if absent.
    pub interface: Option<String>,
    /// The seconds between two readings.
    pub interval: u64,
}

impl WatchArgs {
    /// The links of one reading that are shown: those of the name that
    /// was given, or all. The name is not looked up: where no link of the
    /// listing bears it, nothing is shown, and that is no error.
    pub fn select(&self, links: Vec<LinkInfo>) -> (chosen: Vec<LinkInfo>)
        ensures
            links_view(chosen@) == selected(links_view(links@), text_view(self.interface)),
    {
        select_links(links, &self.interface)
    }
}

} // verus!
