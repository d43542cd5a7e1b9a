//! The `show` command: one interface or all.

use vstd::prelude::*;
use crate::client::{finds, links_result, lists, ok_or_not_found, NetlinkTransport};
use crate::network::LinkInfoModel;
use crate::dbus::DbusTransport;
use crate::error::{Error, ErrorModel};
use crate::mac::{mac_text, MacAddress};
use crate::manager::NetworkManager;
use crate::network::{LinkInfo, LinkState};

verus! {

/// The arguments of `show`.
#[derive(Debug, Clone, PartialEq, Eq)]
pub struct ShowArgs {
    /// The name of the interface; all interfaces if absent.
    pub interface: Option<String>,
    /// Write JSON.
    pub json: bool,
}

/// How a state is shown.
pub open spec fn state_text(state: LinkState) -> Seq<char> {
    match state {
        LinkState::Up => "UP"@,
        LinkState::Down => "DOWN"@,
    }
}

/// How a state is shown: `UP` or `DOWN`.
pub fn state_label(state: LinkState) -> (label: &'static str)
    ensures
        label@ == state_text(state),
{
    match state {
        LinkState::Up => "UP",
        LinkState::Down => "DOWN",
    }
}

/// How a hardware address is shown in a table: its text, or a dash where
/// there is none.
pub fn mac_label(mac: &Option<MacAddress>) -> (label: String)
    ensures
        match mac {
            Some(m) => label@ == mac_text(m@),
            None => label@ == "-"@,
        },
{
    match mac {
        Some(m) => m.to_string(),
        None => "-".to_owned(),
    }
}

impl ShowArgs {
    /// The interfaces to show. With a name, the kernel is asked for the
    /// interface of this name, and what comes back is the one snapshot
    /// that it answered with, or the error of the query. Without a name,
    /// the kernel is asked for all interfaces, and what comes back is the
    /// listing.
    pub fn execute<N: NetlinkTransport, D: DbusTransport>(
        &self,
        manager: &NetworkManager<N, D>,
    ) -> (r: Result<Vec<LinkInfo>, Error>)
        ensures
            match self.interface {
                Some(name) => ok_or_not_found(r, name@) && match r {
                    Ok(links) => links@.len() == 1 && finds(
                        manager.kernel(),
                        name@,
                        Ok::<LinkInfoModel, ErrorModel>(links@[0]@),
                    ),
                    Err(e) => finds(
                        manager.kernel(),
                        name@,
                        Err::<LinkInfoModel, ErrorModel>(e@),
                    ),
                },
                None => lists(manager.kernel(), links_result(r)) && (r matches Err(e) ==> e@
                    is Netlink),
            },
    {
        match &self.interface {
            Some(name) => match manager.get_link_info(name.as_str()) {
                Ok(link) => {
                    let mut links: Vec<LinkInfo> = Vec::new();
                    links.push(link);
                    Ok(links)
                },
                Err(e) => Err(e),
            },
            None => manager.list_links(),
        }
    }
}

} // verus!
