//! The `addr` command: addresses of an interface.

use vstd::prelude::*;
use crate::client::NetlinkTransport;
use crate::dbus::DbusTransport;
use crate::error::{bare_result, Error, ErrorModel};
use crate::manager::{acts_by_name, LinkActionModel, NetworkManager};
use crate::network::{parse_cidr, IpNetwork};

verus! {

/// The `addr` command.
#[derive(Debug, Clone, PartialEq, Eq)]
pub struct AddressCommand {
    pub command: AddressSubcommand,
}

/// What to do with addresses.
#[derive(Debug, Clone, PartialEq, Eq)]
pub enum AddressSubcommand {
    /// Add an address to an interface.
    Add(AddArgs),
}

/// The arguments of `addr add`.
#[derive(Debug, Clone, PartialEq, Eq)]
pub struct AddArgs {
    /// The name of the interface.
    pub interface: String,
    /// The address with its prefix, such as `192.168.1.10/24`.
    pub address: String,
}

impl AddArgs {
    /// Reads the address, then has the manager add it to the interface:
    /// the name is resolved, and the network that the text stands for is
    /// added to the link found. An address that cannot be read is refused
    /// before anything is asked of the kernel. On success the network
    /// that was added is handed back.
    pub fn execute<N: NetlinkTransport, D: DbusTransport>(
        &self,
        manager: &NetworkManager<N, D>,
    ) -> (r: Result<IpNetwork, Error>)
        ensures
            parse_cidr(self.address@) is None ==> (r matches Err(e) && e@
                == (ErrorModel::InvalidCidr { input: self.address@ })),
            r matches Ok(network) ==> parse_cidr(self.address@) == Some(network@),
            parse_cidr(self.address@) matches Some(network) ==> acts_by_name(
                manager.kernel(),
                manager.bus(),
                self.interface@,
                LinkActionModel::AddAddress(network),
                bare_result(r),
            ),
            parse_cidr(self.address@) is Some ==> (r matches Err(e) ==> e@ is Netlink || e@
                == (ErrorModel::InterfaceNotFound { name: self.interface@ })),
    {
        let network = match IpNetwork::parse(self.address.as_str()) {
            Err(e) => {
                return Err(e);
            },
            Ok(network) => network,
        };
        match manager.add_address(self.interface.as_str(), network) {
            Ok(_) => Ok(network),
            Err(e) => Err(e),
        }
    }
}

} // verus!
