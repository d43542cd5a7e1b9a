//! The one entry point of the control plane: every interface is addressed
//! by its name.
//!
//! An operation on a named interface is two steps, in this order: the name
//! is resolved to the index that the kernel has for it now, then the
//! operation is made on that index, over netlink or by a call to a daemon.
//! Nothing is kept between calls; each call resolves anew.

use vstd::prelude::*;
use crate::client::{
    adds, changes, finds, index_result, link_result, links_result, lists, ok_or_netlink,
    ok_or_not_found, resolves, AddressOps, LinkChange, LinkOps, NetlinkClient, NetlinkTransport,
};
use crate::dbus::{addrs_view, names_view, DbusTransport};
use crate::error::{text_result, unit_result, Error, ErrorModel};
use crate::ip::{IpAddr, IpAddrModel};
use crate::network::{IpNetwork, IpNetworkModel, LinkInfo};
use crate::services::{
    flushes, gets_hostname, gets_machine_id, ok_or_dbus, reconfigures, reloads, reverts,
    sets_dns, sets_domains, sets_static_hostname, DbusClient, HostnamedOps, NetworkdOps,
    ResolvedOps,
};

verus! {

/// What is done to an interface once its index is known.
#[derive(Debug, Clone, PartialEq, Eq)]
pub enum LinkAction {
    /// Bring the link up.
    SetUp,
    /// Bring the link down.
    SetDown,
    /// Set the MTU.
    SetMtu(u32),
    /// Add an address.
    AddAddress(IpNetwork),
    /// Have the network daemon configure the link anew.
    Reconfigure,
    /// Set the DNS servers of the link.
    SetDnsServers(Vec<IpAddr>),
    /// Set the DNS domains of the link.
    SetDnsDomains(Vec<String>),
    /// Put the DNS settings of the link back to the defaults.
    RevertDns,
}

/// A [`LinkAction`] as plain values.
pub enum LinkActionModel {
    SetUp,
    SetDown,
    SetMtu(u32),
    AddAddress(IpNetworkModel),
    Reconfigure,
    SetDnsServers(Seq<IpAddrModel>),
    SetDnsDomains(Seq<Seq<char>>),
    RevertDns,
}

impl View for LinkAction {
    type V = LinkActionModel;

    open spec fn view(&self) -> LinkActionModel {
        match self {
            LinkAction::SetUp => LinkActionModel::SetUp,
            LinkAction::SetDown => LinkActionModel::SetDown,
            LinkAction::SetMtu(mtu) => LinkActionModel::SetMtu(*mtu),
            LinkAction::AddAddress(network) => LinkActionModel::AddAddress(network@),
            LinkAction::Reconfigure => LinkActionModel::Reconfigure,
            LinkAction::SetDnsServers(servers) => LinkActionModel::SetDnsServers(
                addrs_view(servers@),
            ),
            LinkAction::SetDnsDomains(domains) => LinkActionModel::SetDnsDomains(
                names_view(domains@),
            ),
            LinkAction::RevertDns => LinkActionModel::RevertDns,
        }
    }
}

/// The actions as plain values, in their order.
pub open spec fn actions_view(actions: Seq<LinkAction>) -> Seq<LinkActionModel> {
    Seq::new(actions.len(), |i: int| actions[i]@)
}

impl LinkActionModel {
    /// True for the actions that are calls to a daemon; the others are
    /// netlink requests.
    pub open spec fn is_daemon_call(self) -> bool {
        match self {
            LinkActionModel::Reconfigure => true,
            LinkActionModel::SetDnsServers(_) => true,
            LinkActionModel::SetDnsDomains(_) => true,
            LinkActionModel::RevertDns => true,
            _ => false,
        }
    }
}

impl LinkAction {
    /// True for the actions that are calls to a daemon; the others are
    /// netlink requests.
    pub open spec fn is_daemon_call(self) -> bool {
        self@.is_daemon_call()
    }
}

/// What follows the resolution of a name.
#[derive(Debug)]
pub enum Step {
    /// The name was not resolved: nothing is done, and this is the error
    /// of the whole operation.
    Stop(Error),
    /// The name was resolved: the action is made on this index.
    Act { index: u32, action: LinkAction },
}

/// The second step of an operation by name, decided from the outcome of
/// the first. A failed resolution ends the operation with the error of the
/// resolution, unchanged; a resolved index is what the action is made on.
pub fn after_resolve(resolved: Result<u32, Error>, action: LinkAction) -> (step: Step)
    ensures
        match resolved {
            Err(e) => step == Step::Stop(e),
            Ok(index) => step == (Step::Act { index, action }),
        },
{
    match resolved {
        Err(e) => Step::Stop(e),
        Ok(index) => Step::Act { index, action },
    }
}

/// True when `r` is what an operation by name on `ifname` may give: success,
/// a netlink error, the error for an interface that is not found, or, for
/// a call to a daemon, a daemon call error.
pub open spec fn by_name_outcome(r: Result<(), Error>, ifname: Seq<char>, daemon_call: bool) -> bool {
    r matches Err(e) ==> {
        ||| e@ is Netlink
        ||| e@ == (ErrorModel::InterfaceNotFound { name: ifname })
        ||| daemon_call && e@ is Dbus
    }
}

/// True when `outcome` is what making the action on the link of the index
/// can give: a netlink request over the kernel channel for a change of the
/// link or a new address, a call over the bus for what a daemon does.
pub open spec fn performs<N: NetlinkTransport, D: DbusTransport>(
    kernel: N,
    bus: D,
    index: u32,
    action: LinkActionModel,
    outcome: Result<(), ErrorModel>,
) -> bool {
    match action {
        LinkActionModel::SetUp => changes(kernel, index, LinkChange::Up, outcome),
        LinkActionModel::SetDown => changes(kernel, index, LinkChange::Down, outcome),
        LinkActionModel::SetMtu(mtu) => changes(kernel, index, LinkChange::Mtu(mtu), outcome),
        LinkActionModel::AddAddress(network) => adds(kernel, index, network, outcome),
        LinkActionModel::Reconfigure => reconfigures(bus, index, outcome),
        LinkActionModel::SetDnsServers(servers) => sets_dns(bus, index, servers, outcome),
        LinkActionModel::SetDnsDomains(domains) => sets_domains(bus, index, domains, outcome),
        LinkActionModel::RevertDns => reverts(bus, index, outcome),
    }
}

/// True when `outcome` is what an operation by name can give: the name
/// was resolved over the kernel channel; if that failed, its error is the
/// outcome and nothing else was asked; if it gave an index, the outcome is
/// that of the action on this index.
pub open spec fn acts_by_name<N: NetlinkTransport, D: DbusTransport>(
    kernel: N,
    bus: D,
    ifname: Seq<char>,
    action: LinkActionModel,
    outcome: Result<(), ErrorModel>,
) -> bool {
    exists|resolved: Result<u32, ErrorModel>| #[trigger]
        resolves(kernel, ifname, resolved) && match resolved {
            Err(e) => outcome == Err::<(), ErrorModel>(e),
            Ok(index) => performs(kernel, bus, index, action, outcome),
        }
}

/// True when `outcome` is what making the actions by name, one after the
/// other, can give. Without an action it is success. Else the first
/// action is made by name: if it failed, its error is the outcome and no
/// later action was made; if it succeeded, the outcome is that of the
/// actions that follow it.
pub open spec fn acts_in_order<N: NetlinkTransport, D: DbusTransport>(
    kernel: N,
    bus: D,
    ifname: Seq<char>,
    actions: Seq<LinkActionModel>,
    outcome: Result<(), ErrorModel>,
) -> bool
    decreases actions.len(),
{
    if actions.len() == 0 {
        outcome == Ok::<(), ErrorModel>(())
    } else {
        exists|first: Result<(), ErrorModel>| #[trigger]
            acts_by_name(kernel, bus, ifname, actions[0], first) && match first {
                Err(e) => outcome == Err::<(), ErrorModel>(e),
                Ok(_) => acts_in_order(kernel, bus, ifname, actions.skip(1), outcome),
            }
    }
}

/// True when one of the actions is a call to a daemon.
pub open spec fn calls_daemon(actions: Seq<LinkActionModel>) -> bool {
    exists|i: int| 0 <= i < actions.len() && (#[trigger] actions[i]).is_daemon_call()
}

/// The control plane over one kernel channel and one bus connection, both
/// kept for as long as the manager lives.
pub struct NetworkManager<N: NetlinkTransport, D: DbusTransport> {
    netlink: NetlinkClient<N>,
    dbus: DbusClient<D>,
}

impl<N: NetlinkTransport, D: DbusTransport> NetworkManager<N, D> {
    /// The kernel channel of the manager.
    pub closed spec fn kernel(&self) -> N {
        self.netlink.transport()
    }

    /// The bus connection of the manager.
    pub closed spec fn bus(&self) -> D {
        self.dbus.transport()
    }

    /// A manager on the given kernel channel and bus connection.
    pub fn new(netlink: N, dbus: D) -> (manager: Self)
        ensures
            manager.kernel() == netlink,
            manager.bus() == dbus,
    {
        NetworkManager { netlink: NetlinkClient::new(netlink), dbus: DbusClient::new(dbus) }
    }

    /// Makes the action on the link of the given index.
    fn perform(&self, index: u32, action: LinkAction) -> (r: Result<(), Error>)
        ensures
            performs(self.kernel(), self.bus(), index, action@, unit_result(r)),
            !action.is_daemon_call() ==> ok_or_netlink(r),
            action.is_daemon_call() ==> ok_or_dbus(r),
    {
        let handle = self.netlink.cloneable_handle();
        match action {
            LinkAction::SetUp => handle.set_link_up(index),
            LinkAction::SetDown => handle.set_link_down(index),
            LinkAction::SetMtu(mtu) => handle.set_link_mtu(index, mtu),
            LinkAction::AddAddress(network) => handle.add_address(index, network),
            LinkAction::Reconfigure => self.dbus.networkd().reconfigure_link(index),
            LinkAction::SetDnsServers(servers) => self.dbus.resolved().set_link_dns(
                index,
                servers,
            ),
            LinkAction::SetDnsDomains(domains) => self.dbus.resolved().set_link_domains(
                index,
                domains,
            ),
            LinkAction::RevertDns => self.dbus.resolved().revert_link(index),
        }
    }

    /// Resolves the name, then makes the action on the index found. When
    /// the name is not resolved, nothing else is asked of the kernel or of
    /// a daemon, and the error of the resolution is the outcome.
    pub fn by_name(&self, ifname: &str, action: LinkAction) -> (r: Result<(), Error>)
        ensures
            acts_by_name(self.kernel(), self.bus(), ifname@, action@, unit_result(r)),
            by_name_outcome(r, ifname@, action.is_daemon_call()),
    {
        let handle = self.netlink.cloneable_handle();
        let resolved = handle.get_link_by_name(ifname);
        let ghost found = index_result(resolved);
        assert(resolves(self.kernel(), ifname@, found));
        match after_resolve(resolved, action) {
            Step::Stop(e) => Err(e),
            Step::Act { index, action } => self.perform(index, action),
        }
    }

    /// Makes the actions by name on one interface, in their order, and
    /// stops at the first that fails: its error is the outcome, and no
    /// later action is made. Each action resolves the name anew.
    pub fn run_by_name(&self, ifname: &str, actions: Vec<LinkAction>) -> (r: Result<(), Error>)
        ensures
            acts_in_order(
                self.kernel(),
                self.bus(),
                ifname@,
                actions_view(actions@),
                unit_result(r),
            ),
            by_name_outcome(r, ifname@, calls_daemon(actions_view(actions@))),
    {
        let ghost all = actions_view(actions@);
        let ghost mut made: int = 0;
        let mut rest = actions;
        while rest.len() > 0
            invariant
                all == actions_view(actions@),
                0 <= made <= all.len(),
                actions_view(rest@) == all.skip(made),
                forall|o: Result<(), ErrorModel>| #[trigger]
                    acts_in_order(self.kernel(), self.bus(), ifname@, actions_view(rest@), o)
                        ==> acts_in_order(self.kernel(), self.bus(), ifname@, all, o),
            decreases rest@.len(),
        {
            let ghost before = actions_view(rest@);
            let action = rest.remove(0);
            assert(actions_view(rest@) =~= before.skip(1));
            assert(before[0] == action@);
            assert(all[made] == action@);
            proof {
                assert(actions_view(rest@) =~= all.skip(made + 1));
                made = made + 1;
            }
            let first = self.by_name(ifname, action);
            match first {
                Err(e) => {
                    assert(acts_in_order(
                        self.kernel(),
                        self.bus(),
                        ifname@,
                        before,
                        Err::<(), ErrorModel>(e@),
                    ));
                    return Err(e);
                },
                Ok(_) => {
                    assert forall|o: Result<(), ErrorModel>| #[trigger]
                        acts_in_order(
                            self.kernel(),
                            self.bus(),
                            ifname@,
                            actions_view(rest@),
                            o,
                        ) implies acts_in_order(self.kernel(), self.bus(), ifname@, all, o) by {
                        assert(acts_by_name(
                            self.kernel(),
                            self.bus(),
                            ifname@,
                            before[0],
                            Ok::<(), ErrorModel>(()),
                        ));
                        assert(acts_in_order(self.kernel(), self.bus(), ifname@, before, o));
                    }
                },
            }
        }
        assert(acts_in_order(
            self.kernel(),
            self.bus(),
            ifname@,
            actions_view(rest@),
            Ok::<(), ErrorModel>(()),
        ));
        Ok(())
    }

    /// Snapshots of all interfaces, in the order of the kernel, each
    /// without addresses.
    pub fn list_links(&self) -> (r: Result<Vec<LinkInfo>, Error>)
        ensures
            lists(self.kernel(), links_result(r)),
            ok_or_netlink(r),
            r matches Ok(links) ==> forall|i: int|
                0 <= i < links@.len() ==> (#[trigger] links@[i])@.addresses.len() == 0,
    {
        let handle = self.netlink.cloneable_handle();
        handle.list_links()
    }

    /// The snapshot of the interface of the given name, without
    /// addresses.
    pub fn get_link_info(&self, ifname: &str) -> (r: Result<LinkInfo, Error>)
        ensures
            finds(self.kernel(), ifname@, link_result(r)),
            ok_or_not_found(r, ifname@),
            r matches Ok(info) ==> info@.addresses.len() == 0,
    {
        let handle = self.netlink.cloneable_handle();
        handle.get_link_info(ifname)
    }

    /// Brings the interface up: resolves the name, then asks for the
    /// flag of the link found to be set.
    pub fn set_link_up(&self, ifname: &str) -> (r: Result<(), Error>)
        ensures
            acts_by_name(
                self.kernel(),
                self.bus(),
                ifname@,
                LinkActionModel::SetUp,
                unit_result(r),
            ),
            by_name_outcome(r, ifname@, false),
    {
        self.by_name(ifname, LinkAction::SetUp)
    }

    /// Brings the interface down: resolves the name, then asks for the
    /// flag of the link found to be cleared.
    pub fn set_link_down(&self, ifname: &str) -> (r: Result<(), Error>)
        ensures
            acts_by_name(
                self.kernel(),
                self.bus(),
                ifname@,
                LinkActionModel::SetDown,
                unit_result(r),
            ),
            by_name_outcome(r, ifname@, false),
    {
        self.by_name(ifname, LinkAction::SetDown)
    }

    /// Sets the MTU of the interface: resolves the name, then asks for
    /// the MTU of the link found to be set.
    pub fn set_mtu(&self, ifname: &str, mtu: u32) -> (r: Result<(), Error>)
        ensures
            acts_by_name(
                self.kernel(),
                self.bus(),
                ifname@,
                LinkActionModel::SetMtu(mtu),
                unit_result(r),
            ),
            by_name_outcome(r, ifname@, false),
    {
        self.by_name(ifname, LinkAction::SetMtu(mtu))
    }

    /// Adds an address to the interface: resolves the name, then asks for
    /// the address to be added to the link found.
    pub fn add_address(&self, ifname: &str, network: IpNetwork) -> (r: Result<(), Error>)
        ensures
            acts_by_name(
                self.kernel(),
                self.bus(),
                ifname@,
                LinkActionModel::AddAddress(network@),
                unit_result(r),
            ),
            by_name_outcome(r, ifname@, false),
    {
        self.by_name(ifname, LinkAction::AddAddress(network))
    }

    /// Has the network daemon read its configuration files again.
    pub fn reload_networkd(&self) -> (r: Result<(), Error>)
        ensures
            reloads(self.bus(), unit_result(r)),
            ok_or_dbus(r),
    {
        self.dbus.networkd().reload()
    }

    /// Has the network daemon configure the interface anew: resolves the
    /// name, then hands the daemon the index found.
    pub fn reconfigure_link(&self, ifname: &str) -> (r: Result<(), Error>)
        ensures
            acts_by_name(
                self.kernel(),
                self.bus(),
                ifname@,
                LinkActionModel::Reconfigure,
                unit_result(r),
            ),
            by_name_outcome(r, ifname@, true),
    {
        self.by_name(ifname, LinkAction::Reconfigure)
    }

    /// Sets the DNS servers of the interface: resolves the name, then
    /// hands the resolver daemon the index found and the servers.
    pub fn set_dns_servers(&self, ifname: &str, servers: Vec<IpAddr>) -> (r: Result<(), Error>)
        ensures
            acts_by_name(
                self.kernel(),
                self.bus(),
                ifname@,
                LinkActionModel::SetDnsServers(addrs_view(servers@)),
                unit_result(r),
            ),
            by_name_outcome(r, ifname@, true),
    {
        self.by_name(ifname, LinkAction::SetDnsServers(servers))
    }

    /// Sets the DNS domains of the interface, each for search and for
    /// routing: resolves the name, then hands the resolver daemon the
    /// index found and the domains.
    pub fn set_dns_domains(&self, ifname: &str, domains: Vec<String>) -> (r: Result<(), Error>)
        ensures
            acts_by_name(
                self.kernel(),
                self.bus(),
                ifname@,
                LinkActionModel::SetDnsDomains(names_view(domains@)),
                unit_result(r),
            ),
            by_name_outcome(r, ifname@, true),
    {
        self.by_name(ifname, LinkAction::SetDnsDomains(domains))
    }

    /// Puts the DNS settings of the interface back to the defaults:
    /// resolves the name, then hands the resolver daemon the index found.
    pub fn revert_dns(&self, ifname: &str) -> (r: Result<(), Error>)
        ensures
            acts_by_name(
                self.kernel(),
                self.bus(),
                ifname@,
                LinkActionModel::RevertDns,
                unit_result(r),
            ),
            by_name_outcome(r, ifname@, true),
    {
        self.by_name(ifname, LinkAction::RevertDns)
    }

    /// Empties the caches of the resolver daemon.
    pub fn flush_dns_caches(&self) -> (r: Result<(), Error>)
        ensures
            flushes(self.bus(), unit_result(r)),
            ok_or_dbus(r),
    {
        self.dbus.resolved().flush_caches()
    }

    /// Sets the static name of the host.
    pub fn set_hostname(&self, hostname: &str) -> (r: Result<(), Error>)
        ensures
            sets_static_hostname(self.bus(), hostname@, unit_result(r)),
            ok_or_dbus(r),
    {
        self.dbus.hostnamed().set_static_hostname(hostname)
    }

    /// The transient name of the host.
    pub fn get_hostname(&self) -> (r: Result<String, Error>)
        ensures
            gets_hostname(self.bus(), text_result(r)),
            ok_or_dbus(r),
    {
        self.dbus.hostnamed().get_hostname()
    }

    /// The machine ID.
    pub fn get_machine_id(&self) -> (r: Result<String, Error>)
        ensures
            gets_machine_id(self.bus(), text_result(r)),
            ok_or_dbus(r),
    {
        self.dbus.hostnamed().get_machine_id()
    }
}

/// A run of one action is that action made by name: the two have the same
/// outcomes.
pub proof fn lemma_run_of_one<N: NetlinkTransport, D: DbusTransport>(
    kernel: N,
    bus: D,
    ifname: Seq<char>,
    action: LinkActionModel,
    outcome: Result<(), ErrorModel>,
)
    ensures
        acts_in_order(kernel, bus, ifname, seq![action], outcome) <==> acts_by_name(
            kernel,
            bus,
            ifname,
            action,
            outcome,
        ),
{
    let one = seq![action];
    assert(one[0] == action);
    assert(one.skip(1).len() == 0);
    reveal_with_fuel(acts_in_order, 2);
    if acts_in_order(kernel, bus, ifname, one, outcome) {
        let first = choose|first: Result<(), ErrorModel>| #[trigger]
            acts_by_name(kernel, bus, ifname, one[0], first) && match first {
                Err(e) => outcome == Err::<(), ErrorModel>(e),
                Ok(_) => acts_in_order(kernel, bus, ifname, one.skip(1), outcome),
            };
        assert(first == outcome);
    }
    if acts_by_name(kernel, bus, ifname, action, outcome) {
        assert(acts_by_name(kernel, bus, ifname, one[0], outcome));
    }
}

/// A run ends with its first failure: where the first action can fail
/// with an error, the run can end with this error, whatever follows the
/// action.
pub proof fn lemma_first_failure_ends_run<N: NetlinkTransport, D: DbusTransport>(
    kernel: N,
    bus: D,
    ifname: Seq<char>,
    actions: Seq<LinkActionModel>,
    e: ErrorModel,
)
    requires
        actions.len() > 0,
        acts_by_name(kernel, bus, ifname, actions[0], Err::<(), ErrorModel>(e)),
    ensures
        acts_in_order(kernel, bus, ifname, actions, Err::<(), ErrorModel>(e)),
{
}

} // verus!
