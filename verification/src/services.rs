//! The three daemon clients, each a thin layer over one shared bus
//! connection.
//!
//! A client owns nothing: it borrows the connection of the [`DbusClient`]
//! that made it. Each operation builds its call, hands it to the
//! connection, and reports a failure as [`Error::Dbus`].

use vstd::prelude::*;
use crate::dbus::{
    addrs_view, dns_entries_of, domain_entries_of, fetched, ifindex, ifindex_of, invoked,
    names_view, text_outcome, text_with_index, unit_outcome, with_index, Daemon, DbusCall,
    DbusCallModel, DbusTransport,
};
use crate::error::{text_result, unit_result, Error, ErrorModel};
use crate::ip::{IpAddr, IpAddrModel};

verus! {

/// What the network daemon does for the control plane.
pub trait NetworkdOps {
    /// Has the daemon read its configuration files again.
    fn reload(&self) -> Result<(), Error>;

    /// Has the daemon configure the link of the given index anew.
    fn reconfigure_link(&self, index: u32) -> Result<(), Error>;

    /// The object path under which the daemon offers the link.
    fn get_link_path(&self, index: u32) -> Result<String, Error>;
}

/// What the resolver daemon does for the control plane.
pub trait ResolvedOps {
    /// Sets the DNS servers of a link.
    fn set_link_dns(&self, index: u32, servers: Vec<IpAddr>) -> Result<(), Error>;

    /// Sets the domains of a link, each for search and for routing.
    fn set_link_domains(&self, index: u32, domains: Vec<String>) -> Result<(), Error>;

    /// Puts the DNS settings of a link back to the defaults.
    fn revert_link(&self, index: u32) -> Result<(), Error>;

    /// Empties the caches of the daemon.
    fn flush_caches(&self) -> Result<(), Error>;
}

/// What the hostname daemon does for the control plane.
pub trait HostnamedOps {
    /// Sets the static name of the host, without asking the user.
    fn set_static_hostname(&self, hostname: &str) -> Result<(), Error>;

    /// Sets the pretty name of the host, without asking the user.
    fn set_pretty_hostname(&self, hostname: &str) -> Result<(), Error>;

    /// The static name of the host.
    fn get_static_hostname(&self) -> Result<String, Error>;

    /// The pretty name of the host.
    fn get_pretty_hostname(&self) -> Result<String, Error>;

    /// The transient name of the host.
    fn get_hostname(&self) -> Result<String, Error>;

    /// The machine ID.
    fn get_machine_id(&self) -> Result<String, Error>;
}

/// True when `r` is success or a daemon call error.
pub open spec fn ok_or_dbus<V>(r: Result<V, Error>) -> bool {
    r matches Err(e) ==> e@ is Dbus
}

/// True when `outcome` is what asking the network daemon to reload can
/// give.
pub open spec fn reloads<T: DbusTransport>(bus: T, outcome: Result<(), ErrorModel>) -> bool {
    invoked(bus, DbusCallModel::Reload, "Failed to reload networkd"@, outcome)
}

/// True when `outcome` is what asking the network daemon to reconfigure
/// the link of the index can give.
pub open spec fn reconfigures<T: DbusTransport>(
    bus: T,
    index: u32,
    outcome: Result<(), ErrorModel>,
) -> bool {
    invoked(
        bus,
        DbusCallModel::ReconfigureLink { ifindex: ifindex_of(index) },
        with_index("Failed to reconfigure link "@, index, ""@),
        outcome,
    )
}

/// True when `outcome` is what asking the network daemon for the object
/// path of the link of the index can give.
pub open spec fn gets_link_path<T: DbusTransport>(
    bus: T,
    index: u32,
    outcome: Result<Seq<char>, ErrorModel>,
) -> bool {
    fetched(
        bus,
        DbusCallModel::GetLink { ifindex: ifindex_of(index) },
        with_index("Failed to get link path for "@, index, ""@),
        outcome,
    )
}

/// True when `outcome` is what setting the DNS servers of the link can
/// give: the resolver daemon is handed one entry for each server, in
/// their order, each the family and the octets of its address.
pub open spec fn sets_dns<T: DbusTransport>(
    bus: T,
    index: u32,
    servers: Seq<IpAddrModel>,
    outcome: Result<(), ErrorModel>,
) -> bool {
    invoked(
        bus,
        DbusCallModel::SetLinkDns { ifindex: ifindex_of(index), addresses: dns_entries_of(servers) },
        "Failed to set DNS servers"@,
        outcome,
    )
}

/// True when `outcome` is what setting the domains of the link can give:
/// the resolver daemon is handed one entry for each domain, in their
/// order, none of them for routing only.
pub open spec fn sets_domains<T: DbusTransport>(
    bus: T,
    index: u32,
    domains: Seq<Seq<char>>,
    outcome: Result<(), ErrorModel>,
) -> bool {
    invoked(
        bus,
        DbusCallModel::SetLinkDomains {
            ifindex: ifindex_of(index),
            domains: domain_entries_of(domains),
        },
        "Failed to set DNS domains"@,
        outcome,
    )
}

/// True when `outcome` is what reverting the DNS settings of the link can
/// give.
pub open spec fn reverts<T: DbusTransport>(
    bus: T,
    index: u32,
    outcome: Result<(), ErrorModel>,
) -> bool {
    invoked(
        bus,
        DbusCallModel::RevertLink { ifindex: ifindex_of(index) },
        "Failed to revert DNS config"@,
        outcome,
    )
}

/// True when `outcome` is what flushing the caches of the resolver daemon
/// can give.
pub open spec fn flushes<T: DbusTransport>(bus: T, outcome: Result<(), ErrorModel>) -> bool {
    invoked(bus, DbusCallModel::FlushCaches, "Failed to flush DNS caches"@, outcome)
}

/// True when `outcome` is what setting the static name of the host can
/// give: the hostname daemon is handed the name, and is told not to ask
/// the user.
pub open spec fn sets_static_hostname<T: DbusTransport>(
    bus: T,
    hostname: Seq<char>,
    outcome: Result<(), ErrorModel>,
) -> bool {
    invoked(
        bus,
        DbusCallModel::SetStaticHostname { name: hostname, interactive: false },
        "Failed to set static hostname"@,
        outcome,
    )
}

/// True when `outcome` is what setting the pretty name of the host can
/// give: the hostname daemon is handed the name, and is told not to ask
/// the user.
pub open spec fn sets_pretty_hostname<T: DbusTransport>(
    bus: T,
    hostname: Seq<char>,
    outcome: Result<(), ErrorModel>,
) -> bool {
    invoked(
        bus,
        DbusCallModel::SetPrettyHostname { name: hostname, interactive: false },
        "Failed to set pretty hostname"@,
        outcome,
    )
}

/// True when `outcome` is what reading the static name of the host can
/// give.
pub open spec fn gets_static_hostname<T: DbusTransport>(
    bus: T,
    outcome: Result<Seq<char>, ErrorModel>,
) -> bool {
    fetched(bus, DbusCallModel::StaticHostname, "Failed to get static hostname"@, outcome)
}

/// True when `outcome` is what reading the pretty name of the host can
/// give.
pub open spec fn gets_pretty_hostname<T: DbusTransport>(
    bus: T,
    outcome: Result<Seq<char>, ErrorModel>,
) -> bool {
    fetched(bus, DbusCallModel::PrettyHostname, "Failed to get pretty hostname"@, outcome)
}

/// True when `outcome` is what reading the transient name of the host can
/// give.
pub open spec fn gets_hostname<T: DbusTransport>(
    bus: T,
    outcome: Result<Seq<char>, ErrorModel>,
) -> bool {
    fetched(bus, DbusCallModel::Hostname, "Failed to get hostname"@, outcome)
}

/// True when `outcome` is what reading the machine ID can give.
pub open spec fn gets_machine_id<T: DbusTransport>(
    bus: T,
    outcome: Result<Seq<char>, ErrorModel>,
) -> bool {
    fetched(bus, DbusCallModel::MachineId, "Failed to get machine ID"@, outcome)
}

/// The client of the network daemon.
pub struct NetworkdService<'a, T: DbusTransport> {
    connection: &'a T,
}

impl<'a, T: DbusTransport> NetworkdService<'a, T> {
    /// The connection that the client borrows.
    pub closed spec fn transport(&self) -> T {
        *self.connection
    }

    /// A client on the given connection.
    pub fn new(connection: &'a T) -> (service: Self)
        ensures
            service.transport() == *connection,
    {
        NetworkdService { connection }
    }
}

impl<'a, T: DbusTransport> NetworkdOps for NetworkdService<'a, T> {
    /// Hands the daemon the call `Reload`.
    fn reload(&self) -> (r: Result<(), Error>)
        ensures
            reloads(self.transport(), unit_result(r)),
            ok_or_dbus(r),
    {
        let call = DbusCall::Reload;
        let reply = self.connection.invoke(&call);
        let ghost answer = reply;
        let r = unit_outcome(Daemon::Networkd, "Failed to reload networkd", reply);
        assert(call_ensures(T::invoke, (&self.transport(), &call), answer));
        r
    }

    /// Hands the daemon the call `ReconfigureLink` with the index.
    fn reconfigure_link(&self, index: u32) -> (r: Result<(), Error>)
        ensures
            reconfigures(self.transport(), index, unit_result(r)),
            ok_or_dbus(r),
    {
        let call = DbusCall::ReconfigureLink { ifindex: ifindex(index) };
        let reply = self.connection.invoke(&call);
        let ghost answer = reply;
        let doing = text_with_index("Failed to reconfigure link ", index, "");
        let r = unit_outcome(Daemon::Networkd, doing.as_str(), reply);
        assert(call_ensures(T::invoke, (&self.transport(), &call), answer));
        r
    }

    /// Hands the daemon the call `GetLink` with the index, and gives the
    /// object path that comes back.
    fn get_link_path(&self, index: u32) -> (r: Result<String, Error>)
        ensures
            gets_link_path(self.transport(), index, text_result(r)),
            ok_or_dbus(r),
    {
        let call = DbusCall::GetLink { ifindex: ifindex(index) };
        let reply = self.connection.fetch(&call);
        let ghost answer = reply;
        let doing = text_with_index("Failed to get link path for ", index, "");
        let r = text_outcome(Daemon::Networkd, doing.as_str(), reply);
        assert(call_ensures(T::fetch, (&self.transport(), &call), answer));
        r
    }
}

/// The client of the resolver daemon.
pub struct ResolvedService<'a, T: DbusTransport> {
    connection: &'a T,
}

impl<'a, T: DbusTransport> ResolvedService<'a, T> {
    /// The connection that the client borrows.
    pub closed spec fn transport(&self) -> T {
        *self.connection
    }

    /// A client on the given connection.
    pub fn new(connection: &'a T) -> (service: Self)
        ensures
            service.transport() == *connection,
    {
        ResolvedService { connection }
    }
}

impl<'a, T: DbusTransport> ResolvedOps for ResolvedService<'a, T> {
    /// Hands the daemon the call `SetLinkDNS` with the index and one
    /// entry for each server.
    fn set_link_dns(&self, index: u32, servers: Vec<IpAddr>) -> (r: Result<(), Error>)
        ensures
            sets_dns(self.transport(), index, addrs_view(servers@), unit_result(r)),
            ok_or_dbus(r),
    {
        let call = DbusCall::set_link_dns(index, &servers);
        let reply = self.connection.invoke(&call);
        let ghost answer = reply;
        let r = unit_outcome(Daemon::Resolved, "Failed to set DNS servers", reply);
        assert(call_ensures(T::invoke, (&self.transport(), &call), answer));
        r
    }

    /// Hands the daemon the call `SetLinkDomains` with the index and one
    /// entry for each domain, none for routing only.
    fn set_link_domains(&self, index: u32, domains: Vec<String>) -> (r: Result<(), Error>)
        ensures
            sets_domains(self.transport(), index, names_view(domains@), unit_result(r)),
            ok_or_dbus(r),
    {
        let call = DbusCall::set_link_domains(index, domains);
        let reply = self.connection.invoke(&call);
        let ghost answer = reply;
        let r = unit_outcome(Daemon::Resolved, "Failed to set DNS domains", reply);
        assert(call_ensures(T::invoke, (&self.transport(), &call), answer));
        r
    }

    /// Hands the daemon the call `RevertLink` with the index.
    fn revert_link(&self, index: u32) -> (r: Result<(), Error>)
        ensures
            reverts(self.transport(), index, unit_result(r)),
            ok_or_dbus(r),
    {
        let call = DbusCall::RevertLink { ifindex: ifindex(index) };
        let reply = self.connection.invoke(&call);
        let ghost answer = reply;
        let r = unit_outcome(Daemon::Resolved, "Failed to revert DNS config", reply);
        assert(call_ensures(T::invoke, (&self.transport(), &call), answer));
        r
    }

    /// Hands the daemon the call `FlushCaches`.
    fn flush_caches(&self) -> (r: Result<(), Error>)
        ensures
            flushes(self.transport(), unit_result(r)),
            ok_or_dbus(r),
    {
        let call = DbusCall::FlushCaches;
        let reply = self.connection.invoke(&call);
        let ghost answer = reply;
        let r = unit_outcome(Daemon::Resolved, "Failed to flush DNS caches", reply);
        assert(call_ensures(T::invoke, (&self.transport(), &call), answer));
        r
    }
}

/// The client of the hostname daemon.
pub struct HostnamedService<'a, T: DbusTransport> {
    connection: &'a T,
}

impl<'a, T: DbusTransport> HostnamedService<'a, T> {
    /// The connection that the client borrows.
    pub closed spec fn transport(&self) -> T {
        *self.connection
    }

    /// A client on the given connection.
    pub fn new(connection: &'a T) -> (service: Self)
        ensures
            service.transport() == *connection,
    {
        HostnamedService { connection }
    }
}

impl<'a, T: DbusTransport> HostnamedOps for HostnamedService<'a, T> {
    /// Hands the daemon the call `SetStaticHostname` with the name, and
    /// tells it not to ask the user.
    fn set_static_hostname(&self, hostname: &str) -> (r: Result<(), Error>)
        ensures
            sets_static_hostname(self.transport(), hostname@, unit_result(r)),
            ok_or_dbus(r),
    {
        let call = DbusCall::SetStaticHostname { name: hostname.to_owned(), interactive: false };
        let reply = self.connection.invoke(&call);
        let ghost answer = reply;
        let r = unit_outcome(Daemon::Hostnamed, "Failed to set static hostname", reply);
        assert(call_ensures(T::invoke, (&self.transport(), &call), answer));
        r
    }

    /// Hands the daemon the call `SetPrettyHostname` with the name, and
    /// tells it not to ask the user.
    fn set_pretty_hostname(&self, hostname: &str) -> (r: Result<(), Error>)
        ensures
            sets_pretty_hostname(self.transport(), hostname@, unit_result(r)),
            ok_or_dbus(r),
    {
        let call = DbusCall::SetPrettyHostname { name: hostname.to_owned(), interactive: false };
        let reply = self.connection.invoke(&call);
        let ghost answer = reply;
        let r = unit_outcome(Daemon::Hostnamed, "Failed to set pretty hostname", reply);
        assert(call_ensures(T::invoke, (&self.transport(), &call), answer));
        r
    }

    /// Reads the property `StaticHostname`.
    fn get_static_hostname(&self) -> (r: Result<String, Error>)
        ensures
            gets_static_hostname(self.transport(), text_result(r)),
            ok_or_dbus(r),
    {
        let call = DbusCall::StaticHostname;
        let reply = self.connection.fetch(&call);
        let ghost answer = reply;
        let r = text_outcome(Daemon::Hostnamed, "Failed to get static hostname", reply);
        assert(call_ensures(T::fetch, (&self.transport(), &call), answer));
        r
    }

    /// Reads the property `PrettyHostname`.
    fn get_pretty_hostname(&self) -> (r: Result<String, Error>)
        ensures
            gets_pretty_hostname(self.transport(), text_result(r)),
            ok_or_dbus(r),
    {
        let call = DbusCall::PrettyHostname;
        let reply = self.connection.fetch(&call);
        let ghost answer = reply;
        let r = text_outcome(Daemon::Hostnamed, "Failed to get pretty hostname", reply);
        assert(call_ensures(T::fetch, (&self.transport(), &call), answer));
        r
    }

    /// Reads the property `Hostname`.
    fn get_hostname(&self) -> (r: Result<String, Error>)
        ensures
            gets_hostname(self.transport(), text_result(r)),
            ok_or_dbus(r),
    {
        let call = DbusCall::Hostname;
        let reply = self.connection.fetch(&call);
        let ghost answer = reply;
        let r = text_outcome(Daemon::Hostnamed, "Failed to get hostname", reply);
        assert(call_ensures(T::fetch, (&self.transport(), &call), answer));
        r
    }

    /// Reads the property `MachineID`.
    fn get_machine_id(&self) -> (r: Result<String, Error>)
        ensures
            gets_machine_id(self.transport(), text_result(r)),
            ok_or_dbus(r),
    {
        let call = DbusCall::MachineId;
        let reply = self.connection.fetch(&call);
        let ghost answer = reply;
        let r = text_outcome(Daemon::Hostnamed, "Failed to get machine ID", reply);
        assert(call_ensures(T::fetch, (&self.transport(), &call), answer));
        r
    }
}

/// The connection to the system bus, and the maker of the three clients.
pub struct DbusClient<T: DbusTransport> {
    connection: T,
}

impl<T: DbusTransport> DbusClient<T> {
    /// The connection that the client owns.
    pub closed spec fn transport(&self) -> T {
        self.connection
    }

    /// A client that owns the given connection for as long as it lives.
    pub fn new(connection: T) -> (client: Self)
        ensures
            client.transport() == connection,
    {
        DbusClient { connection }
    }

    /// The connection.
    pub fn connection(&self) -> (connection: &T)
        ensures
            *connection == self.transport(),
    {
        &self.connection
    }

    /// A client of the network daemon on this connection.
    pub fn networkd(&self) -> (service: NetworkdService<'_, T>)
        ensures
            service.transport() == self.transport(),
    {
        NetworkdService::new(&self.connection)
    }

    /// A client of the resolver daemon on this connection.
    pub fn resolved(&self) -> (service: ResolvedService<'_, T>)
        ensures
            service.transport() == self.transport(),
    {
        ResolvedService::new(&self.connection)
    }

    /// A client of the hostname daemon on this connection.
    pub fn hostnamed(&self) -> (service: HostnamedService<'_, T>)
        ensures
            service.transport() == self.transport(),
    {
        HostnamedService::new(&self.connection)
    }
}

} // verus!
