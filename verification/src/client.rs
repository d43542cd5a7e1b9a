//! The netlink client: link and address operations over one kernel
//! channel.
//!
//! A [`NetlinkTransport`] sends a request to the kernel and hands back the
//! reply. The operations here say what is asked and what is made of the
//! answer; a failure of the channel or a refusal by the kernel becomes
//! [`Error::Netlink`] with the cause as it was reported.

use vstd::prelude::*;
use crate::error::{unit_result, Error, ErrorModel};
use crate::netlink::{
    collect_links, find_link, link_info_of, link_infos_of, links_view, records_view,
    resolve_index, LinkRecord,
};
use crate::network::{IpNetwork, IpNetworkModel, LinkInfo, LinkInfoModel};

verus! {

/// A change to one link.
#[derive(Debug, Clone, Copy, PartialEq, Eq, Structural)]
pub enum LinkChange {
    /// Set the flag "administratively up".
    Up,
    /// Clear the flag "administratively up".
    Down,
    /// Set the MTU.
    Mtu(u32),
}

/// The channel to the kernel. Requests and replies belong together by
/// what the channel does, never by their order.
pub trait NetlinkTransport {
    /// Asks for the records of all links and gathers the reply; or asks
    /// for the link of the given name and hands back the record that the
    /// kernel answers with first, if it answers with one.
    fn query_links(&self, name: Option<&str>) -> Result<Vec<LinkRecord>, String>;

    /// Asks for a change to the link of the given index and waits for the
    /// kernel to acknowledge it.
    fn change_link(&self, index: u32, change: LinkChange) -> Result<(), String>;

    /// Asks for an address to be added to the link of the given index and
    /// waits for the kernel to acknowledge it.
    fn add_address(&self, index: u32, network: IpNetwork) -> Result<(), String>;
}

/// The link operations of the control plane.
pub trait LinkOps {
    /// The index of the interface of the given name.
    fn get_link_by_name(&self, name: &str) -> Result<u32, Error>;

    /// Snapshots of all interfaces, in the order of the kernel.
    fn list_links(&self) -> Result<Vec<LinkInfo>, Error>;

    /// The snapshot of the interface of the given name.
    fn get_link_info(&self, name: &str) -> Result<LinkInfo, Error>;

    /// Brings the link of the given index up.
    fn set_link_up(&self, index: u32) -> Result<(), Error>;

    /// Brings the link of the given index down.
    fn set_link_down(&self, index: u32) -> Result<(), Error>;

    /// Sets the MTU of the link of the given index.
    fn set_link_mtu(&self, index: u32, mtu: u32) -> Result<(), Error>;
}

/// The address operations of the control plane.
pub trait AddressOps {
    /// Adds an address to the link of the given index.
    fn add_address(&self, index: u32, network: IpNetwork) -> Result<(), Error>;

    /// Removes an address from the link of the given index.
    fn delete_address(&self, index: u32, network: IpNetwork) -> Result<(), Error>;
}

/// The message of the error that [`AddressOps::delete_address`] gives.
pub open spec fn delete_address_message() -> Seq<char> {
    "delete_address not yet implemented"@
}

/// An index or an error, as plain values.
pub open spec fn index_result(r: Result<u32, Error>) -> Result<u32, ErrorModel> {
    match r {
        Ok(index) => Ok(index),
        Err(e) => Err(e@),
    }
}

/// Snapshots or an error, as plain values.
pub open spec fn links_result(r: Result<Vec<LinkInfo>, Error>) -> Result<
    Seq<LinkInfoModel>,
    ErrorModel,
> {
    match r {
        Ok(links) => Ok(links_view(links@)),
        Err(e) => Err(e@),
    }
}

/// A snapshot or an error, as plain values.
pub open spec fn link_result(r: Result<LinkInfo, Error>) -> Result<LinkInfoModel, ErrorModel> {
    match r {
        Ok(link) => Ok(link@),
        Err(e) => Err(e@),
    }
}

/// What is made of the reply to a query by name, when an index is asked
/// for: the index of the first record of the reply; the error for an
/// interface that is not found, if the reply has no record; a netlink
/// error with the cause, if the query failed.
pub open spec fn index_outcome(reply: Result<Vec<LinkRecord>, String>, name: Seq<char>) -> Result<
    u32,
    ErrorModel,
> {
    match reply {
        Err(cause) => Err(ErrorModel::Netlink(cause@)),
        Ok(records) => if records@.len() > 0 {
            Ok(records@[0]@.index)
        } else {
            Err(ErrorModel::InterfaceNotFound { name })
        },
    }
}

/// What is made of the reply to a query for all links: one snapshot for
/// each record, in the order of the reply; a netlink error with the cause,
/// if the query failed.
pub open spec fn links_outcome(reply: Result<Vec<LinkRecord>, String>) -> Result<
    Seq<LinkInfoModel>,
    ErrorModel,
> {
    match reply {
        Err(cause) => Err(ErrorModel::Netlink(cause@)),
        Ok(records) => Ok(link_infos_of(records_view(records@))),
    }
}

/// What is made of the reply to a query by name, when a snapshot is asked
/// for: the snapshot of the first record of the reply, as a listing makes
/// it; the error for an interface that is not found, if the reply has no
/// record; a netlink error with the cause, if the query failed.
pub open spec fn link_outcome(reply: Result<Vec<LinkRecord>, String>, name: Seq<char>) -> Result<
    LinkInfoModel,
    ErrorModel,
> {
    match reply {
        Err(cause) => Err(ErrorModel::Netlink(cause@)),
        Ok(records) => if records@.len() > 0 {
            Ok(link_info_of(records@[0]@))
        } else {
            Err(ErrorModel::InterfaceNotFound { name })
        },
    }
}

/// What is made of the reply to a request that the kernel acknowledges:
/// success as it is, a failure as a netlink error with the cause.
pub open spec fn ack_outcome(reply: Result<(), String>) -> Result<(), ErrorModel> {
    match reply {
        Ok(_) => Ok(()),
        Err(cause) => Err(ErrorModel::Netlink(cause@)),
    }
}

/// True when `outcome` is what resolving the name over the channel can
/// give: the channel was asked for the links of exactly this name, and
/// the outcome is what is made of its reply.
pub open spec fn resolves<T: NetlinkTransport>(
    channel: T,
    name: Seq<char>,
    outcome: Result<u32, ErrorModel>,
) -> bool {
    exists|asked: &str, reply: Result<Vec<LinkRecord>, String>|
        asked@ == name && #[trigger] call_ensures(T::query_links, (&channel, Some(asked)), reply)
            && outcome == index_outcome(reply, name)
}

/// True when `outcome` is what listing the links over the channel can
/// give: the channel was asked for all links, and the outcome is what is
/// made of its reply.
pub open spec fn lists<T: NetlinkTransport>(
    channel: T,
    outcome: Result<Seq<LinkInfoModel>, ErrorModel>,
) -> bool {
    exists|reply: Result<Vec<LinkRecord>, String>|
        #[trigger] call_ensures(T::query_links, (&channel, None::<&str>), reply) && outcome
            == links_outcome(reply)
}

/// True when `outcome` is what asking for the snapshot of the name over
/// the channel can give: the channel was asked for the links of exactly
/// this name, and the outcome is what is made of its reply.
pub open spec fn finds<T: NetlinkTransport>(
    channel: T,
    name: Seq<char>,
    outcome: Result<LinkInfoModel, ErrorModel>,
) -> bool {
    exists|asked: &str, reply: Result<Vec<LinkRecord>, String>|
        asked@ == name && #[trigger] call_ensures(T::query_links, (&channel, Some(asked)), reply)
            && outcome == link_outcome(reply, name)
}

/// True when `outcome` is what asking for the change over the channel can
/// give: the channel was asked for exactly this change to the link of
/// this index, and the outcome is success if the kernel acknowledged it
/// and its error if not.
pub open spec fn changes<T: NetlinkTransport>(
    channel: T,
    index: u32,
    change: LinkChange,
    outcome: Result<(), ErrorModel>,
) -> bool {
    exists|reply: Result<(), String>|
        #[trigger] call_ensures(T::change_link, (&channel, index, change), reply) && outcome
            == ack_outcome(reply)
}

/// True when `outcome` is what asking for the address over the channel
/// can give: the channel was asked to add exactly this network to the
/// link of this index, and the outcome is success if the kernel
/// acknowledged it and its error if not.
pub open spec fn adds<T: NetlinkTransport>(
    channel: T,
    index: u32,
    network: IpNetworkModel,
    outcome: Result<(), ErrorModel>,
) -> bool {
    exists|sent: IpNetwork, reply: Result<(), String>|
        sent@ == network && #[trigger] call_ensures(T::add_address, (&channel, index, sent), reply)
            && outcome == ack_outcome(reply)
}

/// The index that a reply to a query by name gives: that of its first
/// record. A failed query is a netlink error with its cause, a reply
/// without a record is an interface that is not found.
pub fn index_from_reply(reply: Result<Vec<LinkRecord>, String>, name: &str) -> (r: Result<
    u32,
    Error,
>)
    ensures
        index_result(r) == index_outcome(reply, name@),
{
    match reply {
        Err(cause) => Err(Error::netlink(cause.as_str())),
        Ok(records) => resolve_index(&records, name),
    }
}

/// The snapshots that a reply to a query for all links gives: one for
/// each record, in the order of the reply. A failed query is a netlink
/// error with its cause.
pub fn links_from_reply(reply: Result<Vec<LinkRecord>, String>) -> (r: Result<Vec<LinkInfo>, Error>)
    ensures
        links_result(r) == links_outcome(reply),
        r matches Ok(links) ==> reply matches Ok(records) && links@.len() == records@.len(),
{
    match reply {
        Err(cause) => Err(Error::netlink(cause.as_str())),
        Ok(records) => Ok(collect_links(&records)),
    }
}

/// The snapshot that a reply to a query by name gives: that of its first
/// record. A failed query is a netlink error with its cause, a reply
/// without a record is an interface that is not found.
pub fn link_from_reply(reply: Result<Vec<LinkRecord>, String>, name: &str) -> (r: Result<
    LinkInfo,
    Error,
>)
    ensures
        link_result(r) == link_outcome(reply, name@),
{
    match reply {
        Err(cause) => Err(Error::netlink(cause.as_str())),
        Ok(records) => find_link(&records, name),
    }
}

/// The outcome of a request that the kernel acknowledges: success as it
/// is, a failure as a netlink error with its cause.
pub fn ack_from_reply(reply: Result<(), String>) -> (r: Result<(), Error>)
    ensures
        unit_result(r) == ack_outcome(reply),
{
    match reply {
        Ok(_) => Ok(()),
        Err(cause) => Err(Error::netlink(cause.as_str())),
    }
}

/// The owner of the kernel channel.
pub struct NetlinkClient<T: NetlinkTransport> {
    handle: T,
}

/// A borrowed kernel channel, on which the operations are made.
pub struct NetlinkHandle<'a, T: NetlinkTransport> {
    handle: &'a T,
}

impl<T: NetlinkTransport> NetlinkClient<T> {
    /// The channel that the client owns.
    pub closed spec fn transport(&self) -> T {
        self.handle
    }

    /// A client that owns the given channel for as long as it lives.
    pub fn new(transport: T) -> (client: Self)
        ensures
            client.transport() == transport,
    {
        NetlinkClient { handle: transport }
    }

    /// A handle on the channel of this client.
    pub fn cloneable_handle(&self) -> (handle: NetlinkHandle<'_, T>)
        ensures
            handle.transport() == self.transport(),
    {
        NetlinkHandle { handle: &self.handle }
    }
}

impl<'a, T: NetlinkTransport> NetlinkHandle<'a, T> {
    /// The channel that the handle borrows.
    pub closed spec fn transport(&self) -> T {
        *self.handle
    }

    /// The channel.
    pub fn handle(&self) -> (transport: &T)
        ensures
            *transport == self.transport(),
    {
        self.handle
    }
}

/// True when `r` is success or a netlink error.
pub open spec fn ok_or_netlink<V>(r: Result<V, Error>) -> bool {
    r matches Err(e) ==> e@ is Netlink
}

/// True when `r` is success, a netlink error, or the error for an
/// interface of the given name that is not found.
pub open spec fn ok_or_not_found<V>(r: Result<V, Error>, name: Seq<char>) -> bool {
    r matches Err(e) ==> e@ is Netlink || e@ == (ErrorModel::InterfaceNotFound { name })
}

impl<'a, T: NetlinkTransport> LinkOps for NetlinkHandle<'a, T> {
    /// Asks the channel for the links of the name and gives the index of
    /// the first record of the reply.
    fn get_link_by_name(&self, name: &str) -> (r: Result<u32, Error>)
        ensures
            resolves(self.transport(), name@, index_result(r)),
            ok_or_not_found(r, name@),
    {
        let reply = self.handle.query_links(Some(name));
        let ghost answer = reply;
        let r = index_from_reply(reply, name);
        assert(call_ensures(T::query_links, (&self.transport(), Some(name)), answer));
        r
    }

    /// Asks the channel for all links and gives a snapshot of each, in
    /// the order of the reply and without addresses.
    fn list_links(&self) -> (r: Result<Vec<LinkInfo>, Error>)
        ensures
            lists(self.transport(), links_result(r)),
            ok_or_netlink(r),
            r matches Ok(links) ==> forall|i: int|
                0 <= i < links@.len() ==> (#[trigger] links@[i])@.addresses.len() == 0,
    {
        let reply = self.handle.query_links(None);
        let ghost answer = reply;
        let r = links_from_reply(reply);
        assert(call_ensures(T::query_links, (&self.transport(), None::<&str>), answer));
        proof {
            if r is Ok {
                let links = r->Ok_0;
                assert forall|i: int| 0 <= i < links@.len() implies (
                #[trigger] links@[i])@.addresses.len() == 0 by {
                    assert(links_view(links@)[i] == links@[i]@);
                }
            }
        }
        r
    }

    /// Asks the channel for the links of the name and gives the snapshot
    /// of the first record of the reply, without addresses.
    fn get_link_info(&self, name: &str) -> (r: Result<LinkInfo, Error>)
        ensures
            finds(self.transport(), name@, link_result(r)),
            ok_or_not_found(r, name@),
            r matches Ok(info) ==> info@.addresses.len() == 0,
    {
        let reply = self.handle.query_links(Some(name));
        let ghost answer = reply;
        let r = link_from_reply(reply, name);
        assert(call_ensures(T::query_links, (&self.transport(), Some(name)), answer));
        r
    }

    /// Asks the channel to set the flag "up" of the link, and succeeds
    /// exactly when the kernel acknowledges it.
    fn set_link_up(&self, index: u32) -> (r: Result<(), Error>)
        ensures
            changes(self.transport(), index, LinkChange::Up, unit_result(r)),
            ok_or_netlink(r),
    {
        let reply = self.handle.change_link(index, LinkChange::Up);
        let ghost answer = reply;
        let r = ack_from_reply(reply);
        assert(call_ensures(T::change_link, (&self.transport(), index, LinkChange::Up), answer));
        r
    }

    /// Asks the channel to clear the flag "up" of the link, and succeeds
    /// exactly when the kernel acknowledges it.
    fn set_link_down(&self, index: u32) -> (r: Result<(), Error>)
        ensures
            changes(self.transport(), index, LinkChange::Down, unit_result(r)),
            ok_or_netlink(r),
    {
        let reply = self.handle.change_link(index, LinkChange::Down);
        let ghost answer = reply;
        let r = ack_from_reply(reply);
        assert(call_ensures(T::change_link, (&self.transport(), index, LinkChange::Down), answer));
        r
    }

    /// Asks the channel to set the MTU of the link, and succeeds exactly
    /// when the kernel acknowledges it.
    fn set_link_mtu(&self, index: u32, mtu: u32) -> (r: Result<(), Error>)
        ensures
            changes(self.transport(), index, LinkChange::Mtu(mtu), unit_result(r)),
            ok_or_netlink(r),
    {
        let reply = self.handle.change_link(index, LinkChange::Mtu(mtu));
        let ghost answer = reply;
        let r = ack_from_reply(reply);
        assert(call_ensures(
            T::change_link,
            (&self.transport(), index, LinkChange::Mtu(mtu)),
            answer,
        ));
        r
    }
}

impl<'a, T: NetlinkTransport> AddressOps for NetlinkHandle<'a, T> {
    /// Asks the channel to add the address to the link, and succeeds
    /// exactly when the kernel acknowledges it.
    fn add_address(&self, index: u32, network: IpNetwork) -> (r: Result<(), Error>)
        ensures
            adds(self.transport(), index, network@, unit_result(r)),
            ok_or_netlink(r),
    {
        let reply = self.handle.add_address(index, network);
        let ghost answer = reply;
        let r = ack_from_reply(reply);
        assert(call_ensures(T::add_address, (&self.transport(), index, network), answer));
        r
    }

    /// Always fails: removing an address is not implemented, and nothing
    /// is asked of the kernel.
    fn delete_address(&self, index: u32, network: IpNetwork) -> (r: Result<(), Error>)
        ensures
            r matches Err(e) && e@ == ErrorModel::Generic(delete_address_message()),
    {
        Err(Error::Generic("delete_address not yet implemented".to_owned()))
    }
}

/// A reply without a record resolves no name: what is made of it is the
/// error for an interface that is not found, with the name that was asked
/// for, whether an index or a snapshot is asked.
pub proof fn lemma_empty_reply_is_not_found(records: Vec<LinkRecord>, name: Seq<char>)
    requires
        records@.len() == 0,
    ensures
        index_outcome(Ok(records), name) == Err::<u32, ErrorModel>(
            ErrorModel::InterfaceNotFound { name },
        ),
        link_outcome(Ok(records), name) == Err::<LinkInfoModel, ErrorModel>(
            ErrorModel::InterfaceNotFound { name },
        ),
{
}

/// A reply with a record resolves the name to that record: the index is
/// its index, and the snapshot is the one that a listing makes of it.
pub proof fn lemma_first_record_is_taken(records: Vec<LinkRecord>, name: Seq<char>)
    requires
        records@.len() > 0,
    ensures
        index_outcome(Ok(records), name) == Ok::<u32, ErrorModel>(records@[0]@.index),
        link_outcome(Ok(records), name) == Ok::<LinkInfoModel, ErrorModel>(
            link_infos_of(records_view(records@))[0],
        ),
{
}

} // verus!
