//! Link records as the kernel reports them, and what the control plane
//! reads from them.
//!
//! A reply to a link query is a sequence of records, one for each
//! interface, in the order in which the kernel lists them. The functions
//! here turn records into [`LinkInfo`] snapshots. A query by name is
//! answered by the kernel with the record of that interface, so the first
//! record of such a reply is the one that is taken.

use vstd::prelude::*;
use crate::error::{Error, ErrorModel};
use crate::mac::MacAddress;
use crate::network::{LinkInfo, LinkInfoModel, LinkState};

verus! {

/// The flag bit of a link that is administratively up.
pub const IFF_UP: u32 = 1;

/// One attribute of a link record.
#[derive(Debug, Clone)]
pub enum LinkAttribute {
    /// The name of the interface.
    IfName(String),
    /// The largest packet that the interface sends, in octets.
    Mtu(u32),
    /// The hardware address, of whatever length the link layer has.
    Address(Vec<u8>),
    /// Any attribute that the control plane does not read.
    Other,
}

/// A [`LinkAttribute`] as plain values.
pub enum LinkAttributeModel {
    IfName(Seq<char>),
    Mtu(u32),
    Address(Seq<u8>),
    Other,
}

impl View for LinkAttribute {
    type V = LinkAttributeModel;

    open spec fn view(&self) -> LinkAttributeModel {
        match self {
            LinkAttribute::IfName(name) => LinkAttributeModel::IfName(name@),
            LinkAttribute::Mtu(mtu) => LinkAttributeModel::Mtu(*mtu),
            LinkAttribute::Address(octets) => LinkAttributeModel::Address(octets@),
            LinkAttribute::Other => LinkAttributeModel::Other,
        }
    }
}

/// What the kernel reports of one interface.
#[derive(Debug, Clone)]
pub struct LinkRecord {
    /// The index of the interface.
    pub index: u32,
    /// The flag bits of the interface.
    pub flags: u32,
    /// The attributes, in the order of the message.
    pub attributes: Vec<LinkAttribute>,
}

/// A [`LinkRecord`] as plain values.
pub struct LinkRecordModel {
    pub index: u32,
    pub flags: u32,
    pub attributes: Seq<LinkAttributeModel>,
}

/// The attributes as plain values.
pub open spec fn attributes_view(attributes: Seq<LinkAttribute>) -> Seq<LinkAttributeModel> {
    Seq::new(attributes.len(), |i: int| attributes[i]@)
}

impl View for LinkRecord {
    type V = LinkRecordModel;

    open spec fn view(&self) -> LinkRecordModel {
        LinkRecordModel {
            index: self.index,
            flags: self.flags,
            attributes: attributes_view(self.attributes@),
        }
    }
}

/// The records as plain values.
pub open spec fn records_view(records: Seq<LinkRecord>) -> Seq<LinkRecordModel> {
    Seq::new(records.len(), |i: int| records[i]@)
}

/// The snapshots as plain values.
pub open spec fn links_view(links: Seq<LinkInfo>) -> Seq<LinkInfoModel> {
    Seq::new(links.len(), |i: int| links[i]@)
}

/// The name that the attributes give: that of the last name attribute,
/// the empty name if there is none.
pub open spec fn name_of(attributes: Seq<LinkAttributeModel>) -> Seq<char>
    decreases attributes.len(),
{
    if attributes.len() == 0 {
        Seq::<char>::empty()
    } else {
        match attributes.last() {
            LinkAttributeModel::IfName(name) => name,
            _ => name_of(attributes.drop_last()),
        }
    }
}

/// The MTU that the attributes give: that of the last MTU attribute, zero
/// if there is none.
pub open spec fn mtu_of(attributes: Seq<LinkAttributeModel>) -> u32
    decreases attributes.len(),
{
    if attributes.len() == 0 {
        0
    } else {
        match attributes.last() {
            LinkAttributeModel::Mtu(mtu) => mtu,
            _ => mtu_of(attributes.drop_last()),
        }
    }
}

/// The hardware address that the attributes give: that of the last address
/// attribute of six octets, none if there is no such attribute.
pub open spec fn mac_of(attributes: Seq<LinkAttributeModel>) -> Option<Seq<u8>>
    decreases attributes.len(),
{
    if attributes.len() == 0 {
        None
    } else {
        match attributes.last() {
            LinkAttributeModel::Address(octets) => if octets.len() == 6 {
                Some(octets)
            } else {
                mac_of(attributes.drop_last())
            },
            _ => mac_of(attributes.drop_last()),
        }
    }
}

/// True when the flag bit for "administratively up" is set.
pub open spec fn is_up(flags: u32) -> bool {
    flags & IFF_UP != 0
}

/// The state that the flags give.
pub open spec fn state_of(flags: u32) -> LinkState {
    if is_up(flags) {
        LinkState::Up
    } else {
        LinkState::Down
    }
}

/// The snapshot of a record: its index, the name, MTU and hardware address
/// of its attributes, the state of its flags, and no addresses, which a
/// link record does not carry.
pub open spec fn link_info_of(record: LinkRecordModel) -> LinkInfoModel {
    LinkInfoModel {
        index: record.index,
        name: name_of(record.attributes),
        state: state_of(record.flags),
        mtu: mtu_of(record.attributes),
        mac_address: mac_of(record.attributes),
        addresses: Seq::empty(),
    }
}

/// The snapshots of the records, one for each and in their order.
pub open spec fn link_infos_of(records: Seq<LinkRecordModel>) -> Seq<LinkInfoModel> {
    Seq::new(records.len(), |i: int| link_info_of(records[i]))
}

impl LinkRecord {
    /// The snapshot of this record.
    pub fn to_link_info(&self) -> (info: LinkInfo)
        ensures
            info@ == link_info_of(self@),
    {
        let mut name = String::new();
        let mut mtu: u32 = 0;
        let mut mac: Option<MacAddress> = None;
        let ghost attrs = attributes_view(self.attributes@);
        let mut i: usize = 0;
        assert(attrs.take(0) =~= Seq::<LinkAttributeModel>::empty());
        while i < self.attributes.len()
            invariant
                0 <= i <= self.attributes@.len(),
                attrs == attributes_view(self.attributes@),
                name@ == name_of(attrs.take(i as int)),
                mtu == mtu_of(attrs.take(i as int)),
                mac is Some <==> mac_of(attrs.take(i as int)) is Some,
                mac matches Some(m) ==> mac_of(attrs.take(i as int)) == Some(m@),
            decreases self.attributes@.len() - i,
        {
            let ghost now = attrs.take(i as int + 1);
            assert(now.drop_last() =~= attrs.take(i as int));
            assert(now.last() == self.attributes@[i as int]@);
            match &self.attributes[i] {
                LinkAttribute::IfName(n) => {
                    name = n.clone();
                },
                LinkAttribute::Mtu(m) => {
                    mtu = *m;
                },
                LinkAttribute::Address(octets) => {
                    if octets.len() == 6 {
                        let m = MacAddress::new(
                            [octets[0], octets[1], octets[2], octets[3], octets[4], octets[5]],
                        );
                        assert(m@ =~= octets@);
                        mac = Some(m);
                    }
                },
                LinkAttribute::Other => {},
            }
            i += 1;
        }
        assert(attrs.take(i as int) =~= attrs);
        let state = if self.flags & IFF_UP != 0 {
            LinkState::Up
        } else {
            LinkState::Down
        };
        let info = LinkInfo {
            index: self.index,
            name,
            state,
            mtu,
            mac_address: mac,
            addresses: Vec::new(),
        };
        assert(info@.addresses =~= Seq::empty());
        info
    }

}

/// The snapshots of all records of a reply, in the order of the reply.
pub fn collect_links(records: &Vec<LinkRecord>) -> (links: Vec<LinkInfo>)
    ensures
        links_view(links@) == link_infos_of(records_view(records@)),
        links@.len() == records@.len(),
{
    let mut links: Vec<LinkInfo> = Vec::new();
    let mut i: usize = 0;
    while i < records.len()
        invariant
            0 <= i <= records@.len(),
            links@.len() == i,
            forall|k: int| 0 <= k < i ==> (#[trigger] links@[k])@ == link_info_of(records@[k]@),
        decreases records@.len() - i,
    {
        links.push(records[i].to_link_info());
        i += 1;
    }
    assert(links_view(links@) =~= link_infos_of(records_view(records@)));
    links
}

/// The index of the interface that a query by name asked for. The kernel
/// makes the lookup and answers with the record of the interface, so the
/// first record of the reply is taken, under whatever name it is
/// reported. A reply without a record gives the error for an interface
/// that is not found.
pub fn resolve_index(records: &Vec<LinkRecord>, name: &str) -> (r: Result<u32, Error>)
    ensures
        records@.len() > 0 ==> (r matches Ok(index) && index == records@[0]@.index),
        records@.len() == 0 ==> (r matches Err(e) && e@ == (ErrorModel::InterfaceNotFound {
            name: name@,
        })),
{
    if records.len() > 0 {
        Ok(records[0].index)
    } else {
        Err(Error::InterfaceNotFound { name: name.to_owned() })
    }
}

/// The snapshot of the interface that a query by name asked for: that of
/// the first record of the reply, as a listing makes it. A reply without
/// a record gives the error for an interface that is not found.
pub fn find_link(records: &Vec<LinkRecord>, name: &str) -> (r: Result<LinkInfo, Error>)
    ensures
        records@.len() > 0 ==> (r matches Ok(info) && info@ == link_info_of(records@[0]@)),
        records@.len() == 0 ==> (r matches Err(e) && e@ == (ErrorModel::InterfaceNotFound {
            name: name@,
        })),
{
    if records.len() > 0 {
        Ok(records[0].to_link_info())
    } else {
        Err(Error::InterfaceNotFound { name: name.to_owned() })
    }
}

/// A listing has one snapshot for each record, in the order of the
/// records, and a snapshot is up exactly when the flag bit of its record
/// is set.
pub proof fn lemma_listing(records: Seq<LinkRecordModel>)
    ensures
        link_infos_of(records).len() == records.len(),
        forall|i: int|
            0 <= i < records.len() ==> {
                &&& (#[trigger] link_infos_of(records)[i]) == link_info_of(records[i])
                &&& link_infos_of(records)[i].index == records[i].index
                &&& (link_infos_of(records)[i].state == LinkState::Up <==> is_up(records[i].flags))
                &&& link_infos_of(records)[i].addresses.len() == 0
            },
{
}

} // verus!
