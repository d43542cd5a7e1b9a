//! Value types of the control plane: networks, link snapshots, routes.
//!
//! Every value is a snapshot taken at the time of a query. None of them is
//! bound to the kernel object it was read from, and none is shared.

use vstd::prelude::*;
use std::str::FromStr;
use crate::error::{Error, ErrorModel};
use crate::ip::{ip_text, parse_ip, IpAddr, IpAddrModel};
use crate::mac::MacAddress;
use crate::text::{
    all_digits, lemma_digits_hold_no_separator, lemma_number_text_value, number_text,
    number_value, parse_number, push_number, sub_chars, to_chars,
};

verus! {

/// Whether and for which family an interface asks for addresses by DHCP.
/// The value is declarative: no operation of the control plane acts on it.
#[derive(Debug, Clone, Copy, PartialEq, Eq, Structural)]
pub enum DhcpMode {
    No,
    Yes,
    Ipv4,
    Ipv6,
}

impl Default for DhcpMode {
    /// No DHCP.
    fn default() -> (mode: DhcpMode)
        ensures
            mode == DhcpMode::No,
    {
        DhcpMode::No
    }
}

/// Whether a link is administratively up.
#[derive(Debug, Clone, Copy, PartialEq, Eq, Structural)]
pub enum LinkState {
    Up,
    Down,
}

/// A network in CIDR form: an address and the length of the prefix.
#[derive(Debug, Clone, Copy, PartialEq, Eq)]
pub struct IpNetwork {
    pub addr: IpAddr,
    pub prefix_len: u8,
}

/// An [`IpNetwork`] as plain values.
pub struct IpNetworkModel {
    pub addr: IpAddrModel,
    pub prefix_len: u8,
}

impl View for IpNetwork {
    type V = IpNetworkModel;

    open spec fn view(&self) -> IpNetworkModel {
        IpNetworkModel { addr: self.addr@, prefix_len: self.prefix_len }
    }
}

/// The longest prefix of the family of `addr`: 32 bits or 128.
pub open spec fn max_prefix_len(addr: IpAddrModel) -> nat {
    match addr {
        IpAddrModel::V4(_) => 32,
        IpAddrModel::V6(_) => 128,
    }
}

impl IpNetworkModel {
    /// The address has the length of its family and the prefix is no
    /// longer than the address.
    pub open spec fn well_formed(self) -> bool {
        self.addr.well_formed() && self.prefix_len <= max_prefix_len(self.addr)
    }
}

/// The text of a network: `address/prefix`, the prefix in decimal.
pub open spec fn cidr_text(net: IpNetworkModel) -> Seq<char> {
    ip_text(net.addr).push('/') + number_text(net.prefix_len as nat, 10)
}

/// Where `c` first stands in `s` at or after `from`; the length of `s` if
/// it does not.
pub open spec fn first_index_from(s: Seq<char>, c: char, from: int) -> int
    decreases s.len() - from,
{
    if from < 0 || from >= s.len() {
        s.len() as int
    } else if s[from] == c {
        from
    } else {
        first_index_from(s, c, from + 1)
    }
}

/// The prefix length that `s` writes: decimal digits, worth at most 255,
/// with or without a plus sign in front.
pub open spec fn parse_prefix_len(s: Seq<char>) -> Option<u8> {
    let digits = if s.len() > 0 && s[0] == '+' {
        s.subrange(1, s.len() as int)
    } else {
        s
    };
    if digits.len() > 0 && all_digits(digits, 10) && number_value(digits, 10) <= 255 {
        Some(number_value(digits, 10) as u8)
    } else {
        None
    }
}

/// The network that `s` writes. What stands before the first `/` must be
/// an address, what stands after it a prefix length that the family of the
/// address allows.
pub open spec fn parse_cidr(s: Seq<char>) -> Option<IpNetworkModel> {
    let slash = first_index_from(s, '/', 0);
    if slash >= s.len() {
        None
    } else {
        let addr = parse_ip(s.subrange(0, slash));
        let prefix_len = parse_prefix_len(s.subrange(slash + 1, s.len() as int));
        if addr is Some && prefix_len is Some && prefix_len.unwrap() <= max_prefix_len(
            addr.unwrap(),
        ) {
            Some(IpNetworkModel { addr: addr.unwrap(), prefix_len: prefix_len.unwrap() })
        } else {
            None
        }
    }
}

/// Reads a prefix length.
fn read_prefix_len(s: &Vec<char>) -> (r: Option<u8>)
    ensures
        r == parse_prefix_len(s@),
{
    let digits = if s.len() > 0 && s[0] == '+' {
        sub_chars(s, 1, s.len())
    } else {
        sub_chars(s, 0, s.len())
    };
    assert(s@.subrange(0, s@.len() as int) =~= s@);
    match parse_number(&digits, 10, 255) {
        None => None,
        Some(v) => Some(v as u8),
    }
}

impl IpNetwork {
    /// The longest prefix that the family of the address allows.
    pub fn max_prefix_len(addr: &IpAddr) -> (max: u8)
        ensures
            max == max_prefix_len(addr@),
    {
        match addr {
            IpAddr::V4(_) => 32,
            IpAddr::V6(_) => 128,
        }
    }

    /// The network of `addr` with a prefix of `prefix_len` bits. A prefix
    /// longer than the address is refused, with the text of what was asked
    /// for in the error.
    pub fn new(addr: IpAddr, prefix_len: u8) -> (r: Result<IpNetwork, Error>)
        ensures
            prefix_len <= max_prefix_len(addr@) ==> (r matches Ok(net) && net@ == (IpNetworkModel {
                addr: addr@,
                prefix_len,
            }) && net@.well_formed()),
            prefix_len > max_prefix_len(addr@) ==> (r matches Err(e) && e@
                == (ErrorModel::InvalidCidr {
                input: cidr_text(IpNetworkModel { addr: addr@, prefix_len }),
            })),
    {
        let net = IpNetwork { addr, prefix_len };
        if prefix_len <= IpNetwork::max_prefix_len(&addr) {
            proof {
                addr.lemma_well_formed();
            }
            Ok(net)
        } else {
            Err(Error::InvalidCidr { input: net.to_string() })
        }
    }

    /// Reads a network from text such as `192.168.1.10/24`. Text without
    /// a `/`, with an address or a prefix length that cannot be read, or
    /// with a prefix longer than the address, is refused and handed back
    /// in the error.
    pub fn parse(s: &str) -> (r: Result<IpNetwork, Error>)
        ensures
            match parse_cidr(s@) {
                Some(net) => r matches Ok(n) && n@ == net && n@.well_formed(),
                None => r matches Err(e) && e@ == (ErrorModel::InvalidCidr { input: s@ }),
            },
    {
        let chars = to_chars(s);
        let n = chars.len();
        let mut slash: usize = 0;
        while slash < n && chars[slash] != '/'
            invariant
                n == chars@.len(),
                0 <= slash <= n,
                first_index_from(chars@, '/', 0) == first_index_from(chars@, '/', slash as int),
            decreases n - slash,
        {
            slash += 1;
        }
        if slash >= n {
            return Err(Error::InvalidCidr { input: s.to_owned() });
        }
        let addr_text = sub_chars(&chars, 0, slash);
        let prefix_text = sub_chars(&chars, slash + 1, n);
        let addr = match IpAddr::parse_chars(&addr_text) {
            None => {
                return Err(Error::InvalidCidr { input: s.to_owned() });
            },
            Some(addr) => addr,
        };
        let prefix_len = match read_prefix_len(&prefix_text) {
            None => {
                return Err(Error::InvalidCidr { input: s.to_owned() });
            },
            Some(prefix_len) => prefix_len,
        };
        if prefix_len > IpNetwork::max_prefix_len(&addr) {
            return Err(Error::InvalidCidr { input: s.to_owned() });
        }
        proof {
            addr.lemma_well_formed();
        }
        Ok(IpNetwork { addr, prefix_len })
    }

    /// The network as text: `address/prefix`.
    pub fn to_string(&self) -> (text: String)
        ensures
            text@ == cidr_text(self@),
    {
        let mut text = self.addr.to_string();
        proof {
            reveal_strlit("/");
        }
        text.append("/");
        push_number(&mut text, self.prefix_len as u64, 10);
        assert(text@ =~= cidr_text(self@));
        text
    }

    /// True when the prefix is no longer than the address.
    pub fn is_well_formed(&self) -> (b: bool)
        ensures
            b == self@.well_formed(),
    {
        proof {
            self.addr.lemma_well_formed();
        }
        self.prefix_len <= IpNetwork::max_prefix_len(&self.addr)
    }
}

impl FromStr for IpNetwork {
    type Err = Error;

    /// Reads a network as [`IpNetwork::parse`] does.
    fn from_str(s: &str) -> (r: Result<IpNetwork, Error>)
        ensures
            match parse_cidr(s@) {
                Some(net) => r matches Ok(n) && n@ == net && n@.well_formed(),
                None => r matches Err(e) && e@ == (ErrorModel::InvalidCidr { input: s@ }),
            },
    {
        IpNetwork::parse(s)
    }
}

/// A snapshot of one network interface.
#[derive(Debug, Clone)]
pub struct LinkInfo {
    /// The index that the kernel gave the interface.
    pub index: u32,
    /// The name of the interface.
    pub name: String,
    /// Whether the interface is administratively up.
    pub state: LinkState,
    /// The largest packet that the interface sends, in octets.
    pub mtu: u32,
    /// The hardware address, where the interface has one of six octets.
    pub mac_address: Option<MacAddress>,
    /// The addresses of the interface.
    pub addresses: Vec<IpNetwork>,
}

/// A [`LinkInfo`] as plain values.
pub struct LinkInfoModel {
    pub index: u32,
    pub name: Seq<char>,
    pub state: LinkState,
    pub mtu: u32,
    pub mac_address: Option<Seq<u8>>,
    pub addresses: Seq<IpNetworkModel>,
}

impl View for LinkInfo {
    type V = LinkInfoModel;

    open spec fn view(&self) -> LinkInfoModel {
        LinkInfoModel {
            index: self.index,
            name: self.name@,
            state: self.state,
            mtu: self.mtu,
            mac_address: match self.mac_address {
                Some(mac) => Some(mac@),
                None => None,
            },
            addresses: Seq::new(self.addresses@.len(), |i: int| self.addresses@[i]@),
        }
    }
}

impl LinkInfo {
    /// A copy of the snapshot.
    pub fn clone_snapshot(&self) -> (copy: LinkInfo)
        ensures
            copy@ == self@,
    {
        let mut addresses: Vec<IpNetwork> = Vec::new();
        let mut i: usize = 0;
        while i < self.addresses.len()
            invariant
                0 <= i <= self.addresses@.len(),
                addresses@.len() == i,
                forall|k: int| 0 <= k < i ==> addresses@[k] == self.addresses@[k],
            decreases self.addresses@.len() - i,
        {
            addresses.push(self.addresses[i]);
            i += 1;
        }
        let copy = LinkInfo {
            index: self.index,
            name: self.name.clone(),
            state: self.state,
            mtu: self.mtu,
            mac_address: self.mac_address,
            addresses,
        };
        assert(copy@.addresses =~= self@.addresses);
        copy
    }
}

/// A routing entry.
#[derive(Debug, Clone, PartialEq, Eq)]
pub struct Route {
    /// Where the route leads; `None` for the default route.
    pub destination: Option<IpNetwork>,
    /// The next hop, if the route has one.
    pub gateway: Option<IpAddr>,
}

impl Route {
    /// True for the default route, which names no destination.
    pub fn is_default(&self) -> (b: bool)
        ensures
            b == (self.destination is None),
    {
        self.destination.is_none()
    }
}

/// The text of a network parses to the network, as long as the address is
/// written so that it parses to itself.
pub proof fn lemma_cidr_text_parses(net: IpNetworkModel)
    requires
        net.well_formed(),
        parse_ip(ip_text(net.addr)) == Some(net.addr),
        !ip_text(net.addr).contains('/'),
    ensures
        parse_cidr(cidr_text(net)) == Some(net),
{
    let addr = ip_text(net.addr);
    let digits = number_text(net.prefix_len as nat, 10);
    let s = cidr_text(net);
    lemma_number_text_value(net.prefix_len as nat, 10);
    lemma_digits_hold_no_separator(digits, 10);
    lemma_first_index(s, '/', addr.len() as int, 0);
    assert(s.subrange(0, addr.len() as int) =~= addr);
    assert(s.subrange(addr.len() as int + 1, s.len() as int) =~= digits);
    assert(crate::text::digit_value(digits[0]) < 10);
    assert(digits[0] != '+');
}

/// Where a character stands that does not occur before: that is its first
/// index.
pub proof fn lemma_first_index(s: Seq<char>, c: char, at: int, from: int)
    requires
        0 <= from <= at < s.len(),
        s[at] == c,
        forall|k: int| from <= k < at ==> s[k] != c,
    ensures
        first_index_from(s, c, from) == at,
    decreases at - from,
{
    if from < at {
        lemma_first_index(s, c, at, from + 1);
    }
}

} // verus!
