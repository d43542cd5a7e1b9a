//! The `validate` command: a configuration file, held against the rules.

use vstd::prelude::*;
use vstd::string::StringSliceAdditionalSpecFns;
use crate::cli::apply::{is_word, matches_word, InterfaceConfig, InterfaceConfigModel};
use crate::ip::{parse_ip, IpAddr, IpAddrModel};
use crate::text::{
    digit_of, digit_value, number_text, parts_view, push_number, same_text, split, split_chars,
    to_chars,
};

verus! {

/// The arguments of `validate`.
#[derive(Debug, Clone, PartialEq, Eq)]
pub struct ValidateArgs {
    /// The path of the configuration file.
    pub file: String,
    /// Let warnings fail the validation.
    pub strict: bool,
}

/// Why an address of a configuration is refused.
#[derive(Debug, Clone, Copy, PartialEq, Eq, Structural)]
pub enum AddressFault {
    /// The text is not one address and one prefix with a slash between.
    Format,
    /// What stands before the slash is no IP address.
    Address,
    /// Nothing stands after the slash.
    PrefixEmpty,
    /// What stands after the slash is no number.
    PrefixDigit,
    /// The number after the slash is greater than 255.
    PrefixTooLarge,
    /// The prefix of an IPv6 address is longer than 128.
    Ipv6Range,
    /// The prefix of an IPv4 address is longer than 32.
    Ipv4Range,
}

/// Why the digits from `from` on, read after a number worth `acc`, are
/// no number up to 255: with the first character that is no digit, or
/// the first digit that takes the number past 255, whichever comes
/// first.
pub open spec fn digits_fault(s: Seq<char>, from: int, acc: nat) -> Option<AddressFault>
    decreases s.len() - from,
{
    if from < 0 || from >= s.len() {
        None
    } else if digit_value(s[from]) >= 10 {
        Some(AddressFault::PrefixDigit)
    } else if acc * 10 + digit_value(s[from]) > 255 {
        Some(AddressFault::PrefixTooLarge)
    } else {
        digits_fault(s, from + 1, acc * 10 + digit_value(s[from]))
    }
}

/// What the digits from `from` on are worth, read after a number worth
/// `acc`.
pub open spec fn digits_value(s: Seq<char>, from: int, acc: nat) -> nat
    decreases s.len() - from,
{
    if from < 0 || from >= s.len() {
        acc
    } else {
        digits_value(s, from + 1, acc * 10 + digit_value(s[from]))
    }
}

/// Where the digits of a number begin: after a plus sign, if one stands in
/// front of something.
pub open spec fn digits_start(s: Seq<char>) -> int {
    if s.len() > 1 && s[0] == '+' {
        1
    } else {
        0
    }
}

/// Why a text is no prefix length: it is empty, or it is no number of one
/// or more decimal digits with or without a plus sign in front, or the
/// number is greater than 255.
pub open spec fn prefix_fault(s: Seq<char>) -> Option<AddressFault> {
    if s.len() == 0 {
        Some(AddressFault::PrefixEmpty)
    } else {
        digits_fault(s, digits_start(s), 0)
    }
}

/// Why a text is no address of a configuration; `None` for a text that
/// is one: an IP address, a slash, and a prefix length that the family of
/// the address allows.
pub open spec fn address_fault(address: Seq<char>) -> Option<AddressFault> {
    let parts = split(address, '/');
    if parts.len() != 2 {
        Some(AddressFault::Format)
    } else {
        match parse_ip(parts[0]) {
            None => Some(AddressFault::Address),
            Some(addr) => {
                if prefix_fault(parts[1]) is Some {
                    prefix_fault(parts[1])
                } else {
                    let prefix = digits_value(parts[1], digits_start(parts[1]), 0);
                    match addr {
                        IpAddrModel::V6(_) => if prefix > 128 {
                            Some(AddressFault::Ipv6Range)
                        } else {
                            None
                        },
                        IpAddrModel::V4(_) => if prefix > 32 {
                            Some(AddressFault::Ipv4Range)
                        } else {
                            None
                        },
                    }
                }
            },
        }
    }
}

impl AddressFault {
    /// The fault in words.
    pub fn message(&self) -> (text: &'static str)
        ensures
            text@ == match self {
                AddressFault::Format =>
                    "Address must be in format IP/PREFIX (e.g., 192.168.1.100/24)"@,
                AddressFault::Address => "invalid IP address syntax"@,
                AddressFault::PrefixEmpty => "cannot parse integer from empty string"@,
                AddressFault::PrefixDigit => "invalid digit found in string"@,
                AddressFault::PrefixTooLarge => "number too large to fit in target type"@,
                AddressFault::Ipv6Range => "IPv6 prefix must be 0-128"@,
                AddressFault::Ipv4Range => "IPv4 prefix must be 0-32"@,
            },
    {
        match self {
            AddressFault::Format => "Address must be in format IP/PREFIX (e.g., 192.168.1.100/24)",
            AddressFault::Address => "invalid IP address syntax",
            AddressFault::PrefixEmpty => "cannot parse integer from empty string",
            AddressFault::PrefixDigit => "invalid digit found in string",
            AddressFault::PrefixTooLarge => "number too large to fit in target type",
            AddressFault::Ipv6Range => "IPv6 prefix must be 0-128",
            AddressFault::Ipv4Range => "IPv4 prefix must be 0-32",
        }
    }
}

/// Reads a prefix length, or says why it is none.
fn read_prefix(s: &Vec<char>) -> (r: Result<u8, AddressFault>)
    ensures
        match r {
            Ok(prefix) => prefix_fault(s@) is None && prefix == digits_value(
                s@,
                digits_start(s@),
                0,
            ),
            Err(fault) => prefix_fault(s@) == Some(fault),
        },
{
    if s.len() == 0 {
        return Err(AddressFault::PrefixEmpty);
    }
    let start: usize = if s.len() > 1 && s[0] == '+' {
        1
    } else {
        0
    };
    let mut acc: u32 = 0;
    let mut i: usize = start;
    while i < s.len()
        invariant
            start <= i <= s@.len(),
            s@.len() > 0,
            start == digits_start(s@),
            acc <= 255,
            digits_fault(s@, start as int, 0) == digits_fault(s@, i as int, acc as nat),
            digits_value(s@, start as int, 0) == digits_value(s@, i as int, acc as nat),
        decreases s@.len() - i,
    {
        match digit_of(s[i], 10) {
            None => {
                return Err(AddressFault::PrefixDigit);
            },
            Some(d) => {
                let next: u32 = acc * 10 + d as u32;
                if next > 255 {
                    return Err(AddressFault::PrefixTooLarge);
                }
                acc = next;
            },
        }
        i += 1;
    }
    Ok(acc as u8)
}

/// Holds an address of a configuration against the rules.
pub fn validate_ip_network(address: &str) -> (r: Result<(), AddressFault>)
    ensures
        match r {
            Ok(_) => address_fault(address@) is None,
            Err(fault) => address_fault(address@) == Some(fault),
        },
{
    let chars = to_chars(address);
    let parts = split_chars(&chars, '/');
    if parts.len() != 2 {
        return Err(AddressFault::Format);
    }
    let ghost texts = split(address@, '/');
    assert(parts@[0]@ == texts[0] && parts@[1]@ == texts[1]) by {
        assert(parts_view(parts@)[0] == parts@[0]@);
        assert(parts_view(parts@)[1] == parts@[1]@);
    }
    let addr = match IpAddr::parse_chars(&parts[0]) {
        None => {
            return Err(AddressFault::Address);
        },
        Some(addr) => addr,
    };
    let prefix = match read_prefix(&parts[1]) {
        Err(fault) => {
            return Err(fault);
        },
        Ok(prefix) => prefix,
    };
    if addr.is_ipv6() {
        if prefix > 128 {
            return Err(AddressFault::Ipv6Range);
        }
    } else {
        if prefix > 32 {
            return Err(AddressFault::Ipv4Range);
        }
    }
    Ok(())
}

/// What is found wrong, or worth a warning, in the configuration of an
/// interface.
#[derive(Debug, Clone, PartialEq, Eq)]
pub enum Finding {
    /// The interface has no name.
    EmptyName,
    /// The name is longer than fifteen bytes.
    NameTooLong { name: String },
    /// The state is neither `up` nor `down`.
    InvalidState { state: String, name: String },
    /// The MTU is below 68.
    MtuTooSmall { mtu: u32, name: String },
    /// The MTU is above 65535.
    MtuTooLarge { mtu: u32, name: String },
    /// The MTU is above 9000.
    MtuUnusual { mtu: u32, name: String },
    /// The MTU is 9000.
    JumboFrames { name: String },
    /// An address is refused.
    InvalidAddress { address: String, name: String, fault: AddressFault },
    /// The interface has no addresses.
    NoAddresses { name: String },
    /// An address occurs once more.
    DuplicateAddress { address: String, name: String },
}

/// A [`Finding`] as plain values.
pub enum FindingModel {
    EmptyName,
    NameTooLong { name: Seq<char> },
    InvalidState { state: Seq<char>, name: Seq<char> },
    MtuTooSmall { mtu: u32, name: Seq<char> },
    MtuTooLarge { mtu: u32, name: Seq<char> },
    MtuUnusual { mtu: u32, name: Seq<char> },
    JumboFrames { name: Seq<char> },
    InvalidAddress { address: Seq<char>, name: Seq<char>, fault: AddressFault },
    NoAddresses { name: Seq<char> },
    DuplicateAddress { address: Seq<char>, name: Seq<char> },
}

impl View for Finding {
    type V = FindingModel;

    open spec fn view(&self) -> FindingModel {
        match self {
            Finding::EmptyName => FindingModel::EmptyName,
            Finding::NameTooLong { name } => FindingModel::NameTooLong { name: name@ },
            Finding::InvalidState { state, name } => FindingModel::InvalidState {
                state: state@,
                name: name@,
            },
            Finding::MtuTooSmall { mtu, name } => FindingModel::MtuTooSmall {
                mtu: *mtu,
                name: name@,
            },
            Finding::MtuTooLarge { mtu, name } => FindingModel::MtuTooLarge {
                mtu: *mtu,
                name: name@,
            },
            Finding::MtuUnusual { mtu, name } => FindingModel::MtuUnusual {
                mtu: *mtu,
                name: name@,
            },
            Finding::JumboFrames { name } => FindingModel::JumboFrames { name: name@ },
            Finding::InvalidAddress { address, name, fault } => FindingModel::InvalidAddress {
                address: address@,
                name: name@,
                fault: *fault,
            },
            Finding::NoAddresses { name } => FindingModel::NoAddresses { name: name@ },
            Finding::DuplicateAddress { address, name } => FindingModel::DuplicateAddress {
                address: address@,
                name: name@,
            },
        }
    }
}

impl FindingModel {
    /// True for what fails the validation; the rest are warnings.
    pub open spec fn is_error(self) -> bool {
        match self {
            FindingModel::MtuUnusual { .. } => false,
            FindingModel::JumboFrames { .. } => false,
            FindingModel::NoAddresses { .. } => false,
            FindingModel::DuplicateAddress { .. } => false,
            _ => true,
        }
    }

    /// The finding in words.
    pub open spec fn message(self) -> Seq<char> {
        match self {
            FindingModel::EmptyName => "Interface name cannot be empty"@,
            FindingModel::NameTooLong { name } => "Interface name '"@ + name
                + "' is too long (max 15 characters)"@,
            FindingModel::InvalidState { state, name } => "Invalid state '"@ + state
                + "' for interface '"@ + name + "' (must be 'up' or 'down')"@,
            FindingModel::MtuTooSmall { mtu, name } => "MTU "@ + number_text(mtu as nat, 10)
                + " for interface '"@ + name + "' is too small (minimum 68)"@,
            FindingModel::MtuTooLarge { mtu, name } => "MTU "@ + number_text(mtu as nat, 10)
                + " for interface '"@ + name + "' is too large (maximum 65535)"@,
            FindingModel::MtuUnusual { mtu, name } => "MTU "@ + number_text(mtu as nat, 10)
                + " for interface '"@ + name + "' is unusually large (standard max is 9000)"@,
            FindingModel::JumboFrames { name } => "Jumbo frames (MTU 9000) on interface '"@ + name
                + "' require network infrastructure support"@,
            FindingModel::InvalidAddress { address, name, fault } => "Invalid address '"@ + address
                + "' for interface '"@ + name + "': "@ + fault_text(fault),
            FindingModel::NoAddresses { name } => "Interface '"@ + name
                + "' has no addresses configured"@,
            FindingModel::DuplicateAddress { address, name } => "Duplicate address '"@ + address
                + "' on interface '"@ + name + "'"@,
        }
    }
}

/// A fault in words.
pub open spec fn fault_text(fault: AddressFault) -> Seq<char> {
    match fault {
        AddressFault::Format => "Address must be in format IP/PREFIX (e.g., 192.168.1.100/24)"@,
        AddressFault::Address => "invalid IP address syntax"@,
        AddressFault::PrefixEmpty => "cannot parse integer from empty string"@,
        AddressFault::PrefixDigit => "invalid digit found in string"@,
        AddressFault::PrefixTooLarge => "number too large to fit in target type"@,
        AddressFault::Ipv6Range => "IPv6 prefix must be 0-128"@,
        AddressFault::Ipv4Range => "IPv4 prefix must be 0-32"@,
    }
}

/// `lead`, `a`, `between`, `b`, `trail`, one after the other.
fn compose(lead: &str, a: &str, between: &str, b: &str, trail: &str) -> (text: String)
    ensures
        text@ == lead@ + a@ + between@ + b@ + trail@,
{
    let mut text = lead.to_owned();
    text.append(a);
    text.append(between);
    text.append(b);
    text.append(trail);
    text
}

/// `MTU `, the number, ` for interface '`, the name, and `trail`.
fn compose_mtu(mtu: u32, name: &str, trail: &str) -> (text: String)
    ensures
        text@ == "MTU "@ + number_text(mtu as nat, 10) + " for interface '"@ + name@ + trail@,
{
    let mut text = "MTU ".to_owned();
    push_number(&mut text, mtu as u64, 10);
    text.append(" for interface '");
    text.append(name);
    text.append(trail);
    text
}

impl Finding {
    /// True for what fails the validation; the rest are warnings.
    pub fn is_error(&self) -> (b: bool)
        ensures
            b == self@.is_error(),
    {
        match self {
            Finding::MtuUnusual { .. } => false,
            Finding::JumboFrames { .. } => false,
            Finding::NoAddresses { .. } => false,
            Finding::DuplicateAddress { .. } => false,
            _ => true,
        }
    }

    /// The finding in words.
    pub fn message(&self) -> (text: String)
        ensures
            text@ == self@.message(),
    {
        proof {
            reveal_strlit("");
        }
        match self {
            Finding::EmptyName => "Interface name cannot be empty".to_owned(),
            Finding::NameTooLong { name } => {
                let text = compose(
                    "Interface name '",
                    name.as_str(),
                    "' is too long (max 15 characters)",
                    "",
                    "",
                );
                assert(text@ =~= self@.message());
                text
            },
            Finding::InvalidState { state, name } => compose(
                "Invalid state '",
                state.as_str(),
                "' for interface '",
                name.as_str(),
                "' (must be 'up' or 'down')",
            ),
            Finding::MtuTooSmall { mtu, name } => compose_mtu(
                *mtu,
                name.as_str(),
                "' is too small (minimum 68)",
            ),
            Finding::MtuTooLarge { mtu, name } => compose_mtu(
                *mtu,
                name.as_str(),
                "' is too large (maximum 65535)",
            ),
            Finding::MtuUnusual { mtu, name } => compose_mtu(
                *mtu,
                name.as_str(),
                "' is unusually large (standard max is 9000)",
            ),
            Finding::JumboFrames { name } => {
                let text = compose(
                    "Jumbo frames (MTU 9000) on interface '",
                    name.as_str(),
                    "' require network infrastructure support",
                    "",
                    "",
                );
                assert(text@ =~= self@.message());
                text
            },
            Finding::InvalidAddress { address, name, fault } => {
                let mut text = compose(
                    "Invalid address '",
                    address.as_str(),
                    "' for interface '",
                    name.as_str(),
                    "': ",
                );
                text.append(fault.message());
                text
            },
            Finding::NoAddresses { name } => {
                let text = compose(
                    "Interface '",
                    name.as_str(),
                    "' has no addresses configured",
                    "",
                    "",
                );
                assert(text@ =~= self@.message());
                text
            },
            Finding::DuplicateAddress { address, name } => compose(
                "Duplicate address '",
                address.as_str(),
                "' on interface '",
                name.as_str(),
                "'",
            ),
        }
    }
}

/// What is found in the name: it must not be empty, nor longer than
/// fifteen bytes.
pub open spec fn name_findings(name: Seq<char>) -> Seq<FindingModel> {
    if name.len() == 0 {
        seq![FindingModel::EmptyName]
    } else if vstd::utf8::encode_utf8(name).len() > 15 {
        seq![FindingModel::NameTooLong { name }]
    } else {
        Seq::empty()
    }
}

/// What is found in the state: it must be `up` or `down`, in any mix of
/// upper and lower case.
pub open spec fn state_findings(state: Option<Seq<char>>, name: Seq<char>) -> Seq<FindingModel> {
    match state {
        Some(s) => if is_word(s, "up"@) || is_word(s, "down"@) {
            Seq::empty()
        } else {
            seq![FindingModel::InvalidState { state: s, name }]
        },
        None => Seq::empty(),
    }
}

/// What is found in the MTU: below 68 and above 65535 it is refused; at
/// 9000 and above the warnings for large frames are given.
pub open spec fn mtu_findings(mtu: Option<u32>, name: Seq<char>) -> Seq<FindingModel> {
    match mtu {
        Some(m) => if m < 68 {
            seq![FindingModel::MtuTooSmall { mtu: m, name }]
        } else if m > 65535 {
            seq![FindingModel::MtuTooLarge { mtu: m, name }]
        } else if m > 9000 && m != 65535 {
            seq![FindingModel::MtuUnusual { mtu: m, name }]
        } else if m == 9000 {
            seq![FindingModel::JumboFrames { name }]
        } else {
            Seq::empty()
        },
        None => Seq::empty(),
    }
}

/// What is found in the addresses up to the `upto`th: one finding for
/// each address that is refused, in their order.
pub open spec fn address_findings(addresses: Seq<Seq<char>>, name: Seq<char>, upto: int) -> Seq<
    FindingModel,
>
    decreases upto,
{
    if upto <= 0 {
        Seq::empty()
    } else {
        let before = address_findings(addresses, name, upto - 1);
        match address_fault(addresses[upto - 1]) {
            Some(fault) => before.push(
                FindingModel::InvalidAddress { address: addresses[upto - 1], name, fault },
            ),
            None => before,
        }
    }
}

/// True when the `i`th address occurs before.
pub open spec fn occurs_before(addresses: Seq<Seq<char>>, i: int) -> bool {
    exists|k: int| 0 <= k < i && #[trigger] addresses[k] == addresses[i]
}

/// The warnings for addresses that occur once more, up to the `upto`th:
/// one for each address that occurs before, in their order.
pub open spec fn duplicate_findings(addresses: Seq<Seq<char>>, name: Seq<char>, upto: int) -> Seq<
    FindingModel,
>
    decreases upto,
{
    if upto <= 0 {
        Seq::empty()
    } else {
        let before = duplicate_findings(addresses, name, upto - 1);
        if occurs_before(addresses, upto - 1) {
            before.push(FindingModel::DuplicateAddress { address: addresses[upto - 1], name })
        } else {
            before
        }
    }
}

/// All that is found in the configuration of an interface: in the name,
/// the state, the MTU, each address, the lack of addresses, and the
/// addresses that occur once more, in this order.
pub open spec fn findings_of(iface: InterfaceConfigModel) -> Seq<FindingModel> {
    name_findings(iface.name) + state_findings(iface.state, iface.name) + mtu_findings(
        iface.mtu,
        iface.name,
    ) + address_findings(iface.addresses, iface.name, iface.addresses.len() as int) + (
    if iface.addresses.len() == 0 {
        seq![FindingModel::NoAddresses { name: iface.name }]
    } else {
        Seq::empty()
    }) + duplicate_findings(iface.addresses, iface.name, iface.addresses.len() as int)
}

/// The findings as plain values.
pub open spec fn findings_view(findings: Seq<Finding>) -> Seq<FindingModel> {
    Seq::new(findings.len(), |i: int| findings[i]@)
}

/// True when the `i`th address occurs before.
fn seen_before(addresses: &Vec<String>, i: usize) -> (seen: bool)
    requires
        i < addresses@.len(),
    ensures
        seen == occurs_before(crate::cli::apply::texts_view(addresses@), i as int),
{
    let ghost all = crate::cli::apply::texts_view(addresses@);
    let mut k: usize = 0;
    while k < i
        invariant
            0 <= k <= i < addresses@.len(),
            all == crate::cli::apply::texts_view(addresses@),
            forall|j: int| 0 <= j < k ==> #[trigger] all[j] != all[i as int],
        decreases i - k,
    {
        assert(all[k as int] == addresses@[k as int]@ && all[i as int] == addresses@[i as int]@);
        if same_text(addresses[k].as_str(), addresses[i].as_str()) {
            return true;
        }
        k += 1;
    }
    false
}

/// Holds the configuration of an interface against the rules.
pub fn validate_interface(iface: &InterfaceConfig) -> (findings: Vec<Finding>)
    ensures
        findings_view(findings@) == findings_of(iface@),
{
    let mut findings: Vec<Finding> = Vec::new();
    let name = iface.name.as_str();
    if name.is_empty() {
        findings.push(Finding::EmptyName);
    } else if name.as_bytes().len() > 15 {
        findings.push(Finding::NameTooLong { name: iface.name.clone() });
    }
    assert(findings_view(findings@) =~= name_findings(iface@.name));
    let ghost done = findings_view(findings@);
    match &iface.state {
        Some(state) => {
            if !matches_word(state.as_str(), "up") && !matches_word(state.as_str(), "down") {
                findings.push(
                    Finding::InvalidState { state: state.clone(), name: iface.name.clone() },
                );
            }
        },
        None => {},
    }
    assert(findings_view(findings@) =~= done + state_findings(iface@.state, iface@.name));
    let ghost done = findings_view(findings@);
    match iface.mtu {
        Some(mtu) => {
            if mtu < 68 {
                findings.push(Finding::MtuTooSmall { mtu, name: iface.name.clone() });
            } else if mtu > 65535 {
                findings.push(Finding::MtuTooLarge { mtu, name: iface.name.clone() });
            } else if mtu > 9000 && mtu != 65535 {
                findings.push(Finding::MtuUnusual { mtu, name: iface.name.clone() });
            } else if mtu == 9000 {
                findings.push(Finding::JumboFrames { name: iface.name.clone() });
            }
        },
        None => {},
    }
    assert(findings_view(findings@) =~= done + mtu_findings(iface@.mtu, iface@.name));
    let ghost done = findings_view(findings@);
    let ghost all = iface@.addresses;
    let n = iface.addresses.len();
    let mut i: usize = 0;
    assert(findings_view(findings@) =~= done + address_findings(all, iface@.name, 0));
    while i < n
        invariant
            0 <= i <= n,
            n == iface.addresses@.len(),
            all == iface@.addresses,
            findings_view(findings@) == done + address_findings(all, iface@.name, i as int),
        decreases n - i,
    {
        let ghost before = findings_view(findings@);
        assert(all[i as int] == iface.addresses@[i as int]@);
        match validate_ip_network(iface.addresses[i].as_str()) {
            Err(fault) => {
                findings.push(
                    Finding::InvalidAddress {
                        address: iface.addresses[i].clone(),
                        name: iface.name.clone(),
                        fault,
                    },
                );
                assert(findings_view(findings@) =~= before.push(
                    FindingModel::InvalidAddress {
                        address: all[i as int],
                        name: iface@.name,
                        fault,
                    },
                ));
            },
            Ok(_) => {},
        }
        assert(findings_view(findings@) =~= done + address_findings(
            all,
            iface@.name,
            i as int + 1,
        ));
        i += 1;
    }
    let ghost done = findings_view(findings@);
    if n == 0 {
        findings.push(Finding::NoAddresses { name: iface.name.clone() });
    }
    assert(findings_view(findings@) =~= done + (if all.len() == 0 {
        seq![FindingModel::NoAddresses { name: iface@.name }]
    } else {
        Seq::empty()
    }));
    let ghost done = findings_view(findings@);
    let mut i: usize = 0;
    assert(findings_view(findings@) =~= done + duplicate_findings(all, iface@.name, 0));
    while i < n
        invariant
            0 <= i <= n,
            n == iface.addresses@.len(),
            all == iface@.addresses,
            findings_view(findings@) == done + duplicate_findings(all, iface@.name, i as int),
        decreases n - i,
    {
        let ghost before = findings_view(findings@);
        assert(all[i as int] == iface.addresses@[i as int]@);
        if seen_before(&iface.addresses, i) {
            findings.push(
                Finding::DuplicateAddress {
                    address: iface.addresses[i].clone(),
                    name: iface.name.clone(),
                },
            );
            assert(findings_view(findings@) =~= before.push(
                FindingModel::DuplicateAddress { address: all[i as int], name: iface@.name },
            ));
        }
        assert(findings_view(findings@) =~= done + duplicate_findings(
            all,
            iface@.name,
            i as int + 1,
        ));
        i += 1;
    }
    findings
}

/// How a validation ends.
#[derive(Debug, Clone, Copy, PartialEq, Eq, Structural)]
pub enum Verdict {
    /// Nothing was found.
    Passed,
    /// Only warnings were found, and they do not count.
    PassedWithWarnings,
    /// Warnings were found, and in strict mode they count.
    FailedStrict,
    /// Errors were found.
    Failed,
}

/// How a validation with so many errors and warnings ends.
pub open spec fn verdict_of(errors: nat, warnings: nat, strict: bool) -> Verdict {
    if errors == 0 && warnings == 0 {
        Verdict::Passed
    } else if errors > 0 {
        Verdict::Failed
    } else if strict {
        Verdict::FailedStrict
    } else {
        Verdict::PassedWithWarnings
    }
}

impl ValidateArgs {
    /// How the validation ends, from the number of errors and warnings
    /// that were found.
    pub fn verdict(&self, errors: usize, warnings: usize) -> (v: Verdict)
        ensures
            v == verdict_of(errors as nat, warnings as nat, self.strict),
    {
        if errors == 0 && warnings == 0 {
            Verdict::Passed
        } else if errors > 0 {
            Verdict::Failed
        } else if self.strict {
            Verdict::FailedStrict
        } else {
            Verdict::PassedWithWarnings
        }
    }
}

} // verus!
