//! What is written reads back: the text of an address or of a network
//! parses to the value it was written from.

use vstd::prelude::*;
use crate::ip::{
    embedded_groups, first_gap_from, group_list, group_values, hex_parts, ip_text, ipv4_parts,
    ipv4_text, ipv6_text, is_gap, is_hex_group, is_octet_text, is_v4_mapped,
    lemma_ipv4_text_parses, longest_run_start, mapped_octets, parse_ip, parse_ipv4, parse_ipv6,
    zero_groups, zero_run_len, IpAddrModel,
};
use crate::mac::{lemma_mac_text_parses, mac_text, parse_mac};
use crate::network::{
    cidr_text, first_index_from, lemma_cidr_text_parses, parse_cidr, IpNetworkModel,
};
use crate::text::{
    all_digits, digit_value, join, lemma_digits_hold_no_separator, lemma_join_holds_no,
    lemma_join_shape, lemma_number_text_len, lemma_number_text_value, lemma_split_join,
    lemma_split_keeps, number_value, split,
};

verus! {

/// The text of each group is a group, holds no separator, and is worth
/// the group.
pub proof fn lemma_hex_parts(groups: Seq<u16>)
    ensures
        hex_parts(groups).len() == groups.len(),
        forall|i: int|
            0 <= i < groups.len() ==> {
                let part = #[trigger] hex_parts(groups)[i];
                &&& is_hex_group(part)
                &&& !part.contains(':')
                &&& !part.contains('.')
                &&& !part.contains('/')
                &&& number_value(part, 16) == groups[i]
            },
{
    assert forall|i: int| 0 <= i < groups.len() implies {
        let part = #[trigger] hex_parts(groups)[i];
        &&& is_hex_group(part)
        &&& !part.contains(':')
        &&& !part.contains('.')
        &&& !part.contains('/')
        &&& number_value(part, 16) == groups[i]
    } by {
        lemma_number_text_value(groups[i] as nat, 16);
        lemma_number_text_len(groups[i] as nat, 16);
        lemma_digits_hold_no_separator(hex_parts(groups)[i], 16);
    }
}

/// Groups that are written with colons between them read back.
pub proof fn lemma_group_list_of_join(groups: Seq<u16>, allow_v4: bool)
    requires
        groups.len() >= 1,
    ensures
        group_list(join(hex_parts(groups), ':'), allow_v4) == Some(groups),
{
    let parts = hex_parts(groups);
    lemma_hex_parts(groups);
    assert forall|i: int| 0 <= i < parts.len() implies !(#[trigger] parts[i]).contains(':') by {
        assert(is_hex_group(hex_parts(groups)[i]));
    }
    lemma_split_join(parts, ':');
    let init = parts.drop_last();
    assert forall|i: int| 0 <= i < init.len() implies is_hex_group(#[trigger] init[i]) by {
        assert(init[i] == hex_parts(groups)[i]);
    }
    assert(is_hex_group(hex_parts(groups)[groups.len() - 1]));
    assert(group_values(parts) =~= groups) by {
        assert forall|i: int| 0 <= i < groups.len() implies group_values(parts)[i]
            == groups[i] by {
            assert(number_value(hex_parts(groups)[i], 16) == groups[i]);
        }
    }
}

/// Where two colons meet for the first time.
pub proof fn lemma_first_gap(s: Seq<char>, at: int, from: int)
    requires
        0 <= from <= at,
        is_gap(s, at),
        forall|k: int| from <= k < at ==> !#[trigger] is_gap(s, k),
    ensures
        first_gap_from(s, from) == at,
    decreases at - from,
{
    if from < at {
        assert(!is_gap(s, from));
        lemma_first_gap(s, at, from + 1);
    }
}

/// Where no two colons meet.
pub proof fn lemma_no_gap(s: Seq<char>, from: int)
    requires
        0 <= from,
        forall|k: int| from <= k ==> !#[trigger] is_gap(s, k),
    ensures
        first_gap_from(s, from) == s.len(),
    decreases s.len() - from,
{
    if from + 1 < s.len() {
        assert(!is_gap(s, from));
        lemma_no_gap(s, from + 1);
    }
}

/// A run of zero groups ends within the address and holds zero groups
/// only.
pub proof fn lemma_zero_run(groups: Seq<u16>, start: int)
    requires
        0 <= start <= groups.len(),
    ensures
        start + zero_run_len(groups, start) <= groups.len(),
        forall|k: int| start <= k < start + zero_run_len(groups, start) ==> groups[k] == 0,
    decreases groups.len() - start,
{
    if start < groups.len() && groups[start] == 0 {
        lemma_zero_run(groups, start + 1);
    }
}

/// The longest run begins within the range that was searched.
pub proof fn lemma_longest_run_start(groups: Seq<u16>, upto: int)
    requires
        upto >= 1,
    ensures
        0 <= longest_run_start(groups, upto) < upto,
    decreases upto,
{
    reveal_with_fuel(longest_run_start, 2);
    if upto > 1 {
        lemma_longest_run_start(groups, upto - 1);
    }
}

/// In the text of groups no two colons meet, and the text neither begins
/// nor ends with one.
pub proof fn lemma_groups_text_shape(groups: Seq<u16>)
    ensures
        groups.len() == 0 ==> join(hex_parts(groups), ':').len() == 0,
        groups.len() >= 1 ==> join(hex_parts(groups), ':').len() >= 1 && join(
            hex_parts(groups),
            ':',
        )[0] != ':' && join(hex_parts(groups), ':').last() != ':',
        groups.len() >= 2 ==> join(hex_parts(groups), ':').contains(':'),
        forall|k: int| !#[trigger] is_gap(join(hex_parts(groups), ':'), k),
        !join(hex_parts(groups), ':').contains('/'),
        !join(hex_parts(groups), ':').contains('.'),
{
    let parts = hex_parts(groups);
    lemma_hex_parts(groups);
    assert forall|i: int| 0 <= i < parts.len() implies (#[trigger] parts[i]).len() >= 1
        && !parts[i].contains(':') && !parts[i].contains('/') && !parts[i].contains('.') by {
        assert(is_hex_group(hex_parts(groups)[i]));
    }
    lemma_join_shape(parts, ':');
    lemma_join_holds_no(parts, ':', '/');
    lemma_join_holds_no(parts, ':', '.');
    let t = join(parts, ':');
    assert forall|k: int| !#[trigger] is_gap(t, k) by {
        if 0 <= k && k + 1 < t.len() {
            assert(!(t[k] == ':' && t[k + 1] == ':'));
        }
    }
}

/// The text of an IPv4 address is longer than a group, and holds dots and
/// digits only.
pub proof fn lemma_ipv4_text_shape(octets: Seq<u8>)
    requires
        octets.len() == 4,
    ensures
        ipv4_text(octets).len() >= 7,
        !ipv4_text(octets).contains(':'),
        !ipv4_text(octets).contains('/'),
{
    let parts = ipv4_parts(octets);
    assert forall|i: int| 0 <= i < parts.len() implies (#[trigger] parts[i]).len() >= 1
        && !parts[i].contains(':') && !parts[i].contains('/') && !parts[i].contains('.') by {
        lemma_number_text_value(octets[i] as nat, 10);
        lemma_digits_hold_no_separator(parts[i], 10);
    }
    lemma_join_holds_no(parts, '.', ':');
    lemma_join_holds_no(parts, '.', '/');
    reveal_with_fuel(join, 5);
    assert(parts.drop_last().drop_last().drop_last() =~= seq![parts[0]]);
    assert(parts[0].len() >= 1 && parts[1].len() >= 1 && parts[2].len() >= 1 && parts[3].len()
        >= 1);
}

/// A text that holds a colon is no IPv4 address.
pub proof fn lemma_colon_is_no_ipv4(s: Seq<char>)
    requires
        s.contains(':'),
    ensures
        parse_ipv4(s) is None,
{
    lemma_split_keeps(s, '.', ':');
    let parts = split(s, '.');
    let i = choose|i: int| 0 <= i < parts.len() && (#[trigger] parts[i]).contains(':');
    let k = choose|k: int| 0 <= k < parts[i].len() && parts[i][k] == ':';
    assert(digit_value(parts[i][k]) == 16);
    assert(!all_digits(parts[i], 10));
    assert(!is_octet_text(parts[i]));
}

/// The text of an IPv6 address reads back as the address, is no IPv4
/// address, and holds no slash.
pub proof fn lemma_ipv6_text_parses(groups: Seq<u16>)
    requires
        groups.len() == 8,
    ensures
        parse_ipv6(ipv6_text(groups)) == Some(groups),
        parse_ipv4(ipv6_text(groups)) is None,
        !ipv6_text(groups).contains('/'),
{
    let text = ipv6_text(groups);
    if is_v4_mapped(groups) {
        lemma_mapped_text_parses(groups);
    } else {
        let start = longest_run_start(groups, 8);
        lemma_longest_run_start(groups, 8);
        lemma_zero_run(groups, start);
        let len = zero_run_len(groups, start) as int;
        if len >= 2 {
            lemma_gapped_text_parses(groups, start, len);
        } else {
            lemma_groups_text_shape(groups);
            lemma_no_gap(text, 0);
            lemma_group_list_of_join(groups, true);
            lemma_colon_is_no_ipv4(text);
        }
    }
}

/// Two colons between two texts are the first to meet, if none meet in
/// the first text and it does not end with one.
proof fn lemma_gap_between(a: Seq<char>, b: Seq<char>)
    requires
        forall|k: int| !#[trigger] is_gap(a, k),
        a.len() > 0 ==> a.last() != ':',
    ensures
        ({
            let text = a + seq![':', ':'] + b;
            &&& first_gap_from(text, 0) == a.len()
            &&& text.subrange(0, a.len() as int) == a
            &&& text.subrange(a.len() as int + 2, text.len() as int) == b
        }),
{
    let text = a + seq![':', ':'] + b;
    let at = a.len() as int;
    assert(text[at] == ':' && text[at + 1] == ':');
    assert(is_gap(text, at));
    assert forall|k: int| 0 <= k < at implies !#[trigger] is_gap(text, k) by {
        if k + 1 < at {
            assert(text[k] == a[k] && text[k + 1] == a[k + 1]);
            assert(!is_gap(a, k));
        } else {
            assert(text[k] == a[at - 1]);
        }
    }
    lemma_first_gap(text, at, 0);
    assert(text.subrange(0, at) =~= a);
    assert(text.subrange(at + 2, text.len() as int) =~= b);
}

/// What a text with `::` reads as, from what stands before and after.
proof fn lemma_parse_gapped(text: Seq<char>, head: Seq<u16>, tail: Seq<u16>)
    requires
        first_gap_from(text, 0) < text.len(),
        head.len() + tail.len() <= 7,
        ({
            let gap = first_gap_from(text, 0);
            let before = text.subrange(0, gap);
            let after = text.subrange(gap + 2, text.len() as int);
            &&& head.len() == 0 ==> before.len() == 0
            &&& head.len() > 0 ==> before.len() > 0 && group_list(before, false) == Some(head)
            &&& tail.len() == 0 ==> after.len() == 0
            &&& tail.len() > 0 ==> after.len() > 0 && group_list(after, true) == Some(tail)
        }),
    ensures
        parse_ipv6(text) == Some(head + zero_groups(8 - head.len() - tail.len()) + tail),
{
    if head.len() == 0 {
        assert(head =~= Seq::<u16>::empty());
    }
    if tail.len() == 0 {
        assert(tail =~= Seq::<u16>::empty());
    }
}

/// The text with `::` in place of the zero groups reads back.
proof fn lemma_gapped_text_parses(groups: Seq<u16>, start: int, len: int)
    requires
        groups.len() == 8,
        0 <= start,
        2 <= len,
        start + len <= 8,
        forall|k: int| start <= k < start + len ==> groups[k] == 0,
    ensures
        ({
            let text = join(hex_parts(groups.subrange(0, start)), ':') + "::"@ + join(
                hex_parts(groups.subrange(start + len, 8)),
                ':',
            );
            &&& parse_ipv6(text) == Some(groups)
            &&& parse_ipv4(text) is None
            &&& !text.contains('/')
        }),
{
    let head = groups.subrange(0, start);
    let tail = groups.subrange(start + len, 8);
    let a = join(hex_parts(head), ':');
    let b = join(hex_parts(tail), ':');
    assert("::"@ =~= seq![':', ':']) by {
        reveal_strlit("::");
    }
    let text = a + seq![':', ':'] + b;
    lemma_groups_text_shape(head);
    lemma_groups_text_shape(tail);
    lemma_gap_between(a, b);
    if head.len() > 0 {
        lemma_group_list_of_join(head, false);
    }
    if tail.len() > 0 {
        lemma_group_list_of_join(tail, true);
    }
    lemma_parse_gapped(text, head, tail);
    assert(head + zero_groups(8 - head.len() - tail.len()) + tail =~= groups);
    assert(text[a.len() as int] == ':');
    assert(text.contains(':'));
    lemma_colon_is_no_ipv4(text);
    assert forall|k: int| 0 <= k < text.len() implies text[k] != '/' by {
        if k < a.len() {
            assert(text[k] == a[k]);
        } else if k >= a.len() + 2 {
            assert(text[k] == b[k - a.len() - 2]);
        }
    }
}

/// Four times the digit `f` is worth 65535.
proof fn lemma_ffff()
    ensures
        is_hex_group(seq!['f', 'f', 'f', 'f']),
        number_value(seq!['f', 'f', 'f', 'f'], 16) == 0xffff,
        !seq!['f', 'f', 'f', 'f'].contains(':'),
{
    let ffff = seq!['f', 'f', 'f', 'f'];
    assert(ffff.drop_last() =~= seq!['f', 'f', 'f']);
    assert(seq!['f', 'f', 'f'].drop_last() =~= seq!['f', 'f']);
    assert(seq!['f', 'f'].drop_last() =~= seq!['f']);
    assert(seq!['f'].drop_last() =~= Seq::<char>::empty());
    reveal_with_fuel(number_value, 5);
}

/// The group `ffff` and an IPv4 address after it read as three groups.
proof fn lemma_mapped_tail(octets: Seq<u8>)
    requires
        octets.len() == 4,
    ensures
        group_list(seq!['f', 'f', 'f', 'f'].push(':') + ipv4_text(octets), true) == Some(
            seq![0xffffu16] + embedded_groups(octets),
        ),
{
    let ffff = seq!['f', 'f', 'f', 'f'];
    let v4 = ipv4_text(octets);
    let tail = ffff.push(':') + v4;
    lemma_ffff();
    lemma_ipv4_text_shape(octets);
    lemma_ipv4_text_parses(octets);
    let parts = seq![ffff, v4];
    assert(parts.drop_last() =~= seq![ffff]);
    assert(join(parts, ':') =~= tail) by {
        reveal_with_fuel(join, 3);
    }
    assert forall|i: int| 0 <= i < parts.len() implies !(#[trigger] parts[i]).contains(':') by {
        if i == 0 {
            assert(parts[i] == ffff);
        } else {
            assert(parts[i] == v4);
        }
    }
    lemma_split_join(parts, ':');
    let init = parts.drop_last();
    assert forall|i: int| 0 <= i < init.len() implies is_hex_group(#[trigger] init[i]) by {
        assert(init[i] == ffff);
    }
    assert(!is_hex_group(v4));
    assert(parts.last() == v4);
    assert(group_values(init) =~= seq![0xffffu16]);
}

/// The text `::ffff:` and an IPv4 address reads back.
proof fn lemma_mapped_text_parses(groups: Seq<u16>)
    requires
        groups.len() == 8,
        is_v4_mapped(groups),
    ensures
        parse_ipv6(ipv6_text(groups)) == Some(groups),
        parse_ipv4(ipv6_text(groups)) is None,
        !ipv6_text(groups).contains('/'),
{
    let octets = mapped_octets(groups);
    let v4 = ipv4_text(octets);
    let b = seq!['f', 'f', 'f', 'f'].push(':') + v4;
    let a = Seq::<char>::empty();
    let text = a + seq![':', ':'] + b;
    assert("::ffff:"@ + v4 =~= text) by {
        reveal_strlit("::ffff:");
    }
    lemma_ipv4_text_shape(octets);
    lemma_gap_between(a, b);
    lemma_mapped_tail(octets);
    let tail = seq![0xffffu16] + embedded_groups(octets);
    lemma_parse_gapped(text, Seq::<u16>::empty(), tail);
    assert(Seq::<u16>::empty() + zero_groups(8 - 0 - 3) + tail =~= groups);
    assert(text[0] == ':');
    assert(text.contains(':'));
    lemma_colon_is_no_ipv4(text);
    lemma_ffff();
    assert forall|k: int| 0 <= k < text.len() implies text[k] != '/' by {
        if k >= 7 {
            assert(text[k] == v4[k - 7]);
        }
    }
}

/// The text of an address reads back as the address and holds no slash.
pub proof fn lemma_ip_text_parses(addr: IpAddrModel)
    requires
        addr.well_formed(),
    ensures
        parse_ip(ip_text(addr)) == Some(addr),
        !ip_text(addr).contains('/'),
{
    match addr {
        IpAddrModel::V4(octets) => {
            lemma_ipv4_text_parses(octets);
            lemma_ipv4_text_shape(octets);
        },
        IpAddrModel::V6(groups) => {
            lemma_ipv6_text_parses(groups);
        },
    }
}

/// Every network reads back from its text: for each address and each
/// prefix length that the family of the address allows, parsing the text
/// `address/prefix` gives that network, and writing the outcome gives the
/// same text again.
pub proof fn lemma_cidr_round_trip(net: IpNetworkModel)
    requires
        net.well_formed(),
    ensures
        parse_cidr(cidr_text(net)) == Some(net),
        cidr_text(parse_cidr(cidr_text(net)).unwrap()) == cidr_text(net),
{
    lemma_ip_text_parses(net.addr);
    lemma_cidr_text_parses(net);
}

/// A text without a slash is no network.
pub proof fn lemma_cidr_needs_slash(s: Seq<char>)
    requires
        !s.contains('/'),
    ensures
        parse_cidr(s) is None,
{
    lemma_no_index(s, '/', 0);
}

/// A character that does not occur has no first index.
pub proof fn lemma_no_index(s: Seq<char>, c: char, from: int)
    requires
        0 <= from,
        !s.contains(c),
    ensures
        first_index_from(s, c, from) == s.len(),
    decreases s.len() - from,
{
    if from < s.len() {
        assert(s[from] != c);
        lemma_no_index(s, c, from + 1);
    }
}

/// What is read is well formed: an address of the length of its family
/// and a prefix that is no longer than the address.
pub proof fn lemma_parsed_cidr_is_well_formed(s: Seq<char>)
    requires
        parse_cidr(s) is Some,
    ensures
        parse_cidr(s).unwrap().well_formed(),
{
    let slash = first_index_from(s, '/', 0);
    let text = s.subrange(0, slash);
    if parse_ipv4(text) is None {
        let gap = first_gap_from(text, 0);
        if gap < text.len() {
            let head = text.subrange(0, gap);
            let tail = text.subrange(gap + 2, text.len() as int);
            let before = if head.len() == 0 {
                Seq::<u16>::empty()
            } else {
                group_list(head, false).unwrap()
            };
            let after = if tail.len() == 0 {
                Seq::<u16>::empty()
            } else {
                group_list(tail, true).unwrap()
            };
            assert((before + zero_groups(8 - before.len() - after.len()) + after).len() == 8);
        }
    }
}

/// Reading brings every text to one written form: whatever text reads as
/// a network, the text of that network reads as the same network and is
/// written the same again.
pub proof fn lemma_cidr_normal_form(s: Seq<char>)
    requires
        parse_cidr(s) is Some,
    ensures
        parse_cidr(cidr_text(parse_cidr(s).unwrap())) == parse_cidr(s),
{
    lemma_parsed_cidr_is_well_formed(s);
    lemma_cidr_round_trip(parse_cidr(s).unwrap());
}

/// Reading brings every text of a hardware address to its canonical form:
/// whatever text reads as an address, the canonical text of that address
/// reads as the same address.
pub proof fn lemma_mac_normal_form(s: Seq<char>)
    requires
        parse_mac(s) is Some,
    ensures
        parse_mac(mac_text(parse_mac(s).unwrap())) == parse_mac(s),
{
    lemma_mac_text_parses(parse_mac(s).unwrap());
}

} // verus!
