//! IP addresses of both families, with their textual forms.
//!
//! An IPv4 address is four octets, written as four decimal numbers with
//! dots between them. An IPv6 address is eight groups of sixteen bits,
//! written in base sixteen with colons between them, where one run of zero
//! groups may be left out and marked by `::`, and where the last two groups
//! may be written as an IPv4 address.

use vstd::prelude::*;
use crate::text::{
    all_digits, join, lemma_digits_hold_no_separator, lemma_hex_value_bound,
    lemma_number_text_len, lemma_number_text_value, lemma_split_join, lemma_split_len,
    number_text, number_value, parse_number, parts_view, push_number, split, split_chars,
    sub_chars, to_chars,
};

verus! {

/// An IPv4 address: four octets, the first one first on the wire.
#[derive(Debug, Clone, Copy, PartialEq, Eq)]
pub struct Ipv4Addr {
    octets: [u8; 4],
}

impl View for Ipv4Addr {
    type V = Seq<u8>;

    closed spec fn view(&self) -> Seq<u8> {
        self.octets@
    }
}

/// True when `part` writes one octet: one to three decimal digits, worth
/// at most 255, with no zero in front of another digit.
pub open spec fn is_octet_text(part: Seq<char>) -> bool {
    &&& 1 <= part.len() <= 3
    &&& all_digits(part, 10)
    &&& (part.len() > 1 ==> part[0] != '0')
    &&& number_value(part, 10) <= 255
}

/// The four octets that `s` writes, if it is four octet texts with dots
/// between them and nothing else.
pub open spec fn parse_ipv4(s: Seq<char>) -> Option<Seq<u8>> {
    let parts = split(s, '.');
    if parts.len() == 4 && (forall|i: int| 0 <= i < 4 ==> is_octet_text(#[trigger] parts[i])) {
        Some(Seq::new(4, |i: int| number_value(parts[i], 10) as u8))
    } else {
        None
    }
}

/// The parts of the text of four octets.
pub open spec fn ipv4_parts(octets: Seq<u8>) -> Seq<Seq<char>> {
    Seq::new(4, |i: int| number_text(octets[i] as nat, 10))
}

/// The text of four octets: each in decimal, dots between them.
pub open spec fn ipv4_text(octets: Seq<u8>) -> Seq<char> {
    join(ipv4_parts(octets), '.')
}

impl Ipv4Addr {
    /// The address `a.b.c.d`.
    pub fn new(a: u8, b: u8, c: u8, d: u8) -> (addr: Ipv4Addr)
        ensures
            addr@ == seq![a, b, c, d],
    {
        let addr = Ipv4Addr { octets: [a, b, c, d] };
        assert(addr@ =~= seq![a, b, c, d]);
        addr
    }

    /// The four octets, the first one first.
    pub fn octets(&self) -> (o: [u8; 4])
        ensures
            o@ == self@,
    {
        self.octets
    }

    /// An address is always four octets.
    pub proof fn lemma_len(self)
        ensures
            self@.len() == 4,
    {
    }

    /// Reads an address from its characters.
    pub fn parse_chars(s: &Vec<char>) -> (r: Option<Ipv4Addr>)
        ensures
            r is Some <==> parse_ipv4(s@) is Some,
            r matches Some(addr) ==> parse_ipv4(s@) == Some(addr@),
    {
        let parts = split_chars(s, '.');
        if parts.len() != 4 {
            return None;
        }
        let ghost texts = split(s@, '.');
        let mut octets: [u8; 4] = [0, 0, 0, 0];
        let mut i: usize = 0;
        while i < 4
            invariant
                0 <= i <= 4,
                parts@.len() == 4,
                parts_view(parts@) == texts,
                texts == split(s@, '.'),
                forall|k: int| 0 <= k < i ==> is_octet_text(#[trigger] texts[k]),
                forall|k: int| 0 <= k < i ==> octets@[k] == number_value(texts[k], 10) as u8,
            decreases 4 - i,
        {
            let part = &parts[i];
            assert(part@ == texts[i as int]);
            let value = parse_number(part, 10, 255);
            match value {
                None => {
                    assert(!is_octet_text(texts[i as int]));
                    return None;
                },
                Some(v) => {
                    if part.len() > 3 || (part.len() > 1 && part[0] == '0') {
                        assert(!is_octet_text(texts[i as int]));
                        return None;
                    }
                    octets[i] = v as u8;
                },
            }
            i += 1;
        }
        let addr = Ipv4Addr { octets };
        assert(addr@ =~= parse_ipv4(s@).unwrap());
        Some(addr)
    }

    /// Reads an address from text such as `192.168.1.10`.
    pub fn parse(s: &str) -> (r: Option<Ipv4Addr>)
        ensures
            r is Some <==> parse_ipv4(s@) is Some,
            r matches Some(addr) ==> parse_ipv4(s@) == Some(addr@),
    {
        let chars = to_chars(s);
        Ipv4Addr::parse_chars(&chars)
    }

    /// Writes the address at the end of `out`.
    pub fn write_to(&self, out: &mut String)
        ensures
            final(out)@ == old(out)@ + ipv4_text(self@),
    {
        proof {
            reveal_strlit(".");
            reveal_with_fuel(join, 5);
        }
        let ghost parts = ipv4_parts(self@);
        push_number(out, self.octets[0] as u64, 10);
        out.append(".");
        push_number(out, self.octets[1] as u64, 10);
        out.append(".");
        push_number(out, self.octets[2] as u64, 10);
        out.append(".");
        push_number(out, self.octets[3] as u64, 10);
        assert(parts.drop_last().drop_last().drop_last() =~= seq![parts[0]]);
        assert(out@ =~= old(out)@ + ipv4_text(self@));
    }

    /// The address as text, such as `192.168.1.10`.
    pub fn to_string(&self) -> (text: String)
        ensures
            text@ == ipv4_text(self@),
    {
        let mut text = String::new();
        self.write_to(&mut text);
        assert(text@ =~= ipv4_text(self@));
        text
    }
}

/// An address that is written and read again is the same address.
pub proof fn lemma_ipv4_text_parses(octets: Seq<u8>)
    requires
        octets.len() == 4,
    ensures
        parse_ipv4(ipv4_text(octets)) == Some(octets),
{
    let parts = ipv4_parts(octets);
    assert forall|i: int| 0 <= i < parts.len() implies !(#[trigger] parts[i]).contains('.')
        && is_octet_text(parts[i]) && number_value(parts[i], 10) == octets[i] by {
        lemma_number_text_value(octets[i] as nat, 10);
        lemma_number_text_len(octets[i] as nat, 10);
        lemma_digits_hold_no_separator(parts[i], 10);
    }
    lemma_split_join(parts, '.');
    assert(parse_ipv4(ipv4_text(octets)).unwrap() =~= octets);
}

/// An IPv6 address: eight groups of sixteen bits, the first one first on
/// the wire.
#[derive(Debug, Clone, Copy, PartialEq, Eq)]
pub struct Ipv6Addr {
    segments: [u16; 8],
}

impl View for Ipv6Addr {
    type V = Seq<u16>;

    closed spec fn view(&self) -> Seq<u16> {
        self.segments@
    }
}

/// True when `part` writes one group: one to four hex digits of either
/// case.
pub open spec fn is_hex_group(part: Seq<char>) -> bool {
    1 <= part.len() <= 4 && all_digits(part, 16)
}

/// What each of the parts is worth in base sixteen.
pub open spec fn group_values(parts: Seq<Seq<char>>) -> Seq<u16> {
    Seq::new(parts.len(), |i: int| number_value(parts[i], 16) as u16)
}

/// The two groups that hold the four octets of an IPv4 address.
pub open spec fn embedded_groups(octets: Seq<u8>) -> Seq<u16> {
    seq![
        (octets[0] as nat * 256 + octets[1] as nat) as u16,
        (octets[2] as nat * 256 + octets[3] as nat) as u16,
    ]
}

/// The groups that `s` writes, colons between them. With `allow_v4`, the
/// last part may be an IPv4 address, which stands for two groups.
pub open spec fn group_list(s: Seq<char>, allow_v4: bool) -> Option<Seq<u16>> {
    let parts = split(s, ':');
    let init = parts.drop_last();
    let last = parts.last();
    if forall|i: int| 0 <= i < init.len() ==> is_hex_group(#[trigger] init[i]) {
        if is_hex_group(last) {
            Some(group_values(parts))
        } else if allow_v4 && parse_ipv4(last) is Some {
            Some(group_values(init) + embedded_groups(parse_ipv4(last).unwrap()))
        } else {
            None
        }
    } else {
        None
    }
}

/// True when two colons stand at `i` and `i + 1`.
pub open spec fn is_gap(s: Seq<char>, i: int) -> bool {
    0 <= i && i + 1 < s.len() && s[i] == ':' && s[i + 1] == ':'
}

/// Where the first `::` at or after `i` begins; the length of `s` if
/// there is none.
pub open spec fn first_gap_from(s: Seq<char>, i: int) -> int
    decreases s.len() - i,
{
    if i < 0 || i + 1 >= s.len() {
        s.len() as int
    } else if is_gap(s, i) {
        i
    } else {
        first_gap_from(s, i + 1)
    }
}

/// So many zero groups.
pub open spec fn zero_groups(n: int) -> Seq<u16> {
    Seq::new(n as nat, |i: int| 0u16)
}

/// The eight groups that `s` writes. Without `::`, `s` must write all
/// eight. With `::`, the groups before it and those after it must be at
/// most seven together, and zero groups fill the place of the `::`. An
/// IPv4 address may stand for the last two groups, never before a `::`.
pub open spec fn parse_ipv6(s: Seq<char>) -> Option<Seq<u16>> {
    let gap = first_gap_from(s, 0);
    if gap >= s.len() {
        match group_list(s, true) {
            Some(groups) => if groups.len() == 8 {
                Some(groups)
            } else {
                None
            },
            None => None,
        }
    } else {
        let head = s.subrange(0, gap);
        let tail = s.subrange(gap + 2, s.len() as int);
        let before = if head.len() == 0 {
            Some(Seq::<u16>::empty())
        } else {
            group_list(head, false)
        };
        let after = if tail.len() == 0 {
            Some(Seq::<u16>::empty())
        } else {
            group_list(tail, true)
        };
        if before is Some && after is Some && before.unwrap().len() + after.unwrap().len() <= 7 {
            Some(
                before.unwrap() + zero_groups(8 - before.unwrap().len() - after.unwrap().len())
                    + after.unwrap(),
            )
        } else {
            None
        }
    }
}

/// How many zero groups stand in a row from `start` on.
pub open spec fn zero_run_len(groups: Seq<u16>, start: int) -> nat
    decreases groups.len() - start,
{
    if 0 <= start < groups.len() && groups[start] == 0 {
        1 + zero_run_len(groups, start + 1)
    } else {
        0
    }
}

/// Where the longest run of zero groups begins, among the runs that begin
/// before `upto`; the first one where several are as long.
pub open spec fn longest_run_start(groups: Seq<u16>, upto: int) -> int
    decreases upto,
{
    if upto <= 0 {
        0
    } else {
        let best = longest_run_start(groups, upto - 1);
        if zero_run_len(groups, upto - 1) > zero_run_len(groups, best) {
            upto - 1
        } else {
            best
        }
    }
}

/// Each group in base sixteen, lower case, without leading zeros.
pub open spec fn hex_parts(groups: Seq<u16>) -> Seq<Seq<char>> {
    Seq::new(groups.len(), |i: int| number_text(groups[i] as nat, 16))
}

/// True for the addresses `::ffff:a.b.c.d`, which stand for IPv4
/// addresses.
pub open spec fn is_v4_mapped(groups: Seq<u16>) -> bool {
    &&& groups[0] == 0
    &&& groups[1] == 0
    &&& groups[2] == 0
    &&& groups[3] == 0
    &&& groups[4] == 0
    &&& groups[5] == 0xffff
}

/// The four octets in the last two groups.
pub open spec fn mapped_octets(groups: Seq<u16>) -> Seq<u8> {
    seq![
        (groups[6] / 256) as u8,
        (groups[6] % 256) as u8,
        (groups[7] / 256) as u8,
        (groups[7] % 256) as u8,
    ]
}

/// The text of eight groups. An address that stands for an IPv4 address
/// is written `::ffff:` and that address. Otherwise the groups are written
/// in base sixteen with colons between them, and the longest run of two or
/// more zero groups, the first of them if several are as long, is left out
/// and marked by `::`.
pub open spec fn ipv6_text(groups: Seq<u16>) -> Seq<char> {
    if is_v4_mapped(groups) {
        "::ffff:"@ + ipv4_text(mapped_octets(groups))
    } else {
        let start = longest_run_start(groups, 8);
        let len = zero_run_len(groups, start);
        if len >= 2 {
            join(hex_parts(groups.subrange(0, start)), ':') + "::"@ + join(
                hex_parts(groups.subrange(start + len, 8)),
                ':',
            )
        } else {
            join(hex_parts(groups), ':')
        }
    }
}

/// Reads one group of an IPv6 address.
fn parse_hex_group(part: &Vec<char>) -> (r: Option<u16>)
    ensures
        r is Some <==> is_hex_group(part@),
        r matches Some(v) ==> v == number_value(part@, 16),
{
    if part.len() > 4 {
        return None;
    }
    match parse_number(part, 16, 0xffff) {
        None => {
            proof {
                if part@.len() > 0 && all_digits(part@, 16) {
                    lemma_hex_value_bound(part@);
                }
            }
            None
        },
        Some(v) => Some(v as u16),
    }
}

/// Reads a list of groups with colons between them.
fn parse_group_list(s: &Vec<char>, allow_v4: bool) -> (r: Option<Vec<u16>>)
    ensures
        r is Some <==> group_list(s@, allow_v4) is Some,
        r matches Some(groups) ==> group_list(s@, allow_v4) == Some(groups@),
{
    let parts = split_chars(s, ':');
    proof {
        lemma_split_len(s@, ':');
    }
    let ghost texts = split(s@, ':');
    let n = parts.len();
    let mut out: Vec<u16> = Vec::new();
    let mut i: usize = 0;
    while i + 1 < n
        invariant
            n == parts@.len(),
            n >= 1,
            0 <= i <= n - 1,
            parts_view(parts@) == texts,
            texts == split(s@, ':'),
            forall|k: int| 0 <= k < i ==> is_hex_group(#[trigger] texts[k]),
            out@ == group_values(texts.subrange(0, i as int)),
        decreases n - i,
    {
        let part = &parts[i];
        assert(part@ == texts[i as int]);
        match parse_hex_group(part) {
            None => {
                assert(texts.drop_last()[i as int] == texts[i as int]);
                return None;
            },
            Some(v) => {
                out.push(v);
                assert(out@ =~= group_values(texts.subrange(0, i as int + 1)));
            },
        }
        i += 1;
    }
    let last = &parts[n - 1];
    assert(last@ == texts.last());
    assert(texts.subrange(0, i as int) =~= texts.drop_last());
    assert forall|k: int| 0 <= k < texts.drop_last().len() implies is_hex_group(
        #[trigger] texts.drop_last()[k],
    ) by {
        assert(texts.drop_last()[k] == texts[k]);
    }
    match parse_hex_group(last) {
        Some(v) => {
            out.push(v);
            assert(out@ =~= group_values(texts));
            return Some(out);
        },
        None => {},
    }
    if !allow_v4 {
        return None;
    }
    match Ipv4Addr::parse_chars(last) {
        None => None,
        Some(addr) => {
            let o = addr.octets();
            let ghost before = out@;
            out.push(o[0] as u16 * 256 + o[1] as u16);
            out.push(o[2] as u16 * 256 + o[3] as u16);
            assert(out@ =~= before + embedded_groups(addr@));
            Some(out)
        },
    }
}

impl Ipv6Addr {
    /// The address of the given eight groups.
    pub fn new(a: u16, b: u16, c: u16, d: u16, e: u16, f: u16, g: u16, h: u16) -> (addr: Ipv6Addr)
        ensures
            addr@ == seq![a, b, c, d, e, f, g, h],
    {
        let addr = Ipv6Addr { segments: [a, b, c, d, e, f, g, h] };
        assert(addr@ =~= seq![a, b, c, d, e, f, g, h]);
        addr
    }

    /// The eight groups, the first one first.
    pub fn segments(&self) -> (g: [u16; 8])
        ensures
            g@ == self@,
    {
        self.segments
    }

    /// An address is always eight groups.
    pub proof fn lemma_len(self)
        ensures
            self@.len() == 8,
    {
    }

    /// The sixteen octets, in the order of the wire: of each group the
    /// upper half first.
    pub fn octets(&self) -> (o: [u8; 16])
        ensures
            forall|i: int|
                0 <= i < 8 ==> #[trigger] o@[2 * i] == (self@[i] / 256) as u8 && o@[2 * i + 1] == (
                self@[i] % 256) as u8,
    {
        let mut o: [u8; 16] = [0, 0, 0, 0, 0, 0, 0, 0, 0, 0, 0, 0, 0, 0, 0, 0];
        let mut i: usize = 0;
        while i < 8
            invariant
                0 <= i <= 8,
                forall|k: int|
                    0 <= k < i ==> #[trigger] o@[2 * k] == (self@[k] / 256) as u8 && o@[2 * k + 1]
                        == (self@[k] % 256) as u8,
            decreases 8 - i,
        {
            let g = self.segments[i];
            o[2 * i] = (g / 256) as u8;
            o[2 * i + 1] = (g % 256) as u8;
            i += 1;
        }
        o
    }

    /// Reads an address from its characters.
    pub fn parse_chars(s: &Vec<char>) -> (r: Option<Ipv6Addr>)
        ensures
            r is Some <==> parse_ipv6(s@) is Some,
            r matches Some(addr) ==> parse_ipv6(s@) == Some(addr@),
    {
        let n = s.len();
        let mut gap: usize = 0;
        while n - gap >= 2 && !(s[gap] == ':' && s[gap + 1] == ':')
            invariant
                n == s@.len(),
                0 <= gap <= n,
                first_gap_from(s@, 0) == first_gap_from(s@, gap as int),
            decreases n - gap,
        {
            gap += 1;
        }
        if n - gap < 2 {
            assert(first_gap_from(s@, 0) == s@.len());
            return match parse_group_list(s, true) {
                None => None,
                Some(groups) => {
                    if groups.len() != 8 {
                        None
                    } else {
                        let addr = Ipv6Addr {
                            segments: [
                                groups[0],
                                groups[1],
                                groups[2],
                                groups[3],
                                groups[4],
                                groups[5],
                                groups[6],
                                groups[7],
                            ],
                        };
                        assert(addr@ =~= groups@);
                        Some(addr)
                    }
                },
            };
        }
        assert(first_gap_from(s@, 0) == gap);
        let head = sub_chars(s, 0, gap);
        let tail = sub_chars(s, gap + 2, n);
        let before: Vec<u16> = if head.len() == 0 {
            Vec::new()
        } else {
            match parse_group_list(&head, false) {
                None => {
                    return None;
                },
                Some(groups) => groups,
            }
        };
        let after: Vec<u16> = if tail.len() == 0 {
            Vec::new()
        } else {
            match parse_group_list(&tail, true) {
                None => {
                    return None;
                },
                Some(groups) => groups,
            }
        };
        if before.len() > 7 || after.len() > 7 - before.len() {
            return None;
        }
        let ghost want = before@ + zero_groups(8 - before@.len() - after@.len()) + after@;
        let mut segments: [u16; 8] = [0, 0, 0, 0, 0, 0, 0, 0];
        let mut i: usize = 0;
        while i < before.len()
            invariant
                0 <= i <= before@.len(),
                before@.len() + after@.len() <= 7,
                want == before@ + zero_groups(8 - before@.len() - after@.len()) + after@,
                forall|k: int| 0 <= k < i ==> segments@[k] == want[k],
                forall|k: int| i <= k < 8 ==> segments@[k] == 0,
            decreases before@.len() - i,
        {
            segments[i] = before[i];
            i += 1;
        }
        let shift = 8 - after.len();
        let mut j: usize = 0;
        while j < after.len()
            invariant
                0 <= j <= after@.len(),
                before@.len() + after@.len() <= 7,
                shift == 8 - after@.len(),
                want == before@ + zero_groups(8 - before@.len() - after@.len()) + after@,
                forall|k: int| 0 <= k < shift + j ==> segments@[k] == want[k],
                forall|k: int| shift + j <= k < 8 ==> segments@[k] == 0,
            decreases after@.len() - j,
        {
            segments[shift + j] = after[j];
            j += 1;
        }
        let addr = Ipv6Addr { segments };
        assert(addr@ =~= want);
        Some(addr)
    }

    /// Reads an address from text such as `2001:db8::1`.
    pub fn parse(s: &str) -> (r: Option<Ipv6Addr>)
        ensures
            r is Some <==> parse_ipv6(s@) is Some,
            r matches Some(addr) ==> parse_ipv6(s@) == Some(addr@),
    {
        let chars = to_chars(s);
        Ipv6Addr::parse_chars(&chars)
    }

    /// How many zero groups stand in a row from `start` on.
    fn zero_run(&self, start: usize) -> (len: usize)
        requires
            start <= 8,
        ensures
            len == zero_run_len(self@, start as int),
            start + len <= 8,
    {
        let mut end: usize = start;
        while end < 8 && self.segments[end] == 0
            invariant
                start <= end <= 8,
                zero_run_len(self@, start as int) == (end - start) + zero_run_len(
                    self@,
                    end as int,
                ),
            decreases 8 - end,
        {
            end += 1;
        }
        end - start
    }

    /// Writes the groups from `from` up to `to`, colons between them.
    fn write_groups(&self, out: &mut String, from: usize, to: usize)
        requires
            from <= to <= 8,
        ensures
            final(out)@ == old(out)@ + join(
                hex_parts(self@.subrange(from as int, to as int)),
                ':',
            ),
    {
        let ghost parts = hex_parts(self@.subrange(from as int, to as int));
        let mut i: usize = from;
        assert(parts.take(0) =~= Seq::<Seq<char>>::empty());
        assert(out@ =~= old(out)@ + join(parts.take(0), ':'));
        while i < to
            invariant
                from <= i <= to <= 8,
                parts == hex_parts(self@.subrange(from as int, to as int)),
                out@ == old(out)@ + join(parts.take(i - from), ':'),
            decreases to - i,
        {
            let ghost before = out@;
            if i > from {
                out.append(":");
            }
            push_number(out, self.segments[i] as u64, 16);
            proof {
                reveal_strlit(":");
                let now = parts.take(i - from + 1);
                let text = number_text(self@[i as int] as nat, 16);
                assert(now.drop_last() =~= parts.take(i - from));
                assert(now.last() == text);
                if i > from {
                    assert(out@ =~= old(out)@ + (join(parts.take(i - from), ':').push(':')
                        + text));
                } else {
                    assert(join(now, ':') == text);
                }
            }
            i += 1;
        }
        assert(parts.take(to - from) =~= parts);
    }

    /// Writes the address at the end of `out`.
    pub fn write_to(&self, out: &mut String)
        ensures
            final(out)@ == old(out)@ + ipv6_text(self@),
    {
        let g = &self.segments;
        if g[0] == 0 && g[1] == 0 && g[2] == 0 && g[3] == 0 && g[4] == 0 && g[5] == 0xffff {
            let v4 = Ipv4Addr::new(
                (g[6] / 256) as u8,
                (g[6] % 256) as u8,
                (g[7] / 256) as u8,
                (g[7] % 256) as u8,
            );
            out.append("::ffff:");
            v4.write_to(out);
            assert(out@ =~= old(out)@ + ipv6_text(self@));
            return ;
        }
        let mut start: usize = 0;
        let mut len: usize = self.zero_run(0);
        let mut i: usize = 1;
        assert(longest_run_start(self@, 1) == 0) by {
            reveal_with_fuel(longest_run_start, 2);
        }
        while i < 8
            invariant
                1 <= i <= 8,
                start == longest_run_start(self@, i as int),
                len == zero_run_len(self@, start as int),
                start < i,
                start + len <= 8,
            decreases 8 - i,
        {
            let here = self.zero_run(i);
            if here > len {
                start = i;
                len = here;
            }
            i += 1;
        }
        if len >= 2 {
            self.write_groups(out, 0, start);
            out.append("::");
            self.write_groups(out, start + len, 8);
        } else {
            self.write_groups(out, 0, 8);
            assert(self@.subrange(0, 8) =~= self@);
        }
        assert(out@ =~= old(out)@ + ipv6_text(self@));
    }

    /// The address as text, such as `2001:db8::1`.
    pub fn to_string(&self) -> (text: String)
        ensures
            text@ == ipv6_text(self@),
    {
        let mut text = String::new();
        self.write_to(&mut text);
        assert(text@ =~= ipv6_text(self@));
        text
    }
}

/// An IP address of either family, as plain values.
pub enum IpAddrModel {
    V4(Seq<u8>),
    V6(Seq<u16>),
}

/// An IP address of either family.
#[derive(Debug, Clone, Copy, PartialEq, Eq)]
pub enum IpAddr {
    V4(Ipv4Addr),
    V6(Ipv6Addr),
}

impl View for IpAddr {
    type V = IpAddrModel;

    open spec fn view(&self) -> IpAddrModel {
        match self {
            IpAddr::V4(addr) => IpAddrModel::V4(addr@),
            IpAddr::V6(addr) => IpAddrModel::V6(addr@),
        }
    }
}

/// The address that `s` writes: an IPv4 address if it is the text of one,
/// else an IPv6 address if it is the text of one.
pub open spec fn parse_ip(s: Seq<char>) -> Option<IpAddrModel> {
    if parse_ipv4(s) is Some {
        Some(IpAddrModel::V4(parse_ipv4(s).unwrap()))
    } else if parse_ipv6(s) is Some {
        Some(IpAddrModel::V6(parse_ipv6(s).unwrap()))
    } else {
        None
    }
}

/// The text of an address, by its family.
pub open spec fn ip_text(addr: IpAddrModel) -> Seq<char> {
    match addr {
        IpAddrModel::V4(octets) => ipv4_text(octets),
        IpAddrModel::V6(groups) => ipv6_text(groups),
    }
}

impl IpAddrModel {
    /// Four octets or eight groups.
    pub open spec fn well_formed(self) -> bool {
        match self {
            IpAddrModel::V4(octets) => octets.len() == 4,
            IpAddrModel::V6(groups) => groups.len() == 8,
        }
    }
}

impl IpAddr {
    /// An address always has the length of its family.
    pub proof fn lemma_well_formed(self)
        ensures
            self@.well_formed(),
    {
        match self {
            IpAddr::V4(addr) => addr.lemma_len(),
            IpAddr::V6(addr) => addr.lemma_len(),
        }
    }

    /// Reads an address of either family from its characters.
    pub fn parse_chars(s: &Vec<char>) -> (r: Option<IpAddr>)
        ensures
            r is Some <==> parse_ip(s@) is Some,
            r matches Some(addr) ==> parse_ip(s@) == Some(addr@),
    {
        match Ipv4Addr::parse_chars(s) {
            Some(addr) => Some(IpAddr::V4(addr)),
            None => match Ipv6Addr::parse_chars(s) {
                Some(addr) => Some(IpAddr::V6(addr)),
                None => None,
            },
        }
    }

    /// Reads an address of either family from text.
    pub fn parse(s: &str) -> (r: Option<IpAddr>)
        ensures
            r is Some <==> parse_ip(s@) is Some,
            r matches Some(addr) ==> parse_ip(s@) == Some(addr@),
    {
        let chars = to_chars(s);
        IpAddr::parse_chars(&chars)
    }

    /// Writes the address at the end of `out`.
    pub fn write_to(&self, out: &mut String)
        ensures
            final(out)@ == old(out)@ + ip_text(self@),
    {
        match self {
            IpAddr::V4(addr) => addr.write_to(out),
            IpAddr::V6(addr) => addr.write_to(out),
        }
    }

    /// The address as text.
    pub fn to_string(&self) -> (text: String)
        ensures
            text@ == ip_text(self@),
    {
        match self {
            IpAddr::V4(addr) => addr.to_string(),
            IpAddr::V6(addr) => addr.to_string(),
        }
    }

    /// True for an IPv4 address.
    pub fn is_ipv4(&self) -> (b: bool)
        ensures
            b == (self@ is V4),
    {
        match self {
            IpAddr::V4(_) => true,
            IpAddr::V6(_) => false,
        }
    }

    /// True for an IPv6 address.
    pub fn is_ipv6(&self) -> (b: bool)
        ensures
            b == (self@ is V6),
    {
        match self {
            IpAddr::V4(_) => false,
            IpAddr::V6(_) => true,
        }
    }
}

} // verus!
