//! Hardware addresses of six octets and their colon-hex text.

use vstd::prelude::*;
use std::str::FromStr;
use crate::error::{Error, ErrorModel};
use crate::text::{
    all_digits, digit_char, digit_str, digit_value, join, lemma_digit_char_value,
    lemma_digits_hold_no_separator, lemma_split_join, lemma_split_keeps, number_value, parse_number, parts_view,
    split, split_chars, to_chars,
};

verus! {

/// A hardware address: six octets.
#[derive(Debug, Clone, Copy, PartialEq, Eq)]
pub struct MacAddress {
    octets: [u8; 6],
}

impl View for MacAddress {
    type V = Seq<u8>;

    closed spec fn view(&self) -> Seq<u8> {
        self.octets@
    }
}

/// True when `part` writes one octet in base sixteen: one or more hex
/// digits of either case, worth at most 255.
pub open spec fn is_mac_group(part: Seq<char>) -> bool {
    &&& part.len() >= 1
    &&& all_digits(part, 16)
    &&& number_value(part, 16) <= 255
}

/// The six octets that `s` writes, if it is six groups of hex digits with
/// colons between them and nothing else.
pub open spec fn parse_mac(s: Seq<char>) -> Option<Seq<u8>> {
    let parts = split(s, ':');
    if parts.len() == 6 && (forall|i: int| 0 <= i < 6 ==> is_mac_group(#[trigger] parts[i])) {
        Some(Seq::new(6, |i: int| number_value(parts[i], 16) as u8))
    } else {
        None
    }
}

/// An octet as two lower-case hex digits.
pub open spec fn octet_text(octet: u8) -> Seq<char> {
    seq![digit_char(octet as nat / 16), digit_char(octet as nat % 16)]
}

/// The six groups of the text of an address.
pub open spec fn mac_parts(octets: Seq<u8>) -> Seq<Seq<char>> {
    Seq::new(6, |i: int| octet_text(octets[i]))
}

/// The canonical text of an address: six groups of two lower-case hex
/// digits, colons between them.
pub open spec fn mac_text(octets: Seq<u8>) -> Seq<char> {
    join(mac_parts(octets), ':')
}

/// True for the digits and the lower-case letters `a` to `f`.
pub open spec fn is_lower_hex(c: char) -> bool {
    '0' <= c <= '9' || 'a' <= c <= 'f'
}

/// True when `s` has the canonical form `xx:xx:xx:xx:xx:xx`, each `x` a
/// lower-case hex digit.
pub open spec fn is_canonical_mac(s: Seq<char>) -> bool {
    &&& s.len() == 17
    &&& forall|i: int|
        0 <= i < 17 ==> if i % 3 == 2 {
            #[trigger] s[i] == ':'
        } else {
            is_lower_hex(s[i])
        }
}

impl MacAddress {
    /// The address of the given octets.
    pub fn new(octets: [u8; 6]) -> (mac: MacAddress)
        ensures
            mac@ == octets@,
    {
        MacAddress { octets }
    }

    /// The six octets.
    pub fn octets(&self) -> (o: [u8; 6])
        ensures
            o@ == self@,
    {
        self.octets
    }

    /// An address is always six octets.
    pub proof fn lemma_len(self)
        ensures
            self@.len() == 6,
    {
    }

    /// Reads an address from text such as `aa:bb:cc:dd:ee:ff`. The text
    /// must be six groups with colons between them, each group one or more
    /// hex digits of either case and worth at most 255; any other text is
    /// refused and handed back in the error.
    pub fn parse(s: &str) -> (r: Result<MacAddress, Error>)
        ensures
            match parse_mac(s@) {
                Some(octets) => r matches Ok(mac) && mac@ == octets,
                None => r matches Err(e) && e@ == (ErrorModel::InvalidMacAddress { input: s@ }),
            },
    {
        let chars = to_chars(s);
        let parts = split_chars(&chars, ':');
        if parts.len() != 6 {
            return Err(Error::InvalidMacAddress { input: s.to_owned() });
        }
        let ghost texts = split(s@, ':');
        let mut octets: [u8; 6] = [0, 0, 0, 0, 0, 0];
        let mut i: usize = 0;
        while i < 6
            invariant
                0 <= i <= 6,
                parts@.len() == 6,
                parts_view(parts@) == texts,
                texts == split(s@, ':'),
                forall|k: int| 0 <= k < i ==> is_mac_group(#[trigger] texts[k]),
                forall|k: int| 0 <= k < i ==> octets@[k] == number_value(texts[k], 16) as u8,
            decreases 6 - i,
        {
            let part = &parts[i];
            assert(part@ == texts[i as int]);
            match parse_number(part, 16, 255) {
                None => {
                    assert(!is_mac_group(texts[i as int]));
                    return Err(Error::InvalidMacAddress { input: s.to_owned() });
                },
                Some(v) => {
                    octets[i] = v as u8;
                },
            }
            i += 1;
        }
        let mac = MacAddress { octets };
        assert(mac@ =~= parse_mac(s@).unwrap());
        Ok(mac)
    }

    /// The canonical text of the address.
    pub fn to_string(&self) -> (text: String)
        ensures
            text@ == mac_text(self@),
    {
        proof {
            reveal_strlit(":");
            reveal_with_fuel(join, 7);
        }
        let ghost parts = mac_parts(self@);
        let mut text = String::new();
        let mut i: usize = 0;
        while i < 6
            invariant
                0 <= i <= 6,
                parts == mac_parts(self@),
                text@ == join(parts.take(i as int), ':'),
            decreases 6 - i,
        {
            let octet = self.octets[i];
            let ghost before = text@;
            if i > 0 {
                text.append(":");
            }
            text.append(digit_str(octet / 16));
            text.append(digit_str(octet % 16));
            proof {
                let now = parts.take(i as int + 1);
                assert(now.drop_last() =~= parts.take(i as int));
                assert(now.last() == octet_text(octet));
                reveal_strlit(":");
                if i > 0 {
                    assert(text@ =~= before.push(':') + octet_text(octet));
                } else {
                    assert(before =~= Seq::<char>::empty());
                    assert(text@ =~= octet_text(octet));
                }
            }
            i += 1;
        }
        assert(parts.take(6) =~= parts);
        text
    }
}

impl FromStr for MacAddress {
    type Err = Error;

    /// Reads an address as [`MacAddress::parse`] does.
    fn from_str(s: &str) -> (r: Result<MacAddress, Error>)
        ensures
            match parse_mac(s@) {
                Some(octets) => r matches Ok(mac) && mac@ == octets,
                None => r matches Err(e) && e@ == (ErrorModel::InvalidMacAddress { input: s@ }),
            },
    {
        MacAddress::parse(s)
    }
}

/// Two hex digits are worth sixteen times the first plus the second.
pub proof fn lemma_two_digits_value(a: char, b: char)
    ensures
        number_value(seq![a, b], 16) == digit_value(a) * 16 + digit_value(b),
{
    let s = seq![a, b];
    assert(s.drop_last() =~= seq![a]);
    assert(seq![a].drop_last() =~= Seq::<char>::empty());
    reveal_with_fuel(number_value, 3);
}

/// The text of an octet is worth the octet.
pub proof fn lemma_octet_text_value(octet: u8)
    ensures
        is_mac_group(octet_text(octet)),
        number_value(octet_text(octet), 16) == octet,
        !octet_text(octet).contains(':'),
        is_lower_hex(octet_text(octet)[0]),
        is_lower_hex(octet_text(octet)[1]),
{
    let hi = octet as nat / 16;
    let lo = octet as nat % 16;
    lemma_digit_char_value(hi);
    lemma_digit_char_value(lo);
    lemma_two_digits_value(digit_char(hi), digit_char(lo));
    lemma_digits_hold_no_separator(octet_text(octet), 16);
}

/// An address that is written and read again is the same address.
pub proof fn lemma_mac_text_parses(octets: Seq<u8>)
    requires
        octets.len() == 6,
    ensures
        parse_mac(mac_text(octets)) == Some(octets),
{
    let parts = mac_parts(octets);
    assert forall|i: int| 0 <= i < parts.len() implies !(#[trigger] parts[i]).contains(':')
        && is_mac_group(parts[i]) && number_value(parts[i], 16) == octets[i] by {
        lemma_octet_text_value(octets[i]);
    }
    lemma_split_join(parts, ':');
    assert(parse_mac(mac_text(octets)).unwrap() =~= octets);
}

/// The text of an address is canonical.
pub proof fn lemma_mac_text_is_canonical(octets: Seq<u8>)
    requires
        octets.len() == 6,
    ensures
        is_canonical_mac(mac_text(octets)),
{
    let parts = mac_parts(octets);
    reveal_with_fuel(join, 7);
    assert forall|i: int| 0 <= i < 6 implies is_lower_hex(#[trigger] parts[i][0]) && is_lower_hex(
        parts[i][1],
    ) && parts[i].len() == 2 by {
        lemma_octet_text_value(octets[i]);
    }
    let s = mac_text(octets);
    assert(parts.take(1) =~= parts.drop_last().drop_last().drop_last().drop_last().drop_last());
    assert(s.len() == 17);
    assert forall|i: int| 0 <= i < 17 implies if i % 3 == 2 {
        #[trigger] s[i] == ':'
    } else {
        is_lower_hex(s[i])
    } by {
        let g = i / 3;
        assert(0 <= g < 6);
        assert(is_lower_hex(parts[g][0]) && is_lower_hex(parts[g][1]));
    }
}

/// A canonical text that is read and written again is the same text.
pub proof fn lemma_canonical_mac_round_trip(s: Seq<char>)
    requires
        is_canonical_mac(s),
    ensures
        parse_mac(s) matches Some(octets) && octets.len() == 6 && mac_text(octets) == s,
{
    let groups = Seq::new(6, |i: int| s.subrange(3 * i, 3 * i + 2));
    reveal_with_fuel(join, 7);
    assert(groups.take(1) =~= groups.drop_last().drop_last().drop_last().drop_last().drop_last());
    assert(join(groups, ':') =~= s);
    assert forall|i: int| 0 <= i < 6 implies !(#[trigger] groups[i]).contains(':') && is_mac_group(
        groups[i],
    ) && octet_text(number_value(groups[i], 16) as u8) == groups[i] by {
        let g = groups[i];
        let a = s[3 * i];
        let b = s[3 * i + 1];
        assert(g =~= seq![a, b]);
        assert(is_lower_hex(a) && is_lower_hex(b));
        lemma_two_digits_value(a, b);
        assert(digit_value(g[0]) < 16 && digit_value(g[1]) < 16);
        lemma_digits_hold_no_separator(g, 16);
        let v = number_value(g, 16);
        assert(v / 16 == digit_value(a) && v % 16 == digit_value(b));
        assert(digit_char(digit_value(a)) == a);
        assert(digit_char(digit_value(b)) == b);
        assert(octet_text(v as u8) =~= g);
    }
    lemma_split_join(groups, ':');
    let octets = parse_mac(s).unwrap();
    assert(mac_parts(octets) =~= groups);
}

/// A text of other than six groups, or with a character that is neither
/// a hex digit nor a colon, is no hardware address.
pub proof fn lemma_mac_refused(s: Seq<char>)
    requires
        split(s, ':').len() != 6 || exists|k: int|
            0 <= k < s.len() && #[trigger] s[k] != ':' && digit_value(s[k]) >= 16,
    ensures
        parse_mac(s) is None,
{
    if split(s, ':').len() == 6 {
        let k = choose|k: int|
            0 <= k < s.len() && #[trigger] s[k] != ':' && digit_value(s[k]) >= 16;
        let c = s[k];
        assert(s.contains(c));
        lemma_split_keeps(s, ':', c);
        let parts = split(s, ':');
        let i = choose|i: int| 0 <= i < parts.len() && (#[trigger] parts[i]).contains(c);
        let j = choose|j: int| 0 <= j < parts[i].len() && parts[i][j] == c;
        assert(digit_value(parts[i][j]) >= 16);
        assert(!is_mac_group(parts[i]));
    }
}

} // verus!
