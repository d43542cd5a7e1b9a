//! Characters, digits and numbers in text.
//!
//! Numbers are read from and written to sequences of characters. The
//! functions here are the common ground of the address parsers: what a digit
//! string is worth, how a number is written, and how a text falls into the
//! parts between its separators.

use vstd::prelude::*;

verus! {

/// The characters of `s`, in order.
pub fn to_chars(s: &str) -> (out: Vec<char>)
    ensures
        out@ == s@,
{
    let mut out: Vec<char> = Vec::new();
    for c in it: s.chars()
        invariant
            it.seq() == s@,
            out@ == it.seq().take(it.index() as int),
    {
        out.push(c);
    }
    out
}

/// True for the ten decimal digits.
pub open spec fn is_digit(c: char) -> bool {
    '0' <= c <= '9'
}

/// What the digit `c` counts for; sixteen and more is no digit at all.
pub open spec fn digit_value(c: char) -> nat {
    if '0' <= c <= '9' {
        (c as u32 - '0' as u32) as nat
    } else if 'a' <= c <= 'f' {
        (c as u32 - 'a' as u32 + 10) as nat
    } else if 'A' <= c <= 'F' {
        (c as u32 - 'A' as u32 + 10) as nat
    } else {
        16
    }
}

/// The lower-case digit that counts for `d`.
pub open spec fn digit_char(d: nat) -> char
    recommends
        d < 16,
{
    if d < 10 {
        ('0' as u32 + d as u32) as char
    } else {
        ('a' as u32 + (d - 10) as u32) as char
    }
}

/// True when every character of `s` is a digit below `radix`.
pub open spec fn all_digits(s: Seq<char>, radix: nat) -> bool {
    forall|i: int| 0 <= i < s.len() ==> digit_value(#[trigger] s[i]) < radix
}

/// `n` moved up by one digit: times sixteen for base sixteen, times ten
/// for every other base, ten being the only other one in use.
pub open spec fn shift_digit(n: nat, radix: nat) -> nat {
    if radix == 16 {
        n * 16
    } else {
        n * 10
    }
}

/// The number that the digits of `s` write in base `radix` (ten or
/// sixteen), most significant digit first.
pub open spec fn number_value(s: Seq<char>, radix: nat) -> nat
    decreases s.len(),
{
    if s.len() == 0 {
        0
    } else {
        shift_digit(number_value(s.drop_last(), radix), radix) + digit_value(s.last())
    }
}

/// `n` written in base `radix` (ten or sixteen) with lower-case digits and
/// no leading zero.
pub open spec fn number_text(n: nat, radix: nat) -> Seq<char>
    decreases n,
{
    if radix == 16 {
        if n < 16 {
            seq![digit_char(n)]
        } else {
            number_text(n / 16, radix).push(digit_char(n % 16))
        }
    } else {
        if n < 10 {
            seq![digit_char(n)]
        } else {
            number_text(n / 10, radix).push(digit_char(n % 10))
        }
    }
}

/// The value of the digit `c` in base `radix`, if it is one.
pub(crate) fn digit_of(c: char, radix: u8) -> (d: Option<u8>)
    requires
        radix == 10 || radix == 16,
    ensures
        d is Some <==> digit_value(c) < radix,
        d matches Some(v) ==> v as nat == digit_value(c),
{
    if c >= '0' && c <= '9' {
        Some((c as u32 - '0' as u32) as u8)
    } else if radix == 16 && c >= 'a' && c <= 'f' {
        Some((c as u32 - 'a' as u32 + 10) as u8)
    } else if radix == 16 && c >= 'A' && c <= 'F' {
        Some((c as u32 - 'A' as u32 + 10) as u8)
    } else {
        None
    }
}

/// The one-character text of the digit `d`.
pub(crate) fn digit_str(d: u8) -> (s: &'static str)
    requires
        d < 16,
    ensures
        s@ == seq![digit_char(d as nat)],
{
    proof {
        reveal_strlit("0");
        reveal_strlit("1");
        reveal_strlit("2");
        reveal_strlit("3");
        reveal_strlit("4");
        reveal_strlit("5");
        reveal_strlit("6");
        reveal_strlit("7");
        reveal_strlit("8");
        reveal_strlit("9");
        reveal_strlit("a");
        reveal_strlit("b");
        reveal_strlit("c");
        reveal_strlit("d");
        reveal_strlit("e");
        reveal_strlit("f");
    }
    let s = match d {
        0 => "0",
        1 => "1",
        2 => "2",
        3 => "3",
        4 => "4",
        5 => "5",
        6 => "6",
        7 => "7",
        8 => "8",
        9 => "9",
        10 => "a",
        11 => "b",
        12 => "c",
        13 => "d",
        14 => "e",
        _ => "f",
    };
    assert(s@ =~= seq![digit_char(d as nat)]);
    s
}

/// Reads `s` as a number in base `radix`: `Some` of its value exactly when
/// `s` is one or more digits of that base and the value is at most `max`.
pub(crate) fn parse_number(s: &Vec<char>, radix: u8, max: u64) -> (r: Option<u64>)
    requires
        radix == 10 || radix == 16,
    ensures
        r is Some <==> s@.len() > 0 && all_digits(s@, radix as nat) && number_value(
            s@,
            radix as nat,
        ) <= max,
        r matches Some(v) ==> v as nat == number_value(s@, radix as nat),
{
    if s.len() == 0 {
        return None;
    }
    let mut acc: u128 = 0;
    let mut i: usize = 0;
    while i < s.len()
        invariant
            radix == 10 || radix == 16,
            0 <= i <= s@.len(),
            all_digits(s@.take(i as int), radix as nat),
            acc as nat == number_value(s@.take(i as int), radix as nat),
            acc <= max,
        decreases s@.len() - i,
    {
        let ghost before = s@.take(i as int);
        let ghost after = s@.take(i as int + 1);
        assert(after.drop_last() =~= before);
        assert(after.last() == s@[i as int]);
        match digit_of(s[i], radix) {
            None => {
                assert(!all_digits(s@, radix as nat));
                return None;
            },
            Some(d) => {
                let shifted: u128 = if radix == 16 {
                    acc * 16
                } else {
                    acc * 10
                };
                let next: u128 = shifted + (d as u128);
                if next > max as u128 {
                    proof {
                        lemma_number_value_grows(after, s@, radix as nat);
                    }
                    return None;
                }
                acc = next;
                assert forall|k: int| 0 <= k < after.len() implies digit_value(#[trigger] after[k])
                    < radix by {
                    if k < i {
                        assert(after[k] == before[k]);
                    }
                }
            },
        }
        i += 1;
    }
    assert(s@.take(i as int) =~= s@);
    Some(acc as u64)
}

/// A digit string is worth at least as much as any of its prefixes.
pub proof fn lemma_number_value_grows(prefix: Seq<char>, s: Seq<char>, radix: nat)
    requires
        prefix.len() <= s.len(),
        prefix =~= s.take(prefix.len() as int),
    ensures
        number_value(prefix, radix) <= number_value(s, radix),
    decreases s.len(),
{
    if prefix.len() < s.len() {
        assert(s.drop_last().take(prefix.len() as int) =~= prefix);
        lemma_number_value_grows(prefix, s.drop_last(), radix);
    } else {
        assert(prefix =~= s);
    }
}

/// Writes `n` in base `radix` at the end of `out`.
pub(crate) fn push_number(out: &mut String, n: u64, radix: u8)
    requires
        radix == 10 || radix == 16,
    ensures
        final(out)@ == old(out)@ + number_text(n as nat, radix as nat),
    decreases n,
{
    if radix == 16 {
        if n < 16 {
            out.append(digit_str(n as u8));
        } else {
            push_number(out, n / 16, radix);
            out.append(digit_str((n % 16) as u8));
        }
    } else {
        if n < 10 {
            out.append(digit_str(n as u8));
        } else {
            push_number(out, n / 10, radix);
            out.append(digit_str((n % 10) as u8));
        }
    }
    assert(out@ =~= old(out)@ + number_text(n as nat, radix as nat));
}

/// A digit below sixteen and its character stand for each other.
pub proof fn lemma_digit_char_value(d: nat)
    requires
        d < 16,
    ensures
        digit_value(digit_char(d)) == d,
        d < 10 ==> is_digit(digit_char(d)),
        !('A' <= digit_char(d) <= 'F'),
        d == 0 <==> digit_char(d) == '0',
{
}

/// Writing a number and reading it back gives the number: the text of `n`
/// is made of digits of the base only, has at least one of them, has no
/// leading zero unless `n` is zero, and is worth `n`.
pub proof fn lemma_number_text_value(n: nat, radix: nat)
    requires
        radix == 10 || radix == 16,
    ensures
        number_text(n, radix).len() >= 1,
        all_digits(number_text(n, radix), radix),
        number_value(number_text(n, radix), radix) == n,
        number_text(n, radix)[0] == '0' <==> n == 0,
        n == 0 ==> number_text(n, radix).len() == 1,
    decreases n,
{
    let t = number_text(n, radix);
    if n < radix {
        lemma_digit_char_value(n);
        assert(t =~= seq![digit_char(n)]);
        assert(t.drop_last() =~= Seq::<char>::empty());
        assert(number_value(t.drop_last(), radix) == 0);
    } else {
        let q = n / radix;
        let r = n % radix;
        lemma_number_text_value(q, radix);
        lemma_digit_char_value(r);
        let tq = number_text(q, radix);
        assert(t =~= tq.push(digit_char(r)));
        assert(t.drop_last() =~= tq);
        assert(t.last() == digit_char(r));
        assert(t[0] == tq[0]);
        assert forall|i: int| 0 <= i < t.len() implies digit_value(#[trigger] t[i]) < radix by {
            if i < tq.len() {
                assert(t[i] == tq[i]);
            }
        }
    }
}

/// How long the text of a number is: at most three decimal digits below
/// a thousand, at most four digits of base sixteen below 65536.
pub proof fn lemma_number_text_len(n: nat, radix: nat)
    requires
        radix == 10 || radix == 16,
    ensures
        radix == 10 && n < 1000 ==> number_text(n, radix).len() <= 3,
        radix == 16 && n < 0x1_0000 ==> number_text(n, radix).len() <= 4,
{
    if radix == 10 {
        reveal_with_fuel(number_text, 4);
    } else {
        reveal_with_fuel(number_text, 5);
    }
}

/// The parts of `s` between the occurrences of `sep`, in order. A text
/// without `sep` is one part, itself; `n` occurrences make `n + 1` parts,
/// some of them empty where two separators meet or one stands at an end.
pub open spec fn split(s: Seq<char>, sep: char) -> Seq<Seq<char>>
    decreases s.len(),
{
    if s.len() == 0 {
        seq![Seq::<char>::empty()]
    } else {
        let before = split(s.drop_last(), sep);
        if s.last() == sep {
            before.push(Seq::<char>::empty())
        } else {
            before.drop_last().push(before.last().push(s.last()))
        }
    }
}

/// The parts put together again, with `sep` between each two.
pub open spec fn join(parts: Seq<Seq<char>>, sep: char) -> Seq<char>
    decreases parts.len(),
{
    if parts.len() == 0 {
        Seq::<char>::empty()
    } else if parts.len() == 1 {
        parts[0]
    } else {
        join(parts.drop_last(), sep).push(sep) + parts.last()
    }
}

/// The views of the vectors of `parts`.
pub open spec fn parts_view(parts: Seq<Vec<char>>) -> Seq<Seq<char>> {
    Seq::new(parts.len(), |i: int| parts[i]@)
}

/// Cuts `s` at every `sep`.
pub fn split_chars(s: &Vec<char>, sep: char) -> (parts: Vec<Vec<char>>)
    ensures
        parts_view(parts@) == split(s@, sep),
{
    let mut parts: Vec<Vec<char>> = Vec::new();
    let mut current: Vec<char> = Vec::new();
    let mut i: usize = 0;
    while i < s.len()
        invariant
            0 <= i <= s@.len(),
            parts_view(parts@).push(current@) == split(s@.take(i as int), sep),
        decreases s@.len() - i,
    {
        let ghost done = parts_view(parts@).push(current@);
        assert(s@.take(i as int + 1).drop_last() =~= s@.take(i as int));
        let c = s[i];
        if c == sep {
            parts.push(current);
            current = Vec::new();
            assert(parts_view(parts@) =~= done);
        } else {
            current.push(c);
            assert(parts_view(parts@).push(current@) =~= done.drop_last().push(
                done.last().push(c),
            ));
        }
        i += 1;
    }
    assert(s@.take(i as int) =~= s@);
    let ghost done = parts_view(parts@).push(current@);
    parts.push(current);
    assert(parts_view(parts@) =~= done);
    parts
}

/// A text always has a first part.
pub proof fn lemma_split_len(s: Seq<char>, sep: char)
    ensures
        split(s, sep).len() >= 1,
    decreases s.len(),
{
    if s.len() > 0 {
        lemma_split_len(s.drop_last(), sep);
    }
}

/// A text that is put after a separator, and has none itself, is the last
/// part of the whole.
pub proof fn lemma_split_append(a: Seq<char>, b: Seq<char>, sep: char)
    requires
        !b.contains(sep),
    ensures
        split(a.push(sep) + b, sep) == split(a, sep).push(b),
    decreases b.len(),
{
    let whole = a.push(sep) + b;
    if b.len() == 0 {
        assert(whole =~= a.push(sep));
        assert(whole.drop_last() =~= a);
        assert(b =~= Seq::<char>::empty());
    } else {
        let shorter = b.drop_last();
        assert(b[b.len() - 1] == b.last());
        assert(b.contains(b.last()));
        assert forall|c: char| shorter.contains(c) implies b.contains(c) by {
            let k = choose|k: int| 0 <= k < shorter.len() && shorter[k] == c;
            assert(b[k] == c);
        }
        lemma_split_append(a, shorter, sep);
        assert(whole.drop_last() =~= a.push(sep) + shorter);
        assert(whole.last() == b.last());
        let before = split(a, sep).push(shorter);
        assert(before.drop_last() =~= split(a, sep));
        assert(shorter.push(b.last()) =~= b);
    }
}

/// A text without the separator is its own single part.
pub proof fn lemma_split_single(b: Seq<char>, sep: char)
    requires
        !b.contains(sep),
    ensures
        split(b, sep) == seq![b],
    decreases b.len(),
{
    if b.len() == 0 {
        assert(b =~= Seq::<char>::empty());
    } else {
        let shorter = b.drop_last();
        assert(b[b.len() - 1] == b.last());
        assert(b.contains(b.last()));
        assert forall|c: char| shorter.contains(c) implies b.contains(c) by {
            let k = choose|k: int| 0 <= k < shorter.len() && shorter[k] == c;
            assert(b[k] == c);
        }
        lemma_split_single(shorter, sep);
        assert(shorter.push(b.last()) =~= b);
        assert(seq![shorter].drop_last().push(b) =~= seq![b]);
    }
}

/// Cutting undoes joining: parts that hold no separator, and are at least
/// one, come back from the text that joins them.
pub proof fn lemma_split_join(parts: Seq<Seq<char>>, sep: char)
    requires
        parts.len() >= 1,
        forall|i: int| 0 <= i < parts.len() ==> !(#[trigger] parts[i]).contains(sep),
    ensures
        split(join(parts, sep), sep) == parts,
    decreases parts.len(),
{
    if parts.len() == 1 {
        lemma_split_single(parts[0], sep);
        assert(seq![parts[0]] =~= parts);
    } else {
        let init = parts.drop_last();
        assert forall|i: int| 0 <= i < init.len() implies !(#[trigger] init[i]).contains(sep) by {
            assert(init[i] == parts[i]);
        }
        lemma_split_join(init, sep);
        lemma_split_append(join(init, sep), parts.last(), sep);
        assert(init.push(parts.last()) =~= parts);
    }
}

/// Digits are no separators: a text of digits holds none of `.`, `:`, `/`.
pub proof fn lemma_digits_hold_no_separator(s: Seq<char>, radix: nat)
    requires
        radix <= 16,
        all_digits(s, radix),
    ensures
        !s.contains('.'),
        !s.contains(':'),
        !s.contains('/'),
{
    assert forall|c: char| s.contains(c) implies digit_value(c) < 16 by {
        let k = choose|k: int| 0 <= k < s.len() && s[k] == c;
        assert(digit_value(s[k]) < radix);
    }
}

/// The characters of `s` from `from` up to, not including, `to`.
pub(crate) fn sub_chars(s: &Vec<char>, from: usize, to: usize) -> (out: Vec<char>)
    requires
        from <= to <= s@.len(),
    ensures
        out@ == s@.subrange(from as int, to as int),
{
    let mut out: Vec<char> = Vec::new();
    let mut i: usize = from;
    while i < to
        invariant
            from <= i <= to <= s@.len(),
            out@ == s@.subrange(from as int, i as int),
        decreases to - i,
    {
        out.push(s[i]);
        assert(out@ =~= s@.subrange(from as int, i as int + 1));
        i += 1;
    }
    out
}

/// Up to four digits of base sixteen are worth less than 65536, up to
/// two less than 256.
pub proof fn lemma_hex_value_bound(s: Seq<char>)
    requires
        all_digits(s, 16),
        s.len() <= 4,
    ensures
        number_value(s, 16) < 0x1_0000,
        s.len() <= 2 ==> number_value(s, 16) < 0x100,
    decreases s.len(),
{
    if s.len() > 0 {
        let t = s.drop_last();
        assert forall|i: int| 0 <= i < t.len() implies digit_value(#[trigger] t[i]) < 16 by {
            assert(t[i] == s[i]);
        }
        assert(digit_value(s[s.len() - 1]) < 16);
        if t.len() > 0 {
            let u = t.drop_last();
            assert forall|i: int| 0 <= i < u.len() implies digit_value(#[trigger] u[i]) < 16 by {
                assert(u[i] == t[i]);
            }
            assert(digit_value(t[t.len() - 1]) < 16);
            if u.len() > 0 {
                let v = u.drop_last();
                assert(digit_value(u[u.len() - 1]) < 16);
                if v.len() > 0 {
                    assert(digit_value(v[v.len() - 1]) < 16);
                    assert(v.drop_last().len() == 0);
                }
            }
        }
        reveal_with_fuel(number_value, 5);
    }
}

/// A text that is joined from parts holds no character that neither the
/// parts nor the separator are.
pub proof fn lemma_join_holds_no(parts: Seq<Seq<char>>, sep: char, c: char)
    requires
        c != sep,
        forall|i: int| 0 <= i < parts.len() ==> !(#[trigger] parts[i]).contains(c),
    ensures
        !join(parts, sep).contains(c),
    decreases parts.len(),
{
    if parts.len() == 1 {
        assert(!parts[0].contains(c));
    } else if parts.len() > 1 {
        let init = parts.drop_last();
        assert forall|i: int| 0 <= i < init.len() implies !(#[trigger] init[i]).contains(c) by {
            assert(init[i] == parts[i]);
        }
        lemma_join_holds_no(init, sep, c);
        let head = join(init, sep).push(sep);
        let last = parts[parts.len() - 1];
        assert(!last.contains(c));
        let t = head + last;
        assert forall|k: int| 0 <= k < t.len() implies t[k] != c by {
            if k < head.len() - 1 {
                assert(join(init, sep)[k] == t[k]);
            } else if k >= head.len() {
                assert(last[k - head.len()] == t[k]);
            }
        }
    }
}

/// In a text that is joined from parts which are not empty and hold no
/// separator, no two separators meet, and none stands first or last.
pub proof fn lemma_join_shape(parts: Seq<Seq<char>>, sep: char)
    requires
        forall|i: int|
            0 <= i < parts.len() ==> (#[trigger] parts[i]).len() >= 1 && !parts[i].contains(sep),
    ensures
        parts.len() == 0 ==> join(parts, sep).len() == 0,
        parts.len() >= 1 ==> join(parts, sep).len() >= 1 && join(parts, sep)[0] != sep && join(
            parts,
            sep,
        ).last() != sep,
        parts.len() >= 2 ==> join(parts, sep).contains(sep),
        forall|k: int|
            0 <= k && k + 1 < join(parts, sep).len() ==> !(#[trigger] join(parts, sep)[k] == sep
                && join(parts, sep)[k + 1] == sep),
    decreases parts.len(),
{
    if parts.len() == 1 {
        let p = parts[0];
        assert(p.len() >= 1 && !p.contains(sep));
        assert(p[0] != sep);
        assert(p[p.len() - 1] != sep);
        assert forall|k: int| 0 <= k && k + 1 < p.len() implies !(#[trigger] p[k] == sep && p[k
            + 1] == sep) by {
            assert(p[k] != sep);
        }
    } else if parts.len() > 1 {
        let init = parts.drop_last();
        assert forall|i: int| 0 <= i < init.len() implies (#[trigger] init[i]).len() >= 1
            && !init[i].contains(sep) by {
            assert(init[i] == parts[i]);
        }
        lemma_join_shape(init, sep);
        let a = join(init, sep);
        let last = parts[parts.len() - 1];
        assert(last.len() >= 1 && !last.contains(sep));
        let t = a.push(sep) + last;
        assert(t == join(parts, sep));
        assert(t[0] == a[0]);
        assert(t[t.len() - 1] == last[last.len() - 1]);
        assert(last[last.len() - 1] != sep);
        assert(t[a.len() as int] == sep);
        assert forall|k: int| 0 <= k && k + 1 < t.len() implies !(#[trigger] t[k] == sep && t[k
            + 1] == sep) by {
            if k + 1 < a.len() {
                assert(t[k] == a[k] && t[k + 1] == a[k + 1]);
            } else if k + 1 == a.len() {
                assert(t[k] == a[a.len() - 1]);
            } else if k == a.len() {
                assert(t[k + 1] == last[0]);
                assert(last[0] != sep);
            } else {
                assert(t[k] == last[k - a.len() - 1]);
                assert(last[k - a.len() - 1] != sep);
            }
        }
    }
}

/// A character that is no separator stays in a part when the text is cut.
pub proof fn lemma_split_keeps(s: Seq<char>, sep: char, c: char)
    requires
        s.contains(c),
        c != sep,
    ensures
        exists|i: int| 0 <= i < split(s, sep).len() && (#[trigger] split(s, sep)[i]).contains(c),
    decreases s.len(),
{
    let at = choose|k: int| 0 <= k < s.len() && s[k] == c;
    let before = split(s.drop_last(), sep);
    lemma_split_len(s.drop_last(), sep);
    let parts = split(s, sep);
    if s.last() == c {
        let grown = before.last().push(c);
        assert(grown[grown.len() - 1] == c);
        assert(parts[parts.len() - 1] == grown);
        assert(parts[parts.len() - 1].contains(c));
    } else {
        assert(s.drop_last()[at] == c);
        lemma_split_keeps(s.drop_last(), sep, c);
        let i = choose|i: int| 0 <= i < before.len() && (#[trigger] before[i]).contains(c);
        let k = choose|k: int| 0 <= k < before[i].len() && before[i][k] == c;
        if s.last() == sep {
            assert(parts[i] == before[i]);
        } else if i < before.len() - 1 {
            assert(parts[i] == before[i]);
        } else {
            assert(parts[i] == before[i].push(s.last()));
            assert(parts[i][k] == c);
        }
        assert(parts[i].contains(c));
    }
}

/// True when the two texts are the same characters.
pub fn same_text(a: &str, b: &str) -> (same: bool)
    ensures
        same == (a@ == b@),
{
    let left = a.to_owned();
    let right = b.to_owned();
    left == right
}

/// The number that `s` writes in decimal, with or without a plus sign in
/// front, if it is at most `max`.
pub open spec fn parse_unsigned(s: Seq<char>, max: nat) -> Option<nat> {
    let digits = if s.len() > 0 && s[0] == '+' {
        s.subrange(1, s.len() as int)
    } else {
        s
    };
    if digits.len() > 0 && all_digits(digits, 10) && number_value(digits, 10) <= max {
        Some(number_value(digits, 10))
    } else {
        None
    }
}

/// Reads a number in decimal, with or without a plus sign in front.
pub fn read_unsigned(s: &Vec<char>, max: u64) -> (r: Option<u64>)
    ensures
        r is Some <==> parse_unsigned(s@, max as nat) is Some,
        r matches Some(v) ==> parse_unsigned(s@, max as nat) == Some(v as nat),
{
    let digits = if s.len() > 0 && s[0] == '+' {
        sub_chars(s, 1, s.len())
    } else {
        sub_chars(s, 0, s.len())
    };
    assert(s@.subrange(0, s@.len() as int) =~= s@);
    parse_number(&digits, 10, max)
}

} // verus!
