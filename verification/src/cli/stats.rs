//! The `stats` command: counters of the interfaces.

use vstd::prelude::*;
use crate::cli::diff::text_view;
use crate::cli::export::{trim, trimmed};
use crate::error::Error;
use crate::network::{LinkInfo, LinkInfoModel};
use crate::netlink::links_view;
use crate::text::{
    digit_char, digit_str, number_text, parse_unsigned, push_number, read_unsigned, to_chars,
};

verus! {

/// The arguments of `stats`.
#[derive(Debug, Clone, PartialEq, Eq)]
pub struct StatsArgs {
    /// The name of the interface; all interfaces if absent.
    pub interface: Option<String>,
    /// Show every counter.
    pub detailed: bool,
    /// The format: `table` or `json`.
    pub format: String,
}

/// The counters of one interface.
#[derive(Debug, Clone, Copy, PartialEq, Eq, Default)]
pub struct InterfaceStats {
    pub rx_bytes: u64,
    pub tx_bytes: u64,
    pub rx_packets: u64,
    pub tx_packets: u64,
    pub rx_errors: u64,
    pub tx_errors: u64,
}

/// The links of the given name, in their order; all links if no name is
/// given.
pub open spec fn selected(links: Seq<LinkInfoModel>, name: Option<Seq<char>>) -> Seq<
    LinkInfoModel,
> {
    match name {
        Some(n) => links.filter(|link: LinkInfoModel| link.name == n),
        None => links,
    }
}

/// The links of the given name, in their order; all links if no name is
/// given. No name is looked up: a name that no link bears leaves no
/// link.
pub fn select_links(links: Vec<LinkInfo>, name: &Option<String>) -> (chosen: Vec<LinkInfo>)
    ensures
        links_view(chosen@) == selected(links_view(links@), text_view(*name)),
{
    match name {
        None => links,
        Some(name) => {
            let ghost all = links_view(links@);
            let ghost keep = |link: LinkInfoModel| link.name == name@;
            let mut chosen: Vec<LinkInfo> = Vec::new();
            let mut rest = links;
            let mut i: usize = 0;
            let n = rest.len();
            assert(all.take(0) =~= Seq::<LinkInfoModel>::empty());
            while i < n
                invariant
                    0 <= i <= n,
                    n == rest@.len(),
                    all == links_view(rest@),
                    keep == (|link: LinkInfoModel| link.name == name@),
                    links_view(chosen@) == all.take(i as int).filter(keep),
                decreases n - i,
            {
                let ghost before = links_view(chosen@);
                let link = rest[i].clone_snapshot();
                assert(all[i as int] == rest@[i as int]@);
                assert(all.take(i as int + 1) =~= all.take(i as int).push(rest@[i as int]@));
                proof {
                    all.take(i as int).lemma_filter_push(rest@[i as int]@, keep);
                }
                if link.name == *name {
                    chosen.push(link);
                    assert(links_view(chosen@) =~= before.push(rest@[i as int]@));
                }
                i += 1;
            }
            assert(all.take(n as int) =~= all);
            chosen
        },
    }
}

impl StatsArgs {
    /// The links that statistics are shown for: those of the name that
    /// was given, or all.
    pub fn select(&self, links: Vec<LinkInfo>) -> (chosen: Vec<LinkInfo>)
        ensures
            links_view(chosen@) == selected(links_view(links@), text_view(self.interface)),
    {
        select_links(links, &self.interface)
    }
}

/// What a counter file holds: the number that its content writes once the
/// white space around it is left out, and zero if that is no number.
pub open spec fn counter_of(content: Seq<char>) -> u64 {
    match parse_unsigned(trimmed(content), u64::MAX as nat) {
        Some(n) => n as u64,
        None => 0,
    }
}

/// Reads the content of a counter file.
pub fn parse_counter(content: &str) -> (n: u64)
    ensures
        n == counter_of(content@),
{
    let chars = to_chars(content);
    let word = trim(&chars);
    match read_unsigned(&word, u64::MAX) {
        Some(n) => n,
        None => 0,
    }
}

/// The contents of the six counter files of one interface. A file that is
/// missing or cannot be read has no content.
#[derive(Debug, Clone, PartialEq, Eq)]
pub struct CounterFiles {
    pub rx_bytes: Option<String>,
    pub tx_bytes: Option<String>,
    pub rx_packets: Option<String>,
    pub tx_packets: Option<String>,
    pub rx_errors: Option<String>,
    pub tx_errors: Option<String>,
}

/// What a counter file that may be missing stands for: the counter that
/// its content holds, and zero without a content.
pub open spec fn stat_of(content: Option<Seq<char>>) -> u64 {
    match content {
        Some(text) => counter_of(text),
        None => 0,
    }
}

impl StatsArgs {
    /// The counter of one file. It never fails: a file that is missing,
    /// and a content that is no number, count as zero.
    pub fn read_stat(&self, content: &Option<String>) -> (r: Result<u64, Error>)
        ensures
            r matches Ok(n) && n == stat_of(text_view(*content)),
    {
        match content {
            Some(text) => Ok(parse_counter(text.as_str())),
            None => Ok(0),
        }
    }

    /// The counters of one interface, each from the file of its own name.
    /// It never fails: a counter whose file is missing, or holds no
    /// number, is zero.
    pub fn read_interface_stats(&self, files: &CounterFiles) -> (r: Result<InterfaceStats, Error>)
        ensures
            r is Ok,
            r matches Ok(s) ==> s.rx_bytes == stat_of(text_view(files.rx_bytes)),
            r matches Ok(s) ==> s.tx_bytes == stat_of(text_view(files.tx_bytes)),
            r matches Ok(s) ==> s.rx_packets == stat_of(text_view(files.rx_packets)),
            r matches Ok(s) ==> s.tx_packets == stat_of(text_view(files.tx_packets)),
            r matches Ok(s) ==> s.rx_errors == stat_of(text_view(files.rx_errors)),
            r matches Ok(s) ==> s.tx_errors == stat_of(text_view(files.tx_errors)),
    {
        let rx_bytes = match self.read_stat(&files.rx_bytes) {
            Ok(n) => n,
            Err(e) => {
                return Err(e);
            },
        };
        let tx_bytes = match self.read_stat(&files.tx_bytes) {
            Ok(n) => n,
            Err(e) => {
                return Err(e);
            },
        };
        let rx_packets = match self.read_stat(&files.rx_packets) {
            Ok(n) => n,
            Err(e) => {
                return Err(e);
            },
        };
        let tx_packets = match self.read_stat(&files.tx_packets) {
            Ok(n) => n,
            Err(e) => {
                return Err(e);
            },
        };
        let rx_errors = match self.read_stat(&files.rx_errors) {
            Ok(n) => n,
            Err(e) => {
                return Err(e);
            },
        };
        let tx_errors = match self.read_stat(&files.tx_errors) {
            Ok(n) => n,
            Err(e) => {
                return Err(e);
            },
        };
        Ok(InterfaceStats { rx_bytes, tx_bytes, rx_packets, tx_packets, rx_errors, tx_errors })
    }
}

/// 1024 bytes.
pub const KB: u64 = 1024;

/// 1024 times 1024 bytes.
pub const MB: u64 = 1048576;

/// 1024 times 1024 times 1024 bytes.
pub const GB: u64 = 1073741824;

/// 1024 times 1024 times 1024 times 1024 bytes.
pub const TB: u64 = 1099511627776;

/// `n` divided by `d` and rounded to the nearest whole number; where two
/// are as near, to the even one.
pub open spec fn round_half_even(n: nat, d: nat) -> nat {
    let q = n / d;
    let r = n % d;
    if 2 * r > d || (2 * r == d && q % 2 == 1) {
        q + 1
    } else {
        q
    }
}

/// The distance between two neighbours among the numbers that have 53
/// binary digits, at the size of `bytes`.
pub open spec fn spacing(bytes: nat) -> nat {
    if bytes < 0x20_0000_0000_0000 {
        1
    } else if bytes < 0x40_0000_0000_0000 {
        2
    } else if bytes < 0x80_0000_0000_0000 {
        4
    } else if bytes < 0x100_0000_0000_0000 {
        8
    } else if bytes < 0x200_0000_0000_0000 {
        16
    } else if bytes < 0x400_0000_0000_0000 {
        32
    } else if bytes < 0x800_0000_0000_0000 {
        64
    } else if bytes < 0x1000_0000_0000_0000 {
        128
    } else if bytes < 0x2000_0000_0000_0000 {
        256
    } else if bytes < 0x4000_0000_0000_0000 {
        512
    } else if bytes < 0x8000_0000_0000_0000 {
        1024
    } else {
        2048
    }
}

/// The number of 53 binary digits that is nearest to `bytes`.
pub open spec fn nearest_53(bytes: nat) -> nat {
    round_half_even(bytes, spacing(bytes)) * spacing(bytes)
}

/// How many hundredths of `unit` the amount is, rounded to the nearest
/// whole number of them.
pub open spec fn hundredths(bytes: nat, unit: nat) -> nat {
    round_half_even(nearest_53(bytes) * 100, unit)
}

/// So many hundredths, written with two decimal places.
pub open spec fn two_places(h: nat) -> Seq<char> {
    number_text(h / 100, 10) + seq!['.', digit_char((h % 100) / 10), digit_char(h % 10)]
}

/// An amount of bytes for readers: in the largest of the units TB, GB, MB
/// and KB that it reaches, with two decimal places, or in bytes below
/// 1024.
pub open spec fn bytes_text(bytes: u64) -> Seq<char> {
    if bytes >= TB {
        two_places(hundredths(bytes as nat, TB as nat)) + " TB"@
    } else if bytes >= GB {
        two_places(hundredths(bytes as nat, GB as nat)) + " GB"@
    } else if bytes >= MB {
        two_places(hundredths(bytes as nat, MB as nat)) + " MB"@
    } else if bytes >= KB {
        two_places(hundredths(bytes as nat, KB as nat)) + " KB"@
    } else {
        number_text(bytes as nat, 10) + " B"@
    }
}

/// `n` divided by `d` and rounded, ties to the even number.
fn divide_rounded(n: u128, d: u128) -> (q: u128)
    requires
        0 < d < 0x1_0000_0000_0000_0000_0000,
        n < 0x1_0000_0000_0000_0000_0000,
    ensures
        q == round_half_even(n as nat, d as nat),
        q <= n + 1,
        q * d <= n + d,
{
    let q = n / d;
    let r = n % d;
    assert(q <= n && q * d <= n && r < d) by (nonlinear_arith)
        requires
            q == n / d,
            r == n % d,
            d > 0,
    ;
    assert((q + 1) * d == q * d + d) by (nonlinear_arith);
    if 2 * r > d || (2 * r == d && q % 2 == 1) {
        q + 1
    } else {
        q
    }
}

/// The distance between neighbours at the size of `bytes`.
fn spacing_of(bytes: u64) -> (d: u128)
    ensures
        d == spacing(bytes as nat),
        1 <= d <= 2048,
{
    if bytes < 0x20_0000_0000_0000 {
        1
    } else if bytes < 0x40_0000_0000_0000 {
        2
    } else if bytes < 0x80_0000_0000_0000 {
        4
    } else if bytes < 0x100_0000_0000_0000 {
        8
    } else if bytes < 0x200_0000_0000_0000 {
        16
    } else if bytes < 0x400_0000_0000_0000 {
        32
    } else if bytes < 0x800_0000_0000_0000 {
        64
    } else if bytes < 0x1000_0000_0000_0000 {
        128
    } else if bytes < 0x2000_0000_0000_0000 {
        256
    } else if bytes < 0x4000_0000_0000_0000 {
        512
    } else if bytes < 0x8000_0000_0000_0000 {
        1024
    } else {
        2048
    }
}

/// Writes the amount in hundredths of `unit`, and the name of the unit.
fn scaled(bytes: u64, unit: u64, name: &str) -> (text: String)
    requires
        unit >= 1024,
    ensures
        text@ == two_places(hundredths(bytes as nat, unit as nat)) + name@,
{
    let d = spacing_of(bytes);
    let q = divide_rounded(bytes as u128, d);
    assert(q * d <= 0x1_0000_0000_0000_0001 * 2048) by (nonlinear_arith)
        requires
            q <= 0x1_0000_0000_0000_0001,
            d <= 2048,
    ;
    let nearest: u128 = q * d;
    let h = divide_rounded(nearest * 100, unit as u128);
    assert(h <= 0xffff_ffff_ffff_ffff) by (nonlinear_arith)
        requires
            h * unit <= nearest * 100 + unit,
            nearest <= 0x1_0000_0000_0000_0000 + 2048,
            unit >= 1024,
    ;
    let mut text = String::new();
    push_number(&mut text, (h / 100) as u64, 10);
    proof {
        reveal_strlit(".");
    }
    text.append(".");
    text.append(digit_str(((h % 100) / 10) as u8));
    text.append(digit_str((h % 10) as u8));
    text.append(name);
    assert(text@ =~= two_places(h as nat) + name@);
    text
}

impl StatsArgs {
    /// An amount of bytes for readers.
    pub fn format_bytes(&self, bytes: u64) -> (text: String)
        ensures
            text@ == bytes_text(bytes),
    {
        if bytes >= TB {
            scaled(bytes, TB, " TB")
        } else if bytes >= GB {
            scaled(bytes, GB, " GB")
        } else if bytes >= MB {
            scaled(bytes, MB, " MB")
        } else if bytes >= KB {
            scaled(bytes, KB, " KB")
        } else {
            let mut text = String::new();
            push_number(&mut text, bytes, 10);
            text.append(" B");
            assert(text@ =~= bytes_text(bytes));
            text
        }
    }
}

} // verus!
