//! The `export` command: the configuration, written to a file.

use vstd::prelude::*;
use crate::cli::apply::{is_word, matches_word, texts_view};
use crate::cli::diff::{snapshot_of, text_view, InterfaceState, InterfaceStateModel};
use crate::netlink::links_view;
use crate::network::{LinkInfo, LinkInfoModel, LinkState};
use crate::text::{parts_view, split, split_chars, sub_chars, to_chars};

verus! {

/// The arguments of `export`.
#[derive(Debug, Clone, PartialEq, Eq)]
pub struct ExportArgs {
    /// The path of the file to write.
    pub output: String,
    /// The format: `yaml`, `toml` or `json`.
    pub format: String,
    /// The interfaces to export, separated by commas; all if absent.
    pub interfaces: Option<String>,
    /// Write the output for readers.
    pub pretty: bool,
}

/// True for the characters that count as white space.
pub open spec fn is_whitespace(c: char) -> bool {
    let u = c as u32;
    ||| 0x09 <= u <= 0x0d
    ||| u == 0x20
    ||| u == 0x85
    ||| u == 0xa0
    ||| u == 0x1680
    ||| 0x2000 <= u <= 0x200a
    ||| u == 0x2028
    ||| u == 0x2029
    ||| u == 0x202f
    ||| u == 0x205f
    ||| u == 0x3000
}

/// True for the characters that count as white space.
pub fn whitespace(c: char) -> (b: bool)
    ensures
        b == is_whitespace(c),
{
    let u = c as u32;
    (0x09 <= u && u <= 0x0d) || u == 0x20 || u == 0x85 || u == 0xa0 || u == 0x1680 || (0x2000 <= u
        && u <= 0x200a) || u == 0x2028 || u == 0x2029 || u == 0x202f || u == 0x205f || u == 0x3000
}

/// Where the text begins once the white space in front is left out, at
/// or after `from`; the length of the text if nothing but white space
/// follows.
pub open spec fn trim_start(s: Seq<char>, from: int) -> int
    decreases s.len() - from,
{
    if from < 0 || from >= s.len() {
        s.len() as int
    } else if !is_whitespace(s[from]) {
        from
    } else {
        trim_start(s, from + 1)
    }
}

/// Where the text ends once the white space at the end is left out,
/// looking back from `upto`, and not before `low`.
pub open spec fn trim_end(s: Seq<char>, low: int, upto: int) -> int
    decreases upto,
{
    if upto <= low || upto > s.len() || upto <= 0 {
        low
    } else if !is_whitespace(s[upto - 1]) {
        upto
    } else {
        trim_end(s, low, upto - 1)
    }
}

/// The text without the white space in front and at the end.
pub open spec fn trimmed(s: Seq<char>) -> Seq<char> {
    let start = trim_start(s, 0);
    let end = trim_end(s, start, s.len() as int);
    s.subrange(start, end)
}

/// The text without the white space in front and at the end.
pub fn trim(s: &Vec<char>) -> (out: Vec<char>)
    ensures
        out@ == trimmed(s@),
{
    let n = s.len();
    let mut start: usize = 0;
    while start < n && whitespace(s[start])
        invariant
            n == s@.len(),
            0 <= start <= n,
            trim_start(s@, 0) == trim_start(s@, start as int),
        decreases n - start,
    {
        start += 1;
    }
    let mut end: usize = n;
    while end > start && whitespace(s[end - 1])
        invariant
            n == s@.len(),
            start <= end <= n,
            trim_end(s@, start as int, n as int) == trim_end(s@, start as int, end as int),
        decreases end,
    {
        end -= 1;
    }
    sub_chars(s, start, end)
}

/// The names that a list with commas between them holds, each without
/// the white space around it.
pub open spec fn listed_names(list: Seq<char>) -> Seq<Seq<char>> {
    Seq::new(split(list, ',').len(), |i: int| trimmed(split(list, ',')[i]))
}

/// The links whose name is listed, in their order; all links if there is
/// no list.
pub open spec fn exported(links: Seq<LinkInfoModel>, list: Option<Seq<char>>) -> Seq<
    LinkInfoModel,
> {
    match list {
        Some(l) => links.filter(|link: LinkInfoModel| listed_names(l).contains(link.name)),
        None => links,
    }
}

/// A format of the export.
#[derive(Debug, Clone, Copy, PartialEq, Eq, Structural)]
pub enum ExportFormat {
    Yaml,
    Toml,
    Json,
}

/// The format that a text names, in any mix of upper and lower case:
/// `json`, `toml`, and YAML for everything else.
pub open spec fn format_of(text: Seq<char>) -> ExportFormat {
    if is_word(text, "json"@) {
        ExportFormat::Json
    } else if is_word(text, "toml"@) {
        ExportFormat::Toml
    } else {
        ExportFormat::Yaml
    }
}

/// One interface in an export.
#[derive(Debug, Clone, PartialEq, Eq)]
pub struct InterfaceExport {
    pub name: String,
    pub state: String,
    pub mtu: u32,
    pub mac_address: Option<String>,
    pub addresses: Vec<String>,
}

impl View for InterfaceExport {
    type V = InterfaceStateModel;

    open spec fn view(&self) -> InterfaceStateModel {
        InterfaceStateModel {
            name: self.name@,
            state: self.state@,
            mtu: self.mtu,
            mac: text_view(self.mac_address),
            addresses: texts_view(self.addresses@),
        }
    }
}

/// A link as it is exported: as it is saved, but the state in lower case,
/// `up` or `down`.
pub open spec fn exported_interface(link: LinkInfoModel) -> InterfaceStateModel {
    InterfaceStateModel {
        state: match link.state {
            LinkState::Up => "up"@,
            LinkState::Down => "down"@,
        },
        ..snapshot_of(link)
    }
}

impl InterfaceExport {
    /// A link as it is exported.
    pub fn from_link(link: &LinkInfo) -> (iface: InterfaceExport)
        ensures
            iface@ == exported_interface(link@),
    {
        let state = InterfaceState::from_link(link);
        InterfaceExport {
            name: state.name,
            state: match link.state {
                LinkState::Up => "up".to_owned(),
                LinkState::Down => "down".to_owned(),
            },
            mtu: state.mtu,
            mac_address: state.mac,
            addresses: state.addresses,
        }
    }
}

/// True when `name` is among the names.
fn listed(names: &Vec<Vec<char>>, name: &Vec<char>) -> (found: bool)
    ensures
        found == parts_view(names@).contains(name@),
{
    let ghost all = parts_view(names@);
    let mut i: usize = 0;
    while i < names.len()
        invariant
            0 <= i <= names@.len(),
            all == parts_view(names@),
            forall|k: int| 0 <= k < i ==> #[trigger] all[k] != name@,
        decreases names@.len() - i,
    {
        assert(all[i as int] == names@[i as int]@);
        if same_chars(&names[i], name) {
            return true;
        }
        i += 1;
    }
    false
}

/// True when the two are the same characters.
fn same_chars(a: &Vec<char>, b: &Vec<char>) -> (same: bool)
    ensures
        same == (a@ == b@),
{
    if a.len() != b.len() {
        return false;
    }
    let mut i: usize = 0;
    while i < a.len()
        invariant
            0 <= i <= a@.len(),
            a@.len() == b@.len(),
            forall|k: int| 0 <= k < i ==> a@[k] == b@[k],
        decreases a@.len() - i,
    {
        if a[i] != b[i] {
            return false;
        }
        i += 1;
    }
    assert(a@ =~= b@);
    true
}

impl ExportArgs {
    /// The format of the export.
    pub fn chosen_format(&self) -> (format: ExportFormat)
        ensures
            format == format_of(self.format@),
    {
        if matches_word(self.format.as_str(), "json") {
            ExportFormat::Json
        } else if matches_word(self.format.as_str(), "toml") {
            ExportFormat::Toml
        } else {
            ExportFormat::Yaml
        }
    }

    /// The links that are exported: those that the list names, or all.
    pub fn select(&self, links: Vec<LinkInfo>) -> (chosen: Vec<LinkInfo>)
        ensures
            links_view(chosen@) == exported(links_view(links@), text_view(self.interfaces)),
    {
        let list = match &self.interfaces {
            None => {
                return links;
            },
            Some(list) => list,
        };
        let chars = to_chars(list.as_str());
        let parts = split_chars(&chars, ',');
        let mut names: Vec<Vec<char>> = Vec::new();
        let mut i: usize = 0;
        let ghost texts = split(list@, ',');
        while i < parts.len()
            invariant
                0 <= i <= parts@.len(),
                parts_view(parts@) == texts,
                names@.len() == i,
                forall|k: int| 0 <= k < i ==> (#[trigger] names@[k])@ == trimmed(texts[k]),
            decreases parts@.len() - i,
        {
            assert(parts_view(parts@)[i as int] == parts@[i as int]@);
            names.push(trim(&parts[i]));
            i += 1;
        }
        assert(parts_view(names@) =~= listed_names(list@));
        let ghost all = links_view(links@);
        let ghost keep = |link: LinkInfoModel| listed_names(list@).contains(link.name);
        let mut chosen: Vec<LinkInfo> = Vec::new();
        let n = links.len();
        let mut i: usize = 0;
        assert(all.take(0) =~= Seq::<LinkInfoModel>::empty());
        while i < n
            invariant
                0 <= i <= n,
                n == links@.len(),
                all == links_view(links@),
                parts_view(names@) == listed_names(list@),
                keep == (|link: LinkInfoModel| listed_names(list@).contains(link.name)),
                links_view(chosen@) == all.take(i as int).filter(keep),
            decreases n - i,
        {
            let ghost before = links_view(chosen@);
            assert(all[i as int] == links@[i as int]@);
            assert(all.take(i as int + 1) =~= all.take(i as int).push(links@[i as int]@));
            proof {
                all.take(i as int).lemma_filter_push(links@[i as int]@, keep);
            }
            let name = to_chars(links[i].name.as_str());
            if listed(&names, &name) {
                chosen.push(links[i].clone_snapshot());
                assert(links_view(chosen@) =~= before.push(links@[i as int]@));
            }
            i += 1;
        }
        assert(all.take(n as int) =~= all);
        chosen
    }
}

} // verus!
