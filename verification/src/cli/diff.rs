//! The `diff` command: two configurations, compared.

use vstd::prelude::*;
use crate::cli::apply::texts_view;
use crate::cli::profile::InterfaceConfig;
use crate::network::{LinkInfo, LinkState};
use crate::text::same_text;

verus! {

/// The arguments of `diff`.
#[derive(Debug, Clone, PartialEq, Eq)]
pub struct DiffArgs {
    /// The first configuration: the name of a profile, or `current`.
    pub first: String,
    /// The second configuration.
    pub second: String,
}

/// The state of one interface, as text, as it is compared.
#[derive(Debug, Clone, PartialEq, Eq)]
pub struct InterfaceState {
    pub name: String,
    pub state: String,
    pub mtu: u32,
    pub mac: Option<String>,
    pub addresses: Vec<String>,
}

/// An [`InterfaceState`] as plain values.
pub struct InterfaceStateModel {
    pub name: Seq<char>,
    pub state: Seq<char>,
    pub mtu: u32,
    pub mac: Option<Seq<char>>,
    pub addresses: Seq<Seq<char>>,
}

/// A text that may be absent, as plain values.
pub open spec fn text_view(text: Option<String>) -> Option<Seq<char>> {
    match text {
        Some(t) => Some(t@),
        None => None,
    }
}

impl View for InterfaceState {
    type V = InterfaceStateModel;

    open spec fn view(&self) -> InterfaceStateModel {
        InterfaceStateModel {
            name: self.name@,
            state: self.state@,
            mtu: self.mtu,
            mac: text_view(self.mac),
            addresses: texts_view(self.addresses@),
        }
    }
}

/// How a state is written in a saved configuration: `Up` or `Down`.
pub open spec fn state_name(state: LinkState) -> Seq<char> {
    match state {
        LinkState::Up => "Up"@,
        LinkState::Down => "Down"@,
    }
}

/// A link as it is saved and compared: the state by its name, the
/// hardware address and the addresses as their text.
pub open spec fn snapshot_of(link: crate::network::LinkInfoModel) -> InterfaceStateModel {
    InterfaceStateModel {
        name: link.name,
        state: state_name(link.state),
        mtu: link.mtu,
        mac: match link.mac_address {
            Some(octets) => Some(crate::mac::mac_text(octets)),
            None => None,
        },
        addresses: Seq::new(
            link.addresses.len(),
            |i: int| crate::network::cidr_text(link.addresses[i]),
        ),
    }
}

/// The states as plain values.
pub open spec fn states_view(states: Seq<InterfaceState>) -> Seq<InterfaceStateModel> {
    Seq::new(states.len(), |i: int| states[i]@)
}

/// One line of a comparison.
#[derive(Debug, Clone, PartialEq, Eq)]
pub enum Change {
    /// An interface that only the first configuration has.
    OnlyInFirst(String),
    /// An interface that only the second configuration has.
    OnlyInSecond(String),
    /// An interface that both have, and that differs.
    Interface(String),
    /// The state differs.
    State { from: String, to: String },
    /// The MTU differs.
    Mtu { from: u32, to: u32 },
    /// The hardware address differs.
    Mac { from: Option<String>, to: Option<String> },
    /// An address that only the first configuration has.
    AddressRemoved(String),
    /// An address that only the second configuration has.
    AddressAdded(String),
}

/// A [`Change`] as plain values.
pub enum ChangeModel {
    OnlyInFirst(Seq<char>),
    OnlyInSecond(Seq<char>),
    Interface(Seq<char>),
    State { from: Seq<char>, to: Seq<char> },
    Mtu { from: u32, to: u32 },
    Mac { from: Option<Seq<char>>, to: Option<Seq<char>> },
    AddressRemoved(Seq<char>),
    AddressAdded(Seq<char>),
}

impl View for Change {
    type V = ChangeModel;

    open spec fn view(&self) -> ChangeModel {
        match self {
            Change::OnlyInFirst(name) => ChangeModel::OnlyInFirst(name@),
            Change::OnlyInSecond(name) => ChangeModel::OnlyInSecond(name@),
            Change::Interface(name) => ChangeModel::Interface(name@),
            Change::State { from, to } => ChangeModel::State { from: from@, to: to@ },
            Change::Mtu { from, to } => ChangeModel::Mtu { from: *from, to: *to },
            Change::Mac { from, to } => ChangeModel::Mac {
                from: text_view(*from),
                to: text_view(*to),
            },
            Change::AddressRemoved(addr) => ChangeModel::AddressRemoved(addr@),
            Change::AddressAdded(addr) => ChangeModel::AddressAdded(addr@),
        }
    }
}

/// The changes as plain values.
pub open spec fn changes_view(changes: Seq<Change>) -> Seq<ChangeModel> {
    Seq::new(changes.len(), |i: int| changes[i]@)
}

/// Which kind of line a text becomes.
#[derive(Debug, Clone, Copy, PartialEq, Eq, Structural)]
pub enum Side {
    OnlyInFirst,
    OnlyInSecond,
    AddressRemoved,
    AddressAdded,
}

/// The line of the given kind for a text.
pub open spec fn line_of(side: Side, text: Seq<char>) -> ChangeModel {
    match side {
        Side::OnlyInFirst => ChangeModel::OnlyInFirst(text),
        Side::OnlyInSecond => ChangeModel::OnlyInSecond(text),
        Side::AddressRemoved => ChangeModel::AddressRemoved(text),
        Side::AddressAdded => ChangeModel::AddressAdded(text),
    }
}

/// One line for each of the first `upto` texts of `a` that is not among
/// `b`, where it first occurs in `a`.
pub open spec fn missing_lines(a: Seq<Seq<char>>, b: Seq<Seq<char>>, side: Side, upto: int) -> Seq<
    ChangeModel,
>
    decreases upto,
{
    if upto <= 0 {
        Seq::empty()
    } else {
        let before = missing_lines(a, b, side, upto - 1);
        let text = a[upto - 1];
        if !b.contains(text) && !a.take(upto - 1).contains(text) {
            before.push(line_of(side, text))
        } else {
            before
        }
    }
}

/// What differs between two states of one interface: a line that names
/// the interface if anything differs, then a line each for the state, the
/// MTU and the hardware address that differ, then, if the addresses
/// differ, those that only the one state has and those that only the other
/// has.
pub open spec fn interface_changes(x: InterfaceStateModel, y: InterfaceStateModel) -> Seq<
    ChangeModel,
> {
    let header = if x.state != y.state || x.mtu != y.mtu || x.mac != y.mac || x.addresses
        != y.addresses {
        seq![ChangeModel::Interface(x.name)]
    } else {
        Seq::empty()
    };
    let state = if x.state != y.state {
        seq![ChangeModel::State { from: x.state, to: y.state }]
    } else {
        Seq::empty()
    };
    let mtu = if x.mtu != y.mtu {
        seq![ChangeModel::Mtu { from: x.mtu, to: y.mtu }]
    } else {
        Seq::empty()
    };
    let mac = if x.mac != y.mac {
        seq![ChangeModel::Mac { from: x.mac, to: y.mac }]
    } else {
        Seq::empty()
    };
    let addresses = if x.addresses != y.addresses {
        missing_lines(x.addresses, y.addresses, Side::AddressRemoved, x.addresses.len() as int)
            + missing_lines(
            y.addresses,
            x.addresses,
            Side::AddressAdded,
            y.addresses.len() as int,
        )
    } else {
        Seq::empty()
    };
    header + state + mtu + mac + addresses
}

/// The names of the states.
pub open spec fn names_of(states: Seq<InterfaceStateModel>) -> Seq<Seq<char>> {
    Seq::new(states.len(), |i: int| states[i].name)
}

/// Where the first state of the given name stands at or after `from`;
/// the number of states if there is none.
pub open spec fn first_state_named(states: Seq<InterfaceStateModel>, name: Seq<char>, from: int) -> int
    decreases states.len() - from,
{
    if from < 0 || from >= states.len() {
        states.len() as int
    } else if states[from].name == name {
        from
    } else {
        first_state_named(states, name, from + 1)
    }
}

/// What differs in the interfaces that both configurations have, for the
/// first `upto` interfaces of the first configuration in their order, each
/// compared with the first interface of its name in the second.
pub open spec fn common_changes(
    first: Seq<InterfaceStateModel>,
    second: Seq<InterfaceStateModel>,
    upto: int,
) -> Seq<ChangeModel>
    decreases upto,
{
    if upto <= 0 {
        Seq::empty()
    } else {
        let before = common_changes(first, second, upto - 1);
        let at = first_state_named(second, first[upto - 1].name, 0);
        if at < second.len() {
            before + interface_changes(first[upto - 1], second[at])
        } else {
            before
        }
    }
}

/// What differs between two configurations: the interfaces that only the
/// first has, those that only the second has, and what differs in those
/// that both have.
pub open spec fn state_changes(
    first: Seq<InterfaceStateModel>,
    second: Seq<InterfaceStateModel>,
) -> Seq<ChangeModel> {
    missing_lines(names_of(first), names_of(second), Side::OnlyInFirst, first.len() as int)
        + missing_lines(names_of(second), names_of(first), Side::OnlyInSecond, second.len() as int)
        + common_changes(first, second, first.len() as int)
}

/// True when `text` is among the first `upto` of `texts`.
fn among(texts: &Vec<String>, upto: usize, text: &str) -> (found: bool)
    requires
        upto <= texts@.len(),
    ensures
        found == texts_view(texts@).take(upto as int).contains(text@),
{
    let ghost all = texts_view(texts@).take(upto as int);
    let mut k: usize = 0;
    while k < upto
        invariant
            0 <= k <= upto <= texts@.len(),
            all == texts_view(texts@).take(upto as int),
            forall|j: int| 0 <= j < k ==> #[trigger] all[j] != text@,
        decreases upto - k,
    {
        assert(all[k as int] == texts@[k as int]@);
        if same_text(texts[k].as_str(), text) {
            return true;
        }
        k += 1;
    }
    false
}

/// The line of the given kind for a text.
fn make_line(side: Side, text: &str) -> (line: Change)
    ensures
        line@ == line_of(side, text@),
{
    match side {
        Side::OnlyInFirst => Change::OnlyInFirst(text.to_owned()),
        Side::OnlyInSecond => Change::OnlyInSecond(text.to_owned()),
        Side::AddressRemoved => Change::AddressRemoved(text.to_owned()),
        Side::AddressAdded => Change::AddressAdded(text.to_owned()),
    }
}

/// Adds a line for each text of `a` that is not among `b`.
fn push_missing(changes: &mut Vec<Change>, a: &Vec<String>, b: &Vec<String>, side: Side)
    ensures
        changes_view(final(changes)@) == changes_view(old(changes)@) + missing_lines(
            texts_view(a@),
            texts_view(b@),
            side,
            a@.len() as int,
        ),
{
    let ghost start = changes_view(changes@);
    let ghost left = texts_view(a@);
    let ghost right = texts_view(b@);
    let mut i: usize = 0;
    assert(changes_view(changes@) =~= start + missing_lines(left, right, side, 0));
    while i < a.len()
        invariant
            0 <= i <= a@.len(),
            left == texts_view(a@),
            right == texts_view(b@),
            changes_view(changes@) == start + missing_lines(left, right, side, i as int),
        decreases a@.len() - i,
    {
        let ghost before = changes_view(changes@);
        let text = a[i].as_str();
        assert(left[i as int] == text@);
        assert(right.take(b@.len() as int) =~= right);
        if !among(b, b.len(), text) && !among(a, i, text) {
            changes.push(make_line(side, text));
            assert(changes_view(changes@) =~= before.push(line_of(side, text@)));
        }
        assert(changes_view(changes@) =~= start + missing_lines(left, right, side, i as int + 1));
        i += 1;
    }
}

/// True when the two texts that may be absent are the same.
fn same_option(a: &Option<String>, b: &Option<String>) -> (same: bool)
    ensures
        same == (text_view(*a) == text_view(*b)),
{
    match (a, b) {
        (Some(x), Some(y)) => same_text(x.as_str(), y.as_str()),
        (None, None) => true,
        _ => false,
    }
}

/// True when the two lists hold the same texts in the same order.
fn same_texts(a: &Vec<String>, b: &Vec<String>) -> (same: bool)
    ensures
        same == (texts_view(a@) == texts_view(b@)),
{
    if a.len() != b.len() {
        assert(texts_view(a@).len() != texts_view(b@).len());
        return false;
    }
    let mut i: usize = 0;
    while i < a.len()
        invariant
            0 <= i <= a@.len(),
            a@.len() == b@.len(),
            forall|k: int| 0 <= k < i ==> a@[k]@ == b@[k]@,
        decreases a@.len() - i,
    {
        if !same_text(a[i].as_str(), b[i].as_str()) {
            assert(texts_view(a@)[i as int] != texts_view(b@)[i as int]);
            return false;
        }
        i += 1;
    }
    assert(texts_view(a@) =~= texts_view(b@));
    true
}

/// A copy of a text that may be absent.
fn copy_option(text: &Option<String>) -> (copy: Option<String>)
    ensures
        text_view(copy) == text_view(*text),
{
    match text {
        Some(t) => Some(t.clone()),
        None => None,
    }
}

impl InterfaceState {
    /// The state of a link as it is compared: the state as `Up` or
    /// `Down`, the hardware address and the addresses as their text.
    pub fn from_link(link: &LinkInfo) -> (state: InterfaceState)
        ensures
            state@ == snapshot_of(link@),
    {
        let mut addresses: Vec<String> = Vec::new();
        let mut i: usize = 0;
        while i < link.addresses.len()
            invariant
                0 <= i <= link.addresses@.len(),
                addresses@.len() == i,
                forall|k: int|
                    0 <= k < i ==> (#[trigger] addresses@[k])@ == crate::network::cidr_text(
                        link.addresses@[k]@,
                    ),
            decreases link.addresses@.len() - i,
        {
            addresses.push(link.addresses[i].to_string());
            i += 1;
        }
        let state = InterfaceState {
            name: link.name.clone(),
            state: match link.state {
                LinkState::Up => "Up".to_owned(),
                LinkState::Down => "Down".to_owned(),
            },
            mtu: link.mtu,
            mac: match &link.mac_address {
                Some(mac) => Some(mac.to_string()),
                None => None,
            },
            addresses,
        };
        assert(state@.addresses =~= snapshot_of(link@).addresses);
        state
    }

    /// The state of an interface of a profile as it is compared.
    pub fn from_profile(iface: &InterfaceConfig) -> (state: InterfaceState)
        ensures
            state@.name == iface.name@,
            state@.state == iface.state@,
            state@.mtu == iface.mtu,
            state@.mac == text_view(iface.mac_address),
            state@.addresses == texts_view(iface.addresses@),
    {
        let mut addresses: Vec<String> = Vec::new();
        let mut i: usize = 0;
        while i < iface.addresses.len()
            invariant
                0 <= i <= iface.addresses@.len(),
                addresses@.len() == i,
                forall|k: int| 0 <= k < i ==> (#[trigger] addresses@[k])@ == iface.addresses@[k]@,
            decreases iface.addresses@.len() - i,
        {
            addresses.push(iface.addresses[i].clone());
            i += 1;
        }
        let state = InterfaceState {
            name: iface.name.clone(),
            state: iface.state.clone(),
            mtu: iface.mtu,
            mac: copy_option(&iface.mac_address),
            addresses,
        };
        assert(state@.addresses =~= texts_view(iface.addresses@));
        state
    }
}

/// What differs between two states of one interface.
pub fn compare_interface(x: &InterfaceState, y: &InterfaceState) -> (changes: Vec<Change>)
    ensures
        changes_view(changes@) == interface_changes(x@, y@),
{
    let mut changes: Vec<Change> = Vec::new();
    let state_same = same_text(x.state.as_str(), y.state.as_str());
    let mtu_same = x.mtu == y.mtu;
    let mac_same = same_option(&x.mac, &y.mac);
    let addresses_same = same_texts(&x.addresses, &y.addresses);
    if !state_same || !mtu_same || !mac_same || !addresses_same {
        changes.push(Change::Interface(x.name.clone()));
    }
    if !state_same {
        changes.push(Change::State { from: x.state.clone(), to: y.state.clone() });
    }
    if !mtu_same {
        changes.push(Change::Mtu { from: x.mtu, to: y.mtu });
    }
    if !mac_same {
        changes.push(Change::Mac { from: copy_option(&x.mac), to: copy_option(&y.mac) });
    }
    let ghost before = changes_view(changes@);
    if !addresses_same {
        push_missing(&mut changes, &x.addresses, &y.addresses, Side::AddressRemoved);
        push_missing(&mut changes, &y.addresses, &x.addresses, Side::AddressAdded);
    }
    assert(before =~= ({
        let xm = x@;
        let ym = y@;
        (if xm.state != ym.state || xm.mtu != ym.mtu || xm.mac != ym.mac || xm.addresses
            != ym.addresses {
            seq![ChangeModel::Interface(xm.name)]
        } else {
            Seq::<ChangeModel>::empty()
        }) + (if xm.state != ym.state {
            seq![ChangeModel::State { from: xm.state, to: ym.state }]
        } else {
            Seq::<ChangeModel>::empty()
        }) + (if xm.mtu != ym.mtu {
            seq![ChangeModel::Mtu { from: xm.mtu, to: ym.mtu }]
        } else {
            Seq::<ChangeModel>::empty()
        }) + (if xm.mac != ym.mac {
            seq![ChangeModel::Mac { from: xm.mac, to: ym.mac }]
        } else {
            Seq::<ChangeModel>::empty()
        })
    }));
    assert(changes_view(changes@) =~= interface_changes(x@, y@));
    changes
}

/// The names of the states.
fn names(states: &Vec<InterfaceState>) -> (names: Vec<String>)
    ensures
        texts_view(names@) == names_of(states_view(states@)),
{
    let mut names: Vec<String> = Vec::new();
    let mut i: usize = 0;
    while i < states.len()
        invariant
            0 <= i <= states@.len(),
            names@.len() == i,
            forall|k: int| 0 <= k < i ==> (#[trigger] names@[k])@ == states@[k]@.name,
        decreases states@.len() - i,
    {
        names.push(states[i].name.clone());
        i += 1;
    }
    assert(texts_view(names@) =~= names_of(states_view(states@)));
    names
}

/// What differs between two configurations.
pub fn compare_states(first: &Vec<InterfaceState>, second: &Vec<InterfaceState>) -> (changes: Vec<
    Change,
>)
    ensures
        changes_view(changes@) == state_changes(states_view(first@), states_view(second@)),
{
    let ghost a = states_view(first@);
    let ghost b = states_view(second@);
    let first_names = names(first);
    let second_names = names(second);
    let mut changes: Vec<Change> = Vec::new();
    assert(texts_view(first_names@).len() == first_names@.len());
    assert(texts_view(second_names@).len() == second_names@.len());
    assert(names_of(a).len() == a.len() && names_of(b).len() == b.len());
    assert(changes_view(changes@) =~= Seq::<ChangeModel>::empty());
    push_missing(&mut changes, &first_names, &second_names, Side::OnlyInFirst);
    push_missing(&mut changes, &second_names, &first_names, Side::OnlyInSecond);
    let ghost start = changes_view(changes@);
    assert(start =~= missing_lines(names_of(a), names_of(b), Side::OnlyInFirst, a.len() as int)
        + missing_lines(names_of(b), names_of(a), Side::OnlyInSecond, b.len() as int));
    let mut i: usize = 0;
    assert(changes_view(changes@) =~= start + common_changes(a, b, 0));
    while i < first.len()
        invariant
            0 <= i <= first@.len(),
            a == states_view(first@),
            b == states_view(second@),
            changes_view(changes@) == start + common_changes(a, b, i as int),
        decreases first@.len() - i,
    {
        let ghost before = changes_view(changes@);
        let x = &first[i];
        assert(a[i as int] == x@);
        let mut j: usize = 0;
        while j < second.len() && !same_text(second[j].name.as_str(), x.name.as_str())
            invariant
                0 <= j <= second@.len(),
                b == states_view(second@),
                first_state_named(b, x@.name, 0) == first_state_named(b, x@.name, j as int),
            decreases second@.len() - j,
        {
            assert(b[j as int] == second@[j as int]@);
            j += 1;
        }
        if j < second.len() {
            assert(b[j as int] == second@[j as int]@);
            let mut lines = compare_interface(x, &second[j]);
            let ghost added = changes_view(lines@);
            changes.append(&mut lines);
            assert(changes_view(changes@) =~= before + added);
        }
        assert(changes_view(changes@) =~= start + common_changes(a, b, i as int + 1));
        i += 1;
    }
    changes
}

} // verus!
