//! The `apply` command: a declarative configuration, applied interface by interface.

use vstd::prelude::*;
use crate::client::NetlinkTransport;
use crate::dbus::DbusTransport;
use crate::error::{bare_result, Error, ErrorModel};
use crate::manager::{
    acts_in_order, actions_view, calls_daemon, LinkAction, LinkActionModel, NetworkManager,
};
use crate::network::{parse_cidr, IpNetwork, IpNetworkModel};

verus! {

/// The arguments of `apply`.
#[derive(Debug, Clone, PartialEq, Eq)]
pub struct ApplyArgs {
    /// The path of the configuration file, YAML or TOML.
    pub file: String,
    /// Show what would be done, and do nothing.
    pub dry_run: bool,
}

/// One interface in a configuration file.
#[derive(Debug, Clone, PartialEq, Eq)]
pub struct InterfaceConfig {
    /// The name of the interface.
    pub name: String,
    /// The state to bring the interface to, `up` or `down`.
    pub state: Option<String>,
    /// The MTU to set.
    pub mtu: Option<u32>,
    /// The addresses to add, each as `address/prefix`.
    pub addresses: Vec<String>,
}

/// A configuration file: the interfaces in their order.
#[derive(Debug, Clone, PartialEq, Eq)]
pub struct NetworkConfig {
    pub interfaces: Vec<InterfaceConfig>,
}

/// An [`InterfaceConfig`] as plain values.
pub struct InterfaceConfigModel {
    pub name: Seq<char>,
    pub state: Option<Seq<char>>,
    pub mtu: Option<u32>,
    pub addresses: Seq<Seq<char>>,
}

/// The texts as plain values.
pub open spec fn texts_view(texts: Seq<String>) -> Seq<Seq<char>> {
    Seq::new(texts.len(), |i: int| texts[i]@)
}

impl View for InterfaceConfig {
    type V = InterfaceConfigModel;

    open spec fn view(&self) -> InterfaceConfigModel {
        InterfaceConfigModel {
            name: self.name@,
            state: match self.state {
                Some(state) => Some(state@),
                None => None,
            },
            mtu: self.mtu,
            addresses: texts_view(self.addresses@),
        }
    }
}

/// The code of a character, and for a capital letter `A` to `Z` that of
/// its small letter.
pub open spec fn lower(c: char) -> u32 {
    if 'A' <= c <= 'Z' {
        ((c as u32) + 32) as u32
    } else {
        c as u32
    }
}

/// True when `s` is `word` in any mix of upper and lower case; `word` is
/// in lower case.
pub open spec fn is_word(s: Seq<char>, word: Seq<char>) -> bool {
    s.len() == word.len() && forall|i: int| 0 <= i < s.len() ==> lower(#[trigger] s[i]) == word[i] as u32
}

/// True when `s` is `word` in any mix of upper and lower case.
pub fn matches_word(s: &str, word: &str) -> (same: bool)
    ensures
        same == is_word(s@, word@),
{
    let left = crate::text::to_chars(s);
    let right = crate::text::to_chars(word);
    if left.len() != right.len() {
        return false;
    }
    let mut i: usize = 0;
    while i < left.len()
        invariant
            0 <= i <= left@.len(),
            left@.len() == right@.len(),
            left@ == s@,
            right@ == word@,
            forall|k: int| 0 <= k < i ==> lower(#[trigger] left@[k]) == right@[k] as u32,
        decreases left@.len() - i,
    {
        let c = left[i];
        let w = right[i];
        let same = if c >= 'A' && c <= 'Z' {
            c as u32 + 32 == w as u32
        } else {
            c as u32 == w as u32
        };
        if !same {
            assert(lower(left@[i as int]) != right@[i as int] as u32);
            return false;
        }
        i += 1;
    }
    true
}

/// One step in applying the configuration of an interface.
#[derive(Debug, Clone, PartialEq, Eq)]
pub enum ApplyStep {
    /// Bring the interface up.
    Up,
    /// Bring the interface down.
    Down,
    /// The state is neither `up` nor `down`, and is passed over.
    SkipState(String),
    /// Set the MTU.
    Mtu(u32),
    /// Add the address, which was read from the text.
    AddAddress { network: IpNetwork, text: String },
    /// In a dry run: the address that would be added, unread.
    WouldAddAddress(String),
    /// The text is no address, and is passed over.
    SkipAddress(String),
}

/// An [`ApplyStep`] as plain values.
pub enum ApplyStepModel {
    Up,
    Down,
    SkipState(Seq<char>),
    Mtu(u32),
    AddAddress { network: IpNetworkModel, text: Seq<char> },
    WouldAddAddress(Seq<char>),
    SkipAddress(Seq<char>),
}

impl View for ApplyStep {
    type V = ApplyStepModel;

    open spec fn view(&self) -> ApplyStepModel {
        match self {
            ApplyStep::Up => ApplyStepModel::Up,
            ApplyStep::Down => ApplyStepModel::Down,
            ApplyStep::SkipState(state) => ApplyStepModel::SkipState(state@),
            ApplyStep::Mtu(mtu) => ApplyStepModel::Mtu(*mtu),
            ApplyStep::AddAddress { network, text } => ApplyStepModel::AddAddress {
                network: network@,
                text: text@,
            },
            ApplyStep::WouldAddAddress(text) => ApplyStepModel::WouldAddAddress(text@),
            ApplyStep::SkipAddress(text) => ApplyStepModel::SkipAddress(text@),
        }
    }
}

/// The steps as plain values.
pub open spec fn steps_view(steps: Seq<ApplyStep>) -> Seq<ApplyStepModel> {
    Seq::new(steps.len(), |i: int| steps[i]@)
}

/// The step for the state, if one is given.
pub open spec fn state_steps(state: Option<Seq<char>>) -> Seq<ApplyStepModel> {
    match state {
        Some(s) => if is_word(s, "up"@) {
            seq![ApplyStepModel::Up]
        } else if is_word(s, "down"@) {
            seq![ApplyStepModel::Down]
        } else {
            seq![ApplyStepModel::SkipState(s)]
        },
        None => Seq::empty(),
    }
}

/// The step for the MTU, if one is given.
pub open spec fn mtu_steps(mtu: Option<u32>) -> Seq<ApplyStepModel> {
    match mtu {
        Some(m) => seq![ApplyStepModel::Mtu(m)],
        None => Seq::empty(),
    }
}

/// The step for one address. In a dry run the text is not read.
pub open spec fn address_step(text: Seq<char>, dry_run: bool) -> ApplyStepModel {
    if dry_run {
        ApplyStepModel::WouldAddAddress(text)
    } else {
        match parse_cidr(text) {
            Some(network) => ApplyStepModel::AddAddress { network, text },
            None => ApplyStepModel::SkipAddress(text),
        }
    }
}

/// The steps for an interface: the state, the MTU, then each address in
/// its order.
pub open spec fn plan_of(iface: InterfaceConfigModel, dry_run: bool) -> Seq<ApplyStepModel> {
    state_steps(iface.state) + mtu_steps(iface.mtu) + Seq::new(
        iface.addresses.len(),
        |i: int| address_step(iface.addresses[i], dry_run),
    )
}

impl ApplyStepModel {
    /// What the step asks of the kernel, if it asks anything.
    pub open spec fn action(self) -> Option<LinkActionModel> {
        match self {
            ApplyStepModel::Up => Some(LinkActionModel::SetUp),
            ApplyStepModel::Down => Some(LinkActionModel::SetDown),
            ApplyStepModel::Mtu(mtu) => Some(LinkActionModel::SetMtu(mtu)),
            ApplyStepModel::AddAddress { network, .. } => Some(
                LinkActionModel::AddAddress(network),
            ),
            _ => None,
        }
    }

    /// True for the steps that ask something of the kernel.
    pub open spec fn acts(self) -> bool {
        self.action() is Some
    }
}

/// What the steps ask of the kernel, in the order of the steps: one action
/// for each step that asks something, none for the others.
pub open spec fn actions_of(plan: Seq<ApplyStepModel>) -> Seq<LinkActionModel>
    decreases plan.len(),
{
    if plan.len() == 0 {
        Seq::empty()
    } else {
        actions_of(plan.drop_last()) + match plan.last().action() {
            Some(action) => seq![action],
            None => Seq::empty(),
        }
    }
}

/// What the steps ask of the kernel, in the order of the steps.
fn actions_for(steps: &Vec<ApplyStep>) -> (actions: Vec<LinkAction>)
    ensures
        actions_view(actions@) == actions_of(steps_view(steps@)),
        !calls_daemon(actions_view(actions@)),
{
    let mut actions: Vec<LinkAction> = Vec::new();
    let mut i: usize = 0;
    assert(steps_view(steps@).take(0).len() == 0);
    assert(actions_view(actions@) =~= actions_of(steps_view(steps@).take(0)));
    while i < steps.len()
        invariant
            0 <= i <= steps@.len(),
            actions_view(actions@) == actions_of(steps_view(steps@).take(i as int)),
            forall|k: int| 0 <= k < actions@.len() ==> !(#[trigger] actions@[k]).is_daemon_call(),
        decreases steps@.len() - i,
    {
        let ghost before = actions_view(actions@);
        let ghost plan = steps_view(steps@);
        assert(plan.take(i + 1).drop_last() =~= plan.take(i as int));
        assert(plan.take(i + 1).last() == steps@[i as int]@);
        match &steps[i] {
            ApplyStep::Up => {
                actions.push(LinkAction::SetUp);
                assert(actions_view(actions@) =~= before + seq![LinkActionModel::SetUp]);
            },
            ApplyStep::Down => {
                actions.push(LinkAction::SetDown);
                assert(actions_view(actions@) =~= before + seq![LinkActionModel::SetDown]);
            },
            ApplyStep::Mtu(mtu) => {
                actions.push(LinkAction::SetMtu(*mtu));
                assert(actions_view(actions@) =~= before + seq![LinkActionModel::SetMtu(*mtu)]);
            },
            ApplyStep::AddAddress { network, text } => {
                actions.push(LinkAction::AddAddress(*network));
                assert(actions_view(actions@) =~= before + seq![
                    LinkActionModel::AddAddress(network@),
                ]);
            },
            _ => {
                assert(actions_view(actions@) =~= before + Seq::<LinkActionModel>::empty());
            },
        }
        i += 1;
    }
    proof {
        assert(steps_view(steps@).take(steps@.len() as int) =~= steps_view(steps@));
        if calls_daemon(actions_view(actions@)) {
            let k = choose|k: int|
                0 <= k < actions_view(actions@).len() && (#[trigger] actions_view(
                    actions@,
                )[k]).is_daemon_call();
            assert(actions@[k].is_daemon_call());
        }
    }
    actions
}

impl ApplyArgs {
    /// The steps for an interface, decided from its configuration alone.
    pub fn plan_interface(&self, iface: &InterfaceConfig) -> (steps: Vec<ApplyStep>)
        ensures
            steps_view(steps@) == plan_of(iface@, self.dry_run),
    {
        let mut steps: Vec<ApplyStep> = Vec::new();
        match &iface.state {
            Some(state) => {
                if matches_word(state.as_str(), "up") {
                    steps.push(ApplyStep::Up);
                } else if matches_word(state.as_str(), "down") {
                    steps.push(ApplyStep::Down);
                } else {
                    steps.push(ApplyStep::SkipState(state.clone()));
                }
            },
            None => {},
        }
        assert(steps_view(steps@) =~= state_steps(iface@.state));
        let ghost done = steps_view(steps@);
        match iface.mtu {
            Some(mtu) => {
                steps.push(ApplyStep::Mtu(mtu));
            },
            None => {},
        }
        assert(steps_view(steps@) =~= done + mtu_steps(iface@.mtu));
        let ghost done = steps_view(steps@);
        let ghost all = iface@.addresses;
        let mut i: usize = 0;
        assert(all.len() == iface.addresses@.len());
        while i < iface.addresses.len()
            invariant
                0 <= i <= iface.addresses@.len(),
                all == iface@.addresses,
                steps@.len() == done.len() + i,
                forall|k: int| 0 <= k < done.len() ==> (#[trigger] steps@[k])@ == done[k],
                forall|k: int|
                    0 <= k < i ==> (#[trigger] steps@[done.len() + k])@ == address_step(
                        all[k],
                        self.dry_run,
                    ),
            decreases iface.addresses@.len() - i,
        {
            let text = &iface.addresses[i];
            assert(all[i as int] == text@);
            if self.dry_run {
                steps.push(ApplyStep::WouldAddAddress(text.clone()));
            } else {
                match IpNetwork::parse(text.as_str()) {
                    Ok(network) => {
                        steps.push(ApplyStep::AddAddress { network, text: text.clone() });
                    },
                    Err(_) => {
                        steps.push(ApplyStep::SkipAddress(text.clone()));
                    },
                }
            }
            i += 1;
        }
        proof {
            let plan = plan_of(iface@, self.dry_run);
            assert(done == state_steps(iface@.state) + mtu_steps(iface@.mtu));
            assert(plan.len() == steps@.len());
            assert forall|k: int| 0 <= k < plan.len() implies steps_view(steps@)[k] == plan[k] by {
                if k < done.len() {
                    assert(steps@[k]@ == done[k]);
                } else {
                    assert(steps@[done.len() + (k - done.len())]@ == address_step(
                        all[k - done.len()],
                        self.dry_run,
                    ));
                }
            }
            assert(steps_view(steps@) =~= plan);
        }
        steps
    }

    /// Applies the configuration of an interface: makes each step of the
    /// plan that asks something of the kernel, by the name of the
    /// interface and in the order of the plan, and stops at the first that
    /// fails. In a dry run nothing is asked of the kernel. On success the
    /// steps are handed back.
    pub fn apply_interface<N: NetlinkTransport, D: DbusTransport>(
        &self,
        manager: &NetworkManager<N, D>,
        iface: &InterfaceConfig,
    ) -> (r: Result<Vec<ApplyStep>, Error>)
        ensures
            r matches Ok(steps) ==> steps_view(steps@) == plan_of(iface@, self.dry_run),
            self.dry_run ==> r is Ok,
            !self.dry_run ==> acts_in_order(
                manager.kernel(),
                manager.bus(),
                iface@.name,
                actions_of(plan_of(iface@, false)),
                bare_result(r),
            ),
            r matches Err(e) ==> e@ is Netlink || e@ == (ErrorModel::InterfaceNotFound {
                name: iface@.name,
            }),
    {
        let steps = self.plan_interface(iface);
        if self.dry_run {
            return Ok(steps);
        }
        let actions = actions_for(&steps);
        match manager.run_by_name(iface.name.as_str(), actions) {
            Err(e) => Err(e),
            Ok(_) => Ok(steps),
        }
    }
}

} // verus!
