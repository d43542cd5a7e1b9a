//! The `profile` command: named configurations.

use vstd::prelude::*;
use crate::cli::apply::{is_word, matches_word, texts_view};
use crate::cli::diff::{snapshot_of, text_view, InterfaceState, InterfaceStateModel};
use crate::client::NetlinkTransport;
use crate::dbus::DbusTransport;
use crate::error::{bare_result, Error, ErrorModel};
use crate::manager::{acts_in_order, actions_view, LinkAction, LinkActionModel, NetworkManager};
use crate::network::LinkInfo;

verus! {

/// The `profile` command.
#[derive(Debug, Clone, PartialEq, Eq)]
pub struct ProfileCommand {
    pub command: ProfileSubcommand,
}

/// What to do with profiles.
#[derive(Debug, Clone, PartialEq, Eq)]
pub enum ProfileSubcommand {
    /// Save the configuration as it is now under a name.
    Save(SaveArgs),
    /// Apply a profile.
    Load(LoadArgs),
    /// List the profiles.
    List,
    /// Remove a profile.
    Delete(DeleteArgs),
    /// Show a profile.
    Show(ShowArgs),
}

/// The arguments of `profile save`.
#[derive(Debug, Clone, PartialEq, Eq)]
pub struct SaveArgs {
    /// The name of the profile.
    pub name: String,
    /// What the profile is for.
    pub description: Option<String>,
}

/// The arguments of `profile load`.
#[derive(Debug, Clone, PartialEq, Eq)]
pub struct LoadArgs {
    /// The name of the profile.
    pub name: String,
}

/// The arguments of `profile delete`.
#[derive(Debug, Clone, PartialEq, Eq)]
pub struct DeleteArgs {
    /// The name of the profile.
    pub name: String,
}

/// The arguments of `profile show`.
#[derive(Debug, Clone, PartialEq, Eq)]
pub struct ShowArgs {
    /// The name of the profile.
    pub name: String,
}

/// A named configuration of the interfaces.
#[derive(Debug, Clone, PartialEq, Eq)]
pub struct NetworkProfile {
    /// The name of the profile.
    pub name: String,
    /// What the profile is for.
    pub description: Option<String>,
    /// When the profile was saved.
    pub created_at: String,
    /// The interfaces, as they were.
    pub interfaces: Vec<InterfaceConfig>,
}

/// One interface in a profile.
#[derive(Debug, Clone, PartialEq, Eq)]
pub struct InterfaceConfig {
    /// The name of the interface.
    pub name: String,
    /// The state, `Up` or `Down`.
    pub state: String,
    /// The MTU.
    pub mtu: u32,
    /// The hardware address, as text.
    pub mac_address: Option<String>,
    /// The addresses, as text.
    pub addresses: Vec<String>,
}

impl View for InterfaceConfig {
    type V = InterfaceStateModel;

    open spec fn view(&self) -> InterfaceStateModel {
        InterfaceStateModel {
            name: self.name@,
            state: self.state@,
            mtu: self.mtu,
            mac: text_view(self.mac_address),
            addresses: texts_view(self.addresses@),
        }
    }
}

impl InterfaceConfig {
    /// A link as it is saved in a profile.
    pub fn from_link(link: &LinkInfo) -> (iface: InterfaceConfig)
        ensures
            iface@ == snapshot_of(link@),
    {
        let state = InterfaceState::from_link(link);
        InterfaceConfig {
            name: state.name,
            state: state.state,
            mtu: state.mtu,
            mac_address: state.mac,
            addresses: state.addresses,
        }
    }
}

impl SaveArgs {
    /// The profile of the given links, saved at the given time under the
    /// name and the description of the arguments.
    pub fn profile(&self, links: &Vec<LinkInfo>, created_at: String) -> (profile: NetworkProfile)
        ensures
            profile.name@ == self.name@,
            text_view(profile.description) == text_view(self.description),
            profile.created_at@ == created_at@,
            profile.interfaces@.len() == links@.len(),
            forall|i: int|
                0 <= i < links@.len() ==> (#[trigger] profile.interfaces@[i])@ == snapshot_of(
                    links@[i]@,
                ),
    {
        let mut interfaces: Vec<InterfaceConfig> = Vec::new();
        let mut i: usize = 0;
        while i < links.len()
            invariant
                0 <= i <= links@.len(),
                interfaces@.len() == i,
                forall|k: int|
                    0 <= k < i ==> (#[trigger] interfaces@[k])@ == snapshot_of(links@[k]@),
            decreases links@.len() - i,
        {
            interfaces.push(InterfaceConfig::from_link(&links[i]));
            i += 1;
        }
        NetworkProfile {
            name: self.name.clone(),
            description: match &self.description {
                Some(d) => Some(d.clone()),
                None => None,
            },
            created_at,
            interfaces,
        }
    }
}

/// What loading a profile does to one interface.
#[derive(Debug, Clone, Copy, PartialEq, Eq, Structural)]
pub enum LoadedState {
    /// The interface was brought up.
    Up,
    /// The interface was brought down.
    Down,
    /// The state of the profile is neither, and nothing was done to the
    /// state.
    Unchanged,
}

/// What the state of a profile asks for, in any mix of upper and lower
/// case.
pub open spec fn loaded_state(state: Seq<char>) -> LoadedState {
    if is_word(state, "up"@) {
        LoadedState::Up
    } else if is_word(state, "down"@) {
        LoadedState::Down
    } else {
        LoadedState::Unchanged
    }
}

/// What loading asks of the kernel for one interface of a profile: the
/// state if it is `up` or `down`, then the MTU.
pub open spec fn load_actions(iface: InterfaceStateModel) -> Seq<LinkActionModel> {
    match loaded_state(iface.state) {
        LoadedState::Up => seq![LinkActionModel::SetUp, LinkActionModel::SetMtu(iface.mtu)],
        LoadedState::Down => seq![LinkActionModel::SetDown, LinkActionModel::SetMtu(iface.mtu)],
        LoadedState::Unchanged => seq![LinkActionModel::SetMtu(iface.mtu)],
    }
}

impl LoadArgs {
    /// Brings one interface to what the profile says: first the state, if
    /// it is `up` or `down`, then the MTU, each by the name of the
    /// interface. The first step that fails ends the loading. The
    /// addresses of the profile are not applied.
    pub fn load_interface<N: NetlinkTransport, D: DbusTransport>(
        &self,
        manager: &NetworkManager<N, D>,
        iface: &InterfaceConfig,
    ) -> (r: Result<LoadedState, Error>)
        ensures
            acts_in_order(
                manager.kernel(),
                manager.bus(),
                iface@.name,
                load_actions(iface@),
                bare_result(r),
            ),
            r matches Ok(done) ==> done == loaded_state(iface@.state),
            r matches Err(e) ==> e@ is Netlink || e@ == (ErrorModel::InterfaceNotFound {
                name: iface@.name,
            }),
    {
        let mut actions: Vec<LinkAction> = Vec::new();
        let done = if matches_word(iface.state.as_str(), "up") {
            actions.push(LinkAction::SetUp);
            LoadedState::Up
        } else if matches_word(iface.state.as_str(), "down") {
            actions.push(LinkAction::SetDown);
            LoadedState::Down
        } else {
            LoadedState::Unchanged
        };
        actions.push(LinkAction::SetMtu(iface.mtu));
        assert(actions_view(actions@) =~= load_actions(iface@));
        match manager.run_by_name(iface.name.as_str(), actions) {
            Err(e) => Err(e),
            Ok(_) => Ok(done),
        }
    }
}

} // verus!
