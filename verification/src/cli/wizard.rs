//! The `wizard` command.

use vstd::prelude::*;
use crate::cli::profile::LoadedState;
use crate::client::NetlinkTransport;
use crate::dbus::DbusTransport;
use crate::error::{bare_result, Error, ErrorModel};
use crate::manager::{acts_in_order, actions_view, LinkAction, LinkActionModel, NetworkManager};
use crate::network::{parse_cidr, IpNetwork};
use crate::text::same_text;

verus! {

/// The arguments of `wizard`: none.
#[derive(Debug, Clone, PartialEq, Eq)]
pub struct WizardArgs {}

/// What a choice of the MTU menu stands for.
#[derive(Debug, Clone, Copy, PartialEq, Eq, Structural)]
pub enum MtuChoice {
    /// A fixed value.
    Value(u32),
    /// A value that is asked for.
    Custom,
}

/// What a choice of the MTU menu stands for: the three fixed values by
/// their entries, the custom value by its entry, and 1500 for anything
/// else.
pub open spec fn mtu_choice_of(choice: Seq<char>) -> MtuChoice {
    if choice == "9000 (Jumbo Frames)"@ {
        MtuChoice::Value(9000)
    } else if choice == "1280 (IPv6 minimum)"@ {
        MtuChoice::Value(1280)
    } else if choice == "Custom value"@ {
        MtuChoice::Custom
    } else {
        MtuChoice::Value(1500)
    }
}

/// What a choice of the MTU menu stands for.
pub fn mtu_choice(choice: &str) -> (c: MtuChoice)
    ensures
        c == mtu_choice_of(choice@),
{
    if same_text(choice, "9000 (Jumbo Frames)") {
        MtuChoice::Value(9000)
    } else if same_text(choice, "1280 (IPv6 minimum)") {
        MtuChoice::Value(1280)
    } else if same_text(choice, "Custom value") {
        MtuChoice::Custom
    } else {
        MtuChoice::Value(1500)
    }
}

/// The address and the prefix as one text, a slash between them.
pub fn full_address(address: &str, prefix: &str) -> (text: String)
    ensures
        text@ == address@.push('/') + prefix@,
{
    proof {
        reveal_strlit("/");
    }
    let mut text = address.to_owned();
    text.append("/");
    text.append(prefix);
    assert(text@ =~= address@.push('/') + prefix@);
    text
}

/// What became of the address of a complete setup.
#[derive(Debug, Clone, Copy, PartialEq, Eq, Structural)]
pub enum AddressOutcome {
    /// No address was asked for.
    NotAsked,
    /// The address was added.
    Added,
    /// The text was no address, and was passed over.
    Skipped,
}

/// What becomes of the address of a complete setup.
pub open spec fn address_outcome_of(address: Option<Seq<char>>) -> AddressOutcome {
    match address {
        None => AddressOutcome::NotAsked,
        Some(text) => if parse_cidr(text) is Some {
            AddressOutcome::Added
        } else {
            AddressOutcome::Skipped
        },
    }
}

/// What the state of a complete setup asks for: `up` and `down` as they
/// are written, anything else nothing.
pub open spec fn setup_state_of(state: Seq<char>) -> LoadedState {
    if state == "up"@ {
        LoadedState::Up
    } else if state == "down"@ {
        LoadedState::Down
    } else {
        LoadedState::Unchanged
    }
}

/// What a complete setup asks of the kernel: the MTU, then the address if
/// one is given and can be read, then the state if it is `up` or `down`.
pub open spec fn setup_actions(state: Seq<char>, mtu: u32, address: Option<Seq<char>>) -> Seq<
    LinkActionModel,
> {
    seq![LinkActionModel::SetMtu(mtu)] + match address {
        Some(text) => match parse_cidr(text) {
            Some(network) => seq![LinkActionModel::AddAddress(network)],
            None => Seq::empty(),
        },
        None => Seq::empty(),
    } + match setup_state_of(state) {
        LoadedState::Up => seq![LinkActionModel::SetUp],
        LoadedState::Down => seq![LinkActionModel::SetDown],
        LoadedState::Unchanged => Seq::empty(),
    }
}

/// The text of an address that may be absent, as plain values.
pub open spec fn address_view(address: Option<&str>) -> Option<Seq<char>> {
    match address {
        Some(text) => Some(text@),
        None => None,
    }
}

impl WizardArgs {
    /// Applies a complete setup to an interface: first the MTU, then the
    /// address, if one is given and can be read, then the state, each by
    /// the name of the interface. The first step that fails ends the
    /// setup.
    pub fn apply_setup<N: NetlinkTransport, D: DbusTransport>(
        &self,
        manager: &NetworkManager<N, D>,
        interface: &str,
        state: &str,
        mtu: u32,
        address: Option<&str>,
    ) -> (r: Result<(AddressOutcome, LoadedState), Error>)
        ensures
            acts_in_order(
                manager.kernel(),
                manager.bus(),
                interface@,
                setup_actions(state@, mtu, address_view(address)),
                bare_result(r),
            ),
            r matches Ok(done) ==> done.0 == address_outcome_of(address_view(address)) && done.1
                == setup_state_of(state@),
            r matches Err(e) ==> e@ is Netlink || e@ == (ErrorModel::InterfaceNotFound {
                name: interface@,
            }),
    {
        let mut actions: Vec<LinkAction> = Vec::new();
        actions.push(LinkAction::SetMtu(mtu));
        let added = match address {
            None => AddressOutcome::NotAsked,
            Some(text) => match IpNetwork::parse(text) {
                Ok(network) => {
                    actions.push(LinkAction::AddAddress(network));
                    AddressOutcome::Added
                },
                Err(_) => AddressOutcome::Skipped,
            },
        };
        let set = if same_text(state, "up") {
            actions.push(LinkAction::SetUp);
            LoadedState::Up
        } else if same_text(state, "down") {
            actions.push(LinkAction::SetDown);
            LoadedState::Down
        } else {
            LoadedState::Unchanged
        };
        assert(actions_view(actions@) =~= setup_actions(state@, mtu, address_view(address)));
        match manager.run_by_name(interface, actions) {
            Err(e) => Err(e),
            Ok(_) => Ok((added, set)),
        }
    }
}

} // verus!
