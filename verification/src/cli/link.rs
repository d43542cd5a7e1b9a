//! The `link` command: properties of an interface.

use vstd::prelude::*;
use crate::client::NetlinkTransport;
use crate::dbus::DbusTransport;
use crate::error::{Error, ErrorModel};
use crate::error::unit_result;
use crate::manager::{acts_by_name, by_name_outcome, LinkAction, LinkActionModel, NetworkManager};
use crate::text::{parse_unsigned, read_unsigned, same_text, to_chars};

verus! {

/// The `link` command.
#[derive(Debug, Clone, PartialEq, Eq)]
pub struct LinkCommand {
    pub command: LinkSubcommand,
}

/// What to do with a link.
#[derive(Debug, Clone, PartialEq, Eq)]
pub enum LinkSubcommand {
    /// Set a property of a link.
    SetProperty(SetArgs),
}

/// The arguments of `link set`.
#[derive(Debug, Clone, PartialEq, Eq)]
pub struct SetArgs {
    /// The name of the interface.
    pub interface: String,
    /// The property: `state`, `mtu` or `mac`.
    pub property: String,
    /// The value to set.
    pub value: String,
}

/// What `link set` is asked to do, as plain values.
pub enum SetRequest {
    /// Bring the interface up.
    Up,
    /// Bring the interface down.
    Down,
    /// Set the MTU.
    Mtu(u32),
    /// The state is neither `up` nor `down`.
    BadState,
    /// The MTU is no number.
    BadMtu,
    /// The hardware address cannot be set yet.
    Mac,
    /// The property is none of `state`, `mtu`, `mac`.
    UnknownProperty,
}

/// What the property and the value ask for.
pub open spec fn set_request(property: Seq<char>, value: Seq<char>) -> SetRequest {
    if property == "state"@ {
        if value == "up"@ {
            SetRequest::Up
        } else if value == "down"@ {
            SetRequest::Down
        } else {
            SetRequest::BadState
        }
    } else if property == "mtu"@ {
        match parse_unsigned(value, 0xffff_ffff) {
            Some(mtu) => SetRequest::Mtu(mtu as u32),
            None => SetRequest::BadMtu,
        }
    } else if property == "mac"@ {
        SetRequest::Mac
    } else {
        SetRequest::UnknownProperty
    }
}

/// The action that the property and the value ask for, if they ask for
/// one.
pub open spec fn planned_action(property: Seq<char>, value: Seq<char>) -> Option<LinkActionModel> {
    match set_request(property, value) {
        SetRequest::Up => Some(LinkActionModel::SetUp),
        SetRequest::Down => Some(LinkActionModel::SetDown),
        SetRequest::Mtu(mtu) => Some(LinkActionModel::SetMtu(mtu)),
        _ => None,
    }
}

/// The message for a request that cannot be made.
pub open spec fn refusal_message(property: Seq<char>, value: Seq<char>) -> Seq<char> {
    match set_request(property, value) {
        SetRequest::BadState => "Invalid state '"@ + value + "'. Use 'up' or 'down'"@,
        SetRequest::BadMtu => "Invalid MTU '"@ + value + "'. Must be a number"@,
        SetRequest::Mac => "MAC address setting not yet implemented. Property: "@ + property
            + ", Value: "@ + value,
        _ => "Unknown property '"@ + property + "'. Valid properties: state, mtu, mac"@,
    }
}

impl SetArgs {
    /// What is to be done to the interface, decided from the property
    /// and the value alone: `state` with `up` or `down`, or `mtu` with a
    /// number. Anything else is refused with a message that says why.
    pub fn plan(&self) -> (r: Result<LinkAction, Error>)
        ensures
            match set_request(self.property@, self.value@) {
                SetRequest::Up => r == Ok::<LinkAction, Error>(LinkAction::SetUp),
                SetRequest::Down => r == Ok::<LinkAction, Error>(LinkAction::SetDown),
                SetRequest::Mtu(mtu) => r == Ok::<LinkAction, Error>(LinkAction::SetMtu(mtu)),
                _ => r matches Err(e) && e@ == ErrorModel::Generic(
                    refusal_message(self.property@, self.value@),
                ),
            },
    {
        let property = self.property.as_str();
        let value = self.value.as_str();
        if same_text(property, "state") {
            if same_text(value, "up") {
                Ok(LinkAction::SetUp)
            } else if same_text(value, "down") {
                Ok(LinkAction::SetDown)
            } else {
                let mut text = "Invalid state '".to_owned();
                text.append(value);
                text.append("'. Use 'up' or 'down'");
                Err(Error::Generic(text))
            }
        } else if same_text(property, "mtu") {
            let chars = to_chars(value);
            match read_unsigned(&chars, 0xffff_ffff) {
                Some(mtu) => Ok(LinkAction::SetMtu(mtu as u32)),
                None => {
                    let mut text = "Invalid MTU '".to_owned();
                    text.append(value);
                    text.append("'. Must be a number");
                    Err(Error::Generic(text))
                },
            }
        } else if same_text(property, "mac") {
            let mut text = "MAC address setting not yet implemented. Property: ".to_owned();
            text.append(property);
            text.append(", Value: ");
            text.append(value);
            Err(Error::Generic(text))
        } else {
            let mut text = "Unknown property '".to_owned();
            text.append(property);
            text.append("'. Valid properties: state, mtu, mac");
            Err(Error::Generic(text))
        }
    }

    /// Decides what is to be done, and has the manager do it: the name
    /// is resolved, and the action that was asked for is made on the link
    /// found. A request that is refused asks nothing of the kernel.
    pub fn execute<N: NetlinkTransport, D: DbusTransport>(
        &self,
        manager: &NetworkManager<N, D>,
    ) -> (r: Result<(), Error>)
        ensures
            planned_action(self.property@, self.value@) matches Some(action) ==> acts_by_name(
                manager.kernel(),
                manager.bus(),
                self.interface@,
                action,
                unit_result(r),
            ),
            match set_request(self.property@, self.value@) {
                SetRequest::Up => by_name_outcome(r, self.interface@, false),
                SetRequest::Down => by_name_outcome(r, self.interface@, false),
                SetRequest::Mtu(_) => by_name_outcome(r, self.interface@, false),
                _ => r matches Err(e) && e@ == ErrorModel::Generic(
                    refusal_message(self.property@, self.value@),
                ),
            },
    {
        match self.plan() {
            Err(e) => Err(e),
            Ok(action) => manager.by_name(self.interface.as_str(), action),
        }
    }
}

} // verus!
