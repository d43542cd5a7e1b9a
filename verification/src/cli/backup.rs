//! The `backup` command: saved copies of the configuration.

use vstd::prelude::*;
use crate::cli::apply::texts_view;
use crate::cli::diff::{snapshot_of, text_view, InterfaceState, InterfaceStateModel};
use crate::cli::profile::LoadedState;
use crate::client::NetlinkTransport;
use crate::dbus::DbusTransport;
use crate::error::{bare_result, Error, ErrorModel};
use crate::manager::{acts_in_order, actions_view, LinkAction, LinkActionModel, NetworkManager};
use crate::network::{LinkInfo, LinkInfoModel};
use crate::text::same_text;

verus! {

/// The `backup` command.
#[derive(Debug, Clone, PartialEq, Eq)]
pub struct BackupCommand {
    pub command: BackupSubcommand,
}

/// What to do with backups.
#[derive(Debug, Clone, PartialEq, Eq)]
pub enum BackupSubcommand {
    /// Save the configuration as it is now.
    Create(CreateArgs),
    /// List the backups.
    List,
    /// Bring a backup back.
    Restore(RestoreArgs),
    /// Remove a backup.
    Delete(DeleteArgs),
    /// Write a backup to a file.
    Export(ExportArgs),
}

/// The arguments of `backup create`.
#[derive(Debug, Clone, PartialEq, Eq)]
pub struct CreateArgs {
    /// The name of the backup.
    pub name: String,
    /// What the backup is for.
    pub description: Option<String>,
}

/// The arguments of `backup restore`.
#[derive(Debug, Clone, PartialEq, Eq)]
pub struct RestoreArgs {
    /// The name of the backup.
    pub name: String,
    /// Do not ask before restoring.
    pub yes: bool,
}

/// The arguments of `backup delete`.
#[derive(Debug, Clone, PartialEq, Eq)]
pub struct DeleteArgs {
    /// The name of the backup.
    pub name: String,
}

/// The arguments of `backup export`.
#[derive(Debug, Clone, PartialEq, Eq)]
pub struct ExportArgs {
    /// The name of the backup.
    pub name: String,
    /// The path of the file to write.
    pub output: String,
}

/// One interface in a backup.
#[derive(Debug, Clone, PartialEq, Eq)]
pub struct InterfaceBackup {
    pub name: String,
    pub index: u32,
    pub state: String,
    pub mtu: u32,
    pub mac_address: Option<String>,
    pub addresses: Vec<String>,
}

/// A saved copy of the configuration.
#[derive(Debug, Clone, PartialEq, Eq)]
pub struct Backup {
    pub name: String,
    pub description: Option<String>,
    pub created_at: String,
    pub interfaces: Vec<InterfaceBackup>,
}

/// An [`InterfaceBackup`] as plain values: the index that the interface
/// had, and its state as text.
pub struct InterfaceBackupModel {
    pub index: u32,
    pub saved: InterfaceStateModel,
}

impl View for InterfaceBackup {
    type V = InterfaceBackupModel;

    open spec fn view(&self) -> InterfaceBackupModel {
        InterfaceBackupModel {
            index: self.index,
            saved: InterfaceStateModel {
                name: self.name@,
                state: self.state@,
                mtu: self.mtu,
                mac: text_view(self.mac_address),
                addresses: texts_view(self.addresses@),
            },
        }
    }
}

/// A link as it is saved in a backup: its index, and its state as text.
pub open spec fn backed_up(link: LinkInfoModel) -> InterfaceBackupModel {
    InterfaceBackupModel { index: link.index, saved: snapshot_of(link) }
}

impl InterfaceBackup {
    /// A link as it is saved in a backup.
    pub fn from_link(link: &LinkInfo) -> (iface: InterfaceBackup)
        ensures
            iface@ == backed_up(link@),
    {
        let state = InterfaceState::from_link(link);
        InterfaceBackup {
            name: state.name,
            index: link.index,
            state: state.state,
            mtu: state.mtu,
            mac_address: state.mac,
            addresses: state.addresses,
        }
    }
}

impl Backup {
    /// The backup of the given links, made at the given time.
    pub fn of_links(
        name: String,
        description: Option<String>,
        created_at: String,
        links: &Vec<LinkInfo>,
    ) -> (backup: Backup)
        ensures
            backup.name@ == name@,
            text_view(backup.description) == text_view(description),
            backup.created_at@ == created_at@,
            backup.interfaces@.len() == links@.len(),
            forall|i: int|
                0 <= i < links@.len() ==> (#[trigger] backup.interfaces@[i])@ == backed_up(
                    links@[i]@,
                ),
    {
        let mut interfaces: Vec<InterfaceBackup> = Vec::new();
        let mut i: usize = 0;
        while i < links.len()
            invariant
                0 <= i <= links@.len(),
                interfaces@.len() == i,
                forall|k: int|
                    0 <= k < i ==> (#[trigger] interfaces@[k])@ == backed_up(links@[k]@),
            decreases links@.len() - i,
        {
            interfaces.push(InterfaceBackup::from_link(&links[i]));
            i += 1;
        }
        Backup { name, description, created_at, interfaces }
    }
}

impl CreateArgs {
    /// The backup of the given links, made at the given time under the
    /// name and the description of the arguments.
    pub fn backup(&self, links: &Vec<LinkInfo>, created_at: String) -> (backup: Backup)
        ensures
            backup.name@ == self.name@,
            text_view(backup.description) == text_view(self.description),
            backup.created_at@ == created_at@,
            backup.interfaces@.len() == links@.len(),
            forall|i: int|
                0 <= i < links@.len() ==> (#[trigger] backup.interfaces@[i])@ == backed_up(
                    links@[i]@,
                ),
    {
        let description = match &self.description {
            Some(d) => Some(d.clone()),
            None => None,
        };
        Backup::of_links(self.name.clone(), description, created_at, links)
    }
}

/// The name of the backup that is made before one is restored: the lead
/// `auto_before_restore_` and the time stamp.
pub open spec fn auto_backup_name(stamp: Seq<char>) -> Seq<char> {
    "auto_before_restore_"@ + stamp
}

/// The description of the backup that is made before the backup `name` is
/// restored.
pub open spec fn auto_backup_description(name: Seq<char>) -> Seq<char> {
    "Automatic backup before restoring '"@ + name + "'"@
}

/// What the state of a backup asks for: `Up` and `Down` as they are
/// written, anything else nothing.
pub open spec fn restored_state(state: Seq<char>) -> LoadedState {
    if state == "Up"@ {
        LoadedState::Up
    } else if state == "Down"@ {
        LoadedState::Down
    } else {
        LoadedState::Unchanged
    }
}

/// What restoring asks of the kernel for one interface of a backup: the
/// MTU, then the state if it is `Up` or `Down`.
pub open spec fn restore_actions(iface: InterfaceBackupModel) -> Seq<LinkActionModel> {
    match restored_state(iface.saved.state) {
        LoadedState::Up => seq![LinkActionModel::SetMtu(iface.saved.mtu), LinkActionModel::SetUp],
        LoadedState::Down => seq![
            LinkActionModel::SetMtu(iface.saved.mtu),
            LinkActionModel::SetDown,
        ],
        LoadedState::Unchanged => seq![LinkActionModel::SetMtu(iface.saved.mtu)],
    }
}

impl RestoreArgs {
    /// The backup of the state as it is, made before the backup `restored`
    /// is brought back.
    pub fn auto_backup(restored: &str, stamp: &str, created_at: String, links: &Vec<LinkInfo>) -> (backup: Backup)
        ensures
            backup.name@ == auto_backup_name(stamp@),
            text_view(backup.description) == Some(auto_backup_description(restored@)),
            backup.created_at@ == created_at@,
            backup.interfaces@.len() == links@.len(),
            forall|i: int|
                0 <= i < links@.len() ==> (#[trigger] backup.interfaces@[i])@ == backed_up(
                    links@[i]@,
                ),
    {
        let mut name = "auto_before_restore_".to_owned();
        name.append(stamp);
        let mut description = "Automatic backup before restoring '".to_owned();
        description.append(restored);
        description.append("'");
        Backup::of_links(name, Some(description), created_at, links)
    }

    /// Brings one interface to what the backup says: first the MTU, then
    /// the state, if it is `Up` or `Down`, each by the name of the
    /// interface. The first step that fails ends the restoring. The
    /// addresses of the backup are not restored.
    pub fn restore_interface<N: NetlinkTransport, D: DbusTransport>(
        &self,
        manager: &NetworkManager<N, D>,
        iface: &InterfaceBackup,
    ) -> (r: Result<LoadedState, Error>)
        ensures
            acts_in_order(
                manager.kernel(),
                manager.bus(),
                iface@.saved.name,
                restore_actions(iface@),
                bare_result(r),
            ),
            r matches Ok(done) ==> done == restored_state(iface@.saved.state),
            r matches Err(e) ==> e@ is Netlink || e@ == (ErrorModel::InterfaceNotFound {
                name: iface@.saved.name,
            }),
    {
        let mut actions: Vec<LinkAction> = Vec::new();
        actions.push(LinkAction::SetMtu(iface.mtu));
        let done = if same_text(iface.state.as_str(), "Up") {
            actions.push(LinkAction::SetUp);
            LoadedState::Up
        } else if same_text(iface.state.as_str(), "Down") {
            actions.push(LinkAction::SetDown);
            LoadedState::Down
        } else {
            LoadedState::Unchanged
        };
        assert(actions_view(actions@) =~= restore_actions(iface@));
        match manager.run_by_name(iface.name.as_str(), actions) {
            Err(e) => Err(e),
            Ok(_) => Ok(done),
        }
    }
}

} // verus!
