//! The commands of the command line, as plain values, and what each of
//! them decides before it acts.

pub mod address;
pub mod apply;
pub mod backup;
pub mod completion;
pub mod dashboard;
pub mod diff;
pub mod doctor;
pub mod export;
pub mod history;
pub mod link;
pub mod profile;
pub mod show;
pub mod stats;
pub mod test;
pub mod tui;
pub mod validate;
pub mod watch;
pub mod wizard;

use vstd::prelude::*;

verus! {

/// The command line: the options for all commands and the command.
#[derive(Debug, Clone, PartialEq, Eq)]
pub struct Cli {
    /// Report more.
    pub verbose: bool,
    /// The command.
    pub command: Commands,
}

/// The commands.
#[derive(Debug, Clone, PartialEq, Eq)]
pub enum Commands {
    /// Show network interfaces.
    Show(show::ShowArgs),
    /// Manage network links.
    Link(link::LinkCommand),
    /// Manage IP addresses.
    Address(address::AddressCommand),
    /// The interactive dashboard.
    Tui(tui::TuiArgs),
    /// Watch interfaces.
    Watch(watch::WatchArgs),
    /// Manage network profiles.
    Profile(profile::ProfileCommand),
    /// Apply a declarative configuration from a file.
    Apply(apply::ApplyArgs),
    /// Compare network configurations.
    Diff(diff::DiffArgs),
    /// The interactive configuration wizard.
    Wizard(wizard::WizardArgs),
    /// Run system diagnostics.
    Doctor(doctor::DoctorArgs),
    /// Show network statistics.
    Stats(stats::StatsArgs),
    /// Validate a configuration file.
    Validate(validate::ValidateArgs),
    /// Generate shell completion scripts.
    Completion(completion::CompletionArgs),
    /// Manage the configuration history.
    History(history::HistoryCommand),
    /// Back up and restore the configuration.
    Backup(backup::BackupCommand),
    /// Test connectivity.
    Test(test::TestCommand),
    /// Export the configuration to a file.
    Export(export::ExportArgs),
}

} // verus!
