//! The `history` command: earlier configurations.

use vstd::prelude::*;

verus! {

/// The `history` command.
#[derive(Debug, Clone, PartialEq, Eq)]
pub struct HistoryCommand {
    pub command: HistorySubcommand,
}

/// What to do with the history.
#[derive(Debug, Clone, PartialEq, Eq)]
pub enum HistorySubcommand {
    /// List the entries.
    List(ListArgs),
    /// Show one entry.
    Show(ShowArgs),
    /// Go back to an entry.
    Rollback(RollbackArgs),
    /// Remove all entries.
    Clear(ClearArgs),
}

/// The arguments of `history list`.
#[derive(Debug, Clone, PartialEq, Eq)]
pub struct ListArgs {
    /// How many entries to show at most.
    pub limit: usize,
}

/// The arguments of `history show`.
#[derive(Debug, Clone, PartialEq, Eq)]
pub struct ShowArgs {
    /// The identifier of the entry.
    pub id: String,
}

/// The arguments of `history rollback`.
#[derive(Debug, Clone, PartialEq, Eq)]
pub struct RollbackArgs {
    /// The identifier of the entry.
    pub id: String,
    /// Do not ask before going back.
    pub yes: bool,
}

/// The arguments of `history clear`.
#[derive(Debug, Clone, PartialEq, Eq)]
pub struct ClearArgs {
    /// Do not ask before clearing.
    pub yes: bool,
}

/// One entry of the history.
#[derive(Debug, Clone, PartialEq, Eq)]
pub struct HistoryEntry {
    /// The identifier of the entry.
    pub id: String,
    /// When the entry was made.
    pub timestamp: String,
    /// The operation that the entry was made for.
    pub operation: String,
    /// What the operation was about.
    pub description: String,
    /// The state of the network at that time, as JSON.
    pub state: String,
}

impl ListArgs {
    /// How many of `total` entries are shown: all of them, or as many as
    /// the limit allows.
    pub fn shown(&self, total: usize) -> (n: usize)
        ensures
            n == if total <= self.limit {
                total
            } else {
                self.limit
            },
    {
        if total <= self.limit {
            total
        } else {
            self.limit
        }
    }

    /// How many of `total` entries are left out.
    pub fn left_out(&self, total: usize) -> (n: usize)
        ensures
            n == if total <= self.limit {
                0
            } else {
                total - self.limit
            },
    {
        if total <= self.limit {
            0
        } else {
            total - self.limit
        }
    }
}

/// The description of the snapshot that is taken before a rollback to the
/// entry `id`.
pub fn rollback_description(id: &str) -> (text: String)
    ensures
        text@ == "Rollback to "@ + id@,
{
    let mut text = "Rollback to ".to_owned();
    text.append(id);
    text
}

} // verus!
