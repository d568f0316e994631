//! The modes in which the services run.

use vstd::prelude::*;
use crate::common::text::same_text;

verus! {

/// What a run of the program does.
#[derive(Debug, Clone, Copy, PartialEq, Eq, Structural)]
pub enum Mode {
    /// Processes the archive of compressed blocks.
    BlockParser,
    /// Takes transactions from the bus.
    TransactionSubscriber,
    /// Exports the store by day.
    Local,
    /// Imports exported files.
    Remote,
    /// Reconciles two stores.
    SyncCheck,
}

/// The mode that a name names.
pub open spec fn mode_named(name: Seq<char>) -> Option<Mode> {
    if name == "block_parser"@ {
        Some(Mode::BlockParser)
    } else if name == "transaction_subscriber"@ {
        Some(Mode::TransactionSubscriber)
    } else if name == "local"@ {
        Some(Mode::Local)
    } else if name == "remote"@ {
        Some(Mode::Remote)
    } else if name == "sync-check"@ {
        Some(Mode::SyncCheck)
    } else {
        None
    }
}

impl Mode {
    /// The mode that `name` names; an invalid mode is none.
    pub fn parse(name: &str) -> (mode: Option<Mode>)
        ensures
            mode == mode_named(name@),
    {
        if same_text(name, "block_parser") {
            Some(Mode::BlockParser)
        } else if same_text(name, "transaction_subscriber") {
            Some(Mode::TransactionSubscriber)
        } else if same_text(name, "local") {
            Some(Mode::Local)
        } else if same_text(name, "remote") {
            Some(Mode::Remote)
        } else if same_text(name, "sync-check") {
            Some(Mode::SyncCheck)
        } else {
            None
        }
    }

    /// Whether the mode needs a configuration file: every mode but the
    /// reconciliation, which can take its settings from flags.
    pub fn needs_config_file(&self) -> (needed: bool)
        ensures
            needed == (*self != Mode::SyncCheck),
    {
        match self {
            Mode::SyncCheck => false,
            _ => true,
        }
    }
}

} // verus!
