//! Log output settings.

use vstd::prelude::*;

verus! {

/// Shape of the log output.
#[derive(Debug, Clone, Copy, PartialEq, Eq, Structural)]
pub enum LogFormat {
    Pretty,
    Json,
}

/// Most verbose level that is still written.
#[derive(Debug, Clone, Copy, PartialEq, Eq, Structural)]
pub enum LogLevel {
    Info,
    Debug,
    Trace,
}

impl LogLevel {
    /// The filter directive of this level, as characters.
    pub open spec fn directive(self) -> Seq<char> {
        match self {
            LogLevel::Info => "info"@,
            LogLevel::Debug => "debug"@,
            LogLevel::Trace => "trace"@,
        }
    }

    /// The filter directive that selects this level.
    pub fn as_str(&self) -> (s: &'static str)
        ensures
            s@ == self.directive(),
    {
        match self {
            LogLevel::Info => "info",
            LogLevel::Debug => "debug",
            LogLevel::Trace => "trace",
        }
    }
}

} // verus!
