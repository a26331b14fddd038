//! Values exchanged with the front end.

use vstd::prelude::*;
use crate::config::DshEntry;

verus! {

/// Where the runtime lives, for the diagnostics view. Each entry is absent
/// when it could not be determined.
#[derive(Debug)]
pub struct RuntimeInfo {
    pub app_data: Option<String>,
    pub dsh_home: Option<String>,
    pub dsh_pkg: Option<String>,
    pub node_dir: Option<String>,
    pub logs: Option<String>,
    pub node_resolved: Option<String>,
    pub dsh_resolved: Option<String>,
}

/// A failed command, as the front end receives it.
#[derive(Debug)]
pub struct CmdError {
    message: String,
}

impl CmdError {
    /// The text of this error.
    pub closed spec fn message_view(&self) -> Seq<char> {
        self.message@
    }

    /// An error with this text.
    pub fn from_message(message: String) -> (e: CmdError)
        ensures
            e.message_view() == message@,
    {
        CmdError { message }
    }

    /// The text of this error.
    pub fn message(&self) -> (m: &str)
        ensures
            m@ == self.message_view(),
    {
        self.message.as_str()
    }
}

/// How the service will be started, for the diagnostics view:
/// `node <script>` for a script, the executable's path otherwise.
pub open spec fn entry_description(entry: DshEntry<String>) -> Seq<char> {
    match entry {
        DshEntry::NodeScript(p) => "node "@ + p@,
        DshEntry::Executable(p) => p@,
    }
}

/// How the service will be started, for the diagnostics view.
pub fn describe_entry(entry: &DshEntry<String>) -> (d: String)
    ensures
        d@ == entry_description(*entry),
{
    match entry {
        DshEntry::NodeScript(p) => {
            let mut d = "node ".to_owned();
            d.append(p.as_str());
            d
        },
        DshEntry::Executable(p) => p.as_str().to_owned(),
    }
}

} // verus!
