//! What the library reads of the configuration.

use vstd::prelude::*;
use vstd::string::StringExecFns;

verus! {

/// Where to look, and how to delete. The library reads both and changes
/// neither.
#[derive(Clone, Debug, PartialEq, Eq)]
pub struct Config {
    /// Directory to search for conflicts and duplicates.
    pub working_directory: String,
    /// Command that moves a file to the trash.
    pub trash_command: String,
}

/// The trash command of a configuration that names none.
pub fn default_trash_command() -> (command: String)
    ensures
        command@ == "trash"@,
{
    String::from_str("trash")
}

impl Config {
    /// A configuration for `working_directory` with the default trash command.
    pub fn new(working_directory: String) -> (config: Config)
        ensures
            config.working_directory == working_directory,
            config.trash_command@ == "trash"@,
    {
        Config { working_directory, trash_command: default_trash_command() }
    }
}

} // verus!
