//! The commands of the tool, as plain data.

use crate::manifest::IncludeEntry;
use vstd::prelude::*;
use vstd::std_specs::convert::FromSpecImpl;

verus! {

/// The whole command line: a command, and whether to log verbosely.
#[derive(Debug, PartialEq, Eq)]
pub struct DSDMArgs {
    pub cmd: DSDMCommands,
    pub verbose: bool,
}

/// The two families of commands.
#[derive(Debug, PartialEq, Eq)]
pub enum DSDMCommands {
    /// Create, destroy and apply modules.
    Module(ModuleCommand),
    /// Print pieces of debug information.
    Debug(DebugCommand),
}

/// A command on a module.
#[derive(Debug, PartialEq, Eq)]
pub struct ModuleCommand {
    pub cmd: ModuleSubCommand,
}

/// A debug command.
#[derive(Debug, PartialEq, Eq)]
pub struct DebugCommand {
    pub cmd: DebugSubCommand,
}

/// What can be printed for debugging.
#[derive(Debug, PartialEq, Eq)]
pub enum DebugSubCommand {
    /// The decoded manifest of a module.
    Module(ModuleArgs),
    /// The decoded global defaults.
    Global,
}

/// What can be done with a module.
#[derive(Debug, PartialEq, Eq)]
pub enum ModuleSubCommand {
    /// Generate a fresh module from the manifest template.
    Create(ModuleArgs),
    /// Delete a module.
    Destroy(ModuleArgs),
    /// Render a module and the modules it names into the export tree.
    Apply(ModuleArgs),
    /// Print the tree of modules that a module names.
    Deps(ModuleArgs),
}

/// A reference to a module: its title and the subdirectory of the store it
/// lives in, if any.
#[derive(Debug, Clone, PartialEq, Eq)]
pub struct ModuleArgs {
    pub title: String,
    pub subdir: Option<String>,
}

/// A module named by its title alone.
#[derive(Debug, PartialEq, Eq)]
pub struct ModuleWrapper {
    pub title: String,
}

impl From<IncludeEntry> for ModuleArgs {
    /// The reference to the module that a manifest entry names.
    fn from(entry: IncludeEntry) -> (args: ModuleArgs) {
        ModuleArgs { title: entry.module, subdir: entry.path }
    }
}

impl FromSpecImpl<IncludeEntry> for ModuleArgs {
    open spec fn obeys_from_spec() -> bool {
        true
    }

    open spec fn from_spec(entry: IncludeEntry) -> ModuleArgs {
        ModuleArgs { title: entry.module, subdir: entry.path }
    }
}

} // verus!
