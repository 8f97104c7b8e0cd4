use vstd::prelude::*;

verus! {

/// The command line of the tool.
pub struct Cli {
    pub command: Option<Commands>,
}

/// What the tool is asked to do.
pub enum Commands {
    /// Register windows to a special workspace.
    Register { register_command: RegisterCommand },
    /// Remove a special workspace.
    Unregister { name: String },
    /// Toggle a managed special workspace.
    Toggle { name: String },
    /// Debug printouts.
    Debug { command: Option<DebugCommand> },
}

/// Which windows go to a special workspace.
pub enum RegisterCommand {
    /// Windows that a command spawns.
    Command { name: String, command: String },
    /// All windows of a class.
    Class { name: String, class: String },
    /// The active window, with an optional keybind to toggle the workspace.
    Active { name: String, keybind: Option<String>, force_keybind: bool },
}

/// What to print.
pub enum DebugCommand {
    All,
    Workspaces,
    Clients,
    ActiveClient,
    Binds,
    ExecActive { command: String },
}

} // verus!
