pub mod cli;
pub mod keybind;
pub mod register;
pub mod text;
pub mod wlr;
pub mod workspace;

pub use cli::{Cli, Commands, DebugCommand, RegisterCommand};
pub use keybind::{check_if_bound, parse_keybind, Error, LiveBind, Mod};
pub use register::{plan_register_active, plan_toggle, plan_unregister, Intent};
pub use workspace::{
    clients_with_class, find_workspace, is_special_workspace, prefix_workspace_name,
    prepend_workspace_prefix, windows_on, WorkspaceRef,
};
