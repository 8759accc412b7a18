//! Helpers shared by the settings modules: text, numbers, commands and
//! names.
pub mod cmd_output_helper;
pub mod dbus_helper;
pub mod file_helper;
pub mod decimal;
pub mod format_helper;
pub mod pattern;
pub mod search;
pub mod sorting;
pub mod text;

pub use cmd_output_helper::{
    exec_cmd, exec_pipe_cmd, exec_spawn_cmd, get_bool_yesno, get_list_by_sep, get_val_from_keyval,
    Command, CommandError, Output,
};
pub use dbus_helper::{dbus_call_init_system, Arg, Bus, MethodCall};
pub use format_helper::{to_account_name, to_formatted_name};
