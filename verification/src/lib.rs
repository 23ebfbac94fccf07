//! Command handlers that a desktop shell offers to its front end, written as
//! pure functions: the shell reads the process's state, hands it in as plain
//! values, and carries out whatever effect comes back.
//!
//! - `arguments` finds the description among the arguments that the process
//!   was started with.
//! - `directory` turns the operating system's answer on the working directory
//!   into text.
//! - `termination` says how the process is to end.
//! - `text` compares texts.

pub mod arguments;
pub mod directory;
pub mod termination;
pub mod text;

pub use arguments::get_description_from_args;
pub use directory::get_current_dir;
pub use termination::direct_exit;
pub use termination::print_and_exit;
pub use termination::Termination;
