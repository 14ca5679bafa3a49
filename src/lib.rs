//! Profile-driven subcommands: named profiles per subcommand, the shared
//! profile lookup, and for each subcommand the ordered external operations
//! that one invocation performs.

pub mod bluetoothctl;
pub mod config;
pub mod dispatch;
pub mod git;
pub mod profiles;
pub mod subcommand;
