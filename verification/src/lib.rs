pub mod ai;
pub mod cli;
pub mod color;
pub mod commit;
pub mod config;
pub mod error;
pub mod git;
pub mod hook;
pub mod revise;
pub mod text;

pub use cli::{AICommand, ReviseCommands};
pub use config::ReviseConfig;
pub use error::{ReviseError, ReviseResult};
