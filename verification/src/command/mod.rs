//! The command system: parsing, permissions, the handler registry and routing.

pub mod context;
pub mod gateway;
pub mod parser;
pub mod permission;
pub mod registry;

pub use context::CommandContext;
pub use gateway::{CommandGateway, Route};
pub use parser::{ParsedCommand, Parser};
pub use permission::Permission;
pub use registry::{CommandInfo, CommandRegistry, SubCommand};
