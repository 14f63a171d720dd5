//! Core of a small text-chat service.
//!
//! Clients send one command per line; a session is a state machine that
//! starts anonymous, may authenticate against a user directory, and while
//! authenticated can relay text to other online sessions through their
//! message sinks.  The directory, the presence registry and the per-command
//! decision logic live here, fully specified; transport and persistence are
//! left to the surrounding program.

pub mod directory;
pub mod parser;
pub mod presence;
pub mod session;
pub mod sink;
pub mod table;

pub use directory::Directory;
pub use directory::User;
pub use parser::parseCommand;
pub use parser::parseLogin;
pub use parser::parseQuit;
pub use parser::parseReg;
pub use parser::parseText;
pub use parser::Command;
pub use presence::Presence;
pub use session::Action;
pub use session::ChatServer;
pub use session::Reply;
pub use session::Session;
