//! Safe dispatch surface of a developer control panel: validation of command
//! keys, construction of the script invocations they stand for, and parsing of
//! what the socket-listing tool and the project registry hand back.

pub mod decimal;
pub mod dispatch;
pub mod error;
pub mod key;
pub mod ports;
pub mod registry;
pub mod shell;
pub mod text;
pub mod token;
pub mod verbs;
