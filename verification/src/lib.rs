//! Host-side logic of a plugin runner: command-line intent, verb dispatch,
//! the script invocation protocol, and the shaping of transport responses
//! handed back into the script environment.

pub mod dispatch;
pub mod params;
pub mod response;
pub mod script;
pub mod session;

pub use params::Params;
