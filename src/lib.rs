//! Desktop bootstrapper logic: where the runtime and the application bundle
//! live, the install state machine that fetches and unpacks them, and the
//! terminal session that drives the runtime.

pub mod text;
pub mod install;
pub mod runs;
pub mod session;
pub mod paths;
pub mod layout;
pub mod state;
pub mod response;
