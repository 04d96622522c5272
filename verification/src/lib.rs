//! A single-address-space teaching operating environment: a stack-based
//! command interpreter drives the interactive shell and every installed
//! application, a capability broker mediates each application's access to the
//! display, keyboard and process control, and a launch pipeline turns a
//! textual path into a running application.

pub mod app;
pub mod apps;
pub mod decimal;
pub mod display;
pub mod files;
pub mod forth;
pub mod input;
pub mod launch;
pub mod path;
pub mod stack;
pub mod strutil;
