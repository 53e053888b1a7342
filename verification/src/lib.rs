//! Native backend of a desktop application shell: a stable machine
//! identifier, autostart registration, a secure credential store, and
//! window/tray control, each exposed as a small command with an exact
//! contract.

pub mod autostart;
pub mod hex;
pub mod machine_id;
pub mod messages;
pub mod store;
pub mod tray;
pub mod window;
