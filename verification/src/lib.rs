//! The placement core of a tiling window manager: a tree of window and group
//! nodes whose structural edits are logged and later realised in one
//! proportional resize pass.

pub mod additions;
pub mod changes;
pub mod commit;
pub mod display_server;
pub mod geometry;
pub mod layout;
pub mod managers;
