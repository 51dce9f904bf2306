//! Configuration core for programmable macropads: the data model describing a
//! device and its per-layer key mappings, the grammar that parses an action
//! string into typed key actions, and the validator that checks a whole
//! configuration against the capability limits of a device family.

pub mod config;
pub mod consts;
pub mod keyboard;
pub mod mapping;
pub mod text;
pub mod validate;
