//! A startup-report library: it builds an ordered sequence of report entries
//! from a configuration snapshot, renders them line by line to a text sink,
//! and reconciles the running version against a release tag fetched by the
//! caller.

pub mod banner;
pub mod checker;
pub mod config;
pub mod entry;
pub mod sink;
pub mod style;
pub mod text;
