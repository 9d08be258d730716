//! Authentication policy configuration: typed parsing of the raw settings,
//! cross-field validation, and resolution of a principal's user role.

pub mod api;
pub mod config;
pub mod outside;
pub mod parse;
pub mod index_meta;
pub mod text;
