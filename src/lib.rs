//! A desktop application's fixed configuration table and the pure part of its
//! script-invoking command.
pub mod config;
pub mod script;
