//! A "bang"-style command dispatcher: short tokens typed into a search box
//! are resolved, through a fixed command table, to destination URLs.
pub mod commands;
pub mod laws;
pub mod text;
