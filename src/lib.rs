//! Dated workspace directories: naming, URL classification, and the
//! interactive picker's selection model, with their contracts.

pub mod text;
pub mod date;
pub mod naming;
pub mod paths;
pub mod picker;
pub mod order;
pub mod cli;
pub mod workspace;
pub mod shell;
pub mod creation;
