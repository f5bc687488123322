//! A command-line client library for searching Copr repositories and
//! planning their installation through the system package manager.
pub mod text;
pub mod error;
pub mod report;
pub mod install;
pub mod action;
pub mod dispatch;
