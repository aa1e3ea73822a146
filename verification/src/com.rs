//! The connection to a host application.

pub mod com_module;
