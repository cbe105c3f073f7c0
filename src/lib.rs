//! Composition of the layers of a ledger command line (operation mode,
//! network, server, leaf operation), their canonical flag form and its
//! parser, the contexts derived between layers, transaction assembly, and the
//! broadcast retry state machine.

pub mod account;
pub mod args;
pub mod broadcast;
pub mod cli;
pub mod commands;
pub mod decimal;
pub mod network;
pub mod transaction;
pub mod view;
