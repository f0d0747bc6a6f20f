//! An asynchronous command broker: callers submit named commands, a remote
//! consumer claims them by polling and posts back correlated results, and
//! every failure path (nobody polls, the consumer never answers, the consumer
//! disappears) unregisters the identifier so that no state leaks and no result
//! reaches the wrong caller.

pub mod auth;
pub mod broker;
pub mod cli;
pub mod endpoints;
pub mod laws;
pub mod paths;
