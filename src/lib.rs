//! Account sign-up, sign-in and bearer-token authentication, plus per-account
//! task records, written as transaction-scoped state machines.
//!
//! Each use case is a flow: it is started from a request, hands the caller an
//! [`flow::Action`] to perform against the store (begin, select, insert,
//! commit, rollback), and is resumed with the matching [`flow::Event`] until it
//! returns its outcome. The decisions, the order of the store operations and
//! the error taxonomy are verified; the store itself is driven by the caller.
use vstd::prelude::*;

pub mod error;
pub mod model;
pub mod password;
pub mod token;
pub mod flow;
pub mod config;
pub mod auth;
pub mod todo;
pub mod module;
pub mod store;
pub mod run;
pub mod laws;
