//! The binding layer of an incremental SAT engine, without the engine.
//!
//! The engine is reached through a handful of calls: add a literal, assume a
//! literal, solve, read a value, ask whether an assumption failed, register a
//! termination callback. This crate holds everything a binding decides around
//! those calls: which calls are made and in what order, how the answers are
//! read, when a query is legal, and when a running solve is told to stop. It
//! makes none of the calls itself. Every operation hands back the requests to
//! perform and takes the engine's answer as an argument, so the same verified
//! logic runs against the native engine or against a stand-in.
//!
//! - [`literal`]: what may be handed to the engine as a literal.
//! - [`engine`]: the requests, the protocol's numbers, and how answers read.
//! - [`model`]: what the engine holds after a sequence of requests.
//! - [`callbacks`] and [`timeout`]: strategies that stop a running solve.
//! - [`solver`]: the session that ties them together.

pub mod callbacks;
pub mod engine;
pub mod literal;
pub mod model;
pub mod solver;
pub mod timeout;

pub use callbacks::Callbacks;
pub use engine::Request;
pub use literal::{are_literals, is_literal};
pub use solver::Solver;
pub use timeout::Timeout;
