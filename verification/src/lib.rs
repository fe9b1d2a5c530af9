//! A typed, ownership-checked access layer for a native key-value engine.
//!
//! The engine sits behind a narrow boundary: every operation is a
//! [`call::Call`] handed to it, and everything it answers is a
//! [`call::Reply`]. This crate decides what crosses that boundary and what an
//! answer means; it never touches the engine itself.
//!
//! - [`codes`]: the integer codes of log severities, modes and the other
//!   closed sets of options, and the way back from a code.
//! - [`view`]: borrowed views of bytes, and terminated buffers for
//!   identifiers and paths.
//! - [`call`]: the calls and replies, and their mathematical models.
//! - [`instance`]: setting the engine up, opening a store, and the handle
//!   that owns an open store until it is closed.
//! - [`accessor`]: for each type of value the call that writes it, the call
//!   that reads it, and the meaning of the reply.
//! - [`model`]: what the layer expects of an engine, as a state and a step.
//! - [`engine`]: an engine in memory that does what the model says.
//! - [`laws`]: what follows for a caller, proved over the model.

pub mod accessor;
pub mod call;
pub mod codes;
pub mod engine;
pub mod instance;
pub mod laws;
pub mod model;
pub mod view;
