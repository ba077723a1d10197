//! A bridge between a test orchestrator and a live SAP GUI session.
//!
//! A caller submits requests: to reset the session, to list the instructions
//! that are offered, or to run a batch of instruction calls in order. The
//! engine validates each call, connects to the application on first need,
//! resolves addresses into components, narrows each component to the
//! capability that the operation asks for, and collects outputs and evidence.
//! A batch ends with what all of its calls gave or with the one error that
//! stopped it.
//!
//! The application itself is reached through a driver that this crate does not
//! hold. The engine asks the driver one question at a time and decides on each
//! answer, so that every decision is made here, on plain values:
//!
//! - [`kind`] and [`capability`]: the kinds of object that there are, what each
//!   kind can do, and the resolution of a component into a capability view;
//! - [`values`], [`descriptor`], [`catalog`] and [`registry`]: typed values,
//!   the schema of an instruction, the instructions that there are, and the
//!   registry that offers them;
//! - [`validate`]: a call held to the schema of its instruction;
//! - [`session`]: the one connection to the application;
//! - [`evidence`] and [`protocol`]: what goes into requests and responses;
//! - [`model`] and [`engine`]: what the engine does, stated over plain values,
//!   and the code that does it;
//! - [`laws`]: what holds of every batch;
//! - [`codec`]: the framing of request lines;
//! - [`text`]: comparing and joining text.

pub mod capability;
pub mod catalog;
pub mod codec;
pub mod descriptor;
pub mod engine;
pub mod evidence;
pub mod kind;
pub mod laws;
pub mod model;
pub mod protocol;
pub mod registry;
pub mod session;
pub mod text;
pub mod validate;
pub mod values;
