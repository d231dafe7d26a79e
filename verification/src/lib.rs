//! A verified core for a desktop Kubernetes gateway.
//!
//! The library covers the pieces of the gateway that carry design weight:
//! a registry describing every supported resource kind and its capabilities,
//! a client gateway whose list/get/delete/scale/restart/list-events semantics
//! are specified against an explicit cluster model, an envelope type for
//! returning heterogeneous resources through one channel, a command builder
//! that assembles shell-safe `kubectl`-style command lines, and the state
//! machine driving the cross-platform terminal launcher.
//!
//! Network transport, credential storage, and process spawning are I/O and
//! live outside the library; they hand plain values in and take plain values
//! back.

pub mod command;
pub mod context;
pub mod envelope;
pub mod errors;
pub mod gateway;
pub mod ops;
pub mod registry;
pub mod terminal;
pub mod text;
