//! Calls between the components of one workload.
//!
//! When a component imports a function that another component exports, the call
//! goes down one of two paths, by its signature:
//!
//! - the shared-store path, where the callee has an instance in the caller's store
//!   and handles cross the boundary by identity, and
//! - the ephemeral path, where a call of plain values runs in a store of its own.
//!
//! The library decides and the host acts: [`store`], [`ephemeral`] and [`invoke`]
//! hold what is done step by step, with an action for the host at each step; the
//! modules whose names end in `_laws` hold what is true of every run of the steps.
//! [`template`] and [`ctx`] say what a component's context is made from,
//! [`limits`] and [`sockets`] what a guest may do, and [`signature`] which path a
//! call may take.

pub mod component_types;
pub mod ctx;
pub mod ephemeral;
pub mod ephemeral_laws;
pub mod error;
pub mod invoke;
pub mod invoke_laws;
pub mod limits;
pub mod plan_laws;
pub mod signature;
pub mod sockets;
pub mod store;
pub mod store_laws;
pub mod str_map;
pub mod template;
pub mod text;
pub mod text_laws;
