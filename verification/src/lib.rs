//! Composition of request-handler decorators.
//!
//! A [`layer::Layer`] wraps a handler in another handler.
//! A [`builder::ServiceBuilder`] collects layers in the order they are
//! chained, and then either wraps one handler with all of them or becomes a
//! [`builder::ServiceBuilderMaker`], which wraps every handler that a factory
//! makes. The layer chained last ends up outermost: it sees a request first.
//!
//! The library never looks inside a handler or a request. Its contracts say
//! which layer is handed what, in which order, and whose error comes back;
//! [`laws`] proves what follows from them for every builder.

pub mod builder;
pub mod laws;
pub mod layer;
