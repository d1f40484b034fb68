//! Builder-pattern variants for constructing a client descriptor: a URL plus
//! an HTTP method. Four builders construct the same descriptor with different
//! levels of required-field enforcement, from deferred runtime checks up to
//! typestate markers that make an incomplete build unrepresentable.

pub mod basic;
pub mod consuming;
pub mod descriptor;
pub mod laws;
pub mod markers;
pub mod multi;
pub mod state;
pub mod typestate;
