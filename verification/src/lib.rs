//! Binding-friendly data model and request planning for Zenoh sessions.
//!
//! The library holds the plain-value side of a flat Zenoh binding: the QoS and
//! query enums handed across the FFI boundary, the data classes that decoded
//! replies and samples are turned into, key-expression checking, and the
//! rules that decide which options a request carries. Everything that talks to
//! a running Zenoh session lives outside this crate.

pub mod convert;
pub mod data;
pub mod error;
pub mod keyexpr;
pub mod qos;
pub mod query;
pub mod reply;
pub mod scout;

