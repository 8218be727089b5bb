//! Late binding of an MPI installation behind a vendor-neutral ABI.
//!
//! The crate holds the decisions of the binding layer as verified code on
//! plain values: how the status record is laid out for each pointer width,
//! how the indirection library comes to be open exactly once, how named
//! symbols and constants are resolved at most once and then served from a
//! memo, and what is reported when any of this fails. Reading the
//! environment, opening the library and calling into it are left to the
//! caller, who performs the action that each step asks for and hands the
//! outcome back.

#![allow(non_camel_case_types)]
#![allow(non_snake_case)]

pub mod constants;
pub mod error;
pub mod loader;
pub mod types;
