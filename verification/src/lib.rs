//! The deciding half of an nginx module framework.
//!
//! nginx drives a module through raw callbacks, hands it memory from pools it
//! owns, and reads directive tables laid out to its own conventions. Everything
//! in this crate is the part of that exchange which can be decided from plain
//! values: which bits a directive registers, what a callback answers when a
//! pointer is null, what an allocation asks of the pool and in what order, how
//! a configuration value inherits from the scope around it. Addresses are
//! `usize` values with `0` for null; whoever embeds the crate performs the
//! calls into nginx and reports what came back.
pub mod base;
pub mod http;
