//! A fixed-capacity byte stack served through a per-session guard.
//!
//! The stack holds at most [`stack::CAPACITY`] bytes in a fixed row of
//! optional slots; pushing onto a full stack fails with
//! [`stack::StackError::Overflow`] and popping from an empty one with
//! [`stack::StackError::Underflow`], leaving the stack unchanged either way.
//! Each opened session owns one such stack behind a two-state lock that
//! serializes push and pop requests; sessions share nothing with each other.
//! Device registration, request-code decoding and user-space copies belong
//! to the host platform around this crate.

pub mod laws;
pub mod session;
pub mod stack;
