//! A virtual pet as a message-driven state machine.
//!
//! The pet's three well-being scores decay with the blocks that pass and are
//! restored by care. Its owner can hand it on or approve another account.
//! It asks a token ledger and an attribute store for services, and it checks
//! its own state at fixed intervals, alerting its owner from reservations of
//! execution credit that the owner has made.
//!
//! The pet never talks to its host. Every entry point takes what the host
//! knows of the current message as plain values and returns what the host is
//! to do next; the host hands back what came of it. Each entry point is
//! proved against a transition function over the pet's view, and the laws of
//! the machine are proved of that function.

pub mod actor;
pub mod decay;
pub mod identity;
pub mod laws;
pub mod mediator;
pub mod message;
pub mod ownership;
pub mod pet;
pub mod scheduler;
