//! Data-access core of a multi-tenant personal-finance backend.
//!
//! The library holds everything that decides: how a stored-procedure call is
//! put together, how result rows become typed entities, which cache keys an
//! operation reads, writes and drops, and in which order a service operation
//! talks to the cache and to the relational store. It performs no I/O. Each
//! service operation is a small machine: the caller performs the action the
//! machine asks for and feeds the outcome back as an event.

pub mod modules;
pub mod shared;
