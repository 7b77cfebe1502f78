//! Inspection and adjustment of the turbo power limits, thermal target and
//! turbo ratios of a processor through its model-specific registers.
//!
//! `registers` holds the bit layouts, `policy` the rules a request must meet,
//! `session` the order of register accesses a request leads to, `bank` an
//! in-memory set of registers that a request can run against, and `platform`
//! the processors the layouts belong to.
pub mod bank;
pub mod platform;
pub mod policy;
pub mod registers;
pub mod session;
