//! Policy-enforcement validators over a UTXO-like cell ledger.
//!
//! A transaction consumes input cells and produces output cells; each
//! validator decides, from the executing script's identity and
//! configuration, whether the transaction is acceptable:
//!
//! * the fee-cap validator bounds how much capacity may be destroyed when
//!   a tracked asset cell is spent;
//! * the state validator lets a tracked cell's data payload evolve only
//!   along a fixed table of transitions while every other attribute of the
//!   cell stays frozen.
//!
//! Both validators are pure functions from plain values to an
//! accept/reject outcome; the host harness that queries the live
//! transaction context merely fills in those values.

pub mod args;
pub mod cell;
pub mod error;
pub mod fee;
pub mod hex;
pub mod matcher;
pub mod state;
