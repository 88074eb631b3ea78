//! Trustless multi-party escrow state machine.
//!
//! A group of participants each deposit a fixed buy-in into a custodial
//! balance that no single key controls; the organizer later releases the
//! balance to one or more recipients; once the round has expired, any party
//! may trigger per-participant refunds without the organizer's cooperation.
//!
//! The library holds the verified core: the round lifecycle, the guards on
//! every fund movement, and the accounting that reconciles the custodial pot
//! against deposits, distributions and refunds. The ledger substrate that
//! actually moves currency and persists records is driven from outside; each
//! operation here reports the single custody transfer it requires.

pub mod address;
pub mod engine;
pub mod laws;
pub mod pool;
pub mod state;
