//! A per-user custodial vault with a two-day time lock on withdrawals.
//!
//! Every user owns one state record and one vault, both at addresses derived
//! from the user's identity. The four lifecycle operations validate the
//! accounts they are handed, move funds between the balances of those
//! accounts and report what happened as an event.

pub mod address;
pub mod state;
pub mod accounts;
pub mod program;
pub mod laws;
