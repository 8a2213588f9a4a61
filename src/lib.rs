//! A registry of adoptable pets: owner-gated registration, first-claim-wins
//! adoption and a donation ledger, as a verified state machine. The host
//! supplies the caller, the owner and the attached amount of each call.

pub mod laws;
pub mod shelter;
