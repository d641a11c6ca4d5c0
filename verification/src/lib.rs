//! Crowdfunding campaigns: the campaign and contribution state machine and
//! the rules by which funds move between donors, escrow and a campaign's
//! authority.
//!
//! The records and what an operation hands back are in [`state`] and
//! [`events`]; [`instructions`] holds the operations. Their contracts are
//! stated over the rules in [`model`]. What follows from the rules for every
//! order of operations is proved in [`laws`], for a single campaign, and in
//! [`books`], for a campaign together with its contributions and its escrow.
//!
//! The core neither reads a clock nor moves funds nor sends anything. The
//! caller hands in the time and the balance of the holding that a transfer
//! would debit, and carries out what an accepted operation hands back.

pub mod books;
pub mod errors;
pub mod events;
pub mod identity;
pub mod instructions;
pub mod laws;
pub mod model;
pub mod state;
