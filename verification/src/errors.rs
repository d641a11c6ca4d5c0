//! The reasons for which an operation is rejected.

use vstd::prelude::*;

verus! {

/// Why an operation was rejected. A rejected operation changes no record
/// and moves no funds.
#[derive(Clone, Copy, Debug, PartialEq, Eq, Hash, Structural)]
pub enum Errors {
    /// A campaign may not start in the past, and an extended window may not
    /// end at or before the present.
    InvalidStartTime,
    /// A campaign's window must end after it starts.
    InvalidWindow,
    /// An extension must move the end of the window strictly later.
    WindowTooShort,
    /// The goal must be positive.
    InvalidGoal,
    /// A campaign can only be cancelled before it starts.
    AlreadyStarted,
    /// Donations are not accepted before the window opens.
    NotStarted,
    /// Donations are not accepted after the window has closed.
    CampaignOver,
    /// The goal has been reached: no further donation and no refund.
    GoalAlreadyMet,
    /// A donation must offer a positive amount.
    ZeroAmount,
    /// Funds are settled only after the window has closed.
    NotYetOver,
    /// Only a campaign that reached its goal can be claimed.
    GoalNotMet,
    /// The escrowed funds have been withdrawn already.
    AlreadyClaimed,
    /// The contribution holds nothing that could be paid back.
    NothingToRefund,
    /// The holding to be debited does not cover the transfer.
    InsufficientFunds,
    /// The caller is not the campaign's authority.
    Unauthorized,
    /// The campaign is cancelled or closed already: its status is final.
    NotActive,
}

} // verus!
