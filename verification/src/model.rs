//! The rules of the state machine, stated over the mathematical models of
//! the records: for each operation, the reason for which it is rejected, if
//! any, and what it leaves behind when it is not.

use vstd::prelude::*;
use crate::errors::Errors;
use crate::events::{NotificationView, ReceiptView, TransferView};
use crate::state::{CampaignStatus, CampaignView, ContributionView};

verus! {

/// Why a campaign with these parameters cannot be created at time `now`, if
/// it cannot.
pub open spec fn creation_rejection(goal: nat, start_at: int, end_at: int, now: int) -> Option<
    Errors,
> {
    if start_at < now {
        Some(Errors::InvalidStartTime)
    } else if end_at <= start_at {
        Some(Errors::InvalidWindow)
    } else if goal == 0 {
        Some(Errors::InvalidGoal)
    } else {
        None
    }
}

/// The campaign that a creation with these parameters yields: active, with
/// nothing donated, not complete and not claimed.
pub open spec fn new_campaign(
    key: Seq<u8>,
    title: Seq<char>,
    description: Seq<char>,
    org_name: Seq<char>,
    project_link: Seq<char>,
    project_image: Seq<char>,
    goal: nat,
    start_at: int,
    end_at: int,
    authority: Seq<u8>,
) -> CampaignView {
    CampaignView {
        key,
        title,
        description,
        org_name,
        project_link,
        project_image,
        authority,
        goal,
        total_donated: 0,
        donation_completed: false,
        claimed: false,
        start_at,
        end_at,
        status: CampaignStatus::Active,
    }
}

/// The notification of a campaign's creation.
pub open spec fn creation_notice(c: CampaignView) -> NotificationView {
    NotificationView::CampaignCreated {
        campaign: c.key,
        title: c.title,
        description: c.description,
        goal: c.goal,
        start_at: c.start_at,
        end_at: c.end_at,
    }
}

/// Why `caller` cannot cancel the campaign at time `now`, if they cannot.
/// Only an active campaign is cancelled: a campaign that is cancelled or
/// closed keeps its status.
pub open spec fn cancellation_rejection(c: CampaignView, caller: Seq<u8>, now: int) -> Option<
    Errors,
> {
    if now >= c.start_at {
        Some(Errors::AlreadyStarted)
    } else if caller != c.authority {
        Some(Errors::Unauthorized)
    } else if c.status != CampaignStatus::Active {
        Some(Errors::NotActive)
    } else {
        None
    }
}

/// The campaign once it is cancelled.
pub open spec fn after_cancellation(c: CampaignView) -> CampaignView {
    CampaignView { status: CampaignStatus::Cancelled, ..c }
}

/// Why `caller` cannot change the campaign's descriptive texts, if they
/// cannot.
pub open spec fn update_rejection(c: CampaignView, caller: Seq<u8>) -> Option<Errors> {
    if caller != c.authority {
        Some(Errors::Unauthorized)
    } else {
        None
    }
}

/// A text after an update: the new one where one is supplied, else the old.
pub open spec fn replaced(old_text: Seq<char>, new_text: Option<Seq<char>>) -> Seq<char> {
    match new_text {
        Some(t) => t,
        None => old_text,
    }
}

/// The campaign once the supplied texts have replaced the old ones.
pub open spec fn after_update(
    c: CampaignView,
    title: Option<Seq<char>>,
    description: Option<Seq<char>>,
    org_name: Option<Seq<char>>,
    project_link: Option<Seq<char>>,
    project_image: Option<Seq<char>>,
) -> CampaignView {
    CampaignView {
        title: replaced(c.title, title),
        description: replaced(c.description, description),
        org_name: replaced(c.org_name, org_name),
        project_link: replaced(c.project_link, project_link),
        project_image: replaced(c.project_image, project_image),
        ..c
    }
}

/// The notification of an update, given the campaign as updated.
pub open spec fn update_notice(c: CampaignView) -> NotificationView {
    NotificationView::CampaignMetadataUpdated {
        campaign: c.key,
        title: c.title,
        description: c.description,
    }
}

/// Why `caller` cannot move the end of the window to `new_end_at` at time
/// `now`, if they cannot.
pub open spec fn extension_rejection(
    c: CampaignView,
    caller: Seq<u8>,
    new_end_at: int,
    now: int,
) -> Option<Errors> {
    if new_end_at <= c.end_at {
        Some(Errors::WindowTooShort)
    } else if new_end_at <= now {
        Some(Errors::InvalidStartTime)
    } else if caller != c.authority {
        Some(Errors::Unauthorized)
    } else {
        None
    }
}

/// The campaign once its window ends at `new_end_at`.
pub open spec fn after_extension(c: CampaignView, new_end_at: int) -> CampaignView {
    CampaignView { end_at: new_end_at, ..c }
}

/// Why `caller` cannot close the campaign at time `now`, if they cannot.
/// Only an active campaign is closed: a campaign that is cancelled or closed
/// keeps its status.
pub open spec fn closure_rejection(c: CampaignView, caller: Seq<u8>, now: int) -> Option<Errors> {
    if now <= c.end_at {
        Some(Errors::NotYetOver)
    } else if caller != c.authority {
        Some(Errors::Unauthorized)
    } else if c.status != CampaignStatus::Active {
        Some(Errors::NotActive)
    } else {
        None
    }
}

/// The campaign once it is closed.
pub open spec fn after_closure(c: CampaignView) -> CampaignView {
    CampaignView { status: CampaignStatus::Closed, ..c }
}

/// The part of an offered amount that a campaign takes: never more than what
/// is missing to its goal.
pub open spec fn accepted_amount(c: CampaignView, amount: nat) -> nat {
    if amount <= c.remaining() {
        amount
    } else {
        c.remaining()
    }
}

/// Why a donation of `amount` by a donor who holds `available` is rejected
/// at time `now`, if it is.
pub open spec fn donation_rejection(c: CampaignView, amount: nat, now: int, available: nat) -> Option<
    Errors,
> {
    if now < c.start_at {
        Some(Errors::NotStarted)
    } else if now > c.end_at {
        Some(Errors::CampaignOver)
    } else if c.donation_completed {
        Some(Errors::GoalAlreadyMet)
    } else if amount == 0 {
        Some(Errors::ZeroAmount)
    } else if available < accepted_amount(c, amount) {
        Some(Errors::InsufficientFunds)
    } else {
        None
    }
}

/// The campaign once `accepted` more has reached its escrow.
pub open spec fn after_donation(c: CampaignView, accepted: nat) -> CampaignView {
    CampaignView {
        total_donated: c.total_donated + accepted,
        donation_completed: c.donation_completed || c.total_donated + accepted >= c.goal,
        ..c
    }
}

/// The donor's contribution once `accepted` more has been paid in.
pub open spec fn contribution_after_donation(
    k: ContributionView,
    donor: Seq<u8>,
    accepted: nat,
) -> ContributionView {
    ContributionView { authority: donor, amount: k.amount + accepted }
}

/// What an accepted donation hands back: `accepted` moves from the donor
/// into the campaign's escrow, and the notification reports that amount.
pub open spec fn donation_receipt(c: CampaignView, donor: Seq<u8>, accepted: nat) -> ReceiptView {
    ReceiptView {
        transfer: TransferView { from: donor, to: c.key, amount: accepted },
        notification: NotificationView::DonationReceived {
            campaign: c.key,
            donor: donor,
            amount: accepted,
        },
    }
}


/// Why the contribution `k` cannot be paid back at time `now` out of an
/// escrow that holds `available`, if it cannot.
pub open spec fn refund_rejection(
    c: CampaignView,
    k: ContributionView,
    now: int,
    available: nat,
) -> Option<Errors> {
    if now <= c.end_at {
        Some(Errors::NotYetOver)
    } else if c.donation_completed {
        Some(Errors::GoalAlreadyMet)
    } else if k.amount == 0 {
        Some(Errors::NothingToRefund)
    } else if available < k.amount {
        Some(Errors::InsufficientFunds)
    } else {
        None
    }
}

/// The contribution once it has been paid back: nothing is outstanding.
pub open spec fn after_refund(k: ContributionView) -> ContributionView {
    ContributionView { amount: 0, ..k }
}

/// The transfer that pays the contribution `k` back: all of it moves from
/// the campaign's escrow to the donor.
pub open spec fn refund_transfer(c: CampaignView, k: ContributionView, donor: Seq<u8>) -> TransferView {
    TransferView { from: c.key, to: donor, amount: k.amount }
}

/// What a refund asked for as the cancellation of a donation hands back.
pub open spec fn cancelled_donation_receipt(
    c: CampaignView,
    k: ContributionView,
    donor: Seq<u8>,
) -> ReceiptView {
    ReceiptView {
        transfer: refund_transfer(c, k, donor),
        notification: NotificationView::DonationCancelled {
            campaign: c.key,
            donor: donor,
            amount: k.amount,
        },
    }
}

/// What a refund asked for as such hands back.
pub open spec fn refunded_donation_receipt(
    c: CampaignView,
    k: ContributionView,
    donor: Seq<u8>,
) -> ReceiptView {
    ReceiptView {
        transfer: refund_transfer(c, k, donor),
        notification: NotificationView::DonationRefunded {
            campaign: c.key,
            donor: donor,
            amount: k.amount,
        },
    }
}

/// Why `caller` cannot claim the campaign's funds at time `now` out of an
/// escrow that holds `available`, if they cannot.
pub open spec fn claim_rejection(c: CampaignView, caller: Seq<u8>, now: int, available: nat) -> Option<
    Errors,
> {
    if now <= c.end_at {
        Some(Errors::NotYetOver)
    } else if !c.donation_completed {
        Some(Errors::GoalNotMet)
    } else if c.claimed {
        Some(Errors::AlreadyClaimed)
    } else if caller != c.authority {
        Some(Errors::Unauthorized)
    } else if available < c.total_donated {
        Some(Errors::InsufficientFunds)
    } else {
        None
    }
}

/// The campaign once its funds are claimed.
pub open spec fn after_claim(c: CampaignView) -> CampaignView {
    CampaignView { claimed: true, ..c }
}

/// What an accepted claim hands back: everything donated moves from escrow
/// to the authority, and the notification reports that amount.
pub open spec fn claim_receipt(c: CampaignView) -> ReceiptView {
    ReceiptView {
        transfer: TransferView { from: c.key, to: c.authority, amount: c.total_donated },
        notification: NotificationView::DonationsClaimed {
            campaign: c.key,
            amount: c.total_donated,
        },
    }
}

/// One operation on a campaign, with its inputs. A refund is not among
/// them: it changes the contribution and leaves the campaign as it is.
pub enum Operation {
    Cancel { caller: Seq<u8>, now: int },
    Update {
        caller: Seq<u8>,
        title: Option<Seq<char>>,
        description: Option<Seq<char>>,
        org_name: Option<Seq<char>>,
        project_link: Option<Seq<char>>,
        project_image: Option<Seq<char>>,
    },
    Extend { caller: Seq<u8>, new_end_at: int, now: int },
    Close { caller: Seq<u8>, now: int },
    Donate { amount: nat, now: int, available: nat },
    Claim { caller: Seq<u8>, now: int, available: nat },
}

/// Why the operation is rejected on the campaign `c`, if it is.
pub open spec fn rejection(c: CampaignView, op: Operation) -> Option<Errors> {
    match op {
        Operation::Cancel { caller, now } => cancellation_rejection(c, caller, now),
        Operation::Update { caller, .. } => update_rejection(c, caller),
        Operation::Extend { caller, new_end_at, now } => extension_rejection(
            c,
            caller,
            new_end_at,
            now,
        ),
        Operation::Close { caller, now } => closure_rejection(c, caller, now),
        Operation::Donate { amount, now, available } => donation_rejection(
            c,
            amount,
            now,
            available,
        ),
        Operation::Claim { caller, now, available } => claim_rejection(c, caller, now, available),
    }
}

/// The campaign after the operation was attempted: as the operation leaves
/// it where it is accepted, unchanged where it is rejected.
pub open spec fn step(c: CampaignView, op: Operation) -> CampaignView {
    if rejection(c, op) is Some {
        c
    } else {
        match op {
            Operation::Cancel { .. } => after_cancellation(c),
            Operation::Update {
                title,
                description,
                org_name,
                project_link,
                project_image,
                ..
            } => after_update(c, title, description, org_name, project_link, project_image),
            Operation::Extend { new_end_at, .. } => after_extension(c, new_end_at),
            Operation::Close { .. } => after_closure(c),
            Operation::Donate { amount, .. } => after_donation(c, accepted_amount(c, amount)),
            Operation::Claim { .. } => after_claim(c),
        }
    }
}

/// The campaign after the operations were attempted one after the other.
pub open spec fn run(c: CampaignView, ops: Seq<Operation>) -> CampaignView
    decreases ops.len(),
{
    if ops.len() == 0 {
        c
    } else {
        step(run(c, ops.drop_last()), ops.last())
    }
}

/// How many claims were accepted while the operations were attempted one
/// after the other.
pub open spec fn claims_accepted(c: CampaignView, ops: Seq<Operation>) -> nat
    decreases ops.len(),
{
    if ops.len() == 0 {
        0
    } else {
        let before = run(c, ops.drop_last());
        let earlier = claims_accepted(c, ops.drop_last());
        if ops.last() is Claim && rejection(before, ops.last()) is None {
            earlier + 1
        } else {
            earlier
        }
    }
}

} // verus!
