//! The operations on campaigns and contributions.
//!
//! An operation checks its preconditions in a fixed order and is rejected
//! with the first that fails; a rejected operation leaves every record as it
//! was. An accepted one updates the records and hands back what the
//! collaborators have to do: the notification to send and, where funds move,
//! the transfer to carry out.

use vstd::prelude::*;
use crate::errors::Errors;
use crate::events::{Notification, NotificationView, Receipt, Transfer};
use crate::identity::Identity;
use crate::model::{
    accepted_amount, after_cancellation, after_claim, after_closure, after_donation,
    after_extension, after_refund, after_update, cancellation_rejection,
    cancelled_donation_receipt, claim_receipt, claim_rejection, closure_rejection,
    contribution_after_donation, creation_notice, creation_rejection, donation_receipt,
    donation_rejection, extension_rejection, new_campaign, refund_rejection,
    refunded_donation_receipt, step, update_notice, update_rejection, Operation,
};
use crate::state::{Campaign, CampaignStatus, Contribution};

verus! {

/// Creates a campaign at time `now`, to be stored under `key` and managed by
/// `authority`.
///
/// The campaign may not start in the past, its window must end after it
/// starts, and its goal must be positive.
pub fn create_campaign(
    key: Identity,
    title: String,
    description: String,
    org_name: String,
    project_link: String,
    project_image: String,
    goal: u64,
    start_at: i64,
    end_at: i64,
    authority: Identity,
    now: i64,
) -> (r: Result<(Campaign, Notification), Errors>)
    ensures
        match creation_rejection(goal as nat, start_at as int, end_at as int, now as int) {
            Some(e) => r == Err::<(Campaign, Notification), Errors>(e),
            None => {
                &&& r is Ok
                &&& r.unwrap().0@ == new_campaign(
                    key@,
                    title@,
                    description@,
                    org_name@,
                    project_link@,
                    project_image@,
                    goal as nat,
                    start_at as int,
                    end_at as int,
                    authority@,
                )
                &&& r.unwrap().1@ == creation_notice(r.unwrap().0@)
                &&& r.unwrap().0@.wf()
            },
        },
{
    if start_at < now {
        return Err(Errors::InvalidStartTime);
    }
    if end_at <= start_at {
        return Err(Errors::InvalidWindow);
    }
    if goal == 0 {
        return Err(Errors::InvalidGoal);
    }
    let notification = Notification::CampaignCreated {
        campaign: key,
        title: title.clone(),
        description: description.clone(),
        goal,
        start_at,
        end_at,
    };
    let campaign = Campaign {
        key,
        title,
        description,
        org_name,
        project_link,
        project_image,
        authority,
        goal,
        total_donated: 0,
        donation_completed: false,
        claimed: false,
        start_at,
        end_at,
        status: CampaignStatus::Active,
    };
    Ok((campaign, notification))
}

/// Cancels a campaign at time `now`, which is possible only before it
/// starts and while it is active. No funds move: nothing can have been
/// donated yet.
pub fn cancel_campaign(campaign: &mut Campaign, caller: Identity, now: i64) -> (r: Result<
    Notification,
    Errors,
>)
    ensures
        match cancellation_rejection(old(campaign)@, caller@, now as int) {
            Some(e) => r == Err::<Notification, Errors>(e) && final(campaign)@ == old(campaign)@,
            None => {
                &&& r is Ok
                &&& r.unwrap()@ == (NotificationView::CampaignCancelled {
                    campaign: old(campaign)@.key,
                })
                &&& final(campaign)@ == after_cancellation(old(campaign)@)
            },
        },
        final(campaign)@ == step(
            old(campaign)@,
            (Operation::Cancel { caller: caller@, now: now as int }),
        ),
        old(campaign)@.wf() ==> final(campaign)@.wf(),
{
    if now >= campaign.start_at {
        return Err(Errors::AlreadyStarted);
    }
    if caller != campaign.authority {
        return Err(Errors::Unauthorized);
    }
    if campaign.status != CampaignStatus::Active {
        return Err(Errors::NotActive);
    }
    campaign.status = CampaignStatus::Cancelled;
    Ok(Notification::CampaignCancelled { campaign: campaign.key })
}

/// The text of an optional string.
pub open spec fn text_of(s: Option<String>) -> Option<Seq<char>> {
    match s {
        Some(t) => Some(t@),
        None => None,
    }
}

/// Replaces those descriptive texts of a campaign for which a new value is
/// supplied; the others stay. Neither the time nor the campaign's status
/// matters.
pub fn update_campaign_metadata(
    campaign: &mut Campaign,
    caller: Identity,
    title: Option<String>,
    description: Option<String>,
    org_name: Option<String>,
    project_link: Option<String>,
    project_image: Option<String>,
) -> (r: Result<Notification, Errors>)
    ensures
        match update_rejection(old(campaign)@, caller@) {
            Some(e) => r == Err::<Notification, Errors>(e) && final(campaign)@ == old(campaign)@,
            None => {
                &&& r is Ok
                &&& r.unwrap()@ == update_notice(final(campaign)@)
                &&& final(campaign)@ == after_update(
                    old(campaign)@,
                    text_of(title),
                    text_of(description),
                    text_of(org_name),
                    text_of(project_link),
                    text_of(project_image),
                )
            },
        },
        final(campaign)@ == step(
            old(campaign)@,
            (Operation::Update {
                caller: caller@,
                title: text_of(title),
                description: text_of(description),
                org_name: text_of(org_name),
                project_link: text_of(project_link),
                project_image: text_of(project_image),
            }),
        ),
        old(campaign)@.wf() ==> final(campaign)@.wf(),
{
    if caller != campaign.authority {
        return Err(Errors::Unauthorized);
    }
    if let Some(new_title) = title {
        campaign.title = new_title;
    }
    if let Some(new_description) = description {
        campaign.description = new_description;
    }
    if let Some(new_org_name) = org_name {
        campaign.org_name = new_org_name;
    }
    if let Some(new_project_link) = project_link {
        campaign.project_link = new_project_link;
    }
    if let Some(new_project_image) = project_image {
        campaign.project_image = new_project_image;
    }
    Ok(
        Notification::CampaignMetadataUpdated {
            campaign: campaign.key,
            title: campaign.title.clone(),
            description: campaign.description.clone(),
        },
    )
}

/// Moves the end of a campaign's window to `new_end_at`, which must lie
/// after the present end and after `now`.
pub fn extend_campaign(campaign: &mut Campaign, caller: Identity, new_end_at: i64, now: i64) -> (r:
    Result<Notification, Errors>)
    ensures
        match extension_rejection(old(campaign)@, caller@, new_end_at as int, now as int) {
            Some(e) => r == Err::<Notification, Errors>(e) && final(campaign)@ == old(campaign)@,
            None => {
                &&& r is Ok
                &&& r.unwrap()@ == (NotificationView::CampaignExtended {
                    campaign: old(campaign)@.key,
                    new_end_at: new_end_at as int,
                })
                &&& final(campaign)@ == after_extension(old(campaign)@, new_end_at as int)
            },
        },
        final(campaign)@ == step(
            old(campaign)@,
            (Operation::Extend { caller: caller@, new_end_at: new_end_at as int, now: now as int }),
        ),
        old(campaign)@.wf() ==> final(campaign)@.wf(),
{
    if new_end_at <= campaign.end_at {
        return Err(Errors::WindowTooShort);
    }
    if new_end_at <= now {
        return Err(Errors::InvalidStartTime);
    }
    if caller != campaign.authority {
        return Err(Errors::Unauthorized);
    }
    campaign.end_at = new_end_at;
    Ok(Notification::CampaignExtended { campaign: campaign.key, new_end_at })
}

/// Closes a campaign at time `now`, which is possible only after its window
/// and while it is active. Closing moves no funds: it is independent of
/// settlement.
pub fn close_campaign(campaign: &mut Campaign, caller: Identity, now: i64) -> (r: Result<
    Notification,
    Errors,
>)
    ensures
        match closure_rejection(old(campaign)@, caller@, now as int) {
            Some(e) => r == Err::<Notification, Errors>(e) && final(campaign)@ == old(campaign)@,
            None => {
                &&& r is Ok
                &&& r.unwrap()@ == (NotificationView::CampaignClosed {
                    campaign: old(campaign)@.key,
                })
                &&& final(campaign)@ == after_closure(old(campaign)@)
            },
        },
        final(campaign)@ == step(
            old(campaign)@,
            (Operation::Close { caller: caller@, now: now as int }),
        ),
        old(campaign)@.wf() ==> final(campaign)@.wf(),
{
    if now <= campaign.end_at {
        return Err(Errors::NotYetOver);
    }
    if caller != campaign.authority {
        return Err(Errors::Unauthorized);
    }
    if campaign.status != CampaignStatus::Active {
        return Err(Errors::NotActive);
    }
    campaign.status = CampaignStatus::Closed;
    Ok(Notification::CampaignClosed { campaign: campaign.key })
}

/// Donates to a campaign at time `now`. The donor offers `amount` and holds
/// `available`.
///
/// Only what is still missing to the goal is taken. That part moves from the
/// donor into escrow and is added to the campaign's total and to the donor's
/// contribution; the campaign is complete once the total reaches the goal.
/// Where the donation is accepted, the contribution must be able to hold
/// what is taken, as it always is where its amount is part of the
/// campaign's total.
pub fn donate(
    campaign: &mut Campaign,
    contribution: &mut Contribution,
    donor: Identity,
    amount: u64,
    now: i64,
    available: u64,
) -> (r: Result<Receipt, Errors>)
    requires
        donation_rejection(old(campaign)@, amount as nat, now as int, available as nat) is None
            ==> old(contribution)@.amount + accepted_amount(old(campaign)@, amount as nat)
            <= u64::MAX,
    ensures
        match donation_rejection(old(campaign)@, amount as nat, now as int, available as nat) {
            Some(e) => {
                &&& r == Err::<Receipt, Errors>(e)
                &&& final(campaign)@ == old(campaign)@
                &&& final(contribution)@ == old(contribution)@
            },
            None => {
                let accepted = accepted_amount(old(campaign)@, amount as nat);
                &&& r is Ok
                &&& r.unwrap()@ == donation_receipt(old(campaign)@, donor@, accepted)
                &&& final(campaign)@ == after_donation(old(campaign)@, accepted)
                &&& final(contribution)@ == contribution_after_donation(
                    old(contribution)@,
                    donor@,
                    accepted,
                )
            },
        },
        final(campaign)@ == step(
            old(campaign)@,
            (Operation::Donate {
                amount: amount as nat,
                now: now as int,
                available: available as nat,
            }),
        ),
        old(campaign)@.wf() ==> final(campaign)@.wf(),
        r is Ok && old(campaign)@.total_donated < old(campaign)@.goal ==> {
            let before = old(campaign)@;
            let after = final(campaign)@;
            &&& after.donation_completed <==> after.total_donated == after.goal
            &&& after.donation_completed <==> amount >= before.goal - before.total_donated
        },
{
    if let Some(reason) = campaign.rejects_donation(amount, now, available) {
        return Err(reason);
    }
    let accepted = campaign.accepted(amount);
    campaign.total_donated = campaign.total_donated + accepted;
    contribution.authority = donor;
    contribution.amount = contribution.amount + accepted;
    if campaign.total_donated >= campaign.goal {
        campaign.donation_completed = true;
    }
    Ok(
        Receipt {
            transfer: Transfer { from: donor, to: campaign.key, amount: accepted },
            notification: Notification::DonationReceived {
                campaign: campaign.key,
                donor,
                amount: accepted,
            },
        },
    )
}


/// Settles a contribution to a campaign that ended short of its goal: checks
/// that it can be paid back, empties it, and returns what it held.
fn settle(campaign: &Campaign, contribution: &mut Contribution, now: i64, available: u64) -> (r:
    Result<u64, Errors>)
    ensures
        match refund_rejection(campaign@, old(contribution)@, now as int, available as nat) {
            Some(e) => r == Err::<u64, Errors>(e) && final(contribution)@ == old(contribution)@,
            None => {
                &&& r == Ok::<u64, Errors>(old(contribution).amount)
                &&& final(contribution)@ == after_refund(old(contribution)@)
            },
        },
{
    if now <= campaign.end_at {
        return Err(Errors::NotYetOver);
    }
    if campaign.donation_completed {
        return Err(Errors::GoalAlreadyMet);
    }
    let amount = contribution.amount;
    if amount == 0 {
        return Err(Errors::NothingToRefund);
    }
    if available < amount {
        return Err(Errors::InsufficientFunds);
    }
    contribution.amount = 0;
    Ok(amount)
}

/// Pays a donor's outstanding contribution back at time `now`, after the
/// campaign has ended short of its goal. The escrow holds `available`.
///
/// All of the contribution moves from escrow to the donor, and the
/// contribution is emptied, so that it cannot be paid back again.
pub fn cancel_donation(
    campaign: &Campaign,
    contribution: &mut Contribution,
    donor: Identity,
    now: i64,
    available: u64,
) -> (r: Result<Receipt, Errors>)
    ensures
        match refund_rejection(campaign@, old(contribution)@, now as int, available as nat) {
            Some(e) => r == Err::<Receipt, Errors>(e) && final(contribution)@ == old(contribution)@,
            None => {
                &&& r is Ok
                &&& r.unwrap()@ == cancelled_donation_receipt(campaign@, old(contribution)@, donor@)
                &&& final(contribution)@ == after_refund(old(contribution)@)
            },
        },
{
    match settle(campaign, contribution, now, available) {
        Err(e) => Err(e),
        Ok(amount) => Ok(
            Receipt {
                transfer: Transfer { from: campaign.key, to: donor, amount },
                notification: Notification::DonationCancelled {
                    campaign: campaign.key,
                    donor,
                    amount,
                },
            },
        ),
    }
}

/// The same settlement as [`cancel_donation`] under its other name; only
/// the notification differs.
pub fn refund_donations(
    campaign: &Campaign,
    contribution: &mut Contribution,
    donor: Identity,
    now: i64,
    available: u64,
) -> (r: Result<Receipt, Errors>)
    ensures
        match refund_rejection(campaign@, old(contribution)@, now as int, available as nat) {
            Some(e) => r == Err::<Receipt, Errors>(e) && final(contribution)@ == old(contribution)@,
            None => {
                &&& r is Ok
                &&& r.unwrap()@ == refunded_donation_receipt(campaign@, old(contribution)@, donor@)
                &&& final(contribution)@ == after_refund(old(contribution)@)
            },
        },
{
    match settle(campaign, contribution, now, available) {
        Err(e) => Err(e),
        Ok(amount) => Ok(
            Receipt {
                transfer: Transfer { from: campaign.key, to: donor, amount },
                notification: Notification::DonationRefunded {
                    campaign: campaign.key,
                    donor,
                    amount,
                },
            },
        ),
    }
}

/// Claims the funds of a campaign that reached its goal, at time `now` after
/// its window. The escrow holds `available`.
///
/// Everything donated moves from escrow to the authority, once: the
/// campaign is marked as claimed and cannot be claimed again.
pub fn claim_donations(campaign: &mut Campaign, caller: Identity, now: i64, available: u64) -> (r:
    Result<Receipt, Errors>)
    ensures
        match claim_rejection(old(campaign)@, caller@, now as int, available as nat) {
            Some(e) => r == Err::<Receipt, Errors>(e) && final(campaign)@ == old(campaign)@,
            None => {
                &&& r is Ok
                &&& r.unwrap()@ == claim_receipt(old(campaign)@)
                &&& final(campaign)@ == after_claim(old(campaign)@)
            },
        },
        final(campaign)@ == step(
            old(campaign)@,
            (Operation::Claim { caller: caller@, now: now as int, available: available as nat }),
        ),
        old(campaign)@.wf() ==> final(campaign)@.wf(),
{
    if now <= campaign.end_at {
        return Err(Errors::NotYetOver);
    }
    if !campaign.donation_completed {
        return Err(Errors::GoalNotMet);
    }
    if campaign.claimed {
        return Err(Errors::AlreadyClaimed);
    }
    if caller != campaign.authority {
        return Err(Errors::Unauthorized);
    }
    let amount = campaign.total_donated;
    if available < amount {
        return Err(Errors::InsufficientFunds);
    }
    campaign.claimed = true;
    Ok(
        Receipt {
            transfer: Transfer { from: campaign.key, to: campaign.authority, amount },
            notification: Notification::DonationsClaimed { campaign: campaign.key, amount },
        },
    )
}

} // verus!
