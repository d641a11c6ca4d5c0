//! What holds of the state machine whatever operations are attempted, in
//! whatever order and by whomever.

use vstd::prelude::*;
use crate::errors::Errors;
use crate::events::NotificationView;
use crate::model::{
    accepted_amount, after_claim, after_donation, after_refund,
    cancellation_rejection, cancelled_donation_receipt, claim_rejection, claims_accepted,
    closure_rejection,
    contribution_after_donation, donation_receipt, donation_rejection, refund_rejection,
    refund_transfer, refunded_donation_receipt, rejection, run, step, Operation,
};
use crate::state::{CampaignStatus, CampaignView, ContributionView};

verus! {

/// An operation that is attempted on a well-formed campaign leaves a
/// well-formed campaign.
pub proof fn lemma_step_preserves_invariants(c: CampaignView, op: Operation)
    requires
        c.wf(),
    ensures
        step(c, op).wf(),
{
}

/// Whatever operations are attempted on a well-formed campaign, it stays
/// well-formed. In particular the total of the donations never exceeds the
/// goal.
pub proof fn lemma_run_preserves_invariants(c: CampaignView, ops: Seq<Operation>)
    requires
        c.wf(),
    ensures
        run(c, ops).wf(),
        run(c, ops).total_donated <= run(c, ops).goal,
    decreases ops.len(),
{
    if ops.len() > 0 {
        lemma_run_preserves_invariants(c, ops.drop_last());
        lemma_step_preserves_invariants(run(c, ops.drop_last()), ops.last());
    }
}

/// A campaign whose total does not exceed its goal takes of an offered
/// amount the lesser of that amount and what is missing to the goal, so
/// that the total still does not exceed the goal afterwards.
pub proof fn lemma_accepted_is_capped(c: CampaignView, amount: nat)
    requires
        c.total_donated <= c.goal,
    ensures
        accepted_amount(c, amount) == if amount <= c.goal - c.total_donated {
            amount as int
        } else {
            c.goal - c.total_donated
        },
        accepted_amount(c, amount) <= amount,
        after_donation(c, accepted_amount(c, amount)).total_donated <= c.goal,
{
}

/// A donation to a well-formed campaign that is accepted takes a positive
/// amount.
pub proof fn lemma_accepted_donation_is_positive(
    c: CampaignView,
    amount: nat,
    now: int,
    available: nat,
)
    requires
        c.wf(),
        donation_rejection(c, amount, now, available) is None,
    ensures
        accepted_amount(c, amount) > 0,
{
}

/// What an accepted donation moves into escrow is what it adds to the
/// campaign's total and to the donor's contribution.
pub proof fn lemma_donation_is_recorded_as_moved(
    c: CampaignView,
    k: ContributionView,
    donor: Seq<u8>,
    amount: nat,
)
    ensures
        ({
            let accepted = accepted_amount(c, amount);
            let moved = donation_receipt(c, donor, accepted).transfer.amount;
            &&& after_donation(c, accepted).total_donated == c.total_donated + moved
            &&& contribution_after_donation(k, donor, accepted).amount == k.amount + moved
        }),
{
}

/// Completion is never taken back: no operation resets it.
pub proof fn lemma_completion_is_permanent(c: CampaignView, ops: Seq<Operation>)
    requires
        c.donation_completed,
    ensures
        run(c, ops).donation_completed,
    decreases ops.len(),
{
    if ops.len() > 0 {
        lemma_completion_is_permanent(c, ops.drop_last());
    }
}

/// A well-formed campaign becomes complete by exactly that operation by
/// which its total reaches the goal.
pub proof fn lemma_completed_exactly_at_goal(c: CampaignView, op: Operation)
    requires
        c.wf(),
    ensures
        (!c.donation_completed && step(c, op).donation_completed) <==> (c.total_donated < c.goal
            && step(c, op).total_donated >= c.goal),
        step(c, op).goal == c.goal,
{
}

/// Only an accepted donation changes the total of a campaign, and only by
/// adding to it.
pub proof fn lemma_total_grows_by_donations_only(c: CampaignView, op: Operation)
    ensures
        step(c, op).total_donated >= c.total_donated,
        step(c, op).total_donated != c.total_donated ==> op is Donate && rejection(c, op) is None,
{
}

/// The claim is never taken back: no operation resets it.
pub proof fn lemma_claim_is_permanent(c: CampaignView, ops: Seq<Operation>)
    requires
        c.claimed,
    ensures
        run(c, ops).claimed,
    decreases ops.len(),
{
    if ops.len() > 0 {
        lemma_claim_is_permanent(c, ops.drop_last());
    }
}

/// Whatever operations are attempted, at most one claim is accepted: the
/// funds of a campaign are withdrawn once in its life, and not at all where
/// it was claimed before.
pub proof fn lemma_claimed_at_most_once(c: CampaignView, ops: Seq<Operation>)
    ensures
        claims_accepted(c, ops) <= 1,
        c.claimed ==> claims_accepted(c, ops) == 0,
        claims_accepted(c, ops) == 1 ==> run(c, ops).claimed,
    decreases ops.len(),
{
    if ops.len() > 0 {
        lemma_claimed_at_most_once(c, ops.drop_last());
        if c.claimed {
            lemma_claim_is_permanent(c, ops.drop_last());
        }
    }
}

/// A campaign is marked as claimed by an accepted claim and by nothing
/// else, and a claim is accepted only on a campaign that is not yet claimed.
pub proof fn lemma_claimed_is_set_by_claim_only(c: CampaignView, op: Operation)
    ensures
        (!c.claimed && step(c, op).claimed) <==> (op is Claim && rejection(c, op) is None),
        op is Claim && rejection(c, op) is None ==> !c.claimed,
{
}

/// A campaign that is claimed accepts no claim, whoever asks and whenever.
/// Once its window is over, the reason is that it has been claimed.
pub proof fn lemma_claimed_campaign_rejects_claims(
    c: CampaignView,
    caller: Seq<u8>,
    now: int,
    available: nat,
)
    requires
        c.wf(),
        c.claimed,
    ensures
        claim_rejection(c, caller, now, available) is Some,
        now > c.end_at ==> claim_rejection(c, caller, now, available) == Some(
            Errors::AlreadyClaimed,
        ),
{
}

/// A claim that follows an accepted claim is rejected, whoever makes it
/// and whenever; at the time of the first claim or later, or at any other
/// time after the window, because the campaign has been claimed.
pub proof fn lemma_second_claim_fails(
    c: CampaignView,
    first_caller: Seq<u8>,
    first_now: int,
    first_available: nat,
    second_caller: Seq<u8>,
    second_now: int,
    second_available: nat,
)
    requires
        claim_rejection(c, first_caller, first_now, first_available) is None,
    ensures
        claim_rejection(after_claim(c), second_caller, second_now, second_available) is Some,
        first_now <= second_now || second_now > c.end_at ==> claim_rejection(
            after_claim(c),
            second_caller,
            second_now,
            second_available,
        ) == Some(Errors::AlreadyClaimed),
{
}

/// A refund that follows an accepted refund of the same contribution is
/// rejected, whenever it is asked for; at the time of the first refund or
/// later, or at any other time after the window, because nothing is left
/// to pay back.
pub proof fn lemma_second_refund_fails(
    c: CampaignView,
    k: ContributionView,
    first_now: int,
    first_available: nat,
    second_now: int,
    second_available: nat,
)
    requires
        refund_rejection(c, k, first_now, first_available) is None,
    ensures
        refund_rejection(c, after_refund(k), second_now, second_available) is Some,
        first_now <= second_now || second_now > c.end_at ==> refund_rejection(
            c,
            after_refund(k),
            second_now,
            second_available,
        ) == Some(Errors::NothingToRefund),
{
}

/// The refund is one operation under two names: asked for as a refund or
/// as the cancellation of a donation, it orders the same transfer and
/// reports the same donor and amount.
pub proof fn lemma_refund_names_agree(c: CampaignView, k: ContributionView, donor: Seq<u8>)
    ensures
        cancelled_donation_receipt(c, k, donor).transfer == refunded_donation_receipt(
            c,
            k,
            donor,
        ).transfer,
        cancelled_donation_receipt(c, k, donor).notification == (
        NotificationView::DonationCancelled { campaign: c.key, donor: donor, amount: k.amount }),
        refunded_donation_receipt(c, k, donor).notification == (NotificationView::DonationRefunded {
            campaign: c.key,
            donor: donor,
            amount: k.amount,
        }),
{
}

/// A contribution that holds nothing is never paid back, however its
/// campaign stands: no refund moves funds a second time.
pub proof fn lemma_empty_contribution_is_not_refunded(
    c: CampaignView,
    k: ContributionView,
    now: int,
    available: nat,
)
    requires
        k.amount == 0,
    ensures
        refund_rejection(c, k, now, available) is Some,
        refund_rejection(c, k, now, available) != Some(Errors::InsufficientFunds),
{
}

/// An accepted refund moves all that the contribution held, which is
/// positive, and leaves nothing in it.
pub proof fn lemma_refund_consumes_contribution(
    c: CampaignView,
    k: ContributionView,
    donor: Seq<u8>,
    now: int,
    available: nat,
)
    requires
        refund_rejection(c, k, now, available) is None,
    ensures
        refund_transfer(c, k, donor).amount == k.amount,
        refund_transfer(c, k, donor).amount > 0,
        refund_transfer(c, k, donor).amount <= available,
        after_refund(k).amount == 0,
{
}

/// A campaign is cancelled only before it starts: from its start on, an
/// attempt is rejected as too late, whoever makes it and however the
/// campaign has fared.
pub proof fn lemma_cancel_only_before_start(c: CampaignView, caller: Seq<u8>, now: int)
    ensures
        cancellation_rejection(c, caller, now) is None ==> now < c.start_at,
        now >= c.start_at ==> cancellation_rejection(c, caller, now) == Some(
            Errors::AlreadyStarted,
        ),
{
}

/// A campaign is closed only after its window.
pub proof fn lemma_close_only_after_end(c: CampaignView, caller: Seq<u8>, now: int)
    ensures
        closure_rejection(c, caller, now) is None ==> now > c.end_at,
        now <= c.end_at ==> closure_rejection(c, caller, now) == Some(Errors::NotYetOver),
{
}

/// The status changes only by an accepted cancellation, to cancelled, and
/// by an accepted closure, to closed, and either is accepted on an active
/// campaign only.
pub proof fn lemma_status_changes(c: CampaignView, op: Operation)
    ensures
        step(c, op).status != c.status ==> rejection(c, op) is None && (op is Cancel || op is Close),
        op is Cancel && rejection(c, op) is None ==> c.status == CampaignStatus::Active && step(
            c,
            op,
        ).status == CampaignStatus::Cancelled,
        op is Close && rejection(c, op) is None ==> c.status == CampaignStatus::Active && step(
            c,
            op,
        ).status == CampaignStatus::Closed,
{
}

/// Cancelled and closed are final: whatever is attempted on a campaign that
/// is not active, by whomever and whenever, it keeps its status.
pub proof fn lemma_status_is_final(c: CampaignView, op: Operation)
    ensures
        c.status != CampaignStatus::Active ==> step(c, op).status == c.status,
{
}

/// A campaign that is not active keeps its status through every sequence of
/// operations.
pub proof fn lemma_status_stays_final(c: CampaignView, ops: Seq<Operation>)
    requires
        c.status != CampaignStatus::Active,
    ensures
        run(c, ops).status == c.status,
    decreases ops.len(),
{
    if ops.len() > 0 {
        lemma_status_stays_final(c, ops.drop_last());
        lemma_status_is_final(run(c, ops.drop_last()), ops.last());
    }
}

/// A cancelled campaign is never closed and a closed one never cancelled:
/// the attempt is rejected, whoever makes it and whenever.
pub proof fn lemma_no_way_between_cancelled_and_closed(c: CampaignView, caller: Seq<u8>, now: int)
    ensures
        c.status == CampaignStatus::Cancelled ==> closure_rejection(c, caller, now) is Some,
        c.status == CampaignStatus::Closed ==> cancellation_rejection(c, caller, now) is Some,
{
}

/// A donation to a campaign short of its goal that is accepted completes
/// the campaign exactly when it brings the total to the goal, which is
/// when the amount offered covers what was missing.
pub proof fn lemma_donation_completes_exactly_at_goal(
    c: CampaignView,
    amount: nat,
    now: int,
    available: nat,
)
    requires
        c.total_donated < c.goal,
        donation_rejection(c, amount, now, available) is None,
    ensures
        ({
            let after = after_donation(c, accepted_amount(c, amount));
            &&& after.donation_completed <==> after.total_donated == after.goal
            &&& after.donation_completed <==> amount >= c.goal - c.total_donated
            &&& after.total_donated <= after.goal
        }),
{
}

/// The end of the window is only ever moved later, and the start, the goal,
/// the key and the authority of a campaign never change.
pub proof fn lemma_window_only_grows(c: CampaignView, ops: Seq<Operation>)
    ensures
        run(c, ops).end_at >= c.end_at,
        run(c, ops).start_at == c.start_at,
        run(c, ops).goal == c.goal,
        run(c, ops).key == c.key,
        run(c, ops).authority == c.authority,
    decreases ops.len(),
{
    if ops.len() > 0 {
        lemma_window_only_grows(c, ops.drop_last());
    }
}

/// Claim and refund exclude each other: on one campaign, at whatever times,
/// not both a claim and a refund are accepted.
pub proof fn lemma_claim_excludes_refund(
    c: CampaignView,
    caller: Seq<u8>,
    claim_now: int,
    claim_available: nat,
    k: ContributionView,
    refund_now: int,
    refund_available: nat,
)
    ensures
        !(claim_rejection(c, caller, claim_now, claim_available) is None && refund_rejection(
            c,
            k,
            refund_now,
            refund_available,
        ) is None),
{
}

/// Only the authority of a campaign cancels, updates, extends, closes or
/// claims it.
pub proof fn lemma_authority_only(c: CampaignView, op: Operation)
    requires
        rejection(c, op) is None,
    ensures
        match op {
            Operation::Cancel { caller, .. } => caller == c.authority,
            Operation::Update { caller, .. } => caller == c.authority,
            Operation::Extend { caller, .. } => caller == c.authority,
            Operation::Close { caller, .. } => caller == c.authority,
            Operation::Claim { caller, .. } => caller == c.authority,
            Operation::Donate { .. } => true,
        },
{
}

} // verus!
