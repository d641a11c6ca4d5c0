//! The books of one campaign: the campaign, the contributions of its donors
//! and what its escrow holds, with every transfer that an operation orders
//! carried out. Whatever is attempted, in whatever order, the escrow holds
//! exactly what the donors have outstanding.

use vstd::prelude::*;
use crate::errors::Errors;
use crate::model::{
    accepted_amount, after_claim, after_donation, after_refund, claim_rejection,
    contribution_after_donation, donation_rejection, refund_rejection, step, Operation,
};
use crate::state::{CampaignView, ContributionView};

verus! {

/// A campaign with the contributions to it, one for each donor, the balance
/// of its escrow, and the sum of what has been paid back to donors.
pub struct Books {
    pub campaign: CampaignView,
    pub contributions: Seq<ContributionView>,
    pub escrow: nat,
    pub refunded: nat,
}

/// The sum of the outstanding amounts of the contributions.
pub open spec fn outstanding(ks: Seq<ContributionView>) -> nat
    decreases ks.len(),
{
    if ks.len() == 0 {
        0
    } else {
        outstanding(ks.drop_last()) + ks.last().amount
    }
}

/// Something that is attempted on the books. A donor is known by the place
/// of their contribution among the contributions; a donation to the place
/// just behind the last opens a new contribution.
pub enum Entry {
    /// A cancellation, an update, an extension or a closure. A donation or
    /// a claim that is entered in this way is not carried out.
    Manage { op: Operation },
    /// A donation by a donor who holds `available`.
    Donate { place: int, donor: Seq<u8>, amount: nat, now: int, available: nat },
    /// A refund, under either of its names.
    Refund { place: int, now: int },
    /// A claim.
    Claim { caller: Seq<u8>, now: int },
}

/// The contributions with a new, empty one for `donor` where `place` lies
/// just behind the last.
pub open spec fn opened(ks: Seq<ContributionView>, place: int, donor: Seq<u8>) -> Seq<
    ContributionView,
> {
    if place == ks.len() {
        ks.push(ContributionView { authority: donor, amount: 0 })
    } else {
        ks
    }
}

/// The books after the entry was attempted. The escrow is the holding that
/// refunds and claims debit, so they are given its balance; where an
/// operation is accepted, its transfer is carried out on the escrow.
pub open spec fn post(b: Books, e: Entry) -> Books {
    match e {
        Entry::Manage { op } => {
            if op is Donate || op is Claim {
                b
            } else {
                Books { campaign: step(b.campaign, op), ..b }
            }
        },
        Entry::Donate { place, donor, amount, now, available } => {
            if 0 <= place <= b.contributions.len() && donation_rejection(
                b.campaign,
                amount,
                now,
                available,
            ) is None {
                let accepted = accepted_amount(b.campaign, amount);
                let ks = opened(b.contributions, place, donor);
                Books {
                    campaign: after_donation(b.campaign, accepted),
                    contributions: ks.update(
                        place,
                        contribution_after_donation(ks[place], donor, accepted),
                    ),
                    escrow: b.escrow + accepted,
                    ..b
                }
            } else {
                b
            }
        },
        Entry::Refund { place, now } => {
            if 0 <= place < b.contributions.len() && refund_rejection(
                b.campaign,
                b.contributions[place],
                now,
                b.escrow,
            ) is None {
                let k = b.contributions[place];
                Books {
                    contributions: b.contributions.update(place, after_refund(k)),
                    escrow: (b.escrow - k.amount) as nat,
                    refunded: b.refunded + k.amount,
                    ..b
                }
            } else {
                b
            }
        },
        Entry::Claim { caller, now } => {
            if claim_rejection(b.campaign, caller, now, b.escrow) is None {
                Books {
                    campaign: after_claim(b.campaign),
                    escrow: (b.escrow - b.campaign.total_donated) as nat,
                    ..b
                }
            } else {
                b
            }
        },
    }
}

/// The books after the entries were attempted one after the other.
pub open spec fn post_all(b: Books, es: Seq<Entry>) -> Books
    decreases es.len(),
{
    if es.len() == 0 {
        b
    } else {
        post(post_all(b, es.drop_last()), es.last())
    }
}

/// The books of a campaign that has just been created.
pub open spec fn opening(c: CampaignView) -> Books {
    Books { campaign: c, contributions: Seq::empty(), escrow: 0, refunded: 0 }
}

/// Whether the books balance: the campaign is well-formed; what the donors
/// have outstanding and what was paid back to them make up the total of the
/// donations; and the escrow holds what is outstanding, until the one claim
/// empties it.
pub open spec fn balanced(b: Books) -> bool {
    &&& b.campaign.wf()
    &&& outstanding(b.contributions) + b.refunded == b.campaign.total_donated
    &&& !b.campaign.claimed ==> b.escrow == outstanding(b.contributions)
    &&& b.campaign.claimed ==> b.escrow == 0 && b.refunded == 0
}

/// A contribution that is added at the end adds its amount to the sum.
pub proof fn lemma_outstanding_push(ks: Seq<ContributionView>, k: ContributionView)
    ensures
        outstanding(ks.push(k)) == outstanding(ks) + k.amount,
{
    assert(ks.push(k).drop_last() =~= ks);
}

/// A contribution that is replaced changes the sum by the difference of the
/// two amounts, and no contribution exceeds the sum.
pub proof fn lemma_outstanding_update(ks: Seq<ContributionView>, place: int, k: ContributionView)
    requires
        0 <= place < ks.len(),
    ensures
        outstanding(ks.update(place, k)) == outstanding(ks) - ks[place].amount + k.amount,
        ks[place].amount <= outstanding(ks),
    decreases ks.len(),
{
    if place == ks.len() - 1 {
        assert(ks.update(place, k).drop_last() =~= ks.drop_last());
    } else {
        lemma_outstanding_update(ks.drop_last(), place, k);
        assert(ks.update(place, k).drop_last() =~= ks.drop_last().update(place, k));
    }
}

/// The books of a well-formed campaign that has just been created balance.
pub proof fn lemma_opening_is_balanced(c: CampaignView)
    requires
        c.wf(),
        c.total_donated == 0,
    ensures
        balanced(opening(c)),
{
}

/// Books that balance still balance after whatever is attempted on them.
pub proof fn lemma_post_keeps_balance(b: Books, e: Entry)
    requires
        balanced(b),
    ensures
        balanced(post(b, e)),
{
    match e {
        Entry::Manage { op } => {},
        Entry::Donate { place, donor, amount, now, available } => {
            if 0 <= place <= b.contributions.len() && donation_rejection(
                b.campaign,
                amount,
                now,
                available,
            ) is None {
                let accepted = accepted_amount(b.campaign, amount);
                let fresh = ContributionView { authority: donor, amount: 0 };
                let ks = opened(b.contributions, place, donor);
                if place == b.contributions.len() {
                    lemma_outstanding_push(b.contributions, fresh);
                }
                lemma_outstanding_update(
                    ks,
                    place,
                    contribution_after_donation(ks[place], donor, accepted),
                );
            }
        },
        Entry::Refund { place, now } => {
            if 0 <= place < b.contributions.len() {
                lemma_outstanding_update(
                    b.contributions,
                    place,
                    after_refund(b.contributions[place]),
                );
            }
        },
        Entry::Claim { caller, now } => {},
    }
}

/// Books that balance still balance after any sequence of attempts: the
/// escrow and the records stay consistent in whatever order operations
/// arrive. In particular no more is ever paid back to donors than they have
/// donated.
pub proof fn lemma_books_always_balance(b: Books, es: Seq<Entry>)
    requires
        balanced(b),
    ensures
        balanced(post_all(b, es)),
        post_all(b, es).refunded <= post_all(b, es).campaign.total_donated,
    decreases es.len(),
{
    if es.len() > 0 {
        lemma_books_always_balance(b, es.drop_last());
        lemma_post_keeps_balance(post_all(b, es.drop_last()), es.last());
    }
}

/// Until the first settlement, that is while nothing has been paid back
/// and nothing claimed, what the donors have outstanding is the total of
/// the donations, and the escrow holds it.
pub proof fn lemma_unsettled_books(b: Books)
    requires
        balanced(b),
        b.refunded == 0,
        !b.campaign.claimed,
    ensures
        outstanding(b.contributions) == b.campaign.total_donated,
        b.escrow == b.campaign.total_donated,
{
}

/// In books that balance the escrow covers every refund: a refund is never
/// rejected for want of funds.
pub proof fn lemma_escrow_covers_refunds(b: Books, place: int, now: int)
    requires
        balanced(b),
        0 <= place < b.contributions.len(),
    ensures
        refund_rejection(b.campaign, b.contributions[place], now, b.escrow) != Some(
            Errors::InsufficientFunds,
        ),
{
    lemma_outstanding_update(b.contributions, place, b.contributions[place]);
}

/// In books that balance the escrow covers the claim exactly when nothing
/// has been paid back to donors.
pub proof fn lemma_escrow_covers_claim(b: Books, now: int)
    requires
        balanced(b),
        now > b.campaign.end_at,
        b.campaign.donation_completed,
        !b.campaign.claimed,
    ensures
        claim_rejection(b.campaign, b.campaign.authority, now, b.escrow) is None <==> b.refunded
            == 0,
{
}

/// In books that balance a donation never overflows the donor's
/// contribution: with what is accepted it stays within the goal.
pub proof fn lemma_contribution_stays_within_goal(b: Books, place: int, amount: nat)
    requires
        balanced(b),
        0 <= place < b.contributions.len(),
    ensures
        b.contributions[place].amount + accepted_amount(b.campaign, amount) <= b.campaign.goal,
{
    lemma_outstanding_update(b.contributions, place, b.contributions[place]);
}

} // verus!
