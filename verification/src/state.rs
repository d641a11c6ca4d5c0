//! The two kinds of record, campaigns and contributions, and their
//! mathematical models.

use vstd::prelude::*;
use crate::errors::Errors;
use crate::identity::Identity;
use crate::model::{accepted_amount, donation_rejection};

verus! {

/// Where a campaign stands in its life.
#[derive(Clone, Copy, Debug, PartialEq, Eq, Hash, Structural)]
pub enum CampaignStatus {
    Active,
    Cancelled,
    Closed,
}

/// One crowdfunding effort, as it is stored.
#[derive(Debug, PartialEq, Eq)]
pub struct Campaign {
    /// The key under which the record is stored. It also names the escrow
    /// holding of the campaign.
    pub key: Identity,
    pub title: String,
    pub description: String,
    pub org_name: String,
    pub project_link: String,
    pub project_image: String,
    /// Who manages the campaign and may claim its funds.
    pub authority: Identity,
    /// The amount the campaign sets out to collect.
    pub goal: u64,
    /// Everything that donors have paid into escrow so far.
    pub total_donated: u64,
    /// Whether the donations have reached the goal.
    pub donation_completed: bool,
    /// Whether the authority has withdrawn the escrowed funds.
    pub claimed: bool,
    /// First moment at which donations are accepted.
    pub start_at: i64,
    /// Last moment at which donations are accepted.
    pub end_at: i64,
    pub status: CampaignStatus,
}

/// A campaign as a mathematical value.
pub struct CampaignView {
    pub key: Seq<u8>,
    pub title: Seq<char>,
    pub description: Seq<char>,
    pub org_name: Seq<char>,
    pub project_link: Seq<char>,
    pub project_image: Seq<char>,
    pub authority: Seq<u8>,
    pub goal: nat,
    pub total_donated: nat,
    pub donation_completed: bool,
    pub claimed: bool,
    pub start_at: int,
    pub end_at: int,
    pub status: CampaignStatus,
}

impl CampaignView {
    /// What must hold of a campaign after every operation.
    pub open spec fn wf(self) -> bool {
        &&& self.goal > 0
        &&& self.total_donated <= self.goal
        &&& self.donation_completed == (self.total_donated >= self.goal)
        &&& self.claimed ==> self.donation_completed
        &&& self.start_at < self.end_at
    }

    /// How much is still missing to the goal.
    pub open spec fn remaining(self) -> nat {
        if self.total_donated <= self.goal {
            (self.goal - self.total_donated) as nat
        } else {
            0
        }
    }
}

impl View for Campaign {
    type V = CampaignView;

    open spec fn view(&self) -> CampaignView {
        CampaignView {
            key: self.key@,
            title: self.title@,
            description: self.description@,
            org_name: self.org_name@,
            project_link: self.project_link@,
            project_image: self.project_image@,
            authority: self.authority@,
            goal: self.goal as nat,
            total_donated: self.total_donated as nat,
            donation_completed: self.donation_completed,
            claimed: self.claimed,
            start_at: self.start_at as int,
            end_at: self.end_at as int,
            status: self.status,
        }
    }
}

impl Clone for Campaign {
    fn clone(&self) -> (copy: Campaign)
        ensures
            copy@ == self@,
    {
        Campaign {
            key: self.key,
            title: self.title.clone(),
            description: self.description.clone(),
            org_name: self.org_name.clone(),
            project_link: self.project_link.clone(),
            project_image: self.project_image.clone(),
            authority: self.authority,
            goal: self.goal,
            total_donated: self.total_donated,
            donation_completed: self.donation_completed,
            claimed: self.claimed,
            start_at: self.start_at,
            end_at: self.end_at,
            status: self.status,
        }
    }
}

impl Campaign {
    /// How much is still missing to the goal.
    pub fn remaining(&self) -> (r: u64)
        ensures
            r == self@.remaining(),
    {
        match self.goal.checked_sub(self.total_donated) {
            Some(missing) => missing,
            None => 0,
        }
    }

    /// The part of an offered amount that the campaign takes.
    pub fn accepted(&self, amount: u64) -> (r: u64)
        ensures
            r == accepted_amount(self@, amount as nat),
    {
        let remaining = self.remaining();
        if amount <= remaining {
            amount
        } else {
            remaining
        }
    }

    /// Why a donation of `amount` by a donor who holds `available` would be
    /// rejected at time `now`, if it would.
    pub fn rejects_donation(&self, amount: u64, now: i64, available: u64) -> (r: Option<Errors>)
        ensures
            r == donation_rejection(self@, amount as nat, now as int, available as nat),
    {
        if now < self.start_at {
            Some(Errors::NotStarted)
        } else if now > self.end_at {
            Some(Errors::CampaignOver)
        } else if self.donation_completed {
            Some(Errors::GoalAlreadyMet)
        } else if amount == 0 {
            Some(Errors::ZeroAmount)
        } else if available < self.accepted(amount) {
            Some(Errors::InsufficientFunds)
        } else {
            None
        }
    }

    /// Whether the record satisfies the invariants of a campaign.
    pub fn is_well_formed(&self) -> (r: bool)
        ensures
            r == self@.wf(),
    {
        self.goal > 0 && self.total_donated <= self.goal && self.donation_completed == (
        self.total_donated >= self.goal) && (!self.claimed || self.donation_completed)
            && self.start_at < self.end_at
    }
}

/// What one donor has paid into one campaign and not yet had settled.
#[derive(Clone, Copy, Debug, PartialEq, Eq)]
pub struct Contribution {
    /// The donor.
    pub authority: Identity,
    /// The donor's outstanding amount.
    pub amount: u64,
}

/// A contribution as a mathematical value.
pub struct ContributionView {
    pub authority: Seq<u8>,
    pub amount: nat,
}

impl View for Contribution {
    type V = ContributionView;

    open spec fn view(&self) -> ContributionView {
        ContributionView { authority: self.authority@, amount: self.amount as nat }
    }
}

} // verus!
