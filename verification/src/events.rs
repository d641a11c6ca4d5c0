//! What an operation hands back for the collaborators around the core: the
//! transfer to carry out and the notification to send.

use vstd::prelude::*;
use crate::identity::Identity;

verus! {

/// An order to the ledger: move `amount` from one holding to another.
#[derive(Clone, Copy, Debug, PartialEq, Eq)]
pub struct Transfer {
    pub from: Identity,
    pub to: Identity,
    pub amount: u64,
}

/// A transfer as a mathematical value.
pub struct TransferView {
    pub from: Seq<u8>,
    pub to: Seq<u8>,
    pub amount: nat,
}

impl View for Transfer {
    type V = TransferView;

    open spec fn view(&self) -> TransferView {
        TransferView { from: self.from@, to: self.to@, amount: self.amount as nat }
    }
}

/// The notification that follows a successful operation.
#[derive(Debug, PartialEq, Eq)]
pub enum Notification {
    CampaignCreated {
        campaign: Identity,
        title: String,
        description: String,
        goal: u64,
        start_at: i64,
        end_at: i64,
    },
    CampaignCancelled { campaign: Identity },
    CampaignMetadataUpdated { campaign: Identity, title: String, description: String },
    CampaignExtended { campaign: Identity, new_end_at: i64 },
    CampaignClosed { campaign: Identity },
    DonationReceived { campaign: Identity, donor: Identity, amount: u64 },
    DonationCancelled { campaign: Identity, donor: Identity, amount: u64 },
    DonationRefunded { campaign: Identity, donor: Identity, amount: u64 },
    DonationsClaimed { campaign: Identity, amount: u64 },
}

/// A notification as a mathematical value.
pub enum NotificationView {
    CampaignCreated {
        campaign: Seq<u8>,
        title: Seq<char>,
        description: Seq<char>,
        goal: nat,
        start_at: int,
        end_at: int,
    },
    CampaignCancelled { campaign: Seq<u8> },
    CampaignMetadataUpdated { campaign: Seq<u8>, title: Seq<char>, description: Seq<char> },
    CampaignExtended { campaign: Seq<u8>, new_end_at: int },
    CampaignClosed { campaign: Seq<u8> },
    DonationReceived { campaign: Seq<u8>, donor: Seq<u8>, amount: nat },
    DonationCancelled { campaign: Seq<u8>, donor: Seq<u8>, amount: nat },
    DonationRefunded { campaign: Seq<u8>, donor: Seq<u8>, amount: nat },
    DonationsClaimed { campaign: Seq<u8>, amount: nat },
}

impl View for Notification {
    type V = NotificationView;

    open spec fn view(&self) -> NotificationView {
        match *self {
            Notification::CampaignCreated {
                campaign,
                title,
                description,
                goal,
                start_at,
                end_at,
            } => NotificationView::CampaignCreated {
                campaign: campaign@,
                title: title@,
                description: description@,
                goal: goal as nat,
                start_at: start_at as int,
                end_at: end_at as int,
            },
            Notification::CampaignCancelled { campaign } => NotificationView::CampaignCancelled {
                campaign: campaign@,
            },
            Notification::CampaignMetadataUpdated {
                campaign,
                title,
                description,
            } => NotificationView::CampaignMetadataUpdated {
                campaign: campaign@,
                title: title@,
                description: description@,
            },
            Notification::CampaignExtended {
                campaign,
                new_end_at,
            } => NotificationView::CampaignExtended {
                campaign: campaign@,
                new_end_at: new_end_at as int,
            },
            Notification::CampaignClosed { campaign } => NotificationView::CampaignClosed {
                campaign: campaign@,
            },
            Notification::DonationReceived {
                campaign,
                donor,
                amount,
            } => NotificationView::DonationReceived {
                campaign: campaign@,
                donor: donor@,
                amount: amount as nat,
            },
            Notification::DonationCancelled {
                campaign,
                donor,
                amount,
            } => NotificationView::DonationCancelled {
                campaign: campaign@,
                donor: donor@,
                amount: amount as nat,
            },
            Notification::DonationRefunded {
                campaign,
                donor,
                amount,
            } => NotificationView::DonationRefunded {
                campaign: campaign@,
                donor: donor@,
                amount: amount as nat,
            },
            Notification::DonationsClaimed { campaign, amount } => NotificationView::DonationsClaimed {
                campaign: campaign@,
                amount: amount as nat,
            },
        }
    }
}

impl Clone for Notification {
    fn clone(&self) -> (copy: Notification)
        ensures
            copy@ == self@,
    {
        match self {
            Notification::CampaignCreated {
                campaign,
                title,
                description,
                goal,
                start_at,
                end_at,
            } => Notification::CampaignCreated {
                campaign: *campaign,
                title: title.clone(),
                description: description.clone(),
                goal: *goal,
                start_at: *start_at,
                end_at: *end_at,
            },
            Notification::CampaignCancelled { campaign } => Notification::CampaignCancelled {
                campaign: *campaign,
            },
            Notification::CampaignMetadataUpdated {
                campaign,
                title,
                description,
            } => Notification::CampaignMetadataUpdated {
                campaign: *campaign,
                title: title.clone(),
                description: description.clone(),
            },
            Notification::CampaignExtended {
                campaign,
                new_end_at,
            } => Notification::CampaignExtended { campaign: *campaign, new_end_at: *new_end_at },
            Notification::CampaignClosed { campaign } => Notification::CampaignClosed {
                campaign: *campaign,
            },
            Notification::DonationReceived {
                campaign,
                donor,
                amount,
            } => Notification::DonationReceived {
                campaign: *campaign,
                donor: *donor,
                amount: *amount,
            },
            Notification::DonationCancelled {
                campaign,
                donor,
                amount,
            } => Notification::DonationCancelled {
                campaign: *campaign,
                donor: *donor,
                amount: *amount,
            },
            Notification::DonationRefunded {
                campaign,
                donor,
                amount,
            } => Notification::DonationRefunded {
                campaign: *campaign,
                donor: *donor,
                amount: *amount,
            },
            Notification::DonationsClaimed { campaign, amount } => Notification::DonationsClaimed {
                campaign: *campaign,
                amount: *amount,
            },
        }
    }
}

/// What an operation that moves funds hands back: the transfer for the
/// ledger and the notification that reports it.
#[derive(Debug, PartialEq, Eq)]
pub struct Receipt {
    pub transfer: Transfer,
    pub notification: Notification,
}

impl Clone for Receipt {
    fn clone(&self) -> (copy: Receipt)
        ensures
            copy@ == self@,
    {
        Receipt { transfer: self.transfer, notification: self.notification.clone() }
    }
}

/// A receipt as a mathematical value.
pub struct ReceiptView {
    pub transfer: TransferView,
    pub notification: NotificationView,
}

impl View for Receipt {
    type V = ReceiptView;

    open spec fn view(&self) -> ReceiptView {
        ReceiptView { transfer: self.transfer@, notification: self.notification@ }
    }
}

} // verus!
