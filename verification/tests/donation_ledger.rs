use crowdfunding::errors::Errors;
use crowdfunding::events::{Notification, Receipt, Transfer};
use crowdfunding::identity::Identity;
use crowdfunding::instructions::{cancel_donation, create_campaign, donate, refund_donations};
use crowdfunding::state::{Campaign, Contribution};

const T: i64 = 1_700_000_000;

fn ledger_id(n: u8) -> Identity {
    Identity::new([n; 32])
}

fn ledger_campaign(goal: u64) -> Campaign {
    let (campaign, _) = create_campaign(
        ledger_id(1),
        "Well".to_string(),
        "A well for the village".to_string(),
        "Water Now".to_string(),
        "https://example.org/well".to_string(),
        "well.png".to_string(),
        goal,
        T,
        T + 1000,
        ledger_id(2),
        T,
    )
    .unwrap();
    campaign
}

fn ledger_empty(donor: Identity) -> Contribution {
    Contribution { authority: donor, amount: 0 }
}

#[test]
fn remaining_is_what_is_missing_to_the_goal() {
    let mut campaign = ledger_campaign(100);
    assert_eq!(campaign.remaining(), 100);
    campaign.total_donated = 60;
    assert_eq!(campaign.remaining(), 40);
    campaign.total_donated = 100;
    assert_eq!(campaign.remaining(), 0);
    campaign.total_donated = 130;
    assert_eq!(campaign.remaining(), 0);
}

#[test]
fn accepted_is_the_lesser_of_offer_and_remainder() {
    let mut campaign = ledger_campaign(100);
    campaign.total_donated = 60;
    assert_eq!(campaign.accepted(0), 0);
    assert_eq!(campaign.accepted(1), 1);
    assert_eq!(campaign.accepted(39), 39);
    assert_eq!(campaign.accepted(40), 40);
    assert_eq!(campaign.accepted(41), 40);
    assert_eq!(campaign.accepted(80), 40);
    assert_eq!(campaign.accepted(u64::MAX), 40);
    campaign.total_donated = 100;
    assert_eq!(campaign.accepted(5), 0);
}

#[test]
fn donate_records_and_moves_what_is_offered() {
    let mut campaign = ledger_campaign(100);
    let mut contribution = ledger_empty(ledger_id(0));
    let receipt = donate(&mut campaign, &mut contribution, ledger_id(3), 60, T + 1, 500).unwrap();
    assert_eq!(
        receipt,
        Receipt {
            transfer: Transfer { from: ledger_id(3), to: ledger_id(1), amount: 60 },
            notification: Notification::DonationReceived {
                campaign: ledger_id(1),
                donor: ledger_id(3),
                amount: 60,
            },
        }
    );
    let mut expected = ledger_campaign(100);
    expected.total_donated = 60;
    assert_eq!(campaign, expected);
    assert_eq!(contribution, Contribution { authority: ledger_id(3), amount: 60 });
    assert!(campaign.is_well_formed());
}

#[test]
fn donate_takes_no_more_than_is_missing() {
    let mut campaign = ledger_campaign(100);
    campaign.total_donated = 60;
    let mut contribution = ledger_empty(ledger_id(4));
    let receipt = donate(&mut campaign, &mut contribution, ledger_id(4), 80, T + 2, 80).unwrap();
    assert_eq!(receipt.transfer, Transfer { from: ledger_id(4), to: ledger_id(1), amount: 40 });
    assert_eq!(
        receipt.notification,
        Notification::DonationReceived { campaign: ledger_id(1), donor: ledger_id(4), amount: 40 }
    );
    assert_eq!(campaign.total_donated, 100);
    assert!(campaign.donation_completed);
    assert_eq!(contribution.amount, 40);
    assert!(campaign.is_well_formed());
}

#[test]
fn donate_completes_exactly_when_the_goal_is_reached() {
    let mut campaign = ledger_campaign(100);
    let mut contribution = ledger_empty(ledger_id(3));
    donate(&mut campaign, &mut contribution, ledger_id(3), 99, T, 1000).unwrap();
    assert_eq!(campaign.total_donated, 99);
    assert!(!campaign.donation_completed);
    donate(&mut campaign, &mut contribution, ledger_id(3), 1, T, 1000).unwrap();
    assert_eq!(campaign.total_donated, 100);
    assert!(campaign.donation_completed);
    assert_eq!(contribution.amount, 100);
}

#[test]
fn donate_adds_to_an_earlier_contribution() {
    let mut campaign = ledger_campaign(1000);
    let mut contribution = ledger_empty(ledger_id(3));
    donate(&mut campaign, &mut contribution, ledger_id(3), 10, T + 1, 1000).unwrap();
    donate(&mut campaign, &mut contribution, ledger_id(3), 25, T + 2, 990).unwrap();
    assert_eq!(contribution, Contribution { authority: ledger_id(3), amount: 35 });
    assert_eq!(campaign.total_donated, 35);
}

#[test]
fn donate_before_the_window() {
    let mut campaign = ledger_campaign(100);
    let mut contribution = ledger_empty(ledger_id(3));
    let result = donate(&mut campaign, &mut contribution, ledger_id(3), 10, T - 1, 1000);
    assert_eq!(result, Err(Errors::NotStarted));
    assert_eq!(campaign, ledger_campaign(100));
    assert_eq!(contribution, ledger_empty(ledger_id(3)));
}

#[test]
fn donate_at_both_ends_of_the_window() {
    let mut campaign = ledger_campaign(100);
    let mut contribution = ledger_empty(ledger_id(3));
    assert!(donate(&mut campaign, &mut contribution, ledger_id(3), 10, T, 1000).is_ok());
    assert!(donate(&mut campaign, &mut contribution, ledger_id(3), 10, T + 1000, 1000).is_ok());
    assert_eq!(campaign.total_donated, 20);
}

#[test]
fn donate_after_the_window() {
    let mut campaign = ledger_campaign(100);
    let mut contribution = ledger_empty(ledger_id(3));
    let result = donate(&mut campaign, &mut contribution, ledger_id(3), 10, T + 1001, 1000);
    assert_eq!(result, Err(Errors::CampaignOver));
    assert_eq!(campaign, ledger_campaign(100));
    assert_eq!(contribution, ledger_empty(ledger_id(3)));
}

#[test]
fn donate_to_a_completed_campaign() {
    let mut campaign = ledger_campaign(100);
    campaign.total_donated = 100;
    campaign.donation_completed = true;
    let before = campaign.clone();
    let mut contribution = ledger_empty(ledger_id(3));
    let result = donate(&mut campaign, &mut contribution, ledger_id(3), 10, T + 1, 1000);
    assert_eq!(result, Err(Errors::GoalAlreadyMet));
    assert_eq!(campaign, before);
    assert_eq!(contribution, ledger_empty(ledger_id(3)));
}

#[test]
fn donate_nothing() {
    let mut campaign = ledger_campaign(100);
    let mut contribution = ledger_empty(ledger_id(3));
    let result = donate(&mut campaign, &mut contribution, ledger_id(3), 0, T + 1, 1000);
    assert_eq!(result, Err(Errors::ZeroAmount));
    assert_eq!(campaign, ledger_campaign(100));
}

#[test]
fn donate_reports_the_first_failure() {
    let mut campaign = ledger_campaign(100);
    campaign.total_donated = 100;
    campaign.donation_completed = true;
    let mut contribution = ledger_empty(ledger_id(3));
    assert_eq!(
        donate(&mut campaign, &mut contribution, ledger_id(3), 0, T - 1, 0),
        Err(Errors::NotStarted)
    );
    assert_eq!(
        donate(&mut campaign, &mut contribution, ledger_id(3), 0, T + 1001, 0),
        Err(Errors::CampaignOver)
    );
    assert_eq!(
        donate(&mut campaign, &mut contribution, ledger_id(3), 0, T + 1, 0),
        Err(Errors::GoalAlreadyMet)
    );
    let mut open = ledger_campaign(100);
    assert_eq!(
        donate(&mut open, &mut contribution, ledger_id(3), 0, T + 1, 0),
        Err(Errors::ZeroAmount)
    );
}

#[test]
fn donate_more_than_the_donor_holds() {
    let mut campaign = ledger_campaign(100);
    let mut contribution = ledger_empty(ledger_id(3));
    let result = donate(&mut campaign, &mut contribution, ledger_id(3), 60, T + 1, 59);
    assert_eq!(result, Err(Errors::InsufficientFunds));
    assert_eq!(campaign, ledger_campaign(100));
    assert_eq!(contribution, ledger_empty(ledger_id(3)));
}

#[test]
fn donate_needs_only_what_is_taken() {
    let mut campaign = ledger_campaign(100);
    campaign.total_donated = 60;
    let mut contribution = ledger_empty(ledger_id(3));
    assert_eq!(
        donate(&mut campaign, &mut contribution, ledger_id(3), 80, T + 1, 39),
        Err(Errors::InsufficientFunds)
    );
    let receipt = donate(&mut campaign, &mut contribution, ledger_id(3), 80, T + 1, 40).unwrap();
    assert_eq!(receipt.transfer.amount, 40);
}

#[test]
fn donations_never_exceed_the_goal() {
    let mut campaign = ledger_campaign(250);
    let mut contribution = ledger_empty(ledger_id(3));
    let offers: [u64; 6] = [100, 0, 100, 100, 7, u64::MAX];
    let mut taken: u64 = 0;
    for offer in offers {
        let before = campaign.total_donated;
        if let Ok(receipt) =
            donate(&mut campaign, &mut contribution, ledger_id(3), offer, T + 1, u64::MAX)
        {
            assert_eq!(receipt.transfer.amount, offer.min(250 - before));
            taken += receipt.transfer.amount;
        }
        assert!(campaign.total_donated <= campaign.goal);
        assert!(campaign.is_well_formed());
        assert_eq!(campaign.total_donated, taken);
        assert_eq!(contribution.amount, taken);
    }
    assert_eq!(campaign.total_donated, 250);
    assert!(campaign.donation_completed);
}

#[test]
fn donate_up_to_the_largest_goal() {
    let mut campaign = ledger_campaign(u64::MAX);
    let mut contribution = ledger_empty(ledger_id(3));
    donate(&mut campaign, &mut contribution, ledger_id(3), u64::MAX - 1, T, u64::MAX).unwrap();
    assert!(!campaign.donation_completed);
    let receipt = donate(&mut campaign, &mut contribution, ledger_id(3), 5, T, 5).unwrap();
    assert_eq!(receipt.transfer.amount, 1);
    assert_eq!(campaign.total_donated, u64::MAX);
    assert_eq!(contribution.amount, u64::MAX);
    assert!(campaign.donation_completed);
}

fn ledger_failed_campaign() -> (Campaign, Contribution) {
    let mut campaign = ledger_campaign(100);
    let mut contribution = ledger_empty(ledger_id(3));
    donate(&mut campaign, &mut contribution, ledger_id(3), 60, T + 1, 60).unwrap();
    (campaign, contribution)
}

#[test]
fn refund_pays_the_contribution_back() {
    let (campaign, mut contribution) = ledger_failed_campaign();
    let receipt =
        refund_donations(&campaign, &mut contribution, ledger_id(3), T + 1001, 60).unwrap();
    assert_eq!(
        receipt,
        Receipt {
            transfer: Transfer { from: ledger_id(1), to: ledger_id(3), amount: 60 },
            notification: Notification::DonationRefunded {
                campaign: ledger_id(1),
                donor: ledger_id(3),
                amount: 60,
            },
        }
    );
    assert_eq!(contribution, Contribution { authority: ledger_id(3), amount: 0 });
    assert_eq!(campaign.total_donated, 60);
}

#[test]
fn cancel_donation_pays_the_contribution_back() {
    let (campaign, mut contribution) = ledger_failed_campaign();
    let receipt =
        cancel_donation(&campaign, &mut contribution, ledger_id(3), T + 1001, 1000).unwrap();
    assert_eq!(
        receipt,
        Receipt {
            transfer: Transfer { from: ledger_id(1), to: ledger_id(3), amount: 60 },
            notification: Notification::DonationCancelled {
                campaign: ledger_id(1),
                donor: ledger_id(3),
                amount: 60,
            },
        }
    );
    assert_eq!(contribution, Contribution { authority: ledger_id(3), amount: 0 });
}

#[test]
fn refund_twice_in_a_row_pays_once() {
    let (campaign, mut contribution) = ledger_failed_campaign();
    let first = refund_donations(&campaign, &mut contribution, ledger_id(3), T + 1001, 60);
    assert_eq!(first.unwrap().transfer.amount, 60);
    let second = refund_donations(&campaign, &mut contribution, ledger_id(3), T + 1001, 60);
    assert_eq!(second, Err(Errors::NothingToRefund));
    let third = cancel_donation(&campaign, &mut contribution, ledger_id(3), T + 5000, 60);
    assert_eq!(third, Err(Errors::NothingToRefund));
    assert_eq!(contribution.amount, 0);
}

#[test]
fn cancel_donation_twice_in_a_row_pays_once() {
    let (campaign, mut contribution) = ledger_failed_campaign();
    let first = cancel_donation(&campaign, &mut contribution, ledger_id(3), T + 1001, 60);
    assert_eq!(first.unwrap().transfer.amount, 60);
    let second = cancel_donation(&campaign, &mut contribution, ledger_id(3), T + 1002, 60);
    assert_eq!(second, Err(Errors::NothingToRefund));
    let third = refund_donations(&campaign, &mut contribution, ledger_id(3), T + 1003, 60);
    assert_eq!(third, Err(Errors::NothingToRefund));
}

#[test]
fn refund_of_an_empty_contribution() {
    let (campaign, _) = ledger_failed_campaign();
    let mut other = ledger_empty(ledger_id(5));
    assert_eq!(
        refund_donations(&campaign, &mut other, ledger_id(5), T + 1001, 60),
        Err(Errors::NothingToRefund)
    );
    assert_eq!(
        cancel_donation(&campaign, &mut other, ledger_id(5), T + 1001, 60),
        Err(Errors::NothingToRefund)
    );
}

#[test]
fn refund_until_the_end_is_too_early() {
    let (campaign, mut contribution) = ledger_failed_campaign();
    assert_eq!(
        refund_donations(&campaign, &mut contribution, ledger_id(3), T + 1000, 60),
        Err(Errors::NotYetOver)
    );
    assert_eq!(
        cancel_donation(&campaign, &mut contribution, ledger_id(3), T + 2, 60),
        Err(Errors::NotYetOver)
    );
    assert_eq!(contribution.amount, 60);
}

#[test]
fn refund_from_a_completed_campaign() {
    let mut campaign = ledger_campaign(100);
    let mut contribution = ledger_empty(ledger_id(3));
    donate(&mut campaign, &mut contribution, ledger_id(3), 100, T + 1, 100).unwrap();
    assert_eq!(
        refund_donations(&campaign, &mut contribution, ledger_id(3), T + 1001, 100),
        Err(Errors::GoalAlreadyMet)
    );
    assert_eq!(
        cancel_donation(&campaign, &mut contribution, ledger_id(3), T + 1001, 100),
        Err(Errors::GoalAlreadyMet)
    );
    assert_eq!(
        refund_donations(&campaign, &mut contribution, ledger_id(3), T + 1000, 100),
        Err(Errors::NotYetOver)
    );
    assert_eq!(contribution.amount, 100);
}

#[test]
fn refund_from_an_escrow_that_holds_too_little() {
    let (campaign, mut contribution) = ledger_failed_campaign();
    assert_eq!(
        refund_donations(&campaign, &mut contribution, ledger_id(3), T + 1001, 59),
        Err(Errors::InsufficientFunds)
    );
    assert_eq!(
        cancel_donation(&campaign, &mut contribution, ledger_id(3), T + 1001, 0),
        Err(Errors::InsufficientFunds)
    );
    assert_eq!(contribution.amount, 60);
    assert!(refund_donations(&campaign, &mut contribution, ledger_id(3), T + 1001, 60).is_ok());
}

#[test]
fn rejected_donation_is_answered_whatever_the_contribution_holds() {
    let mut campaign = ledger_campaign(100);
    let full = Contribution { authority: ledger_id(3), amount: u64::MAX };
    let mut contribution = full;
    assert_eq!(
        donate(&mut campaign, &mut contribution, ledger_id(3), 1, T - 1, 5),
        Err(Errors::NotStarted)
    );
    assert_eq!(
        donate(&mut campaign, &mut contribution, ledger_id(3), 1, T + 1001, 5),
        Err(Errors::CampaignOver)
    );
    assert_eq!(
        donate(&mut campaign, &mut contribution, ledger_id(3), 0, T + 1, 5),
        Err(Errors::ZeroAmount)
    );
    assert_eq!(
        donate(&mut campaign, &mut contribution, ledger_id(3), 60, T + 1, 59),
        Err(Errors::InsufficientFunds)
    );
    campaign.total_donated = 100;
    campaign.donation_completed = true;
    assert_eq!(
        donate(&mut campaign, &mut contribution, ledger_id(3), 0, T + 1, 5),
        Err(Errors::GoalAlreadyMet)
    );
    assert_eq!(contribution, full);
}

#[test]
fn rejects_donation_tells_the_first_failure() {
    let mut campaign = ledger_campaign(100);
    campaign.total_donated = 60;
    assert_eq!(campaign.rejects_donation(10, T - 1, 10), Some(Errors::NotStarted));
    assert_eq!(campaign.rejects_donation(10, T, 10), None);
    assert_eq!(campaign.rejects_donation(10, T + 1000, 10), None);
    assert_eq!(campaign.rejects_donation(10, T + 1001, 10), Some(Errors::CampaignOver));
    assert_eq!(campaign.rejects_donation(0, T + 1, 10), Some(Errors::ZeroAmount));
    assert_eq!(campaign.rejects_donation(10, T + 1, 9), Some(Errors::InsufficientFunds));
    assert_eq!(campaign.rejects_donation(80, T + 1, 39), Some(Errors::InsufficientFunds));
    assert_eq!(campaign.rejects_donation(80, T + 1, 40), None);
    assert_eq!(campaign.rejects_donation(0, T - 1, 0), Some(Errors::NotStarted));
    campaign.total_donated = 100;
    campaign.donation_completed = true;
    assert_eq!(campaign.rejects_donation(0, T + 1, 0), Some(Errors::GoalAlreadyMet));
    assert_eq!(campaign.rejects_donation(0, T + 1001, 0), Some(Errors::CampaignOver));
}

#[test]
fn donation_completes_when_the_offer_covers_what_is_missing() {
    for (offer, completes) in [(1u64, false), (39, false), (40, true), (41, true), (u64::MAX, true)]
    {
        let mut campaign = ledger_campaign(100);
        campaign.total_donated = 60;
        let mut contribution = ledger_empty(ledger_id(3));
        donate(&mut campaign, &mut contribution, ledger_id(3), offer, T + 1, u64::MAX).unwrap();
        assert_eq!(campaign.donation_completed, completes);
        assert_eq!(campaign.donation_completed, campaign.total_donated == campaign.goal);
        assert_eq!(campaign.total_donated, 60 + offer.min(40));
    }
}

#[test]
fn donation_to_a_cancelled_campaign_in_its_window() {
    let mut campaign = ledger_campaign(100);
    campaign.status = crowdfunding::state::CampaignStatus::Cancelled;
    let mut contribution = ledger_empty(ledger_id(3));
    let receipt = donate(&mut campaign, &mut contribution, ledger_id(3), 10, T + 500, 10).unwrap();
    assert_eq!(receipt.transfer.amount, 10);
    assert_eq!(campaign.total_donated, 10);
    assert_eq!(campaign.status, crowdfunding::state::CampaignStatus::Cancelled);
}
