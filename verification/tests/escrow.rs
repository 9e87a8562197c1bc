use hope_rise::errors::HopeRiseError;
use hope_rise::platform::HopeRise;
use hope_rise::state::Category;

const CREATOR: u64 = 11;
const BACKER_A: u64 = 21;
const BACKER_B: u64 = 22;
const NOW: i64 = 1_700_000_000;

fn create(platform: &mut HopeRise, goal: u64, duration_days: u64) -> u64 {
    platform
        .create_campaign(
            CREATOR,
            String::from("Clean water for the valley"),
            String::from("Wells and filters for three villages."),
            Category::Community,
            String::from("img/cover"),
            String::from("story/full"),
            goal,
            duration_days,
            NOW,
        )
        .expect("campaign creation should succeed")
}

#[test]
fn initialize_starts_empty() {
    let platform = HopeRise::initialize(7);
    assert_eq!(platform.counter.count, 0);
    assert_eq!(platform.counter.authority, 7);
    assert_eq!(platform.campaigns.len(), 0);
}

#[test]
fn create_assigns_sequential_ids_and_fields() {
    let mut platform = HopeRise::initialize(7);
    let first = create(&mut platform, 1000, 30);
    let second = create(&mut platform, 500, 1);
    assert_eq!(first, 0);
    assert_eq!(second, 1);
    assert_eq!(platform.counter.count, 2);

    let c = &platform.campaigns[0].campaign;
    assert_eq!(c.campaign_id, 0);
    assert_eq!(c.creator, CREATOR);
    assert_eq!(c.funding_goal, 1000);
    assert_eq!(c.deadline, NOW + 30 * 86400);
    assert_eq!(c.amount_raised, 0);
    assert_eq!(c.backer_count, 0);
    assert!(c.is_active);
    assert_eq!(c.created_at, NOW);
    assert_eq!(c.milestone_count, 0);
    assert_eq!(platform.campaigns[0].vault.balance, 0);
    assert_eq!(platform.campaigns[1].campaign.deadline, NOW + 86400);
}

#[test]
fn create_validates_each_field() {
    let mut platform = HopeRise::initialize(7);
    let long = |n: usize| "x".repeat(n);
    let ok = |n: usize| "x".repeat(n);

    let r = platform.create_campaign(
        CREATOR,
        long(81),
        ok(1),
        Category::Health,
        ok(1),
        ok(1),
        1000,
        30,
        NOW,
    );
    assert_eq!(r, Err(HopeRiseError::TitleTooLong));

    let r = platform.create_campaign(
        CREATOR,
        ok(80),
        long(201),
        Category::Health,
        ok(1),
        ok(1),
        1000,
        30,
        NOW,
    );
    assert_eq!(r, Err(HopeRiseError::DescriptionTooLong));

    let r = platform.create_campaign(
        CREATOR,
        ok(80),
        ok(200),
        Category::Health,
        long(201),
        ok(1),
        1000,
        30,
        NOW,
    );
    assert_eq!(r, Err(HopeRiseError::UrlTooLong));

    let r = platform.create_campaign(
        CREATOR,
        ok(80),
        ok(200),
        Category::Health,
        ok(200),
        long(201),
        1000,
        30,
        NOW,
    );
    assert_eq!(r, Err(HopeRiseError::UrlTooLong));

    let r = platform.create_campaign(
        CREATOR,
        ok(80),
        ok(200),
        Category::Health,
        ok(200),
        ok(200),
        0,
        30,
        NOW,
    );
    assert_eq!(r, Err(HopeRiseError::InvalidFundingGoal));

    let r = platform.create_campaign(
        CREATOR,
        ok(1),
        ok(1),
        Category::Health,
        ok(1),
        ok(1),
        1000,
        0,
        NOW,
    );
    assert_eq!(r, Err(HopeRiseError::InvalidDuration));

    // A duration of 91 days lies just past the accepted range.
    let r = platform.create_campaign(
        CREATOR,
        ok(1),
        ok(1),
        Category::Health,
        ok(1),
        ok(1),
        1000,
        91,
        NOW,
    );
    assert_eq!(r, Err(HopeRiseError::InvalidDuration));

    // Nothing was created by any refused request.
    assert_eq!(platform.counter.count, 0);
    assert_eq!(platform.campaigns.len(), 0);

    // Boundary values are accepted.
    let id = platform
        .create_campaign(
            CREATOR,
            ok(80),
            ok(200),
            Category::Health,
            ok(200),
            ok(200),
            1,
            90,
            NOW,
        )
        .expect("boundary lengths should be accepted");
    assert_eq!(id, 0);
}

#[test]
fn create_detects_deadline_overflow() {
    let mut platform = HopeRise::initialize(7);
    let r = platform.create_campaign(
        CREATOR,
        String::from("t"),
        String::from("d"),
        Category::Other,
        String::from("c"),
        String::from("s"),
        1000,
        30,
        i64::MAX - 86400,
    );
    assert_eq!(r, Err(HopeRiseError::ArithmeticOverflow));
}

#[test]
fn funding_accumulates_and_counts_backers_once() {
    let mut platform = HopeRise::initialize(7);
    let id = create(&mut platform, 1000, 30);

    platform
        .fund_campaign(id, BACKER_A, 250, NOW + 5)
        .expect("first deposit should be accepted");
    platform
        .fund_campaign(id, BACKER_A, 50, NOW + 6)
        .expect("second deposit by the same backer should be accepted");
    platform
        .fund_campaign(id, BACKER_B, 100, NOW + 7)
        .expect("deposit by a second backer should be accepted");

    let rec = &platform.campaigns[id as usize];
    assert_eq!(rec.campaign.amount_raised, 400);
    assert_eq!(rec.campaign.backer_count, 2);
    assert_eq!(rec.vault.balance, 400);
    assert_eq!(rec.contributions.len(), 2);
    assert_eq!(rec.contributions[0].contributor, BACKER_A);
    assert_eq!(rec.contributions[0].amount, 300);
    assert_eq!(rec.contributions[0].contributed_at, NOW + 5);
    assert!(!rec.contributions[0].refund_claimed);
    assert_eq!(rec.contributions[1].contributor, BACKER_B);
    assert_eq!(rec.contributions[1].amount, 100);
}

#[test]
fn funding_rejections() {
    let mut platform = HopeRise::initialize(7);
    let id = create(&mut platform, 1000, 30);

    let r = platform.fund_campaign(id, BACKER_A, 0, NOW + 5);
    assert_eq!(r, Err(HopeRiseError::InvalidContributionAmount));

    let r = platform.fund_campaign(id, BACKER_A, 100, NOW + 30 * 86400);
    assert_eq!(r, Err(HopeRiseError::CampaignEnded));

    platform
        .close_campaign(id, CREATOR)
        .expect("the creator may close the campaign");
    let r = platform.fund_campaign(id, BACKER_A, 100, NOW + 5);
    assert_eq!(r, Err(HopeRiseError::CampaignNotActive));

    let rec = &platform.campaigns[id as usize];
    assert_eq!(rec.campaign.amount_raised, 0);
    assert_eq!(rec.vault.balance, 0);
    assert_eq!(rec.contributions.len(), 0);
}

#[test]
fn funding_detects_raised_overflow() {
    let mut platform = HopeRise::initialize(7);
    let id = create(&mut platform, 1000, 30);
    platform
        .fund_campaign(id, BACKER_A, u64::MAX, NOW + 1)
        .expect("a single huge deposit still fits the counters");
    let r = platform.fund_campaign(id, BACKER_B, 1, NOW + 2);
    assert_eq!(r, Err(HopeRiseError::ArithmeticOverflow));
    assert_eq!(platform.campaigns[id as usize].campaign.amount_raised, u64::MAX);
    assert_eq!(platform.campaigns[id as usize].campaign.backer_count, 1);
}

#[test]
fn scenario_goal_met_withdrawal() {
    let mut platform = HopeRise::initialize(7);
    let id = create(&mut platform, 1000, 30);

    platform
        .fund_campaign(id, BACKER_A, 600, NOW + 10)
        .expect("deposit of 600 should be accepted");
    platform
        .fund_campaign(id, BACKER_B, 500, NOW + 20)
        .expect("deposit of 500 should be accepted");

    let rec = &platform.campaigns[id as usize];
    assert_eq!(rec.campaign.amount_raised, 1100);
    assert_eq!(rec.campaign.backer_count, 2);
    assert_eq!(rec.vault.balance, 1100);

    let payout = platform
        .withdraw_funds(id, CREATOR)
        .expect("withdrawal should succeed once the goal is met");
    assert_eq!(payout.campaign_id(), id);
    assert_eq!(payout.recipient(), CREATOR);
    assert_eq!(payout.amount(), 1100);
    assert_eq!(platform.campaigns[id as usize].vault.balance, 0);
    // The raised total is a high-water mark: withdrawal drains the vault only.
    assert_eq!(platform.campaigns[id as usize].campaign.amount_raised, 1100);
}

#[test]
fn withdrawal_rejections_and_no_second_withdrawal() {
    let mut platform = HopeRise::initialize(7);
    let id = create(&mut platform, 1000, 30);

    platform
        .fund_campaign(id, BACKER_A, 400, NOW + 10)
        .expect("deposit should be accepted");
    let r = platform.withdraw_funds(id, CREATOR);
    assert_eq!(r.err(), Some(HopeRiseError::GoalNotMet));

    platform
        .fund_campaign(id, BACKER_B, 700, NOW + 11)
        .expect("deposit should be accepted");
    let r = platform.withdraw_funds(id, BACKER_A);
    assert_eq!(r.err(), Some(HopeRiseError::Unauthorized));

    platform
        .withdraw_funds(id, CREATOR)
        .expect("withdrawal should succeed once the goal is met");
    let r = platform.withdraw_funds(id, CREATOR);
    assert_eq!(r.err(), Some(HopeRiseError::InsufficientFunds));
}

#[test]
fn scenario_goal_not_met_refund() {
    let mut platform = HopeRise::initialize(7);
    let id = create(&mut platform, 1000, 30);

    platform
        .fund_campaign(id, BACKER_A, 300, NOW + 10)
        .expect("deposit of 300 should be accepted");
    platform
        .close_campaign(id, CREATOR)
        .expect("the creator may close the campaign early");

    let payout = platform
        .claim_refund(id, BACKER_A)
        .expect("the refund is owed once the campaign closed short of its goal");
    assert_eq!(payout.campaign_id(), id);
    assert_eq!(payout.recipient(), BACKER_A);
    assert_eq!(payout.amount(), 300);
    assert_eq!(platform.campaigns[id as usize].vault.balance, 0);
    assert!(platform.campaigns[id as usize].contributions[0].refund_claimed);

    let r = platform.claim_refund(id, BACKER_A);
    assert_eq!(r.err(), Some(HopeRiseError::RefundAlreadyClaimed));
}

#[test]
fn refund_rejections() {
    let mut platform = HopeRise::initialize(7);
    let id = create(&mut platform, 1000, 30);
    platform
        .fund_campaign(id, BACKER_A, 300, NOW + 10)
        .expect("deposit should be accepted");

    let r = platform.claim_refund(id, BACKER_A);
    assert_eq!(r.err(), Some(HopeRiseError::CampaignStillActive));

    platform
        .fund_campaign(id, BACKER_B, 900, NOW + 11)
        .expect("deposit should be accepted");
    platform
        .close_campaign(id, CREATOR)
        .expect("the creator may close the campaign");
    let r = platform.claim_refund(id, BACKER_A);
    assert_eq!(r.err(), Some(HopeRiseError::GoalWasMet));
}

#[test]
fn refund_requires_a_contribution() {
    let mut platform = HopeRise::initialize(7);
    let id = create(&mut platform, 1000, 30);
    platform
        .fund_campaign(id, BACKER_A, 300, NOW + 10)
        .expect("deposit should be accepted");
    platform
        .close_campaign(id, CREATOR)
        .expect("the creator may close the campaign");
    let r = platform.claim_refund(id, BACKER_B);
    assert_eq!(r.err(), Some(HopeRiseError::NoContribution));
}

#[test]
fn refunds_drain_the_vault_exactly() {
    let mut platform = HopeRise::initialize(7);
    let id = create(&mut platform, 10_000, 30);
    platform
        .fund_campaign(id, BACKER_A, 300, NOW + 1)
        .expect("deposit should be accepted");
    platform
        .fund_campaign(id, BACKER_B, 450, NOW + 2)
        .expect("deposit should be accepted");
    platform
        .fund_campaign(id, BACKER_A, 50, NOW + 3)
        .expect("deposit should be accepted");
    platform
        .close_campaign(id, CREATOR)
        .expect("the creator may close the campaign");

    let first = platform
        .claim_refund(id, BACKER_B)
        .expect("the refund is owed");
    assert_eq!(first.amount(), 450);
    assert_eq!(platform.campaigns[id as usize].vault.balance, 350);

    let second = platform
        .claim_refund(id, BACKER_A)
        .expect("the refund is owed");
    assert_eq!(second.amount(), 350);
    assert_eq!(platform.campaigns[id as usize].vault.balance, 0);
}

#[test]
fn close_campaign_is_creator_only_and_once() {
    let mut platform = HopeRise::initialize(7);
    let id = create(&mut platform, 1000, 30);

    let r = platform.close_campaign(id, BACKER_A);
    assert_eq!(r, Err(HopeRiseError::Unauthorized));
    assert!(platform.campaigns[id as usize].campaign.is_active);

    platform
        .close_campaign(id, CREATOR)
        .expect("the creator may close the campaign");
    assert!(!platform.campaigns[id as usize].campaign.is_active);

    let r = platform.close_campaign(id, CREATOR);
    assert_eq!(r, Err(HopeRiseError::CampaignNotActive));
}

#[test]
fn milestones_append_in_order_up_to_the_cap() {
    let mut platform = HopeRise::initialize(7);
    let id = create(&mut platform, 1000, 30);

    for k in 0..10u64 {
        platform
            .add_milestone(id, CREATOR, format!("step {k}"), 100 * (k + 1))
            .expect("the first ten milestones should be accepted");
    }
    let rec = &platform.campaigns[id as usize];
    assert_eq!(rec.campaign.milestone_count, 10);
    assert_eq!(rec.milestones.len(), 10);
    for k in 0..10usize {
        assert_eq!(rec.milestones[k].milestone_index, k as u8);
        assert_eq!(rec.milestones[k].campaign_id, id);
        assert_eq!(rec.milestones[k].target_amount, 100 * (k as u64 + 1));
        assert!(!rec.milestones[k].is_completed);
    }

    let r = platform.add_milestone(id, CREATOR, String::from("one too many"), 5000);
    assert_eq!(r, Err(HopeRiseError::MaxMilestonesReached));
    assert_eq!(platform.campaigns[id as usize].campaign.milestone_count, 10);
}

#[test]
fn add_milestone_rejections() {
    let mut platform = HopeRise::initialize(7);
    let id = create(&mut platform, 1000, 30);

    let r = platform.add_milestone(id, BACKER_A, String::from("step"), 100);
    assert_eq!(r, Err(HopeRiseError::Unauthorized));

    let r = platform.add_milestone(id, CREATOR, "x".repeat(101), 100);
    assert_eq!(r, Err(HopeRiseError::MilestoneTitleTooLong));

    platform
        .close_campaign(id, CREATOR)
        .expect("the creator may close the campaign");
    let r = platform.add_milestone(id, CREATOR, String::from("step"), 100);
    assert_eq!(r, Err(HopeRiseError::CampaignNotActive));
}

#[test]
fn milestone_completion_requires_the_target() {
    let mut platform = HopeRise::initialize(7);
    let id = create(&mut platform, 1000, 30);
    platform
        .add_milestone(id, CREATOR, String::from("halfway"), 500)
        .expect("the milestone should be accepted");

    let r = platform.complete_milestone(id, CREATOR, 0);
    assert_eq!(r, Err(HopeRiseError::MilestoneTargetNotReached));

    platform
        .fund_campaign(id, BACKER_A, 500, NOW + 1)
        .expect("deposit should be accepted");

    let r = platform.complete_milestone(id, BACKER_A, 0);
    assert_eq!(r, Err(HopeRiseError::Unauthorized));

    platform
        .complete_milestone(id, CREATOR, 0)
        .expect("the target is reached");
    assert!(platform.campaigns[id as usize].milestones[0].is_completed);

    let r = platform.complete_milestone(id, CREATOR, 0);
    assert_eq!(r, Err(HopeRiseError::MilestoneAlreadyCompleted));
}

#[test]
fn operations_touch_only_their_campaign() {
    let mut platform = HopeRise::initialize(7);
    let first = create(&mut platform, 1000, 30);
    let second = create(&mut platform, 2000, 60);

    platform
        .fund_campaign(second, BACKER_A, 999, NOW + 1)
        .expect("deposit should be accepted");
    platform
        .close_campaign(first, CREATOR)
        .expect("the creator may close the campaign");

    assert_eq!(platform.campaigns[first as usize].campaign.amount_raised, 0);
    assert!(!platform.campaigns[first as usize].campaign.is_active);
    assert_eq!(platform.campaigns[second as usize].campaign.amount_raised, 999);
    assert!(platform.campaigns[second as usize].campaign.is_active);
}
