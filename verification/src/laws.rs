//! The custody and accounting laws, stated and proved once and for all over
//! the operations' own specifications.
//!
//! Each proof function here is part of the library's statement: it records a
//! guarantee that holds of every well-formed state the operations can reach,
//! not of any particular run.

use vstd::prelude::*;

use crate::accounting::lemma_record_le_total;
use crate::accounting::lemma_sums_bounds;
use crate::accounting::lemma_unclaimed_record_covered;
use crate::accounting::total_deposits;
use crate::accounting::unclaimed_deposits;
use crate::errors::HopeRiseError;
use crate::platform::add_milestone_error;
use crate::platform::claim_refund_error;
use crate::platform::complete_milestone_error;
use crate::platform::fund_campaign_applied;
use crate::platform::lemma_contributor_index_is;
use crate::platform::withdraw_funds_error;
use crate::platform::CampaignRecord;
use crate::state::AccountId;
use crate::state::UnixTime;
use crate::state::MAX_MILESTONES_PER_CAMPAIGN;

verus! {

/// In every well-formed state, the campaign's raised total equals the sum of
/// the cumulative deposits on its ledger — and since every accepted deposit
/// adds exactly its amount to both sides and nothing else ever changes
/// either, the raised total is the sum of all amounts ever accepted.
pub proof fn lemma_raised_equals_deposit_total(rec: CampaignRecord)
    requires
        rec.wf(),
    ensures
        rec.campaign.amount_raised == total_deposits(rec.contributions@),
{
}

/// An accepted deposit raises the campaign total by exactly the deposited
/// amount, whether or not the contributor is new.
pub proof fn lemma_funding_accumulates(
    rec0: CampaignRecord,
    rec1: CampaignRecord,
    contributor: AccountId,
    amount: u64,
    now: UnixTime,
)
    requires
        rec0.wf(),
        fund_campaign_applied(rec0, rec1, contributor, amount, now),
    ensures
        rec1.campaign.amount_raised == rec0.campaign.amount_raised + amount,
        rec1.vault.balance == rec0.vault.balance + amount,
{
    lemma_sums_bounds(rec0.contributions@);
}

/// The sum of the amounts in a sequence of deposit events, each written as
/// (contributor, amount, time of acceptance).
pub open spec fn accepted_total(events: Seq<(AccountId, u64, UnixTime)>) -> int
    decreases events.len(),
{
    if events.len() == 0 {
        0
    } else {
        accepted_total(events.drop_last()) + events.last().1
    }
}

/// Whether a campaign record is reachable from another by accepting exactly
/// the given sequence of deposits, in order.
pub open spec fn deposits_applied(
    rec0: CampaignRecord,
    events: Seq<(AccountId, u64, UnixTime)>,
    rec1: CampaignRecord,
) -> bool
    decreases events.len(),
{
    if events.len() == 0 {
        rec1 == rec0
    } else {
        exists|mid: CampaignRecord|
            deposits_applied(rec0, events.drop_last(), mid) && #[trigger] fund_campaign_applied(
                mid,
                rec1,
                events.last().0,
                events.last().1,
                events.last().2,
            )
    }
}

/// Over any successful funding sequence, the raised total grows by exactly
/// the sum of the accepted amounts — so on a fresh campaign it always equals
/// the sum of every amount ever accepted.
pub proof fn lemma_raised_sums_every_accepted_deposit(
    rec0: CampaignRecord,
    events: Seq<(AccountId, u64, UnixTime)>,
    rec1: CampaignRecord,
)
    requires
        deposits_applied(rec0, events, rec1),
    ensures
        rec1.campaign.amount_raised == rec0.campaign.amount_raised + accepted_total(events),
    decreases events.len(),
{
    if events.len() > 0 {
        let mid = choose|mid: CampaignRecord|
            deposits_applied(rec0, events.drop_last(), mid) && #[trigger] fund_campaign_applied(
                mid,
                rec1,
                events.last().0,
                events.last().1,
                events.last().2,
            );
        lemma_raised_sums_every_accepted_deposit(rec0, events.drop_last(), mid);
    }
}

/// In every well-formed state, the backer count equals the number of ledger
/// records, and those records name pairwise-distinct contributors, each with
/// a positive cumulative deposit: the count is exactly the number of
/// distinct contributors who have deposited.
pub proof fn lemma_backer_count_counts_distinct_contributors(rec: CampaignRecord)
    requires
        rec.wf(),
    ensures
        rec.campaign.backer_count == rec.contributions@.len(),
        rec.distinct_contributors(),
        forall|i: int|
            0 <= i < rec.contributions@.len() ==> (#[trigger] rec.contributions@[i]).amount > 0,
{
}

/// An accepted deposit lands entirely in the depositing contributor's own
/// record — a first deposit opens it, a later one accumulates into it — and
/// every other contributor's record is untouched.
pub proof fn lemma_deposit_accumulates_per_contributor(
    rec0: CampaignRecord,
    rec1: CampaignRecord,
    contributor: AccountId,
    amount: u64,
    now: UnixTime,
)
    requires
        rec0.wf(),
        fund_campaign_applied(rec0, rec1, contributor, amount, now),
    ensures
        rec1.has_contributor(contributor),
        rec1.contribution_of(contributor).amount == amount + if rec0.has_contributor(
            contributor,
        ) {
            rec0.contribution_of(contributor).amount as int
        } else {
            0
        },
        forall|j: int|
            0 <= j < rec0.contributions@.len() && (#[trigger] rec0.contributions@[j]).contributor
                != contributor ==> rec1.contributions@[j] == rec0.contributions@[j],
{
    let s0 = rec0.contributions@;
    let s1 = rec1.contributions@;
    if rec0.has_contributor(contributor) {
        let i = rec0.contributor_index(contributor);
        assert(0 <= i < s0.len() && s0[i].contributor == contributor);
        lemma_record_le_total(s0, i);
        assert(rec1.distinct_contributors()) by {
            assert forall|a: int, b: int| 0 <= a < b < s1.len() implies s1[a].contributor
                != s1[b].contributor by {
                assert(s1[a].contributor == s0[a].contributor);
                assert(s1[b].contributor == s0[b].contributor);
            }
        }
        lemma_contributor_index_is(rec1, contributor, i);
    } else {
        let n = s0.len() as int;
        assert(s1[n].contributor == contributor);
        assert(rec1.distinct_contributors()) by {
            assert forall|a: int, b: int| 0 <= a < b < s1.len() implies s1[a].contributor
                != s1[b].contributor by {
                if b < n {
                    assert(s1[a] == s0[a]);
                    assert(s1[b] == s0[b]);
                } else {
                    assert(s1[a] == s0[a]);
                    assert(s0[a].contributor != contributor);
                }
            }
        }
        lemma_contributor_index_is(rec1, contributor, n);
    }
}

/// Withdrawal is allowed exactly when the request carries the creator's
/// identity, the raised total has met the goal, and the vault still holds
/// value.
pub proof fn lemma_withdrawal_allowed_iff(rec: CampaignRecord, caller: AccountId)
    ensures
        withdraw_funds_error(rec, caller) is None <==> {
            &&& caller == rec.campaign.creator
            &&& rec.campaign.amount_raised >= rec.campaign.funding_goal
            &&& rec.vault.balance > 0
        },
{
}

/// A successful withdrawal leaves the vault empty, and against an empty
/// vault even the creator of a fully funded campaign is refused with
/// [`HopeRiseError::InsufficientFunds`]: withdrawal can never succeed twice.
pub proof fn lemma_no_second_withdrawal(rec: CampaignRecord, caller: AccountId)
    requires
        rec.vault.balance == 0,
        caller == rec.campaign.creator,
        rec.campaign.amount_raised >= rec.campaign.funding_goal,
    ensures
        withdraw_funds_error(rec, caller) == Some(HopeRiseError::InsufficientFunds),
{
}

/// A refund is owed exactly when the campaign is closed, its goal is unmet,
/// and the contributor holds a positive, not yet claimed deposit record.
pub proof fn lemma_refund_allowed_iff(rec: CampaignRecord, contributor: AccountId)
    requires
        rec.wf(),
    ensures
        claim_refund_error(rec, contributor) is None <==> {
            &&& !rec.campaign.is_active
            &&& rec.campaign.amount_raised < rec.campaign.funding_goal
            &&& rec.has_contributor(contributor)
            &&& rec.contribution_of(contributor).amount > 0
            &&& !rec.contribution_of(contributor).refund_claimed
        },
{
    if rec.has_contributor(contributor) {
        let i = rec.contributor_index(contributor);
        assert(0 <= i < rec.contributions@.len() && rec.contributions@[i].contributor
            == contributor);
        assert(rec.contributions@[i].amount > 0);
    }
}

/// Once a contributor's record is marked claimed, a further refund request
/// by that contributor is refused with
/// [`HopeRiseError::RefundAlreadyClaimed`]: a refund can never pay twice.
pub proof fn lemma_no_second_refund(rec: CampaignRecord, contributor: AccountId)
    requires
        !rec.campaign.is_active,
        rec.campaign.amount_raised < rec.campaign.funding_goal,
        rec.has_contributor(contributor),
        rec.contribution_of(contributor).refund_claimed,
    ensures
        claim_refund_error(rec, contributor) == Some(HopeRiseError::RefundAlreadyClaimed),
{
}

/// While the goal is unmet, the vault holds exactly the deposits not yet
/// claimed back — so the refunds still owed sum to precisely the vault
/// balance, and each single unclaimed deposit is covered by it.
pub proof fn lemma_vault_covers_unclaimed_refunds(rec: CampaignRecord)
    requires
        rec.wf(),
        rec.campaign.amount_raised < rec.campaign.funding_goal,
    ensures
        rec.vault.balance == unclaimed_deposits(rec.contributions@),
        forall|i: int|
            0 <= i < rec.contributions@.len() && !(#[trigger] rec.contributions@[i]).refund_claimed
                ==> rec.contributions@[i].amount <= rec.vault.balance,
{
    assert forall|i: int|
        0 <= i < rec.contributions@.len() && !(#[trigger] rec.contributions@[i]).refund_claimed
        implies rec.contributions@[i].amount <= rec.vault.balance by {
        lemma_unclaimed_record_covered(rec.contributions@, i);
    }
}

/// Completing a milestone is allowed exactly when the request carries the
/// creator's identity, the milestone is still open, and the raised total has
/// reached the milestone's target.
pub proof fn lemma_milestone_completion_gate(
    rec: CampaignRecord,
    caller: AccountId,
    milestone_index: u8,
)
    requires
        rec.wf(),
        milestone_index < rec.campaign.milestone_count,
    ensures
        complete_milestone_error(rec, caller, milestone_index) is None <==> {
            &&& caller == rec.campaign.creator
            &&& !rec.milestones@[milestone_index as int].is_completed
            &&& rec.campaign.amount_raised >= rec.milestones@[milestone_index as int].target_amount
        },
{
}

/// A campaign that already holds the maximum number of milestones refuses
/// another one with [`HopeRiseError::MaxMilestonesReached`], whatever the
/// title.
pub proof fn lemma_milestone_cap(rec: CampaignRecord, caller: AccountId, title: Seq<char>)
    requires
        caller == rec.campaign.creator,
        rec.campaign.is_active,
        rec.campaign.milestone_count >= MAX_MILESTONES_PER_CAMPAIGN,
    ensures
        add_milestone_error(rec, caller, title) == Some(HopeRiseError::MaxMilestonesReached),
{
}

} // verus!
