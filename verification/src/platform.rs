//! The campaign lifecycle state machine: creation, funding, withdrawal,
//! milestones, closing, and refunds, over a keyed table of campaign records.
//!
//! The host ledger applies each operation atomically and in some serial
//! order; this module makes each individual transition correct. Every
//! operation validates all its preconditions before mutating anything, so on
//! any error the state is exactly what it was. The well-formedness predicate
//! [`CampaignRecord::wf`] carries the accounting invariants that make custody
//! safe: the raised total is the sum of the ledger, the backer count is the
//! number of (distinct, positive) contributor records, and the vault balance
//! plus everything already refunded never exceeds — and, while the goal is
//! unmet, exactly equals — the raised total.

use vstd::prelude::*;
use vstd::string::StrSliceExecFns;

use crate::accounting::lemma_record_le_total;
use crate::accounting::lemma_sums_bounds;
use crate::accounting::lemma_sums_push;
use crate::accounting::lemma_sums_update;
use crate::accounting::lemma_unclaimed_record_covered;
use crate::accounting::refunded_deposits;
use crate::accounting::total_deposits;
use crate::errors::HopeRiseError;
use crate::state::AccountId;
use crate::state::Campaign;
use crate::state::CampaignCounter;
use crate::state::Category;
use crate::state::Contribution;
use crate::state::Milestone;
use crate::state::UnixTime;
use crate::state::Vault;
use crate::state::VaultPayout;
use crate::state::MAX_CAMPAIGN_DURATION_DAYS;
use crate::state::MAX_DESCRIPTION_LENGTH;
use crate::state::MAX_MILESTONES_PER_CAMPAIGN;
use crate::state::MAX_MILESTONE_TITLE_LENGTH;
use crate::state::MAX_TITLE_LENGTH;
use crate::state::MAX_URL_LENGTH;
use crate::state::MIN_CAMPAIGN_DURATION_DAYS;
use crate::state::SECONDS_PER_DAY;

verus! {

/// One campaign and everything stored under it: its vault, its contribution
/// ledger, and its milestones.
#[verifier::ext_equal]
pub struct CampaignRecord {
    /// The lifecycle aggregate.
    pub campaign: Campaign,
    /// The escrow balance pooled for this campaign.
    pub vault: Vault,
    /// One record per contributor, in order of first deposit.
    pub contributions: Vec<Contribution>,
    /// One record per milestone, in declaration order.
    pub milestones: Vec<Milestone>,
}

impl CampaignRecord {
    /// Whether this contributor has a deposit on record.
    pub open spec fn has_contributor(self, who: AccountId) -> bool {
        exists|i: int|
            0 <= i < self.contributions@.len() && (#[trigger] self.contributions@[i]).contributor
                == who
    }

    /// Where this contributor's record stands on the ledger.
    pub open spec fn contributor_index(self, who: AccountId) -> int {
        choose|i: int|
            0 <= i < self.contributions@.len() && (#[trigger] self.contributions@[i]).contributor
                == who
    }

    /// This contributor's record.
    pub open spec fn contribution_of(self, who: AccountId) -> Contribution {
        self.contributions@[self.contributor_index(who)]
    }

    /// No two ledger records name the same contributor: deposits accumulate
    /// instead of multiplying records.
    pub open spec fn distinct_contributors(self) -> bool {
        forall|i: int, j: int|
            0 <= i < j < self.contributions@.len() ==> (#[trigger] self.contributions@[i]).contributor != (
            #[trigger] self.contributions@[j]).contributor
    }

    /// The record invariant every operation preserves.
    pub open spec fn wf(self) -> bool {
        &&& self.campaign.wf()
        &&& self.vault.campaign_id == self.campaign.campaign_id
        &&& self.milestones@.len() == self.campaign.milestone_count
        &&& forall|i: int|
            0 <= i < self.milestones@.len() ==> {
                let m = #[trigger] self.milestones@[i];
                &&& m.campaign_id == self.campaign.campaign_id
                &&& m.milestone_index as int == i
                &&& m.title@.len() <= MAX_MILESTONE_TITLE_LENGTH
            }
        &&& forall|i: int|
            0 <= i < self.contributions@.len() ==> {
                let c = #[trigger] self.contributions@[i];
                &&& c.campaign_id == self.campaign.campaign_id
                &&& c.amount > 0
            }
        &&& self.distinct_contributors()
        &&& self.campaign.amount_raised == total_deposits(self.contributions@)
        &&& self.campaign.backer_count == self.contributions@.len()
        &&& self.vault.balance + refunded_deposits(self.contributions@)
            <= self.campaign.amount_raised
        &&& self.campaign.amount_raised < self.campaign.funding_goal ==> self.vault.balance
            + refunded_deposits(self.contributions@) == self.campaign.amount_raised
        &&& self.campaign.is_active ==> forall|i: int|
            0 <= i < self.contributions@.len() ==> !(#[trigger] self.contributions@[i]).refund_claimed
    }
}

/// A position that holds the given contributor is the one the spec functions
/// name, because contributors are distinct.
pub proof fn lemma_contributor_index_is(rec: CampaignRecord, who: AccountId, i: int)
    requires
        rec.distinct_contributors(),
        0 <= i < rec.contributions@.len(),
        rec.contributions@[i].contributor == who,
    ensures
        rec.has_contributor(who),
        rec.contributor_index(who) == i,
{
    assert(rec.has_contributor(who));
    let k = rec.contributor_index(who);
    if k < i {
        assert(rec.contributions@[k].contributor != rec.contributions@[i].contributor);
    } else if k > i {
        assert(rec.contributions@[i].contributor != rec.contributions@[k].contributor);
    }
}

/// The whole escrow platform: the identifier counter and the campaign table,
/// keyed so that the record of campaign `i` stands at position `i`.
#[verifier::ext_equal]
pub struct HopeRise {
    /// Issues campaign identifiers.
    pub counter: CampaignCounter,
    /// One record per campaign ever created.
    pub campaigns: Vec<CampaignRecord>,
}

/// Why campaign creation is refused, or nothing if it is accepted; earlier
/// clauses win, matching the order the checks run in.
pub open spec fn create_campaign_error(
    title: Seq<char>,
    short_description: Seq<char>,
    cover_image_url: Seq<char>,
    story_url: Seq<char>,
    funding_goal: u64,
    duration_days: u64,
    now: UnixTime,
    count: u64,
) -> Option<HopeRiseError> {
    if title.len() > MAX_TITLE_LENGTH {
        Some(HopeRiseError::TitleTooLong)
    } else if short_description.len() > MAX_DESCRIPTION_LENGTH {
        Some(HopeRiseError::DescriptionTooLong)
    } else if cover_image_url.len() > MAX_URL_LENGTH {
        Some(HopeRiseError::UrlTooLong)
    } else if story_url.len() > MAX_URL_LENGTH {
        Some(HopeRiseError::UrlTooLong)
    } else if funding_goal == 0 {
        Some(HopeRiseError::InvalidFundingGoal)
    } else if duration_days < MIN_CAMPAIGN_DURATION_DAYS || duration_days
        > MAX_CAMPAIGN_DURATION_DAYS {
        Some(HopeRiseError::InvalidDuration)
    } else if now + duration_days * (SECONDS_PER_DAY as int) > i64::MAX {
        Some(HopeRiseError::ArithmeticOverflow)
    } else if count == u64::MAX {
        Some(HopeRiseError::ArithmeticOverflow)
    } else {
        None
    }
}

/// What the record of a freshly created campaign holds.
pub open spec fn fresh_record(
    rec: CampaignRecord,
    id: u64,
    creator: AccountId,
    title: Seq<char>,
    short_description: Seq<char>,
    category: Category,
    cover_image_url: Seq<char>,
    story_url: Seq<char>,
    funding_goal: u64,
    duration_days: u64,
    now: UnixTime,
) -> bool {
    &&& rec.campaign.campaign_id == id
    &&& rec.campaign.creator == creator
    &&& rec.campaign.title@ == title
    &&& rec.campaign.short_description@ == short_description
    &&& rec.campaign.category == category
    &&& rec.campaign.cover_image_url@ == cover_image_url
    &&& rec.campaign.story_url@ == story_url
    &&& rec.campaign.funding_goal == funding_goal
    &&& rec.campaign.deadline == now + duration_days * (SECONDS_PER_DAY as int)
    &&& rec.campaign.amount_raised == 0
    &&& rec.campaign.backer_count == 0
    &&& rec.campaign.is_active
    &&& rec.campaign.created_at == now
    &&& rec.campaign.milestone_count == 0
    &&& rec.vault.campaign_id == id
    &&& rec.vault.balance == 0
    &&& rec.contributions@.len() == 0
    &&& rec.milestones@.len() == 0
}

/// Why a deposit is refused, or nothing if it is accepted.
pub open spec fn fund_campaign_error(
    rec: CampaignRecord,
    contributor: AccountId,
    amount: u64,
    now: UnixTime,
) -> Option<HopeRiseError> {
    if amount == 0 {
        Some(HopeRiseError::InvalidContributionAmount)
    } else if !rec.campaign.is_active {
        Some(HopeRiseError::CampaignNotActive)
    } else if now >= rec.campaign.deadline {
        Some(HopeRiseError::CampaignEnded)
    } else if rec.campaign.amount_raised + amount > u64::MAX {
        Some(HopeRiseError::ArithmeticOverflow)
    } else if !rec.has_contributor(contributor) && rec.campaign.backer_count == u32::MAX {
        Some(HopeRiseError::ArithmeticOverflow)
    } else {
        None
    }
}

/// How an accepted deposit rewrites one campaign record: the amount lands in
/// the raised total, the vault, and the contributor's own record — a first
/// deposit also counts a new backer — and nothing else moves.
pub open spec fn fund_campaign_applied(
    rec0: CampaignRecord,
    rec1: CampaignRecord,
    contributor: AccountId,
    amount: u64,
    now: UnixTime,
) -> bool {
    &&& rec1.campaign.amount_raised == rec0.campaign.amount_raised + amount
    &&& rec1.vault == (Vault { balance: (rec0.vault.balance + amount) as u64, ..rec0.vault })
    &&& rec1.milestones@ == rec0.milestones@
    &&& rec1.campaign == (Campaign {
        amount_raised: rec1.campaign.amount_raised,
        backer_count: rec1.campaign.backer_count,
        ..rec0.campaign
    })
    &&& if rec0.has_contributor(contributor) {
        let i = rec0.contributor_index(contributor);
        &&& rec1.campaign.backer_count == rec0.campaign.backer_count
        &&& rec1.contributions@ == rec0.contributions@.update(
            i,
            (Contribution {
                amount: (rec0.contributions@[i].amount + amount) as u64,
                ..rec0.contributions@[i]
            }),
        )
    } else {
        &&& rec1.campaign.backer_count == rec0.campaign.backer_count + 1
        &&& rec1.contributions@ == rec0.contributions@.push(
            (Contribution {
                campaign_id: rec0.campaign.campaign_id,
                contributor,
                amount,
                contributed_at: now,
                refund_claimed: false,
            }),
        )
    }
}

/// Why a withdrawal is refused, or nothing if it is allowed.
pub open spec fn withdraw_funds_error(rec: CampaignRecord, caller: AccountId) -> Option<
    HopeRiseError,
> {
    if caller != rec.campaign.creator {
        Some(HopeRiseError::Unauthorized)
    } else if rec.campaign.amount_raised < rec.campaign.funding_goal {
        Some(HopeRiseError::GoalNotMet)
    } else if rec.vault.balance == 0 {
        Some(HopeRiseError::InsufficientFunds)
    } else {
        None
    }
}

/// Why adding a milestone is refused, or nothing if it is accepted.
pub open spec fn add_milestone_error(
    rec: CampaignRecord,
    caller: AccountId,
    title: Seq<char>,
) -> Option<HopeRiseError> {
    if caller != rec.campaign.creator {
        Some(HopeRiseError::Unauthorized)
    } else if !rec.campaign.is_active {
        Some(HopeRiseError::CampaignNotActive)
    } else if rec.campaign.milestone_count >= MAX_MILESTONES_PER_CAMPAIGN {
        Some(HopeRiseError::MaxMilestonesReached)
    } else if title.len() > MAX_MILESTONE_TITLE_LENGTH {
        Some(HopeRiseError::MilestoneTitleTooLong)
    } else {
        None
    }
}

/// Why completing a milestone is refused, or nothing if it is allowed.
pub open spec fn complete_milestone_error(
    rec: CampaignRecord,
    caller: AccountId,
    milestone_index: u8,
) -> Option<HopeRiseError> {
    if caller != rec.campaign.creator {
        Some(HopeRiseError::Unauthorized)
    } else if rec.milestones@[milestone_index as int].is_completed {
        Some(HopeRiseError::MilestoneAlreadyCompleted)
    } else if rec.campaign.amount_raised < rec.milestones@[milestone_index as int].target_amount {
        Some(HopeRiseError::MilestoneTargetNotReached)
    } else {
        None
    }
}

/// Why closing is refused, or nothing if it is allowed.
pub open spec fn close_campaign_error(rec: CampaignRecord, caller: AccountId) -> Option<
    HopeRiseError,
> {
    if caller != rec.campaign.creator {
        Some(HopeRiseError::Unauthorized)
    } else if !rec.campaign.is_active {
        Some(HopeRiseError::CampaignNotActive)
    } else {
        None
    }
}

/// Why a refund is refused, or nothing if it is owed.
pub open spec fn claim_refund_error(rec: CampaignRecord, contributor: AccountId) -> Option<
    HopeRiseError,
> {
    if rec.campaign.is_active {
        Some(HopeRiseError::CampaignStillActive)
    } else if rec.campaign.amount_raised >= rec.campaign.funding_goal {
        Some(HopeRiseError::GoalWasMet)
    } else if !rec.has_contributor(contributor) {
        Some(HopeRiseError::NoContribution)
    } else if rec.contribution_of(contributor).refund_claimed {
        Some(HopeRiseError::RefundAlreadyClaimed)
    } else {
        None
    }
}

/// Finds a contributor's position on the ledger.
fn find_contribution(contributions: &Vec<Contribution>, who: AccountId) -> (r: Option<usize>)
    ensures
        match r {
            Some(i) => i < contributions@.len() && contributions@[i as int].contributor == who,
            None => forall|j: int|
                0 <= j < contributions@.len() ==> (#[trigger] contributions@[j]).contributor
                    != who,
        },
{
    let mut i: usize = 0;
    while i < contributions.len()
        invariant
            i <= contributions@.len(),
            forall|j: int| 0 <= j < i ==> (#[trigger] contributions@[j]).contributor != who,
        decreases contributions@.len() - i,
    {
        if contributions[i].contributor == who {
            return Some(i);
        }
        i = i + 1;
    }
    None
}

impl HopeRise {
    /// The record of one campaign.
    pub open spec fn rec(self, campaign_id: int) -> CampaignRecord {
        self.campaigns@[campaign_id]
    }

    /// The table position of an existing campaign: identifiers are indices,
    /// and an existing one fits `usize` because the table does.
    fn slot(&self, campaign_id: u64) -> (idx: usize)
        requires
            campaign_id < self.campaigns@.len(),
        ensures
            idx == campaign_id as int,
    {
        proof {
            assert(campaign_id < self.campaigns.len());
        }
        campaign_id as usize
    }

    /// The platform invariant: the counter has issued exactly the existing
    /// identifiers, each record stands at its own identifier, and each record
    /// is well-formed.
    pub open spec fn wf(self) -> bool {
        &&& self.counter.count == self.campaigns@.len()
        &&& forall|i: int|
            0 <= i < self.campaigns@.len() ==> {
                let r = #[trigger] self.campaigns@[i];
                &&& r.wf()
                &&& r.campaign.campaign_id as int == i
            }
    }

    /// One-time setup: a platform with no campaigns and the counter at zero,
    /// owned by the given authority.
    pub fn initialize(authority: AccountId) -> (s: HopeRise)
        ensures
            s.wf(),
            s.counter.count == 0,
            s.counter.authority == authority,
            s.campaigns@.len() == 0,
    {
        HopeRise { counter: CampaignCounter { count: 0, authority }, campaigns: Vec::new() }
    }

    /// Registers a new campaign: validates every field, stamps the deadline
    /// from the given current time, assigns the next identifier, and advances
    /// the counter by exactly one. On any refusal nothing changes.
    pub fn create_campaign(
        &mut self,
        creator: AccountId,
        title: String,
        short_description: String,
        category: Category,
        cover_image_url: String,
        story_url: String,
        funding_goal: u64,
        duration_days: u64,
        now: UnixTime,
    ) -> (r: Result<u64, HopeRiseError>)
        requires
            old(self).wf(),
        ensures
            final(self).wf(),
            final(self).counter.authority == old(self).counter.authority,
            match r {
                Ok(id) => {
                    &&& create_campaign_error(
                        title@,
                        short_description@,
                        cover_image_url@,
                        story_url@,
                        funding_goal,
                        duration_days,
                        now,
                        old(self).counter.count,
                    ) is None
                    &&& id == old(self).counter.count
                    &&& final(self).counter.count == old(self).counter.count + 1
                    &&& final(self).campaigns@.len() == old(self).campaigns@.len() + 1
                    &&& forall|i: int|
                        0 <= i < old(self).campaigns@.len()
                            ==> #[trigger] final(self).campaigns@[i] == old(self).campaigns@[i]
                    &&& fresh_record(
                        final(self).campaigns@.last(),
                        id,
                        creator,
                        title@,
                        short_description@,
                        category,
                        cover_image_url@,
                        story_url@,
                        funding_goal,
                        duration_days,
                        now,
                    )
                },
                Err(e) => {
                    &&& Some(e) == create_campaign_error(
                        title@,
                        short_description@,
                        cover_image_url@,
                        story_url@,
                        funding_goal,
                        duration_days,
                        now,
                        old(self).counter.count,
                    )
                    &&& *final(self) == *old(self)
                },
            },
    {
        if title.as_str().unicode_len() > MAX_TITLE_LENGTH {
            return Err(HopeRiseError::TitleTooLong);
        }
        if short_description.as_str().unicode_len() > MAX_DESCRIPTION_LENGTH {
            return Err(HopeRiseError::DescriptionTooLong);
        }
        if cover_image_url.as_str().unicode_len() > MAX_URL_LENGTH {
            return Err(HopeRiseError::UrlTooLong);
        }
        if story_url.as_str().unicode_len() > MAX_URL_LENGTH {
            return Err(HopeRiseError::UrlTooLong);
        }
        if funding_goal == 0 {
            return Err(HopeRiseError::InvalidFundingGoal);
        }
        if duration_days < MIN_CAMPAIGN_DURATION_DAYS || duration_days
            > MAX_CAMPAIGN_DURATION_DAYS {
            return Err(HopeRiseError::InvalidDuration);
        }
        let duration_seconds: i64 = (duration_days as i64) * SECONDS_PER_DAY;
        let deadline = match now.checked_add(duration_seconds) {
            Some(d) => d,
            None => {
                return Err(HopeRiseError::ArithmeticOverflow);
            },
        };
        let id = self.counter.count;
        let new_count = match id.checked_add(1) {
            Some(c) => c,
            None => {
                return Err(HopeRiseError::ArithmeticOverflow);
            },
        };
        let record = CampaignRecord {
            campaign: Campaign {
                campaign_id: id,
                creator,
                title,
                short_description,
                category,
                cover_image_url,
                story_url,
                funding_goal,
                deadline,
                amount_raised: 0,
                backer_count: 0,
                is_active: true,
                created_at: now,
                milestone_count: 0,
            },
            vault: Vault { campaign_id: id, balance: 0 },
            contributions: Vec::new(),
            milestones: Vec::new(),
        };
        self.campaigns.push(record);
        self.counter.count = new_count;
        Ok(id)
    }

    /// Accepts a deposit: the external transfer of `amount` into the vault
    /// has been arranged by the host, and this transition commits the
    /// matching bookkeeping — raised total, vault balance, the contributor's
    /// cumulative record, and the backer count on a first deposit — each
    /// overflow-checked. On any refusal nothing changes.
    pub fn fund_campaign(
        &mut self,
        campaign_id: u64,
        contributor: AccountId,
        amount: u64,
        now: UnixTime,
    ) -> (r: Result<(), HopeRiseError>)
        requires
            old(self).wf(),
            campaign_id < old(self).campaigns@.len(),
        ensures
            final(self).wf(),
            final(self).counter == old(self).counter,
            final(self).campaigns@.len() == old(self).campaigns@.len(),
            forall|i: int|
                0 <= i < old(self).campaigns@.len() && i != campaign_id as int
                    ==> #[trigger] final(self).campaigns@[i] == old(self).campaigns@[i],
            match r {
                Ok(_) => {
                    &&& fund_campaign_error(
                        old(self).rec(campaign_id as int),
                        contributor,
                        amount,
                        now,
                    ) is None
                    &&& fund_campaign_applied(
                        old(self).rec(campaign_id as int),
                        final(self).rec(campaign_id as int),
                        contributor,
                        amount,
                        now,
                    )
                },
                Err(e) => {
                    &&& Some(e) == fund_campaign_error(
                        old(self).rec(campaign_id as int),
                        contributor,
                        amount,
                        now,
                    )
                    &&& *final(self) == *old(self)
                },
            },
    {
        let idx = self.slot(campaign_id);
        if amount == 0 {
            return Err(HopeRiseError::InvalidContributionAmount);
        }
        if !self.campaigns[idx].campaign.is_active {
            return Err(HopeRiseError::CampaignNotActive);
        }
        if now >= self.campaigns[idx].campaign.deadline {
            return Err(HopeRiseError::CampaignEnded);
        }
        let new_raised = match self.campaigns[idx].campaign.amount_raised.checked_add(amount) {
            Some(v) => v,
            None => {
                return Err(HopeRiseError::ArithmeticOverflow);
            },
        };
        proof {
            lemma_sums_bounds(self.campaigns@[campaign_id as int].contributions@);
        }
        match find_contribution(&self.campaigns[idx].contributions, contributor) {
            Some(ci) => {
                proof {
                    let rec0 = self.campaigns@[campaign_id as int];
                    lemma_record_le_total(rec0.contributions@, ci as int);
                    lemma_contributor_index_is(rec0, contributor, ci as int);
                }
                let ghost s0 = self.campaigns@[campaign_id as int].contributions@;
                let rec = &mut self.campaigns[idx];
                let entry = &mut rec.contributions[ci];
                entry.amount = entry.amount + amount;
                rec.campaign.amount_raised = new_raised;
                rec.vault.balance = rec.vault.balance + amount;
                proof {
                    let s1 = self.campaigns@[campaign_id as int].contributions@;
                    assert(s1 =~= s0.update(ci as int, s1[ci as int]));
                    lemma_sums_update(s0, ci as int, s1[ci as int]);
                }
                Ok(())
            },
            None => {
                let backer_count = self.campaigns[idx].campaign.backer_count;
                let new_backers = match backer_count.checked_add(1) {
                    Some(v) => v,
                    None => {
                        return Err(HopeRiseError::ArithmeticOverflow);
                    },
                };
                let ghost s0 = self.campaigns@[campaign_id as int].contributions@;
                let rec = &mut self.campaigns[idx];
                let cid = rec.campaign.campaign_id;
                rec.campaign.backer_count = new_backers;
                rec.contributions.push(
                    Contribution {
                        campaign_id: cid,
                        contributor,
                        amount,
                        contributed_at: now,
                        refund_claimed: false,
                    },
                );
                rec.campaign.amount_raised = new_raised;
                rec.vault.balance = rec.vault.balance + amount;
                proof {
                    let s1 = self.campaigns@[campaign_id as int].contributions@;
                    lemma_sums_push(s0, s1.last());
                    assert(s1 =~= s0.push(s1.last()));
                }
                Ok(())
            },
        }
    }

    /// Pays the entire vault balance out to the creator once the goal is met.
    /// The caller signs the request, but the transfer itself is authorized by
    /// the vault's own authority: the returned order is the only path by
    /// which the pooled value leaves on the success path. On any refusal
    /// nothing changes.
    pub fn withdraw_funds(&mut self, campaign_id: u64, caller: AccountId) -> (r: Result<
        VaultPayout,
        HopeRiseError,
    >)
        requires
            old(self).wf(),
            campaign_id < old(self).campaigns@.len(),
        ensures
            final(self).wf(),
            final(self).counter == old(self).counter,
            final(self).campaigns@.len() == old(self).campaigns@.len(),
            forall|i: int|
                0 <= i < old(self).campaigns@.len() && i != campaign_id as int
                    ==> #[trigger] final(self).campaigns@[i] == old(self).campaigns@[i],
            match r {
                Ok(p) => {
                    &&& withdraw_funds_error(old(self).rec(campaign_id as int), caller) is None
                    &&& p.spec_campaign_id() == campaign_id
                    &&& p.spec_recipient() == old(self).rec(campaign_id as int).campaign.creator
                    &&& p.spec_amount() == old(self).rec(campaign_id as int).vault.balance
                    &&& final(self).rec(campaign_id as int) == (CampaignRecord {
                        vault: (Vault {
                            balance: 0,
                            ..old(self).rec(campaign_id as int).vault
                        }),
                        ..old(self).rec(campaign_id as int)
                    })
                },
                Err(e) => {
                    &&& Some(e) == withdraw_funds_error(old(self).rec(campaign_id as int), caller)
                    &&& *final(self) == *old(self)
                },
            },
    {
        let idx = self.slot(campaign_id);
        if caller != self.campaigns[idx].campaign.creator {
            return Err(HopeRiseError::Unauthorized);
        }
        if self.campaigns[idx].campaign.amount_raised < self.campaigns[idx].campaign.funding_goal {
            return Err(HopeRiseError::GoalNotMet);
        }
        let balance = self.campaigns[idx].vault.balance;
        if balance == 0 {
            return Err(HopeRiseError::InsufficientFunds);
        }
        let rec = &mut self.campaigns[idx];
        rec.vault.balance = 0;
        let creator = rec.campaign.creator;
        Ok(VaultPayout::grant(campaign_id, creator, balance))
    }

    /// Appends a milestone at the next index and advances the milestone
    /// count by exactly one. On any refusal nothing changes.
    pub fn add_milestone(
        &mut self,
        campaign_id: u64,
        caller: AccountId,
        title: String,
        target_amount: u64,
    ) -> (r: Result<(), HopeRiseError>)
        requires
            old(self).wf(),
            campaign_id < old(self).campaigns@.len(),
        ensures
            final(self).wf(),
            final(self).counter == old(self).counter,
            final(self).campaigns@.len() == old(self).campaigns@.len(),
            forall|i: int|
                0 <= i < old(self).campaigns@.len() && i != campaign_id as int
                    ==> #[trigger] final(self).campaigns@[i] == old(self).campaigns@[i],
            match r {
                Ok(_) => {
                    &&& add_milestone_error(old(self).rec(campaign_id as int), caller, title@) is None
                    &&& final(self).rec(campaign_id as int).campaign == (Campaign {
                        milestone_count: (old(self).rec(
                            campaign_id as int,
                        ).campaign.milestone_count + 1) as u8,
                        ..old(self).rec(campaign_id as int).campaign
                    })
                    &&& final(self).rec(campaign_id as int).milestones@ == old(self).rec(
                        campaign_id as int,
                    ).milestones@.push(
                        (Milestone {
                            campaign_id,
                            milestone_index: old(self).rec(
                                campaign_id as int,
                            ).campaign.milestone_count,
                            title,
                            target_amount,
                            is_completed: false,
                        }),
                    )
                    &&& final(self).rec(campaign_id as int).vault == old(self).rec(
                        campaign_id as int,
                    ).vault
                    &&& final(self).rec(campaign_id as int).contributions@ == old(self).rec(
                        campaign_id as int,
                    ).contributions@
                },
                Err(e) => {
                    &&& Some(e) == add_milestone_error(
                        old(self).rec(campaign_id as int),
                        caller,
                        title@,
                    )
                    &&& *final(self) == *old(self)
                },
            },
    {
        let idx = self.slot(campaign_id);
        if caller != self.campaigns[idx].campaign.creator {
            return Err(HopeRiseError::Unauthorized);
        }
        if !self.campaigns[idx].campaign.is_active {
            return Err(HopeRiseError::CampaignNotActive);
        }
        if self.campaigns[idx].campaign.milestone_count >= MAX_MILESTONES_PER_CAMPAIGN {
            return Err(HopeRiseError::MaxMilestonesReached);
        }
        if title.as_str().unicode_len() > MAX_MILESTONE_TITLE_LENGTH {
            return Err(HopeRiseError::MilestoneTitleTooLong);
        }
        let rec = &mut self.campaigns[idx];
        let index = rec.campaign.milestone_count;
        rec.milestones.push(
            Milestone {
                campaign_id,
                milestone_index: index,
                title,
                target_amount,
                is_completed: false,
            },
        );
        rec.campaign.milestone_count = index + 1;
        Ok(())
    }

    /// Marks a milestone complete once the raised total has crossed its
    /// target. Completion is a status signal only: no funds move. On any
    /// refusal nothing changes.
    pub fn complete_milestone(&mut self, campaign_id: u64, caller: AccountId, milestone_index: u8)
        -> (r: Result<(), HopeRiseError>)
        requires
            old(self).wf(),
            campaign_id < old(self).campaigns@.len(),
            milestone_index < old(self).rec(campaign_id as int).campaign.milestone_count,
        ensures
            final(self).wf(),
            final(self).counter == old(self).counter,
            final(self).campaigns@.len() == old(self).campaigns@.len(),
            forall|i: int|
                0 <= i < old(self).campaigns@.len() && i != campaign_id as int
                    ==> #[trigger] final(self).campaigns@[i] == old(self).campaigns@[i],
            match r {
                Ok(_) => {
                    &&& complete_milestone_error(
                        old(self).rec(campaign_id as int),
                        caller,
                        milestone_index,
                    ) is None
                    &&& final(self).rec(campaign_id as int).milestones@ == old(self).rec(
                        campaign_id as int,
                    ).milestones@.update(
                        milestone_index as int,
                        (Milestone {
                            is_completed: true,
                            ..old(self).rec(campaign_id as int).milestones@[milestone_index as int]
                        }),
                    )
                    &&& final(self).rec(campaign_id as int).campaign == old(self).rec(
                        campaign_id as int,
                    ).campaign
                    &&& final(self).rec(campaign_id as int).vault == old(self).rec(
                        campaign_id as int,
                    ).vault
                    &&& final(self).rec(campaign_id as int).contributions@ == old(self).rec(
                        campaign_id as int,
                    ).contributions@
                },
                Err(e) => {
                    &&& Some(e) == complete_milestone_error(
                        old(self).rec(campaign_id as int),
                        caller,
                        milestone_index,
                    )
                    &&& *final(self) == *old(self)
                },
            },
    {
        let idx = self.slot(campaign_id);
        if caller != self.campaigns[idx].campaign.creator {
            return Err(HopeRiseError::Unauthorized);
        }
        let mi = milestone_index as usize;
        if self.campaigns[idx].milestones[mi].is_completed {
            return Err(HopeRiseError::MilestoneAlreadyCompleted);
        }
        if self.campaigns[idx].campaign.amount_raised
            < self.campaigns[idx].milestones[mi].target_amount {
            return Err(HopeRiseError::MilestoneTargetNotReached);
        }
        let rec = &mut self.campaigns[idx];
        let entry = &mut rec.milestones[mi];
        entry.is_completed = true;
        proof {
            assert(self.campaigns@[campaign_id as int].milestones@ =~= old(self).rec(
                campaign_id as int,
            ).milestones@.update(
                milestone_index as int,
                self.campaigns@[campaign_id as int].milestones@[milestone_index as int],
            ));
        }
        Ok(())
    }

    /// Closes the campaign, irreversibly. This is the sole gate that opens
    /// the refund path, and it is independent of the deadline: a creator may
    /// end a campaign early. On any refusal nothing changes.
    pub fn close_campaign(&mut self, campaign_id: u64, caller: AccountId) -> (r: Result<
        (),
        HopeRiseError,
    >)
        requires
            old(self).wf(),
            campaign_id < old(self).campaigns@.len(),
        ensures
            final(self).wf(),
            final(self).counter == old(self).counter,
            final(self).campaigns@.len() == old(self).campaigns@.len(),
            forall|i: int|
                0 <= i < old(self).campaigns@.len() && i != campaign_id as int
                    ==> #[trigger] final(self).campaigns@[i] == old(self).campaigns@[i],
            match r {
                Ok(_) => {
                    &&& close_campaign_error(old(self).rec(campaign_id as int), caller) is None
                    &&& final(self).rec(campaign_id as int) == (CampaignRecord {
                        campaign: (Campaign {
                            is_active: false,
                            ..old(self).rec(campaign_id as int).campaign
                        }),
                        ..old(self).rec(campaign_id as int)
                    })
                },
                Err(e) => {
                    &&& Some(e) == close_campaign_error(old(self).rec(campaign_id as int), caller)
                    &&& *final(self) == *old(self)
                },
            },
    {
        let idx = self.slot(campaign_id);
        if caller != self.campaigns[idx].campaign.creator {
            return Err(HopeRiseError::Unauthorized);
        }
        if !self.campaigns[idx].campaign.is_active {
            return Err(HopeRiseError::CampaignNotActive);
        }
        let rec = &mut self.campaigns[idx];
        rec.campaign.is_active = false;
        Ok(())
    }

    /// Returns exactly the contributor's cumulative deposit from the vault
    /// once the campaign is closed with its goal unmet, and marks the record
    /// claimed so that it can never pay twice. The accounting invariant
    /// guarantees the vault covers every such claim. On any refusal nothing
    /// changes.
    pub fn claim_refund(&mut self, campaign_id: u64, contributor: AccountId) -> (r: Result<
        VaultPayout,
        HopeRiseError,
    >)
        requires
            old(self).wf(),
            campaign_id < old(self).campaigns@.len(),
        ensures
            final(self).wf(),
            final(self).counter == old(self).counter,
            final(self).campaigns@.len() == old(self).campaigns@.len(),
            forall|i: int|
                0 <= i < old(self).campaigns@.len() && i != campaign_id as int
                    ==> #[trigger] final(self).campaigns@[i] == old(self).campaigns@[i],
            match r {
                Ok(p) => {
                    &&& claim_refund_error(old(self).rec(campaign_id as int), contributor) is None
                    &&& p.spec_campaign_id() == campaign_id
                    &&& p.spec_recipient() == contributor
                    &&& p.spec_amount() == old(self).rec(campaign_id as int).contribution_of(
                        contributor,
                    ).amount
                    &&& final(self).rec(campaign_id as int).vault.balance == old(self).rec(
                        campaign_id as int,
                    ).vault.balance - p.spec_amount()
                    &&& final(self).rec(campaign_id as int).vault.campaign_id == old(self).rec(
                        campaign_id as int,
                    ).vault.campaign_id
                    &&& final(self).rec(campaign_id as int).contributions@ == old(self).rec(
                        campaign_id as int,
                    ).contributions@.update(
                        old(self).rec(campaign_id as int).contributor_index(contributor),
                        (Contribution {
                            refund_claimed: true,
                            ..old(self).rec(campaign_id as int).contribution_of(contributor)
                        }),
                    )
                    &&& final(self).rec(campaign_id as int).campaign == old(self).rec(
                        campaign_id as int,
                    ).campaign
                    &&& final(self).rec(campaign_id as int).milestones@ == old(self).rec(
                        campaign_id as int,
                    ).milestones@
                },
                Err(e) => {
                    &&& Some(e) == claim_refund_error(
                        old(self).rec(campaign_id as int),
                        contributor,
                    )
                    &&& *final(self) == *old(self)
                },
            },
    {
        let idx = self.slot(campaign_id);
        if self.campaigns[idx].campaign.is_active {
            return Err(HopeRiseError::CampaignStillActive);
        }
        if self.campaigns[idx].campaign.amount_raised >= self.campaigns[idx].campaign.funding_goal {
            return Err(HopeRiseError::GoalWasMet);
        }
        let ci = match find_contribution(&self.campaigns[idx].contributions, contributor) {
            Some(ci) => ci,
            None => {
                return Err(HopeRiseError::NoContribution);
            },
        };
        proof {
            lemma_contributor_index_is(
                self.campaigns@[campaign_id as int],
                contributor,
                ci as int,
            );
        }
        if self.campaigns[idx].contributions[ci].refund_claimed {
            return Err(HopeRiseError::RefundAlreadyClaimed);
        }
        let refund_amount = self.campaigns[idx].contributions[ci].amount;
        proof {
            lemma_unclaimed_record_covered(
                self.campaigns@[campaign_id as int].contributions@,
                ci as int,
            );
        }
        let ghost s0 = self.campaigns@[campaign_id as int].contributions@;
        let rec = &mut self.campaigns[idx];
        let entry = &mut rec.contributions[ci];
        entry.refund_claimed = true;
        rec.vault.balance = rec.vault.balance - refund_amount;
        proof {
            let s1 = self.campaigns@[campaign_id as int].contributions@;
            assert(s1 =~= s0.update(ci as int, s1[ci as int]));
            lemma_sums_update(s0, ci as int, s1[ci as int]);
        }
        Ok(VaultPayout::grant(campaign_id, contributor, refund_amount))
    }
}

} // verus!
