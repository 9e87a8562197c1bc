//! The persisted records and their field-level well-formedness.
//!
//! Field order and the fixed maximum string lengths are part of the storage
//! contract: space for each record is pre-allocated at creation time, so a
//! record that exceeds them is rejected rather than truncated.

use vstd::prelude::*;

verus! {

/// Longest accepted campaign title, in characters.
pub const MAX_TITLE_LENGTH: usize = 80;

/// Longest accepted campaign short description, in characters.
pub const MAX_DESCRIPTION_LENGTH: usize = 200;

/// Longest accepted reference string (cover image, story), in characters.
pub const MAX_URL_LENGTH: usize = 200;

/// Longest accepted milestone title, in characters.
pub const MAX_MILESTONE_TITLE_LENGTH: usize = 100;

/// Most milestones one campaign may declare.
pub const MAX_MILESTONES_PER_CAMPAIGN: u8 = 10;

/// Shortest accepted campaign duration, in days.
pub const MIN_CAMPAIGN_DURATION_DAYS: u64 = 1;

/// Longest accepted campaign duration, in days.
pub const MAX_CAMPAIGN_DURATION_DAYS: u64 = 90;

/// Seconds in one day, for the deadline computation.
pub const SECONDS_PER_DAY: i64 = 86400;

/// An identity on the external ledger. The escrow never inspects it: it only
/// compares a request's identity against the identity a record stores, after
/// the host has verified the cryptographic proof of control.
pub type AccountId = u64;

/// An absolute time in seconds, as the external clock reports it. The escrow
/// only compares such values; it never reads a clock itself.
pub type UnixTime = i64;

/// Issues monotonically increasing campaign identifiers: one-time setup
/// creates it at zero, and each campaign creation advances it by exactly one.
#[verifier::ext_equal]
pub struct CampaignCounter {
    /// The identifier the next campaign will receive.
    pub count: u64,
    /// The identity that performed the one-time setup.
    pub authority: AccountId,
}

/// The enumerated tag a campaign is listed under.
#[derive(Clone, Copy, Debug, PartialEq, Eq, Structural)]
pub enum Category {
    Education,
    Health,
    Environment,
    Technology,
    Community,
    Arts,
    Emergency,
    Other,
}

/// The lifecycle aggregate of one funding campaign.
#[verifier::ext_equal]
pub struct Campaign {
    /// Unique identifier, assigned from the counter at creation.
    pub campaign_id: u64,
    /// The identity that created the campaign and may close it, withdraw on
    /// success, and manage milestones.
    pub creator: AccountId,
    /// Display title, at most [`MAX_TITLE_LENGTH`] characters.
    pub title: String,
    /// Short description, at most [`MAX_DESCRIPTION_LENGTH`] characters.
    pub short_description: String,
    /// The tag the campaign is listed under.
    pub category: Category,
    /// Cover-image reference, at most [`MAX_URL_LENGTH`] characters.
    pub cover_image_url: String,
    /// Narrative reference, at most [`MAX_URL_LENGTH`] characters.
    pub story_url: String,
    /// The amount that must be raised for the creator to withdraw; positive.
    pub funding_goal: u64,
    /// Absolute end of the funding window; immutable after creation.
    pub deadline: UnixTime,
    /// Total of all accepted deposits; never decreases (withdrawal drains
    /// the vault, not this counter).
    pub amount_raised: u64,
    /// Number of distinct contributors with a positive deposit.
    pub backer_count: u32,
    /// True until the creator closes the campaign, then false forever.
    pub is_active: bool,
    /// When the campaign was created.
    pub created_at: UnixTime,
    /// How many milestones the campaign has declared, at most
    /// [`MAX_MILESTONES_PER_CAMPAIGN`].
    pub milestone_count: u8,
}

impl Campaign {
    /// The field-level storage contract of one campaign record.
    pub open spec fn wf(self) -> bool {
        &&& self.funding_goal > 0
        &&& self.title@.len() <= MAX_TITLE_LENGTH
        &&& self.short_description@.len() <= MAX_DESCRIPTION_LENGTH
        &&& self.cover_image_url@.len() <= MAX_URL_LENGTH
        &&& self.story_url@.len() <= MAX_URL_LENGTH
        &&& self.milestone_count <= MAX_MILESTONES_PER_CAMPAIGN
    }
}

/// One contributor's cumulative deposit record for one campaign: later
/// deposits by the same contributor accumulate here rather than creating a
/// second record.
#[verifier::ext_equal]
pub struct Contribution {
    /// The campaign the deposit belongs to.
    pub campaign_id: u64,
    /// The identity that deposited and may reclaim on failure.
    pub contributor: AccountId,
    /// Cumulative accepted deposits; positive, since the record is only
    /// created by a first accepted deposit.
    pub amount: u64,
    /// When the first deposit was accepted.
    pub contributed_at: UnixTime,
    /// Set at most once, when the contributor reclaims on failure.
    pub refund_claimed: bool,
}

/// A funding-threshold checkpoint. Completion is a reportable status signal
/// only: it gates no fund movement.
#[verifier::ext_equal]
pub struct Milestone {
    /// The campaign the milestone belongs to.
    pub campaign_id: u64,
    /// Zero-based position, assigned sequentially and immutable.
    pub milestone_index: u8,
    /// Display title, at most [`MAX_MILESTONE_TITLE_LENGTH`] characters.
    pub title: String,
    /// The cumulative funding that must be raised before completion.
    pub target_amount: u64,
    /// False until the creator marks the milestone complete, then true
    /// forever.
    pub is_completed: bool,
}

/// The escrow balance holding one campaign's pooled contributions. Only the
/// system itself may authorize outbound movement: the two sanctioned
/// operations hand back a [`VaultPayout`] order, and no other path can
/// construct one.
#[verifier::ext_equal]
pub struct Vault {
    /// The campaign the vault belongs to.
    pub campaign_id: u64,
    /// The pooled value currently held in escrow.
    pub balance: u64,
}

/// An outbound transfer order authorized by the vault's own authority, not
/// by any external identity. Its fields are private: only withdrawal and
/// refund can construct a value of this type, so holding one proves that the
/// corresponding precondition check passed.
pub struct VaultPayout {
    campaign_id: u64,
    recipient: AccountId,
    amount: u64,
}

impl VaultPayout {
    /// The campaign whose vault pays.
    pub closed spec fn spec_campaign_id(self) -> u64 {
        self.campaign_id
    }

    /// The identity the value is to be delivered to.
    pub closed spec fn spec_recipient(self) -> AccountId {
        self.recipient
    }

    /// How much the vault pays out.
    pub closed spec fn spec_amount(self) -> u64 {
        self.amount
    }

    /// Issues an order; only the escrow operations call this.
    pub(crate) fn grant(campaign_id: u64, recipient: AccountId, amount: u64) -> (p: VaultPayout)
        ensures
            p.spec_campaign_id() == campaign_id,
            p.spec_recipient() == recipient,
            p.spec_amount() == amount,
    {
        VaultPayout { campaign_id, recipient, amount }
    }

    /// The campaign whose vault pays.
    pub fn campaign_id(&self) -> (r: u64)
        ensures
            r == self.spec_campaign_id(),
    {
        self.campaign_id
    }

    /// The identity the value is to be delivered to.
    pub fn recipient(&self) -> (r: AccountId)
        ensures
            r == self.spec_recipient(),
    {
        self.recipient
    }

    /// How much the vault pays out.
    pub fn amount(&self) -> (r: u64)
        ensures
            r == self.spec_amount(),
    {
        self.amount
    }
}

} // verus!
