//! Sums over a campaign's contribution ledger, and how each escrow operation
//! moves them.
//!
//! These spec functions give the accounting invariants their vocabulary:
//! the total ever deposited, the part already paid back out as refunds, and
//! the part still owed. The lemmas say how appending a record, growing a
//! record's amount, and flipping a record's refund flag move each sum.

use vstd::prelude::*;

use crate::state::Contribution;

verus! {

/// Total of all cumulative deposits on the ledger.
pub open spec fn total_deposits(s: Seq<Contribution>) -> int
    decreases s.len(),
{
    if s.len() == 0 {
        0
    } else {
        total_deposits(s.drop_last()) + s.last().amount
    }
}

/// The part of the ledger already paid back out as refunds.
pub open spec fn refunded_deposits(s: Seq<Contribution>) -> int
    decreases s.len(),
{
    if s.len() == 0 {
        0
    } else {
        refunded_deposits(s.drop_last()) + if s.last().refund_claimed {
            s.last().amount as int
        } else {
            0
        }
    }
}

/// The part of the ledger still owed to contributors on the failure path.
pub open spec fn unclaimed_deposits(s: Seq<Contribution>) -> int {
    total_deposits(s) - refunded_deposits(s)
}

/// Both sums start at zero and the refunded part never exceeds the total.
pub proof fn lemma_sums_bounds(s: Seq<Contribution>)
    ensures
        0 <= refunded_deposits(s) <= total_deposits(s),
    decreases s.len(),
{
    if s.len() > 0 {
        lemma_sums_bounds(s.drop_last());
    }
}

/// Appending a record adds its amount to the total, and to the refunded part
/// exactly when the record is already claimed.
pub proof fn lemma_sums_push(s: Seq<Contribution>, c: Contribution)
    ensures
        total_deposits(s.push(c)) == total_deposits(s) + c.amount,
        refunded_deposits(s.push(c)) == refunded_deposits(s) + if c.refund_claimed {
            c.amount as int
        } else {
            0
        },
{
    assert(s.push(c).drop_last() =~= s);
}

/// Replacing the record at one position moves each sum by the difference the
/// replacement makes at that position.
pub proof fn lemma_sums_update(s: Seq<Contribution>, i: int, c: Contribution)
    requires
        0 <= i < s.len(),
    ensures
        total_deposits(s.update(i, c)) == total_deposits(s) - s[i].amount + c.amount,
        refunded_deposits(s.update(i, c)) == refunded_deposits(s) - (if s[i].refund_claimed {
            s[i].amount as int
        } else {
            0
        }) + (if c.refund_claimed {
            c.amount as int
        } else {
            0
        }),
    decreases s.len(),
{
    if i == s.len() - 1 {
        assert(s.update(i, c).drop_last() =~= s.drop_last());
        assert(s.update(i, c).last() == c);
    } else {
        lemma_sums_update(s.drop_last(), i, c);
        assert(s.update(i, c).drop_last() =~= s.drop_last().update(i, c));
        assert(s.update(i, c).last() == s.last());
    }
}

/// No single record exceeds the total of the ledger it stands on.
pub proof fn lemma_record_le_total(s: Seq<Contribution>, i: int)
    requires
        0 <= i < s.len(),
    ensures
        s[i].amount <= total_deposits(s),
    decreases s.len(),
{
    lemma_sums_bounds(s);
    if i == s.len() - 1 {
        lemma_sums_bounds(s.drop_last());
    } else {
        lemma_record_le_total(s.drop_last(), i);
    }
}

/// An unclaimed record fits inside the part still owed: what was refunded so
/// far, plus this record's amount, never exceeds the total.
pub proof fn lemma_unclaimed_record_covered(s: Seq<Contribution>, i: int)
    requires
        0 <= i < s.len(),
        !s[i].refund_claimed,
    ensures
        refunded_deposits(s) + s[i].amount <= total_deposits(s),
    decreases s.len(),
{
    if i == s.len() - 1 {
        lemma_sums_bounds(s.drop_last());
    } else {
        lemma_unclaimed_record_covered(s.drop_last(), i);
    }
}

} // verus!
