use crate::collection::{
    donate_base_error, donate_mint_with_membership_error, donate_update_error,
    donate_update_with_membership_error, membership_accepts, trophy_accepts, Collection,
};
use crate::credentials::Proof;
use crate::data::{
    membership_identity_matches, sum_amounts, trophy_identity_matches, Membership, Trophy,
};
use crate::errors::Error;
use crate::managers::{SharedManagers, MEMBERSHIP_RESOURCE, TROPHY_RESOURCE};
use crate::repository::{
    membership_ids_valid, memberships_total, merged_membership_ok, merged_trophy_ok,
    trophies_total, trophy_ids_valid,
};
use vstd::prelude::*;

verus! {

/// Every live trophy's running total equals the sum of its transaction log.
/// The class managers maintain this through every mint, update and merge:
/// it is exactly what `SharedManagers::wf` carries, which every mutating
/// entry point requires and re-establishes.
pub proof fn lemma_trophy_total_matches_log(m: SharedManagers, i: int)
    requires
        m.wf(),
        m.trophies.spec_contains(i),
    ensures
        m.trophies@[i]->0.donated as int == sum_amounts(m.trophies@[i]->0.transactions@),
{
}

/// Every live membership's running total equals the sum of its log.
pub proof fn lemma_membership_total_matches_log(m: SharedManagers, i: int)
    requires
        m.wf(),
        m.memberships.spec_contains(i),
    ensures
        m.memberships@[i]->0.donated as int == sum_amounts(m.memberships@[i]->0.transactions@),
{
}

/// Merging never changes identity-defining fields relative to the template:
/// the consolidated trophy matches the first input on every field the
/// aggregation engine compares.
pub proof fn lemma_trophy_merge_keeps_identity(t: Trophy, m: SharedManagers, ids: Seq<usize>)
    requires
        ids.len() >= 1,
        trophy_ids_valid(m, ids),
        merged_trophy_ok(t, m, ids),
    ensures
        trophy_identity_matches(t, m.trophies@[ids[0] as int]->0),
{
}

/// Merging never changes identity-defining fields relative to the template.
pub proof fn lemma_membership_merge_keeps_identity(
    mb: Membership,
    m: SharedManagers,
    ids: Seq<usize>,
)
    requires
        ids.len() >= 1,
        membership_ids_valid(m, ids),
        merged_membership_ok(mb, m, ids),
    ensures
        membership_identity_matches(mb, m.memberships@[ids[0] as int]->0),
{
}

/// Conservation: merging trophies with totals `d_1 .. d_n` yields one
/// record whose total is their sum, and — with the totals law above — whose
/// combined log sums to the same value.
pub proof fn lemma_trophy_merge_conserves_total(t: Trophy, m: SharedManagers, ids: Seq<usize>)
    requires
        merged_trophy_ok(t, m, ids),
    ensures
        t.donated as int == trophies_total(m, ids),
{
}

/// Conservation for membership merges.
pub proof fn lemma_membership_merge_conserves_total(
    mb: Membership,
    m: SharedManagers,
    ids: Seq<usize>,
)
    requires
        merged_membership_ok(mb, m, ids),
    ensures
        mb.donated as int == memberships_total(m, ids),
{
}

/// Once a collection is closed, every donation entry point rejects with
/// `CollectionClosed`, whatever the amount, proofs or shared state.
/// `close_collection` stamps `closed` and no operation ever clears it, so
/// this holds of every later mint and update on that collection.
pub proof fn lemma_closed_collection_rejects_donations(
    c: Collection,
    m: SharedManagers,
    trophy_p: Proof,
    membership_p: Proof,
    amount: u128,
)
    requires
        c.closed is Some,
    ensures
        donate_base_error(c, amount) == Some(Error::CollectionClosed),
        donate_mint_with_membership_error(c, m, membership_p, amount) == Some(
            Error::CollectionClosed,
        ),
        donate_update_error(c, m, trophy_p, amount) == Some(Error::CollectionClosed),
        donate_update_with_membership_error(c, m, trophy_p, membership_p, amount) == Some(
            Error::CollectionClosed,
        ),
{
}

/// A donation against a trophy of a different collection or creator fails
/// `IdentityMismatch`, on an open collection and a non-empty amount.
pub proof fn lemma_foreign_trophy_rejected(
    c: Collection,
    m: SharedManagers,
    p: Proof,
    amount: u128,
)
    requires
        c.closed is None,
        amount > 0,
        p.id.resource == TROPHY_RESOURCE,
        !trophy_accepts(m.trophies@[p.id.local as int]->0, c),
    ensures
        donate_update_error(c, m, p, amount) == Some(Error::IdentityMismatch),
{
}

/// A donation against a membership of a different creator fails
/// `IdentityMismatch`, on an open collection and a non-empty amount.
pub proof fn lemma_foreign_membership_rejected(
    c: Collection,
    m: SharedManagers,
    p: Proof,
    amount: u128,
)
    requires
        c.closed is None,
        amount > 0,
        p.id.resource == MEMBERSHIP_RESOURCE,
        !membership_accepts(m.memberships@[p.id.local as int]->0, c),
    ensures
        donate_mint_with_membership_error(c, m, p, amount) == Some(Error::IdentityMismatch),
{
}

} // verus!
