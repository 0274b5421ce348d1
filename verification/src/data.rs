use crate::credentials::GlobalId;
use crate::dates::Date;
use vstd::prelude::*;

verus! {

/// One donation entry in a record's append-only transaction log.
#[derive(Clone, Copy, Debug, PartialEq, Eq, Structural)]
pub struct Transaction {
    pub amount: u128,
    pub created: Date,
}

/// The per-collection achievement record.  The fields above the transaction
/// log define its identity and never change after minting; the last three
/// evolve with every donation.
#[derive(Debug)]
pub struct Trophy {
    pub name: String,
    pub description: String,
    pub creator: GlobalId,
    pub creator_name: String,
    pub creator_slug: String,
    pub info_url: String,
    pub collection_id: String,
    pub created: Date,
    pub transactions: Vec<Transaction>,
    pub donated: u128,
    pub key_image_url: String,
}

/// The per-creator ongoing-support record: the same shape as a trophy minus
/// the collection binding.
#[derive(Debug)]
pub struct Membership {
    pub name: String,
    pub description: String,
    pub creator: GlobalId,
    pub creator_name: String,
    pub creator_slug: String,
    pub info_url: String,
    pub created: Date,
    pub transactions: Vec<Transaction>,
    pub donated: u128,
    pub key_image_url: String,
}

/// The creator-profile record, one per creator identity; `funded` grows with
/// every donation to that creator, whatever record class the donor chose.
#[derive(Debug)]
pub struct Creator {
    pub name: String,
    pub description: String,
    pub creator_name: String,
    pub creator_slug: String,
    pub created: Date,
    pub funded: u128,
    pub key_image_url: String,
}

/// The sum of the amounts in a transaction log.
pub open spec fn sum_amounts(s: Seq<Transaction>) -> int
    decreases s.len(),
{
    if s.len() == 0 {
        0
    } else {
        sum_amounts(s.drop_last()) + s.last().amount
    }
}

/// A trophy's running total equals the sum of its log.
pub open spec fn trophy_consistent(t: Trophy) -> bool {
    t.donated as int == sum_amounts(t.transactions@)
}

/// A membership's running total equals the sum of its log.
pub open spec fn membership_consistent(m: Membership) -> bool {
    m.donated as int == sum_amounts(m.transactions@)
}

/// What the trophy class manager maintains of every record: the running
/// total matches the log, and the creation date names a real day.
pub open spec fn trophy_wf(t: Trophy) -> bool {
    trophy_consistent(t) && t.created.valid()
}

/// What the membership class manager maintains of every record.
pub open spec fn membership_wf(m: Membership) -> bool {
    membership_consistent(m) && m.created.valid()
}

/// What the creator-profile class manager maintains of every record.
pub open spec fn creator_wf(c: Creator) -> bool {
    c.created.valid()
}

/// The fields whose equality across trophies is required for a merge.
pub open spec fn trophy_identity_matches(a: Trophy, b: Trophy) -> bool {
    &&& a.collection_id@ == b.collection_id@
    &&& a.info_url@ == b.info_url@
    &&& a.name@ == b.name@
    &&& a.creator == b.creator
    &&& a.creator_name@ == b.creator_name@
    &&& a.creator_slug@ == b.creator_slug@
}

/// The fields whose equality across memberships is required for a merge:
/// everything identity-defining except the collection binding, which
/// memberships do not have.
pub open spec fn membership_identity_matches(a: Membership, b: Membership) -> bool {
    &&& a.info_url@ == b.info_url@
    &&& a.name@ == b.name@
    &&& a.creator == b.creator
    &&& a.creator_name@ == b.creator_name@
    &&& a.creator_slug@ == b.creator_slug@
}

/// The log is ordered by entry date, oldest first.
pub open spec fn sorted_by_date(s: Seq<Transaction>) -> bool {
    forall|i: int, j: int| 0 <= i <= j < s.len() ==> s[i].created.le(s[j].created)
}

pub proof fn lemma_sum_push(s: Seq<Transaction>, t: Transaction)
    ensures
        sum_amounts(s.push(t)) == sum_amounts(s) + t.amount,
{
    assert(s.push(t).drop_last() =~= s);
    assert(s.push(t).last() == t);
}

pub proof fn lemma_sum_concat(a: Seq<Transaction>, b: Seq<Transaction>)
    ensures
        sum_amounts(a + b) == sum_amounts(a) + sum_amounts(b),
    decreases b.len(),
{
    if b.len() == 0 {
        assert(a + b =~= a);
    } else {
        lemma_sum_concat(a, b.drop_last());
        assert((a + b).drop_last() =~= a + b.drop_last());
        assert((a + b).last() == b.last());
    }
}

pub proof fn lemma_sum_insert(s: Seq<Transaction>, i: int, t: Transaction)
    requires
        0 <= i <= s.len(),
    ensures
        sum_amounts(s.insert(i, t)) == sum_amounts(s) + t.amount,
{
    let pre = s.subrange(0, i);
    let post = s.subrange(i, s.len() as int);
    assert(s.insert(i, t) =~= pre + seq![t] + post);
    assert(s =~= pre + post);
    assert(seq![t].drop_last() =~= Seq::<Transaction>::empty());
    assert(sum_amounts(Seq::<Transaction>::empty()) == 0);
    assert(sum_amounts(seq![t]) == t.amount);
    lemma_sum_concat(pre, seq![t]);
    lemma_sum_concat(pre + seq![t], post);
    lemma_sum_concat(pre, post);
    assert(sum_amounts(s.insert(i, t)) == sum_amounts(pre + seq![t] + post));
    assert(sum_amounts(s) == sum_amounts(pre) + sum_amounts(post));
}

/// The position before the first entry dated after `t`, in a sorted log.
fn insert_position(out: &Vec<Transaction>, t: &Transaction) -> (i: usize)
    requires
        sorted_by_date(out@),
    ensures
        i <= out@.len(),
        forall|j: int| 0 <= j < i ==> out@[j].created.le(t.created),
        i < out@.len() ==> !out@[i as int].created.le(t.created),
{
    let mut i: usize = 0;
    while i < out.len()
        invariant
            i <= out@.len(),
            forall|j: int| 0 <= j < i ==> out@[j].created.le(t.created),
        decreases out@.len() - i,
    {
        if !out[i].created.on_or_before(&t.created) {
            return i;
        }
        i = i + 1;
    }
    i
}

/// Orders a transaction log by entry date, oldest first.  The result holds
/// exactly the entries of the input; the relative order of entries sharing a
/// date is not part of the contract, since by date alone they have no fixed
/// order.
pub fn sort_transactions_by_date(input: Vec<Transaction>) -> (r: Vec<Transaction>)
    ensures
        sorted_by_date(r@),
        r@.to_multiset() == input@.to_multiset(),
        sum_amounts(r@) == sum_amounts(input@),
        r@.len() == input@.len(),
{
    let mut out: Vec<Transaction> = Vec::new();
    let mut k: usize = 0;
    proof {
        assert(input@.subrange(0, 0) =~= Seq::<Transaction>::empty());
    }
    while k < input.len()
        invariant
            k <= input@.len(),
            out@.len() == k,
            sorted_by_date(out@),
            out@.to_multiset() == input@.subrange(0, k as int).to_multiset(),
            sum_amounts(out@) == sum_amounts(input@.subrange(0, k as int)),
        decreases input@.len() - k,
    {
        let t = input[k];
        let i = insert_position(&out, &t);
        proof {
            broadcast use vstd::seq_lib::to_multiset_insert;
            broadcast use vstd::seq_lib::to_multiset_build;

            let prev = out@;
            assert forall|a: int, b: int| 0 <= a <= b < prev.insert(i as int, t).len() implies prev
                .insert(i as int, t)[a].created.le(prev.insert(i as int, t)[b].created) by {
                let ins = prev.insert(i as int, t);
                if a < i && b == i {
                    assert(ins[a] == prev[a]);
                    assert(ins[b] == t);
                } else if a == i && b > i {
                    assert(ins[a] == t);
                    assert(ins[b] == prev[b - 1]);
                    assert(!prev[i as int].created.le(t.created));
                    assert(prev[i as int].created.le(prev[b - 1].created));
                } else if a < i && b > i {
                    assert(ins[a] == prev[a]);
                    assert(ins[b] == prev[b - 1]);
                    assert(prev[a].created.le(prev[b - 1].created));
                }
            }
            lemma_sum_insert(prev, i as int, t);
            lemma_sum_push(input@.subrange(0, k as int), input@[k as int]);
            assert(input@.subrange(0, k as int + 1) =~= input@.subrange(0, k as int).push(
                input@[k as int],
            ));
        }
        out.insert(i, t);
        k = k + 1;
    }
    proof {
        assert(input@.subrange(0, input@.len() as int) =~= input@);
    }
    out
}

} // verus!
