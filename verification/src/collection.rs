use crate::credentials::{GlobalId, MinterBadge, Proof};
use crate::data::{
    creator_wf, lemma_sum_push, membership_wf, sum_amounts, trophy_wf, Creator, Membership,
    Transaction, Trophy,
};
use crate::dates::Date;
use crate::errors::Error;
use crate::managers::{SharedManagers, CREATOR_BADGE_RESOURCE, MEMBERSHIP_RESOURCE, TROPHY_RESOURCE};
use crate::util::{
    creator_url_chars, date_chars, generate_created_string, generate_creator_url,
    generate_membership_url, generate_profile_url, generate_trophy_url, membership_url_chars,
    profile_url_chars, trophy_url_chars,
};
use vstd::prelude::*;
use vstd::string::*;

verus! {

/// Everything a fresh collection receives from the repository: the creator's
/// checked credential and identity, the substrate-assigned collection id,
/// the trophy template, and the one minting capability scoped to it.
pub struct CollectionArg {
    pub repository_owner_access_badge_address: u64,
    pub creator_badge_proof: Proof,
    pub minter_badge: MinterBadge,
    pub creator_name: String,
    pub creator_slug: String,
    pub trophy_name: String,
    pub trophy_description: String,
    pub collection_id: String,
    pub dapp_definition_address: u64,
}

/// One creator's collection instance: its two custodial balances, its
/// identity, and its open/closed lifecycle.  Donations arrive here; records
/// are minted and updated through the shared class managers, which are lent
/// to each call.
pub struct Collection {
    /// The minting capability scoped to this collection.  The capability
    /// type has no public constructor, so it exists only where the
    /// repository put it.
    pub minter_badge: MinterBadge,
    /// Collected donations, minus the fee cut.
    pub donations: u128,
    /// The fee cut of every donation, withdrawable by the platform operator.
    pub fees: u128,
    pub creator_name: String,
    pub creator_slug: String,
    pub trophy_name: String,
    pub trophy_description: String,
    /// The identity that ties every trophy minted here to this collection.
    pub collection_id: String,
    /// The creator credential that owns this collection.
    pub creator_badge_global_id: GlobalId,
    /// The platform operator's badge class, which gates fee withdrawal.
    pub repository_owner_access_badge_address: u64,
    pub dapp_definition_address: u64,
    /// The terminal close stamp; while set, donations are rejected.
    pub closed: Option<Date>,
}

/// The fixed fee percentage cut from every donation.
pub open spec fn spec_fee(amount: u128) -> int {
    amount * 4 / 100
}

/// Computes the 4% fee cut, rounded down.
pub fn fee_cut(amount: u128) -> (f: u128)
    ensures
        f == spec_fee(amount),
        f <= amount,
{
    let q = amount / 100;
    let r = amount % 100;
    proof {
        assert(q <= u128::MAX / 100) by (nonlinear_arith)
            requires
                q == amount / 100,
                amount <= u128::MAX,
        ;
        assert(q * 4 + (r * 4) / 100 == amount * 4 / 100) by (nonlinear_arith)
            requires
                amount == 100 * q + r,
                0 <= q,
                0 <= r < 100,
        ;
        assert(q * 4 + (r * 4) / 100 <= amount) by (nonlinear_arith)
            requires
                amount == 100 * q + r,
                0 <= q,
                0 <= r < 100,
        ;
    }
    q * 4 + (r * 4) / 100
}

/// A membership record may be updated through this collection only when it
/// belongs to the collection's creator.
pub open spec fn membership_accepts(mb: Membership, c: Collection) -> bool {
    mb.creator_slug@ == c.creator_slug@ && mb.creator == c.creator_badge_global_id
}

/// A trophy record may be updated only through the collection it was minted
/// by, for its creator.
pub open spec fn trophy_accepts(t: Trophy, c: Collection) -> bool {
    t.collection_id@ == c.collection_id@ && t.creator == c.creator_badge_global_id
}

/// The checks every donation entry point makes first: the collection must be
/// open and the donation non-empty.
pub open spec fn donate_base_error(c: Collection, amount: u128) -> Option<Error> {
    if c.closed is Some {
        Some(Error::CollectionClosed)
    } else if amount == 0 {
        Some(Error::ConstraintViolation)
    } else {
        None
    }
}

/// How attesting a held membership against this collection can fail.
pub open spec fn membership_check_error(c: Collection, m: SharedManagers, p: Proof) -> Option<
    Error,
> {
    if p.id.resource != MEMBERSHIP_RESOURCE {
        Some(Error::WrongClass)
    } else if !membership_accepts(m.memberships@[p.id.local as int]->0, c) {
        Some(Error::IdentityMismatch)
    } else {
        None
    }
}

/// How attesting a held trophy against this collection can fail.
pub open spec fn trophy_check_error(c: Collection, m: SharedManagers, p: Proof) -> Option<Error> {
    if p.id.resource != TROPHY_RESOURCE {
        Some(Error::WrongClass)
    } else if !trophy_accepts(m.trophies@[p.id.local as int]->0, c) {
        Some(Error::IdentityMismatch)
    } else {
        None
    }
}

pub open spec fn donate_mint_with_membership_error(
    c: Collection,
    m: SharedManagers,
    p: Proof,
    amount: u128,
) -> Option<Error> {
    if donate_base_error(c, amount) is Some {
        donate_base_error(c, amount)
    } else {
        membership_check_error(c, m, p)
    }
}

pub open spec fn donate_update_error(
    c: Collection,
    m: SharedManagers,
    p: Proof,
    amount: u128,
) -> Option<Error> {
    if donate_base_error(c, amount) is Some {
        donate_base_error(c, amount)
    } else {
        trophy_check_error(c, m, p)
    }
}

pub open spec fn donate_update_with_membership_error(
    c: Collection,
    m: SharedManagers,
    trophy_p: Proof,
    membership_p: Proof,
    amount: u128,
) -> Option<Error> {
    if donate_base_error(c, amount) is Some {
        donate_base_error(c, amount)
    } else if membership_check_error(c, m, membership_p) is Some {
        membership_check_error(c, m, membership_p)
    } else {
        trophy_check_error(c, m, trophy_p)
    }
}

/// What a freshly minted trophy holds, given the collection, the base path,
/// the clock and the donated amount.
pub open spec fn minted_trophy_ok(
    t: Trophy,
    c: Collection,
    base: Seq<char>,
    now: Date,
    amount: u128,
) -> bool {
    &&& t.name@ == c.trophy_name@
    &&& t.description@ == c.trophy_description@
    &&& t.creator == c.creator_badge_global_id
    &&& t.creator_name@ == c.creator_name@
    &&& t.creator_slug@ == c.creator_slug@
    &&& t.info_url@ == profile_url_chars(base, c.creator_slug@)
    &&& t.collection_id@ == c.collection_id@
    &&& t.created == now
    &&& t.transactions@ == seq![Transaction { amount, created: now }]
    &&& t.donated == amount
    &&& t.key_image_url@ == trophy_url_chars(base, c.collection_id@, amount as nat, date_chars(now))
}

/// The fixed text of a membership record's description.
pub open spec fn membership_description_chars(creator_name: Seq<char>) -> Seq<char> {
    "Digital emblem celebrating "@ + creator_name
        + "'s crowdfunding journey. It evolves with cumulative donations. It's a symbol of encouragement, encapsulating the artist-backer bond in the digital age."@
}

/// What a freshly minted membership holds.
pub open spec fn minted_membership_ok(
    mb: Membership,
    c: Collection,
    base: Seq<char>,
    now: Date,
    amount: u128,
) -> bool {
    &&& mb.name@ == "Membership: "@ + c.creator_name@
    &&& mb.description@ == membership_description_chars(c.creator_name@)
    &&& mb.creator == c.creator_badge_global_id
    &&& mb.creator_name@ == c.creator_name@
    &&& mb.creator_slug@ == c.creator_slug@
    &&& mb.info_url@ == profile_url_chars(base, c.creator_slug@)
    &&& mb.created == now
    &&& mb.transactions@ == seq![Transaction { amount, created: now }]
    &&& mb.donated == amount
    &&& mb.key_image_url@ == membership_url_chars(base, c.creator_slug@, amount as nat, date_chars(now))
}

/// How one donation changes the creator-profile record: the funded total
/// grows and the url is re-derived from it; everything else stays.
pub open spec fn creator_updated_ok(
    old_c: Creator,
    new_c: Creator,
    base: Seq<char>,
    amount: u128,
) -> bool {
    &&& new_c.funded == old_c.funded + amount
    &&& new_c.key_image_url@ == creator_url_chars(base, new_c.funded as nat, date_chars(old_c.created))
    &&& new_c.name == old_c.name
    &&& new_c.description == old_c.description
    &&& new_c.creator_name == old_c.creator_name
    &&& new_c.creator_slug == old_c.creator_slug
    &&& new_c.created == old_c.created
}

/// How one donation changes a trophy record: one entry is appended, the
/// total grows by the amount, the url is re-derived; the identity fields
/// stay.
pub open spec fn updated_trophy_ok(
    old_t: Trophy,
    new_t: Trophy,
    base: Seq<char>,
    now: Date,
    amount: u128,
) -> bool {
    &&& new_t.name == old_t.name
    &&& new_t.description == old_t.description
    &&& new_t.creator == old_t.creator
    &&& new_t.creator_name == old_t.creator_name
    &&& new_t.creator_slug == old_t.creator_slug
    &&& new_t.info_url == old_t.info_url
    &&& new_t.collection_id == old_t.collection_id
    &&& new_t.created == old_t.created
    &&& new_t.transactions@ == old_t.transactions@.push(Transaction { amount, created: now })
    &&& new_t.donated == old_t.donated + amount
    &&& new_t.key_image_url@ == trophy_url_chars(
        base,
        old_t.collection_id@,
        new_t.donated as nat,
        date_chars(old_t.created),
    )
}

/// How one donation changes a membership record.
pub open spec fn updated_membership_ok(
    old_m: Membership,
    new_m: Membership,
    base: Seq<char>,
    now: Date,
    amount: u128,
) -> bool {
    &&& new_m.name == old_m.name
    &&& new_m.description == old_m.description
    &&& new_m.creator == old_m.creator
    &&& new_m.creator_name == old_m.creator_name
    &&& new_m.creator_slug == old_m.creator_slug
    &&& new_m.info_url == old_m.info_url
    &&& new_m.created == old_m.created
    &&& new_m.transactions@ == old_m.transactions@.push(Transaction { amount, created: now })
    &&& new_m.donated == old_m.donated + amount
    &&& new_m.key_image_url@ == membership_url_chars(
        base,
        old_m.creator_slug@,
        new_m.donated as nat,
        date_chars(old_m.created),
    )
}

/// A trophy was appended to the shared class and nothing else in that class
/// changed.
pub open spec fn trophy_minted_into(
    old_m: SharedManagers,
    new_m: SharedManagers,
    c: Collection,
    now: Date,
    amount: u128,
) -> bool {
    &&& new_m.trophies@.len() == old_m.trophies@.len() + 1
    &&& forall|j: int|
        0 <= j < old_m.trophies@.len() ==> new_m.trophies@[j] == #[trigger] old_m.trophies@[j]
    &&& new_m.trophies@.last() is Some
    &&& minted_trophy_ok(new_m.trophies@.last()->0, c, old_m.base_path@, now, amount)
}

/// A membership was appended to the shared class and nothing else in that
/// class changed.
pub open spec fn membership_minted_into(
    old_m: SharedManagers,
    new_m: SharedManagers,
    c: Collection,
    now: Date,
    amount: u128,
) -> bool {
    &&& new_m.memberships@.len() == old_m.memberships@.len() + 1
    &&& forall|j: int|
        0 <= j < old_m.memberships@.len() ==> new_m.memberships@[j] == #[trigger] old_m.memberships@[j]
    &&& new_m.memberships@.last() is Some
    &&& minted_membership_ok(new_m.memberships@.last()->0, c, old_m.base_path@, now, amount)
}

/// The collection's creator-profile record was updated and no other creator
/// record changed.
pub open spec fn creator_updated_into(
    old_m: SharedManagers,
    new_m: SharedManagers,
    c: Collection,
    amount: u128,
) -> bool {
    &&& new_m.creators@.len() == old_m.creators@.len()
    &&& forall|j: int|
        0 <= j < old_m.creators@.len() && j != c.creator_badge_global_id.local as int
            ==> new_m.creators@[j] == #[trigger] old_m.creators@[j]
    &&& new_m.creators.spec_contains(c.creator_badge_global_id.local as int)
    &&& creator_updated_ok(spec_creator(old_m, c), spec_creator(new_m, c), old_m.base_path@, amount)
}

/// The trophy under `id` was updated and no other trophy changed.
pub open spec fn trophy_updated_into(
    old_m: SharedManagers,
    new_m: SharedManagers,
    id: int,
    now: Date,
    amount: u128,
) -> bool {
    &&& new_m.trophies@.len() == old_m.trophies@.len()
    &&& forall|j: int|
        0 <= j < old_m.trophies@.len() && j != id ==> new_m.trophies@[j]
            == #[trigger] old_m.trophies@[j]
    &&& new_m.trophies.spec_contains(id)
    &&& updated_trophy_ok(
        old_m.trophies@[id]->0,
        new_m.trophies@[id]->0,
        old_m.base_path@,
        now,
        amount,
    )
}

/// The membership under `id` was updated and no other membership changed.
pub open spec fn membership_updated_into(
    old_m: SharedManagers,
    new_m: SharedManagers,
    id: int,
    now: Date,
    amount: u128,
) -> bool {
    &&& new_m.memberships@.len() == old_m.memberships@.len()
    &&& forall|j: int|
        0 <= j < old_m.memberships@.len() && j != id ==> new_m.memberships@[j]
            == #[trigger] old_m.memberships@[j]
    &&& new_m.memberships.spec_contains(id)
    &&& updated_membership_ok(
        old_m.memberships@[id]->0,
        new_m.memberships@[id]->0,
        old_m.base_path@,
        now,
        amount,
    )
}

/// The balance and supply headroom a donation of `amount` needs; the host's
/// number widths force these bounds, nothing else does.
pub open spec fn donation_fits(c: Collection, m: SharedManagers, amount: u128) -> bool {
    &&& spec_creator(m, c).funded + amount <= u128::MAX
    &&& m.thanks_supply + amount <= u128::MAX
    &&& c.donations + amount <= u128::MAX
    &&& c.fees + amount <= u128::MAX
}

/// Everything a successful `donate_mint` changes, and nothing else.
pub open spec fn donate_mint_ok(
    old_c: Collection,
    new_c: Collection,
    old_m: SharedManagers,
    new_m: SharedManagers,
    now: Date,
    amount: u128,
    out: (GlobalId, u128, GlobalId),
) -> bool {
    &&& trophy_minted_into(old_m, new_m, old_c, now, amount)
    &&& membership_minted_into(old_m, new_m, old_c, now, amount)
    &&& creator_updated_into(old_m, new_m, old_c, amount)
    &&& new_m.thanks_supply == old_m.thanks_supply + amount
    &&& new_m.base_path == old_m.base_path
    &&& new_m.minter_serials == old_m.minter_serials
    &&& out.0 == (GlobalId { resource: TROPHY_RESOURCE, local: old_m.trophies@.len() as usize })
    &&& out.1 == amount
    &&& out.2 == (GlobalId {
        resource: MEMBERSHIP_RESOURCE,
        local: old_m.memberships@.len() as usize,
    })
    &&& new_c == (Collection {
        donations: (old_c.donations + amount - spec_fee(amount)) as u128,
        fees: (old_c.fees + spec_fee(amount)) as u128,
        ..old_c
    })
}

/// Everything a successful `donate_mint_with_membership` changes.
pub open spec fn donate_mint_with_membership_ok(
    old_c: Collection,
    new_c: Collection,
    old_m: SharedManagers,
    new_m: SharedManagers,
    membership_id: int,
    now: Date,
    amount: u128,
    out: (GlobalId, u128),
) -> bool {
    &&& trophy_minted_into(old_m, new_m, old_c, now, amount)
    &&& membership_updated_into(old_m, new_m, membership_id, now, amount)
    &&& creator_updated_into(old_m, new_m, old_c, amount)
    &&& new_m.thanks_supply == old_m.thanks_supply + amount
    &&& new_m.base_path == old_m.base_path
    &&& new_m.minter_serials == old_m.minter_serials
    &&& out.0 == (GlobalId { resource: TROPHY_RESOURCE, local: old_m.trophies@.len() as usize })
    &&& out.1 == amount
    &&& new_c == (Collection {
        donations: (old_c.donations + amount - spec_fee(amount)) as u128,
        fees: (old_c.fees + spec_fee(amount)) as u128,
        ..old_c
    })
}

/// Everything a successful `donate_update` changes.
pub open spec fn donate_update_ok(
    old_c: Collection,
    new_c: Collection,
    old_m: SharedManagers,
    new_m: SharedManagers,
    trophy_id: int,
    now: Date,
    amount: u128,
    out: (u128, GlobalId),
) -> bool {
    &&& trophy_updated_into(old_m, new_m, trophy_id, now, amount)
    &&& membership_minted_into(old_m, new_m, old_c, now, amount)
    &&& creator_updated_into(old_m, new_m, old_c, amount)
    &&& new_m.thanks_supply == old_m.thanks_supply + amount
    &&& new_m.base_path == old_m.base_path
    &&& new_m.minter_serials == old_m.minter_serials
    &&& out.0 == amount
    &&& out.1 == (GlobalId {
        resource: MEMBERSHIP_RESOURCE,
        local: old_m.memberships@.len() as usize,
    })
    &&& new_c == (Collection {
        donations: (old_c.donations + amount - spec_fee(amount)) as u128,
        fees: (old_c.fees + spec_fee(amount)) as u128,
        ..old_c
    })
}

/// Everything a successful `donate_update_with_membership` changes.
pub open spec fn donate_update_with_membership_ok(
    old_c: Collection,
    new_c: Collection,
    old_m: SharedManagers,
    new_m: SharedManagers,
    trophy_id: int,
    membership_id: int,
    now: Date,
    amount: u128,
    out: u128,
) -> bool {
    &&& trophy_updated_into(old_m, new_m, trophy_id, now, amount)
    &&& membership_updated_into(old_m, new_m, membership_id, now, amount)
    &&& creator_updated_into(old_m, new_m, old_c, amount)
    &&& new_m.thanks_supply == old_m.thanks_supply + amount
    &&& new_m.base_path == old_m.base_path
    &&& new_m.minter_serials == old_m.minter_serials
    &&& out == amount
    &&& new_c == (Collection {
        donations: (old_c.donations + amount - spec_fee(amount)) as u128,
        fees: (old_c.fees + spec_fee(amount)) as u128,
        ..old_c
    })
}

/// The collection's creator credential names a live creator-profile record.
pub open spec fn collection_linked(c: Collection, m: SharedManagers) -> bool {
    &&& c.creator_badge_global_id.resource == CREATOR_BADGE_RESOURCE
    &&& m.creators.spec_contains(c.creator_badge_global_id.local as int)
}

/// The creator-profile record behind the collection's credential.
pub open spec fn spec_creator(m: SharedManagers, c: Collection) -> Creator {
    m.creators@[c.creator_badge_global_id.local as int]->0
}

impl Collection {
    /// Instantiates a collection from the repository's argument bundle.
    /// Reachable only through the repository, which alone can mint the
    /// capability the bundle carries.
    pub fn new(arg: CollectionArg) -> (c: Collection)
        ensures
            c.donations == 0,
            c.fees == 0,
            c.creator_name == arg.creator_name,
            c.creator_slug == arg.creator_slug,
            c.trophy_name == arg.trophy_name,
            c.trophy_description == arg.trophy_description,
            c.collection_id == arg.collection_id,
            c.creator_badge_global_id == arg.creator_badge_proof.id,
            c.repository_owner_access_badge_address == arg.repository_owner_access_badge_address,
            c.dapp_definition_address == arg.dapp_definition_address,
            c.closed is None,
    {
        Collection {
            minter_badge: arg.minter_badge,
            donations: 0,
            fees: 0,
            creator_name: arg.creator_name,
            creator_slug: arg.creator_slug,
            trophy_name: arg.trophy_name,
            trophy_description: arg.trophy_description,
            collection_id: arg.collection_id,
            creator_badge_global_id: arg.creator_badge_proof.id,
            repository_owner_access_badge_address: arg.repository_owner_access_badge_address,
            dapp_definition_address: arg.dapp_definition_address,
            closed: None,
        }
    }

    /// Adds a donation to the creator-profile record behind this
    /// collection's credential and re-derives its image url.
    fn update_creator_metadata(&self, managers: &mut SharedManagers, amount: u128)
        requires
            old(managers).wf(),
            collection_linked(*self, *old(managers)),
            spec_creator(*old(managers), *self).funded + amount <= u128::MAX,
        ensures
            final(managers).wf(),
            creator_updated_into(*old(managers), *final(managers), *self, amount),
            final(managers).trophies == old(managers).trophies,
            final(managers).memberships == old(managers).memberships,
            final(managers).thanks_supply == old(managers).thanks_supply,
            final(managers).base_path == old(managers).base_path,
            final(managers).minter_serials == old(managers).minter_serials,
    {
        let local = self.creator_badge_global_id.local;
        let base = managers.base_path.clone();
        proof {
            assert(creator_wf(old(managers).creators@[local as int]->0));
        }
        let mut data = managers.creators.take(local);
        let created_str = generate_created_string(data.created);
        data.funded = data.funded + amount;
        data.key_image_url = generate_creator_url(base, data.funded, created_str);
        managers.update_creator(&self.minter_badge, local, data);
    }

    /// Builds and mints a fresh trophy for one donation.
    fn mint_trophy(&self, managers: &mut SharedManagers, now: Date, amount: u128) -> (id: usize)
        requires
            old(managers).wf(),
            now.valid(),
            old(managers).trophies@.len() < usize::MAX,
        ensures
            final(managers).wf(),
            id == old(managers).trophies@.len(),
            trophy_minted_into(*old(managers), *final(managers), *self, now, amount),
            final(managers).memberships == old(managers).memberships,
            final(managers).creators == old(managers).creators,
            final(managers).thanks_supply == old(managers).thanks_supply,
            final(managers).base_path == old(managers).base_path,
            final(managers).minter_serials == old(managers).minter_serials,
    {
        let base = managers.base_path.clone();
        let created_str = generate_created_string(now);
        let mut txs: Vec<Transaction> = Vec::new();
        txs.push(Transaction { amount, created: now });
        let key_url = generate_trophy_url(
            base.clone(),
            amount,
            created_str,
            self.collection_id.clone(),
        );
        let info_url = generate_profile_url(base, self.creator_slug.clone());
        let t = Trophy {
            name: self.trophy_name.clone(),
            description: self.trophy_description.clone(),
            creator: self.creator_badge_global_id,
            creator_name: self.creator_name.clone(),
            creator_slug: self.creator_slug.clone(),
            info_url,
            collection_id: self.collection_id.clone(),
            created: now,
            transactions: txs,
            donated: amount,
            key_image_url: key_url,
        };
        proof {
            assert(t.transactions@ =~= seq![Transaction { amount, created: now }]);
            assert(seq![Transaction { amount, created: now }].drop_last()
                =~= Seq::<Transaction>::empty());
            assert(sum_amounts(Seq::<Transaction>::empty()) == 0);
            assert(sum_amounts(t.transactions@) == amount as int);
        }
        managers.mint_trophy(&self.minter_badge, t)
    }

    /// Builds and mints a fresh membership for one donation.
    fn mint_membership(&self, managers: &mut SharedManagers, now: Date, amount: u128) -> (id:
        usize)
        requires
            old(managers).wf(),
            now.valid(),
            old(managers).memberships@.len() < usize::MAX,
        ensures
            final(managers).wf(),
            id == old(managers).memberships@.len(),
            membership_minted_into(*old(managers), *final(managers), *self, now, amount),
            final(managers).trophies == old(managers).trophies,
            final(managers).creators == old(managers).creators,
            final(managers).thanks_supply == old(managers).thanks_supply,
            final(managers).base_path == old(managers).base_path,
            final(managers).minter_serials == old(managers).minter_serials,
    {
        let base = managers.base_path.clone();
        let created_str = generate_created_string(now);
        let mut txs: Vec<Transaction> = Vec::new();
        txs.push(Transaction { amount, created: now });
        let mut name = "Membership: ".to_owned();
        name.append(self.creator_name.as_str());
        let mut description = "Digital emblem celebrating ".to_owned();
        description.append(self.creator_name.as_str());
        description.append(
            "'s crowdfunding journey. It evolves with cumulative donations. It's a symbol of encouragement, encapsulating the artist-backer bond in the digital age.",
        );
        let key_url = generate_membership_url(
            base.clone(),
            amount,
            created_str,
            self.creator_slug.clone(),
        );
        let info_url = generate_profile_url(base, self.creator_slug.clone());
        let mb = Membership {
            name,
            description,
            creator: self.creator_badge_global_id,
            creator_name: self.creator_name.clone(),
            creator_slug: self.creator_slug.clone(),
            info_url,
            created: now,
            transactions: txs,
            donated: amount,
            key_image_url: key_url,
        };
        proof {
            assert(mb.transactions@ =~= seq![Transaction { amount, created: now }]);
            assert(seq![Transaction { amount, created: now }].drop_last()
                =~= Seq::<Transaction>::empty());
            assert(sum_amounts(Seq::<Transaction>::empty()) == 0);
            assert(sum_amounts(mb.transactions@) == amount as int);
        }
        managers.mint_membership(&self.minter_badge, mb)
    }

    /// Appends one donation to a trophy this collection minted and
    /// re-derives its image url.
    fn update_trophy_metadata(
        &self,
        managers: &mut SharedManagers,
        now: Date,
        id: usize,
        amount: u128,
    )
        requires
            old(managers).wf(),
            now.valid(),
            old(managers).trophies.spec_contains(id as int),
            trophy_accepts(old(managers).trophies@[id as int]->0, *self),
            old(managers).trophies@[id as int]->0.donated + amount <= u128::MAX,
        ensures
            final(managers).wf(),
            trophy_updated_into(*old(managers), *final(managers), id as int, now, amount),
            final(managers).memberships == old(managers).memberships,
            final(managers).creators == old(managers).creators,
            final(managers).thanks_supply == old(managers).thanks_supply,
            final(managers).base_path == old(managers).base_path,
            final(managers).minter_serials == old(managers).minter_serials,
    {
        let base = managers.base_path.clone();
        proof {
            assert(trophy_wf(old(managers).trophies@[id as int]->0));
        }
        let mut data = managers.trophies.take(id);
        let created_str = generate_created_string(data.created);
        data.transactions.push(Transaction { amount, created: now });
        data.donated = data.donated + amount;
        data.key_image_url = generate_trophy_url(
            base,
            data.donated,
            created_str,
            self.collection_id.clone(),
        );
        proof {
            lemma_sum_push(
                old(managers).trophies@[id as int]->0.transactions@,
                Transaction { amount, created: now },
            );
        }
        managers.update_trophy(&self.minter_badge, id, data);
    }

    /// Appends one donation to a membership of this collection's creator and
    /// re-derives its image url.
    fn update_membership_metadata(
        &self,
        managers: &mut SharedManagers,
        now: Date,
        id: usize,
        amount: u128,
    )
        requires
            old(managers).wf(),
            now.valid(),
            old(managers).memberships.spec_contains(id as int),
            membership_accepts(old(managers).memberships@[id as int]->0, *self),
            old(managers).memberships@[id as int]->0.donated + amount <= u128::MAX,
        ensures
            final(managers).wf(),
            membership_updated_into(*old(managers), *final(managers), id as int, now, amount),
            final(managers).trophies == old(managers).trophies,
            final(managers).creators == old(managers).creators,
            final(managers).thanks_supply == old(managers).thanks_supply,
            final(managers).base_path == old(managers).base_path,
            final(managers).minter_serials == old(managers).minter_serials,
    {
        let base = managers.base_path.clone();
        proof {
            assert(membership_wf(old(managers).memberships@[id as int]->0));
        }
        let mut data = managers.memberships.take(id);
        let created_str = generate_created_string(data.created);
        data.transactions.push(Transaction { amount, created: now });
        data.donated = data.donated + amount;
        data.key_image_url = generate_membership_url(
            base,
            data.donated,
            created_str,
            self.creator_slug.clone(),
        );
        proof {
            lemma_sum_push(
                old(managers).memberships@[id as int]->0.transactions@,
                Transaction { amount, created: now },
            );
        }
        managers.update_membership(&self.minter_badge, id, data);
    }

    /// Takes the fee cut into the fee balance and the remainder into the
    /// donation balance.
    fn split_donation(&mut self, amount: u128)
        requires
            old(self).donations + amount <= u128::MAX,
            old(self).fees + amount <= u128::MAX,
        ensures
            *final(self) == (Collection {
                donations: (old(self).donations + amount - spec_fee(amount)) as u128,
                fees: (old(self).fees + spec_fee(amount)) as u128,
                ..*old(self)
            }),
    {
        let fee = fee_cut(amount);
        self.fees = self.fees + fee;
        self.donations = self.donations + (amount - fee);
    }

    /// Accepts a donation and mints a fresh trophy and a fresh membership in
    /// return, along with reward tokens equal to the gross amount.
    pub fn donate_mint(&mut self, managers: &mut SharedManagers, now: Date, amount: u128) -> (r:
        Result<(GlobalId, u128, GlobalId), Error>)
        requires
            old(managers).wf(),
            collection_linked(*old(self), *old(managers)),
            now.valid(),
            donation_fits(*old(self), *old(managers), amount),
            old(managers).trophies@.len() < usize::MAX,
            old(managers).memberships@.len() < usize::MAX,
        ensures
            final(managers).wf(),
            donate_base_error(*old(self), amount) is Some ==> r is Err && r->Err_0
                == donate_base_error(*old(self), amount)->0 && *final(self) == *old(self) && *final(managers) == *old(managers),
            donate_base_error(*old(self), amount) is None ==> r is Ok && donate_mint_ok(
                *old(self),
                *final(self),
                *old(managers),
                *final(managers),
                now,
                amount,
                r->Ok_0,
            ),
    {
        if self.closed.is_some() {
            return Err(Error::CollectionClosed);
        }
        if amount == 0 {
            return Err(Error::ConstraintViolation);
        }
        self.update_creator_metadata(managers, amount);
        let tid = self.mint_trophy(managers, now, amount);
        let mid = self.mint_membership(managers, now, amount);
        let thanks = managers.mint_thanks(&self.minter_badge, amount);
        self.split_donation(amount);
        Ok(
            (
                GlobalId { resource: TROPHY_RESOURCE, local: tid },
                thanks,
                GlobalId { resource: MEMBERSHIP_RESOURCE, local: mid },
            ),
        )
    }

    /// Accepts a donation from a returning member: their membership is
    /// updated in place and a fresh trophy is minted.
    pub fn donate_mint_with_membership(
        &mut self,
        managers: &mut SharedManagers,
        now: Date,
        amount: u128,
        membership_proof: &Proof,
    ) -> (r: Result<(GlobalId, u128), Error>)
        requires
            old(managers).wf(),
            collection_linked(*old(self), *old(managers)),
            now.valid(),
            donation_fits(*old(self), *old(managers), amount),
            old(managers).trophies@.len() < usize::MAX,
            membership_proof.id.resource == MEMBERSHIP_RESOURCE ==> old(
                managers,
            ).memberships.spec_contains(membership_proof.id.local as int),
            membership_proof.id.resource == MEMBERSHIP_RESOURCE ==> old(
                managers,
            ).memberships@[membership_proof.id.local as int]->0.donated + amount <= u128::MAX,
        ensures
            final(managers).wf(),
            donate_mint_with_membership_error(*old(self), *old(managers), *membership_proof, amount)
                is Some ==> r is Err && r->Err_0 == donate_mint_with_membership_error(
                *old(self),
                *old(managers),
                *membership_proof,
                amount,
            )->0 && *final(self) == *old(self) && *final(managers) == *old(managers),
            donate_mint_with_membership_error(*old(self), *old(managers), *membership_proof, amount)
                is None ==> r is Ok && donate_mint_with_membership_ok(
                *old(self),
                *final(self),
                *old(managers),
                *final(managers),
                membership_proof.id.local as int,
                now,
                amount,
                r->Ok_0,
            ),
    {
        if self.closed.is_some() {
            return Err(Error::CollectionClosed);
        }
        if amount == 0 {
            return Err(Error::ConstraintViolation);
        }
        let attested = match membership_proof.check(MEMBERSHIP_RESOURCE) {
            Ok(id) => id,
            Err(e) => {
                return Err(e);
            },
        };
        {
            let mb = managers.membership(attested.local);
            if !(mb.creator_slug == self.creator_slug && mb.creator.resource
                == self.creator_badge_global_id.resource && mb.creator.local
                == self.creator_badge_global_id.local) {
                return Err(Error::IdentityMismatch);
            }
        }
        self.update_creator_metadata(managers, amount);
        self.update_membership_metadata(managers, now, attested.local, amount);
        let tid = self.mint_trophy(managers, now, amount);
        let thanks = managers.mint_thanks(&self.minter_badge, amount);
        self.split_donation(amount);
        Ok((GlobalId { resource: TROPHY_RESOURCE, local: tid }, thanks))
    }

    /// Accepts a donation against a held trophy: the trophy is updated in
    /// place and a fresh membership is minted.
    pub fn donate_update(
        &mut self,
        managers: &mut SharedManagers,
        now: Date,
        amount: u128,
        trophy_proof: &Proof,
    ) -> (r: Result<(u128, GlobalId), Error>)
        requires
            old(managers).wf(),
            collection_linked(*old(self), *old(managers)),
            now.valid(),
            donation_fits(*old(self), *old(managers), amount),
            old(managers).memberships@.len() < usize::MAX,
            trophy_proof.id.resource == TROPHY_RESOURCE ==> old(managers).trophies.spec_contains(
                trophy_proof.id.local as int,
            ),
            trophy_proof.id.resource == TROPHY_RESOURCE ==> old(
                managers,
            ).trophies@[trophy_proof.id.local as int]->0.donated + amount <= u128::MAX,
        ensures
            final(managers).wf(),
            donate_update_error(*old(self), *old(managers), *trophy_proof, amount) is Some ==> r
                is Err && r->Err_0 == donate_update_error(
                *old(self),
                *old(managers),
                *trophy_proof,
                amount,
            )->0 && *final(self) == *old(self) && *final(managers) == *old(managers),
            donate_update_error(*old(self), *old(managers), *trophy_proof, amount) is None ==> r
                is Ok && donate_update_ok(
                *old(self),
                *final(self),
                *old(managers),
                *final(managers),
                trophy_proof.id.local as int,
                now,
                amount,
                r->Ok_0,
            ),
    {
        if self.closed.is_some() {
            return Err(Error::CollectionClosed);
        }
        if amount == 0 {
            return Err(Error::ConstraintViolation);
        }
        let attested = match trophy_proof.check(TROPHY_RESOURCE) {
            Ok(id) => id,
            Err(e) => {
                return Err(e);
            },
        };
        {
            let t = managers.trophy(attested.local);
            if !(t.collection_id == self.collection_id && t.creator.resource
                == self.creator_badge_global_id.resource && t.creator.local
                == self.creator_badge_global_id.local) {
                return Err(Error::IdentityMismatch);
            }
        }
        self.update_creator_metadata(managers, amount);
        self.update_trophy_metadata(managers, now, attested.local, amount);
        let mid = self.mint_membership(managers, now, amount);
        let thanks = managers.mint_thanks(&self.minter_badge, amount);
        self.split_donation(amount);
        Ok((thanks, GlobalId { resource: MEMBERSHIP_RESOURCE, local: mid }))
    }

    /// Accepts a donation from a returning member against a held trophy:
    /// both records are updated in place; only reward tokens come back.
    pub fn donate_update_with_membership(
        &mut self,
        managers: &mut SharedManagers,
        now: Date,
        amount: u128,
        trophy_proof: &Proof,
        membership_proof: &Proof,
    ) -> (r: Result<u128, Error>)
        requires
            old(managers).wf(),
            collection_linked(*old(self), *old(managers)),
            now.valid(),
            donation_fits(*old(self), *old(managers), amount),
            trophy_proof.id.resource == TROPHY_RESOURCE ==> old(managers).trophies.spec_contains(
                trophy_proof.id.local as int,
            ),
            trophy_proof.id.resource == TROPHY_RESOURCE ==> old(
                managers,
            ).trophies@[trophy_proof.id.local as int]->0.donated + amount <= u128::MAX,
            membership_proof.id.resource == MEMBERSHIP_RESOURCE ==> old(
                managers,
            ).memberships.spec_contains(membership_proof.id.local as int),
            membership_proof.id.resource == MEMBERSHIP_RESOURCE ==> old(
                managers,
            ).memberships@[membership_proof.id.local as int]->0.donated + amount <= u128::MAX,
        ensures
            final(managers).wf(),
            donate_update_with_membership_error(
                *old(self),
                *old(managers),
                *trophy_proof,
                *membership_proof,
                amount,
            ) is Some ==> r is Err && r->Err_0 == donate_update_with_membership_error(
                *old(self),
                *old(managers),
                *trophy_proof,
                *membership_proof,
                amount,
            )->0 && *final(self) == *old(self) && *final(managers) == *old(managers),
            donate_update_with_membership_error(
                *old(self),
                *old(managers),
                *trophy_proof,
                *membership_proof,
                amount,
            ) is None ==> r is Ok && donate_update_with_membership_ok(
                *old(self),
                *final(self),
                *old(managers),
                *final(managers),
                trophy_proof.id.local as int,
                membership_proof.id.local as int,
                now,
                amount,
                r->Ok_0,
            ),
    {
        if self.closed.is_some() {
            return Err(Error::CollectionClosed);
        }
        if amount == 0 {
            return Err(Error::ConstraintViolation);
        }
        let attested_membership = match membership_proof.check(MEMBERSHIP_RESOURCE) {
            Ok(id) => id,
            Err(e) => {
                return Err(e);
            },
        };
        {
            let mb = managers.membership(attested_membership.local);
            if !(mb.creator_slug == self.creator_slug && mb.creator.resource
                == self.creator_badge_global_id.resource && mb.creator.local
                == self.creator_badge_global_id.local) {
                return Err(Error::IdentityMismatch);
            }
        }
        let attested_trophy = match trophy_proof.check(TROPHY_RESOURCE) {
            Ok(id) => id,
            Err(e) => {
                return Err(e);
            },
        };
        {
            let t = managers.trophy(attested_trophy.local);
            if !(t.collection_id == self.collection_id && t.creator.resource
                == self.creator_badge_global_id.resource && t.creator.local
                == self.creator_badge_global_id.local) {
                return Err(Error::IdentityMismatch);
            }
        }
        self.update_creator_metadata(managers, amount);
        self.update_membership_metadata(managers, now, attested_membership.local, amount);
        self.update_trophy_metadata(managers, now, attested_trophy.local, amount);
        let thanks = managers.mint_thanks(&self.minter_badge, amount);
        self.split_donation(amount);
        Ok(thanks)
    }

    /// Withdraws the collected donations.  Only the collection's owner — the
    /// holder of exactly the creator credential this collection was built
    /// with — may do so.
    pub fn withdraw_donations(&mut self, owner: &Proof) -> (r: Result<u128, Error>)
        ensures
            owner.id != old(self).creator_badge_global_id ==> r == Err::<u128, Error>(
                Error::Unauthorized,
            ) && *final(self) == *old(self),
            owner.id == old(self).creator_badge_global_id ==> r == Ok::<u128, Error>(
                old(self).donations,
            ) && *final(self) == (Collection { donations: 0, ..*old(self) }),
    {
        if !(owner.id.resource == self.creator_badge_global_id.resource && owner.id.local
            == self.creator_badge_global_id.local) {
            return Err(Error::Unauthorized);
        }
        let out = self.donations;
        self.donations = 0;
        Ok(out)
    }

    /// Withdraws the collected fees.  Gated by the platform operator's badge
    /// class; available whether or not the collection is closed.
    pub fn withdraw_fees(&mut self, operator: &Proof) -> (r: Result<u128, Error>)
        ensures
            operator.id.resource != old(self).repository_owner_access_badge_address ==> r
                == Err::<u128, Error>(Error::Unauthorized) && *final(self) == *old(self),
            operator.id.resource == old(self).repository_owner_access_badge_address ==> r
                == Ok::<u128, Error>(old(self).fees) && *final(self) == (Collection {
                fees: 0,
                ..*old(self)
            }),
    {
        if operator.id.resource != self.repository_owner_access_badge_address {
            return Err(Error::Unauthorized);
        }
        let out = self.fees;
        self.fees = 0;
        Ok(out)
    }

    /// Closes the collection permanently and sweeps the donation balance to
    /// the owner in the same call.  Fails `Unauthorized` for anyone but the
    /// owner and `AlreadyClosed` the second time; afterwards every donation
    /// entry point fails `CollectionClosed`, while fee withdrawal stays
    /// available.
    pub fn close_collection(&mut self, owner: &Proof, now: Date) -> (r: Result<u128, Error>)
        ensures
            owner.id != old(self).creator_badge_global_id ==> r == Err::<u128, Error>(
                Error::Unauthorized,
            ) && *final(self) == *old(self),
            owner.id == old(self).creator_badge_global_id && old(self).closed is Some ==> r
                == Err::<u128, Error>(Error::AlreadyClosed) && *final(self) == *old(self),
            owner.id == old(self).creator_badge_global_id && old(self).closed is None ==> r
                == Ok::<u128, Error>(old(self).donations) && *final(self) == (Collection {
                donations: 0,
                closed: Some(now),
                ..*old(self)
            }),
    {
        if !(owner.id.resource == self.creator_badge_global_id.resource && owner.id.local
            == self.creator_badge_global_id.local) {
            return Err(Error::Unauthorized);
        }
        if self.closed.is_some() {
            return Err(Error::AlreadyClosed);
        }
        self.closed = Some(now);
        let out = self.donations;
        self.donations = 0;
        Ok(out)
    }
}

} // verus!
