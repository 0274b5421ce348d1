use crate::collection::{Collection, CollectionArg};
use crate::credentials::{GlobalId, Proof};
use crate::data::{
    lemma_sum_concat, membership_identity_matches, membership_wf, sorted_by_date,
    sort_transactions_by_date, sum_amounts, trophy_identity_matches, trophy_wf, Creator,
    Membership, Transaction, Trophy,
};
use crate::dates::Date;
use crate::errors::Error;
use crate::managers::{SharedManagers, CREATOR_BADGE_RESOURCE, MEMBERSHIP_RESOURCE, TROPHY_RESOURCE};
use crate::text::{dec_str, u128_to_string};
use crate::util::{
    creator_url_chars, date_chars, generate_created_string, generate_creator_url,
    generate_membership_url, generate_trophy_url, membership_url_chars, trophy_url_chars,
};
use vstd::prelude::*;
use vstd::string::*;

verus! {

/// The global factory and shared-class authority: it owns the class
/// managers, issues creator credentials, instantiates collections — each
/// with a fresh minting capability — and runs the aggregation engine.
pub struct Repository {
    /// The shared class managers this repository owns.
    pub managers: SharedManagers,
    /// The platform operator's badge class, gating administrative calls.
    pub repository_owner_access_badge_address: u64,
    pub dapp_definition_address: u64,
    /// The terminal close stamp; while set, no new collection can be made,
    /// though existing collections and aggregation keep working.
    pub closed: Option<Date>,
    /// How many collections were instantiated; each gets a fresh id.
    pub collections_created: u64,
}

/// The constraints on a creator credential's name and slug.
pub open spec fn badge_name_error(name: Seq<char>, slug: Seq<char>) -> Option<Error> {
    if name.len() == 0 || name.len() > 255 {
        Some(Error::ConstraintViolation)
    } else if slug.len() == 0 || slug.len() > 30 {
        Some(Error::ConstraintViolation)
    } else {
        None
    }
}

/// The constraints on a collection's trophy template.
pub open spec fn trophy_template_error(tname: Seq<char>, tdescr: Seq<char>) -> Option<Error> {
    if tname.len() < 3 || tname.len() > 32 {
        Some(Error::ConstraintViolation)
    } else if tdescr.len() < 10 || tdescr.len() > 255 {
        Some(Error::ConstraintViolation)
    } else {
        None
    }
}

/// What a freshly issued creator credential's profile record holds.
pub open spec fn minted_creator_ok(
    c: Creator,
    name: Seq<char>,
    slug: Seq<char>,
    base: Seq<char>,
    now: Date,
) -> bool {
    &&& c.name@ == "Creator Badge: "@ + name
    &&& c.description@
        == "Grants ownership of Backeum collection components and membership badges"@
    &&& c.creator_name@ == name
    &&& c.creator_slug@ == slug
    &&& c.created == now
    &&& c.funded == 0
    &&& c.key_image_url@ == creator_url_chars(base, 0, date_chars(now))
}

/// The creator-profile record a credential proof points at.
pub open spec fn repo_creator(r: Repository, p: Proof) -> Creator {
    r.managers.creators@[p.id.local as int]->0
}

/// How instantiating a collection against an existing credential can fail.
pub open spec fn new_collection_error(
    r: Repository,
    p: Proof,
    tname: Seq<char>,
    tdescr: Seq<char>,
) -> Option<Error> {
    if r.closed is Some {
        Some(Error::RepositoryClosed)
    } else if trophy_template_error(tname, tdescr) is Some {
        trophy_template_error(tname, tdescr)
    } else if p.id.resource != CREATOR_BADGE_RESOURCE {
        Some(Error::WrongClass)
    } else {
        None
    }
}

/// What a freshly instantiated collection looks like, and what its creation
/// changed in the repository: one more capability issued, one more
/// collection counted, nothing else.
pub open spec fn new_collection_ok(
    old_r: Repository,
    new_r: Repository,
    c: Collection,
    badge: GlobalId,
    creator_name: Seq<char>,
    creator_slug: Seq<char>,
    tname: String,
    tdescr: String,
) -> bool {
    &&& c.donations == 0
    &&& c.fees == 0
    &&& c.creator_name@ == creator_name
    &&& c.creator_slug@ == creator_slug
    &&& c.trophy_name == tname
    &&& c.trophy_description == tdescr
    &&& c.collection_id@ == "collection-"@ + dec_str(old_r.collections_created as nat)
    &&& c.creator_badge_global_id == badge
    &&& c.repository_owner_access_badge_address == old_r.repository_owner_access_badge_address
    &&& c.dapp_definition_address == old_r.dapp_definition_address
    &&& c.closed is None
    &&& new_r == (Repository {
        managers: new_r.managers,
        collections_created: (old_r.collections_created + 1) as u64,
        ..old_r
    })
}

/// The ids handed to the aggregation engine name distinct live trophies.
pub open spec fn trophy_ids_valid(m: SharedManagers, ids: Seq<usize>) -> bool {
    &&& forall|i: int| 0 <= i < ids.len() ==> m.trophies.spec_contains(#[trigger] ids[i] as int)
    &&& forall|i: int, j: int| 0 <= i < j < ids.len() ==> ids[i] != ids[j]
}

/// The ids handed to the aggregation engine name distinct live memberships.
pub open spec fn membership_ids_valid(m: SharedManagers, ids: Seq<usize>) -> bool {
    &&& forall|i: int| 0 <= i < ids.len() ==> m.memberships.spec_contains(#[trigger] ids[i] as int)
    &&& forall|i: int, j: int| 0 <= i < j < ids.len() ==> ids[i] != ids[j]
}

/// The grand total donated across the listed trophies.
pub open spec fn trophies_total(m: SharedManagers, ids: Seq<usize>) -> int
    decreases ids.len(),
{
    if ids.len() == 0 {
        0
    } else {
        trophies_total(m, ids.drop_last()) + m.trophies@[ids.last() as int]->0.donated
    }
}

/// The grand total donated across the listed memberships.
pub open spec fn memberships_total(m: SharedManagers, ids: Seq<usize>) -> int
    decreases ids.len(),
{
    if ids.len() == 0 {
        0
    } else {
        memberships_total(m, ids.drop_last()) + m.memberships@[ids.last() as int]->0.donated
    }
}

/// The listed trophies' transaction logs, one after another.
pub open spec fn trophies_concat_txs(m: SharedManagers, ids: Seq<usize>) -> Seq<Transaction>
    decreases ids.len(),
{
    if ids.len() == 0 {
        Seq::empty()
    } else {
        trophies_concat_txs(m, ids.drop_last()) + m.trophies@[ids.last() as int]->0.transactions@
    }
}

/// The listed memberships' transaction logs, one after another.
pub open spec fn memberships_concat_txs(m: SharedManagers, ids: Seq<usize>) -> Seq<Transaction>
    decreases ids.len(),
{
    if ids.len() == 0 {
        Seq::empty()
    } else {
        memberships_concat_txs(m, ids.drop_last())
            + m.memberships@[ids.last() as int]->0.transactions@
    }
}

/// The earlier of two dates; the first wins a tie.
pub open spec fn min_date(a: Date, b: Date) -> Date {
    if b.lt(a) {
        b
    } else {
        a
    }
}

/// The earliest creation date among the listed trophies.
pub open spec fn trophies_min_created(m: SharedManagers, ids: Seq<usize>) -> Date
    decreases ids.len(),
{
    if ids.len() <= 1 {
        m.trophies@[ids[0] as int]->0.created
    } else {
        min_date(
            trophies_min_created(m, ids.drop_last()),
            m.trophies@[ids.last() as int]->0.created,
        )
    }
}

/// The earliest creation date among the listed memberships.
pub open spec fn memberships_min_created(m: SharedManagers, ids: Seq<usize>) -> Date
    decreases ids.len(),
{
    if ids.len() <= 1 {
        m.memberships@[ids[0] as int]->0.created
    } else {
        min_date(
            memberships_min_created(m, ids.drop_last()),
            m.memberships@[ids.last() as int]->0.created,
        )
    }
}

/// Every listed trophy shares the template's identity-defining fields; the
/// template is the first of the batch.
pub open spec fn trophies_mergeable(m: SharedManagers, ids: Seq<usize>) -> bool {
    forall|i: int|
        0 <= i < ids.len() ==> trophy_identity_matches(
            m.trophies@[#[trigger] ids[i] as int]->0,
            m.trophies@[ids[0] as int]->0,
        )
}

/// Every listed membership shares the template's identity-defining fields.
pub open spec fn memberships_mergeable(m: SharedManagers, ids: Seq<usize>) -> bool {
    forall|i: int|
        0 <= i < ids.len() ==> membership_identity_matches(
            m.memberships@[#[trigger] ids[i] as int]->0,
            m.memberships@[ids[0] as int]->0,
        )
}

/// What the consolidated trophy holds: the template's identity, the summed
/// total, the date-ordered concatenation of every log, the earliest creation
/// date, and a url re-derived from those.
pub open spec fn merged_trophy_ok(t: Trophy, m: SharedManagers, ids: Seq<usize>) -> bool {
    let template = m.trophies@[ids[0] as int]->0;
    &&& t.name == template.name
    &&& t.description == template.description
    &&& t.creator == template.creator
    &&& t.creator_name == template.creator_name
    &&& t.creator_slug == template.creator_slug
    &&& t.info_url == template.info_url
    &&& t.collection_id == template.collection_id
    &&& t.created == trophies_min_created(m, ids)
    &&& t.donated as int == trophies_total(m, ids)
    &&& sorted_by_date(t.transactions@)
    &&& t.transactions@.to_multiset() == trophies_concat_txs(m, ids).to_multiset()
    &&& t.key_image_url@ == trophy_url_chars(
        m.base_path@,
        template.collection_id@,
        t.donated as nat,
        date_chars(trophies_min_created(m, ids)),
    )
}

/// What the consolidated membership holds.
pub open spec fn merged_membership_ok(mb: Membership, m: SharedManagers, ids: Seq<usize>) -> bool {
    let template = m.memberships@[ids[0] as int]->0;
    &&& mb.name == template.name
    &&& mb.description == template.description
    &&& mb.creator == template.creator
    &&& mb.creator_name == template.creator_name
    &&& mb.creator_slug == template.creator_slug
    &&& mb.info_url == template.info_url
    &&& mb.created == memberships_min_created(m, ids)
    &&& mb.donated as int == memberships_total(m, ids)
    &&& sorted_by_date(mb.transactions@)
    &&& mb.transactions@.to_multiset() == memberships_concat_txs(m, ids).to_multiset()
    &&& mb.key_image_url@ == membership_url_chars(
        m.base_path@,
        template.creator_slug@,
        mb.donated as nat,
        date_chars(memberships_min_created(m, ids)),
    )
}

/// Everything a successful trophy merge changes: the inputs are destroyed,
/// exactly one consolidated record appears, and nothing else moves.
pub open spec fn merge_trophies_ok(
    old_r: Repository,
    new_r: Repository,
    ids: Seq<usize>,
    out: GlobalId,
) -> bool {
    &&& new_r.managers.trophies@.len() == old_r.managers.trophies@.len() + 1
    &&& forall|j: int|
        0 <= j < old_r.managers.trophies@.len() && !ids.contains(j as usize)
            ==> new_r.managers.trophies@[j] == #[trigger] old_r.managers.trophies@[j]
    &&& forall|i: int|
        0 <= i < ids.len() ==> new_r.managers.trophies@[#[trigger] ids[i] as int] is None
    &&& new_r.managers.trophies@.last() is Some
    &&& merged_trophy_ok(new_r.managers.trophies@.last()->0, old_r.managers, ids)
    &&& out == (GlobalId {
        resource: TROPHY_RESOURCE,
        local: old_r.managers.trophies@.len() as usize,
    })
    &&& new_r == (Repository { managers: new_r.managers, ..old_r })
    &&& new_r.managers == (SharedManagers {
        trophies: new_r.managers.trophies,
        ..old_r.managers
    })
}

/// Everything a successful membership merge changes.
pub open spec fn merge_memberships_ok(
    old_r: Repository,
    new_r: Repository,
    ids: Seq<usize>,
    out: GlobalId,
) -> bool {
    &&& new_r.managers.memberships@.len() == old_r.managers.memberships@.len() + 1
    &&& forall|j: int|
        0 <= j < old_r.managers.memberships@.len() && !ids.contains(j as usize)
            ==> new_r.managers.memberships@[j] == #[trigger] old_r.managers.memberships@[j]
    &&& forall|i: int|
        0 <= i < ids.len() ==> new_r.managers.memberships@[#[trigger] ids[i] as int] is None
    &&& new_r.managers.memberships@.last() is Some
    &&& merged_membership_ok(new_r.managers.memberships@.last()->0, old_r.managers, ids)
    &&& out == (GlobalId {
        resource: MEMBERSHIP_RESOURCE,
        local: old_r.managers.memberships@.len() as usize,
    })
    &&& new_r == (Repository { managers: new_r.managers, ..old_r })
    &&& new_r.managers == (SharedManagers {
        memberships: new_r.managers.memberships,
        ..old_r.managers
    })
}

/// Everything a successful base-path reconfiguration changes: the base path
/// itself, and the image url of exactly the listed records.
pub open spec fn reconfigured_ok(
    old_r: Repository,
    new_r: Repository,
    new_path: String,
    trophy_ids: Seq<usize>,
    membership_ids: Seq<usize>,
) -> bool {
    &&& new_r.managers.base_path == new_path
    &&& new_r.managers.trophies@.len() == old_r.managers.trophies@.len()
    &&& new_r.managers.memberships@.len() == old_r.managers.memberships@.len()
    &&& forall|j: int|
        0 <= j < old_r.managers.trophies@.len() && !trophy_ids.contains(j as usize)
            ==> new_r.managers.trophies@[j] == #[trigger] old_r.managers.trophies@[j]
    &&& forall|j: int|
        0 <= j < old_r.managers.memberships@.len() && !membership_ids.contains(j as usize)
            ==> new_r.managers.memberships@[j] == #[trigger] old_r.managers.memberships@[j]
    &&& forall|k: int|
        0 <= k < trophy_ids.len() ==> new_r.managers.trophies@[#[trigger] trophy_ids[k] as int]
            is Some && retargeted_trophy_ok(
            old_r.managers.trophies@[trophy_ids[k] as int]->0,
            new_r.managers.trophies@[trophy_ids[k] as int]->0,
            new_path@,
        )
    &&& forall|k: int|
        0 <= k < membership_ids.len() ==> new_r.managers.memberships@[#[trigger] membership_ids[k] as int]
            is Some && retargeted_membership_ok(
            old_r.managers.memberships@[membership_ids[k] as int]->0,
            new_r.managers.memberships@[membership_ids[k] as int]->0,
            new_path@,
        )
    &&& new_r.managers.creators == old_r.managers.creators
    &&& new_r.managers.thanks_supply == old_r.managers.thanks_supply
    &&& new_r.managers.minter_serials == old_r.managers.minter_serials
    &&& new_r == (Repository { managers: new_r.managers, ..old_r })
}

/// A re-targeted trophy keeps everything but its image url, which is
/// re-derived from the new base path and the record's own state.
pub open spec fn retargeted_trophy_ok(old_t: Trophy, new_t: Trophy, base: Seq<char>) -> bool {
    &&& new_t == (Trophy { key_image_url: new_t.key_image_url, ..old_t })
    &&& new_t.key_image_url@ == trophy_url_chars(
        base,
        old_t.collection_id@,
        old_t.donated as nat,
        date_chars(old_t.created),
    )
}

/// A re-targeted membership keeps everything but its image url.
pub open spec fn retargeted_membership_ok(
    old_m: Membership,
    new_m: Membership,
    base: Seq<char>,
) -> bool {
    &&& new_m == (Membership { key_image_url: new_m.key_image_url, ..old_m })
    &&& new_m.key_image_url@ == membership_url_chars(
        base,
        old_m.creator_slug@,
        old_m.donated as nat,
        date_chars(old_m.created),
    )
}

/// A prefix of the batch never exceeds the whole batch's total.
proof fn lemma_trophies_total_prefix(m: SharedManagers, ids: Seq<usize>, k: int)
    requires
        0 <= k <= ids.len(),
    ensures
        trophies_total(m, ids.subrange(0, k)) <= trophies_total(m, ids),
    decreases ids.len() - k,
{
    if k == ids.len() {
        assert(ids.subrange(0, k) =~= ids);
    } else {
        lemma_trophies_total_prefix(m, ids, k + 1);
        assert(ids.subrange(0, k + 1).drop_last() =~= ids.subrange(0, k));
        assert(trophies_total(m, ids.subrange(0, k + 1)) == trophies_total(m, ids.subrange(0, k))
            + m.trophies@[ids.subrange(0, k + 1).last() as int]->0.donated);
    }
}

/// A prefix of the batch never exceeds the whole batch's total.
proof fn lemma_memberships_total_prefix(m: SharedManagers, ids: Seq<usize>, k: int)
    requires
        0 <= k <= ids.len(),
    ensures
        memberships_total(m, ids.subrange(0, k)) <= memberships_total(m, ids),
    decreases ids.len() - k,
{
    if k == ids.len() {
        assert(ids.subrange(0, k) =~= ids);
    } else {
        lemma_memberships_total_prefix(m, ids, k + 1);
        assert(ids.subrange(0, k + 1).drop_last() =~= ids.subrange(0, k));
        assert(memberships_total(m, ids.subrange(0, k + 1)) == memberships_total(
            m,
            ids.subrange(0, k),
        ) + m.memberships@[ids.subrange(0, k + 1).last() as int]->0.donated);
    }
}

impl Repository {
    /// Sets up one deployment: empty class managers, the given base path for
    /// url derivation, and the operator badge class that gates
    /// administrative calls.
    pub fn new(
        base_path: String,
        repository_owner_access_badge_address: u64,
        dapp_definition_address: u64,
    ) -> (r: Repository)
        ensures
            r.managers.trophies@ =~= Seq::<Option<Trophy>>::empty(),
            r.managers.memberships@ =~= Seq::<Option<Membership>>::empty(),
            r.managers.creators@ =~= Seq::<Option<Creator>>::empty(),
            r.managers.thanks_supply == 0,
            r.managers.base_path@ == base_path@,
            r.managers.minter_serials == 0,
            r.managers.wf(),
            r.repository_owner_access_badge_address == repository_owner_access_badge_address,
            r.dapp_definition_address == dapp_definition_address,
            r.closed is None,
            r.collections_created == 0,
    {
        Repository {
            managers: SharedManagers::new(base_path),
            repository_owner_access_badge_address,
            dapp_definition_address,
            closed: None,
            collections_created: 0,
        }
    }

    /// Issues a creator credential: validates the name and slug, creates the
    /// zero-funded creator-profile record, and returns the credential's
    /// identity.  Available whether or not the repository is closed.
    pub fn mint_creator_badge(
        &mut self,
        creator_name: String,
        creator_slug: String,
        now: Date,
    ) -> (r: Result<GlobalId, Error>)
        requires
            old(self).managers.wf(),
            now.valid(),
            old(self).managers.creators@.len() < usize::MAX,
        ensures
            final(self).managers.wf(),
            badge_name_error(creator_name@, creator_slug@) is Some ==> r is Err && r->Err_0
                == badge_name_error(creator_name@, creator_slug@)->0 && *final(self) == *old(self),
            badge_name_error(creator_name@, creator_slug@) is None ==> r is Ok && r->Ok_0
                == (GlobalId {
                resource: CREATOR_BADGE_RESOURCE,
                local: old(self).managers.creators@.len() as usize,
            }) && final(self).managers.creators@ == old(self).managers.creators@.push(
                Some(final(self).managers.creators@.last()->0),
            ) && minted_creator_ok(
                final(self).managers.creators@.last()->0,
                creator_name@,
                creator_slug@,
                old(self).managers.base_path@,
                now,
            ) && *final(self) == (Repository { managers: final(self).managers, ..*old(self) })
                && final(self).managers == (SharedManagers {
                creators: final(self).managers.creators,
                ..old(self).managers
            }),
    {
        let name_len = creator_name.as_str().unicode_len();
        if name_len == 0 || name_len > 255 {
            return Err(Error::ConstraintViolation);
        }
        let slug_len = creator_slug.as_str().unicode_len();
        if slug_len == 0 || slug_len > 30 {
            return Err(Error::ConstraintViolation);
        }
        let base = self.managers.base_path.clone();
        let created_str = generate_created_string(now);
        let mut name = "Creator Badge: ".to_owned();
        name.append(creator_name.as_str());
        let key_url = generate_creator_url(base, 0, created_str);
        let record = Creator {
            name,
            description: "Grants ownership of Backeum collection components and membership badges".to_owned(),
            creator_name,
            creator_slug,
            created: now,
            funded: 0,
            key_image_url: key_url,
        };
        let local = self.managers.mint_creator(record);
        Ok(GlobalId { resource: CREATOR_BADGE_RESOURCE, local })
    }

    /// Instantiates a collection for the holder of a creator credential,
    /// minting the one capability the collection will use on the shared
    /// classes.  Going through the repository is the only path to a
    /// capability, so only collections it made can mutate the shared
    /// classes.
    pub fn new_collection_component(
        &mut self,
        creator_badge_proof: &Proof,
        trophy_name: String,
        trophy_description: String,
    ) -> (r: Result<Collection, Error>)
        requires
            creator_badge_proof.id.resource == CREATOR_BADGE_RESOURCE ==> old(
                self,
            ).managers.creators.spec_contains(creator_badge_proof.id.local as int),
            old(self).managers.minter_serials < u64::MAX,
            old(self).collections_created < u64::MAX,
        ensures
            new_collection_error(*old(self), *creator_badge_proof, trophy_name@,
                trophy_description@) is Some ==> r is Err && r->Err_0 == new_collection_error(
                *old(self),
                *creator_badge_proof,
                trophy_name@,
                trophy_description@,
            )->0 && *final(self) == *old(self),
            new_collection_error(*old(self), *creator_badge_proof, trophy_name@,
                trophy_description@) is None ==> r is Ok && new_collection_ok(
                *old(self),
                *final(self),
                r->Ok_0,
                creator_badge_proof.id,
                repo_creator(*old(self), *creator_badge_proof).creator_name@,
                repo_creator(*old(self), *creator_badge_proof).creator_slug@,
                trophy_name,
                trophy_description,
            ) && final(self).managers == (SharedManagers {
                minter_serials: (old(self).managers.minter_serials + 1) as u64,
                ..old(self).managers
            }),
    {
        if self.closed.is_some() {
            return Err(Error::RepositoryClosed);
        }
        let tname_len = trophy_name.as_str().unicode_len();
        if tname_len < 3 || tname_len > 32 {
            return Err(Error::ConstraintViolation);
        }
        let tdescr_len = trophy_description.as_str().unicode_len();
        if tdescr_len < 10 || tdescr_len > 255 {
            return Err(Error::ConstraintViolation);
        }
        let attested = match creator_badge_proof.check(CREATOR_BADGE_RESOURCE) {
            Ok(id) => id,
            Err(e) => {
                return Err(e);
            },
        };
        let (creator_name, creator_slug) = {
            let data = self.managers.creator(attested.local);
            (data.creator_name.clone(), data.creator_slug.clone())
        };
        let minter_badge = self.managers.issue_minter_badge();
        let mut collection_id = "collection-".to_owned();
        let serial = u128_to_string(self.collections_created as u128);
        collection_id.append(serial.as_str());
        self.collections_created = self.collections_created + 1;
        Ok(
            Collection::new(
                CollectionArg {
                    repository_owner_access_badge_address:
                        self.repository_owner_access_badge_address,
                    creator_badge_proof: Proof::of(attested),
                    minter_badge,
                    creator_name,
                    creator_slug,
                    trophy_name,
                    trophy_description,
                    collection_id,
                    dapp_definition_address: self.dapp_definition_address,
                },
            ),
        )
    }

    /// Issues a creator credential and instantiates a collection for it in
    /// one call, returning the credential so the caller can own the
    /// collection.
    pub fn new_collection_component_and_badge(
        &mut self,
        creator_name: String,
        creator_slug: String,
        trophy_name: String,
        trophy_description: String,
        now: Date,
    ) -> (r: Result<(Collection, GlobalId), Error>)
        requires
            old(self).managers.wf(),
            now.valid(),
            old(self).managers.creators@.len() < usize::MAX,
            old(self).managers.minter_serials < u64::MAX,
            old(self).collections_created < u64::MAX,
        ensures
            final(self).managers.wf(),
            old(self).closed is Some ==> r == Err::<(Collection, GlobalId), Error>(
                Error::RepositoryClosed,
            ) && *final(self) == *old(self),
            old(self).closed is None && badge_name_error(creator_name@, creator_slug@) is Some
                ==> r is Err && r->Err_0 == badge_name_error(creator_name@, creator_slug@)->0
                && *final(self) == *old(self),
            old(self).closed is None && badge_name_error(creator_name@, creator_slug@) is None
                && trophy_template_error(trophy_name@, trophy_description@) is Some ==> r is Err
                && r->Err_0 == trophy_template_error(trophy_name@, trophy_description@)->0
                && *final(self) == *old(self),
            old(self).closed is None && badge_name_error(creator_name@, creator_slug@) is None
                && trophy_template_error(trophy_name@, trophy_description@) is None ==> r is Ok
                && r->Ok_0.1 == (GlobalId {
                resource: CREATOR_BADGE_RESOURCE,
                local: old(self).managers.creators@.len() as usize,
            }) && final(self).managers.creators@ == old(self).managers.creators@.push(
                Some(final(self).managers.creators@.last()->0),
            ) && minted_creator_ok(
                final(self).managers.creators@.last()->0,
                creator_name@,
                creator_slug@,
                old(self).managers.base_path@,
                now,
            ) && new_collection_ok(
                *old(self),
                *final(self),
                r->Ok_0.0,
                r->Ok_0.1,
                creator_name@,
                creator_slug@,
                trophy_name,
                trophy_description,
            ) && final(self).managers == (SharedManagers {
                creators: final(self).managers.creators,
                minter_serials: (old(self).managers.minter_serials + 1) as u64,
                ..old(self).managers
            }),
    {
        if self.closed.is_some() {
            return Err(Error::RepositoryClosed);
        }
        let name_len = creator_name.as_str().unicode_len();
        if name_len == 0 || name_len > 255 {
            return Err(Error::ConstraintViolation);
        }
        let slug_len = creator_slug.as_str().unicode_len();
        if slug_len == 0 || slug_len > 30 {
            return Err(Error::ConstraintViolation);
        }
        let tname_len = trophy_name.as_str().unicode_len();
        if tname_len < 3 || tname_len > 32 {
            return Err(Error::ConstraintViolation);
        }
        let tdescr_len = trophy_description.as_str().unicode_len();
        if tdescr_len < 10 || tdescr_len > 255 {
            return Err(Error::ConstraintViolation);
        }
        let base = self.managers.base_path.clone();
        let created_str = generate_created_string(now);
        let mut record_name = "Creator Badge: ".to_owned();
        record_name.append(creator_name.as_str());
        let key_url = generate_creator_url(base, 0, created_str);
        let record = Creator {
            name: record_name,
            description: "Grants ownership of Backeum collection components and membership badges".to_owned(),
            creator_name: creator_name.clone(),
            creator_slug: creator_slug.clone(),
            created: now,
            funded: 0,
            key_image_url: key_url,
        };
        let local = self.managers.mint_creator(record);
        let badge = GlobalId { resource: CREATOR_BADGE_RESOURCE, local };
        let minter_badge = self.managers.issue_minter_badge();
        let mut collection_id = "collection-".to_owned();
        let serial = u128_to_string(self.collections_created as u128);
        collection_id.append(serial.as_str());
        self.collections_created = self.collections_created + 1;
        let collection = Collection::new(
            CollectionArg {
                repository_owner_access_badge_address: self.repository_owner_access_badge_address,
                creator_badge_proof: Proof::of(badge),
                minter_badge,
                creator_name,
                creator_slug,
                trophy_name,
                trophy_description,
                collection_id,
                dapp_definition_address: self.dapp_definition_address,
            },
        );
        Ok((collection, badge))
    }

    /// Merges a batch of same-identity trophies into one consolidated
    /// trophy.  Any identity mismatch rejects the whole batch and destroys
    /// nothing; on success every input record is destroyed and exactly one
    /// record carrying the template's identity, the summed total and the
    /// combined log replaces them.
    pub fn merge_trophies(&mut self, trophy_ids: Vec<usize>) -> (r: Result<GlobalId, Error>)
        requires
            old(self).managers.wf(),
            trophy_ids@.len() >= 1,
            trophy_ids_valid(old(self).managers, trophy_ids@),
            trophies_total(old(self).managers, trophy_ids@) <= u128::MAX,
            old(self).managers.trophies@.len() < usize::MAX,
        ensures
            final(self).managers.wf(),
            !trophies_mergeable(old(self).managers, trophy_ids@) ==> r == Err::<GlobalId, Error>(
                Error::AggregationMismatch,
            ) && *final(self) == *old(self),
            trophies_mergeable(old(self).managers, trophy_ids@) ==> r is Ok && merge_trophies_ok(
                *old(self),
                *final(self),
                trophy_ids@,
                r->Ok_0,
            ),
    {
        let ghost old_m = old(self).managers;
        let n = trophy_ids.len();
        let template_id = trophy_ids[0];
        let mut i: usize = 1;
        while i < n
            invariant
                1 <= i <= n,
                n == trophy_ids@.len(),
                template_id == trophy_ids@[0],
                *self == *old(self),
                self.managers.wf(),
                trophy_ids_valid(self.managers, trophy_ids@),
                forall|k: int|
                    0 <= k < i ==> trophy_identity_matches(
                        self.managers.trophies@[#[trigger] trophy_ids@[k] as int]->0,
                        self.managers.trophies@[trophy_ids@[0] as int]->0,
                    ),
            decreases n - i,
        {
            let a = self.managers.trophy(trophy_ids[i]);
            let b = self.managers.trophy(template_id);
            if !(a.collection_id == b.collection_id && a.info_url == b.info_url && a.name == b.name
                && a.creator.resource == b.creator.resource && a.creator.local == b.creator.local
                && a.creator_name == b.creator_name && a.creator_slug == b.creator_slug) {
                return Err(Error::AggregationMismatch);
            }
            i = i + 1;
        }
        let base = self.managers.base_path.clone();
        proof {
            assert(trophy_wf(old_m.trophies@[trophy_ids@[0] as int]->0));
        }
        let mut template = self.managers.trophies.take(template_id);
        let mut donated: u128 = template.donated;
        let mut earliest: Date = template.created;
        let mut txs: Vec<Transaction> = Vec::new();
        txs.append(&mut template.transactions);
        proof {
            let sub1 = trophy_ids@.subrange(0, 1);
            assert(sub1.drop_last() =~= Seq::<usize>::empty());
            assert(trophies_concat_txs(old_m, Seq::<usize>::empty()) =~= Seq::<Transaction>::empty());
            assert(trophies_total(old_m, Seq::<usize>::empty()) == 0);
            assert(trophies_min_created(old_m, sub1) == old_m.trophies@[sub1[0] as int]->0.created);
            assert(sub1.last() == trophy_ids@[0]);
            assert(Seq::<Transaction>::empty() + old_m.trophies@[trophy_ids@[0] as int]->0.transactions@
                =~= old_m.trophies@[trophy_ids@[0] as int]->0.transactions@);
            assert(txs@ == trophies_concat_txs(old_m, sub1));
            assert(donated as int == trophies_total(old_m, sub1));
            assert(earliest == trophies_min_created(old_m, sub1));
        }
        let mut i: usize = 1;
        while i < n
            invariant
                1 <= i <= n,
                n == trophy_ids@.len(),
                trophy_ids_valid(old_m, trophy_ids@),
                trophies_total(old_m, trophy_ids@) <= u128::MAX,
                old_m.wf(),
                self.managers.wf(),
                self.managers.trophies@.len() == old_m.trophies@.len(),
                forall|j: int|
                    0 <= j < old_m.trophies@.len() && !trophy_ids@.subrange(0, i as int).contains(
                        j as usize,
                    ) ==> self.managers.trophies@[j] == #[trigger] old_m.trophies@[j],
                forall|k: int|
                    0 <= k < i ==> self.managers.trophies@[#[trigger] trophy_ids@[k] as int]
                        is None,
                donated as int == trophies_total(old_m, trophy_ids@.subrange(0, i as int)),
                sum_amounts(txs@) == donated as int,
                txs@ == trophies_concat_txs(old_m, trophy_ids@.subrange(0, i as int)),
                earliest == trophies_min_created(old_m, trophy_ids@.subrange(0, i as int)),
                earliest.valid(),
                self.managers.memberships == old_m.memberships,
                self.managers.creators == old_m.creators,
                self.managers.thanks_supply == old_m.thanks_supply,
                self.managers.base_path == old_m.base_path,
                self.managers.minter_serials == old_m.minter_serials,
                self.repository_owner_access_badge_address == old(
                    self,
                ).repository_owner_access_badge_address,
                self.dapp_definition_address == old(self).dapp_definition_address,
                self.closed == old(self).closed,
                self.collections_created == old(self).collections_created,
            decreases n - i,
        {
            let id = trophy_ids[i];
            proof {
                let sub = trophy_ids@.subrange(0, i as int);
                assert(!sub.contains(id)) by {
                    if sub.contains(id) {
                        let k = choose|k: int| 0 <= k < sub.len() && sub[k] == id;
                        assert(trophy_ids@[k] == trophy_ids@[i as int]);
                    }
                }
                assert(trophy_wf(old_m.trophies@[id as int]->0));
                lemma_trophies_total_prefix(old_m, trophy_ids@, i as int + 1);
                assert(trophy_ids@.subrange(0, i as int + 1).drop_last() =~= trophy_ids@.subrange(
                    0,
                    i as int,
                ));
            }
            let mut rec = self.managers.trophies.take(id);
            proof {
                lemma_sum_concat(txs@, rec.transactions@);
            }
            donated = donated + rec.donated;
            txs.append(&mut rec.transactions);
            if rec.created.strictly_before(&earliest) {
                earliest = rec.created;
            }
            i = i + 1;
        }
        proof {
            assert(trophy_ids@.subrange(0, n as int) =~= trophy_ids@);
        }
        let created_str = generate_created_string(earliest);
        let sorted = sort_transactions_by_date(txs);
        let key_url = generate_trophy_url(base, donated, created_str, template.collection_id.clone());
        let merged = Trophy {
            name: template.name,
            description: template.description,
            creator: template.creator,
            creator_name: template.creator_name,
            creator_slug: template.creator_slug,
            info_url: template.info_url,
            collection_id: template.collection_id,
            created: earliest,
            transactions: sorted,
            donated,
            key_image_url: key_url,
        };
        let local = self.managers.admin_mint_trophy(merged);
        Ok(GlobalId { resource: TROPHY_RESOURCE, local })
    }

    /// Merges a batch of same-identity memberships into one consolidated
    /// membership, exactly as the trophy merge does, except that
    /// memberships have no collection binding to compare.
    pub fn merge_memberships(&mut self, membership_ids: Vec<usize>) -> (r: Result<GlobalId, Error>)
        requires
            old(self).managers.wf(),
            membership_ids@.len() >= 1,
            membership_ids_valid(old(self).managers, membership_ids@),
            memberships_total(old(self).managers, membership_ids@) <= u128::MAX,
            old(self).managers.memberships@.len() < usize::MAX,
        ensures
            final(self).managers.wf(),
            !memberships_mergeable(old(self).managers, membership_ids@) ==> r == Err::<
                GlobalId,
                Error,
            >(Error::AggregationMismatch) && *final(self) == *old(self),
            memberships_mergeable(old(self).managers, membership_ids@) ==> r is Ok
                && merge_memberships_ok(*old(self), *final(self), membership_ids@, r->Ok_0),
    {
        let ghost old_m = old(self).managers;
        let n = membership_ids.len();
        let template_id = membership_ids[0];
        let mut i: usize = 1;
        while i < n
            invariant
                1 <= i <= n,
                n == membership_ids@.len(),
                template_id == membership_ids@[0],
                *self == *old(self),
                self.managers.wf(),
                membership_ids_valid(self.managers, membership_ids@),
                forall|k: int|
                    0 <= k < i ==> membership_identity_matches(
                        self.managers.memberships@[#[trigger] membership_ids@[k] as int]->0,
                        self.managers.memberships@[membership_ids@[0] as int]->0,
                    ),
            decreases n - i,
        {
            let a = self.managers.membership(membership_ids[i]);
            let b = self.managers.membership(template_id);
            if !(a.info_url == b.info_url && a.name == b.name && a.creator.resource
                == b.creator.resource && a.creator.local == b.creator.local && a.creator_name
                == b.creator_name && a.creator_slug == b.creator_slug) {
                return Err(Error::AggregationMismatch);
            }
            i = i + 1;
        }
        let base = self.managers.base_path.clone();
        proof {
            assert(membership_wf(old_m.memberships@[membership_ids@[0] as int]->0));
        }
        let mut template = self.managers.memberships.take(template_id);
        let mut donated: u128 = template.donated;
        let mut earliest: Date = template.created;
        let mut txs: Vec<Transaction> = Vec::new();
        txs.append(&mut template.transactions);
        proof {
            let sub1 = membership_ids@.subrange(0, 1);
            assert(sub1.drop_last() =~= Seq::<usize>::empty());
            assert(memberships_concat_txs(old_m, Seq::<usize>::empty()) =~= Seq::<Transaction>::empty());
            assert(memberships_total(old_m, Seq::<usize>::empty()) == 0);
            assert(memberships_min_created(old_m, sub1) == old_m.memberships@[sub1[0] as int]->0.created);
            assert(sub1.last() == membership_ids@[0]);
            assert(Seq::<Transaction>::empty()
                + old_m.memberships@[membership_ids@[0] as int]->0.transactions@
                =~= old_m.memberships@[membership_ids@[0] as int]->0.transactions@);
            assert(txs@ == memberships_concat_txs(old_m, sub1));
            assert(donated as int == memberships_total(old_m, sub1));
            assert(earliest == memberships_min_created(old_m, sub1));
        }
        let mut i: usize = 1;
        while i < n
            invariant
                1 <= i <= n,
                n == membership_ids@.len(),
                membership_ids_valid(old_m, membership_ids@),
                memberships_total(old_m, membership_ids@) <= u128::MAX,
                old_m.wf(),
                self.managers.wf(),
                self.managers.memberships@.len() == old_m.memberships@.len(),
                forall|j: int|
                    0 <= j < old_m.memberships@.len() && !membership_ids@.subrange(
                        0,
                        i as int,
                    ).contains(j as usize) ==> self.managers.memberships@[j]
                        == #[trigger] old_m.memberships@[j],
                forall|k: int|
                    0 <= k < i ==> self.managers.memberships@[#[trigger] membership_ids@[k] as int]
                        is None,
                donated as int == memberships_total(old_m, membership_ids@.subrange(0, i as int)),
                sum_amounts(txs@) == donated as int,
                txs@ == memberships_concat_txs(old_m, membership_ids@.subrange(0, i as int)),
                earliest == memberships_min_created(old_m, membership_ids@.subrange(0, i as int)),
                earliest.valid(),
                self.managers.trophies == old_m.trophies,
                self.managers.creators == old_m.creators,
                self.managers.thanks_supply == old_m.thanks_supply,
                self.managers.base_path == old_m.base_path,
                self.managers.minter_serials == old_m.minter_serials,
                self.repository_owner_access_badge_address == old(
                    self,
                ).repository_owner_access_badge_address,
                self.dapp_definition_address == old(self).dapp_definition_address,
                self.closed == old(self).closed,
                self.collections_created == old(self).collections_created,
            decreases n - i,
        {
            let id = membership_ids[i];
            proof {
                let sub = membership_ids@.subrange(0, i as int);
                assert(!sub.contains(id)) by {
                    if sub.contains(id) {
                        let k = choose|k: int| 0 <= k < sub.len() && sub[k] == id;
                        assert(membership_ids@[k] == membership_ids@[i as int]);
                    }
                }
                assert(membership_wf(old_m.memberships@[id as int]->0));
                lemma_memberships_total_prefix(old_m, membership_ids@, i as int + 1);
                assert(membership_ids@.subrange(0, i as int + 1).drop_last()
                    =~= membership_ids@.subrange(0, i as int));
            }
            let mut rec = self.managers.memberships.take(id);
            proof {
                lemma_sum_concat(txs@, rec.transactions@);
            }
            donated = donated + rec.donated;
            txs.append(&mut rec.transactions);
            if rec.created.strictly_before(&earliest) {
                earliest = rec.created;
            }
            i = i + 1;
        }
        proof {
            assert(membership_ids@.subrange(0, n as int) =~= membership_ids@);
        }
        let created_str = generate_created_string(earliest);
        let sorted = sort_transactions_by_date(txs);
        let key_url = generate_membership_url(
            base,
            donated,
            created_str,
            template.creator_slug.clone(),
        );
        let merged = Membership {
            name: template.name,
            description: template.description,
            creator: template.creator,
            creator_name: template.creator_name,
            creator_slug: template.creator_slug,
            info_url: template.info_url,
            created: earliest,
            transactions: sorted,
            donated,
            key_image_url: key_url,
        };
        let local = self.managers.admin_mint_membership(merged);
        Ok(GlobalId { resource: MEMBERSHIP_RESOURCE, local })
    }

    /// Rewrites the base path every later url derivation starts with, and
    /// re-derives the image url of each listed record in place.  Only the
    /// listed records are touched: there is no full-class scan.
    pub fn reconfigure_base_path(
        &mut self,
        operator: &Proof,
        new_path: String,
        trophy_ids: Vec<usize>,
        membership_ids: Vec<usize>,
    ) -> (r: Result<(), Error>)
        requires
            old(self).managers.wf(),
            trophy_ids_valid(old(self).managers, trophy_ids@),
            membership_ids_valid(old(self).managers, membership_ids@),
        ensures
            final(self).managers.wf(),
            operator.id.resource != old(self).repository_owner_access_badge_address ==> r
                == Err::<(), Error>(Error::Unauthorized) && *final(self) == *old(self),
            operator.id.resource == old(self).repository_owner_access_badge_address ==> r
                == Ok::<(), Error>(()) && reconfigured_ok(
                *old(self),
                *final(self),
                new_path,
                trophy_ids@,
                membership_ids@,
            ),
    {
        if operator.id.resource != self.repository_owner_access_badge_address {
            return Err(Error::Unauthorized);
        }
        let ghost old_m = old(self).managers;
        self.managers.base_path = new_path;
        let n = trophy_ids.len();
        let mut i: usize = 0;
        while i < n
            invariant
                i <= n,
                n == trophy_ids@.len(),
                trophy_ids_valid(old_m, trophy_ids@),
                old_m.wf(),
                self.managers.wf(),
                self.managers.base_path == new_path,
                self.managers.trophies@.len() == old_m.trophies@.len(),
                forall|j: int|
                    0 <= j < old_m.trophies@.len() && !trophy_ids@.subrange(0, i as int).contains(
                        j as usize,
                    ) ==> self.managers.trophies@[j] == #[trigger] old_m.trophies@[j],
                forall|k: int|
                    0 <= k < i ==> self.managers.trophies@[#[trigger] trophy_ids@[k] as int]
                        is Some && retargeted_trophy_ok(
                        old_m.trophies@[trophy_ids@[k] as int]->0,
                        self.managers.trophies@[trophy_ids@[k] as int]->0,
                        new_path@,
                    ),
                self.managers.memberships == old_m.memberships,
                self.managers.creators == old_m.creators,
                self.managers.thanks_supply == old_m.thanks_supply,
                self.managers.minter_serials == old_m.minter_serials,
                self.repository_owner_access_badge_address == old(
                    self,
                ).repository_owner_access_badge_address,
                self.dapp_definition_address == old(self).dapp_definition_address,
                self.closed == old(self).closed,
                self.collections_created == old(self).collections_created,
            decreases n - i,
        {
            let id = trophy_ids[i];
            proof {
                let sub = trophy_ids@.subrange(0, i as int);
                assert(!sub.contains(id)) by {
                    if sub.contains(id) {
                        let k = choose|k: int| 0 <= k < sub.len() && sub[k] == id;
                        assert(trophy_ids@[k] == trophy_ids@[i as int]);
                    }
                }
                assert(trophy_wf(old_m.trophies@[id as int]->0));
            }
            let base = self.managers.base_path.clone();
            let mut data = self.managers.trophies.take(id);
            let created_str = generate_created_string(data.created);
            data.key_image_url = generate_trophy_url(
                base,
                data.donated,
                created_str,
                data.collection_id.clone(),
            );
            self.managers.admin_update_trophy(id, data);
            proof {
                assert(trophy_ids@.subrange(0, i as int + 1).drop_last() =~= trophy_ids@.subrange(
                    0,
                    i as int,
                ));
                assert(trophy_ids@.subrange(0, i as int + 1)[i as int] == id);
                assert(trophy_ids@.subrange(0, i as int + 1).contains(id));
            }
            i = i + 1;
        }
        proof {
            assert(trophy_ids@.subrange(0, n as int) =~= trophy_ids@);
        }
        let n2 = membership_ids.len();
        let mut i2: usize = 0;
        while i2 < n2
            invariant
                i2 <= n2,
                n2 == membership_ids@.len(),
                membership_ids_valid(old_m, membership_ids@),
                old_m.wf(),
                self.managers.wf(),
                self.managers.base_path == new_path,
                self.managers.trophies@.len() == old_m.trophies@.len(),
                forall|j: int|
                    0 <= j < old_m.trophies@.len() && !trophy_ids@.contains(j as usize)
                        ==> self.managers.trophies@[j] == #[trigger] old_m.trophies@[j],
                forall|k: int|
                    0 <= k < trophy_ids@.len()
                        ==> self.managers.trophies@[#[trigger] trophy_ids@[k] as int] is Some
                        && retargeted_trophy_ok(
                        old_m.trophies@[trophy_ids@[k] as int]->0,
                        self.managers.trophies@[trophy_ids@[k] as int]->0,
                        new_path@,
                    ),
                self.managers.memberships@.len() == old_m.memberships@.len(),
                forall|j: int|
                    0 <= j < old_m.memberships@.len() && !membership_ids@.subrange(
                        0,
                        i2 as int,
                    ).contains(j as usize) ==> self.managers.memberships@[j]
                        == #[trigger] old_m.memberships@[j],
                forall|k: int|
                    0 <= k < i2 ==> self.managers.memberships@[#[trigger] membership_ids@[k] as int]
                        is Some && retargeted_membership_ok(
                        old_m.memberships@[membership_ids@[k] as int]->0,
                        self.managers.memberships@[membership_ids@[k] as int]->0,
                        new_path@,
                    ),
                self.managers.creators == old_m.creators,
                self.managers.thanks_supply == old_m.thanks_supply,
                self.managers.minter_serials == old_m.minter_serials,
                self.repository_owner_access_badge_address == old(
                    self,
                ).repository_owner_access_badge_address,
                self.dapp_definition_address == old(self).dapp_definition_address,
                self.closed == old(self).closed,
                self.collections_created == old(self).collections_created,
            decreases n2 - i2,
        {
            let id = membership_ids[i2];
            proof {
                let sub = membership_ids@.subrange(0, i2 as int);
                assert(!sub.contains(id)) by {
                    if sub.contains(id) {
                        let k = choose|k: int| 0 <= k < sub.len() && sub[k] == id;
                        assert(membership_ids@[k] == membership_ids@[i2 as int]);
                    }
                }
                assert(membership_wf(old_m.memberships@[id as int]->0));
            }
            let base = self.managers.base_path.clone();
            let mut data = self.managers.memberships.take(id);
            let created_str = generate_created_string(data.created);
            data.key_image_url = generate_membership_url(
                base,
                data.donated,
                created_str,
                data.creator_slug.clone(),
            );
            self.managers.admin_update_membership(id, data);
            proof {
                assert(membership_ids@.subrange(0, i2 as int + 1).drop_last()
                    =~= membership_ids@.subrange(0, i2 as int));
                assert(membership_ids@.subrange(0, i2 as int + 1)[i2 as int] == id);
                assert(membership_ids@.subrange(0, i2 as int + 1).contains(id));
            }
            i2 = i2 + 1;
        }
        proof {
            assert(membership_ids@.subrange(0, n2 as int) =~= membership_ids@);
        }
        Ok(())
    }

    /// Burns redeemed reward tokens: a pure sink with no further effect.
    pub fn redeem_thanks_token(&mut self, amount: u128)
        requires
            amount <= old(self).managers.thanks_supply,
        ensures
            *final(self) == (Repository { managers: final(self).managers, ..*old(self) }),
            final(self).managers == (SharedManagers {
                thanks_supply: (old(self).managers.thanks_supply - amount) as u128,
                ..old(self).managers
            }),
    {
        self.managers.burn_thanks(amount);
    }

    /// Closes the repository permanently: no further collection can be
    /// instantiated, while existing collections and the aggregation engine
    /// stay operable.  Operator-gated; fails `AlreadyClosed` the second
    /// time.
    pub fn close_repository(&mut self, operator: &Proof, now: Date) -> (r: Result<(), Error>)
        ensures
            operator.id.resource != old(self).repository_owner_access_badge_address ==> r
                == Err::<(), Error>(Error::Unauthorized) && *final(self) == *old(self),
            operator.id.resource == old(self).repository_owner_access_badge_address && old(
                self,
            ).closed is Some ==> r == Err::<(), Error>(Error::AlreadyClosed) && *final(self)
                == *old(self),
            operator.id.resource == old(self).repository_owner_access_badge_address && old(
                self,
            ).closed is None ==> r == Ok::<(), Error>(()) && *final(self) == (Repository {
                closed: Some(now),
                ..*old(self)
            }),
    {
        if operator.id.resource != self.repository_owner_access_badge_address {
            return Err(Error::Unauthorized);
        }
        if self.closed.is_some() {
            return Err(Error::AlreadyClosed);
        }
        self.closed = Some(now);
        Ok(())
    }
}

} // verus!
