use crate::credentials::MinterBadge;
use crate::data::{creator_wf, membership_wf, trophy_wf, Creator, Membership, Trophy};
use crate::store::Store;
use vstd::prelude::*;

verus! {

/// Class resource addresses of one deployment's shared managers.  The host
/// substrate would allocate these; one fixed address per class keeps the
/// identity checks the same.
pub const TROPHY_RESOURCE: u64 = 1;

pub const MEMBERSHIP_RESOURCE: u64 = 2;

pub const CREATOR_BADGE_RESOURCE: u64 = 3;

pub const THANKS_TOKEN_RESOURCE: u64 = 4;

/// The shared class managers and the state they guard, owned by the
/// repository and lent to collections call by call.  Mutating a record class
/// requires the minting capability; destroying records or issuing new
/// capabilities is reserved to the repository itself.
pub struct SharedManagers {
    pub trophies: Store<Trophy>,
    pub memberships: Store<Membership>,
    pub creators: Store<Creator>,
    /// Outstanding reward tokens, minted 1:1 with gross donations and burned
    /// on redemption.
    pub thanks_supply: u128,
    /// The base path every derived url starts with.
    pub base_path: String,
    /// How many minting capabilities have been issued.
    pub minter_serials: u64,
}

impl SharedManagers {
    /// Every live record is well formed: its running total equals the sum
    /// of its log, and its creation date names a real day.
    pub open spec fn wf(self) -> bool {
        &&& forall|i: int|
            0 <= i < self.trophies@.len() && self.trophies@[i] is Some ==> trophy_wf(
                #[trigger] self.trophies@[i]->0,
            )
        &&& forall|i: int|
            0 <= i < self.memberships@.len() && self.memberships@[i] is Some ==> membership_wf(
                #[trigger] self.memberships@[i]->0,
            )
        &&& forall|i: int|
            0 <= i < self.creators@.len() && self.creators@[i] is Some ==> creator_wf(
                #[trigger] self.creators@[i]->0,
            )
    }

    pub fn new(base_path: String) -> (m: SharedManagers)
        ensures
            m.trophies@ =~= Seq::<Option<Trophy>>::empty(),
            m.memberships@ =~= Seq::<Option<Membership>>::empty(),
            m.creators@ =~= Seq::<Option<Creator>>::empty(),
            m.thanks_supply == 0,
            m.base_path@ == base_path@,
            m.minter_serials == 0,
            m.wf(),
    {
        SharedManagers {
            trophies: Store::new(),
            memberships: Store::new(),
            creators: Store::new(),
            thanks_supply: 0,
            base_path,
            minter_serials: 0,
        }
    }

    /// Issues the next minting capability.  Only the repository can reach
    /// this, so a capability exists once per collection and nowhere else.
    pub(crate) fn issue_minter_badge(&mut self) -> (b: MinterBadge)
        requires
            old(self).minter_serials < u64::MAX,
        ensures
            *final(self) == (SharedManagers {
                minter_serials: (old(self).minter_serials + 1) as u64,
                ..*old(self)
            }),
    {
        let serial = self.minter_serials;
        self.minter_serials = self.minter_serials + 1;
        MinterBadge::issue(serial)
    }

    /// Creates a trophy record.  Gated by the minting capability; the class
    /// manager only accepts records whose total matches their log.
    pub fn mint_trophy(&mut self, minter: &MinterBadge, t: Trophy) -> (id: usize)
        requires
            old(self).trophies@.len() < usize::MAX,
            trophy_wf(t),
        ensures
            id == old(self).trophies@.len(),
            *final(self) == (SharedManagers {
                trophies: final(self).trophies,
                ..*old(self)
            }),
            final(self).trophies@ == old(self).trophies@.push(Some(t)),
            old(self).wf() ==> final(self).wf(),
    {
        let _ = minter;
        let id = self.trophies.mint(t);
        id
    }

    /// Replaces a trophy record's data.  Gated by the minting capability.
    pub fn update_trophy(&mut self, minter: &MinterBadge, id: usize, t: Trophy)
        requires
            id < old(self).trophies@.len(),
            trophy_wf(t),
        ensures
            *final(self) == (SharedManagers {
                trophies: final(self).trophies,
                ..*old(self)
            }),
            final(self).trophies@ == old(self).trophies@.update(id as int, Some(t)),
            old(self).wf() ==> final(self).wf(),
    {
        let _ = minter;
        self.trophies.put(id, t);
    }

    /// Creates a trophy record by the repository's own authority, which the
    /// aggregation engine uses for the consolidated record.
    pub(crate) fn admin_mint_trophy(&mut self, t: Trophy) -> (id: usize)
        requires
            old(self).trophies@.len() < usize::MAX,
            trophy_wf(t),
        ensures
            id == old(self).trophies@.len(),
            *final(self) == (SharedManagers {
                trophies: final(self).trophies,
                ..*old(self)
            }),
            final(self).trophies@ == old(self).trophies@.push(Some(t)),
            old(self).wf() ==> final(self).wf(),
    {
        let id = self.trophies.mint(t);
        id
    }

    /// Rewrites a trophy record by the repository's own authority; used when
    /// the base path is reconfigured.
    pub(crate) fn admin_update_trophy(&mut self, id: usize, t: Trophy)
        requires
            id < old(self).trophies@.len(),
            trophy_wf(t),
        ensures
            *final(self) == (SharedManagers {
                trophies: final(self).trophies,
                ..*old(self)
            }),
            final(self).trophies@ == old(self).trophies@.update(id as int, Some(t)),
            old(self).wf() ==> final(self).wf(),
    {
        self.trophies.put(id, t);
    }

    pub fn has_trophy(&self, id: usize) -> (b: bool)
        ensures
            b == self.trophies.spec_contains(id as int),
    {
        self.trophies.has(id)
    }

    pub fn trophy(&self, id: usize) -> (t: &Trophy)
        requires
            self.trophies.spec_contains(id as int),
        ensures
            *t == self.trophies@[id as int]->0,
    {
        self.trophies.read(id)
    }

    /// Creates a membership record.  Gated by the minting capability.
    pub fn mint_membership(&mut self, minter: &MinterBadge, m: Membership) -> (id: usize)
        requires
            old(self).memberships@.len() < usize::MAX,
            membership_wf(m),
        ensures
            id == old(self).memberships@.len(),
            *final(self) == (SharedManagers {
                memberships: final(self).memberships,
                ..*old(self)
            }),
            final(self).memberships@ == old(self).memberships@.push(Some(m)),
            old(self).wf() ==> final(self).wf(),
    {
        let _ = minter;
        let id = self.memberships.mint(m);
        id
    }

    /// Replaces a membership record's data.  Gated by the minting capability.
    pub fn update_membership(&mut self, minter: &MinterBadge, id: usize, m: Membership)
        requires
            id < old(self).memberships@.len(),
            membership_wf(m),
        ensures
            *final(self) == (SharedManagers {
                memberships: final(self).memberships,
                ..*old(self)
            }),
            final(self).memberships@ == old(self).memberships@.update(id as int, Some(m)),
            old(self).wf() ==> final(self).wf(),
    {
        let _ = minter;
        self.memberships.put(id, m);
    }

    /// Creates a membership record by the repository's own authority, which
    /// the aggregation engine uses for the consolidated record.
    pub(crate) fn admin_mint_membership(&mut self, m: Membership) -> (id: usize)
        requires
            old(self).memberships@.len() < usize::MAX,
            membership_wf(m),
        ensures
            id == old(self).memberships@.len(),
            *final(self) == (SharedManagers {
                memberships: final(self).memberships,
                ..*old(self)
            }),
            final(self).memberships@ == old(self).memberships@.push(Some(m)),
            old(self).wf() ==> final(self).wf(),
    {
        let id = self.memberships.mint(m);
        id
    }

    /// Rewrites a membership record by the repository's own authority; used
    /// when the base path is reconfigured.
    pub(crate) fn admin_update_membership(&mut self, id: usize, m: Membership)
        requires
            id < old(self).memberships@.len(),
            membership_wf(m),
        ensures
            *final(self) == (SharedManagers {
                memberships: final(self).memberships,
                ..*old(self)
            }),
            final(self).memberships@ == old(self).memberships@.update(id as int, Some(m)),
            old(self).wf() ==> final(self).wf(),
    {
        self.memberships.put(id, m);
    }

    pub fn has_membership(&self, id: usize) -> (b: bool)
        ensures
            b == self.memberships.spec_contains(id as int),
    {
        self.memberships.has(id)
    }

    pub fn membership(&self, id: usize) -> (m: &Membership)
        requires
            self.memberships.spec_contains(id as int),
        ensures
            *m == self.memberships@[id as int]->0,
    {
        self.memberships.read(id)
    }

    /// Creates a creator-profile record; reserved to the repository's
    /// credential authority.
    pub(crate) fn mint_creator(&mut self, c: Creator) -> (id: usize)
        requires
            old(self).creators@.len() < usize::MAX,
            creator_wf(c),
        ensures
            id == old(self).creators@.len(),
            *final(self) == (SharedManagers {
                creators: final(self).creators,
                ..*old(self)
            }),
            final(self).creators@ == old(self).creators@.push(Some(c)),
            old(self).wf() ==> final(self).wf(),
    {
        let id = self.creators.mint(c);
        id
    }

    /// Replaces a creator-profile record's data.  Gated by the minting
    /// capability.
    pub fn update_creator(&mut self, minter: &MinterBadge, id: usize, c: Creator)
        requires
            id < old(self).creators@.len(),
            creator_wf(c),
        ensures
            *final(self) == (SharedManagers {
                creators: final(self).creators,
                ..*old(self)
            }),
            final(self).creators@ == old(self).creators@.update(id as int, Some(c)),
            old(self).wf() ==> final(self).wf(),
    {
        let _ = minter;
        self.creators.put(id, c);
    }

    pub fn has_creator(&self, id: usize) -> (b: bool)
        ensures
            b == self.creators.spec_contains(id as int),
    {
        self.creators.has(id)
    }

    pub fn creator(&self, id: usize) -> (c: &Creator)
        requires
            self.creators.spec_contains(id as int),
        ensures
            *c == self.creators@[id as int]->0,
    {
        self.creators.read(id)
    }

    /// Mints reward tokens 1:1 with a gross donation.  Gated by the minting
    /// capability.
    pub fn mint_thanks(&mut self, minter: &MinterBadge, amount: u128) -> (r: u128)
        requires
            old(self).thanks_supply + amount <= u128::MAX,
        ensures
            r == amount,
            *final(self) == (SharedManagers {
                thanks_supply: (old(self).thanks_supply + amount) as u128,
                ..*old(self)
            }),
            old(self).wf() ==> final(self).wf(),
    {
        let _ = minter;
        self.thanks_supply = self.thanks_supply + amount;
        amount
    }

    /// Burns redeemed reward tokens; reserved to the repository.
    pub(crate) fn burn_thanks(&mut self, amount: u128)
        requires
            amount <= old(self).thanks_supply,
        ensures
            *final(self) == (SharedManagers {
                thanks_supply: (old(self).thanks_supply - amount) as u128,
                ..*old(self)
            }),
            old(self).wf() ==> final(self).wf(),
    {
        self.thanks_supply = self.thanks_supply - amount;
    }
}

} // verus!
