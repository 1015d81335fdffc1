//! Capability interfaces through which unrelated modules interact with DAO
//! state without a compile-time dependency on its storage, together with
//! verified in-memory reference registries that exhibit the semantics the
//! interfaces demand.

use vstd::prelude::*;
use crate::types::{Dao, DaoPolicy};

verus! {

/// Read-only capability exposed by the module owning DAO storage: existence
/// and policy lookup, account derivation, and the total count of DAOs. Any
/// module implementing this method set may be substituted.
pub trait DaoProvider {
    /// The DAO identifier type.
    type Id;

    /// The ledger account type.
    type AccountId;

    /// The stored policy type.
    type Policy;

    /// Whether a DAO is registered under `id`.
    fn dao_exists(id: Self::Id) -> bool;

    /// The DAO's derived account. Must be a deterministic derivation,
    /// defined even when `dao_exists(id)` is false, so that an address can
    /// be precomputed before creation.
    fn dao_account_id(id: Self::Id) -> Self::AccountId;

    /// The DAO's governance policy; `None` when no DAO is registered under
    /// `id` or it has no policy configured.
    fn policy(id: Self::Id) -> Option<Self::Policy>;

    /// Total number of DAOs currently tracked.
    fn count() -> u32;
}

/// Initialization capability exposed by a membership-management module:
/// sets the initial council of a DAO. Replaying the call with the identical
/// member set must leave the observable membership unchanged; otherwise it
/// replaces the set. A failure of the membership module must surface to the
/// caller, never be silently ignored.
pub trait CouncilProvider<DaoId, AccountId> {
    /// Sets the council of `dao_id` to exactly `members`.
    fn initialize_members(dao_id: DaoId, members: &[AccountId]);
}

/// The membership set stored for `id` in a sequence of council entries:
/// the latest entry for `id` is authoritative, so an earlier set is
/// shadowed rather than rewritten in place.
pub open spec fn council_lookup<AccountId>(
    entries: Seq<(u32, Vec<AccountId>)>,
    id: u32,
) -> Option<Seq<AccountId>>
    decreases entries.len(),
{
    if entries.len() == 0 {
        None
    } else if entries.last().0 == id {
        Some(entries.last().1@)
    } else {
        council_lookup(entries.drop_last(), id)
    }
}

/// A verified in-memory council membership store: the reference model of
/// the `CouncilProvider` semantics. Membership is observed through
/// `spec_members`; initialization is a pure replacement of the observable
/// set, so replaying it with the same members changes nothing.
pub struct CouncilRegistry<AccountId> {
    entries: Vec<(u32, Vec<AccountId>)>,
}

/// The contract of a completed membership initialization: `id` now maps to
/// exactly `members`, and every other DAO's membership is untouched.
pub open spec fn initialize_post<AccountId>(
    before: CouncilRegistry<AccountId>,
    after: CouncilRegistry<AccountId>,
    id: u32,
    members: Seq<AccountId>,
) -> bool {
    &&& after.spec_members(id) == Some(members)
    &&& forall|q: u32| q != id ==> after.spec_members(q) == before.spec_members(q)
}

impl<AccountId> CouncilRegistry<AccountId> {
    /// The membership set currently stored for `id`, if any.
    pub closed spec fn spec_members(self, id: u32) -> Option<Seq<AccountId>> {
        council_lookup(self.entries@, id)
    }

    /// An empty store: no DAO has a membership set.
    pub fn new() -> (r: CouncilRegistry<AccountId>)
        ensures
            forall|q: u32| r.spec_members(q) is None,
    {
        CouncilRegistry { entries: Vec::new() }
    }

    /// Sets the council of `dao_id` to exactly `members`, replacing any
    /// earlier set and leaving every other DAO's membership unchanged.
    pub fn initialize_members(&mut self, dao_id: u32, members: Vec<AccountId>)
        ensures
            initialize_post(*old(self), *final(self), dao_id, members@),
    {
        self.entries.push((dao_id, members));
        proof {
            assert(self.entries@.drop_last() =~= old(self).entries@);
            assert(self.entries@.last() == (dao_id, members));
            assert forall|q: u32| q != dao_id implies self.spec_members(q) == old(
                self,
            ).spec_members(q) by {
                assert(council_lookup(self.entries@, q) == council_lookup(
                    self.entries@.drop_last(),
                    q,
                ));
            }
        }
    }

    /// The membership set of `dao_id`, or `None` when none was ever set.
    pub fn members_of(&self, dao_id: u32) -> (r: Option<&Vec<AccountId>>)
        ensures
            match r {
                Some(m) => self.spec_members(dao_id) == Some(m@),
                None => self.spec_members(dao_id) is None,
            },
    {
        let mut i: usize = self.entries.len();
        proof {
            assert(self.entries@.take(i as int) =~= self.entries@);
        }
        while i > 0
            invariant
                0 <= i <= self.entries@.len(),
                council_lookup(self.entries@, dao_id) == council_lookup(
                    self.entries@.take(i as int),
                    dao_id,
                ),
            decreases i,
        {
            i = i - 1;
            let entry = &self.entries[i];
            proof {
                assert(self.entries@.take(i + 1).drop_last() =~= self.entries@.take(i as int));
                assert(self.entries@.take(i + 1).last() == self.entries@[i as int]);
            }
            if entry.0 == dao_id {
                return Some(&entry.1);
            }
        }
        proof {
            assert(self.entries@.take(0) =~= Seq::<(u32, Vec<AccountId>)>::empty());
        }
        None
    }
}

/// The DAO record and policy stored for `id` in a sequence of registry
/// entries: the latest entry for `id` is authoritative.
pub open spec fn registry_lookup<AccountId, TokenId>(
    entries: Seq<(u32, Dao<AccountId, TokenId>, Option<DaoPolicy<AccountId>>)>,
    id: u32,
) -> Option<(Dao<AccountId, TokenId>, Option<DaoPolicy<AccountId>>)>
    decreases entries.len(),
{
    if entries.len() == 0 {
        None
    } else if entries.last().0 == id {
        Some((entries.last().1, entries.last().2))
    } else {
        registry_lookup(entries.drop_last(), id)
    }
}

/// A verified in-memory DAO store: the reference model of the
/// `DaoProvider` semantics. Each identifier is registered at most once, so
/// the count of entries is the count of DAOs; a DAO may be stored with or
/// without a configured policy.
pub struct DaoRegistry<AccountId, TokenId> {
    entries: Vec<(u32, Dao<AccountId, TokenId>, Option<DaoPolicy<AccountId>>)>,
}

impl<AccountId, TokenId> DaoRegistry<AccountId, TokenId> {
    /// The DAO stored under `id`, if any.
    pub closed spec fn spec_dao(self, id: u32) -> Option<Dao<AccountId, TokenId>> {
        match registry_lookup(self.entries@, id) {
            Some(e) => Some(e.0),
            None => None,
        }
    }

    /// The policy configured for `id`: `None` when no DAO is registered
    /// under `id` or its policy was never configured.
    pub closed spec fn spec_policy(self, id: u32) -> Option<DaoPolicy<AccountId>> {
        match registry_lookup(self.entries@, id) {
            Some(e) => e.1,
            None => None,
        }
    }

    /// Number of DAOs tracked.
    pub closed spec fn spec_count(self) -> nat {
        self.entries@.len()
    }

    /// Every identifier is registered at most once, and the count fits the
    /// interface's 32-bit result.
    pub closed spec fn wf(self) -> bool {
        &&& forall|i: int, j: int|
            0 <= i < j < self.entries@.len() ==> (#[trigger] self.entries@[i]).0 != (
            #[trigger] self.entries@[j]).0
        &&& self.entries@.len() <= u32::MAX
    }

    /// An empty store: no DAO is tracked.
    pub fn new() -> (r: DaoRegistry<AccountId, TokenId>)
        ensures
            r.wf(),
            r.spec_count() == 0,
            forall|q: u32| r.spec_dao(q) is None && r.spec_policy(q) is None,
    {
        DaoRegistry { entries: Vec::new() }
    }

    /// Index of the authoritative entry for `id`, if any.
    fn find_entry(&self, id: u32) -> (r: Option<usize>)
        ensures
            match r {
                Some(i) => i < self.entries@.len() && registry_lookup(self.entries@, id) == Some(
                    (self.entries@[i as int].1, self.entries@[i as int].2),
                ),
                None => registry_lookup(self.entries@, id) is None,
            },
    {
        let mut i: usize = self.entries.len();
        proof {
            assert(self.entries@.take(i as int) =~= self.entries@);
        }
        while i > 0
            invariant
                0 <= i <= self.entries@.len(),
                registry_lookup(self.entries@, id) == registry_lookup(
                    self.entries@.take(i as int),
                    id,
                ),
            decreases i,
        {
            i = i - 1;
            proof {
                assert(self.entries@.take(i + 1).drop_last() =~= self.entries@.take(i as int));
                assert(self.entries@.take(i + 1).last() == self.entries@[i as int]);
            }
            if self.entries[i].0 == id {
                return Some(i);
            }
        }
        proof {
            assert(self.entries@.take(0) =~= Seq::<
                (u32, Dao<AccountId, TokenId>, Option<DaoPolicy<AccountId>>),
            >::empty());
        }
        None
    }

    /// Whether a DAO is registered under `id`.
    pub fn dao_exists(&self, id: u32) -> (r: bool)
        ensures
            r == (self.spec_dao(id) is Some),
    {
        match self.find_entry(id) {
            Some(_) => true,
            None => false,
        }
    }

    /// The DAO registered under `id`, or `None` when there is none.
    pub fn dao_of(&self, id: u32) -> (r: Option<&Dao<AccountId, TokenId>>)
        ensures
            match r {
                Some(d) => self.spec_dao(id) == Some(*d),
                None => self.spec_dao(id) is None,
            },
    {
        match self.find_entry(id) {
            Some(i) => Some(&self.entries[i].1),
            None => None,
        }
    }

    /// The policy configured for `id`, or `None` when the DAO is unknown
    /// or has no policy.
    pub fn policy_of(&self, id: u32) -> (r: Option<&DaoPolicy<AccountId>>)
        ensures
            match r {
                Some(p) => self.spec_policy(id) == Some(*p),
                None => self.spec_policy(id) is None,
            },
    {
        match self.find_entry(id) {
            Some(i) => self.entries[i].2.as_ref(),
            None => None,
        }
    }

    /// Total number of DAOs currently tracked.
    pub fn count(&self) -> (r: u32)
        requires
            self.wf(),
        ensures
            r == self.spec_count(),
    {
        self.entries.len() as u32
    }

    /// Registers a DAO under a fresh identifier, with its policy when one
    /// is configured at creation. Rejects an identifier already in use and
    /// a full registry, changing nothing in either case.
    pub fn register_dao(
        &mut self,
        id: u32,
        dao: Dao<AccountId, TokenId>,
        policy: Option<DaoPolicy<AccountId>>,
    ) -> (ok: bool)
        requires
            old(self).wf(),
        ensures
            final(self).wf(),
            ok <==> old(self).spec_dao(id) is None && old(self).spec_count() < u32::MAX,
            ok ==> final(self).spec_dao(id) == Some(dao) && final(self).spec_policy(id) == policy
                && final(self).spec_count() == old(self).spec_count() + 1,
            ok ==> forall|q: u32|
                q != id ==> #[trigger] final(self).spec_dao(q) == old(self).spec_dao(q),
            ok ==> forall|q: u32|
                q != id ==> #[trigger] final(self).spec_policy(q) == old(self).spec_policy(q),
            !ok ==> *final(self) == *old(self),
    {
        if self.dao_exists(id) {
            return false;
        }
        if self.entries.len() >= u32::MAX as usize {
            return false;
        }
        proof {
            lemma_registry_no_entry(self.entries@, id);
        }
        self.entries.push((id, dao, policy));
        proof {
            assert(self.entries@.drop_last() =~= old(self).entries@);
            assert(self.entries@.last() == (id, dao, policy));
            assert forall|q: u32|
                q != id implies registry_lookup(self.entries@, q) == registry_lookup(
                old(self).entries@,
                q,
            ) by {
                assert(registry_lookup(self.entries@, q) == registry_lookup(
                    self.entries@.drop_last(),
                    q,
                ));
            }
            assert forall|i: int, j: int|
                0 <= i < j < self.entries@.len() implies (#[trigger] self.entries@[i]).0 != (
            #[trigger] self.entries@[j]).0 by {
                assert(self.entries@[i] == old(self).entries@[i]);
                if j == self.entries@.len() - 1 {
                    if old(self).entries@[i].0 == id {
                        lemma_registry_entry_found(old(self).entries@, i, id);
                    }
                } else {
                    assert(self.entries@[j] == old(self).entries@[j]);
                }
            }
        }
        true
    }
}

/// When no entry carries `id`, the lookup for `id` is `None`.
proof fn lemma_registry_no_entry<AccountId, TokenId>(
    entries: Seq<(u32, Dao<AccountId, TokenId>, Option<DaoPolicy<AccountId>>)>,
    id: u32,
)
    requires
        registry_lookup(entries, id) is None,
    ensures
        forall|i: int| 0 <= i < entries.len() ==> (#[trigger] entries[i]).0 != id,
    decreases entries.len(),
{
    if entries.len() > 0 {
        lemma_registry_no_entry(entries.drop_last(), id);
        assert forall|i: int| 0 <= i < entries.len() implies (#[trigger] entries[i]).0 != id by {
            if i < entries.len() - 1 {
                assert(entries.drop_last()[i] == entries[i]);
            }
        }
    }
}

/// When some entry carries `id`, the lookup for `id` succeeds.
proof fn lemma_registry_entry_found<AccountId, TokenId>(
    entries: Seq<(u32, Dao<AccountId, TokenId>, Option<DaoPolicy<AccountId>>)>,
    i: int,
    id: u32,
)
    requires
        0 <= i < entries.len(),
        entries[i].0 == id,
    ensures
        registry_lookup(entries, id) is Some,
    decreases entries.len(),
{
    if entries.last().0 != id {
        assert(entries.drop_last()[i] == entries[i]);
        lemma_registry_entry_found(entries.drop_last(), i, id);
    }
}

/// Replaying an initialization with the identical member set is idempotent:
/// after the second call every DAO's observable membership, the initialized
/// one included, is exactly what it was after the first.
pub proof fn lemma_initialize_members_idempotent<AccountId>(
    before: CouncilRegistry<AccountId>,
    once: CouncilRegistry<AccountId>,
    twice: CouncilRegistry<AccountId>,
    dao_id: u32,
    members: Seq<AccountId>,
)
    requires
        initialize_post(before, once, dao_id, members),
        initialize_post(once, twice, dao_id, members),
    ensures
        forall|q: u32| twice.spec_members(q) == once.spec_members(q),
{
    assert forall|q: u32| twice.spec_members(q) == once.spec_members(q) by {
        if q != dao_id {
            assert(twice.spec_members(q) == once.spec_members(q));
        }
    }
}

} // verus!
