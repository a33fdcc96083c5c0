use crate::account::{name_fits, EntityAccount, EntityRecord};
use crate::error::{ErrorCode, StoreError};
use crate::instructions::{
    create_entity, created_record, delete_entity, may_act, update_entity_status, with_status,
    CreateEntity, DeleteEntity, UpdateEntityStatus,
};
use std::collections::HashMap;
use vstd::prelude::*;
use vstd::std_specs::hash::group_hash_axioms;

verus! {

/// What a lookup at `id` finds in a store that holds `s`.
pub open spec fn lookup_of(s: Map<u64, EntityRecord>, id: u64) -> Option<EntityRecord> {
    if s.contains_key(id) {
        Some(s[id])
    } else {
        None
    }
}

/// A create of `id` by `creator`: the store afterwards and the outcome.
/// The name is judged first, then whether the identifier is free.
pub open spec fn create_step(
    s: Map<u64, EntityRecord>,
    id: u64,
    name: Seq<char>,
    creator: Seq<u8>,
) -> (Map<u64, EntityRecord>, Result<(), StoreError>) {
    if !name_fits(name) {
        (s, Err(StoreError::Program(ErrorCode::NameTooLong)))
    } else if s.contains_key(id) {
        (s, Err(StoreError::AccountAlreadyInUse))
    } else {
        (s.insert(id, created_record(id, name, creator)), Ok(()))
    }
}

/// A status update of `id` asked for by `caller`: the store afterwards and
/// the outcome.
pub open spec fn update_status_step(
    s: Map<u64, EntityRecord>,
    id: u64,
    new_status: bool,
    caller: Seq<u8>,
) -> (Map<u64, EntityRecord>, Result<(), StoreError>) {
    if !s.contains_key(id) {
        (s, Err(StoreError::AccountNotInitialized))
    } else if !may_act(s[id], caller) {
        (s, Err(StoreError::Program(ErrorCode::UnauthorizedAction)))
    } else {
        (s.insert(id, with_status(s[id], new_status)), Ok(()))
    }
}

/// A delete of `id` asked for by `caller`: the store afterwards and the
/// outcome.
pub open spec fn delete_step(s: Map<u64, EntityRecord>, id: u64, caller: Seq<u8>) -> (
    Map<u64, EntityRecord>,
    Result<(), StoreError>,
) {
    if !s.contains_key(id) {
        (s, Err(StoreError::AccountNotInitialized))
    } else if !may_act(s[id], caller) {
        (s, Err(StoreError::Program(ErrorCode::UnauthorizedAction)))
    } else {
        (s.remove(id), Ok(()))
    }
}

/// What holds of every store: a record lives at its own identifier, its name
/// fits, and its authority is a whole identity.
pub open spec fn valid_store(s: Map<u64, EntityRecord>) -> bool {
    forall|id: u64| #[trigger]
        s.contains_key(id) ==> s[id].id == id && name_fits(s[id].name) && s[id].authority.len()
            == 32
}

/// The records that exist, each at its identifier.
pub struct EntityStore {
    accounts: HashMap<u64, EntityAccount>,
}

impl View for EntityStore {
    type V = Map<u64, EntityRecord>;

    closed spec fn view(&self) -> Map<u64, EntityRecord> {
        Map::new(|id: u64| self.accounts@.contains_key(id), |id: u64| self.accounts@[id]@)
    }
}

impl EntityStore {
    /// Whether the store is in order.
    pub open spec fn wf(&self) -> bool {
        valid_store(self@)
    }

    /// A store without records.
    pub fn new() -> (r: EntityStore)
        ensures
            r.wf(),
            r@ == Map::<u64, EntityRecord>::empty(),
    {
        let r = EntityStore { accounts: HashMap::new() };
        proof {
            assert(r@ =~= Map::<u64, EntityRecord>::empty());
        }
        r
    }

    /// The record at `id`, if there is one.
    pub fn lookup(&self, id: u64) -> (r: Option<&EntityAccount>)
        ensures
            match r {
                Some(account) => lookup_of(self@, id) == Some(account@),
                None => lookup_of(self@, id) is None,
            },
    {
        broadcast use group_hash_axioms;

        self.accounts.get(&id)
    }

    /// Creates the entity `id`, owned by `creator` and active. Fails, and leaves
    /// the store as it was, where the name is too long or a record already
    /// lives at `id`.
    pub fn create(&mut self, id: u64, name: String, creator: [u8; 32]) -> (r: Result<
        (),
        StoreError,
    >)
        requires
            old(self).wf(),
        ensures
            final(self).wf(),
            final(self)@ == create_step(old(self)@, id, name@, creator@).0,
            r == create_step(old(self)@, id, name@, creator@).1,
    {
        broadcast use group_hash_axioms;

        let ghost wanted = created_record(id, name@, creator@);
        let mut ctx = CreateEntity { entity_account: EntityAccount::blank(), user: creator };
        match create_entity(&mut ctx, id, name) {
            Err(e) => Err(StoreError::Program(e)),
            Ok(()) => {
                if self.accounts.contains_key(&id) {
                    Err(StoreError::AccountAlreadyInUse)
                } else {
                    self.accounts.insert(id, ctx.entity_account);
                    proof {
                        assert(self@ =~= old(self)@.insert(id, wanted));
                    }
                    Ok(())
                }
            },
        }
    }

    /// Sets the status flag of the entity `id`, for its authority only.
    /// Fails, and leaves the store as it was, where no record lives at `id`
    /// or `authority` does not own it.
    pub fn update_status(&mut self, id: u64, new_status: bool, authority: [u8; 32]) -> (r: Result<
        (),
        StoreError,
    >)
        requires
            old(self).wf(),
        ensures
            final(self).wf(),
            final(self)@ == update_status_step(old(self)@, id, new_status, authority@).0,
            r == update_status_step(old(self)@, id, new_status, authority@).1,
    {
        broadcast use group_hash_axioms;

        match self.accounts.remove(&id) {
            None => {
                proof {
                    assert(self@ =~= old(self)@);
                }
                Err(StoreError::AccountNotInitialized)
            },
            Some(account) => {
                let mut ctx = UpdateEntityStatus { entity_account: account, authority };
                let outcome = update_entity_status(&mut ctx, new_status);
                let ghost after = ctx.entity_account@;
                self.accounts.insert(id, ctx.entity_account);
                proof {
                    assert(self@ =~= old(self)@.insert(id, after));
                }
                match outcome {
                    Ok(()) => Ok(()),
                    Err(e) => Err(StoreError::Program(e)),
                }
            },
        }
    }

    /// Destroys the entity `id`, for its authority only; the identifier is
    /// free again afterwards. Fails, and leaves the store as it was, where no
    /// record lives at `id` or `authority_signer` does not own it.
    pub fn delete(&mut self, id: u64, authority_signer: [u8; 32]) -> (r: Result<(), StoreError>)
        requires
            old(self).wf(),
        ensures
            final(self).wf(),
            final(self)@ == delete_step(old(self)@, id, authority_signer@).0,
            r == delete_step(old(self)@, id, authority_signer@).1,
    {
        broadcast use group_hash_axioms;

        match self.accounts.remove(&id) {
            None => {
                proof {
                    assert(self@ =~= old(self)@);
                }
                Err(StoreError::AccountNotInitialized)
            },
            Some(account) => {
                let ctx = DeleteEntity { entity_account: account, authority_signer };
                match delete_entity(&ctx) {
                    Ok(()) => {
                        proof {
                            assert(self@ =~= old(self)@.remove(id));
                        }
                        Ok(())
                    },
                    Err(e) => {
                        self.accounts.insert(id, ctx.entity_account);
                        proof {
                            assert(self@ =~= old(self)@);
                        }
                        Err(StoreError::Program(e))
                    },
                }
            },
        }
    }
}

} // verus!
