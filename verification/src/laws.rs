use crate::account::{name_fits, EntityRecord};
use crate::error::{ErrorCode, StoreError};
use crate::instructions::{created_record, may_act, with_status};
use crate::store::{create_step, delete_step, lookup_of, update_status_step, valid_store};
use vstd::prelude::*;

verus! {

/// A create with a fitting name at a free identifier succeeds, and a lookup
/// there then finds exactly the identifier and name that were given, the
/// creator as authority, and the status flag set.
pub proof fn create_then_lookup(
    s: Map<u64, EntityRecord>,
    id: u64,
    name: Seq<char>,
    creator: Seq<u8>,
)
    requires
        name_fits(name),
        lookup_of(s, id) is None,
    ensures
        create_step(s, id, name, creator).1 is Ok,
        lookup_of(create_step(s, id, name, creator).0, id) == Some(
            EntityRecord { id, name, authority: creator, active: true },
        ),
{
}

/// A create with a name that is too long fails with `NameTooLong` and
/// changes nothing: where no record lived at the identifier, none does
/// afterwards.
pub proof fn create_rejects_long_name(
    s: Map<u64, EntityRecord>,
    id: u64,
    name: Seq<char>,
    creator: Seq<u8>,
)
    requires
        !name_fits(name),
    ensures
        create_step(s, id, name, creator).1 == Err::<(), StoreError>(
            StoreError::Program(ErrorCode::NameTooLong),
        ),
        create_step(s, id, name, creator).0 == s,
        lookup_of(s, id) is None ==> lookup_of(create_step(s, id, name, creator).0, id) is None,
{
}

/// A create at an identifier where a record lives fails, whoever asks and
/// whatever the name, and the record stays as it was.
pub proof fn create_at_taken_identifier_fails(
    s: Map<u64, EntityRecord>,
    id: u64,
    name: Seq<char>,
    creator: Seq<u8>,
)
    requires
        lookup_of(s, id) is Some,
    ensures
        create_step(s, id, name, creator).1 is Err,
        create_step(s, id, name, creator).0 == s,
{
}

/// Of two creates at one identifier, with nothing in between, the second
/// fails and leaves the record of the first as it was.
pub proof fn create_twice_fails(
    s: Map<u64, EntityRecord>,
    id: u64,
    first_name: Seq<char>,
    first_creator: Seq<u8>,
    second_name: Seq<char>,
    second_creator: Seq<u8>,
)
    requires
        create_step(s, id, first_name, first_creator).1 is Ok,
    ensures
        ({
            let once = create_step(s, id, first_name, first_creator).0;
            let twice = create_step(once, id, second_name, second_creator);
            &&& twice.1 is Err
            &&& twice.0 == once
            &&& lookup_of(twice.0, id) == Some(created_record(id, first_name, first_creator))
        }),
{
}

/// A status update asked for by anyone but the authority fails with
/// `UnauthorizedAction` and changes nothing.
pub proof fn update_status_by_stranger_fails(
    s: Map<u64, EntityRecord>,
    id: u64,
    new_status: bool,
    caller: Seq<u8>,
)
    requires
        lookup_of(s, id) is Some,
        lookup_of(s, id)->0.authority != caller,
    ensures
        update_status_step(s, id, new_status, caller).1 == Err::<(), StoreError>(
            StoreError::Program(ErrorCode::UnauthorizedAction),
        ),
        update_status_step(s, id, new_status, caller).0 == s,
{
}

/// A status update asked for by the authority succeeds and sets the flag,
/// and nothing else: the record keeps its identifier, name and authority,
/// and every other record stays as it was.
pub proof fn update_status_by_owner_sets_flag(
    s: Map<u64, EntityRecord>,
    id: u64,
    new_status: bool,
)
    requires
        lookup_of(s, id) is Some,
    ensures
        ({
            let before = lookup_of(s, id)->0;
            let step = update_status_step(s, id, new_status, before.authority);
            &&& step.1 is Ok
            &&& lookup_of(step.0, id) == Some(
                EntityRecord {
                    id: before.id,
                    name: before.name,
                    authority: before.authority,
                    active: new_status,
                },
            )
            &&& forall|other: u64| other != id ==> lookup_of(step.0, other) == lookup_of(s, other)
        }),
{
}

/// A status update by the authority that asks for the status already set
/// succeeds and changes nothing; so does the repetition of any update.
pub proof fn update_status_is_idempotent(s: Map<u64, EntityRecord>, id: u64, new_status: bool)
    requires
        lookup_of(s, id) is Some,
    ensures
        ({
            let owner = lookup_of(s, id)->0.authority;
            let once = update_status_step(s, id, new_status, owner);
            let twice = update_status_step(once.0, id, new_status, owner);
            &&& lookup_of(s, id)->0.active == new_status ==> once.1 is Ok && once.0 == s
            &&& twice.1 is Ok
            &&& twice.0 == once.0
        }),
{
    let owner = s[id].authority;
    let once = update_status_step(s, id, new_status, owner);
    let twice = update_status_step(once.0, id, new_status, owner);
    assert(twice.0 =~= once.0);
    if s[id].active == new_status {
        assert(with_status(s[id], new_status) == s[id]);
        assert(once.0 =~= s);
    }
}

/// A delete asked for by anyone but the authority fails with
/// `UnauthorizedAction`, and the record stays with every field as it was.
pub proof fn delete_by_stranger_fails(s: Map<u64, EntityRecord>, id: u64, caller: Seq<u8>)
    requires
        lookup_of(s, id) is Some,
        lookup_of(s, id)->0.authority != caller,
    ensures
        delete_step(s, id, caller).1 == Err::<(), StoreError>(
            StoreError::Program(ErrorCode::UnauthorizedAction),
        ),
        delete_step(s, id, caller).0 == s,
{
}

/// A delete asked for by the authority removes the record and no other: a
/// lookup at the identifier then finds nothing, and a create there, by any
/// creator and with any fitting name, succeeds.
pub proof fn delete_by_owner_frees_identifier(
    s: Map<u64, EntityRecord>,
    id: u64,
    next_name: Seq<char>,
    next_creator: Seq<u8>,
)
    requires
        lookup_of(s, id) is Some,
        name_fits(next_name),
    ensures
        ({
            let gone = delete_step(s, id, lookup_of(s, id)->0.authority);
            let again = create_step(gone.0, id, next_name, next_creator);
            &&& gone.1 is Ok
            &&& lookup_of(gone.0, id) is None
            &&& forall|other: u64| other != id ==> lookup_of(gone.0, other) == lookup_of(s, other)
            &&& again.1 is Ok
            &&& lookup_of(again.0, id) == Some(created_record(id, next_name, next_creator))
        }),
{
}

/// No operation on a record changes who owns it: as long as a record lives
/// at an identifier, from one step to the next, its authority, identifier
/// and name are what they were.
pub proof fn owner_is_never_reassigned(
    s: Map<u64, EntityRecord>,
    id: u64,
    new_status: bool,
    caller: Seq<u8>,
    watched: u64,
)
    requires
        lookup_of(s, watched) is Some,
    ensures
        ({
            let updated = update_status_step(s, id, new_status, caller).0;
            let deleted = delete_step(s, id, caller).0;
            let before = lookup_of(s, watched)->0;
            &&& lookup_of(updated, watched) is Some
            &&& lookup_of(updated, watched)->0.authority == before.authority
            &&& lookup_of(updated, watched)->0.id == before.id
            &&& lookup_of(updated, watched)->0.name == before.name
            &&& lookup_of(deleted, watched) is Some ==> lookup_of(deleted, watched) == Some(before)
            &&& lookup_of(deleted, watched) is None ==> watched == id && may_act(before, caller)
        }),
{
}

/// An operation on one identifier leaves the record at every other
/// identifier as it was, whatever its outcome.
pub proof fn steps_touch_one_identifier(
    s: Map<u64, EntityRecord>,
    id: u64,
    name: Seq<char>,
    new_status: bool,
    caller: Seq<u8>,
    other: u64,
)
    requires
        other != id,
    ensures
        lookup_of(create_step(s, id, name, caller).0, other) == lookup_of(s, other),
        lookup_of(update_status_step(s, id, new_status, caller).0, other) == lookup_of(s, other),
        lookup_of(delete_step(s, id, caller).0, other) == lookup_of(s, other),
{
}

/// Every step keeps a store in order: each record at its own identifier,
/// with a name that fits.
pub proof fn steps_keep_store_valid(
    s: Map<u64, EntityRecord>,
    id: u64,
    name: Seq<char>,
    new_status: bool,
    caller: Seq<u8>,
)
    requires
        valid_store(s),
        caller.len() == 32,
    ensures
        valid_store(create_step(s, id, name, caller).0),
        valid_store(update_status_step(s, id, new_status, caller).0),
        valid_store(delete_step(s, id, caller).0),
{
}

} // verus!
