use crate::account::{name_fits, same_identity, validate_name, EntityAccount, EntityRecord};
use crate::error::ErrorCode;
use vstd::prelude::*;

verus! {

/// What the create instruction works on: the freshly allocated slot and the
/// identity that asked and pays for it.
#[derive(Debug)]
pub struct CreateEntity {
    pub entity_account: EntityAccount,
    pub user: [u8; 32],
}

/// What the status update works on: the record and the identity that asks.
#[derive(Debug)]
pub struct UpdateEntityStatus {
    pub entity_account: EntityAccount,
    pub authority: [u8; 32],
}

/// What the delete instruction works on: the record and the identity that
/// asks, which also receives what the slot held in deposit.
#[derive(Debug)]
pub struct DeleteEntity {
    pub entity_account: EntityAccount,
    pub authority_signer: [u8; 32],
}

/// The record that a successful create writes.
pub open spec fn created_record(id: u64, name: Seq<char>, creator: Seq<u8>) -> EntityRecord {
    EntityRecord { id, name, authority: creator, active: true }
}

/// A record with its status flag replaced and nothing else touched.
pub open spec fn with_status(record: EntityRecord, status: bool) -> EntityRecord {
    EntityRecord { active: status, ..record }
}

/// Whether `caller` may change or delete `record`: only its authority may.
pub open spec fn may_act(record: EntityRecord, caller: Seq<u8>) -> bool {
    record.authority == caller
}

/// The guard at the head of every mutating instruction: passes exactly when
/// the caller is the record's authority.
pub fn authorize(account: &EntityAccount, caller: &[u8; 32]) -> (r: Result<(), ErrorCode>)
    ensures
        may_act(account@, caller@) ==> r is Ok,
        !may_act(account@, caller@) ==> r == Err::<(), ErrorCode>(ErrorCode::UnauthorizedAction),
{
    if same_identity(&account.authority, caller) {
        Ok(())
    } else {
        Err(ErrorCode::UnauthorizedAction)
    }
}

/// Fills the allocated slot with a new entity owned by `ctx.user`, active
/// from the start. A name that is too long is rejected and the slot is left
/// as it was.
pub fn create_entity(ctx: &mut CreateEntity, id: u64, name: String) -> (r: Result<(), ErrorCode>)
    ensures
        final(ctx).user == old(ctx).user,
        name_fits(name@) ==> {
            &&& r is Ok
            &&& final(ctx).entity_account@ == created_record(id, name@, old(ctx).user@)
        },
        !name_fits(name@) ==> {
            &&& r == Err::<(), ErrorCode>(ErrorCode::NameTooLong)
            &&& *final(ctx) == *old(ctx)
        },
{
    match validate_name(name.as_str()) {
        Err(e) => Err(e),
        Ok(()) => {
            ctx.entity_account.id = id;
            ctx.entity_account.name = name;
            ctx.entity_account.authority = ctx.user;
            ctx.entity_account.active = true;
            Ok(())
        },
    }
}

/// Sets the status flag of the record, for its authority only. Any other
/// caller is rejected and the record is left as it was.
pub fn update_entity_status(ctx: &mut UpdateEntityStatus, new_status: bool) -> (r: Result<
    (),
    ErrorCode,
>)
    ensures
        final(ctx).authority == old(ctx).authority,
        may_act(old(ctx).entity_account@, old(ctx).authority@) ==> {
            &&& r is Ok
            &&& final(ctx).entity_account@ == with_status(old(ctx).entity_account@, new_status)
        },
        !may_act(old(ctx).entity_account@, old(ctx).authority@) ==> {
            &&& r == Err::<(), ErrorCode>(ErrorCode::UnauthorizedAction)
            &&& *final(ctx) == *old(ctx)
        },
{
    match authorize(&ctx.entity_account, &ctx.authority) {
        Err(e) => Err(e),
        Ok(()) => {
            ctx.entity_account.active = new_status;
            Ok(())
        },
    }
}

/// Decides whether the record may be destroyed: it may, by its authority
/// only. The record itself is not touched here; whoever holds the slot
/// releases it once this has returned `Ok`.
pub fn delete_entity(ctx: &DeleteEntity) -> (r: Result<(), ErrorCode>)
    ensures
        may_act(ctx.entity_account@, ctx.authority_signer@) ==> r is Ok,
        !may_act(ctx.entity_account@, ctx.authority_signer@) ==> r == Err::<(), ErrorCode>(
            ErrorCode::UnauthorizedAction,
        ),
{
    authorize(&ctx.entity_account, &ctx.authority_signer)
}

} // verus!
