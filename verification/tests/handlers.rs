use entity_manager::{
    authorize, create_entity, delete_entity, same_identity, update_entity_status, validate_name,
    CreateEntity, DeleteEntity, EntityAccount, ErrorCode, UpdateEntityStatus, BOOL_LENGTH,
    DISCRIMINATOR_LENGTH, MAX_NAME_LENGTH, PUBLIC_KEY_LENGTH, STRING_PREFIX_LENGTH, U64_LENGTH,
};

const ALICE: [u8; 32] = [1u8; 32];
const BOB: [u8; 32] = [2u8; 32];

fn entity(id: u64, name: &str, authority: [u8; 32], active: bool) -> EntityAccount {
    EntityAccount { id, name: String::from(name), authority, active }
}

#[test]
fn account_len_matches_layout() {
    assert_eq!(DISCRIMINATOR_LENGTH, 8);
    assert_eq!(U64_LENGTH, 8);
    assert_eq!(STRING_PREFIX_LENGTH, 4);
    assert_eq!(MAX_NAME_LENGTH, 50);
    assert_eq!(PUBLIC_KEY_LENGTH, 32);
    assert_eq!(BOOL_LENGTH, 1);
    assert_eq!(EntityAccount::LEN, 103);
}

#[test]
fn blank_account_is_zeroed() {
    let blank = EntityAccount::blank();
    assert_eq!(blank.id, 0);
    assert_eq!(blank.name, "");
    assert_eq!(blank.authority, [0u8; 32]);
    assert!(!blank.active);
}

#[test]
fn validate_name_accepts_empty_name() {
    assert_eq!(validate_name(""), Ok(()));
}

#[test]
fn validate_name_accepts_fifty_scalars() {
    let name = "a".repeat(50);
    assert_eq!(validate_name(&name), Ok(()));
}

#[test]
fn validate_name_rejects_fifty_one_scalars() {
    let name = "a".repeat(51);
    assert_eq!(validate_name(&name), Err(ErrorCode::NameTooLong));
}

#[test]
fn validate_name_counts_scalars_not_bytes() {
    let fifty = "\u{00e9}".repeat(50);
    assert_eq!(fifty.len(), 100);
    assert_eq!(validate_name(&fifty), Ok(()));
    let fifty_one = "\u{1f600}".repeat(51);
    assert_eq!(validate_name(&fifty_one), Err(ErrorCode::NameTooLong));
}

#[test]
fn error_messages() {
    assert_eq!(ErrorCode::NameTooLong.message(), "Name is too long.");
    assert_eq!(ErrorCode::UnauthorizedAction.message(), "Unauthorized action.");
}

#[test]
fn same_identity_compares_every_byte() {
    assert!(same_identity(&ALICE, &ALICE));
    assert!(!same_identity(&ALICE, &BOB));
    let mut last_differs = ALICE;
    last_differs[31] = 9;
    assert!(!same_identity(&ALICE, &last_differs));
    let mut first_differs = ALICE;
    first_differs[0] = 9;
    assert!(!same_identity(&first_differs, &ALICE));
}

#[test]
fn authorize_passes_owner_only() {
    let account = entity(3, "Gamma", ALICE, true);
    assert_eq!(authorize(&account, &ALICE), Ok(()));
    assert_eq!(authorize(&account, &BOB), Err(ErrorCode::UnauthorizedAction));
}

#[test]
fn create_entity_fills_the_slot() {
    let mut ctx = CreateEntity { entity_account: EntityAccount::blank(), user: ALICE };
    assert_eq!(create_entity(&mut ctx, 1, String::from("Alpha")), Ok(()));
    assert_eq!(ctx.entity_account.id, 1);
    assert_eq!(ctx.entity_account.name, "Alpha");
    assert_eq!(ctx.entity_account.authority, ALICE);
    assert!(ctx.entity_account.active);
    assert_eq!(ctx.user, ALICE);
}

#[test]
fn create_entity_rejects_long_name_and_leaves_slot() {
    let mut ctx = CreateEntity { entity_account: EntityAccount::blank(), user: ALICE };
    let r = create_entity(&mut ctx, 7, "x".repeat(51));
    assert_eq!(r, Err(ErrorCode::NameTooLong));
    assert_eq!(ctx.entity_account.id, 0);
    assert_eq!(ctx.entity_account.name, "");
    assert_eq!(ctx.entity_account.authority, [0u8; 32]);
    assert!(!ctx.entity_account.active);
}

#[test]
fn update_entity_status_by_owner() {
    let mut ctx =
        UpdateEntityStatus { entity_account: entity(1, "Alpha", ALICE, true), authority: ALICE };
    assert_eq!(update_entity_status(&mut ctx, false), Ok(()));
    assert!(!ctx.entity_account.active);
    assert_eq!(update_entity_status(&mut ctx, false), Ok(()));
    assert!(!ctx.entity_account.active);
    assert_eq!(update_entity_status(&mut ctx, true), Ok(()));
    assert!(ctx.entity_account.active);
    assert_eq!(ctx.entity_account.id, 1);
    assert_eq!(ctx.entity_account.name, "Alpha");
    assert_eq!(ctx.entity_account.authority, ALICE);
}

#[test]
fn update_entity_status_by_stranger() {
    let mut ctx =
        UpdateEntityStatus { entity_account: entity(1, "Alpha", ALICE, true), authority: BOB };
    assert_eq!(update_entity_status(&mut ctx, false), Err(ErrorCode::UnauthorizedAction));
    assert!(ctx.entity_account.active);
    assert_eq!(ctx.entity_account.authority, ALICE);
}

#[test]
fn delete_entity_by_owner_and_by_stranger() {
    let by_owner =
        DeleteEntity { entity_account: entity(1, "Alpha", ALICE, false), authority_signer: ALICE };
    assert_eq!(delete_entity(&by_owner), Ok(()));
    let by_stranger =
        DeleteEntity { entity_account: entity(1, "Alpha", ALICE, false), authority_signer: BOB };
    assert_eq!(delete_entity(&by_stranger), Err(ErrorCode::UnauthorizedAction));
    assert_eq!(by_stranger.entity_account.name, "Alpha");
}

#[test]
fn clone_keeps_every_field() {
    let account = entity(11, "Kappa", BOB, false);
    let copy = account.clone();
    assert_eq!(copy.id, 11);
    assert_eq!(copy.name, "Kappa");
    assert_eq!(copy.authority, BOB);
    assert!(!copy.active);
    assert_eq!(account.name, "Kappa");
}
