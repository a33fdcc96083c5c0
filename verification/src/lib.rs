//! An authorization-gated store of entity records.
//!
//! Every record is owned by the identity that created it, and only that
//! identity may change its status or delete it. The instruction handlers work
//! on one record at a time; `EntityStore` keeps the records by identifier and
//! runs the handlers against them.

pub mod account;
pub mod address;
pub mod error;
pub mod instructions;
pub mod laws;
pub mod store;

pub use account::{
    same_identity, validate_name, EntityAccount, EntityRecord, BOOL_LENGTH, DISCRIMINATOR_LENGTH,
    MAX_NAME_LENGTH, PUBLIC_KEY_LENGTH, STRING_PREFIX_LENGTH, U64_LENGTH,
};
pub use address::{entity_seeds, find_entity_address, ENTITY_SEED};
pub use error::{ErrorCode, StoreError};
pub use instructions::{
    authorize, create_entity, delete_entity, update_entity_status, CreateEntity, DeleteEntity,
    UpdateEntityStatus,
};
pub use store::EntityStore;
