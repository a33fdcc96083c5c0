use crate::error::ErrorCode;
use vstd::prelude::*;
use vstd::string::StrSliceExecFns;

verus! {

/// Longest name, in Unicode scalar values, that an entity may carry.
pub const MAX_NAME_LENGTH: usize = 50;

/// Bytes of the tag that marks a slot as an entity account.
pub const DISCRIMINATOR_LENGTH: usize = 8;

/// Bytes of the stored identifier.
pub const U64_LENGTH: usize = 8;

/// Bytes of the length prefix that precedes the stored name.
pub const STRING_PREFIX_LENGTH: usize = 4;

/// Bytes of a stored identity.
pub const PUBLIC_KEY_LENGTH: usize = 32;

/// Bytes of the stored status flag.
pub const BOOL_LENGTH: usize = 1;

/// One entity as it is stored: its identifier, its name, the identity that
/// owns it and its status flag.
#[derive(Debug)]
pub struct EntityAccount {
    pub id: u64,
    pub name: String,
    pub authority: [u8; 32],
    pub active: bool,
}

/// The mathematical value of an `EntityAccount`.
pub struct EntityRecord {
    pub id: u64,
    pub name: Seq<char>,
    pub authority: Seq<u8>,
    pub active: bool,
}

impl View for EntityAccount {
    type V = EntityRecord;

    open spec fn view(&self) -> EntityRecord {
        EntityRecord {
            id: self.id,
            name: self.name@,
            authority: self.authority@,
            active: self.active,
        }
    }
}

impl Clone for EntityAccount {
    fn clone(&self) -> (r: EntityAccount)
        ensures
            r@ == self@,
    {
        EntityAccount {
            id: self.id,
            name: self.name.clone(),
            authority: self.authority,
            active: self.active,
        }
    }
}

impl EntityAccount {
    /// Size of the slot that holds an entity: tag, identifier, length-prefixed
    /// name buffer, authority and status flag.
    pub const LEN: usize = DISCRIMINATOR_LENGTH + U64_LENGTH + (STRING_PREFIX_LENGTH
        + MAX_NAME_LENGTH) + PUBLIC_KEY_LENGTH + BOOL_LENGTH;

    /// A freshly allocated slot: every field zeroed, the name empty.
    pub fn blank() -> (r: EntityAccount)
        ensures
            r@ == (EntityRecord {
                id: 0,
                name: Seq::<char>::empty(),
                authority: Seq::new(32, |i: int| 0u8),
                active: false,
            }),
    {
        let r = EntityAccount { id: 0, name: String::new(), authority: [0u8; 32], active: false };
        proof {
            assert(r.authority@ =~= Seq::new(32, |i: int| 0u8));
        }
        r
    }
}

/// Whether a name is short enough to be stored.
pub open spec fn name_fits(name: Seq<char>) -> bool {
    name.len() <= MAX_NAME_LENGTH
}

/// Accepts a name of at most `MAX_NAME_LENGTH` Unicode scalar values and
/// rejects every other with `NameTooLong`. Nothing else is asked of a name.
pub fn validate_name(name: &str) -> (r: Result<(), ErrorCode>)
    ensures
        name_fits(name@) ==> r is Ok,
        !name_fits(name@) ==> r == Err::<(), ErrorCode>(ErrorCode::NameTooLong),
{
    if name.unicode_len() > MAX_NAME_LENGTH {
        Err(ErrorCode::NameTooLong)
    } else {
        Ok(())
    }
}

/// Whether two identities are the same, byte for byte.
pub fn same_identity(a: &[u8; 32], b: &[u8; 32]) -> (r: bool)
    ensures
        r == (a@ == b@),
{
    let mut i: usize = 0;
    while i < 32
        invariant
            i <= 32,
            forall|j: int| 0 <= j < i ==> a@[j] == b@[j],
        decreases 32 - i,
    {
        if a[i] != b[i] {
            return false;
        }
        i += 1;
    }
    proof {
        assert(a@ =~= b@);
    }
    true
}

} // verus!
