use vstd::prelude::*;

verus! {

/// The two ways in which an instruction handler rejects its input.
#[derive(Clone, Copy, Debug, PartialEq, Eq, Structural)]
pub enum ErrorCode {
    /// The name holds more than `MAX_NAME_LENGTH` Unicode scalar values.
    NameTooLong,
    /// The caller is not the authority of the record.
    UnauthorizedAction,
}

/// Why an operation on the store had no effect.
#[derive(Clone, Copy, Debug, PartialEq, Eq, Structural)]
pub enum StoreError {
    /// The instruction handler rejected the input.
    Program(ErrorCode),
    /// A record already lives at the identifier that was to be created.
    AccountAlreadyInUse,
    /// No record lives at the identifier that was addressed.
    AccountNotInitialized,
}

impl ErrorCode {
    /// The message that goes with the error.
    pub fn message(&self) -> (r: &'static str)
        ensures
            r@ == (match *self {
                ErrorCode::NameTooLong => "Name is too long."@,
                ErrorCode::UnauthorizedAction => "Unauthorized action."@,
            }),
    {
        match self {
            ErrorCode::NameTooLong => "Name is too long.",
            ErrorCode::UnauthorizedAction => "Unauthorized action.",
        }
    }
}

} // verus!
