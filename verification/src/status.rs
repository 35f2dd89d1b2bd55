//! The status enumeration that every interface call reports.

use vstd::prelude::*;

verus! {

/// Status returned by calls across the plugin interface protocol.
///
/// The variants are declared in ascending order of their wire code.
#[derive(Debug, Clone, Copy, PartialEq, Eq, Structural)]
pub enum TResult {
    ResultOk,
    ResultFalse,
    NotImplemented,
    NoInterface,
    InternalError,
    NotInitialized,
    OutOfMemory,
    InvalidArgument,
}

impl TResult {
    /// The 32-bit wire code of a status.
    pub open spec fn spec_code(self) -> u32 {
        match self {
            TResult::ResultOk => 0u32,
            TResult::ResultFalse => 1u32,
            TResult::NotImplemented => 0x8000_4001u32,
            TResult::NoInterface => 0x8000_4002u32,
            TResult::InternalError => 0x8000_4005u32,
            TResult::NotInitialized => 0x8000_FFFFu32,
            TResult::OutOfMemory => 0x8007_000Eu32,
            TResult::InvalidArgument => 0x8007_0057u32,
        }
    }

    /// The status that a wire code denotes, if it denotes one.
    pub open spec fn spec_from_code(code: u32) -> Option<TResult> {
        if code == 0u32 {
            Some(TResult::ResultOk)
        } else if code == 1u32 {
            Some(TResult::ResultFalse)
        } else if code == 0x8000_4001u32 {
            Some(TResult::NotImplemented)
        } else if code == 0x8000_4002u32 {
            Some(TResult::NoInterface)
        } else if code == 0x8000_4005u32 {
            Some(TResult::InternalError)
        } else if code == 0x8000_FFFFu32 {
            Some(TResult::NotInitialized)
        } else if code == 0x8007_000Eu32 {
            Some(TResult::OutOfMemory)
        } else if code == 0x8007_0057u32 {
            Some(TResult::InvalidArgument)
        } else {
            None
        }
    }

    /// Only `ResultOk` counts as success.
    pub open spec fn spec_is_ok(self) -> bool {
        self == TResult::ResultOk
    }

    #[verifier::when_used_as_spec(spec_code)]
    pub fn code(self) -> (code: u32)
        ensures
            code == self.spec_code(),
    {
        match self {
            TResult::ResultOk => 0,
            TResult::ResultFalse => 1,
            TResult::NotImplemented => 0x8000_4001,
            TResult::NoInterface => 0x8000_4002,
            TResult::InternalError => 0x8000_4005,
            TResult::NotInitialized => 0x8000_FFFF,
            TResult::OutOfMemory => 0x8007_000E,
            TResult::InvalidArgument => 0x8007_0057,
        }
    }

    pub fn from_code(code: u32) -> (status: Option<TResult>)
        ensures
            status == TResult::spec_from_code(code),
    {
        if code == 0 {
            Some(TResult::ResultOk)
        } else if code == 1 {
            Some(TResult::ResultFalse)
        } else if code == 0x8000_4001 {
            Some(TResult::NotImplemented)
        } else if code == 0x8000_4002 {
            Some(TResult::NoInterface)
        } else if code == 0x8000_4005 {
            Some(TResult::InternalError)
        } else if code == 0x8000_FFFF {
            Some(TResult::NotInitialized)
        } else if code == 0x8007_000E {
            Some(TResult::OutOfMemory)
        } else if code == 0x8007_0057 {
            Some(TResult::InvalidArgument)
        } else {
            None
        }
    }

    /// The status that a plugin means by a code: the status that the code
    /// denotes, or an internal error for a code that denotes none.
    pub fn of_code(code: u32) -> (status: TResult)
        ensures
            status == match TResult::spec_from_code(code) {
                Some(known) => known,
                None => TResult::InternalError,
            },
    {
        match TResult::from_code(code) {
            Some(known) => known,
            None => TResult::InternalError,
        }
    }

    #[verifier::when_used_as_spec(spec_is_ok)]
    pub fn is_ok(self) -> (ok: bool)
        ensures
            ok == self.spec_is_ok(),
    {
        self == TResult::ResultOk
    }

    /// The name of the status, as it is written in logs.
    pub fn name(self) -> (name: &'static str)
        ensures
            name@ == self.spec_name(),
    {
        match self {
            TResult::ResultOk => "ResultOk",
            TResult::ResultFalse => "ResultFalse",
            TResult::NotImplemented => "NotImplemented",
            TResult::NoInterface => "NoInterface",
            TResult::InternalError => "InternalError",
            TResult::NotInitialized => "NotInitialized",
            TResult::OutOfMemory => "OutOfMemory",
            TResult::InvalidArgument => "InvalidArgument",
        }
    }

    pub open spec fn spec_name(self) -> Seq<char> {
        match self {
            TResult::ResultOk => "ResultOk"@,
            TResult::ResultFalse => "ResultFalse"@,
            TResult::NotImplemented => "NotImplemented"@,
            TResult::NoInterface => "NoInterface"@,
            TResult::InternalError => "InternalError"@,
            TResult::NotInitialized => "NotInitialized"@,
            TResult::OutOfMemory => "OutOfMemory"@,
            TResult::InvalidArgument => "InvalidArgument"@,
        }
    }
}

/// Every status is recovered from its own wire code.
pub proof fn lemma_code_round_trip(status: TResult)
    ensures
        TResult::spec_from_code(status.spec_code()) == Some(status),
{
}

/// A wire code that denotes a status is the code of that status.
pub proof fn lemma_from_code_is_inverse(code: u32)
    ensures
        TResult::spec_from_code(code) matches Some(status) ==> status.spec_code() == code,
{
}

} // verus!
