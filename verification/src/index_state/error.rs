//! The rejections of the index-state validator.

use crate::transaction::SysError;
use vstd::prelude::*;
use vstd::std_specs::convert::FromSpecImpl;

verus! {

/// Why the index-state validator rejects a transaction. Each violated rule
/// has a variant of its own.
#[derive(Clone, Copy, Debug, PartialEq, Eq, Structural)]
pub enum Error {
    /// The host could not supply what a rule had to read.
    Encoding,
    /// The created cell's `args` is not the outpoint of a consumed input.
    InvalidArgument,
    /// The group has no output, or no input, that carries a type identity.
    IndexStateTypeNotExist,
    /// The payload is not two bytes long.
    IndexStateDataLenError,
    /// The payload's count is not the fixed number of time-info cells.
    TimeInfoAmountError,
    /// The payload's index is not below the count.
    TimeIndexOutOfBound,
    /// The output's index is not the cyclic successor of the input's.
    TimeIndexIncreaseError,
    /// An update puts out a cell whose type identity is not that of the
    /// cell it consumes.
    TypeOfCellsNotSame,
}

impl Error {
    /// The number under which the host reports this rejection.
    pub open spec fn spec_code(self) -> i8 {
        match self {
            Error::Encoding => 4,
            Error::InvalidArgument => 5,
            Error::IndexStateTypeNotExist => 6,
            Error::IndexStateDataLenError => 7,
            Error::TimeInfoAmountError => 8,
            Error::TimeIndexOutOfBound => 9,
            Error::TimeIndexIncreaseError => 10,
            Error::TypeOfCellsNotSame => 11,
        }
    }

    /// The number under which the host reports this rejection.
    #[verifier::when_used_as_spec(spec_code)]
    pub fn code(self) -> (code: i8)
        ensures
            code == self.spec_code(),
    {
        match self {
            Error::Encoding => 4,
            Error::InvalidArgument => 5,
            Error::IndexStateTypeNotExist => 6,
            Error::IndexStateDataLenError => 7,
            Error::TimeInfoAmountError => 8,
            Error::TimeIndexOutOfBound => 9,
            Error::TimeIndexIncreaseError => 10,
            Error::TypeOfCellsNotSame => 11,
        }
    }

    /// No rejection is reported as zero, the number of acceptance, and no
    /// two rejections share a number.
    pub proof fn lemma_codes_distinct(a: Error, b: Error)
        ensures
            a.code() != 0,
            a.code() == b.code() ==> a == b,
    {
    }
}

impl From<SysError> for Error {
    fn from(e: SysError) -> (error: Error) {
        Error::Encoding
    }
}

impl FromSpecImpl<SysError> for Error {
    open spec fn obeys_from_spec() -> bool {
        true
    }

    open spec fn from_spec(e: SysError) -> Error {
        Error::Encoding
    }
}

} // verus!
