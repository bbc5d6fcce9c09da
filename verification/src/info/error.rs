//! The rejections of the info validator.

use crate::transaction::SysError;
use vstd::prelude::*;
use vstd::std_specs::convert::FromSpecImpl;

verus! {

/// Why the info validator rejects a transaction. Each violated rule has a
/// variant of its own.
#[derive(Clone, Copy, Debug, PartialEq, Eq, Structural)]
pub enum Error {
    /// The host could not supply what a rule had to read.
    Encoding,
    /// The created cell's `args` is not the outpoint of a consumed input.
    InvalidArgument,
    /// The payload is neither five nor nine bytes long, or an update
    /// changes its length.
    TimeInfoDataLenError,
    /// The first output's payload is not an index state of two bytes.
    IndexStateDataLenError,
    /// The group has no output, or no input, that carries the type identity,
    /// or the two carry different ones.
    TimeInfoTypeNotExist,
    /// The output's index is not the index of the index-state output.
    TimeInfoIndexNotSame,
    /// The output's timestamp is not after the input's.
    OutputTimestampNotBigger,
    /// The output's block number is not above the input's.
    OutputBlockNumberNotBigger,
    /// The input's timelock does not encode the output's value.
    InvalidTimeInfoSince,
}

impl Error {
    /// The number under which the host reports this rejection.
    pub open spec fn spec_code(self) -> i8 {
        match self {
            Error::Encoding => 4,
            Error::InvalidArgument => 5,
            Error::TimeInfoDataLenError => 6,
            Error::IndexStateDataLenError => 7,
            Error::TimeInfoTypeNotExist => 8,
            Error::TimeInfoIndexNotSame => 9,
            Error::OutputTimestampNotBigger => 10,
            Error::OutputBlockNumberNotBigger => 11,
            Error::InvalidTimeInfoSince => 12,
        }
    }

    /// The number under which the host reports this rejection.
    #[verifier::when_used_as_spec(spec_code)]
    pub fn code(self) -> (code: i8)
        ensures
            code == self.spec_code(),
    {
        match self {
            Error::Encoding => 4,
            Error::InvalidArgument => 5,
            Error::TimeInfoDataLenError => 6,
            Error::IndexStateDataLenError => 7,
            Error::TimeInfoTypeNotExist => 8,
            Error::TimeInfoIndexNotSame => 9,
            Error::OutputTimestampNotBigger => 10,
            Error::OutputBlockNumberNotBigger => 11,
            Error::InvalidTimeInfoSince => 12,
        }
    }

    /// No rejection is reported as zero, the number of acceptance, and no
    /// two rejections share a number.
    pub proof fn lemma_codes_distinct(a: Error, b: Error)
        ensures
            a.code() != 0,
            a.code() == b.code() ==> a == b,
    {
    }
}

impl From<SysError> for Error {
    fn from(e: SysError) -> (error: Error) {
        Error::Encoding
    }
}

impl FromSpecImpl<SysError> for Error {
    open spec fn obeys_from_spec() -> bool {
        true
    }

    open spec fn from_spec(e: SysError) -> Error {
        Error::Encoding
    }
}

} // verus!
