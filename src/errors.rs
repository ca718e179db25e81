//! Why operations are refused.

use vstd::prelude::*;

verus! {

/// Why an operation was refused; a refused operation changes nothing.
#[derive(Debug, PartialEq, Eq, Structural, Clone, Copy)]
pub enum Error {
    InvalidStream,
    InvalidRole,
    CannotClaim,
    CannotCancel,
    ZeroClaim,
    InvalidClaimAmount,
    StreamIsNotCancelled,
    CancelOnlySender,
    SendOneStreamNft,
    /// A token other than the stream's certificate was presented.
    InvalidNftToken,
    StreamToContract,
    StreamToCaller,
    ZeroDeposit,
    StartTime,
    EndTime,
    CliffTooBig,
    TooManySegments,
    InvalidSegmentsDuration,
    InvalidSegmentsDeposit,
    BrokerFeeTooBig,
    ProtocolFeeZero,
    ProtocolFeeTooBig,
    TokenNotIssued,
    TokenAlreadyIssued,
    InvalidStepsLength,
    InvalidLimitsStepsLength,
    OnlyOwner,
    StreamIdExhausted,
}

} // verus!
