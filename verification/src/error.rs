//! What can go wrong outside a frame: a transaction that is refused, a block
//! header that lacks a field, and a database that fails.

use vstd::prelude::*;

verus! {

/// Why a transaction is refused before it runs.
#[derive(Clone, Copy, Debug, PartialEq, Eq, Structural, Hash)]
pub enum InvalidTransaction {
    PriorityFeeGreaterThanMaxFee,
    GasPriceLessThanBasefee,
    CallerGasLimitMoreThanBlock,
    CallGasCostMoreThanGasLimit,
    RejectCallerWithCode,
    LackOfFundForMaxFee,
    OverflowPaymentInTransaction,
    NonceOverflowInTransaction,
    NonceTooHigh,
    NonceTooLow,
    CreateInitCodeSizeLimit,
    InvalidChainId,
    AccessListNotSupported,
    MaxFeePerBlobGasNotSupported,
    BlobVersionedHashesNotSupported,
    BlobGasPriceGreaterThanMax,
    EmptyBlobs,
    BlobCreateTransaction,
    TooManyBlobs,
    BlobVersionNotSupported,
    EofInitcodesNotSupported,
    EofCrateShouldHaveToAddress,
}

/// Why a block header is refused.
#[derive(Clone, Copy, Debug, PartialEq, Eq, Structural, Hash)]
pub enum InvalidHeader {
    PrevrandaoNotSet,
    ExcessBlobGasNotSet,
}

/// Which limit an execution ran out of gas on.
#[derive(Clone, Copy, Debug, PartialEq, Eq, Structural, Hash)]
pub enum OutOfGasError {
    Basic,
    MemoryLimit,
    Memory,
    Precompile,
    InvalidOperand,
}

/// Why an execution halted.
#[derive(Clone, Copy, Debug, PartialEq, Eq, Structural, Hash)]
pub enum HaltReason {
    OutOfGas(OutOfGasError),
    OpcodeNotFound,
    InvalidFEOpcode,
    InvalidJump,
    NotActivated,
    StackUnderflow,
    StackOverflow,
    OutOfOffset,
    CreateCollision,
    PrecompileError,
    NonceOverflow,
    CreateContractSizeLimit,
    CreateContractStartingWithEF,
    CreateInitCodeSizeLimit,
    OverflowPayment,
    StateChangeDuringStaticCall,
    CallNotAllowedInsideStatic,
    OutOfFunds,
    CallTooDeep,
}

/// An error that ends the execution of a transaction. `DBError` is the error of
/// the database, `TxError` the reason for which a transaction is refused.
#[derive(Debug)]
pub enum EVMError<DBError, TxError = InvalidTransaction> {
    /// The transaction is refused.
    Transaction(TxError),
    /// The block header is refused.
    Header(InvalidHeader),
    /// The database failed.
    Database(DBError),
    /// Another error, in words.
    Custom(String),
    /// A precompiled contract failed.
    Precompile(String),
}

} // verus!
