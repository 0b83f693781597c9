//! What an Optimism chain adds: the reasons for which a deposit transaction is
//! refused or halts, and the fee data of the L1 block.

use vstd::prelude::*;
use crate::error::{EVMError, HaltReason, InvalidTransaction};
use crate::primitives::U256;

verus! {

/// Why a transaction is refused on an Optimism chain.
#[derive(Clone, Copy, Debug, PartialEq, Eq, Structural, Hash)]
pub enum InvalidOptimismTransaction {
    /// A reason that holds on every chain.
    Base(InvalidTransaction),
    /// A deposit marked as a system transaction after Regolith, which no longer
    /// knows such transactions. The handler turns this into a failed deposit:
    /// the transaction is still included, the nonce of the sender rises and the
    /// minted value stays.
    DepositSystemTxPostRegolith,
    /// A deposit that halted after Regolith. The handler turns this into a failed
    /// deposit as well.
    HaltedDepositPostRegolith,
    /// A transaction that is no deposit lacks the L1 block info.
    MissingL1BlockInfo,
    /// A deposit carries L1 block info.
    UnexpectedL1BlockInfo,
}

/// Why an execution halted on an Optimism chain.
#[derive(Clone, Copy, Debug, PartialEq, Eq, Structural, Hash)]
pub enum OptimismHaltReason {
    /// A reason that holds on every chain.
    Base(HaltReason),
    /// A deposit failed: it is included all the same, with the nonce of the
    /// sender raised and the minted value kept.
    FailedDeposit,
}

/// The fee data of the L1 block, kept while an L2 transaction runs.
#[derive(Clone, Copy, Debug, PartialEq, Eq, Structural)]
pub struct L1BlockInfo {
    pub l1_base_fee: U256,
    pub l1_fee_overhead: Option<U256>,
    pub l1_base_fee_scalar: U256,
    pub l1_blob_base_fee: Option<U256>,
    pub l1_blob_base_fee_scalar: Option<U256>,
}

impl InvalidTransaction {
    /// The reason in words.
    pub open spec fn message_spec(self) -> Seq<char> {
        match self {
            InvalidTransaction::PriorityFeeGreaterThanMaxFee => "priority fee is greater than max fee"@,
            InvalidTransaction::GasPriceLessThanBasefee => "gas price is less than basefee"@,
            InvalidTransaction::CallerGasLimitMoreThanBlock => "caller gas limit exceeds the block gas limit"@,
            InvalidTransaction::CallGasCostMoreThanGasLimit => "call gas cost exceeds the gas limit"@,
            InvalidTransaction::RejectCallerWithCode => "reject transactions from senders with deployed code"@,
            InvalidTransaction::LackOfFundForMaxFee => "lack of funds for max fee"@,
            InvalidTransaction::OverflowPaymentInTransaction => "overflow payment in transaction"@,
            InvalidTransaction::NonceOverflowInTransaction => "nonce overflow in transaction"@,
            InvalidTransaction::NonceTooHigh => "nonce too high"@,
            InvalidTransaction::NonceTooLow => "nonce too low"@,
            InvalidTransaction::CreateInitCodeSizeLimit => "create initcode size limit"@,
            InvalidTransaction::InvalidChainId => "invalid chain ID"@,
            InvalidTransaction::AccessListNotSupported => "access list not supported"@,
            InvalidTransaction::MaxFeePerBlobGasNotSupported => "max fee per blob gas not supported"@,
            InvalidTransaction::BlobVersionedHashesNotSupported => "blob versioned hashes not supported"@,
            InvalidTransaction::BlobGasPriceGreaterThanMax => "blob gas price is greater than max fee per blob gas"@,
            InvalidTransaction::EmptyBlobs => "empty blobs"@,
            InvalidTransaction::BlobCreateTransaction => "blob create transaction"@,
            InvalidTransaction::TooManyBlobs => "too many blobs"@,
            InvalidTransaction::BlobVersionNotSupported => "blob version not supported"@,
            InvalidTransaction::EofInitcodesNotSupported => "EOF initcodes not supported"@,
            InvalidTransaction::EofCrateShouldHaveToAddress => "EOF crate should have `to` address"@,
        }
    }

    /// The reason in words.
    pub fn message(&self) -> (r: String)
        ensures
            r@ == self.message_spec(),
    {
        let text: &str = match self {
            InvalidTransaction::PriorityFeeGreaterThanMaxFee => "priority fee is greater than max fee",
            InvalidTransaction::GasPriceLessThanBasefee => "gas price is less than basefee",
            InvalidTransaction::CallerGasLimitMoreThanBlock => "caller gas limit exceeds the block gas limit",
            InvalidTransaction::CallGasCostMoreThanGasLimit => "call gas cost exceeds the gas limit",
            InvalidTransaction::RejectCallerWithCode => "reject transactions from senders with deployed code",
            InvalidTransaction::LackOfFundForMaxFee => "lack of funds for max fee",
            InvalidTransaction::OverflowPaymentInTransaction => "overflow payment in transaction",
            InvalidTransaction::NonceOverflowInTransaction => "nonce overflow in transaction",
            InvalidTransaction::NonceTooHigh => "nonce too high",
            InvalidTransaction::NonceTooLow => "nonce too low",
            InvalidTransaction::CreateInitCodeSizeLimit => "create initcode size limit",
            InvalidTransaction::InvalidChainId => "invalid chain ID",
            InvalidTransaction::AccessListNotSupported => "access list not supported",
            InvalidTransaction::MaxFeePerBlobGasNotSupported => "max fee per blob gas not supported",
            InvalidTransaction::BlobVersionedHashesNotSupported => "blob versioned hashes not supported",
            InvalidTransaction::BlobGasPriceGreaterThanMax => "blob gas price is greater than max fee per blob gas",
            InvalidTransaction::EmptyBlobs => "empty blobs",
            InvalidTransaction::BlobCreateTransaction => "blob create transaction",
            InvalidTransaction::TooManyBlobs => "too many blobs",
            InvalidTransaction::BlobVersionNotSupported => "blob version not supported",
            InvalidTransaction::EofInitcodesNotSupported => "EOF initcodes not supported",
            InvalidTransaction::EofCrateShouldHaveToAddress => "EOF crate should have `to` address",
        };
        text.to_string()
    }
}

impl InvalidOptimismTransaction {
    /// The reason in words: for a reason that holds on every chain, its own words.
    pub open spec fn message_spec(self) -> Seq<char> {
        match self {
            InvalidOptimismTransaction::Base(error) => error.message_spec(),
            InvalidOptimismTransaction::DepositSystemTxPostRegolith => "deposit system transactions post regolith hardfork are not supported"@,
            InvalidOptimismTransaction::HaltedDepositPostRegolith => "deposit transaction halted post-regolith; error will be bubbled up to main return handler"@,
            InvalidOptimismTransaction::MissingL1BlockInfo => "non-deposit transaction is missing L1 block info"@,
            InvalidOptimismTransaction::UnexpectedL1BlockInfo => "deposit transaction has unexpected L1 block info"@,
        }
    }

    /// The reason in words.
    pub fn message(&self) -> (r: String)
        ensures
            r@ == self.message_spec(),
    {
        match self {
            InvalidOptimismTransaction::Base(error) => error.message(),
            InvalidOptimismTransaction::DepositSystemTxPostRegolith => "deposit system transactions post regolith hardfork are not supported".to_string(),
            InvalidOptimismTransaction::HaltedDepositPostRegolith => "deposit transaction halted post-regolith; error will be bubbled up to main return handler".to_string(),
            InvalidOptimismTransaction::MissingL1BlockInfo => "non-deposit transaction is missing L1 block info".to_string(),
            InvalidOptimismTransaction::UnexpectedL1BlockInfo => "deposit transaction has unexpected L1 block info".to_string(),
        }
    }

    /// Whether the handler turns the refusal into a failed deposit instead of
    /// leaving the transaction out.
    pub open spec fn is_failed_deposit_spec(self) -> bool {
        self == InvalidOptimismTransaction::DepositSystemTxPostRegolith || self
            == InvalidOptimismTransaction::HaltedDepositPostRegolith
    }

    /// Whether the handler turns the refusal into a failed deposit.
    pub fn is_failed_deposit(&self) -> (r: bool)
        ensures
            r == self.is_failed_deposit_spec(),
    {
        match self {
            InvalidOptimismTransaction::DepositSystemTxPostRegolith
            | InvalidOptimismTransaction::HaltedDepositPostRegolith => true,
            _ => false,
        }
    }
}

impl From<InvalidTransaction> for InvalidOptimismTransaction {
    fn from(value: InvalidTransaction) -> (r: Self) {
        InvalidOptimismTransaction::Base(value)
    }
}

impl vstd::std_specs::convert::FromSpecImpl<InvalidTransaction> for InvalidOptimismTransaction {
    open spec fn obeys_from_spec() -> bool {
        true
    }

    open spec fn from_spec(value: InvalidTransaction) -> Self {
        InvalidOptimismTransaction::Base(value)
    }
}

impl From<HaltReason> for OptimismHaltReason {
    fn from(value: HaltReason) -> (r: Self) {
        OptimismHaltReason::Base(value)
    }
}

impl vstd::std_specs::convert::FromSpecImpl<HaltReason> for OptimismHaltReason {
    open spec fn obeys_from_spec() -> bool {
        true
    }

    open spec fn from_spec(value: HaltReason) -> Self {
        OptimismHaltReason::Base(value)
    }
}

impl<DBError> From<InvalidOptimismTransaction> for EVMError<DBError, InvalidOptimismTransaction> {
    fn from(value: InvalidOptimismTransaction) -> (r: Self) {
        EVMError::Transaction(value)
    }
}

impl<DBError> vstd::std_specs::convert::FromSpecImpl<InvalidOptimismTransaction> for EVMError<DBError, InvalidOptimismTransaction> {
    open spec fn obeys_from_spec() -> bool {
        true
    }

    open spec fn from_spec(value: InvalidOptimismTransaction) -> Self {
        EVMError::Transaction(value)
    }
}

} // verus!
