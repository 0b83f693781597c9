//! What a frame hands back when it ends, and what the state hands to the
//! interpreter for the opcodes that touch it.

use vstd::prelude::*;
use crate::primitives::U256;

verus! {

/// The deepest the call stack may grow.
pub const CALL_STACK_LIMIT: u64 = 1024;

/// The most bytes of code that a contract may hold, unless configured otherwise.
pub const MAX_CODE_SIZE: usize = 0x6000;

/// Gas charged for each byte of deployed code.
pub const CODEDEPOSIT: u64 = 200;

/// How a frame ended.
#[derive(Clone, Copy, Debug, PartialEq, Eq, Structural, Hash)]
pub enum InstructionResult {
    Continue,
    Stop,
    Return,
    SelfDestruct,
    ReturnContract,
    Revert,
    CallTooDeep,
    OutOfFunds,
    CreateInitCodeStartingEF00,
    InvalidEOFInitCode,
    OutOfGas,
    MemoryOOG,
    MemoryLimitOOG,
    PrecompileOOG,
    InvalidOperandOOG,
    OpcodeNotFound,
    CallNotAllowedInsideStatic,
    StateChangeDuringStaticCall,
    InvalidFEOpcode,
    InvalidJump,
    NotActivated,
    StackUnderflow,
    StackOverflow,
    OutOfOffset,
    CreateCollision,
    OverflowPayment,
    PrecompileError,
    NonceOverflow,
    CreateContractSizeLimit,
    CreateContractStartingWithEF,
    CreateInitCodeSizeLimit,
    FatalExternalError,
}

impl InstructionResult {
    /// Whether a call that ended so keeps its changes: it stopped, returned or
    /// destroyed itself.
    pub open spec fn is_call_ok_spec(self) -> bool {
        self == InstructionResult::Stop || self == InstructionResult::Return || self
            == InstructionResult::SelfDestruct
    }

    /// Whether init code that ended so may deploy: it stopped or returned.
    pub open spec fn is_create_ok_spec(self) -> bool {
        self == InstructionResult::Stop || self == InstructionResult::Return
    }

    pub fn is_call_ok(&self) -> (r: bool)
        ensures
            r == self.is_call_ok_spec(),
    {
        match self {
            InstructionResult::Stop | InstructionResult::Return | InstructionResult::SelfDestruct => true,
            _ => false,
        }
    }

    pub fn is_create_ok(&self) -> (r: bool)
        ensures
            r == self.is_create_ok_spec(),
    {
        match self {
            InstructionResult::Stop | InstructionResult::Return => true,
            _ => false,
        }
    }
}

/// The gas of one frame.
#[derive(Clone, Copy, Debug, PartialEq, Eq, Structural, Hash)]
pub struct Gas {
    /// What the frame was given.
    pub limit: u64,
    /// What is left of it.
    pub remaining: u64,
    /// What is to be given back at the end of the transaction.
    pub refunded: i64,
}

impl Gas {
    /// The gas left after `cost` is paid, if it can be paid.
    pub open spec fn record_cost_spec(self, cost: nat) -> Gas {
        if cost <= self.remaining {
            Gas { remaining: (self.remaining - cost) as u64, ..self }
        } else {
            self
        }
    }

    /// A full tank.
    pub fn new(limit: u64) -> (r: Gas)
        ensures
            r == (Gas { limit, remaining: limit, refunded: 0 }),
    {
        Gas { limit, remaining: limit, refunded: 0 }
    }

    pub fn limit(&self) -> (r: u64)
        ensures
            r == self.limit,
    {
        self.limit
    }

    pub fn remaining(&self) -> (r: u64)
        ensures
            r == self.remaining,
    {
        self.remaining
    }

    /// What has been used up.
    pub fn spent(&self) -> (r: u64)
        ensures
            r == if self.limit >= self.remaining {
                (self.limit - self.remaining) as u64
            } else {
                0
            },
    {
        self.limit.saturating_sub(self.remaining)
    }

    /// Pays `cost` if enough is left, and says whether it was paid.
    pub fn record_cost(&mut self, cost: u64) -> (paid: bool)
        ensures
            paid == (cost <= old(self).remaining),
            *final(self) == old(self).record_cost_spec(cost as nat),
    {
        if self.remaining < cost {
            false
        } else {
            self.remaining = self.remaining - cost;
            true
        }
    }
}

/// What `SSTORE` needs to know to price the write.
#[derive(Clone, Copy, Debug, PartialEq, Eq, Structural)]
pub struct SStoreResult {
    /// The value at the start of the transaction.
    pub original_value: U256,
    /// The value before this write.
    pub present_value: U256,
    /// The value written.
    pub new_value: U256,
    /// Whether the slot was cold before this write.
    pub is_cold: bool,
}

/// What `SELFDESTRUCT` needs to know to price the call.
#[derive(Clone, Copy, Debug, PartialEq, Eq, Structural)]
pub struct SelfDestructResult {
    pub had_value: bool,
    pub target_exists: bool,
    pub is_cold: bool,
    pub previously_destroyed: bool,
}

/// What loading an account tells about it.
#[derive(Clone, Copy, Debug, PartialEq, Eq, Structural)]
pub struct LoadAccountResult {
    pub is_cold: bool,
    pub exists: bool,
}

} // verus!
