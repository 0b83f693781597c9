//! Frames: what a `CREATE` is asked with, the interpreter that a new frame starts
//! with, and what the factory hands back.

use vstd::prelude::*;
use crate::bytecode::{Bytecode, BytecodeModel};
use crate::eof::Eof;
use crate::interpreter::{Gas, InstructionResult};
use crate::journal_model::JournalCheckpoint;
use crate::primitives::{Address, B256, U256};

verus! {

/// What a frame hands back when it ends.
#[derive(Debug)]
pub struct InterpreterResult {
    /// How the frame ended.
    pub result: InstructionResult,
    /// The bytes it returned.
    pub output: Vec<u8>,
    /// Its gas at the end.
    pub gas: Gas,
}

impl InterpreterResult {
    pub fn new(result: InstructionResult, output: Vec<u8>, gas: Gas) -> (r: InterpreterResult)
        ensures
            r.result == result,
            r.output@ == output@,
            r.gas == gas,
    {
        InterpreterResult { result, output, gas }
    }

    /// Whether the frame ended so that a call keeps its changes.
    pub fn is_ok(&self) -> (r: bool)
        ensures
            r == self.result.is_call_ok_spec(),
    {
        self.result.is_call_ok()
    }
}

/// How the address of a new contract is derived.
#[derive(Clone, Copy, Debug, PartialEq, Eq, Structural, Hash)]
pub enum CreateScheme {
    /// From the caller and its nonce.
    Create,
    /// From the caller, a salt and the hash of the init code.
    Create2 { salt: U256 },
}

/// What `CREATE` and `CREATE2` are asked with.
#[derive(Debug)]
pub struct CreateInputs {
    pub caller: Address,
    pub scheme: CreateScheme,
    pub value: U256,
    pub init_code: Vec<u8>,
    pub gas_limit: u64,
}

/// Where the init container of an EOF creation comes from.
#[derive(Debug)]
pub enum EOFCreateKind {
    /// From a transaction: the bytes hold the container and then the input.
    Tx { initdata: Vec<u8> },
    /// From the opcode: a sub-container that was validated with its parent.
    Opcode { initcode: Eof, input: Vec<u8>, created_address: Address },
}

/// What an EOF creation is asked with.
#[derive(Debug)]
pub struct EOFCreateInputs {
    pub caller: Address,
    pub value: U256,
    pub gas_limit: u64,
    pub kind: EOFCreateKind,
}

/// The contract that a frame runs.
#[derive(Debug)]
pub struct Contract {
    pub input: Vec<u8>,
    pub bytecode: Bytecode,
    /// The hash of the code, where it is known.
    pub hash: Option<B256>,
    pub target_address: Address,
    pub caller: Address,
    pub call_value: U256,
}

/// A contract as a value.
#[verifier::ext_equal]
pub struct ContractModel {
    pub input: Seq<u8>,
    pub bytecode: BytecodeModel,
    pub hash: Option<B256>,
    pub target_address: Address,
    pub caller: Address,
    pub call_value: U256,
}

impl View for Contract {
    type V = ContractModel;

    open spec fn view(&self) -> ContractModel {
        ContractModel {
            input: self.input@,
            bytecode: self.bytecode@,
            hash: self.hash,
            target_address: self.target_address,
            caller: self.caller,
            call_value: self.call_value,
        }
    }
}

impl Contract {
    pub fn new(
        input: Vec<u8>,
        bytecode: Bytecode,
        hash: Option<B256>,
        target_address: Address,
        caller: Address,
        call_value: U256,
    ) -> (r: Contract)
        ensures
            r@ == (ContractModel {
                input: input@,
                bytecode: bytecode@,
                hash,
                target_address,
                caller,
                call_value,
            }),
    {
        Contract { input, bytecode, hash, target_address, caller, call_value }
    }
}

/// The interpreter of one frame, as far as the frame factory sets it up.
#[derive(Debug)]
pub struct Interpreter {
    pub contract: Contract,
    pub gas: Gas,
    /// Whether the frame may change the state.
    pub is_static: bool,
    /// Whether the frame runs the init code of an EOF creation, which may end
    /// with `RETURNCONTRACT`.
    pub is_eof_init: bool,
}

/// An interpreter as a value.
#[verifier::ext_equal]
pub struct InterpreterModel {
    pub contract: ContractModel,
    pub gas: Gas,
    pub is_static: bool,
    pub is_eof_init: bool,
}

impl View for Interpreter {
    type V = InterpreterModel;

    open spec fn view(&self) -> InterpreterModel {
        InterpreterModel {
            contract: self.contract@,
            gas: self.gas,
            is_static: self.is_static,
            is_eof_init: self.is_eof_init,
        }
    }
}

impl Interpreter {
    /// An interpreter at the start of `contract`, with all of `gas_limit` left.
    pub fn new(contract: Contract, gas_limit: u64, is_static: bool) -> (r: Interpreter)
        ensures
            r@ == (InterpreterModel {
                contract: contract@,
                gas: Gas { limit: gas_limit, remaining: gas_limit, refunded: 0 },
                is_static,
                is_eof_init: false,
            }),
    {
        Interpreter { contract, gas: Gas::new(gas_limit), is_static, is_eof_init: false }
    }

    /// Marks the frame as the init code of an EOF creation.
    pub fn set_is_eof_init(&mut self)
        ensures
            final(self)@ == (InterpreterModel { is_eof_init: true, ..old(self)@ }),
    {
        self.is_eof_init = true;
    }
}

/// What every frame holds: the checkpoint it opened and its interpreter.
#[derive(Debug)]
pub struct FrameData {
    pub checkpoint: JournalCheckpoint,
    pub interpreter: Interpreter,
}

/// A frame that runs the init code of `CREATE` or `CREATE2`.
#[derive(Debug)]
pub struct CreateFrame {
    pub created_address: Address,
    pub frame_data: FrameData,
}

/// A frame that runs the init container of an EOF creation.
#[derive(Debug)]
pub struct EOFCreateFrame {
    pub created_address: Address,
    pub frame_data: FrameData,
}

/// A frame that is about to run.
#[derive(Debug)]
pub enum Frame {
    Create(CreateFrame),
    EOFCreate(EOFCreateFrame),
}

/// How a creation ended, and at which address where one was fixed.
#[derive(Debug)]
pub struct CreateOutcome {
    pub result: InterpreterResult,
    pub address: Option<Address>,
}

/// The result of a frame that has ended, or that never ran.
#[derive(Debug)]
pub enum FrameResult {
    Create(CreateOutcome),
    EOFCreate(CreateOutcome),
}

/// What the frame factory hands back: a frame to run, or the result of a frame
/// that was refused.
#[derive(Debug)]
pub enum FrameOrResult {
    Frame(Frame),
    Result(FrameResult),
}

impl CreateOutcome {
    /// Whether the outcome is that of a frame refused with `result`: no address,
    /// no output, and all of `gas_limit` left.
    pub open spec fn is_refusal(self, result: InstructionResult, gas_limit: u64) -> bool {
        &&& self.address is None
        &&& self.result.result == result
        &&& self.result.output@ == Seq::<u8>::empty()
        &&& self.result.gas == (Gas { limit: gas_limit, remaining: gas_limit, refunded: 0 })
    }
}

impl FrameOrResult {
    pub fn new_create_frame(
        created_address: Address,
        checkpoint: JournalCheckpoint,
        interpreter: Interpreter,
    ) -> (r: FrameOrResult)
        ensures
            r matches FrameOrResult::Frame(Frame::Create(f)) && f.created_address
                == created_address && f.frame_data.checkpoint == checkpoint
                && f.frame_data.interpreter == interpreter,
    {
        FrameOrResult::Frame(
            Frame::Create(
                CreateFrame { created_address, frame_data: FrameData { checkpoint, interpreter } },
            ),
        )
    }

    pub fn new_eofcreate_frame(
        created_address: Address,
        checkpoint: JournalCheckpoint,
        interpreter: Interpreter,
    ) -> (r: FrameOrResult)
        ensures
            r matches FrameOrResult::Frame(Frame::EOFCreate(f)) && f.created_address
                == created_address && f.frame_data.checkpoint == checkpoint
                && f.frame_data.interpreter == interpreter,
    {
        FrameOrResult::Frame(
            Frame::EOFCreate(
                EOFCreateFrame { created_address, frame_data: FrameData { checkpoint, interpreter } },
            ),
        )
    }

    pub fn new_create_result(interpreter_result: InterpreterResult, address: Option<Address>) -> (r:
        FrameOrResult)
        ensures
            r matches FrameOrResult::Result(FrameResult::Create(o)) && o.result
                == interpreter_result && o.address == address,
    {
        FrameOrResult::Result(FrameResult::Create(CreateOutcome { result: interpreter_result, address }))
    }

    pub fn new_eofcreate_result(interpreter_result: InterpreterResult, address: Option<Address>) -> (r:
        FrameOrResult)
        ensures
            r matches FrameOrResult::Result(FrameResult::EOFCreate(o)) && o.result
                == interpreter_result && o.address == address,
    {
        FrameOrResult::Result(
            FrameResult::EOFCreate(CreateOutcome { result: interpreter_result, address }),
        )
    }
}

} // verus!
