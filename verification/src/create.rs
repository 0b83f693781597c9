//! The frame factory for contract creation and the handlers that settle a frame
//! when it returns: which checks a creation has to pass, in which order, and
//! what becomes of the state and of the result in each case.

use vstd::prelude::*;
use crate::bytecode::{to_analysed, Bytecode, BytecodeModel};
use crate::context::InnerEvmContext;
use crate::db::{Database, DbModel};
use crate::env::AnalysisKind;
use crate::eof::{decode_dangling_spec, decode_spec, deep_error, Eof};
use crate::eof_code::ContainerKind;
use crate::error::EVMError;
use crate::frame::{
    Contract, ContractModel, CreateInputs, CreateScheme, EOFCreateInputs, EOFCreateKind, Frame,
    FrameOrResult, FrameResult, Interpreter, InterpreterModel, InterpreterResult,
};
use crate::hash::{create2_address_spec, create_address_spec, keccak256, keccak256_spec};
use crate::interpreter::{Gas, InstructionResult, CALL_STACK_LIMIT, CODEDEPOSIT, MAX_CODE_SIZE};
use crate::journal_model::{JournalCheckpoint, JournalModel};
use crate::primitives::{Address, B256, U256};
use crate::spec_id::{Spec, SpecId};

verus! {

/// How far a creation got: refused with a result, or started at an address with
/// a checkpoint open.
#[derive(Clone, Copy, Debug, PartialEq, Eq, Structural)]
pub enum CreateStage {
    Refused(InstructionResult),
    Started { created_address: Address, checkpoint: JournalCheckpoint, init_code_hash: B256 },
}

/// Whether init code starts with the two magic bytes of EOF.
pub open spec fn starts_with_eof_magic(code: Seq<u8>) -> bool {
    code.len() >= 2 && code[0] == 0xEF && code[1] == 0x00
}

/// The address of the new account: by the scheme for `CREATE` and `CREATE2`, or
/// fixed beforehand.
pub open spec fn created_address_spec(
    caller: Address,
    scheme: Option<CreateScheme>,
    fixed: Address,
    nonce: u64,
    init_code: Seq<u8>,
) -> Address {
    match scheme {
        Some(CreateScheme::Create) => create_address_spec(caller, nonce),
        Some(CreateScheme::Create2 { salt }) => create2_address_spec(
            caller,
            salt,
            keccak256_spec(init_code),
        ),
        None => fixed,
    }
}

/// The hash of the init code that the frame is given: computed for `CREATE2`,
/// zero otherwise.
pub open spec fn init_code_hash_spec(scheme: Option<CreateScheme>, init_code: Seq<u8>) -> B256 {
    match scheme {
        Some(CreateScheme::Create2 { salt }) => keccak256_spec(init_code),
        _ => B256 { hi: 0, lo: 0 },
    }
}

/// Why the caller cannot create, if anything stands against it: its balance is
/// below `value`, or its nonce cannot grow. The second is answered with a plain
/// `Return`.
pub open spec fn caller_refusal(s: JournalModel, db: DbModel, caller: Address, value: U256) -> Option<
    InstructionResult,
> {
    let s1 = s.load_account(caller, db.account(caller));
    if s1.accounts[caller].info.balance.value() < value.value() {
        Some(InstructionResult::OutOfFunds)
    } else if !s1.can_inc_nonce(caller) {
        Some(InstructionResult::Return)
    } else {
        None
    }
}

/// The part of a creation that all kinds share: the caller is loaded and has to
/// hold `value`; its nonce rises; the new address is loaded, which makes it
/// warm; and the account is set up there, unless the address is taken.
pub open spec fn start_create_spec(
    s: JournalModel,
    db: DbModel,
    spec_id: SpecId,
    caller: Address,
    value: U256,
    scheme: Option<CreateScheme>,
    fixed: Address,
    init_code: Seq<u8>,
) -> (JournalModel, CreateStage) {
    let s1 = s.load_account(caller, db.account(caller));
    match caller_refusal(s, db, caller, value) {
        Some(e) => (s1, CreateStage::Refused(e)),
        None => {
            let created = created_address_spec(
                caller,
                scheme,
                fixed,
                s1.accounts[caller].info.nonce,
                init_code,
            );
            let s3 = s1.inc_nonce(caller).load_account(created, db.account(created));
            match s3.create_account_error(caller, created, value) {
                Some(e) => (s3, CreateStage::Refused(e)),
                None => (
                    s3.create_account(caller, created, value, spec_id),
                    CreateStage::Started {
                        created_address: created,
                        checkpoint: s3.checkpoint_handle(),
                        init_code_hash: init_code_hash_spec(scheme, init_code),
                    },
                ),
            }
        },
    }
}

/// Whether `t` is a state in which a failure of the database can leave a
/// creation: nothing done, where the caller had to be read; or the caller
/// charged, where the new address had to be read.
pub open spec fn start_create_failure(
    s: JournalModel,
    db: DbModel,
    caller: Address,
    value: U256,
    scheme: Option<CreateScheme>,
    fixed: Address,
    init_code: Seq<u8>,
    t: JournalModel,
) -> bool {
    let s1 = s.load_account(caller, db.account(caller));
    let created = created_address_spec(caller, scheme, fixed, s1.accounts[caller].info.nonce, init_code);
    ||| !s.has(caller) && t == s
    ||| caller_refusal(s, db, caller, value) is None && !s1.inc_nonce(caller).has(created) && t
        == s1.inc_nonce(caller)
}

/// Whether a creation gets by without the database: the caller is cached, and
/// so is the new address where the creation gets that far.
pub open spec fn start_create_cached(
    s: JournalModel,
    db: DbModel,
    caller: Address,
    value: U256,
    scheme: Option<CreateScheme>,
    fixed: Address,
    init_code: Seq<u8>,
) -> bool {
    let s1 = s.load_account(caller, db.account(caller));
    let created = created_address_spec(caller, scheme, fixed, s1.accounts[caller].info.nonce, init_code);
    s.has(caller) && (caller_refusal(s, db, caller, value) is None ==> s1.inc_nonce(caller).has(
        created,
    ))
}

/// What `CREATE` and `CREATE2` do to the state, and how far they get. The checks
/// come in this order: the depth of the call stack; from Prague on, init code that
/// starts with the EOF magic; then those of `start_create_spec`.
pub open spec fn create_frame_spec(
    s: JournalModel,
    db: DbModel,
    spec_id: SpecId,
    caller: Address,
    scheme: CreateScheme,
    value: U256,
    init_code: Seq<u8>,
) -> (JournalModel, CreateStage) {
    if s.depth > CALL_STACK_LIMIT {
        (s, CreateStage::Refused(InstructionResult::CallTooDeep))
    } else if spec_id.enabled_spec(SpecId::PRAGUE) && starts_with_eof_magic(init_code) {
        (s, CreateStage::Refused(InstructionResult::CreateInitCodeStartingEF00))
    } else {
        start_create_spec(s, db, spec_id, caller, value, Some(scheme), caller, init_code)
    }
}

/// Whether `f` is what the factory hands back for a `CREATE` that got as far as
/// `stage`: for a refusal, a result with all the gas and no output; else a frame
/// whose interpreter runs the init code as raw bytecode, with no input, all the
/// gas, and the right to change the state.
pub open spec fn create_frame_matches(
    f: FrameOrResult,
    stage: CreateStage,
    caller: Address,
    value: U256,
    gas_limit: u64,
    init_code: Seq<u8>,
) -> bool {
    match stage {
        CreateStage::Refused(e) => f matches FrameOrResult::Result(FrameResult::Create(o))
            && o.is_refusal(e, gas_limit),
        CreateStage::Started {
            created_address,
            checkpoint,
            init_code_hash,
        } => f matches FrameOrResult::Frame(Frame::Create(frame)) && frame.created_address
            == created_address && frame.frame_data.checkpoint == checkpoint
            && frame.frame_data.interpreter@ == (InterpreterModel {
            contract: ContractModel {
                input: Seq::empty(),
                bytecode: BytecodeModel::Raw(init_code),
                hash: Some(init_code_hash),
                target_address: created_address,
                caller,
                call_value: value,
            },
            gas: Gas { limit: gas_limit, remaining: gas_limit, refunded: 0 },
            is_static: false,
            is_eof_init: false,
        }),
    }
}

/// The init container of an EOF creation, with the input for it and the address
/// of the new account.
pub struct EofInit {
    pub input: Seq<u8>,
    pub container: Seq<u8>,
    pub created_address: Address,
}

/// The init container that the data of a creating transaction holds: the data
/// starts with a container that passes validation as init code, sub-containers
/// included, and the input follows it. The
/// address is that of a `CREATE` by the sender at `nonce`.
pub open spec fn eof_init_of_tx(initdata: Seq<u8>, tx_caller: Address, nonce: u64) -> Option<EofInit> {
    match decode_dangling_spec(initdata) {
        Err(_) => None,
        Ok(header) => {
            let container = initdata.subrange(0, header.container_len() as int);
            if deep_error(container, ContainerKind::Init) is Some {
                None
            } else {
                Some(
                    EofInit {
                        input: initdata.subrange(
                            header.container_len() as int,
                            initdata.len() as int,
                        ),
                        container,
                        created_address: create_address_spec(tx_caller, nonce),
                    },
                )
            }
        },
    }
}

/// The state after the nonce for a creating transaction is found, and the
/// nonce: that of the transaction where it has one; else that of the sender's
/// account, which is loaded for it. Where the database fails to read the sender
/// (`read` is false and the sender is not cached), the nonce counts as zero.
pub open spec fn tx_nonce_spec(
    s: JournalModel,
    db: DbModel,
    tx_nonce: Option<u64>,
    tx_caller: Address,
    read: bool,
) -> (JournalModel, u64) {
    match tx_nonce {
        Some(n) => (s, n),
        None => if s.has(tx_caller) || read {
            let s1 = s.load_account(tx_caller, db.account(tx_caller));
            (s1, s1.accounts[tx_caller].info.nonce)
        } else {
            (s, 0)
        },
    }
}

/// The state after the init container of an EOF creation is found, and the
/// container, if there is a valid one.
pub open spec fn eof_init_spec(
    s: JournalModel,
    db: DbModel,
    tx_nonce: Option<u64>,
    tx_caller: Address,
    kind: EOFCreateKind,
    read: bool,
) -> (JournalModel, Option<EofInit>) {
    match kind {
        EOFCreateKind::Opcode { initcode, input, created_address } => (
            s,
            Some(EofInit { input: input@, container: initcode@, created_address }),
        ),
        EOFCreateKind::Tx { initdata } => {
            let (s1, nonce) = tx_nonce_spec(s, db, tx_nonce, tx_caller, read);
            (s1, eof_init_of_tx(initdata@, tx_caller, nonce))
        },
    }
}

/// What an EOF creation does to the state, and how far it gets. First the init
/// container is found; a transaction whose data holds no valid one is refused
/// with `InvalidEOFInitCode`. Then the depth of the call stack is checked, and
/// the creation goes on as `start_create_spec` says, at the address fixed with
/// the container.
pub open spec fn eofcreate_frame_spec(
    s: JournalModel,
    db: DbModel,
    spec_id: SpecId,
    tx_nonce: Option<u64>,
    tx_caller: Address,
    caller: Address,
    value: U256,
    kind: EOFCreateKind,
    read: bool,
) -> (JournalModel, CreateStage) {
    let (s1, init) = eof_init_spec(s, db, tx_nonce, tx_caller, kind, read);
    match init {
        None => (s1, CreateStage::Refused(InstructionResult::InvalidEOFInitCode)),
        Some(init) => if s1.depth > CALL_STACK_LIMIT {
            (s1, CreateStage::Refused(InstructionResult::CallTooDeep))
        } else {
            start_create_spec(
                s1,
                db,
                spec_id,
                caller,
                value,
                None,
                init.created_address,
                Seq::empty(),
            )
        },
    }
}

/// Whether `f` is what the factory hands back for an EOF creation that got as
/// far as `stage`: for a refusal, a result with all the gas and no output; else
/// a frame whose interpreter runs the init container, marked as EOF init code.
pub open spec fn eofcreate_frame_matches(
    f: FrameOrResult,
    stage: CreateStage,
    init: Option<EofInit>,
    caller: Address,
    value: U256,
    gas_limit: u64,
) -> bool {
    match stage {
        CreateStage::Refused(e) => f matches FrameOrResult::Result(FrameResult::EOFCreate(o))
            && o.is_refusal(e, gas_limit),
        CreateStage::Started {
            created_address,
            checkpoint,
            init_code_hash,
        } => {
            &&& init is Some
            &&& f matches FrameOrResult::Frame(Frame::EOFCreate(frame)) && frame.created_address
                == created_address && frame.frame_data.checkpoint == checkpoint
                && frame.frame_data.interpreter@ == (InterpreterModel {
            contract: ContractModel {
                input: init->0.input,
                bytecode: BytecodeModel::Eof(init->0.container),
                hash: None,
                target_address: created_address,
                caller,
                call_value: value,
            },
            gas: Gas { limit: gas_limit, remaining: gas_limit, refunded: 0 },
            is_static: false,
            is_eof_init: true,
        })
        },
    }
}

/// What becomes of a creation when its init code returns.
pub enum CreateReturn {
    /// The frame failed: the checkpoint is reverted and the result stays.
    Propagate,
    /// The code is refused: the checkpoint is reverted and the result rewritten.
    Reject(InstructionResult),
    /// The code is installed: the checkpoint is committed, the result is `Return`
    /// with `code` as output and `gas` left.
    Deploy { code: Seq<u8>, gas: Gas },
}

/// The gas that depositing `len` bytes of code costs: 200 for each byte.
pub open spec fn deposit_cost(len: nat) -> nat {
    len * 200
}

/// What becomes of a `CREATE` whose init code ended with `result`, `output` and
/// `gas`. A frame that did not stop or return fails. From London on, code that
/// starts with `0xEF` is refused; from Spurious Dragon on, code longer than
/// `limit`. Then the deposit is charged: where the gas does not cover it, the
/// creation is out of gas from Homestead on, and before that deploys empty code
/// free of charge.
pub open spec fn create_return_spec(
    spec_id: SpecId,
    limit: usize,
    result: InstructionResult,
    output: Seq<u8>,
    gas: Gas,
) -> CreateReturn {
    if !result.is_create_ok_spec() {
        CreateReturn::Propagate
    } else if spec_id.enabled_spec(SpecId::LONDON) && output.len() > 0 && output[0] == 0xEF {
        CreateReturn::Reject(InstructionResult::CreateContractStartingWithEF)
    } else if spec_id.enabled_spec(SpecId::SPURIOUS_DRAGON) && output.len() > limit {
        CreateReturn::Reject(InstructionResult::CreateContractSizeLimit)
    } else if deposit_cost(output.len()) > gas.remaining {
        if spec_id.enabled_spec(SpecId::HOMESTEAD) {
            CreateReturn::Reject(InstructionResult::OutOfGas)
        } else {
            CreateReturn::Deploy { code: Seq::empty(), gas }
        }
    } else {
        CreateReturn::Deploy { code: output, gas: gas.record_cost_spec(deposit_cost(output.len())) }
    }
}

/// What becomes of an EOF creation whose init code ended with `result`, `output`
/// and `gas`. Only `ReturnContract` deploys. Code longer than 24576 bytes is
/// refused, then the deposit is charged, and last the output has to be a
/// container.
pub open spec fn eofcreate_return_spec(result: InstructionResult, output: Seq<u8>, gas: Gas) -> CreateReturn {
    if result != InstructionResult::ReturnContract {
        CreateReturn::Propagate
    } else if output.len() > MAX_CODE_SIZE {
        CreateReturn::Reject(InstructionResult::CreateContractSizeLimit)
    } else if deposit_cost(output.len()) > gas.remaining {
        CreateReturn::Reject(InstructionResult::OutOfGas)
    } else if decode_spec(output) is Err {
        CreateReturn::Reject(InstructionResult::InvalidEOFInitCode)
    } else {
        CreateReturn::Deploy { code: output, gas: gas.record_cost_spec(deposit_cost(output.len())) }
    }
}

/// The code limit in force: the configured one, or 24576 bytes.
pub open spec fn code_size_limit(configured: Option<usize>) -> usize {
    match configured {
        Some(limit) => limit,
        None => MAX_CODE_SIZE,
    }
}

/// The form in which deployed code is kept: analysed at once, or raw.
pub open spec fn deployed_code(kind: AnalysisKind, code: Seq<u8>) -> BytecodeModel {
    match kind {
        AnalysisKind::Raw => BytecodeModel::Raw(code),
        AnalysisKind::Analyse => BytecodeModel::Raw(code).analysed(),
    }
}

impl<DB: Database> InnerEvmContext<DB> {
    /// The part of a creation that all kinds share. See `start_create_spec`.
    fn start_create(
        &mut self,
        spec_id: SpecId,
        caller: Address,
        value: U256,
        scheme: Option<CreateScheme>,
        fixed: Address,
        init_code: &Vec<u8>,
    ) -> (r: Result<CreateStage, EVMError<DB::Error>>)
        requires
            old(self).journaled_state@.depth <= CALL_STACK_LIMIT,
        ensures
            final(self).same_but_state(*old(self)),
            match r {
                Ok(stage) => (final(self).journaled_state@, stage) == start_create_spec(
                    old(self).journaled_state@,
                    old(self).db.model(),
                    spec_id,
                    caller,
                    value,
                    scheme,
                    fixed,
                    init_code@,
                ),
                Err(e) => e is Database && start_create_failure(
                    old(self).journaled_state@,
                    old(self).db.model(),
                    caller,
                    value,
                    scheme,
                    fixed,
                    init_code@,
                    final(self).journaled_state@,
                ),
            },
            start_create_cached(
                old(self).journaled_state@,
                old(self).db.model(),
                caller,
                value,
                scheme,
                fixed,
                init_code@,
            ) ==> r is Ok,
    {
        // The caller has to hold what it sends along.
        let (caller_balance, _) = match self.balance(caller) {
            Ok(read) => read,
            Err(e) => {
                return Err(e);
            },
        };
        if caller_balance.lt(&value) {
            return Ok(CreateStage::Refused(InstructionResult::OutOfFunds));
        }
        // The nonce of the caller rises; where it cannot, the creation ends quietly.
        let old_nonce: u64 = match self.journaled_state.inc_nonce(caller) {
            Some(nonce) => nonce - 1,
            None => {
                return Ok(CreateStage::Refused(InstructionResult::Return));
            },
        };
        // Where the new account goes.
        let mut init_code_hash = B256::zero();
        let created_address = match scheme {
            Some(CreateScheme::Create) => caller.create(old_nonce),
            Some(CreateScheme::Create2 { salt }) => {
                init_code_hash = keccak256(init_code.as_slice());
                caller.create2(&salt, &init_code_hash)
            },
            None => fixed,
        };
        // Loading the new address makes it warm.
        match self.journaled_state.load_account(created_address, &mut self.db) {
            Ok(_) => {},
            Err(e) => {
                return Err(e);
            },
        }
        // The account is set up behind a checkpoint of its own.
        match self.journaled_state.create_account_checkpoint(caller, created_address, value, spec_id) {
            Ok(checkpoint) => Ok(CreateStage::Started { created_address, checkpoint, init_code_hash }),
            Err(e) => Ok(CreateStage::Refused(e)),
        }
    }

    /// Sets up the frame for `CREATE` or `CREATE2`, or says why there is none.
    /// The database is read for the caller and for the new address, each only
    /// where it is not cached; where a read fails, what was done before it stays.
    pub fn make_create_frame(&mut self, spec_id: SpecId, inputs: &CreateInputs) -> (r: Result<
        FrameOrResult,
        EVMError<DB::Error>,
    >)
        ensures
            final(self).same_but_state(*old(self)),
            match r {
                Ok(f) => {
                    let (state, stage) = create_frame_spec(
                        old(self).journaled_state@,
                        old(self).db.model(),
                        spec_id,
                        inputs.caller,
                        inputs.scheme,
                        inputs.value,
                        inputs.init_code@,
                    );
                    &&& final(self).journaled_state@ == state
                    &&& create_frame_matches(
                        f,
                        stage,
                        inputs.caller,
                        inputs.value,
                        inputs.gas_limit,
                        inputs.init_code@,
                    )
                },
                Err(e) => {
                    &&& e is Database
                    &&& old(self).journaled_state@.depth <= CALL_STACK_LIMIT
                    &&& !(spec_id.enabled_spec(SpecId::PRAGUE) && starts_with_eof_magic(
                        inputs.init_code@,
                    ))
                    &&& start_create_failure(
                        old(self).journaled_state@,
                        old(self).db.model(),
                        inputs.caller,
                        inputs.value,
                        Some(inputs.scheme),
                        inputs.caller,
                        inputs.init_code@,
                        final(self).journaled_state@,
                    )
                },
            },
            start_create_cached(
                old(self).journaled_state@,
                old(self).db.model(),
                inputs.caller,
                inputs.value,
                Some(inputs.scheme),
                inputs.caller,
                inputs.init_code@,
            ) ==> r is Ok,
    {
        // The call stack has a limit.
        if self.journaled_state.depth() > CALL_STACK_LIMIT {
            return Ok(refused_create(InstructionResult::CallTooDeep, inputs.gas_limit));
        }
        // From Prague on, init code in the container format goes another way.
        if spec_id.is_enabled_in(SpecId::PRAGUE) && inputs.init_code.len() >= 2
            && inputs.init_code[0] == 0xEF && inputs.init_code[1] == 0x00 {
            return Ok(
                refused_create(InstructionResult::CreateInitCodeStartingEF00, inputs.gas_limit),
            );
        }
        let stage = match self.start_create(
            spec_id,
            inputs.caller,
            inputs.value,
            Some(inputs.scheme),
            inputs.caller,
            &inputs.init_code,
        ) {
            Ok(stage) => stage,
            Err(e) => {
                return Err(e);
            },
        };
        match stage {
            CreateStage::Refused(e) => Ok(refused_create(e, inputs.gas_limit)),
            CreateStage::Started { created_address, checkpoint, init_code_hash } => {
                let bytecode = Bytecode::new_raw(inputs.init_code.clone());
                let contract = Contract::new(
                    Vec::new(),
                    bytecode,
                    Some(init_code_hash),
                    created_address,
                    inputs.caller,
                    inputs.value,
                );
                Ok(
                    FrameOrResult::new_create_frame(
                        created_address,
                        checkpoint,
                        Interpreter::new(contract, inputs.gas_limit, false),
                    ),
                )
            },
        }
    }

    /// The nonce for a creating transaction: that of the transaction where it has
    /// one, else that of the sender's account, which is loaded for it, or zero
    /// where the database fails to read the sender.
    fn tx_nonce(&mut self) -> (r: (u64, Ghost<bool>))
        ensures
            final(self).same_but_state(*old(self)),
            (final(self).journaled_state@, r.0) == tx_nonce_spec(
                old(self).journaled_state@,
                old(self).db.model(),
                old(self).env.tx.nonce,
                old(self).env.tx.caller,
                r.1@,
            ),
    {
        match self.env.tx.nonce {
            Some(nonce) => (nonce, Ghost(true)),
            None => {
                let caller = self.env.tx.caller;
                match self.load_account(caller) {
                    Ok((account, _)) => (account.info.nonce, Ghost(true)),
                    Err(_) => (0, Ghost(false)),
                }
            },
        }
    }

    /// Sets up the frame for an EOF creation, or says why there is none.
    pub fn make_eofcreate_frame(&mut self, spec_id: SpecId, inputs: &EOFCreateInputs) -> (r: Result<
        FrameOrResult,
        EVMError<DB::Error>,
    >)
        ensures
            final(self).same_but_state(*old(self)),
            exists|read: bool|
                {
                    let (s1, init) = #[trigger] eof_init_spec(
                        old(self).journaled_state@,
                        old(self).db.model(),
                        old(self).env.tx.nonce,
                        old(self).env.tx.caller,
                        inputs.kind,
                        read,
                    );
                    let (state, stage) = eofcreate_frame_spec(
                        old(self).journaled_state@,
                        old(self).db.model(),
                        spec_id,
                        old(self).env.tx.nonce,
                        old(self).env.tx.caller,
                        inputs.caller,
                        inputs.value,
                        inputs.kind,
                        read,
                    );
                    &&& (inputs.kind is Tx && old(self).env.tx.nonce is None && old(
                        self,
                    ).journaled_state@.has(old(self).env.tx.caller)) ==> read
                    &&& match r {
                        Ok(f) => {
                            &&& final(self).journaled_state@ == state
                            &&& eofcreate_frame_matches(
                                f,
                                stage,
                                init,
                                inputs.caller,
                                inputs.value,
                                inputs.gas_limit,
                            )
                        },
                        Err(e) => {
                            &&& e is Database
                            &&& init is Some
                            &&& s1.depth <= CALL_STACK_LIMIT
                            &&& start_create_failure(
                                s1,
                                old(self).db.model(),
                                inputs.caller,
                                inputs.value,
                                None,
                                init->0.created_address,
                                Seq::empty(),
                                final(self).journaled_state@,
                            )
                        },
                    }
                    &&& (init is Some && s1.depth <= CALL_STACK_LIMIT && start_create_cached(
                        s1,
                        old(self).db.model(),
                        inputs.caller,
                        inputs.value,
                        None,
                        init->0.created_address,
                        Seq::empty(),
                    )) ==> r is Ok
                },
    {
        let ghost s0 = self.journaled_state@;
        let ghost model = self.db.model();
        let ghost mut read: bool = true;
        let (input, initcode, created_address): (Vec<u8>, Eof, Address) = match &inputs.kind {
            EOFCreateKind::Opcode { initcode, input, created_address } => (
                input.clone(),
                initcode.clone(),
                *created_address,
            ),
            EOFCreateKind::Tx { initdata } => {
                // The address depends on the nonce of the sender.
                let (nonce, Ghost(ok)) = self.tx_nonce();
                proof {
                    read = ok || s0.has(old(self).env.tx.caller);
                }
                // The data holds the container, then the input.
                let (eof, input) = match Eof::decode_dangling(initdata.clone()) {
                    Ok(parts) => parts,
                    Err(_) => {
                        return Ok(
                            refused_eofcreate(
                                InstructionResult::InvalidEOFInitCode,
                                inputs.gas_limit,
                            ),
                        );
                    },
                };
                if eof.validate_deep(ContainerKind::Init).is_err() {
                    return Ok(
                        refused_eofcreate(InstructionResult::InvalidEOFInitCode, inputs.gas_limit),
                    );
                }
                (input, eof, self.env.tx.caller.create(nonce))
            },
        };
        let ghost init = eof_init_spec(
            s0,
            model,
            old(self).env.tx.nonce,
            old(self).env.tx.caller,
            inputs.kind,
            read,
        ).1;
        assert(init == Some(EofInit { input: input@, container: initcode@, created_address }));
        // The call stack has a limit.
        if self.journaled_state.depth() > CALL_STACK_LIMIT {
            return Ok(refused_eofcreate(InstructionResult::CallTooDeep, inputs.gas_limit));
        }
        let empty: Vec<u8> = Vec::new();
        let stage = match self.start_create(
            spec_id,
            inputs.caller,
            inputs.value,
            None,
            created_address,
            &empty,
        ) {
            Ok(stage) => stage,
            Err(e) => {
                return Err(e);
            },
        };
        match stage {
            CreateStage::Refused(e) => Ok(refused_eofcreate(e, inputs.gas_limit)),
            CreateStage::Started { created_address, checkpoint, init_code_hash } => {
                let contract = Contract::new(
                    input,
                    Bytecode::Eof(initcode),
                    None,
                    created_address,
                    inputs.caller,
                    inputs.value,
                );
                let mut interpreter = Interpreter::new(contract, inputs.gas_limit, false);
                // Init code may end with RETURNCONTRACT.
                interpreter.set_is_eof_init();
                Ok(FrameOrResult::new_eofcreate_frame(created_address, checkpoint, interpreter))
            },
        }
    }

    /// Settles a call that returned: keeps its changes where it stopped,
    /// returned or destroyed itself, and undoes them otherwise.
    pub fn call_return(
        &mut self,
        interpreter_result: &InterpreterResult,
        journal_checkpoint: JournalCheckpoint,
    )
        requires
            old(self).journaled_state@.depth > 0,
            !interpreter_result.result.is_call_ok_spec() ==> old(self).journaled_state@.can_revert(
                journal_checkpoint,
            ),
        ensures
            final(self).same_but_state(*old(self)),
            final(self).journaled_state@ == if interpreter_result.result.is_call_ok_spec() {
                old(self).journaled_state@.commit()
            } else {
                old(self).journaled_state@.revert(journal_checkpoint)
            },
    {
        if interpreter_result.result.is_call_ok() {
            self.journaled_state.checkpoint_commit();
        } else {
            self.journaled_state.checkpoint_revert(journal_checkpoint);
        }
    }

    /// Settles a `CREATE` whose init code returned. See `create_return_spec` for
    /// what is decided. Where the code deploys, the checkpoint is committed and
    /// the code installed at `address`, which has to be cached; else the
    /// checkpoint is reverted.
    pub fn create_return<SPEC: Spec>(
        &mut self,
        interpreter_result: &mut InterpreterResult,
        address: Address,
        journal_checkpoint: JournalCheckpoint,
    )
        requires
            old(self).journaled_state@.depth > 0,
            create_return_spec(
                SPEC::spec_id_spec(),
                code_size_limit(old(self).env.cfg.limit_contract_code_size),
                old(interpreter_result).result,
                old(interpreter_result).output@,
                old(interpreter_result).gas,
            ) is Deploy ==> old(self).journaled_state@.has(address),
            !(create_return_spec(
                SPEC::spec_id_spec(),
                code_size_limit(old(self).env.cfg.limit_contract_code_size),
                old(interpreter_result).result,
                old(interpreter_result).output@,
                old(interpreter_result).gas,
            ) is Deploy) ==> old(self).journaled_state@.can_revert(journal_checkpoint),
        ensures
            final(self).same_but_state(*old(self)),
            match create_return_spec(
                SPEC::spec_id_spec(),
                code_size_limit(old(self).env.cfg.limit_contract_code_size),
                old(interpreter_result).result,
                old(interpreter_result).output@,
                old(interpreter_result).gas,
            ) {
                CreateReturn::Propagate => {
                    &&& final(self).journaled_state@ == old(self).journaled_state@.revert(
                        journal_checkpoint,
                    )
                    &&& *final(interpreter_result) == *old(interpreter_result)
                },
                CreateReturn::Reject(e) => {
                    &&& final(self).journaled_state@ == old(self).journaled_state@.revert(
                        journal_checkpoint,
                    )
                    &&& final(interpreter_result).result == e
                    &&& final(interpreter_result).output == old(interpreter_result).output
                    &&& final(interpreter_result).gas == old(interpreter_result).gas
                },
                CreateReturn::Deploy { code, gas } => {
                    &&& final(self).journaled_state@ == old(self).journaled_state@.commit().set_code(
                        address,
                        deployed_code(old(self).env.cfg.perf_analyse_created_bytecodes, code),
                    )
                    &&& final(interpreter_result).result == InstructionResult::Return
                    &&& final(interpreter_result).output@ == code
                    &&& final(interpreter_result).gas == gas
                },
            },
    {
        // A frame that failed deploys nothing.
        if !interpreter_result.result.is_create_ok() {
            self.journaled_state.checkpoint_revert(journal_checkpoint);
            return ;
        }
        // EIP-3541: no new code may start with 0xEF.
        if SPEC::enabled(SpecId::LONDON) && interpreter_result.output.len() > 0
            && interpreter_result.output[0] == 0xEF {
            self.journaled_state.checkpoint_revert(journal_checkpoint);
            interpreter_result.result = InstructionResult::CreateContractStartingWithEF;
            return ;
        }
        // EIP-170: code has a size limit.
        let limit: usize = match self.env.cfg.limit_contract_code_size {
            Some(limit) => limit,
            None => MAX_CODE_SIZE,
        };
        if SPEC::enabled(SpecId::SPURIOUS_DRAGON) && interpreter_result.output.len() > limit {
            self.journaled_state.checkpoint_revert(journal_checkpoint);
            interpreter_result.result = InstructionResult::CreateContractSizeLimit;
            return ;
        }
        if !charge_deposit(&mut interpreter_result.gas, interpreter_result.output.len()) {
            // EIP-2: a creation that cannot pay for its code fails, where it used to
            // leave a contract without code.
            if SPEC::enabled(SpecId::HOMESTEAD) {
                self.journaled_state.checkpoint_revert(journal_checkpoint);
                interpreter_result.result = InstructionResult::OutOfGas;
                return ;
            } else {
                interpreter_result.output = Vec::new();
            }
        }
        self.journaled_state.checkpoint_commit();
        // The code is kept analysed or raw, as configured.
        let bytecode = match self.env.cfg.perf_analyse_created_bytecodes {
            AnalysisKind::Raw => Bytecode::new_raw(interpreter_result.output.clone()),
            AnalysisKind::Analyse => to_analysed(Bytecode::new_raw(interpreter_result.output.clone())),
        };
        self.journaled_state.set_code(address, bytecode);
        interpreter_result.result = InstructionResult::Return;
    }

    /// Settles an EOF creation whose init code returned. See
    /// `eofcreate_return_spec` for what is decided. Where the container deploys,
    /// the checkpoint is committed and the container installed at `address`,
    /// which has to be cached; else the checkpoint is reverted. The result is
    /// rewritten only where the container is refused.
    pub fn eofcreate_return<SPEC: Spec>(
        &mut self,
        interpreter_result: &mut InterpreterResult,
        address: Address,
        journal_checkpoint: JournalCheckpoint,
    )
        requires
            old(self).journaled_state@.depth > 0,
            eofcreate_return_spec(
                old(interpreter_result).result,
                old(interpreter_result).output@,
                old(interpreter_result).gas,
            ) is Deploy ==> old(self).journaled_state@.has(address),
            !(eofcreate_return_spec(
                old(interpreter_result).result,
                old(interpreter_result).output@,
                old(interpreter_result).gas,
            ) is Deploy) ==> old(self).journaled_state@.can_revert(journal_checkpoint),
        ensures
            final(self).same_but_state(*old(self)),
            final(interpreter_result).output == old(interpreter_result).output,
            match eofcreate_return_spec(
                old(interpreter_result).result,
                old(interpreter_result).output@,
                old(interpreter_result).gas,
            ) {
                CreateReturn::Propagate => {
                    &&& final(self).journaled_state@ == old(self).journaled_state@.revert(
                        journal_checkpoint,
                    )
                    &&& *final(interpreter_result) == *old(interpreter_result)
                },
                CreateReturn::Reject(e) => {
                    &&& final(self).journaled_state@ == old(self).journaled_state@.revert(
                        journal_checkpoint,
                    )
                    &&& final(interpreter_result).result == e
                    &&& final(interpreter_result).gas == if e
                        == InstructionResult::InvalidEOFInitCode {
                        old(interpreter_result).gas.record_cost_spec(
                            deposit_cost(old(interpreter_result).output@.len()),
                        )
                    } else {
                        old(interpreter_result).gas
                    }
                },
                CreateReturn::Deploy { code, gas } => {
                    &&& final(self).journaled_state@ == old(self).journaled_state@.commit().set_code(
                        address,
                        BytecodeModel::Eof(code),
                    )
                    &&& final(interpreter_result).result == old(interpreter_result).result
                    &&& final(interpreter_result).gas == gas
                },
            },
    {
        if !matches!(interpreter_result.result, InstructionResult::ReturnContract) {
            self.journaled_state.checkpoint_revert(journal_checkpoint);
            return ;
        }
        if interpreter_result.output.len() > MAX_CODE_SIZE {
            self.journaled_state.checkpoint_revert(journal_checkpoint);
            interpreter_result.result = InstructionResult::CreateContractSizeLimit;
            return ;
        }
        // The deposit for the code is charged.
        if !charge_deposit(&mut interpreter_result.gas, interpreter_result.output.len()) {
            self.journaled_state.checkpoint_revert(journal_checkpoint);
            interpreter_result.result = InstructionResult::OutOfGas;
            return ;
        }
        // The init code may only return a container that was validated with it:
        // one that does not decode is refused.
        let bytecode = match Eof::decode(interpreter_result.output.clone()) {
            Ok(eof) => eof,
            Err(_) => {
                self.journaled_state.checkpoint_revert(journal_checkpoint);
                interpreter_result.result = InstructionResult::InvalidEOFInitCode;
                return ;
            },
        };
        self.journaled_state.checkpoint_commit();
        self.journaled_state.set_code(address, Bytecode::Eof(bytecode));
    }
}

/// Charges the deposit for `len` bytes of code, if the gas covers it, and says
/// whether it was charged.
pub fn charge_deposit(gas: &mut Gas, len: usize) -> (paid: bool)
    ensures
        paid == (deposit_cost(len as nat) <= old(gas).remaining),
        *final(gas) == old(gas).record_cost_spec(deposit_cost(len as nat)),
{
    let bytes: u64 = len as u64;
    if bytes > u64::MAX / CODEDEPOSIT {
        return false;
    }
    let cost: u64 = bytes * CODEDEPOSIT;
    gas.record_cost(cost)
}

/// The result of a `CREATE` that is refused: `result`, with all of `gas_limit`
/// left and no output.
pub fn refused_create(result: InstructionResult, gas_limit: u64) -> (r: FrameOrResult)
    ensures
        r matches FrameOrResult::Result(FrameResult::Create(o)) && o.is_refusal(result, gas_limit),
{
    FrameOrResult::new_create_result(
        InterpreterResult { result, gas: Gas::new(gas_limit), output: Vec::new() },
        None,
    )
}

/// The result of an EOF creation that is refused: `result`, with all of
/// `gas_limit` left and no output.
pub fn refused_eofcreate(result: InstructionResult, gas_limit: u64) -> (r: FrameOrResult)
    ensures
        r matches FrameOrResult::Result(FrameResult::EOFCreate(o)) && o.is_refusal(
            result,
            gas_limit,
        ),
{
    FrameOrResult::new_eofcreate_result(
        InterpreterResult { result, gas: Gas::new(gas_limit), output: Vec::new() },
        None,
    )
}

/// A `CREATE` at a taken address is refused and changes nothing but the caller.
/// Where the creation passes the checks on the stack, the init code and the
/// caller, and the account at the new address has a nonce or code, the outcome
/// is `CreateCollision`. No checkpoint stays open, the logs and the transient
/// storage are as they were, and so is every cached account but two: the caller,
/// whose nonce is one higher (it is loaded, warm and touched for that), and the
/// account at the new address, which is loaded and warm and otherwise as the
/// cache or the database held it.
pub proof fn lemma_create_collision(
    s: JournalModel,
    db: DbModel,
    spec_id: SpecId,
    caller: Address,
    scheme: CreateScheme,
    value: U256,
    init_code: Seq<u8>,
)
    requires
        s.depth <= CALL_STACK_LIMIT,
        !(spec_id.enabled_spec(SpecId::PRAGUE) && starts_with_eof_magic(init_code)),
        caller_refusal(s, db, caller, value) is None,
        ({
            let s1 = s.load_account(caller, db.account(caller));
            let created = created_address_spec(
                caller,
                Some(scheme),
                caller,
                s1.accounts[caller].info.nonce,
                init_code,
            );
            let target = s1.inc_nonce(caller).load_account(
                created,
                db.account(created),
            ).accounts[created];
            target.info.nonce != 0 || !crate::account::is_empty_code_hash(target.info.code_hash)
        }),
    ensures
        ({
            let (t, stage) = create_frame_spec(s, db, spec_id, caller, scheme, value, init_code);
            let s1 = s.load_account(caller, db.account(caller));
            let created = created_address_spec(
                caller,
                Some(scheme),
                caller,
                s1.accounts[caller].info.nonce,
                init_code,
            );
            &&& stage == CreateStage::Refused(InstructionResult::CreateCollision)
            &&& t.depth == s.depth
            &&& t.logs == s.logs
            &&& t.transient == s.transient
            &&& forall|x: Address|
                x != caller && x != created ==> (#[trigger] t.has(x) <==> s.has(x)) && (s.has(x)
                    ==> t.accounts[x] == s.accounts[x])
            &&& t.has(caller)
            &&& t.accounts[caller].info == (crate::account::AccountInfoModel {
                nonce: (s1.accounts[caller].info.nonce + 1) as u64,
                ..s1.accounts[caller].info
            })
            &&& t.accounts[caller].storage == s1.accounts[caller].storage
            &&& created != caller ==> t.has(created) && t.accounts[created] == s.load_account(
                created,
                db.account(created),
            ).accounts[created]
        }),
{
}

/// A creation opens one checkpoint, and only where it starts. Where a `CREATE`
/// is refused, as many checkpoints are open as before, and the logs are as they
/// were; where the stack is too deep or the init code starts with the EOF magic,
/// nothing at all has changed. Where it starts, one more checkpoint is open, and
/// the checkpoint of the frame leads back to the state in which the caller is
/// charged and the new address loaded. (The journal has room for the entries of
/// a creation.)
pub proof fn lemma_create_opens_one_checkpoint(
    s: JournalModel,
    db: DbModel,
    spec_id: SpecId,
    caller: Address,
    scheme: CreateScheme,
    value: U256,
    init_code: Seq<u8>,
)
    requires
        s.journal.len() + 4 <= usize::MAX,
        s.logs.len() <= usize::MAX,
    ensures
        ({
            let (t, stage) = create_frame_spec(s, db, spec_id, caller, scheme, value, init_code);
            let s1 = s.load_account(caller, db.account(caller));
            &&& t.logs == s.logs
            &&& (s.depth > CALL_STACK_LIMIT || (spec_id.enabled_spec(SpecId::PRAGUE)
                && starts_with_eof_magic(init_code))) ==> t == s
            &&& match stage {
                CreateStage::Refused(_) => t.depth == s.depth,
                CreateStage::Started { created_address, checkpoint, init_code_hash } => {
                    &&& t.depth == s.depth + 1
                    &&& t.can_revert(checkpoint)
                    &&& t.revert(checkpoint) == s1.inc_nonce(caller).load_account(
                        created_address,
                        db.account(created_address),
                    )
                },
            }
        }),
{
    let (t, stage) = create_frame_spec(s, db, spec_id, caller, scheme, value, init_code);
    match stage {
        CreateStage::Started { created_address, checkpoint, init_code_hash } => {
            let s1 = s.load_account(caller, db.account(caller));
            let s3 = s1.inc_nonce(caller).load_account(
                created_address,
                db.account(created_address),
            );
            crate::journal_laws::lemma_create_account_undoes(
                s3,
                caller,
                created_address,
                value,
                spec_id,
            );
            assert(s3.journal.len() <= s.journal.len() + 4);
            assert(checkpoint.journal_i == s3.journal.len());
            assert(t.logs == s3.logs);
            assert(t.logs.subrange(0, checkpoint.log_i as int) =~= s3.logs);
            assert(t.revert(checkpoint) =~~= s3);
        },
        _ => {},
    }
}

} // verus!
