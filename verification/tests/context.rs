use evm_context::account::AccountInfo;
use evm_context::bytecode::Bytecode;
use evm_context::context::InnerEvmContext;
use evm_context::create::{charge_deposit, refused_create, refused_eofcreate};
use evm_context::db::{Database, DbModel, InMemoryDb};
use evm_context::env::{AccessListItem, AnalysisKind, Env};
use evm_context::eof::Eof;
use evm_context::error::EVMError;
use evm_context::frame::{
    CreateInputs, CreateScheme, EOFCreateInputs, EOFCreateKind, Frame, FrameOrResult, FrameResult,
    InterpreterResult,
};
use evm_context::hash::keccak256;
use evm_context::interpreter::{Gas, InstructionResult};
use evm_context::journal_model::JournalCheckpoint;
use evm_context::primitives::{Address, B256, U256};
use evm_context::spec_id::{
    FrontierSpec, HomesteadSpec, LatestSpec, LondonSpec, Spec, SpecId, SpuriousDragonSpec,
    TangerineSpec,
};

fn addr(n: u128) -> Address {
    Address::new(0, n)
}

fn w(n: u64) -> U256 {
    U256::from_u64(n)
}

fn minimal_eof() -> Vec<u8> {
    vec![
        0xEF, 0x00, 0x01, 0x01, 0x00, 0x04, 0x02, 0x00, 0x01, 0x00, 0x01, 0x04, 0x00, 0x00, 0x00,
        0x00, 0x80, 0x00, 0x00, 0x00,
    ]
}

/// A container whose only instruction is `INVALID`: valid as init code.
fn init_eof() -> Vec<u8> {
    let mut bytes = minimal_eof();
    bytes[19] = 0xFE;
    bytes
}

/// Account 1 holds 1000 at nonce 5; account 2 holds 50 and code.
fn sample_db() -> InMemoryDb {
    let mut db = InMemoryDb::new();
    db.insert_account_info(addr(1), AccountInfo::new(w(1000), 5, B256::keccak_empty(), None));
    let code = Bytecode::new_raw(vec![0x60, 0x00]);
    db.insert_account_info(addr(2), AccountInfo::new(w(50), 1, code.hash_slow(), Some(code)));
    db.insert_account_storage(addr(1), w(7), w(77));
    db
}

fn context() -> InnerEvmContext<InMemoryDb> {
    InnerEvmContext::new(sample_db())
}

fn create_inputs(scheme: CreateScheme, value: u64, init_code: Vec<u8>) -> CreateInputs {
    CreateInputs { caller: addr(1), scheme, value: w(value), init_code, gas_limit: 100_000 }
}

/// The frame of a creation that started, or a panic.
fn started(r: FrameOrResult) -> (Address, JournalCheckpoint, evm_context::frame::Interpreter, bool) {
    match r {
        FrameOrResult::Frame(Frame::Create(f)) => {
            (f.created_address, f.frame_data.checkpoint, f.frame_data.interpreter, false)
        },
        FrameOrResult::Frame(Frame::EOFCreate(f)) => {
            (f.created_address, f.frame_data.checkpoint, f.frame_data.interpreter, true)
        },
        FrameOrResult::Result(_) => panic!("the creation was refused"),
    }
}

/// The result of a creation that was refused, or a panic.
fn refused(r: FrameOrResult) -> (InstructionResult, bool) {
    let (outcome, eof) = match r {
        FrameOrResult::Result(FrameResult::Create(o)) => (o, false),
        FrameOrResult::Result(FrameResult::EOFCreate(o)) => (o, true),
        FrameOrResult::Frame(_) => panic!("the creation started"),
    };
    assert_eq!(outcome.address, None);
    assert!(outcome.result.output.is_empty());
    assert_eq!(outcome.result.gas, Gas::new(100_000));
    (outcome.result.result, eof)
}

fn result(result: InstructionResult, output: Vec<u8>, remaining: u64) -> InterpreterResult {
    InterpreterResult::new(result, output, Gas { limit: 100_000, remaining, refunded: 0 })
}

#[test]
fn new_context_is_empty() {
    let ctx = context();
    assert_eq!(ctx.spec_id(), SpecId::LATEST);
    assert_eq!(ctx.journaled_state.depth(), 0);
    assert!(ctx.journaled_state.state.keys().is_empty());
    assert!(ctx.error.is_ok());
    assert!(ctx.l1_block_info.is_none());
    assert_eq!(ctx.env.cfg.limit_contract_code_size, None);
    assert_eq!(ctx.env.cfg.chain_id, 1);
    assert!(ctx.env.tx.access_list.is_empty());
}

#[test]
fn new_with_env_keeps_the_environment() {
    let mut env = Env::default();
    env.cfg.chain_id = 10;
    env.tx.caller = addr(1);
    let ctx = InnerEvmContext::new_with_env(sample_db(), Box::new(env));
    assert_eq!(ctx.env.cfg.chain_id, 10);
    assert_eq!(ctx.env.tx.caller, addr(1));
    assert_eq!(ctx.spec_id(), SpecId::LATEST);
    let copy = ctx.env.clone();
    assert_eq!(copy.cfg.chain_id, 10);
}

#[test]
fn with_db_swaps_the_database_and_drops_the_error() {
    let mut ctx = context();
    ctx.load_account(addr(1)).unwrap();
    ctx.error = Err(EVMError::Custom("pending".to_string()));
    let mut other = InMemoryDb::new();
    other.insert_account_info(addr(2), AccountInfo::new(w(7), 0, B256::keccak_empty(), None));
    let mut ctx = ctx.with_db(other);
    assert!(ctx.error.is_ok());
    assert_eq!(ctx.balance(addr(1)).unwrap(), (w(1000), false));
    assert_eq!(ctx.balance(addr(2)).unwrap(), (w(7), true));
}

#[test]
fn env_hands_out_the_environment_for_writing() {
    let mut ctx = context();
    ctx.env().cfg.chain_id = 5;
    ctx.env().tx.nonce = Some(3);
    assert_eq!(ctx.env.cfg.chain_id, 5);
    assert_eq!(ctx.env.tx.nonce, Some(3));
}

#[test]
fn take_error_leaves_none_behind() {
    let mut ctx = context();
    assert!(ctx.take_error().is_ok());
    ctx.error = Err(EVMError::Custom("pending".to_string()));
    assert!(matches!(ctx.take_error(), Err(EVMError::Custom(text)) if text == "pending"));
    assert!(ctx.error.is_ok());
    assert!(ctx.take_error().is_ok());
}

#[test]
fn block_hash_asks_the_database() {
    let mut ctx = context();
    ctx.db.insert_block_hash(w(3), B256::new(3, 4));
    assert_eq!(ctx.block_hash(w(3)).unwrap(), B256::new(3, 4));
    assert_eq!(ctx.block_hash(w(4)).unwrap(), B256::zero());
}

#[test]
fn balance_code_and_code_hash() {
    let mut ctx = context();
    assert_eq!(ctx.balance(addr(2)).unwrap(), (w(50), true));
    assert_eq!(ctx.code(addr(2)).unwrap(), (vec![0x60, 0x00], false));
    assert_eq!(ctx.code_hash(addr(2)).unwrap(), (keccak256(&[0x60, 0x00]), false));
    // An account with a balance and no code.
    assert_eq!(ctx.code(addr(1)).unwrap(), (vec![], true));
    assert_eq!(ctx.code_hash(addr(1)).unwrap(), (B256::keccak_empty(), false));
    // An empty account.
    assert_eq!(ctx.code_hash(addr(9)).unwrap(), (B256::zero(), true));
    assert_eq!(ctx.code(addr(9)).unwrap(), (vec![], false));
}

#[test]
fn an_eof_account_shows_the_magic_only() {
    let mut ctx = context();
    let eof = Bytecode::Eof(Eof::decode(minimal_eof()).unwrap());
    let hash = eof.hash_slow();
    ctx.db.insert_account_info(addr(4), AccountInfo::new(w(0), 1, hash, Some(eof)));
    assert_eq!(ctx.code(addr(4)).unwrap(), (vec![0xEF, 0x00], true));
    assert_eq!(ctx.code_hash(addr(4)).unwrap(), (B256::eof_magic_hash(), false));
    assert_eq!(ctx.code_hash(addr(4)).unwrap().0, keccak256(&[0xEF, 0x00]));
}

#[test]
fn storage_and_transient_storage_pass_through() {
    let mut ctx = context();
    ctx.load_account(addr(1)).unwrap();
    assert_eq!(ctx.sload(addr(1), w(7)).unwrap(), (w(77), true));
    let res = ctx.sstore(addr(1), w(7), w(1)).unwrap();
    assert_eq!((res.original_value, res.present_value, res.new_value, res.is_cold), (w(77), w(77), w(1), false));
    assert_eq!(ctx.sload(addr(1), w(7)).unwrap(), (w(1), false));
    assert_eq!(ctx.tload(addr(1), w(1)), w(0));
    ctx.tstore(addr(1), w(1), w(9));
    assert_eq!(ctx.tload(addr(1), w(1)), w(9));
    ctx.touch(&addr(1));
    assert!(ctx.journaled_state.account(&addr(1)).unwrap().is_touched());
    let exists = ctx.load_account_exist(addr(9)).unwrap();
    assert!(exists.is_cold && !exists.exists);
    let res = ctx.selfdestruct(addr(1), addr(2)).unwrap();
    assert!(res.had_value && res.target_exists && res.is_cold && !res.previously_destroyed);
    assert_eq!(ctx.balance(addr(2)).unwrap().0, w(1050));
}

#[test]
fn revert_preserves_access_list_warmth() {
    let mut ctx = context();
    ctx.env.tx.access_list.push(AccessListItem { address: addr(2), storage_keys: vec![w(1), w(2)] });
    ctx.env.tx.access_list.push(AccessListItem { address: addr(9), storage_keys: vec![] });
    ctx.load_access_list().unwrap();
    assert!(ctx.journaled_state.journal.is_empty());
    let cp = ctx.journaled_state.checkpoint();
    assert_eq!(ctx.balance(addr(2)).unwrap(), (w(50), false));
    assert_eq!(ctx.sload(addr(2), w(1)).unwrap(), (w(0), false));
    assert!(ctx.journaled_state.journal.is_empty());
    let failed = result(InstructionResult::Revert, vec![], 0);
    ctx.call_return(&failed, cp);
    assert_eq!(ctx.journaled_state.depth(), 0);
    assert_eq!(ctx.balance(addr(2)).unwrap(), (w(50), false));
    assert_eq!(ctx.sload(addr(2), w(2)).unwrap(), (w(0), false));
    assert_eq!(ctx.balance(addr(9)).unwrap(), (w(0), false));
    // An address that the list does not name is cold.
    assert_eq!(ctx.balance(addr(1)).unwrap(), (w(1000), true));
}

#[test]
fn call_return_commits_success_and_reverts_failure() {
    for (ended, kept) in [
        (InstructionResult::Stop, true),
        (InstructionResult::Return, true),
        (InstructionResult::SelfDestruct, true),
        (InstructionResult::Revert, false),
        (InstructionResult::OutOfGas, false),
        (InstructionResult::Continue, false),
        (InstructionResult::ReturnContract, false),
    ] {
        let mut ctx = context();
        ctx.load_account(addr(1)).unwrap();
        let cp = ctx.journaled_state.checkpoint();
        ctx.tstore(addr(1), w(1), w(9));
        ctx.call_return(&result(ended, vec![], 0), cp);
        assert_eq!(ctx.journaled_state.depth(), 0);
        assert_eq!(ctx.tload(addr(1), w(1)), if kept { w(9) } else { w(0) });
    }
}

#[test]
fn make_create_frame_starts_a_create() {
    let mut ctx = context();
    let inputs = create_inputs(CreateScheme::Create, 400, vec![0x60, 0x00]);
    let (created, cp, interpreter, eof) = started(ctx.make_create_frame(SpecId::LATEST, &inputs).unwrap());
    assert!(!eof);
    assert_eq!(created, addr(1).create(5));
    assert_eq!(cp, JournalCheckpoint { log_i: 0, journal_i: 4 });
    assert_eq!(interpreter.gas, Gas::new(100_000));
    assert!(!interpreter.is_static && !interpreter.is_eof_init);
    assert!(interpreter.contract.input.is_empty());
    assert_eq!(interpreter.contract.bytecode.original_bytes(), &vec![0x60, 0x00]);
    assert!(matches!(interpreter.contract.bytecode, Bytecode::Raw(_)));
    assert_eq!(interpreter.contract.hash, Some(B256::zero()));
    assert_eq!(interpreter.contract.target_address, created);
    assert_eq!(interpreter.contract.caller, addr(1));
    assert_eq!(interpreter.contract.call_value, w(400));
    assert_eq!(ctx.journaled_state.depth(), 1);
    let caller = ctx.journaled_state.account(&addr(1)).unwrap();
    assert_eq!((caller.info.nonce, caller.info.balance), (6, w(600)));
    let account = ctx.journaled_state.account(&created).unwrap();
    assert_eq!((account.info.nonce, account.info.balance), (1, w(400)));
    assert!(account.is_created() && account.is_touched() && account.is_warm());
}

#[test]
fn make_create_frame_derives_the_create2_address() {
    let mut ctx = InnerEvmContext::new(InMemoryDb::new());
    let inputs = CreateInputs {
        caller: Address::zero(),
        scheme: CreateScheme::Create2 { salt: U256::zero() },
        value: U256::zero(),
        init_code: vec![0xff],
        gas_limit: 100_000,
    };
    let (created, _, interpreter, _) = started(ctx.make_create_frame(SpecId::LATEST, &inputs).unwrap());
    let code_hash = alloy_primitives::keccak256([0xffu8]);
    let mut preimage = vec![0xffu8];
    preimage.extend_from_slice(&[0u8; 20]);
    preimage.extend_from_slice(&[0u8; 32]);
    preimage.extend_from_slice(code_hash.as_slice());
    let expected = alloy_primitives::keccak256(&preimage);
    assert_eq!(created.to_be_bytes(), expected.as_slice()[12..].to_vec());
    assert_eq!(interpreter.contract.hash, Some(keccak256(&[0xff])));
    assert_eq!(interpreter.contract.hash.unwrap().to_be_bytes(), code_hash.as_slice().to_vec());
}

#[test]
fn make_create_frame_refuses_a_deep_stack() {
    let mut ctx = context();
    ctx.journaled_state.depth = 1025;
    let inputs = create_inputs(CreateScheme::Create, 0, vec![]);
    assert_eq!(refused(ctx.make_create_frame(SpecId::LATEST, &inputs).unwrap()), (InstructionResult::CallTooDeep, false));
    assert!(ctx.journaled_state.state.keys().is_empty());
    // At the limit itself a frame still starts.
    ctx.journaled_state.depth = 1024;
    started(ctx.make_create_frame(SpecId::LATEST, &inputs).unwrap());
    assert_eq!(ctx.journaled_state.depth(), 1025);
}

#[test]
fn make_create_frame_refuses_eof_init_code_from_prague() {
    let mut ctx = context();
    let inputs = create_inputs(CreateScheme::Create, 0, vec![0xEF, 0x00, 0x01]);
    assert_eq!(
        refused(ctx.make_create_frame(SpecId::PRAGUE, &inputs).unwrap()),
        (InstructionResult::CreateInitCodeStartingEF00, false)
    );
    // No checkpoint was opened, and the caller was not even read.
    assert_eq!(ctx.journaled_state.depth(), 0);
    assert!(ctx.journaled_state.journal.is_empty());
    assert!(ctx.journaled_state.account(&addr(1)).is_none());
    assert_eq!(ctx.balance(addr(1)).unwrap(), (w(1000), true));
    assert_eq!(ctx.journaled_state.account(&addr(1)).unwrap().info.nonce, 5);
    // Before Prague the same init code starts a frame.
    started(ctx.make_create_frame(SpecId::CANCUN, &inputs).unwrap());
    // From Prague on, init code that only starts with 0xEF is not refused here.
    let inputs = create_inputs(CreateScheme::Create, 0, vec![0xEF, 0x01]);
    started(ctx.make_create_frame(SpecId::PRAGUE, &inputs).unwrap());
    let inputs = create_inputs(CreateScheme::Create, 0, vec![0xEF]);
    started(ctx.make_create_frame(SpecId::PRAGUE, &inputs).unwrap());
}

#[test]
fn make_create_frame_refuses_a_caller_without_funds() {
    let mut ctx = context();
    let inputs = create_inputs(CreateScheme::Create, 1001, vec![]);
    assert_eq!(refused(ctx.make_create_frame(SpecId::LATEST, &inputs).unwrap()), (InstructionResult::OutOfFunds, false));
    let caller = ctx.journaled_state.account(&addr(1)).unwrap();
    assert_eq!((caller.info.nonce, caller.info.balance), (5, w(1000)));
    assert_eq!(ctx.journaled_state.depth(), 0);
}

#[test]
fn make_create_frame_returns_on_nonce_overflow() {
    let mut ctx = context();
    ctx.db.insert_account_info(addr(1), AccountInfo::new(w(1000), u64::MAX, B256::keccak_empty(), None));
    let inputs = create_inputs(CreateScheme::Create, 0, vec![]);
    assert_eq!(refused(ctx.make_create_frame(SpecId::LATEST, &inputs).unwrap()), (InstructionResult::Return, false));
    assert_eq!(ctx.journaled_state.account(&addr(1)).unwrap().info.nonce, u64::MAX);
    assert_eq!(ctx.journaled_state.depth(), 0);
}

#[test]
fn make_create_frame_refuses_a_taken_address() {
    for taken in [
        AccountInfo::new(w(0), 1, B256::keccak_empty(), None),
        AccountInfo::new(w(0), 0, keccak256(&[0x00]), Some(Bytecode::new_raw(vec![0x00]))),
    ] {
        let mut ctx = context();
        let target = addr(1).create(5);
        ctx.db.insert_account_info(target, taken);
        ctx.load_account(addr(2)).unwrap();
        let inputs = create_inputs(CreateScheme::Create, 400, vec![]);
        assert_eq!(
            refused(ctx.make_create_frame(SpecId::LATEST, &inputs).unwrap()),
            (InstructionResult::CreateCollision, false)
        );
        // Nothing changed but the nonce of the caller.
        assert_eq!(ctx.journaled_state.depth(), 0);
        let caller = ctx.journaled_state.account(&addr(1)).unwrap();
        assert_eq!((caller.info.nonce, caller.info.balance), (6, w(1000)));
        let account = ctx.journaled_state.account(&target).unwrap();
        assert_eq!(account.info.balance, w(0));
        assert!(!account.is_created() && !account.is_touched());
        let other = ctx.journaled_state.account(&addr(2)).unwrap();
        assert_eq!((other.info.nonce, other.info.balance), (1, w(50)));
        assert!(!other.is_touched());
    }
}

/// A database that fails on every read.
struct Broken;

impl Database for Broken {
    type Error = u8;

    fn model(&self) -> DbModel {
        unreachable!()
    }

    fn basic(&mut self, _address: Address) -> Result<Option<AccountInfo>, u8> {
        Err(1)
    }

    fn code_by_hash(&mut self, _code_hash: B256) -> Result<Bytecode, u8> {
        Err(2)
    }

    fn storage(&mut self, _address: Address, _index: U256) -> Result<U256, u8> {
        Err(3)
    }

    fn block_hash(&mut self, _number: U256) -> Result<B256, u8> {
        Err(4)
    }
}

#[test]
fn a_failing_database_shows_as_an_error() {
    let mut ctx = InnerEvmContext::new(Broken);
    assert!(matches!(ctx.block_hash(w(1)), Err(EVMError::Database(4))));
    assert!(matches!(ctx.balance(addr(1)), Err(EVMError::Database(1))));
    assert!(matches!(ctx.code(addr(1)), Err(EVMError::Database(1))));
    assert!(matches!(ctx.code_hash(addr(1)), Err(EVMError::Database(1))));
    assert!(matches!(ctx.load_account(addr(1)), Err(EVMError::Database(1))));
    assert!(matches!(ctx.load_account_exist(addr(1)), Err(EVMError::Database(1))));
    let inputs = create_inputs(CreateScheme::Create, 0, vec![]);
    assert!(matches!(ctx.make_create_frame(SpecId::LATEST, &inputs), Err(EVMError::Database(1))));
    ctx.env.tx.access_list.push(AccessListItem { address: addr(1), storage_keys: vec![] });
    assert!(matches!(ctx.load_access_list(), Err(EVMError::Database(1))));
    assert!(ctx.journaled_state.state.keys().is_empty());
    // With the caller cached, the failure comes when the new address is read:
    // the nonce of the caller stays raised.
    let mut ctx = context();
    ctx.load_account(addr(1)).unwrap();
    let mut ctx = ctx.with_db(Broken);
    assert!(matches!(ctx.make_create_frame(SpecId::LATEST, &inputs), Err(EVMError::Database(1))));
    assert_eq!(ctx.journaled_state.account(&addr(1)).unwrap().info.nonce, 6);
    assert_eq!(ctx.journaled_state.depth(), 0);
    // A refusal that needs no read comes through.
    let inputs = create_inputs(CreateScheme::Create, 5000, vec![]);
    assert_eq!(refused(ctx.make_create_frame(SpecId::LATEST, &inputs).unwrap()).0, InstructionResult::OutOfFunds);
}

/// A context in which a `CREATE` by account 1 has started under `spec`.
fn after_create(spec: SpecId) -> (InnerEvmContext<InMemoryDb>, Address, JournalCheckpoint) {
    let mut ctx = context();
    ctx.journaled_state.set_spec_id(spec);
    let inputs = create_inputs(CreateScheme::Create, 400, vec![0x60, 0x00]);
    let (created, cp, _, _) = started(ctx.make_create_frame(spec, &inputs).unwrap());
    (ctx, created, cp)
}

fn assert_reverted(ctx: &InnerEvmContext<InMemoryDb>, created: Address) {
    assert_eq!(ctx.journaled_state.depth(), 0);
    let account = ctx.journaled_state.account(&created).unwrap();
    assert!(account.info.code.is_none());
    assert_eq!(account.info.code_hash, B256::keccak_empty());
    assert_eq!((account.info.nonce, account.info.balance), (0, w(0)));
    assert!(!account.is_created());
    // The caller got its funds back; its nonce stays raised.
    let caller = ctx.journaled_state.account(&addr(1)).unwrap();
    assert_eq!((caller.info.nonce, caller.info.balance), (6, w(1000)));
}

#[test]
fn create_return_rejects_code_starting_with_ef_from_london() {
    let (mut ctx, created, cp) = after_create(SpecId::LONDON);
    let mut res = result(InstructionResult::Return, vec![0xEF], 50_000);
    ctx.create_return::<LondonSpec>(&mut res, created, cp);
    assert_eq!(res.result, InstructionResult::CreateContractStartingWithEF);
    assert_eq!(res.output, vec![0xEF]);
    assert_eq!(res.gas.remaining(), 50_000);
    assert_reverted(&ctx, created);
    // Before London the same code deploys.
    let (mut ctx, created, cp) = after_create(SpecId::ISTANBUL);
    let mut res = result(InstructionResult::Stop, vec![0xEF], 50_000);
    ctx.create_return::<evm_context::spec_id::IstanbulSpec>(&mut res, created, cp);
    assert_eq!(res.result, InstructionResult::Return);
    assert_eq!(res.gas.remaining(), 49_800);
    assert_eq!(ctx.code(created).unwrap().0, vec![0xEF]);
}

#[test]
fn create_return_runs_out_of_gas_on_deposit_from_homestead() {
    let (mut ctx, created, cp) = after_create(SpecId::HOMESTEAD);
    let mut res = result(InstructionResult::Return, vec![0x00; 100], 19_999);
    ctx.create_return::<HomesteadSpec>(&mut res, created, cp);
    assert_eq!(res.result, InstructionResult::OutOfGas);
    assert_eq!(res.gas.remaining(), 19_999);
    assert_eq!(res.output.len(), 100);
    assert_reverted(&ctx, created);
    // With exactly the deposit left, the code deploys and the gas is used up.
    let (mut ctx, created, cp) = after_create(SpecId::HOMESTEAD);
    let mut res = result(InstructionResult::Return, vec![0x00; 100], 20_000);
    ctx.create_return::<HomesteadSpec>(&mut res, created, cp);
    assert_eq!(res.result, InstructionResult::Return);
    assert_eq!(res.gas.remaining(), 0);
    assert_eq!(ctx.code(created).unwrap().0, vec![0x00; 100]);
}

#[test]
fn create_return_deploys_empty_code_on_deposit_before_homestead() {
    let (mut ctx, created, cp) = after_create(SpecId::FRONTIER);
    let mut res = result(InstructionResult::Return, vec![0x00; 100], 19_999);
    ctx.create_return::<FrontierSpec>(&mut res, created, cp);
    assert_eq!(res.result, InstructionResult::Return);
    assert!(res.output.is_empty());
    assert_eq!(res.gas.remaining(), 19_999);
    assert_eq!(ctx.journaled_state.depth(), 0);
    let account = ctx.journaled_state.account(&created).unwrap();
    assert!(account.is_created());
    assert_eq!(account.info.balance, w(400));
    assert_eq!(account.info.nonce, 0);
    assert!(account.info.code.as_ref().unwrap().is_empty());
    assert_eq!(account.info.code_hash, B256::keccak_empty());
}

#[test]
fn create_return_enforces_the_code_size_limit_from_spurious_dragon() {
    let (mut ctx, created, cp) = after_create(SpecId::SPURIOUS_DRAGON);
    let mut res = result(InstructionResult::Return, vec![0x00; 24_577], u64::MAX);
    ctx.create_return::<SpuriousDragonSpec>(&mut res, created, cp);
    assert_eq!(res.result, InstructionResult::CreateContractSizeLimit);
    assert_eq!(res.gas.remaining(), u64::MAX);
    assert_reverted(&ctx, created);
    // Code of exactly the limit deploys.
    let (mut ctx, created, cp) = after_create(SpecId::SPURIOUS_DRAGON);
    let mut res = result(InstructionResult::Return, vec![0x00; 24_576], 24_576 * 200 + 1);
    ctx.create_return::<SpuriousDragonSpec>(&mut res, created, cp);
    assert_eq!(res.result, InstructionResult::Return);
    assert_eq!(res.gas.remaining(), 1);
    // A configured limit takes the place of the default.
    let (mut ctx, created, cp) = after_create(SpecId::SPURIOUS_DRAGON);
    ctx.env.cfg.limit_contract_code_size = Some(2);
    let mut res = result(InstructionResult::Return, vec![0x00; 3], 50_000);
    ctx.create_return::<SpuriousDragonSpec>(&mut res, created, cp);
    assert_eq!(res.result, InstructionResult::CreateContractSizeLimit);
    // Before Spurious Dragon there is no limit.
    let (mut ctx, created, cp) = after_create(SpecId::TANGERINE);
    let mut res = result(InstructionResult::Return, vec![0x00; 24_577], u64::MAX);
    ctx.create_return::<TangerineSpec>(&mut res, created, cp);
    assert_eq!(res.result, InstructionResult::Return);
    assert_eq!(ctx.code(created).unwrap().0.len(), 24_577);
}

#[test]
fn create_return_propagates_a_failed_frame() {
    for ended in [InstructionResult::Revert, InstructionResult::OutOfGas, InstructionResult::SelfDestruct, InstructionResult::Continue] {
        let (mut ctx, created, cp) = after_create(SpecId::LATEST);
        let mut res = result(ended, vec![1, 2], 7);
        ctx.create_return::<LatestSpec>(&mut res, created, cp);
        assert_eq!(res.result, ended);
        assert_eq!(res.output, vec![1, 2]);
        assert_eq!(res.gas.remaining(), 7);
        assert_reverted(&ctx, created);
    }
}

#[test]
fn create_return_installs_the_code() {
    let (mut ctx, created, cp) = after_create(SpecId::LATEST);
    let mut res = result(InstructionResult::Stop, vec![0x5b, 0x00], 1000);
    ctx.create_return::<LatestSpec>(&mut res, created, cp);
    assert_eq!(res.result, InstructionResult::Return);
    assert_eq!(res.gas.remaining(), 600);
    assert_eq!(ctx.journaled_state.depth(), 0);
    let account = ctx.journaled_state.account(&created).unwrap();
    assert_eq!(account.info.code_hash, keccak256(&[0x5b, 0x00]));
    match account.info.code.as_ref().unwrap() {
        Bytecode::Analysed(code) => assert_eq!(code.jump_table, vec![true, false]),
        _ => panic!("the code was not analysed"),
    }
    // Without analysis the code stays raw.
    let (mut ctx, created, cp) = after_create(SpecId::LATEST);
    ctx.env.cfg.perf_analyse_created_bytecodes = AnalysisKind::Raw;
    let mut res = result(InstructionResult::Return, vec![0x5b, 0x00], 1000);
    ctx.create_return::<LatestSpec>(&mut res, created, cp);
    assert!(matches!(
        ctx.journaled_state.account(&created).unwrap().info.code,
        Some(Bytecode::Raw(_))
    ));
}

fn eof_inputs(kind: EOFCreateKind) -> EOFCreateInputs {
    EOFCreateInputs { caller: addr(1), value: w(400), gas_limit: 100_000, kind }
}

#[test]
fn make_eofcreate_frame_from_the_opcode() {
    let mut ctx = context();
    let kind = EOFCreateKind::Opcode {
        initcode: Eof::decode(minimal_eof()).unwrap(),
        input: vec![1, 2, 3],
        created_address: addr(44),
    };
    let (created, cp, interpreter, eof) =
        started(ctx.make_eofcreate_frame(SpecId::PRAGUE, &eof_inputs(kind)).unwrap());
    assert!(eof);
    assert_eq!(created, addr(44));
    assert_eq!(cp.journal_i, 4);
    assert!(interpreter.is_eof_init && !interpreter.is_static);
    assert_eq!(interpreter.gas, Gas::new(100_000));
    assert_eq!(interpreter.contract.input, vec![1, 2, 3]);
    assert!(interpreter.contract.bytecode.is_eof());
    assert_eq!(interpreter.contract.bytecode.original_bytes(), &minimal_eof());
    assert_eq!(interpreter.contract.hash, None);
    assert_eq!(interpreter.contract.target_address, addr(44));
    assert_eq!(interpreter.contract.call_value, w(400));
    assert_eq!(ctx.journaled_state.account(&addr(1)).unwrap().info.nonce, 6);
    assert_eq!(ctx.journaled_state.account(&addr(44)).unwrap().info.balance, w(400));
}

#[test]
fn make_eofcreate_frame_from_a_transaction() {
    let mut ctx = context();
    ctx.env.tx.caller = addr(1);
    let mut initdata = init_eof();
    initdata.extend_from_slice(&[7, 8]);
    let inputs = eof_inputs(EOFCreateKind::Tx { initdata: initdata.clone() });
    let (created, _, interpreter, eof) = started(ctx.make_eofcreate_frame(SpecId::PRAGUE, &inputs).unwrap());
    assert!(eof);
    // The nonce of the sender's account, before it is raised.
    assert_eq!(created, addr(1).create(5));
    assert_eq!(interpreter.contract.input, vec![7, 8]);
    assert_eq!(interpreter.contract.bytecode.original_bytes(), &init_eof());
    // The nonce of the transaction comes first where it is set.
    let mut ctx = context();
    ctx.env.tx.caller = addr(1);
    ctx.env.tx.nonce = Some(9);
    let (created, _, _, _) = started(ctx.make_eofcreate_frame(SpecId::PRAGUE, &inputs).unwrap());
    assert_eq!(created, addr(1).create(9));
    // A sender that the database cannot read counts with nonce zero.
    let mut ctx = context();
    ctx.load_account(addr(1)).unwrap();
    let mut ctx = ctx.with_db(Broken);
    ctx.env.tx.caller = addr(3);
    ctx.journaled_state.state.insert(
        addr(3).create(0),
        evm_context::account::Account::fetched(None),
    );
    let (created, _, _, _) = started(ctx.make_eofcreate_frame(SpecId::PRAGUE, &inputs).unwrap());
    assert_eq!(created, addr(3).create(0));
}

#[test]
fn make_eofcreate_frame_refuses_bad_init_data() {
    let mut ctx = context();
    ctx.env.tx.caller = addr(1);
    let inputs = eof_inputs(EOFCreateKind::Tx { initdata: vec![0xEF, 0x00, 0x01] });
    assert_eq!(
        refused(ctx.make_eofcreate_frame(SpecId::PRAGUE, &inputs).unwrap()),
        (InstructionResult::InvalidEOFInitCode, true)
    );
    // A container that decodes and fails validation.
    let mut bad = init_eof();
    bad[16] = 0x00;
    let inputs = eof_inputs(EOFCreateKind::Tx { initdata: bad });
    assert_eq!(
        refused(ctx.make_eofcreate_frame(SpecId::PRAGUE, &inputs).unwrap()),
        (InstructionResult::InvalidEOFInitCode, true)
    );
    // A declared stack height that the code does not reach.
    let mut bad = init_eof();
    bad[18] = 0x01;
    let inputs = eof_inputs(EOFCreateKind::Tx { initdata: bad });
    assert_eq!(
        refused(ctx.make_eofcreate_frame(SpecId::PRAGUE, &inputs).unwrap()),
        (InstructionResult::InvalidEOFInitCode, true)
    );
    // Init code may not stop.
    let inputs = eof_inputs(EOFCreateKind::Tx { initdata: minimal_eof() });
    assert_eq!(
        refused(ctx.make_eofcreate_frame(SpecId::PRAGUE, &inputs).unwrap()),
        (InstructionResult::InvalidEOFInitCode, true)
    );
    assert_eq!(ctx.journaled_state.depth(), 0);
    assert_eq!(ctx.journaled_state.account(&addr(1)).unwrap().info.nonce, 5);
}

#[test]
fn make_eofcreate_frame_checks_depth_funds_and_collision() {
    let kind = || EOFCreateKind::Opcode {
        initcode: Eof::decode(minimal_eof()).unwrap(),
        input: vec![],
        created_address: addr(2),
    };
    let mut ctx = context();
    ctx.journaled_state.depth = 1025;
    assert_eq!(
        refused(ctx.make_eofcreate_frame(SpecId::PRAGUE, &eof_inputs(kind())).unwrap()),
        (InstructionResult::CallTooDeep, true)
    );
    let mut ctx = context();
    let mut inputs = eof_inputs(kind());
    inputs.value = w(1001);
    assert_eq!(
        refused(ctx.make_eofcreate_frame(SpecId::PRAGUE, &inputs).unwrap()),
        (InstructionResult::OutOfFunds, true)
    );
    // Account 2 has code.
    assert_eq!(
        refused(ctx.make_eofcreate_frame(SpecId::PRAGUE, &eof_inputs(kind())).unwrap()),
        (InstructionResult::CreateCollision, true)
    );
    assert_eq!(ctx.journaled_state.account(&addr(1)).unwrap().info.nonce, 6);
}

/// A context in which an EOF creation by account 1 has started at address 44.
fn after_eofcreate() -> (InnerEvmContext<InMemoryDb>, Address, JournalCheckpoint) {
    let mut ctx = context();
    let kind = EOFCreateKind::Opcode {
        initcode: Eof::decode(minimal_eof()).unwrap(),
        input: vec![],
        created_address: addr(44),
    };
    let (created, cp, _, _) =
        started(ctx.make_eofcreate_frame(SpecId::PRAGUE, &eof_inputs(kind)).unwrap());
    (ctx, created, cp)
}

#[test]
fn eofcreate_return_installs_the_container() {
    let (mut ctx, created, cp) = after_eofcreate();
    let mut res = result(InstructionResult::ReturnContract, minimal_eof(), 5_000);
    ctx.eofcreate_return::<LatestSpec>(&mut res, created, cp);
    assert_eq!(res.result, InstructionResult::ReturnContract);
    assert_eq!(res.gas.remaining(), 1_000);
    assert_eq!(res.output, minimal_eof());
    assert_eq!(ctx.journaled_state.depth(), 0);
    let account = ctx.journaled_state.account(&created).unwrap();
    assert!(account.info.code.as_ref().unwrap().is_eof());
    assert_eq!(account.info.code_hash, keccak256(&minimal_eof()));
    assert_eq!(ctx.code(created).unwrap().0, vec![0xEF, 0x00]);
}

#[test]
fn eofcreate_return_reverts_each_failure() {
    let cases: Vec<(InstructionResult, Vec<u8>, u64, InstructionResult, u64)> = vec![
        (InstructionResult::Return, minimal_eof(), 5_000, InstructionResult::Return, 5_000),
        (InstructionResult::Stop, minimal_eof(), 5_000, InstructionResult::Stop, 5_000),
        (InstructionResult::Revert, vec![], 5_000, InstructionResult::Revert, 5_000),
        (InstructionResult::ReturnContract, vec![0; 24_577], u64::MAX, InstructionResult::CreateContractSizeLimit, u64::MAX),
        (InstructionResult::ReturnContract, minimal_eof(), 3_999, InstructionResult::OutOfGas, 3_999),
        (InstructionResult::ReturnContract, vec![0x00, 0x01], 5_000, InstructionResult::InvalidEOFInitCode, 4_600),
    ];
    for (ended, output, gas, expected, left) in cases {
        let (mut ctx, created, cp) = after_eofcreate();
        let mut res = result(ended, output.clone(), gas);
        ctx.eofcreate_return::<LatestSpec>(&mut res, created, cp);
        assert_eq!(res.result, expected);
        assert_eq!(res.gas.remaining(), left);
        assert_eq!(res.output, output);
        assert_eq!(ctx.journaled_state.depth(), 0);
        let account = ctx.journaled_state.account(&created).unwrap();
        assert!(account.info.code.is_none() && !account.is_created());
        assert_eq!(ctx.journaled_state.account(&addr(1)).unwrap().info.balance, w(1000));
    }
}

#[test]
fn deposit_and_refusal_helpers() {
    let mut gas = Gas::new(1000);
    assert!(charge_deposit(&mut gas, 5));
    assert_eq!(gas.remaining(), 0);
    assert_eq!(gas.spent(), 1000);
    assert_eq!(gas.limit(), 1000);
    let mut gas = Gas::new(999);
    assert!(!charge_deposit(&mut gas, 5));
    assert_eq!(gas.remaining(), 999);
    let mut gas = Gas::new(u64::MAX);
    assert!(!charge_deposit(&mut gas, usize::MAX));
    assert!(gas.record_cost(u64::MAX));
    assert!(!gas.record_cost(1));
    assert_eq!(refused(refused_create(InstructionResult::OutOfFunds, 100_000)), (InstructionResult::OutOfFunds, false));
    assert_eq!(refused(refused_eofcreate(InstructionResult::Revert, 100_000)), (InstructionResult::Revert, true));
    assert!(result(InstructionResult::Stop, vec![], 0).is_ok());
    assert!(!result(InstructionResult::Revert, vec![], 0).is_ok());
}

#[test]
fn spec_ids_are_ordered() {
    assert!(SpecId::LATEST.is_enabled_in(SpecId::FRONTIER));
    assert!(SpecId::LONDON.is_enabled_in(SpecId::LONDON));
    assert!(!SpecId::BERLIN.is_enabled_in(SpecId::LONDON));
    assert!(SpecId::enabled(SpecId::CANCUN, SpecId::SHANGHAI));
    assert!(!SpecId::enabled(SpecId::HOMESTEAD, SpecId::SPURIOUS_DRAGON));
    assert_eq!(SpecId::FRONTIER.ordinal(), 0);
    assert_eq!(SpecId::LATEST.ordinal(), 19);
    assert_eq!(LondonSpec::spec_id(), SpecId::LONDON);
    assert!(LondonSpec::enabled(SpecId::BERLIN));
    assert!(!HomesteadSpec::enabled(SpecId::LONDON));
    assert!(FrontierSpec::enabled(SpecId::FRONTIER));
}

#[test]
fn a_context_can_be_copied() {
    let mut ctx = context();
    ctx.env.cfg.chain_id = 7;
    ctx.load_account(addr(1)).unwrap();
    ctx.sstore(addr(1), w(7), w(1)).unwrap();
    ctx.tstore(addr(1), w(1), w(9));
    ctx.error = Err(EVMError::Custom("pending".to_string()));
    let mut copy = ctx.clone();
    assert_eq!(copy.env.cfg.chain_id, 7);
    assert!(matches!(&copy.error, Err(EVMError::Custom(text)) if text == "pending"));
    assert_eq!(copy.journaled_state.journal.len(), ctx.journaled_state.journal.len());
    assert_eq!(copy.sload(addr(1), w(7)).unwrap(), (w(1), false));
    assert_eq!(copy.tload(addr(1), w(1)), w(9));
    // The copy is a state of its own.
    copy.tstore(addr(1), w(1), w(3));
    assert_eq!(ctx.tload(addr(1), w(1)), w(9));
    assert_eq!(copy.balance(addr(2)).unwrap(), (w(50), true));
    assert!(ctx.journaled_state.account(&addr(2)).is_none());
}
