use evm_context::account::{Account, AccountInfo, AccountStatus, StorageSlot};
use evm_context::bytecode::Bytecode;
use evm_context::db::{Database, DbModel, InMemoryDb};
use evm_context::error::EVMError;
use evm_context::hash::keccak256;
use evm_context::interpreter::{InstructionResult, LoadAccountResult, SStoreResult, SelfDestructResult};
use evm_context::journal_model::JournalCheckpoint;
use evm_context::journaled_state::{AddressSet, JournalEntry, JournaledState, Log, TransientStorage};
use evm_context::primitives::{Address, SlotKey, B256, U256};
use evm_context::spec_id::SpecId;
use evm_context::table::Table;

fn addr(n: u128) -> Address {
    Address::new(0, n)
}

fn w(n: u64) -> U256 {
    U256::from_u64(n)
}

/// A database with three accounts: 1 holds 1000, 2 holds 50 and code, 3 holds
/// the largest balance there is; account 1 has a value in slot 7.
fn sample_db() -> InMemoryDb {
    let mut db = InMemoryDb::new();
    db.insert_account_info(addr(1), AccountInfo::new(w(1000), 5, B256::keccak_empty(), None));
    let code = Bytecode::new_raw(vec![0x60, 0x00]);
    db.insert_account_info(addr(2), AccountInfo::new(w(50), 1, code.hash_slow(), Some(code)));
    db.insert_account_info(
        addr(3),
        AccountInfo::new(U256::new(u128::MAX, u128::MAX), 0, B256::keccak_empty(), None),
    );
    db.insert_account_storage(addr(1), w(7), w(77));
    db
}

fn fresh(spec: SpecId) -> JournaledState {
    JournaledState::new(spec, AddressSet::new())
}

type SlotShot = (u128, u128, StorageSlot);
type AccountShot = (Address, U256, u64, B256, Option<Vec<u8>>, AccountStatus, Vec<SlotShot>);

/// Everything that can be seen of a state, in a fixed order.
fn snapshot(s: &JournaledState) -> (Vec<AccountShot>, usize, usize, usize) {
    let mut keys = s.state.keys();
    keys.sort_by_key(|a| (a.hi, a.lo));
    let mut accounts = Vec::new();
    for a in keys {
        let account = s.state.get(&a).unwrap();
        let mut slots: Vec<SlotShot> = account
            .storage
            .keys()
            .into_iter()
            .map(|k| (k.hi, k.lo, *account.storage.get(&k).unwrap()))
            .collect();
        slots.sort_by_key(|x| (x.0, x.1));
        accounts.push((
            a,
            account.info.balance,
            account.info.nonce,
            account.info.code_hash,
            account.info.code.as_ref().map(|c| c.original_bytes().clone()),
            account.status,
            slots,
        ));
    }
    (accounts, s.logs.len(), s.journal.len(), s.depth)
}

fn log_at(a: Address) -> Log {
    Log { address: a, topics: vec![B256::new(1, 2)], data: vec![9] }
}

/// A mix of every kind of change, on a state that has accounts 1 and 2 cached.
fn mutate(s: &mut JournaledState, db: &mut InMemoryDb) {
    s.touch(&addr(1));
    assert_eq!(s.inc_nonce(addr(1)), Some(6));
    s.sload(addr(1), w(7), db).unwrap();
    s.sstore(addr(1), w(7), w(1), db).unwrap();
    s.sstore(addr(1), w(8), w(2), db).unwrap();
    s.tstore(addr(1), w(1), w(11));
    s.tstore(addr(1), w(1), w(0));
    s.tstore(addr(2), w(1), w(12));
    s.set_code(addr(1), Bytecode::new_raw(vec![1, 2, 3]));
    s.log(log_at(addr(1)));
    s.load_account(addr(9), db).unwrap();
    s.load_code(addr(2), db).unwrap();
    s.create_account_checkpoint(addr(1), addr(9), w(10), SpecId::LATEST).unwrap();
    s.checkpoint_commit();
    s.selfdestruct(addr(2), addr(3), db).unwrap();
    s.selfdestruct(addr(9), addr(1), db).unwrap();
}

fn prepared(spec: SpecId, db: &mut InMemoryDb) -> JournaledState {
    let mut s = fresh(spec);
    s.load_account(addr(1), db).unwrap();
    s.load_account(addr(2), db).unwrap();
    s
}

#[test]
fn revert_restores_the_state() {
    let mut db = sample_db();
    let mut s = prepared(SpecId::LATEST, &mut db);
    s.tstore(addr(1), w(1), w(5));
    s.log(log_at(addr(2)));
    let before = snapshot(&s);
    let cp = s.checkpoint();
    assert_eq!(cp, JournalCheckpoint { log_i: 1, journal_i: before.2 });
    mutate(&mut s, &mut db);
    assert_ne!(snapshot(&s).0, before.0);
    s.checkpoint_revert(cp);
    assert_eq!(snapshot(&s), before);
    assert_eq!(s.tload(addr(1), w(1)), w(5));
    assert_eq!(s.tload(addr(2), w(1)), w(0));
    assert_eq!(s.logs[0].address, addr(2));
}

#[test]
fn revert_restores_the_state_before_cancun() {
    let mut db = sample_db();
    let mut s = prepared(SpecId::SHANGHAI, &mut db);
    let before = snapshot(&s);
    let cp = s.checkpoint();
    mutate(&mut s, &mut db);
    assert!(s.state.get(&addr(2)).unwrap().status.self_destructed);
    s.checkpoint_revert(cp);
    assert_eq!(snapshot(&s), before);
}

#[test]
fn nested_revert_goes_back_to_the_inner_checkpoint_only() {
    let mut db = sample_db();
    let mut s = prepared(SpecId::LATEST, &mut db);
    let outer_before = snapshot(&s);
    let outer = s.checkpoint();
    s.sstore(addr(1), w(7), w(1), &mut db).unwrap();
    s.log(log_at(addr(1)));
    let inner_before = snapshot(&s);
    let inner = s.checkpoint();
    mutate(&mut s, &mut db);
    s.checkpoint_revert(inner);
    assert_eq!(snapshot(&s), inner_before);
    assert_eq!(s.state.get(&addr(1)).unwrap().storage.get(&w(7)).unwrap().present_value, w(1));
    s.checkpoint_revert(outer);
    assert_eq!(snapshot(&s), outer_before);
}

#[test]
fn committed_checkpoints_leave_no_trace() {
    let mut db = sample_db();
    let mut flat = prepared(SpecId::LATEST, &mut db);
    flat.sstore(addr(1), w(7), w(1), &mut db).unwrap();
    flat.touch(&addr(2));
    mutate(&mut flat, &mut db);

    let mut nested = prepared(SpecId::LATEST, &mut db);
    nested.checkpoint();
    nested.sstore(addr(1), w(7), w(1), &mut db).unwrap();
    nested.touch(&addr(2));
    nested.checkpoint();
    assert_eq!(nested.depth(), 2);
    mutate(&mut nested, &mut db);
    nested.checkpoint_commit();
    nested.checkpoint_commit();

    assert_eq!(snapshot(&nested), snapshot(&flat));
    assert_eq!(nested.tload(addr(2), w(1)), flat.tload(addr(2), w(1)));
    assert_eq!(nested.depth(), 0);
}

#[test]
fn an_outer_revert_undoes_what_an_inner_commit_kept() {
    let mut db = sample_db();
    let mut s = prepared(SpecId::LATEST, &mut db);
    let before = snapshot(&s);
    let outer = s.checkpoint();
    s.checkpoint();
    mutate(&mut s, &mut db);
    s.checkpoint_commit();
    s.checkpoint_revert(outer);
    assert_eq!(snapshot(&s), before);
}

#[test]
fn warmth_only_rises_without_a_revert() {
    let mut db = sample_db();
    let mut s = fresh(SpecId::LATEST);
    let (_, cold) = s.load_account(addr(1), &mut db).unwrap();
    assert!(cold);
    assert_eq!(s.sload(addr(1), w(7), &mut db).unwrap(), (w(77), true));
    s.checkpoint();
    mutate(&mut s, &mut db);
    s.checkpoint_commit();
    let (account, cold) = s.load_account(addr(1), &mut db).unwrap();
    assert!(!cold);
    assert!(account.is_warm());
    assert!(!s.sload(addr(1), w(7), &mut db).unwrap().1);
    assert!(!s.sload(addr(1), w(8), &mut db).unwrap().1);
    assert!(!s.load_account(addr(9), &mut db).unwrap().1);
}

#[test]
fn a_revert_makes_cold_what_was_warmed_since() {
    let mut db = sample_db();
    let mut s = fresh(SpecId::LATEST);
    s.load_account(addr(1), &mut db).unwrap();
    let cp = s.checkpoint();
    assert!(s.load_account(addr(2), &mut db).unwrap().1);
    assert!(s.sload(addr(1), w(7), &mut db).unwrap().1);
    s.checkpoint_revert(cp);
    assert!(s.account(&addr(2)).is_none());
    assert!(s.load_account(addr(2), &mut db).unwrap().1);
    assert!(s.sload(addr(1), w(7), &mut db).unwrap().1);
    assert!(!s.load_account(addr(1), &mut db).unwrap().1);
}

#[test]
fn a_cached_cold_account_is_warmed_and_cooled_again_by_revert() {
    let mut db = sample_db();
    let mut s = fresh(SpecId::LATEST);
    let mut account = Account::fetched(Some(AccountInfo::new(w(1), 0, B256::keccak_empty(), None)));
    account.status.warm_access = false;
    account.storage.insert(w(3), StorageSlot { original_value: w(4), present_value: w(5), is_cold: true });
    s.state.insert(addr(4), account);
    let cp = s.checkpoint();
    assert!(s.load_account(addr(4), &mut db).unwrap().1);
    assert!(matches!(s.journal.last(), Some(JournalEntry::AccountWarmed { .. })));
    assert_eq!(s.sload(addr(4), w(3), &mut db).unwrap(), (w(5), true));
    assert!(matches!(s.journal.last(), Some(JournalEntry::StorageWarmed { .. })));
    assert!(!s.load_account(addr(4), &mut db).unwrap().1);
    assert!(!s.sload(addr(4), w(3), &mut db).unwrap().1);
    s.checkpoint_revert(cp);
    let account = s.account(&addr(4)).unwrap();
    assert!(!account.is_warm());
    assert_eq!(
        account.storage.get(&w(3)),
        Some(&StorageSlot { original_value: w(4), present_value: w(5), is_cold: true })
    );
}

#[test]
fn preloaded_addresses_are_never_cold() {
    let mut db = sample_db();
    let mut warm = AddressSet::new();
    warm.insert(addr(2));
    assert!(warm.contains(&addr(2)));
    assert!(!warm.contains(&addr(1)));
    let mut s = JournaledState::new(SpecId::LATEST, warm.clone());
    let cp = s.checkpoint();
    assert!(!s.load_account(addr(2), &mut db).unwrap().1);
    assert!(s.load_account(addr(1), &mut db).unwrap().1);
    s.checkpoint_revert(cp);
    assert!(!s.load_account(addr(2), &mut db).unwrap().1);
}

#[test]
fn a_touch_lasts_through_commits() {
    let mut db = sample_db();
    let mut s = prepared(SpecId::LATEST, &mut db);
    s.checkpoint();
    s.checkpoint();
    s.touch(&addr(2));
    s.touch(&addr(2));
    assert_eq!(s.journal.len(), 3);
    s.checkpoint_commit();
    mutate(&mut s, &mut db);
    s.checkpoint_commit();
    assert!(s.account(&addr(2)).unwrap().is_touched());
    // An account that is not cached is not touched.
    s.touch(&addr(77));
    assert!(s.account(&addr(77)).is_none());
}

#[test]
fn a_touch_is_undone_by_revert() {
    let mut db = sample_db();
    let mut s = prepared(SpecId::LATEST, &mut db);
    let cp = s.checkpoint();
    s.touch(&addr(2));
    s.checkpoint_revert(cp);
    assert!(!s.account(&addr(2)).unwrap().is_touched());
}

#[test]
fn load_account_fetches_once_and_marks_what_it_found() {
    let mut db = sample_db();
    let mut s = fresh(SpecId::LATEST);
    let (account, cold) = s.load_account(addr(1), &mut db).unwrap();
    assert!(cold);
    assert_eq!(account.info.balance, w(1000));
    assert_eq!(account.info.nonce, 5);
    assert_eq!(
        account.status,
        AccountStatus {
            loaded: true,
            touched: false,
            created: false,
            self_destructed: false,
            warm_access: true,
            newly_created: false,
        }
    );
    let (missing, cold) = s.load_account(addr(9), &mut db).unwrap();
    assert!(cold);
    assert!(missing.is_empty());
    assert_eq!(missing.info.code_hash, B256::keccak_empty());
    assert!(missing.status.newly_created && !missing.status.loaded);
    assert_eq!(s.journal.len(), 2);
    // The cache answers from now on, whatever the database holds.
    db.insert_account_info(addr(1), AccountInfo::new(w(1), 0, B256::keccak_empty(), None));
    assert_eq!(s.load_account(addr(1), &mut db).unwrap().0.info.balance, w(1000));
    assert_eq!(s.journal.len(), 2);
}

#[test]
fn load_account_exist_tells_empty_accounts() {
    let mut db = sample_db();
    db.insert_account_info(addr(5), AccountInfo::new(w(0), 0, B256::zero(), None));
    db.insert_account_info(addr(6), AccountInfo::new(w(0), 1, B256::keccak_empty(), None));
    let mut s = fresh(SpecId::LATEST);
    assert_eq!(
        s.load_account_exist(addr(1), &mut db).unwrap(),
        LoadAccountResult { is_cold: true, exists: true }
    );
    assert_eq!(
        s.load_account_exist(addr(1), &mut db).unwrap(),
        LoadAccountResult { is_cold: false, exists: true }
    );
    assert_eq!(
        s.load_account_exist(addr(9), &mut db).unwrap(),
        LoadAccountResult { is_cold: true, exists: false }
    );
    assert_eq!(
        s.load_account_exist(addr(5), &mut db).unwrap(),
        LoadAccountResult { is_cold: true, exists: false }
    );
    assert_eq!(
        s.load_account_exist(addr(6), &mut db).unwrap(),
        LoadAccountResult { is_cold: true, exists: true }
    );
}

#[test]
fn load_code_resolves_the_code() {
    let mut db = sample_db();
    let mut s = fresh(SpecId::LATEST);
    let (account, cold) = s.load_code(addr(1), &mut db).unwrap();
    assert!(cold);
    assert!(account.info.code.as_ref().unwrap().is_empty());
    let (account, cold) = s.load_code(addr(2), &mut db).unwrap();
    assert!(cold);
    assert_eq!(account.info.code.as_ref().unwrap().original_bytes(), &vec![0x60, 0x00]);
    let entries = s.journal.len();
    let (_, cold) = s.load_code(addr(2), &mut db).unwrap();
    assert!(!cold);
    assert_eq!(s.journal.len(), entries);
}

#[test]
fn load_code_fetches_code_by_its_hash() {
    let mut db = sample_db();
    let code = Bytecode::new_raw(vec![0xAB]);
    let hash = code.hash_slow();
    db.insert_account_info(addr(8), AccountInfo::new(w(0), 0, hash, Some(code)));
    // An account that names the same code without holding it.
    db.insert_account_info(addr(7), AccountInfo::new(w(0), 0, hash, None));
    let mut s = fresh(SpecId::LATEST);
    let (account, _) = s.load_account(addr(7), &mut db).unwrap();
    assert!(account.info.code.is_none());
    let cp = s.checkpoint();
    let (account, cold) = s.load_code(addr(7), &mut db).unwrap();
    assert!(!cold);
    assert_eq!(account.info.code.as_ref().unwrap().original_bytes(), &vec![0xAB]);
    s.checkpoint_revert(cp);
    assert!(s.account(&addr(7)).unwrap().info.code.is_none());
}

#[test]
fn sload_reads_the_database_once() {
    let mut db = sample_db();
    let mut s = prepared(SpecId::LATEST, &mut db);
    assert_eq!(s.sload(addr(1), w(7), &mut db).unwrap(), (w(77), true));
    assert_eq!(s.sload(addr(1), w(8), &mut db).unwrap(), (w(0), true));
    db.insert_account_storage(addr(1), w(7), w(1));
    assert_eq!(s.sload(addr(1), w(7), &mut db).unwrap(), (w(77), false));
    assert_eq!(
        s.account(&addr(1)).unwrap().storage.get(&w(7)),
        Some(&StorageSlot { original_value: w(77), present_value: w(77), is_cold: false })
    );
}

#[test]
fn sload_of_a_created_account_reads_zero() {
    let mut db = sample_db();
    db.insert_account_storage(addr(9), w(7), w(5));
    let mut s = prepared(SpecId::LATEST, &mut db);
    s.load_account(addr(9), &mut db).unwrap();
    s.create_account_checkpoint(addr(1), addr(9), w(0), SpecId::LATEST).unwrap();
    assert_eq!(s.sload(addr(9), w(7), &mut db).unwrap(), (w(0), true));
}

#[test]
fn sstore_reports_the_three_values() {
    let mut db = sample_db();
    let mut s = prepared(SpecId::LATEST, &mut db);
    assert_eq!(
        s.sstore(addr(1), w(7), w(1), &mut db).unwrap(),
        SStoreResult { original_value: w(77), present_value: w(77), new_value: w(1), is_cold: true }
    );
    let entries = s.journal.len();
    assert_eq!(
        s.sstore(addr(1), w(7), w(1), &mut db).unwrap(),
        SStoreResult { original_value: w(77), present_value: w(1), new_value: w(1), is_cold: false }
    );
    assert_eq!(s.journal.len(), entries);
    assert_eq!(
        s.sstore(addr(1), w(7), w(2), &mut db).unwrap(),
        SStoreResult { original_value: w(77), present_value: w(1), new_value: w(2), is_cold: false }
    );
    assert_eq!(s.sload(addr(1), w(7), &mut db).unwrap(), (w(2), false));
}

#[test]
fn transient_storage_reads_zero_unless_written() {
    let mut s = fresh(SpecId::LATEST);
    assert_eq!(s.tload(addr(1), w(1)), w(0));
    s.tstore(addr(1), w(1), w(0));
    assert!(s.journal.is_empty());
    let cp = s.checkpoint();
    s.tstore(addr(1), w(1), w(5));
    s.tstore(addr(1), w(1), w(5));
    assert_eq!(s.journal.len(), 1);
    assert_eq!(s.tload(addr(1), w(1)), w(5));
    assert_eq!(s.tload(addr(1), w(2)), w(0));
    assert_eq!(s.tload(addr(2), w(1)), w(0));
    s.tstore(addr(1), w(1), w(0));
    assert_eq!(s.tload(addr(1), w(1)), w(0));
    s.checkpoint_revert(cp);
    assert_eq!(s.tload(addr(1), w(1)), w(0));
    let mut t = TransientStorage::new();
    let k = SlotKey { address: addr(1), index: w(1) };
    t.set(k, w(3));
    assert_eq!(t.clone().get(&k), w(3));
}

#[test]
fn inc_nonce_stops_at_the_largest_nonce() {
    let mut db = sample_db();
    db.insert_account_info(addr(5), AccountInfo::new(w(0), u64::MAX, B256::keccak_empty(), None));
    db.insert_account_info(addr(6), AccountInfo::new(w(0), u64::MAX - 1, B256::keccak_empty(), None));
    let mut s = fresh(SpecId::LATEST);
    s.load_account(addr(5), &mut db).unwrap();
    s.load_account(addr(6), &mut db).unwrap();
    let before = snapshot(&s);
    assert_eq!(s.inc_nonce(addr(5)), None);
    assert_eq!(snapshot(&s), before);
    assert_eq!(s.inc_nonce(addr(6)), Some(u64::MAX));
    assert!(s.account(&addr(6)).unwrap().is_touched());
    assert_eq!(s.inc_nonce(addr(6)), None);
}

#[test]
fn set_code_installs_code_under_its_hash() {
    let mut db = sample_db();
    let mut s = prepared(SpecId::LATEST, &mut db);
    s.set_code(addr(1), Bytecode::new_raw(vec![1, 2, 3]));
    let account = s.account(&addr(1)).unwrap();
    assert_eq!(account.info.code_hash, keccak256(&[1, 2, 3]));
    assert_eq!(account.info.code.as_ref().unwrap().original_bytes(), &vec![1, 2, 3]);
    assert!(account.is_touched());
    s.set_code(addr(1), Bytecode::new());
    assert_eq!(s.account(&addr(1)).unwrap().info.code_hash, B256::keccak_empty());
}

#[test]
fn create_account_checkpoint_sets_up_the_account() {
    let mut db = sample_db();
    let mut s = prepared(SpecId::LATEST, &mut db);
    s.load_account(addr(9), &mut db).unwrap();
    let entries = s.journal.len();
    let cp = s.create_account_checkpoint(addr(1), addr(9), w(400), SpecId::LATEST).unwrap();
    assert_eq!(cp, JournalCheckpoint { log_i: 0, journal_i: entries });
    assert_eq!(s.depth(), 1);
    let created = s.account(&addr(9)).unwrap();
    assert_eq!(created.info.balance, w(400));
    assert_eq!(created.info.nonce, 1);
    assert!(created.is_created() && created.is_touched());
    assert!(created.status.well_formed_exec());
    assert_eq!(s.account(&addr(1)).unwrap().info.balance, w(600));
    s.checkpoint_revert(cp);
    let undone = s.account(&addr(9)).unwrap();
    assert_eq!((undone.info.balance, undone.info.nonce), (w(0), 0));
    assert!(!undone.is_created() && !undone.is_touched());
    assert_eq!(s.account(&addr(1)).unwrap().info.balance, w(1000));
}

#[test]
fn create_account_checkpoint_leaves_the_nonce_before_spurious_dragon() {
    let mut db = sample_db();
    let mut s = prepared(SpecId::HOMESTEAD, &mut db);
    s.load_account(addr(9), &mut db).unwrap();
    s.create_account_checkpoint(addr(1), addr(9), w(1), SpecId::TANGERINE).unwrap();
    assert_eq!(s.account(&addr(9)).unwrap().info.nonce, 0);
    let mut s = prepared(SpecId::HOMESTEAD, &mut db);
    s.load_account(addr(9), &mut db).unwrap();
    s.create_account_checkpoint(addr(1), addr(9), w(1), SpecId::SPURIOUS_DRAGON).unwrap();
    assert_eq!(s.account(&addr(9)).unwrap().info.nonce, 1);
}

#[test]
fn create_account_checkpoint_refuses_without_a_change() {
    let mut db = sample_db();
    db.insert_account_info(addr(5), AccountInfo::new(w(0), 1, B256::keccak_empty(), None));
    let mut s = prepared(SpecId::LATEST, &mut db);
    s.load_account(addr(3), &mut db).unwrap();
    s.load_account(addr(5), &mut db).unwrap();
    s.load_account(addr(9), &mut db).unwrap();
    let before = snapshot(&s);
    // A nonce at the address.
    assert_eq!(
        s.create_account_checkpoint(addr(1), addr(5), w(1), SpecId::LATEST),
        Err(InstructionResult::CreateCollision)
    );
    // Code at the address.
    assert_eq!(
        s.create_account_checkpoint(addr(1), addr(2), w(1), SpecId::LATEST),
        Err(InstructionResult::CreateCollision)
    );
    // A collision comes before the balance.
    assert_eq!(
        s.create_account_checkpoint(addr(1), addr(2), w(5000), SpecId::LATEST),
        Err(InstructionResult::CreateCollision)
    );
    assert_eq!(
        s.create_account_checkpoint(addr(1), addr(9), w(1001), SpecId::LATEST),
        Err(InstructionResult::OutOfFunds)
    );
    assert_eq!(
        s.create_account_checkpoint(addr(1), addr(3), w(1), SpecId::LATEST),
        Err(InstructionResult::OverflowPayment)
    );
    assert_eq!(snapshot(&s), before);
    assert!(s.create_account_checkpoint(addr(1), addr(9), w(1000), SpecId::LATEST).is_ok());
}

#[test]
fn selfdestruct_before_cancun_destroys_any_account() {
    let mut db = sample_db();
    let mut s = prepared(SpecId::SHANGHAI, &mut db);
    let res = s.selfdestruct(addr(2), addr(1), &mut db).unwrap();
    assert_eq!(
        res,
        SelfDestructResult { had_value: true, target_exists: true, is_cold: false, previously_destroyed: false }
    );
    let gone = s.account(&addr(2)).unwrap();
    assert!(gone.is_selfdestructed() && gone.is_touched());
    assert_eq!(gone.info.balance, w(0));
    assert_eq!(s.account(&addr(1)).unwrap().info.balance, w(1050));
    assert!(s.account(&addr(1)).unwrap().is_touched());
    let res = s.selfdestruct(addr(2), addr(9), &mut db).unwrap();
    assert_eq!(
        res,
        SelfDestructResult { had_value: false, target_exists: false, is_cold: true, previously_destroyed: true }
    );
}

#[test]
fn selfdestruct_from_cancun_only_moves_the_balance() {
    let mut db = sample_db();
    let mut s = prepared(SpecId::CANCUN, &mut db);
    let res = s.selfdestruct(addr(2), addr(1), &mut db).unwrap();
    assert_eq!(
        res,
        SelfDestructResult { had_value: true, target_exists: true, is_cold: false, previously_destroyed: false }
    );
    assert!(!s.account(&addr(2)).unwrap().is_selfdestructed());
    assert_eq!(s.account(&addr(2)).unwrap().info.balance, w(0));
    assert_eq!(s.account(&addr(1)).unwrap().info.balance, w(1050));
    assert!(matches!(s.journal.last(), Some(JournalEntry::BalanceTransfer { .. })));
}

#[test]
fn selfdestruct_to_itself() {
    let mut db = sample_db();
    // From Cancun on nothing happens to an account that was not just created.
    let mut s = prepared(SpecId::CANCUN, &mut db);
    let before = snapshot(&s);
    let res = s.selfdestruct(addr(2), addr(2), &mut db).unwrap();
    assert!(res.had_value && res.target_exists && !res.is_cold);
    assert_eq!(snapshot(&s), before);
    // Before, the balance is burnt.
    let mut s = prepared(SpecId::SHANGHAI, &mut db);
    s.selfdestruct(addr(2), addr(2), &mut db).unwrap();
    assert!(s.account(&addr(2)).unwrap().is_selfdestructed());
    assert_eq!(s.account(&addr(2)).unwrap().info.balance, w(0));
}

#[test]
fn selfdestruct_from_cancun_destroys_what_was_just_created() {
    let mut db = sample_db();
    let mut s = prepared(SpecId::CANCUN, &mut db);
    s.load_account(addr(9), &mut db).unwrap();
    s.create_account_checkpoint(addr(1), addr(9), w(10), SpecId::CANCUN).unwrap();
    s.selfdestruct(addr(9), addr(2), &mut db).unwrap();
    assert!(s.account(&addr(9)).unwrap().is_selfdestructed());
    assert_eq!(s.account(&addr(9)).unwrap().info.balance, w(0));
    assert_eq!(s.account(&addr(2)).unwrap().info.balance, w(60));
}

#[test]
fn initial_account_load_is_not_undone() {
    let mut db = sample_db();
    let mut s = fresh(SpecId::LATEST);
    let cp = s.checkpoint();
    s.initial_account_load(addr(1), &vec![w(7), w(8), w(7)], &mut db).unwrap();
    assert!(s.journal.is_empty());
    s.checkpoint_revert(cp);
    assert!(!s.load_account(addr(1), &mut db).unwrap().1);
    assert_eq!(s.sload(addr(1), w(7), &mut db).unwrap(), (w(77), false));
    assert_eq!(s.sload(addr(1), w(8), &mut db).unwrap(), (w(0), false));
    assert_eq!(s.sload(addr(1), w(9), &mut db).unwrap(), (w(0), true));
    assert!(s.journal.len() == 1);
}

#[test]
fn initial_account_load_keeps_what_is_cached() {
    let mut db = sample_db();
    let mut s = prepared(SpecId::LATEST, &mut db);
    s.sstore(addr(1), w(7), w(1), &mut db).unwrap();
    s.initial_account_load(addr(1), &vec![w(7), w(8)], &mut db).unwrap();
    assert_eq!(
        s.account(&addr(1)).unwrap().storage.get(&w(7)),
        Some(&StorageSlot { original_value: w(77), present_value: w(1), is_cold: false })
    );
    assert_eq!(s.account(&addr(1)).unwrap().storage.get(&w(8)), Some(&StorageSlot::new(w(0))));
}

/// A database that fails on every read.
struct Broken;

impl Database for Broken {
    type Error = u8;

    fn model(&self) -> DbModel {
        unreachable!()
    }

    fn basic(&mut self, _address: Address) -> Result<Option<AccountInfo>, u8> {
        Err(1)
    }

    fn code_by_hash(&mut self, _code_hash: B256) -> Result<Bytecode, u8> {
        Err(2)
    }

    fn storage(&mut self, _address: Address, _index: U256) -> Result<U256, u8> {
        Err(3)
    }

    fn block_hash(&mut self, _number: U256) -> Result<B256, u8> {
        Err(4)
    }
}

#[test]
fn a_failing_database_changes_nothing() {
    let mut db = sample_db();
    db.insert_account_info(addr(7), AccountInfo::new(w(0), 0, B256::new(1, 1), None));
    let mut s = prepared(SpecId::LATEST, &mut db);
    s.load_account(addr(7), &mut db).unwrap();
    let before = snapshot(&s);
    let mut broken = Broken;
    assert!(matches!(s.load_account(addr(9), &mut broken), Err(EVMError::Database(1))));
    assert!(matches!(s.load_account_exist(addr(9), &mut broken), Err(EVMError::Database(1))));
    assert!(matches!(s.load_code(addr(9), &mut broken), Err(EVMError::Database(1))));
    assert!(matches!(s.load_code(addr(7), &mut broken), Err(EVMError::Database(2))));
    assert!(matches!(s.sload(addr(1), w(7), &mut broken), Err(EVMError::Database(3))));
    assert!(matches!(s.sstore(addr(1), w(7), w(1), &mut broken), Err(EVMError::Database(3))));
    assert!(matches!(s.selfdestruct(addr(1), addr(9), &mut broken), Err(EVMError::Database(1))));
    assert!(matches!(
        s.initial_account_load(addr(1), &vec![w(7)], &mut broken),
        Err(EVMError::Database(1))
    ));
    assert_eq!(snapshot(&s), before);
    // What is cached needs no database.
    assert!(s.load_account(addr(1), &mut broken).is_ok());
    assert!(s.load_code(addr(2), &mut db).is_ok());
    assert!(s.load_code(addr(2), &mut broken).is_ok());
    assert!(s.selfdestruct(addr(1), addr(2), &mut broken).is_ok());
}

#[test]
fn table_keeps_one_value_for_each_key() {
    let mut t: Table<U256, U256> = Table::new();
    assert_eq!(t.insert(w(1), w(10)), None);
    assert_eq!(t.insert(w(2), w(20)), None);
    assert_eq!(t.insert(w(1), w(11)), Some(w(10)));
    assert_eq!(t.get(&w(1)), Some(&w(11)));
    assert!(t.contains_key(&w(2)) && !t.contains_key(&w(3)));
    let mut keys = t.keys();
    keys.sort_by_key(|k| k.lo);
    assert_eq!(keys, vec![w(1), w(2)]);
    assert_eq!(t.remove(&w(1)), Some(w(11)));
    assert_eq!(t.remove(&w(1)), None);
    assert_eq!(t.clone().get(&w(2)), Some(&w(20)));
    assert_eq!(t.get(&w(1)), None);
}

#[test]
fn in_memory_db_answers_with_defaults() {
    let mut db = sample_db();
    assert_eq!(db.basic(addr(1)).unwrap().unwrap().balance, w(1000));
    assert!(db.basic(addr(9)).unwrap().is_none());
    assert_eq!(db.storage(addr(1), w(7)).unwrap(), w(77));
    assert_eq!(db.storage(addr(1), w(8)).unwrap(), w(0));
    assert_eq!(db.code_by_hash(keccak256(&[0x60, 0x00])).unwrap().original_bytes(), &vec![0x60, 0x00]);
    assert!(db.code_by_hash(B256::new(1, 1)).unwrap().is_empty());
    db.insert_block_hash(w(3), B256::new(3, 3));
    assert_eq!(db.block_hash(w(3)).unwrap(), B256::new(3, 3));
    assert_eq!(db.block_hash(w(4)).unwrap(), B256::zero());
}

#[test]
fn finalize_hands_back_the_state_and_starts_afresh() {
    let mut db = sample_db();
    let mut s = prepared(SpecId::LATEST, &mut db);
    s.checkpoint();
    mutate(&mut s, &mut db);
    s.checkpoint_commit();
    let expected = snapshot(&s);
    let (state, logs) = s.finalize();
    assert_eq!(logs.len(), 1);
    assert_eq!(state.keys().len(), expected.0.len());
    assert_eq!(state.get(&addr(1)).unwrap().info.nonce, 6);
    // Account 9 was created and destroyed in the transaction: it leaves empty.
    let gone = state.get(&addr(9)).unwrap();
    assert!(gone.is_selfdestructed() && gone.is_empty());
    assert_eq!(gone.info.nonce, 0);
    assert!(gone.storage.keys().is_empty());
    // Account 2 only gave its balance away: it keeps its code.
    let kept = state.get(&addr(2)).unwrap();
    assert!(!kept.is_selfdestructed());
    assert_eq!(kept.info.nonce, 1);
    assert!(kept.info.code.is_some());
    assert_eq!(snapshot(&s), (vec![], 0, 0, 0));
    assert_eq!(s.tload(addr(2), w(1)), w(0));
    assert!(s.load_account(addr(1), &mut db).unwrap().1);
}
