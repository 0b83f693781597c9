//! The state of a running transaction: a cache of accounts over the database,
//! with a journal of every change so that a frame that fails can be undone.

use vstd::prelude::*;
use crate::account::{code_view, Account, AccountInfo, StorageSlot};
use crate::bytecode::Bytecode;
use crate::db::Database;
use crate::error::EVMError;
use crate::interpreter::{InstructionResult, LoadAccountResult, SStoreResult, SelfDestructResult};
use crate::journal_model::{zero, EntryModel, JournalCheckpoint, JournalModel, LogModel};
use crate::primitives::{Address, SlotKey, B256, U256};
use crate::spec_id::SpecId;
use crate::table::{Table, TableKey};

verus! {

/// A log record.
#[derive(Debug)]
pub struct Log {
    pub address: Address,
    pub topics: Vec<B256>,
    pub data: Vec<u8>,
}

impl View for Log {
    type V = LogModel;

    open spec fn view(&self) -> LogModel {
        LogModel { address: self.address, topics: self.topics@, data: self.data@ }
    }
}

impl Clone for Log {
    fn clone(&self) -> (r: Self)
        ensures
            r@ == self@,
    {
        Log { address: self.address, topics: self.topics.clone(), data: self.data.clone() }
    }
}

/// One reversible change, with what is needed to undo it.
#[derive(Debug)]
#[allow(inconsistent_fields)]
pub enum JournalEntry {
    AccountWarmed { address: Address },
    AccountDestroyed { address: Address, target: Address, was_destroyed: bool, had_balance: U256 },
    AccountTouched { address: Address },
    BalanceTransfer { from: Address, to: Address, balance: U256 },
    NonceChange { address: Address, old: u64 },
    AccountCreated { address: Address },
    AccountLoaded { address: Address },
    StorageChange { address: Address, key: U256, had_value: Option<U256> },
    StorageWarmed { address: Address, key: U256 },
    TransientStorageChange { address: Address, key: U256, had_value: U256 },
    CodeChange { address: Address, prev_code_hash: B256, prev_code: Option<Bytecode> },
}

impl View for JournalEntry {
    type V = EntryModel;

    open spec fn view(&self) -> EntryModel {
        match *self {
            JournalEntry::AccountWarmed { address } => EntryModel::AccountWarmed { address },
            JournalEntry::AccountDestroyed {
                address,
                target,
                was_destroyed,
                had_balance,
            } => EntryModel::AccountDestroyed { address, target, was_destroyed, had_balance },
            JournalEntry::AccountTouched { address } => EntryModel::AccountTouched { address },
            JournalEntry::BalanceTransfer { from, to, balance } => EntryModel::BalanceTransfer {
                from,
                to,
                balance,
            },
            JournalEntry::NonceChange { address, old } => EntryModel::NonceChange { address, old },
            JournalEntry::AccountCreated { address } => EntryModel::AccountCreated { address },
            JournalEntry::AccountLoaded { address } => EntryModel::AccountLoaded { address },
            JournalEntry::StorageChange { address, key, had_value } => EntryModel::StorageChange {
                address,
                key,
                had_value,
            },
            JournalEntry::StorageWarmed { address, key } => EntryModel::StorageWarmed {
                address,
                key,
            },
            JournalEntry::TransientStorageChange {
                address,
                key,
                had_value,
            } => EntryModel::TransientStorageChange { address, key, had_value },
            JournalEntry::CodeChange { address, prev_code_hash, prev_code } => EntryModel::CodeChange {
                address,
                prev_code_hash,
                prev_code: code_view(prev_code),
            },
        }
    }
}

/// Storage that lasts for one transaction. Every slot has a value, zero unless
/// written.
#[derive(Debug)]
pub struct TransientStorage {
    slots: Table<SlotKey, U256>,
}

impl View for TransientStorage {
    type V = Map<SlotKey, U256>;

    closed spec fn view(&self) -> Map<SlotKey, U256> {
        Map::total(
            |k: SlotKey|
                if self.slots@.contains_key(k) {
                    self.slots@[k]
                } else {
                    zero()
                },
        )
    }
}

impl Clone for TransientStorage {
    fn clone(&self) -> (r: Self)
        ensures
            r@ == self@,
    {
        TransientStorage { slots: self.slots.clone() }
    }
}

impl TransientStorage {
    /// Every slot has a value.
    pub proof fn lemma_total(&self)
        ensures
            forall|k: SlotKey| self@.contains_key(k),
    {
    }

    /// Storage in which every slot is zero.
    pub fn new() -> (r: TransientStorage)
        ensures
            r@ == Map::total(|k: SlotKey| zero()),
    {
        let r = TransientStorage { slots: Table::new() };
        assert(r@ =~= Map::total(|k: SlotKey| zero()));
        r
    }

    /// The value of a slot.
    pub fn get(&self, k: &SlotKey) -> (v: U256)
        ensures
            v == self@[*k],
    {
        match self.slots.get(k) {
            Some(value) => *value,
            None => U256::zero(),
        }
    }

    /// Writes a slot.
    pub fn set(&mut self, k: SlotKey, v: U256)
        ensures
            final(self)@ == old(self)@.insert(k, v),
    {
        if v.is_zero() {
            self.slots.remove(&k);
        } else {
            self.slots.insert(k, v);
        }
        assert(self@ =~= old(self)@.insert(k, v));
    }
}

/// A set of addresses.
#[derive(Debug)]
pub struct AddressSet {
    items: Vec<Address>,
}

impl View for AddressSet {
    type V = Set<Address>;

    closed spec fn view(&self) -> Set<Address> {
        Set::new(|a: Address| self.items@.contains(a))
    }
}

impl Clone for AddressSet {
    fn clone(&self) -> (r: Self)
        ensures
            r@ == self@,
    {
        let r = AddressSet { items: self.items.clone() };
        assert(r@ =~= self@);
        r
    }
}

impl AddressSet {
    /// The empty set.
    pub fn new() -> (r: AddressSet)
        ensures
            r@ == Set::<Address>::empty(),
    {
        let r = AddressSet { items: Vec::new() };
        assert(r@ =~= Set::<Address>::empty());
        r
    }

    pub fn contains(&self, a: &Address) -> (r: bool)
        ensures
            r == self@.contains(*a),
    {
        let mut i: usize = 0;
        while i < self.items.len()
            invariant
                i <= self.items@.len(),
                forall|j: int| 0 <= j < i ==> self.items@[j] != *a,
            decreases self.items@.len() - i,
        {
            if self.items[i].same(a) {
                return true;
            }
            i += 1;
        }
        false
    }

    pub fn insert(&mut self, a: Address)
        ensures
            final(self)@ == old(self)@.insert(a),
    {
        self.items.push(a);
        proof {
            assert forall|x: Address| self.items@.contains(x) <==> (old(self).items@.contains(x)
                || x == a) by {
                if old(self).items@.contains(x) {
                    let j = choose|j: int| 0 <= j < old(self).items@.len() && old(self).items@[j]
                        == x;
                    assert(self.items@[j] == x);
                }
                if x == a {
                    assert(self.items@[self.items@.len() - 1] == a);
                }
            }
            assert(self@ =~= old(self)@.insert(a));
        }
    }
}

/// The state of a running transaction.
#[derive(Debug)]
pub struct JournaledState {
    /// The accounts in the cache.
    pub state: Table<Address, Account>,
    pub transient_storage: TransientStorage,
    pub logs: Vec<Log>,
    /// The number of checkpoints that are open.
    pub depth: usize,
    /// The changes made so far, oldest first.
    pub journal: Vec<JournalEntry>,
    pub spec: SpecId,
    /// The addresses that count as warm before they are first read.
    pub warm_preloaded_addresses: AddressSet,
}

impl View for JournaledState {
    type V = JournalModel;

    open spec fn view(&self) -> JournalModel {
        JournalModel {
            accounts: self.state@,
            transient: self.transient_storage@,
            logs: self.logs@.map_values(|l: Log| l@),
            depth: self.depth as nat,
            journal: self.journal@.map_values(|e: JournalEntry| e@),
            spec: self.spec,
            warm_preloaded: self.warm_preloaded_addresses@,
        }
    }
}

impl Clone for JournalEntry {
    fn clone(&self) -> (r: Self)
        ensures
            r@ == self@,
    {
        match self {
            JournalEntry::AccountWarmed { address } => JournalEntry::AccountWarmed {
                address: *address,
            },
            JournalEntry::AccountDestroyed {
                address,
                target,
                was_destroyed,
                had_balance,
            } => JournalEntry::AccountDestroyed {
                address: *address,
                target: *target,
                was_destroyed: *was_destroyed,
                had_balance: *had_balance,
            },
            JournalEntry::AccountTouched { address } => JournalEntry::AccountTouched {
                address: *address,
            },
            JournalEntry::BalanceTransfer { from, to, balance } => JournalEntry::BalanceTransfer {
                from: *from,
                to: *to,
                balance: *balance,
            },
            JournalEntry::NonceChange { address, old } => JournalEntry::NonceChange {
                address: *address,
                old: *old,
            },
            JournalEntry::AccountCreated { address } => JournalEntry::AccountCreated {
                address: *address,
            },
            JournalEntry::AccountLoaded { address } => JournalEntry::AccountLoaded {
                address: *address,
            },
            JournalEntry::StorageChange { address, key, had_value } => JournalEntry::StorageChange {
                address: *address,
                key: *key,
                had_value: *had_value,
            },
            JournalEntry::StorageWarmed { address, key } => JournalEntry::StorageWarmed {
                address: *address,
                key: *key,
            },
            JournalEntry::TransientStorageChange {
                address,
                key,
                had_value,
            } => JournalEntry::TransientStorageChange {
                address: *address,
                key: *key,
                had_value: *had_value,
            },
            JournalEntry::CodeChange { address, prev_code_hash, prev_code } => JournalEntry::CodeChange {
                address: *address,
                prev_code_hash: *prev_code_hash,
                prev_code: crate::account::clone_code(prev_code),
            },
        }
    }
}

impl Clone for JournaledState {
    fn clone(&self) -> (r: Self)
        ensures
            r@ == self@,
    {
        let mut logs: Vec<Log> = Vec::new();
        let mut i: usize = 0;
        while i < self.logs.len()
            invariant
                i <= self.logs@.len(),
                logs@.len() == i,
                forall|j: int| 0 <= j < i ==> logs@[j]@ == self.logs@[j]@,
            decreases self.logs@.len() - i,
        {
            logs.push(self.logs[i].clone());
            i += 1;
        }
        let mut journal: Vec<JournalEntry> = Vec::new();
        let mut i: usize = 0;
        while i < self.journal.len()
            invariant
                i <= self.journal@.len(),
                journal@.len() == i,
                forall|j: int| 0 <= j < i ==> journal@[j]@ == self.journal@[j]@,
            decreases self.journal@.len() - i,
        {
            journal.push(self.journal[i].clone());
            i += 1;
        }
        let r = JournaledState {
            state: self.state.clone(),
            transient_storage: self.transient_storage.clone(),
            logs,
            depth: self.depth,
            journal,
            spec: self.spec,
            warm_preloaded_addresses: self.warm_preloaded_addresses.clone(),
        };
        assert(r@ =~~= self@);
        r
    }
}

impl JournaledState {
    /// The view of a state is well formed.
    pub proof fn lemma_well_formed(&self)
        ensures
            self@.well_formed(),
    {
        self.transient_storage.lemma_total();
        assert(self.journal.len() <= usize::MAX);
        assert(self.logs.len() <= usize::MAX);
        assert(self@.journal.len() == self.journal.len());
        assert(self@.logs.len() == self.logs.len());
    }

    /// The state at the start of a transaction: nothing cached, nothing written.
    pub fn new(spec: SpecId, warm_preloaded_addresses: AddressSet) -> (r: JournaledState)
        ensures
            r@ == JournalModel::initial(spec, warm_preloaded_addresses@),
    {
        let r = JournaledState {
            state: Table::new(),
            transient_storage: TransientStorage::new(),
            logs: Vec::new(),
            depth: 0,
            journal: Vec::new(),
            spec,
            warm_preloaded_addresses,
        };
        assert(r@ =~~= JournalModel::initial(spec, warm_preloaded_addresses@));
        r
    }

    /// Ends the transaction: hands back the accounts and the logs, and leaves the
    /// state as it is at the start of a transaction, with nothing cached, the
    /// transient storage cleared and the journal empty. An account that is
    /// marked for destruction is emptied only now.
    pub fn finalize(&mut self) -> (r: (Table<Address, Account>, Vec<Log>))
        ensures
            r.0@ == old(self)@.settled_accounts(),
            r.1@.map_values(|l: Log| l@) == old(self)@.logs,
            final(self)@ == JournalModel::initial(old(self)@.spec, old(self)@.warm_preloaded),
    {
        let mut state: Table<Address, Account> = Table::new();
        core::mem::swap(&mut state, &mut self.state);
        let ghost before = state@;
        let keys = state.keys();
        let mut i: usize = 0;
        while i < keys.len()
            invariant
                i <= keys@.len(),
                before == old(self)@.accounts,
                forall|a: Address| keys@.contains(a) <==> #[trigger] before.contains_key(a),
                forall|a: Address| state@.contains_key(a) <==> #[trigger] before.contains_key(a),
                forall|a: Address| #[trigger]
                    before.contains_key(a) ==> state@[a] == if keys@.subrange(0, i as int).contains(
                        a,
                    ) {
                        before[a].settled()
                    } else {
                        before[a]
                    },
            decreases keys@.len() - i,
        {
            let a = keys[i];
            proof {
                assert(keys@.contains(a));
                assert(before.contains_key(a));
                assert(state@.contains_key(a));
                let done = keys@.subrange(0, i as int);
                let next = keys@.subrange(0, i + 1);
                assert forall|x: Address| next.contains(x) <==> (done.contains(x) || x == a) by {
                    if done.contains(x) {
                        let j = choose|j: int| 0 <= j < done.len() && done[j] == x;
                        assert(next[j] == x);
                    }
                    if x == a {
                        assert(next[i as int] == x);
                    }
                    if next.contains(x) {
                        let j = choose|j: int| 0 <= j < next.len() && next[j] == x;
                        if j < i {
                            assert(done[j] == x);
                        }
                    }
                }
            }
            let status = state.get(&a).unwrap().status;
            if status.self_destructed {
                state.insert(a, Account { info: AccountInfo::empty(), storage: Table::new(), status });
            }
            i += 1;
        }
        proof {
            assert(keys@.subrange(0, i as int) =~= keys@);
            assert(state@ =~= old(self)@.settled_accounts());
        }
        let mut logs: Vec<Log> = Vec::new();
        core::mem::swap(&mut logs, &mut self.logs);
        self.transient_storage = TransientStorage::new();
        self.journal = Vec::new();
        self.depth = 0;
        assert(self@ =~~= JournalModel::initial(old(self)@.spec, old(self)@.warm_preloaded));
        (state, logs)
    }

    /// The number of checkpoints that are open.
    pub fn depth(&self) -> (r: u64)
        ensures
            r == self@.depth,
    {
        self.depth as u64
    }

    /// Sets the hard fork whose rules apply.
    pub fn set_spec_id(&mut self, spec: SpecId)
        ensures
            final(self)@ == (JournalModel { spec, ..old(self)@ }),
    {
        self.spec = spec;
    }

    /// The account at `a`, if it is cached.
    pub fn account(&self, a: &Address) -> (r: Option<&Account>)
        ensures
            match r {
                Some(account) => self@.has(*a) && account@ == self@.accounts[*a],
                None => !self@.has(*a),
            },
    {
        self.state.get(a)
    }

    fn take_account(&mut self, a: &Address) -> (r: Option<Account>)
        ensures
            match r {
                Some(account) => old(self)@.has(*a) && account@ == old(self)@.accounts[*a]
                    && final(self)@ == (JournalModel {
                    accounts: old(self)@.accounts.remove(*a),
                    ..old(self)@
                }),
                None => !old(self)@.has(*a) && final(self)@ == old(self)@,
            },
    {
        let r = self.state.remove(a);
        proof {
            if r is None {
                assert(self@.accounts =~= old(self)@.accounts);
            }
        }
        r
    }

    fn put_account(&mut self, a: Address, account: Account)
        ensures
            final(self)@ == (JournalModel {
                accounts: old(self)@.accounts.insert(a, account@),
                ..old(self)@
            }),
    {
        self.state.insert(a, account);
    }

    fn record(&mut self, e: JournalEntry)
        ensures
            final(self)@ == old(self)@.record(e@),
    {
        self.journal.push(e);
        assert(self@.journal =~= old(self)@.journal.push(e@));
    }

    /// Opens a checkpoint and hands back the place to go back to.
    pub fn checkpoint(&mut self) -> (cp: JournalCheckpoint)
        requires
            old(self).depth < usize::MAX,
        ensures
            cp == old(self)@.checkpoint_handle(),
            final(self)@ == old(self)@.checkpoint(),
    {
        let cp = JournalCheckpoint { log_i: self.logs.len(), journal_i: self.journal.len() };
        self.depth = self.depth + 1;
        cp
    }

    /// Closes the innermost checkpoint and keeps what was done since.
    pub fn checkpoint_commit(&mut self)
        requires
            old(self)@.depth > 0,
        ensures
            final(self)@ == old(self)@.commit(),
    {
        self.depth = self.depth - 1;
    }

    fn credit(&mut self, a: &Address, amount: &U256)
        ensures
            final(self)@ == old(self)@.credit(*a, *amount),
    {
        match self.take_account(a) {
            Some(mut account) => {
                account.info.balance = account.info.balance.wrapping_add(amount);
                self.put_account(*a, account);
                assert(self@ =~~= old(self)@.credit(*a, *amount));
            },
            None => {},
        }
    }

    fn debit(&mut self, a: &Address, amount: &U256)
        ensures
            final(self)@ == old(self)@.debit(*a, *amount),
    {
        match self.take_account(a) {
            Some(mut account) => {
                account.info.balance = account.info.balance.wrapping_sub(amount);
                self.put_account(*a, account);
                assert(self@ =~~= old(self)@.debit(*a, *amount));
            },
            None => {},
        }
    }

    /// Takes back the change that `entry` stands for.
    fn undo_entry(&mut self, entry: JournalEntry)
        ensures
            final(self)@ == old(self)@.undo(entry@),
    {
        match entry {
            JournalEntry::AccountWarmed { address } => {
                match self.take_account(&address) {
                    Some(mut account) => {
                        account.status.warm_access = false;
                        self.put_account(address, account);
                    },
                    None => {},
                }
            },
            JournalEntry::AccountLoaded { address } => {
                self.state.remove(&address);
            },
            JournalEntry::AccountTouched { address } => {
                match self.take_account(&address) {
                    Some(mut account) => {
                        account.status.touched = false;
                        self.put_account(address, account);
                    },
                    None => {},
                }
            },
            JournalEntry::AccountCreated { address } => {
                match self.take_account(&address) {
                    Some(mut account) => {
                        account.status.created = false;
                        self.put_account(address, account);
                    },
                    None => {},
                }
            },
            JournalEntry::NonceChange { address, old } => {
                match self.take_account(&address) {
                    Some(mut account) => {
                        account.info.nonce = old;
                        self.put_account(address, account);
                    },
                    None => {},
                }
            },
            JournalEntry::BalanceTransfer { from, to, balance } => {
                self.credit(&from, &balance);
                self.debit(&to, &balance);
            },
            JournalEntry::AccountDestroyed { address, target, was_destroyed, had_balance } => {
                match self.take_account(&address) {
                    Some(mut account) => {
                        account.status.self_destructed = was_destroyed;
                        self.put_account(address, account);
                        assert(self@ =~~= old(self)@.with_account(
                            address,
                            old(self)@.accounts[address].with_destroyed(was_destroyed),
                        ));
                        self.credit(&address, &had_balance);
                    },
                    None => {},
                }
                if !address.same(&target) {
                    self.debit(&target, &had_balance);
                }
            },
            JournalEntry::StorageChange { address, key, had_value } => {
                match self.take_account(&address) {
                    Some(mut account) => {
                        match had_value {
                            Some(value) => {
                                match account.storage.remove(&key) {
                                    Some(mut slot) => {
                                        slot.present_value = value;
                                        account.storage.insert(key, slot);
                                    },
                                    None => {},
                                }
                            },
                            None => {
                                account.storage.remove(&key);
                            },
                        }
                        proof {
                            let before = old(self)@.accounts[address];
                            if !before.storage.contains_key(key) {
                                assert(account@.storage =~= before.storage);
                            }
                        }
                        self.put_account(address, account);
                    },
                    None => {},
                }
            },
            JournalEntry::StorageWarmed { address, key } => {
                match self.take_account(&address) {
                    Some(mut account) => {
                        match account.storage.remove(&key) {
                            Some(mut slot) => {
                                slot.is_cold = true;
                                account.storage.insert(key, slot);
                            },
                            None => {},
                        }
                        proof {
                            let before = old(self)@.accounts[address];
                            if !before.storage.contains_key(key) {
                                assert(account@.storage =~= before.storage);
                            }
                        }
                        self.put_account(address, account);
                    },
                    None => {},
                }
            },
            JournalEntry::TransientStorageChange { address, key, had_value } => {
                self.transient_storage.set(SlotKey { address, index: key }, had_value);
            },
            JournalEntry::CodeChange { address, prev_code_hash, prev_code } => {
                match self.take_account(&address) {
                    Some(mut account) => {
                        account.info.code_hash = prev_code_hash;
                        account.info.code = prev_code;
                        self.put_account(address, account);
                    },
                    None => {},
                }
            },
        }
        assert(self@ =~~= old(self)@.undo(entry@));
    }

    /// Goes back to `checkpoint`: undoes every change made since, the last
    /// first, drops the logs written since, and closes the innermost checkpoint.
    pub fn checkpoint_revert(&mut self, checkpoint: JournalCheckpoint)
        requires
            old(self)@.can_revert(checkpoint),
        ensures
            final(self)@ == old(self)@.revert(checkpoint),
    {
        self.depth = self.depth - 1;
        let ghost start = self@;
        while self.journal.len() > checkpoint.journal_i
            invariant
                self@.rollback(checkpoint.journal_i as nat) == start.rollback(
                    checkpoint.journal_i as nat,
                ),
                self@.logs == start.logs,
                self@.depth == start.depth,
            decreases self.journal@.len(),
        {
            let ghost before = self@;
            match self.journal.pop() {
                Some(entry) => {
                    assert(self@.journal =~= before.journal.drop_last());
                    assert(entry@ == before.journal.last());
                    self.undo_entry(entry);
                    assert(self@ =~~= before.undo_last());
                },
                None => {},
            }
        }
        self.logs.truncate(checkpoint.log_i);
        proof {
            let n = checkpoint.journal_i as nat;
            crate::journal_laws::lemma_rollback_frame(
                old(self)@,
                n,
                old(self)@.logs,
                (old(self)@.depth - 1) as nat,
            );
            assert(self@.logs =~= old(self)@.rollback(n).logs.subrange(0, checkpoint.log_i as int)) by {
                crate::journal_laws::lemma_rollback_twice(old(self)@, n, n);
            }
            assert(self@ =~~= old(self)@.revert(checkpoint));
        }
    }

    /// Marks `a` as touched, if it is cached.
    pub fn touch(&mut self, a: &Address)
        ensures
            final(self)@ == old(self)@.touch(*a),
    {
        match self.take_account(a) {
            Some(mut account) => {
                let fresh = !account.status.touched;
                account.status.touched = true;
                self.put_account(*a, account);
                if fresh {
                    self.record(JournalEntry::AccountTouched { address: *a });
                }
                assert(self@ =~~= old(self)@.touch(*a));
            },
            None => {},
        }
    }

    /// The value of a transient slot.
    pub fn tload(&self, address: Address, key: U256) -> (value: U256)
        ensures
            value == self@.tload(address, key),
    {
        self.transient_storage.get(&SlotKey { address, index: key })
    }

    /// Writes a transient slot.
    pub fn tstore(&mut self, address: Address, key: U256, new: U256)
        ensures
            final(self)@ == old(self)@.tstore(address, key, new),
    {
        let k = SlotKey { address, index: key };
        let had_value = self.transient_storage.get(&k);
        if !had_value.same(&new) {
            self.transient_storage.set(k, new);
            self.record(JournalEntry::TransientStorageChange { address, key, had_value });
        }
    }

    /// Appends a log.
    pub fn log(&mut self, log: Log)
        ensures
            final(self)@ == old(self)@.log(log@),
    {
        self.logs.push(log);
        assert(self@.logs =~= old(self)@.logs.push(log@));
    }

    /// Raises the nonce of `a` by one and hands back the new nonce, or `None`
    /// where the nonce is the largest there is.
    pub fn inc_nonce(&mut self, a: Address) -> (r: Option<u64>)
        requires
            old(self)@.has(a),
        ensures
            final(self)@ == old(self)@.inc_nonce(a),
            r == if old(self)@.can_inc_nonce(a) {
                Some((old(self)@.accounts[a].info.nonce + 1) as u64)
            } else {
                None
            },
    {
        let nonce: u64 = self.state.get(&a).unwrap().info.nonce;
        if nonce == u64::MAX {
            return None;
        }
        self.touch(&a);
        match self.take_account(&a) {
            Some(mut account) => {
                account.info.nonce = nonce + 1;
                self.put_account(a, account);
            },
            None => {},
        }
        self.record(JournalEntry::NonceChange { address: a, old: nonce });
        assert(self@ =~~= old(self)@.inc_nonce(a));
        Some(nonce + 1)
    }

    /// Installs `code` at `a` under its hash.
    pub fn set_code(&mut self, a: Address, code: Bytecode)
        requires
            old(self)@.has(a),
        ensures
            final(self)@ == old(self)@.set_code(a, code@),
    {
        self.touch(&a);
        match self.take_account(&a) {
            Some(mut account) => {
                let prev_code_hash = account.info.code_hash;
                let hash = code.hash_slow();
                account.info.code_hash = hash;
                let mut prev_code: Option<Bytecode> = Some(code);
                core::mem::swap(&mut prev_code, &mut account.info.code);
                self.put_account(a, account);
                self.record(JournalEntry::CodeChange { address: a, prev_code_hash, prev_code });
            },
            None => {},
        }
        assert(self@ =~~= old(self)@.set_code(a, code@));
    }

    /// Loads `address` into the cache and makes it warm. The database is read
    /// only where the account is not cached. Hands back the account and whether
    /// the access was cold.
    pub fn load_account<DB: Database>(&mut self, address: Address, db: &mut DB) -> (r: Result<
        (&Account, bool),
        EVMError<DB::Error>,
    >)
        ensures
            final(db).model() == old(db).model(),
            match r {
                Ok((account, is_cold)) => {
                    &&& final(self)@ == old(self)@.load_account(
                        address,
                        old(db).model().account(address),
                    )
                    &&& is_cold == old(self)@.is_cold(address)
                    &&& final(self)@.has(address)
                    &&& account@ == final(self)@.accounts[address]
                },
                Err(e) => final(self)@ == old(self)@ && !old(self)@.has(address) && e is Database,
            },
            old(self)@.has(address) ==> r is Ok,
    {
        let is_cold: bool = self.warm_account(address, db)?;
        Ok((self.state.get(&address).unwrap(), is_cold))
    }

    /// Loads `address` into the cache and makes it warm; says whether the access
    /// was cold.
    fn warm_account<DB: Database>(&mut self, address: Address, db: &mut DB) -> (r: Result<
        bool,
        EVMError<DB::Error>,
    >)
        ensures
            final(db).model() == old(db).model(),
            match r {
                Ok(is_cold) => {
                    &&& final(self)@ == old(self)@.load_account(
                        address,
                        old(db).model().account(address),
                    )
                    &&& is_cold == old(self)@.is_cold(address)
                    &&& final(self)@.has(address)
                },
                Err(e) => final(self)@ == old(self)@ && !old(self)@.has(address) && e is Database,
            },
            old(self)@.has(address) ==> r is Ok,
    {
        let cached: Option<bool> = match self.state.get(&address) {
            Some(account) => Some(account.status.warm_access),
            None => None,
        };
        match cached {
            Some(true) => Ok(false),
            Some(false) => {
                match self.take_account(&address) {
                    Some(mut account) => {
                        account.status.warm_access = true;
                        self.put_account(address, account);
                    },
                    None => {},
                }
                self.record(JournalEntry::AccountWarmed { address });
                assert(self@ =~~= old(self)@.load_account(
                    address,
                    old(db).model().account(address),
                ));
                Ok(true)
            },
            None => {
                let info = match db.basic(address) {
                    Ok(info) => info,
                    Err(e) => {
                        return Err(EVMError::Database(e));
                    },
                };
                let account = Account::fetched(info);
                let is_cold = !self.warm_preloaded_addresses.contains(&address);
                self.put_account(address, account);
                self.record(JournalEntry::AccountLoaded { address });
                Ok(is_cold)
            },
        }
    }

    /// Loads `address` and says whether the access was cold and whether the
    /// account is anything but empty.
    pub fn load_account_exist<DB: Database>(&mut self, address: Address, db: &mut DB) -> (r: Result<
        LoadAccountResult,
        EVMError<DB::Error>,
    >)
        ensures
            final(db).model() == old(db).model(),
            match r {
                Ok(res) => {
                    &&& final(self)@ == old(self)@.load_account(
                        address,
                        old(db).model().account(address),
                    )
                    &&& res == old(self)@.load_account_exist_result(
                        address,
                        old(db).model().account(address),
                    )
                },
                Err(e) => final(self)@ == old(self)@ && !old(self)@.has(address) && e is Database,
            },
            old(self)@.has(address) ==> r is Ok,
    {
        let (account, is_cold) = self.load_account(address, db)?;
        Ok(LoadAccountResult { is_cold, exists: !account.is_empty() })
    }

    /// Loads `address` and resolves its code: empty code for an account
    /// without, else what the database holds under the code hash.
    pub fn load_code<DB: Database>(&mut self, address: Address, db: &mut DB) -> (r: Result<
        (&Account, bool),
        EVMError<DB::Error>,
    >)
        ensures
            final(db).model() == old(db).model(),
            match r {
                Ok((account, is_cold)) => {
                    &&& final(self)@ == old(self)@.load_code(
                        address,
                        old(db).model().account(address),
                        old(db).model().code(
                            old(self)@.load_account(
                                address,
                                old(db).model().account(address),
                            ).accounts[address].info.code_hash,
                        ),
                    )
                    &&& is_cold == old(self)@.is_cold(address)
                    &&& final(self)@.has(address)
                    &&& account@ == final(self)@.accounts[address]
                    &&& account@.info.code is Some
                },
                Err(e) => {
                    &&& e is Database
                    &&& (!old(self)@.has(address) && final(self)@ == old(self)@) || (old(
                        self,
                    )@.needs_code(address, old(db).model().account(address)) && final(self)@
                        == old(self)@.load_account(address, old(db).model().account(address)))
                },
            },
            old(self)@.has(address) && !old(self)@.needs_code(
                address,
                old(db).model().account(address),
            ) ==> r is Ok,
    {
        let is_cold: bool = self.warm_account(address, db)?;
        let ghost loaded = self@;
        let account = self.state.get(&address).unwrap();
        let missing: Option<B256> = if account.info.code.is_none() {
            Some(account.info.code_hash)
        } else {
            None
        };
        match missing {
            Some(code_hash) => {
                let code = if code_hash.is_zero() || code_hash == B256::keccak_empty() {
                    Bytecode::new()
                } else {
                    match db.code_by_hash(code_hash) {
                        Ok(code) => code,
                        Err(e) => {
                            return Err(EVMError::Database(e));
                        },
                    }
                };
                match self.take_account(&address) {
                    Some(mut account) => {
                        account.info.code = Some(code);
                        self.put_account(address, account);
                    },
                    None => {},
                }
                self.record(
                    JournalEntry::CodeChange { address, prev_code_hash: code_hash, prev_code: None },
                );
                assert(self@ =~~= loaded.load_code(
                    address,
                    old(db).model().account(address),
                    old(db).model().code(code_hash),
                )) by {
                    assert(loaded.load_account(address, old(db).model().account(address))
                        == loaded);
                }
                assert(old(self)@.load_account(address, old(db).model().account(address)).load_account(address, old(db).model().account(address)) == loaded);
            },
            None => {},
        }
        Ok((self.state.get(&address).unwrap(), is_cold))
    }

    /// Reads a slot of a cached account and makes it warm. The database is read
    /// only where the slot is not cached and the account was not created in this
    /// transaction. Hands back the value and whether the access was cold.
    pub fn sload<DB: Database>(&mut self, address: Address, key: U256, db: &mut DB) -> (r: Result<
        (U256, bool),
        EVMError<DB::Error>,
    >)
        requires
            old(self)@.has(address),
        ensures
            final(db).model() == old(db).model(),
            match r {
                Ok(res) => {
                    &&& final(self)@ == old(self)@.sload(
                        address,
                        key,
                        old(db).model().slot(address, key),
                    )
                    &&& res == old(self)@.sload_result(
                        address,
                        key,
                        old(db).model().slot(address, key),
                    )
                },
                Err(e) => final(self)@ == old(self)@ && old(self)@.needs_slot(address, key)
                    && e is Database,
            },
            !old(self)@.needs_slot(address, key) ==> r is Ok,
    {
        let ghost fetched = old(db).model().slot(address, key);
        // What the cache holds of the slot, and whether the account was created.
        let account = self.state.get(&address).unwrap();
        let created: bool = account.status.created;
        let cached: Option<StorageSlot> = match account.storage.get(&key) {
            Some(slot) => Some(*slot),
            None => None,
        };
        match cached {
            Some(slot) => {
                if slot.is_cold {
                    match self.take_account(&address) {
                        Some(mut account) => {
                            account.storage.insert(key, StorageSlot { is_cold: false, ..slot });
                            self.put_account(address, account);
                        },
                        None => {},
                    }
                    self.record(JournalEntry::StorageWarmed { address, key });
                    assert(self@ =~~= old(self)@.sload(address, key, fetched));
                }
                Ok((slot.present_value, slot.is_cold))
            },
            None => {
                let value = if created {
                    U256::zero()
                } else {
                    match db.storage(address, key) {
                        Ok(value) => value,
                        Err(e) => {
                            return Err(EVMError::Database(e));
                        },
                    }
                };
                match self.take_account(&address) {
                    Some(mut account) => {
                        account.storage.insert(key, StorageSlot::new(value));
                        self.put_account(address, account);
                    },
                    None => {},
                }
                self.record(JournalEntry::StorageChange { address, key, had_value: None });
                assert(self@ =~~= old(self)@.sload(address, key, fetched));
                Ok((value, true))
            },
        }
    }

    /// Writes a slot of a cached account, after reading it. Hands back the three
    /// values that price the write and whether the access was cold.
    pub fn sstore<DB: Database>(
        &mut self,
        address: Address,
        key: U256,
        new: U256,
        db: &mut DB,
    ) -> (r: Result<SStoreResult, EVMError<DB::Error>>)
        requires
            old(self)@.has(address),
        ensures
            final(db).model() == old(db).model(),
            match r {
                Ok(res) => {
                    &&& final(self)@ == old(self)@.sstore(
                        address,
                        key,
                        new,
                        old(db).model().slot(address, key),
                    )
                    &&& res == old(self)@.sstore_result(
                        address,
                        key,
                        new,
                        old(db).model().slot(address, key),
                    )
                },
                Err(e) => final(self)@ == old(self)@ && old(self)@.needs_slot(address, key)
                    && e is Database,
            },
            !old(self)@.needs_slot(address, key) ==> r is Ok,
    {
        let ghost fetched = old(db).model().slot(address, key);
        let (present, is_cold) = self.sload(address, key, db)?;
        let ghost loaded = self@;
        let slot: StorageSlot = *self.state.get(&address).unwrap().storage.get(&key).unwrap();
        if !slot.present_value.same(&new) {
            match self.take_account(&address) {
                Some(mut account) => {
                    account.storage.insert(key, StorageSlot { present_value: new, ..slot });
                    self.put_account(address, account);
                },
                None => {},
            }
            self.record(
                JournalEntry::StorageChange { address, key, had_value: Some(slot.present_value) },
            );
            assert(self@ =~~= old(self)@.sstore(address, key, new, fetched));
        }
        Ok(
            SStoreResult {
                original_value: slot.original_value,
                present_value: slot.present_value,
                new_value: new,
                is_cold,
            },
        )
    }

    /// Moves `balance` from `from` to `to`, modulo `2^256` on either side.
    fn transfer(&mut self, from: &Address, to: &Address, balance: &U256)
        ensures
            final(self)@ == old(self)@.transfer(*from, *to, *balance),
    {
        self.debit(from, balance);
        self.credit(to, balance);
        self.record(JournalEntry::BalanceTransfer { from: *from, to: *to, balance: *balance });
    }

    /// Sets up a contract account at `address`, both accounts being cached: opens
    /// a checkpoint, marks the account created, and moves `balance` to it from
    /// `caller`. Changes nothing where the creation is refused.
    pub fn create_account_checkpoint(
        &mut self,
        caller: Address,
        address: Address,
        balance: U256,
        spec_id: SpecId,
    ) -> (r: Result<JournalCheckpoint, InstructionResult>)
        requires
            old(self)@.has(caller),
            old(self)@.has(address),
            old(self).depth < usize::MAX,
        ensures
            match r {
                Ok(cp) => {
                    &&& old(self)@.create_account_error(caller, address, balance) is None
                    &&& cp == old(self)@.checkpoint_handle()
                    &&& final(self)@ == old(self)@.create_account(caller, address, balance, spec_id)
                },
                Err(e) => {
                    &&& old(self)@.create_account_error(caller, address, balance) == Some(e)
                    &&& final(self)@ == old(self)@
                },
            },
    {
        let target = self.state.get(&address).unwrap();
        let nonce: u64 = target.info.nonce;
        let code_hash: B256 = target.info.code_hash;
        let target_balance: U256 = target.info.balance;
        if nonce != 0 || !(code_hash.is_zero() || code_hash == B256::keccak_empty()) {
            return Err(InstructionResult::CreateCollision);
        }
        let caller_balance: U256 = self.state.get(&caller).unwrap().info.balance;
        if caller_balance.lt(&balance) {
            return Err(InstructionResult::OutOfFunds);
        }
        if !caller.same(&address) && target_balance.checked_add(&balance).is_none() {
            return Err(InstructionResult::OverflowPayment);
        }
        let cp = self.checkpoint();
        self.touch(&address);
        let ghost touched = self@;
        let created: bool = self.state.get(&address).unwrap().status.created;
        if !created {
            match self.take_account(&address) {
                Some(mut account) => {
                    account.status.created = true;
                    self.put_account(address, account);
                },
                None => {},
            }
            self.record(JournalEntry::AccountCreated { address });
        }
        assert(self@ =~~= touched.mark_created(address));
        let ghost marked = self@;
        if spec_id.is_enabled_in(SpecId::SPURIOUS_DRAGON) {
            match self.take_account(&address) {
                Some(mut account) => {
                    account.info.nonce = 1;
                    self.put_account(address, account);
                },
                None => {},
            }
            self.record(JournalEntry::NonceChange { address, old: nonce });
        }
        assert(self@ =~~= marked.start_nonce(address, spec_id));
        self.transfer(&caller, &address, &balance);
        Ok(cp)
    }

    /// Marks the cached account `address` for destruction and gives its balance
    /// to `target`.
    fn destroy(&mut self, address: Address, target: Address)
        requires
            old(self)@.has(address),
        ensures
            final(self)@ == old(self)@.destroy(address, target),
    {
        let account = self.state.get(&address).unwrap();
        let balance: U256 = account.info.balance;
        let was_destroyed: bool = account.status.self_destructed;
        if !address.same(&target) {
            self.credit(&target, &balance);
        }
        match self.take_account(&address) {
            Some(mut account) => {
                account.status.self_destructed = true;
                account.info.balance = U256::zero();
                self.put_account(address, account);
            },
            None => {},
        }
        self.record(
            JournalEntry::AccountDestroyed { address, target, was_destroyed, had_balance: balance },
        );
        assert(self@ =~~= old(self)@.destroy(address, target));
    }

    /// Destroys the cached account `address` in favour of `target`.
    pub fn selfdestruct<DB: Database>(&mut self, address: Address, target: Address, db: &mut DB) -> (r:
        Result<SelfDestructResult, EVMError<DB::Error>>)
        requires
            old(self)@.has(address),
        ensures
            final(db).model() == old(db).model(),
            match r {
                Ok(res) => {
                    &&& final(self)@ == old(self)@.selfdestruct(
                        address,
                        target,
                        old(db).model().account(target),
                    )
                    &&& res == old(self)@.selfdestruct_result(
                        address,
                        target,
                        old(db).model().account(target),
                    )
                },
                Err(e) => final(self)@ == old(self)@ && !old(self)@.has(target) && e is Database,
            },
            old(self)@.has(target) ==> r is Ok,
    {
        let loaded = match self.load_account_exist(target, db) {
            Ok(loaded) => loaded,
            Err(e) => {
                return Err(e);
            },
        };
        let ghost s1 = self@;
        assert(s1.has(address));
        let account = self.state.get(&address).unwrap();
        let balance: U256 = account.info.balance;
        let previously_destroyed: bool = account.status.self_destructed;
        let created: bool = account.status.created;
        let same = address.same(&target);
        if created || !self.spec.is_enabled_in(SpecId::CANCUN) {
            assert(s1.destroys(address));
            if !same {
                self.touch(&target);
            }
            let ghost s2 = self@;
            self.touch(&address);
            assert(self@ == s2.touch(address));
            assert(self@.has(address));
            self.destroy(address, target);
            assert(self@ == s2.touch(address).destroy(address, target));
        } else if !same {
            assert(!s1.destroys(address));
            self.touch(&target);
            self.transfer(&address, &target, &balance);
        }
        Ok(
            SelfDestructResult {
                had_value: !balance.is_zero(),
                target_exists: loaded.exists,
                is_cold: loaded.is_cold,
                previously_destroyed,
            },
        )
    }

    /// Loads an address of the access list, with its slots, and makes them warm.
    /// Nothing of this enters the journal, so no revert makes them cold again.
    /// The database is read first: where a read fails, nothing changes.
    pub fn initial_account_load<DB: Database>(
        &mut self,
        address: Address,
        slots: &Vec<U256>,
        db: &mut DB,
    ) -> (r: Result<(), EVMError<DB::Error>>)
        ensures
            final(db).model() == old(db).model(),
            match r {
                Ok(_) => final(self)@ == old(self)@.initial_account_load(
                    address,
                    old(db).model().account(address),
                    slots@,
                    |k: U256| old(db).model().slot(address, k),
                ),
                Err(e) => final(self)@ == old(self)@ && e is Database,
            },
    {
        let ghost stored = |k: U256| old(db).model().slot(address, k);
        let info: Option<AccountInfo> = match db.basic(address) {
            Ok(info) => info,
            Err(e) => {
                return Err(EVMError::Database(e));
            },
        };
        let mut values: Vec<U256> = Vec::new();
        let mut i: usize = 0;
        while i < slots.len()
            invariant
                i <= slots@.len(),
                values@.len() == i,
                db.model() == old(db).model(),
                forall|j: int| 0 <= j < i ==> values@[j] == old(db).model().slot(address, slots@[j]),
            decreases slots@.len() - i,
        {
            match db.storage(address, slots[i]) {
                Ok(value) => {
                    values.push(value);
                },
                Err(e) => {
                    return Err(EVMError::Database(e));
                },
            }
            i += 1;
        }
        let mut account: Account = match self.take_account(&address) {
            Some(mut account) => {
                account.status.warm_access = true;
                account
            },
            None => Account::fetched(info),
        };
        let ghost base = account@;
        let mut i: usize = 0;
        while i < slots.len()
            invariant
                i <= slots@.len(),
                values@.len() == slots@.len(),
                forall|j: int|
                    0 <= j < slots@.len() ==> values@[j] == stored(slots@[j]),
                account@.info == base.info,
                account@.status == base.status,
                account@.storage == JournalModel::preloaded_storage(
                    base.storage,
                    slots@.subrange(0, i as int),
                    stored,
                ),
            decreases slots@.len() - i,
        {
            let key = slots[i];
            let ghost before = account@.storage;
            let slot = match account.storage.get(&key) {
                Some(slot) => StorageSlot { is_cold: false, ..*slot },
                None => StorageSlot::new(values[i]),
            };
            account.storage.insert(key, slot);
            proof {
                let done = slots@.subrange(0, i as int);
                let next = slots@.subrange(0, i + 1);
                assert(next.drop_last() =~= done);
                assert(next.last() == key);
                assert forall|k: U256| next.contains(k) <==> (done.contains(k) || k == key) by {
                    if done.contains(k) {
                        let j = choose|j: int| 0 <= j < done.len() && done[j] == k;
                        assert(next[j] == k);
                    }
                    if k == key {
                        assert(next[i as int] == k);
                    }
                    if next.contains(k) {
                        let j = choose|j: int| 0 <= j < next.len() && next[j] == k;
                        if j < i {
                            assert(done[j] == k);
                        }
                    }
                }
                assert(account@.storage =~= JournalModel::preloaded_storage(
                    base.storage,
                    next,
                    stored,
                ));
            }
            i += 1;
        }
        proof {
            assert(slots@.subrange(0, i as int) =~= slots@);
        }
        self.put_account(address, account);
        assert(self@ =~~= old(self)@.initial_account_load(
            address,
            old(db).model().account(address),
            slots@,
            stored,
        ));
        Ok(())
    }
}

} // verus!
