//! The journaled state as a mathematical value: what each operation does to it,
//! which entry it leaves in the journal, and how an entry is undone.

use vstd::prelude::*;
use crate::account::{is_empty_code_hash, AccountInfoModel, AccountModel, AccountStatus, StorageSlot};
use crate::bytecode::BytecodeModel;
use crate::interpreter::{InstructionResult, LoadAccountResult, SStoreResult, SelfDestructResult};
use crate::primitives::{Address, SlotKey, B256, U256};
use crate::spec_id::SpecId;

verus! {

/// A log record, as a value.
#[verifier::ext_equal]
pub struct LogModel {
    pub address: Address,
    pub topics: Seq<B256>,
    pub data: Seq<u8>,
}

/// A place in the journal to go back to: the length of the journal and the number
/// of logs at the moment it was taken.
#[derive(Clone, Copy, Debug, PartialEq, Eq, Structural, Hash)]
pub struct JournalCheckpoint {
    pub log_i: usize,
    pub journal_i: usize,
}

/// One reversible change, with what is needed to undo it.
#[verifier::ext_equal]
#[allow(inconsistent_fields)]
pub enum EntryModel {
    /// A cached account became warm.
    AccountWarmed { address: Address },
    /// An account was marked for destruction and gave its balance to `target`.
    AccountDestroyed { address: Address, target: Address, was_destroyed: bool, had_balance: U256 },
    /// An account became touched.
    AccountTouched { address: Address },
    /// `balance` moved from `from` to `to`.
    BalanceTransfer { from: Address, to: Address, balance: U256 },
    /// The nonce was `old` before it changed.
    NonceChange { address: Address, old: u64 },
    /// An account was marked as created in this transaction.
    AccountCreated { address: Address },
    /// An account entered the cache.
    AccountLoaded { address: Address },
    /// A slot changed; it held `had_value`, or was not in the cache.
    StorageChange { address: Address, key: U256, had_value: Option<U256> },
    /// A cached slot became warm.
    StorageWarmed { address: Address, key: U256 },
    /// A transient slot changed; it held `had_value`.
    TransientStorageChange { address: Address, key: U256, had_value: U256 },
    /// The code of an account changed.
    CodeChange { address: Address, prev_code_hash: B256, prev_code: Option<BytecodeModel> },
}

/// The journaled state as a value.
#[verifier::ext_equal]
pub struct JournalModel {
    /// The accounts in the cache.
    pub accounts: Map<Address, AccountModel>,
    /// Transient storage: every slot has a value, zero unless written.
    pub transient: Map<SlotKey, U256>,
    pub logs: Seq<LogModel>,
    /// The number of checkpoints that are open.
    pub depth: nat,
    /// The changes made so far, oldest first.
    pub journal: Seq<EntryModel>,
    pub spec: SpecId,
    /// The addresses that count as warm before they are first read.
    pub warm_preloaded: Set<Address>,
}

pub open spec fn zero() -> U256 {
    U256 { hi: 0, lo: 0 }
}

impl AccountModel {
    pub open spec fn with_status(self, status: AccountStatus) -> AccountModel {
        AccountModel { status, ..self }
    }

    pub open spec fn with_balance(self, balance: U256) -> AccountModel {
        AccountModel { info: AccountInfoModel { balance, ..self.info }, ..self }
    }

    pub open spec fn with_nonce(self, nonce: u64) -> AccountModel {
        AccountModel { info: AccountInfoModel { nonce, ..self.info }, ..self }
    }

    pub open spec fn with_code(self, code_hash: B256, code: Option<BytecodeModel>) -> AccountModel {
        AccountModel { info: AccountInfoModel { code_hash, code, ..self.info }, ..self }
    }

    pub open spec fn with_slot(self, key: U256, slot: StorageSlot) -> AccountModel {
        AccountModel { storage: self.storage.insert(key, slot), ..self }
    }

    pub open spec fn without_slot(self, key: U256) -> AccountModel {
        AccountModel { storage: self.storage.remove(key), ..self }
    }

    pub open spec fn with_touched(self, touched: bool) -> AccountModel {
        self.with_status(AccountStatus { touched, ..self.status })
    }

    pub open spec fn with_warm(self, warm_access: bool) -> AccountModel {
        self.with_status(AccountStatus { warm_access, ..self.status })
    }

    pub open spec fn with_created(self, created: bool) -> AccountModel {
        self.with_status(AccountStatus { created, ..self.status })
    }

    pub open spec fn with_destroyed(self, self_destructed: bool) -> AccountModel {
        self.with_status(AccountStatus { self_destructed, ..self.status })
    }
}

impl AccountModel {
    /// The account with nothing left in it but its status.
    pub open spec fn emptied(self) -> AccountModel {
        AccountModel { info: AccountInfoModel::empty(), storage: Map::empty(), status: self.status }
    }

    /// The account as it leaves a transaction: emptied where it is marked for
    /// destruction.
    pub open spec fn settled(self) -> AccountModel {
        if self.status.self_destructed {
            self.emptied()
        } else {
            self
        }
    }
}

impl JournalModel {
    /// The accounts as they leave a transaction: those marked for destruction
    /// are emptied only now.
    pub open spec fn settled_accounts(self) -> Map<Address, AccountModel> {
        Map::new(|a: Address| self.has(a), |a: Address| self.accounts[a].settled())
    }

    /// The state at the start of a transaction: nothing cached, nothing written.
    pub open spec fn initial(spec: SpecId, warm_preloaded: Set<Address>) -> JournalModel {
        JournalModel {
            accounts: Map::empty(),
            transient: Map::total(|k: SlotKey| zero()),
            logs: Seq::empty(),
            depth: 0,
            journal: Seq::empty(),
            spec,
            warm_preloaded,
        }
    }

    pub open spec fn has(self, a: Address) -> bool {
        self.accounts.contains_key(a)
    }

    pub open spec fn with_account(self, a: Address, account: AccountModel) -> JournalModel {
        JournalModel { accounts: self.accounts.insert(a, account), ..self }
    }

    pub open spec fn with_depth(self, depth: nat) -> JournalModel {
        JournalModel { depth, ..self }
    }

    /// The state with one more entry in the journal.
    pub open spec fn record(self, e: EntryModel) -> JournalModel {
        JournalModel { journal: self.journal.push(e), ..self }
    }

    /// Whether `a` is cached and warm.
    pub open spec fn is_warm(self, a: Address) -> bool {
        self.has(a) && self.accounts[a].status.warm_access
    }

    /// Whether the slot is cached and warm.
    pub open spec fn is_slot_warm(self, a: Address, key: U256) -> bool {
        self.has(a) && self.accounts[a].storage.contains_key(key)
            && !self.accounts[a].storage[key].is_cold
    }

    /// Whether the slot is cached.
    pub open spec fn has_slot(self, a: Address, key: U256) -> bool {
        self.has(a) && self.accounts[a].storage.contains_key(key)
    }

    /// Whether `a` is cached and touched.
    pub open spec fn is_touched(self, a: Address) -> bool {
        self.has(a) && self.accounts[a].status.touched
    }

    // ----- undoing an entry ------------------------------------------------------

    /// The state with the change that `e` stands for taken back. An entry for an
    /// account or a slot that is not cached changes nothing.
    pub open spec fn undo(self, e: EntryModel) -> JournalModel {
        match e {
            EntryModel::AccountWarmed { address } => if self.has(address) {
                self.with_account(address, self.accounts[address].with_warm(false))
            } else {
                self
            },
            EntryModel::AccountLoaded { address } => JournalModel {
                accounts: self.accounts.remove(address),
                ..self
            },
            EntryModel::AccountTouched { address } => if self.has(address) {
                self.with_account(address, self.accounts[address].with_touched(false))
            } else {
                self
            },
            EntryModel::AccountCreated { address } => if self.has(address) {
                self.with_account(address, self.accounts[address].with_created(false))
            } else {
                self
            },
            EntryModel::NonceChange { address, old } => if self.has(address) {
                self.with_account(address, self.accounts[address].with_nonce(old))
            } else {
                self
            },
            EntryModel::BalanceTransfer { from, to, balance } => self.credit(from, balance).debit(
                to,
                balance,
            ),
            EntryModel::AccountDestroyed { address, target, was_destroyed, had_balance } => {
                let s = if self.has(address) {
                    self.with_account(
                        address,
                        self.accounts[address].with_destroyed(was_destroyed),
                    ).credit(address, had_balance)
                } else {
                    self
                };
                if address != target {
                    s.debit(target, had_balance)
                } else {
                    s
                }
            },
            EntryModel::StorageChange { address, key, had_value } => if self.has(address)
                && self.accounts[address].storage.contains_key(key) {
                let account = self.accounts[address];
                match had_value {
                    Some(value) => self.with_account(
                        address,
                        account.with_slot(
                            key,
                            StorageSlot { present_value: value, ..account.storage[key] },
                        ),
                    ),
                    None => self.with_account(address, account.without_slot(key)),
                }
            } else {
                self
            },
            EntryModel::StorageWarmed { address, key } => if self.has(address)
                && self.accounts[address].storage.contains_key(key) {
                let account = self.accounts[address];
                self.with_account(
                    address,
                    account.with_slot(key, StorageSlot { is_cold: true, ..account.storage[key] }),
                )
            } else {
                self
            },
            EntryModel::TransientStorageChange { address, key, had_value } => JournalModel {
                transient: self.transient.insert(SlotKey { address, index: key }, had_value),
                ..self
            },
            EntryModel::CodeChange { address, prev_code_hash, prev_code } => if self.has(address) {
                self.with_account(
                    address,
                    self.accounts[address].with_code(prev_code_hash, prev_code),
                )
            } else {
                self
            },
        }
    }

    /// `amount` more on the balance of `a`, modulo `2^256`.
    pub open spec fn credit(self, a: Address, amount: U256) -> JournalModel {
        if self.has(a) {
            self.with_account(
                a,
                self.accounts[a].with_balance(
                    self.accounts[a].info.balance.wrapping_add_spec(amount),
                ),
            )
        } else {
            self
        }
    }

    /// `amount` less on the balance of `a`, modulo `2^256`.
    pub open spec fn debit(self, a: Address, amount: U256) -> JournalModel {
        if self.has(a) {
            self.with_account(
                a,
                self.accounts[a].with_balance(
                    self.accounts[a].info.balance.wrapping_sub_spec(amount),
                ),
            )
        } else {
            self
        }
    }

    /// The state with the last entry of the journal undone and taken off.
    pub open spec fn undo_last(self) -> JournalModel
        recommends
            self.journal.len() > 0,
    {
        JournalModel { journal: self.journal.drop_last(), ..self.undo(self.journal.last()) }
    }

    /// The state with the entries beyond the first `n` undone, the last first.
    pub open spec fn rollback(self, n: nat) -> JournalModel
        decreases self.journal.len(),
    {
        if self.journal.len() <= n {
            self
        } else {
            self.undo_last().rollback(n)
        }
    }

    // ----- checkpoints -----------------------------------------------------------

    /// The checkpoint that would be taken now.
    pub open spec fn checkpoint_handle(self) -> JournalCheckpoint {
        JournalCheckpoint { log_i: self.logs.len() as usize, journal_i: self.journal.len() as usize }
    }

    /// One more checkpoint open.
    pub open spec fn checkpoint(self) -> JournalModel {
        self.with_depth(self.depth + 1)
    }

    /// The innermost checkpoint closed, its changes kept: they now belong to the
    /// frame around it.
    pub open spec fn commit(self) -> JournalModel {
        self.with_depth((self.depth - 1) as nat)
    }

    /// Whether `cp` can be gone back to: a checkpoint is open, and the journal and
    /// the logs are no shorter than they were when `cp` was taken.
    pub open spec fn can_revert(self, cp: JournalCheckpoint) -> bool {
        self.depth > 0 && cp.journal_i <= self.journal.len() && cp.log_i <= self.logs.len()
    }

    /// Back at `cp`: every later entry undone, every later log dropped, the
    /// innermost checkpoint closed.
    pub open spec fn revert(self, cp: JournalCheckpoint) -> JournalModel {
        let back = self.rollback(cp.journal_i as nat);
        JournalModel {
            logs: back.logs.subrange(0, cp.log_i as int),
            depth: (self.depth - 1) as nat,
            ..back
        }
    }

    // ----- operations ------------------------------------------------------------

    /// `a` touched, if it is cached and was not.
    pub open spec fn touch(self, a: Address) -> JournalModel {
        if self.has(a) && !self.accounts[a].status.touched {
            self.with_account(a, self.accounts[a].with_touched(true)).record(
                EntryModel::AccountTouched { address: a },
            )
        } else {
            self
        }
    }

    /// `a` in the cache and warm. `fetched` is what the database holds of it, read
    /// only where `a` is not cached.
    pub open spec fn load_account(self, a: Address, fetched: Option<AccountInfoModel>) -> JournalModel {
        if self.has(a) {
            if self.accounts[a].status.warm_access {
                self
            } else {
                self.with_account(a, self.accounts[a].with_warm(true)).record(
                    EntryModel::AccountWarmed { address: a },
                )
            }
        } else {
            self.with_account(a, AccountModel::fetched(fetched)).record(
                EntryModel::AccountLoaded { address: a },
            )
        }
    }

    /// Whether an access to `a` is a cold one: `a` is cached and not warm, or not
    /// cached and not among the addresses that start warm.
    pub open spec fn is_cold(self, a: Address) -> bool {
        if self.has(a) {
            !self.accounts[a].status.warm_access
        } else {
            !self.warm_preloaded.contains(a)
        }
    }

    /// What loading `a` tells: whether the access was cold, and whether the
    /// account is anything but empty.
    pub open spec fn load_account_exist_result(
        self,
        a: Address,
        fetched: Option<AccountInfoModel>,
    ) -> LoadAccountResult {
        LoadAccountResult {
            is_cold: self.is_cold(a),
            exists: !self.load_account(a, fetched).accounts[a].is_empty(),
        }
    }

    /// Whether `load_code` has to ask the database for the code of `a`: the
    /// account, once loaded, has a code hash but no code.
    pub open spec fn needs_code(self, a: Address, fetched: Option<AccountInfoModel>) -> bool {
        let account = self.load_account(a, fetched).accounts[a];
        account.info.code is None && !is_empty_code_hash(account.info.code_hash)
    }

    /// `a` in the cache with its code resolved: empty code for an account
    /// without, else `code`, which is what the database holds under the hash.
    pub open spec fn load_code(
        self,
        a: Address,
        fetched: Option<AccountInfoModel>,
        code: BytecodeModel,
    ) -> JournalModel {
        let s = self.load_account(a, fetched);
        let account = s.accounts[a];
        if account.info.code is None {
            let resolved = if is_empty_code_hash(account.info.code_hash) {
                BytecodeModel::Raw(Seq::empty())
            } else {
                code
            };
            s.with_account(a, account.with_code(account.info.code_hash, Some(resolved))).record(
                EntryModel::CodeChange {
                    address: a,
                    prev_code_hash: account.info.code_hash,
                    prev_code: None,
                },
            )
        } else {
            s
        }
    }

    /// Whether `sload` has to ask the database: the slot is not cached, and the
    /// account was not created in this transaction.
    pub open spec fn needs_slot(self, a: Address, key: U256) -> bool {
        self.has(a) && !self.accounts[a].storage.contains_key(key)
            && !self.accounts[a].status.created
    }

    /// The value that a slot enters the cache with: zero in an account created in
    /// this transaction, else `fetched`, which is what the database holds.
    pub open spec fn slot_value(self, a: Address, fetched: U256) -> U256 {
        if self.accounts[a].status.created {
            zero()
        } else {
            fetched
        }
    }

    /// The slot in the cache and warm. Nothing changes where `a` is not cached.
    pub open spec fn sload(self, a: Address, key: U256, fetched: U256) -> JournalModel {
        if !self.has(a) {
            self
        } else {
            let account = self.accounts[a];
            if account.storage.contains_key(key) {
                let slot = account.storage[key];
                if slot.is_cold {
                    self.with_account(
                        a,
                        account.with_slot(key, StorageSlot { is_cold: false, ..slot }),
                    ).record(EntryModel::StorageWarmed { address: a, key })
                } else {
                    self
                }
            } else {
                let value = self.slot_value(a, fetched);
                self.with_account(
                    a,
                    account.with_slot(
                        key,
                        StorageSlot { original_value: value, present_value: value, is_cold: false },
                    ),
                ).record(EntryModel::StorageChange { address: a, key, had_value: None })
            }
        }
    }

    /// What `sload` returns: the value now in the slot, and whether the access was
    /// cold.
    pub open spec fn sload_result(self, a: Address, key: U256, fetched: U256) -> (U256, bool) {
        let account = self.accounts[a];
        if account.storage.contains_key(key) {
            (account.storage[key].present_value, account.storage[key].is_cold)
        } else {
            (self.slot_value(a, fetched), true)
        }
    }

    /// `new` written to the slot, after the slot is loaded.
    pub open spec fn sstore(self, a: Address, key: U256, new: U256, fetched: U256) -> JournalModel {
        let s = self.sload(a, key, fetched);
        if !s.has(a) {
            s
        } else {
            let account = s.accounts[a];
            let slot = account.storage[key];
            if slot.present_value == new {
                s
            } else {
                s.with_account(
                    a,
                    account.with_slot(key, StorageSlot { present_value: new, ..slot }),
                ).record(
                    EntryModel::StorageChange {
                        address: a,
                        key,
                        had_value: Some(slot.present_value),
                    },
                )
            }
        }
    }

    /// What `sstore` returns: the three values that price the write, and whether
    /// the access was cold.
    pub open spec fn sstore_result(self, a: Address, key: U256, new: U256, fetched: U256) -> SStoreResult {
        let slot = self.sload(a, key, fetched).accounts[a].storage[key];
        SStoreResult {
            original_value: slot.original_value,
            present_value: slot.present_value,
            new_value: new,
            is_cold: self.sload_result(a, key, fetched).1,
        }
    }

    /// The value of a transient slot.
    pub open spec fn tload(self, a: Address, key: U256) -> U256 {
        self.transient[SlotKey { address: a, index: key }]
    }

    /// `new` written to a transient slot.
    pub open spec fn tstore(self, a: Address, key: U256, new: U256) -> JournalModel {
        let k = SlotKey { address: a, index: key };
        if self.transient[k] == new {
            self
        } else {
            JournalModel { transient: self.transient.insert(k, new), ..self }.record(
                EntryModel::TransientStorageChange {
                    address: a,
                    key,
                    had_value: self.transient[k],
                },
            )
        }
    }

    /// Whether the nonce of `a` can grow: `a` is cached and its nonce is not the
    /// largest there is.
    pub open spec fn can_inc_nonce(self, a: Address) -> bool {
        self.has(a) && self.accounts[a].info.nonce < u64::MAX
    }

    /// The nonce of `a` one higher, and `a` touched; nothing where the nonce
    /// cannot grow.
    pub open spec fn inc_nonce(self, a: Address) -> JournalModel {
        if self.can_inc_nonce(a) {
            let s = self.touch(a);
            let account = s.accounts[a];
            s.with_account(a, account.with_nonce((account.info.nonce + 1) as u64)).record(
                EntryModel::NonceChange { address: a, old: account.info.nonce },
            )
        } else {
            self
        }
    }

    /// `code` installed at `a` under its hash, and `a` touched. Nothing changes
    /// where `a` is not cached.
    pub open spec fn set_code(self, a: Address, code: BytecodeModel) -> JournalModel {
        if self.has(a) {
            let s = self.touch(a);
            let account = s.accounts[a];
            s.with_account(a, account.with_code(code.hash(), Some(code))).record(
                EntryModel::CodeChange {
                    address: a,
                    prev_code_hash: account.info.code_hash,
                    prev_code: account.info.code,
                },
            )
        } else {
            self
        }
    }

    /// One more log.
    pub open spec fn log(self, log: LogModel) -> JournalModel {
        JournalModel { logs: self.logs.push(log), ..self }
    }

    /// `balance` moved from `from` to `to`, modulo `2^256` on either side.
    pub open spec fn transfer(self, from: Address, to: Address, balance: U256) -> JournalModel {
        self.debit(from, balance).credit(to, balance).record(
            EntryModel::BalanceTransfer { from, to, balance },
        )
    }

    /// Why no contract can be created at `a` with `value` from `caller`, if
    /// anything stands against it: `a` has a nonce or code; `caller` holds less
    /// than `value`; the balance of `a` would leave 256 bits.
    pub open spec fn create_account_error(self, caller: Address, a: Address, value: U256) -> Option<
        InstructionResult,
    > {
        let target = self.accounts[a];
        if target.info.nonce != 0 || !is_empty_code_hash(target.info.code_hash) {
            Some(InstructionResult::CreateCollision)
        } else if self.accounts[caller].info.balance.value() < value.value() {
            Some(InstructionResult::OutOfFunds)
        } else if caller != a && target.info.balance.value() + value.value() >= U256::modulus() {
            Some(InstructionResult::OverflowPayment)
        } else {
            None
        }
    }

    /// `a` marked as created in this transaction, if it was not.
    pub open spec fn mark_created(self, a: Address) -> JournalModel {
        if self.has(a) && !self.accounts[a].status.created {
            self.with_account(a, self.accounts[a].with_created(true)).record(
                EntryModel::AccountCreated { address: a },
            )
        } else {
            self
        }
    }

    /// The nonce that a new contract starts with: 1 from Spurious Dragon on.
    pub open spec fn start_nonce(self, a: Address, spec_id: SpecId) -> JournalModel {
        if self.has(a) && spec_id.enabled_spec(SpecId::SPURIOUS_DRAGON) {
            self.with_account(a, self.accounts[a].with_nonce(1)).record(
                EntryModel::NonceChange { address: a, old: self.accounts[a].info.nonce },
            )
        } else {
            self
        }
    }

    /// The state after a contract account is set up at `a`: a checkpoint open,
    /// `a` touched and marked created, its nonce 1 from Spurious Dragon on, and
    /// `value` moved to it from `caller`.
    pub open spec fn create_account(self, caller: Address, a: Address, value: U256, spec_id: SpecId) -> JournalModel {
        self.checkpoint().touch(a).mark_created(a).start_nonce(a, spec_id).transfer(caller, a, value)
    }

    /// Whether `a` is really destroyed by `SELFDESTRUCT`: always before Cancun,
    /// from Cancun on only where it was created in this transaction.
    pub open spec fn destroys(self, a: Address) -> bool {
        self.accounts[a].status.created || !self.spec.enabled_spec(SpecId::CANCUN)
    }

    /// `a` marked for destruction, its balance given to `target`. `a` is cached.
    pub open spec fn destroy(self, a: Address, target: Address) -> JournalModel {
        let balance = self.accounts[a].info.balance;
        let s = if a != target {
            self.credit(target, balance)
        } else {
            self
        };
        s.with_account(a, s.accounts[a].with_destroyed(true).with_balance(zero())).record(
            EntryModel::AccountDestroyed {
                address: a,
                target,
                was_destroyed: self.accounts[a].status.self_destructed,
                had_balance: balance,
            },
        )
    }

    /// The state after `a` destroys itself in favour of `target`. `fetched` is
    /// what the database holds of `target`. Where `a` is really destroyed, both
    /// accounts are touched, `target` gets the balance and `a` is marked; else the
    /// balance moves to `target`, if that is another account.
    pub open spec fn selfdestruct(self, a: Address, target: Address, fetched: Option<AccountInfoModel>) -> JournalModel {
        let s1 = self.load_account(target, fetched);
        if s1.destroys(a) {
            let s2 = if a != target {
                s1.touch(target)
            } else {
                s1
            };
            s2.touch(a).destroy(a, target)
        } else if a != target {
            s1.touch(target).transfer(a, target, s1.accounts[a].info.balance)
        } else {
            s1
        }
    }

    /// What `selfdestruct` returns.
    pub open spec fn selfdestruct_result(self, a: Address, target: Address, fetched: Option<AccountInfoModel>) -> SelfDestructResult {
        let s1 = self.load_account(target, fetched);
        SelfDestructResult {
            had_value: s1.accounts[a].info.balance != zero(),
            target_exists: !s1.accounts[target].is_empty(),
            is_cold: self.is_cold(target),
            previously_destroyed: s1.accounts[a].status.self_destructed,
        }
    }

    /// The storage of an account after the slots of an access list are loaded:
    /// each of `slots` is cached and warm, a slot that was not cached with the
    /// value that `stored` gives it; the other slots are as they were.
    pub open spec fn preloaded_storage(
        storage: Map<U256, StorageSlot>,
        slots: Seq<U256>,
        stored: spec_fn(U256) -> U256,
    ) -> Map<U256, StorageSlot> {
        Map::new(
            |k: U256| storage.contains_key(k) || slots.contains(k),
            |k: U256|
                if storage.contains_key(k) {
                    if slots.contains(k) {
                        StorageSlot { is_cold: false, ..storage[k] }
                    } else {
                        storage[k]
                    }
                } else {
                    StorageSlot {
                        original_value: stored(k),
                        present_value: stored(k),
                        is_cold: false,
                    }
                },
        )
    }

    /// The state after an address of the access list is loaded: the account is in
    /// the cache and warm, and so is each of `slots`. `fetched` is what the
    /// database holds of the account, `stored` what it holds of each slot.
    /// Nothing of this enters the journal.
    pub open spec fn initial_account_load(
        self,
        a: Address,
        fetched: Option<AccountInfoModel>,
        slots: Seq<U256>,
        stored: spec_fn(U256) -> U256,
    ) -> JournalModel {
        let account = if self.has(a) {
            self.accounts[a].with_warm(true)
        } else {
            AccountModel::fetched(fetched)
        };
        self.with_account(
            a,
            AccountModel {
                storage: JournalModel::preloaded_storage(account.storage, slots, stored),
                ..account
            },
        )
    }
}

} // verus!
