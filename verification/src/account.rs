//! Accounts as the state keeps them while a transaction runs.

use vstd::prelude::*;
use crate::bytecode::{Bytecode, BytecodeModel};
use crate::primitives::{B256, U256};
use crate::table::{Table, TableValue};

verus! {

/// What has happened to an account in the current transaction.
#[derive(Clone, Copy, Debug, PartialEq, Eq, Structural, Hash)]
pub struct AccountStatus {
    /// The database held the account when it was read.
    pub loaded: bool,
    /// The account was touched: it is written back at the end.
    pub touched: bool,
    /// The account was created as a contract in this transaction.
    pub created: bool,
    /// The account is marked for destruction.
    pub self_destructed: bool,
    /// The account has been accessed, so a further access is cheap.
    pub warm_access: bool,
    /// The database held no account at this address when it was read: whatever
    /// the account holds began in this transaction.
    pub newly_created: bool,
}

impl AccountStatus {
    /// A created or destroyed account is touched.
    pub open spec fn well_formed(self) -> bool {
        (self.created ==> self.touched) && (self.self_destructed ==> self.touched)
    }

    /// Whether a created or destroyed account is touched, as it has to be.
    pub fn well_formed_exec(&self) -> (r: bool)
        ensures
            r == self.well_formed(),
    {
        (!self.created || self.touched) && (!self.self_destructed || self.touched)
    }
}

/// One storage slot of an account.
#[derive(Clone, Copy, Debug, PartialEq, Eq, Structural, Hash)]
pub struct StorageSlot {
    /// The value at the start of the transaction.
    pub original_value: U256,
    /// The value now.
    pub present_value: U256,
    /// Whether the slot has not been accessed yet.
    pub is_cold: bool,
}

impl View for StorageSlot {
    type V = StorageSlot;

    open spec fn view(&self) -> StorageSlot {
        *self
    }
}

impl TableValue for StorageSlot {
    fn duplicate(&self) -> (r: Self) {
        *self
    }
}

impl StorageSlot {
    /// A slot just read, warm, with `value` as it stands in the database.
    pub fn new(value: U256) -> (r: StorageSlot)
        ensures
            r == (StorageSlot { original_value: value, present_value: value, is_cold: false }),
    {
        StorageSlot { original_value: value, present_value: value, is_cold: false }
    }
}

/// What the database holds of an account.
#[derive(Debug)]
pub struct AccountInfo {
    pub balance: U256,
    pub nonce: u64,
    pub code_hash: B256,
    /// The code, once it has been read.
    pub code: Option<Bytecode>,
}

/// What the database holds of an account, as a value.
#[verifier::ext_equal]
pub struct AccountInfoModel {
    pub balance: U256,
    pub nonce: u64,
    pub code_hash: B256,
    pub code: Option<BytecodeModel>,
}

/// The hash of an account without code: zero, or the hash of nothing.
pub open spec fn is_empty_code_hash(hash: B256) -> bool {
    hash == (B256 { hi: 0, lo: 0 }) || hash == B256::keccak_empty_spec()
}

pub open spec fn code_view(code: Option<Bytecode>) -> Option<BytecodeModel> {
    match code {
        Some(c) => Some(c@),
        None => None,
    }
}

impl AccountInfoModel {
    /// An account that holds nothing.
    pub open spec fn empty() -> AccountInfoModel {
        AccountInfoModel {
            balance: U256 { hi: 0, lo: 0 },
            nonce: 0,
            code_hash: B256::keccak_empty_spec(),
            code: None,
        }
    }

    /// Whether the account counts as empty: no nonce, no balance, no code.
    pub open spec fn is_empty(self) -> bool {
        self.nonce == 0 && self.balance == (U256 { hi: 0, lo: 0 }) && is_empty_code_hash(
            self.code_hash,
        )
    }
}

impl View for AccountInfo {
    type V = AccountInfoModel;

    open spec fn view(&self) -> AccountInfoModel {
        AccountInfoModel {
            balance: self.balance,
            nonce: self.nonce,
            code_hash: self.code_hash,
            code: code_view(self.code),
        }
    }
}

/// A copy of code that may not have been read yet.
pub fn clone_code(code: &Option<Bytecode>) -> (r: Option<Bytecode>)
    ensures
        code_view(r) == code_view(*code),
{
    match code {
        Some(c) => Some(c.clone()),
        None => None,
    }
}

impl Clone for AccountInfo {
    fn clone(&self) -> (r: Self)
        ensures
            r@ == self@,
    {
        AccountInfo {
            balance: self.balance,
            nonce: self.nonce,
            code_hash: self.code_hash,
            code: clone_code(&self.code),
        }
    }
}

impl TableValue for AccountInfo {
    fn duplicate(&self) -> (r: Self) {
        self.clone()
    }
}

impl TableValue for Bytecode {
    fn duplicate(&self) -> (r: Self) {
        self.clone()
    }
}

impl AccountInfo {
    /// An account that holds nothing.
    pub fn empty() -> (r: AccountInfo)
        ensures
            r@ == AccountInfoModel::empty(),
    {
        AccountInfo {
            balance: U256::zero(),
            nonce: 0,
            code_hash: B256::keccak_empty(),
            code: None,
        }
    }

    pub fn new(balance: U256, nonce: u64, code_hash: B256, code: Option<Bytecode>) -> (r:
        AccountInfo)
        ensures
            r@ == (AccountInfoModel { balance, nonce, code_hash, code: code_view(code) }),
    {
        AccountInfo { balance, nonce, code_hash, code }
    }

    /// Whether the account counts as empty: no nonce, no balance, no code.
    pub fn is_empty(&self) -> (r: bool)
        ensures
            r == self@.is_empty(),
    {
        self.nonce == 0 && self.balance.is_zero() && (self.code_hash.is_zero() || self.code_hash
            == B256::keccak_empty())
    }
}

/// An account in the cache of a running transaction.
#[derive(Debug)]
pub struct Account {
    pub info: AccountInfo,
    /// The slots that have been read or written.
    pub storage: Table<U256, StorageSlot>,
    pub status: AccountStatus,
}

/// An account in the cache, as a value.
#[verifier::ext_equal]
pub struct AccountModel {
    pub info: AccountInfoModel,
    pub storage: Map<U256, StorageSlot>,
    pub status: AccountStatus,
}

impl AccountModel {
    /// The account as it enters the cache: what the database holds, or nothing;
    /// no slot read yet; warm from now on.
    pub open spec fn fetched(info: Option<AccountInfoModel>) -> AccountModel {
        AccountModel {
            info: match info {
                Some(i) => i,
                None => AccountInfoModel::empty(),
            },
            storage: Map::empty(),
            status: AccountStatus {
                loaded: info is Some,
                touched: false,
                created: false,
                self_destructed: false,
                warm_access: true,
                newly_created: info is None,
            },
        }
    }

    pub open spec fn is_empty(self) -> bool {
        self.info.is_empty()
    }
}

impl View for Account {
    type V = AccountModel;

    open spec fn view(&self) -> AccountModel {
        AccountModel { info: self.info@, storage: self.storage@, status: self.status }
    }
}

impl Clone for Account {
    fn clone(&self) -> (r: Self)
        ensures
            r@ == self@,
    {
        Account { info: self.info.clone(), storage: self.storage.clone(), status: self.status }
    }
}

impl TableValue for Account {
    fn duplicate(&self) -> (r: Self) {
        self.clone()
    }
}

impl Account {
    /// The account as it enters the cache.
    pub fn fetched(info: Option<AccountInfo>) -> (r: Account)
        ensures
            r@ == AccountModel::fetched(
                match info {
                    Some(i) => Some(i@),
                    None => None,
                },
            ),
    {
        let loaded = info.is_some();
        let info = match info {
            Some(i) => i,
            None => AccountInfo::empty(),
        };
        Account {
            info,
            storage: Table::new(),
            status: AccountStatus {
                loaded,
                touched: false,
                created: false,
                self_destructed: false,
                warm_access: true,
                newly_created: !loaded,
            },
        }
    }

    /// Whether the account counts as empty: no nonce, no balance, no code.
    pub fn is_empty(&self) -> (r: bool)
        ensures
            r == self@.is_empty(),
    {
        self.info.is_empty()
    }

    pub fn is_touched(&self) -> (r: bool)
        ensures
            r == self.status.touched,
    {
        self.status.touched
    }

    pub fn is_created(&self) -> (r: bool)
        ensures
            r == self.status.created,
    {
        self.status.created
    }

    pub fn is_selfdestructed(&self) -> (r: bool)
        ensures
            r == self.status.self_destructed,
    {
        self.status.self_destructed
    }

    pub fn is_warm(&self) -> (r: bool)
        ensures
            r == self.status.warm_access,
    {
        self.status.warm_access
    }
}

} // verus!
