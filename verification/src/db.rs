//! The database that the state reads from: a read-only oracle for accounts, code,
//! storage and block hashes.

use vstd::prelude::*;
use crate::account::{AccountInfo, AccountInfoModel};
use crate::bytecode::{Bytecode, BytecodeModel};
use crate::primitives::{Address, SlotKey, B256, U256};
use crate::table::Table;

verus! {

/// What a database holds.
#[verifier::ext_equal]
pub struct DbModel {
    pub accounts: Map<Address, AccountInfoModel>,
    pub codes: Map<B256, BytecodeModel>,
    pub storage: Map<SlotKey, U256>,
    pub block_hashes: Map<U256, B256>,
}

impl DbModel {
    /// The account at `a`, if there is one.
    pub open spec fn account(self, a: Address) -> Option<AccountInfoModel> {
        if self.accounts.contains_key(a) {
            Some(self.accounts[a])
        } else {
            None
        }
    }

    /// The code with hash `h`: empty where the database holds none.
    pub open spec fn code(self, h: B256) -> BytecodeModel {
        if self.codes.contains_key(h) {
            self.codes[h]
        } else {
            BytecodeModel::Raw(Seq::empty())
        }
    }

    /// The value of a slot: zero where the database holds none.
    pub open spec fn slot(self, a: Address, index: U256) -> U256 {
        let k = SlotKey { address: a, index };
        if self.storage.contains_key(k) {
            self.storage[k]
        } else {
            U256 { hi: 0, lo: 0 }
        }
    }

    /// The hash of the block with a number: zero where the database holds none.
    pub open spec fn block_hash(self, number: U256) -> B256 {
        if self.block_hashes.contains_key(number) {
            self.block_hashes[number]
        } else {
            B256 { hi: 0, lo: 0 }
        }
    }
}

pub open spec fn info_view(info: Option<AccountInfo>) -> Option<AccountInfoModel> {
    match info {
        Some(i) => Some(i@),
        None => None,
    }
}

/// A database. Each read may fail; one that succeeds returns what the database
/// holds, and no read changes what it holds.
pub trait Database {
    /// The error of a read that fails.
    type Error;

    /// What the database holds.
    spec fn model(&self) -> DbModel;

    /// The account at `address`, if there is one.
    fn basic(&mut self, address: Address) -> (r: Result<Option<AccountInfo>, Self::Error>)
        ensures
            final(self).model() == old(self).model(),
            r matches Ok(info) ==> info_view(info) == old(self).model().account(address),
    ;

    /// The code with hash `code_hash`.
    fn code_by_hash(&mut self, code_hash: B256) -> (r: Result<Bytecode, Self::Error>)
        ensures
            final(self).model() == old(self).model(),
            r matches Ok(code) ==> code@ == old(self).model().code(code_hash),
    ;

    /// The value of the slot `index` of `address`.
    fn storage(&mut self, address: Address, index: U256) -> (r: Result<U256, Self::Error>)
        ensures
            final(self).model() == old(self).model(),
            r matches Ok(value) ==> value == old(self).model().slot(address, index),
    ;

    /// The hash of the block with number `number`.
    fn block_hash(&mut self, number: U256) -> (r: Result<B256, Self::Error>)
        ensures
            final(self).model() == old(self).model(),
            r matches Ok(hash) ==> hash == old(self).model().block_hash(number),
    ;
}

/// The error of a database that never fails: no read returns it.
#[derive(Clone, Copy, Debug, PartialEq, Eq, Structural, Hash)]
pub struct NoError;

/// A database kept in memory. It never fails.
#[derive(Debug)]
pub struct InMemoryDb {
    pub accounts: Table<Address, AccountInfo>,
    pub codes: Table<B256, Bytecode>,
    pub storage: Table<SlotKey, U256>,
    pub block_hashes: Table<U256, B256>,
}

impl InMemoryDb {
    /// A database that holds nothing.
    pub fn new() -> (db: InMemoryDb)
        ensures
            db.model() == (DbModel {
                accounts: Map::empty(),
                codes: Map::empty(),
                storage: Map::empty(),
                block_hashes: Map::empty(),
            }),
    {
        InMemoryDb {
            accounts: Table::new(),
            codes: Table::new(),
            storage: Table::new(),
            block_hashes: Table::new(),
        }
    }

    /// Puts an account into the database, with its code under the code's hash.
    pub fn insert_account_info(&mut self, address: Address, info: AccountInfo)
        ensures
            final(self).model().accounts == old(self).model().accounts.insert(address, info@),
            final(self).model().storage == old(self).model().storage,
            final(self).model().block_hashes == old(self).model().block_hashes,
            final(self).model().codes == match info@.code {
                Some(code) => old(self).model().codes.insert(info@.code_hash, code),
                None => old(self).model().codes,
            },
    {
        match &info.code {
            Some(code) => {
                let copy = code.clone();
                self.codes.insert(info.code_hash, copy);
            },
            None => {},
        }
        self.accounts.insert(address, info);
    }

    /// Puts the value of a slot into the database.
    pub fn insert_account_storage(&mut self, address: Address, index: U256, value: U256)
        ensures
            final(self).model() == (DbModel {
                storage: old(self).model().storage.insert(SlotKey { address, index }, value),
                ..old(self).model()
            }),
    {
        self.storage.insert(SlotKey { address, index }, value);
    }

    /// Puts the hash of a block into the database.
    pub fn insert_block_hash(&mut self, number: U256, hash: B256)
        ensures
            final(self).model() == (DbModel {
                block_hashes: old(self).model().block_hashes.insert(number, hash),
                ..old(self).model()
            }),
    {
        self.block_hashes.insert(number, hash);
    }
}

impl Clone for InMemoryDb {
    fn clone(&self) -> (r: Self)
        ensures
            r.model() == self.model(),
    {
        InMemoryDb {
            accounts: self.accounts.clone(),
            codes: self.codes.clone(),
            storage: self.storage.clone(),
            block_hashes: self.block_hashes.clone(),
        }
    }
}

impl Database for InMemoryDb {
    type Error = NoError;

    open spec fn model(&self) -> DbModel {
        DbModel {
            accounts: self.accounts@,
            codes: self.codes@,
            storage: self.storage@,
            block_hashes: self.block_hashes@,
        }
    }

    fn basic(&mut self, address: Address) -> (r: Result<Option<AccountInfo>, NoError>)
        ensures
            r is Ok,
    {
        match self.accounts.get(&address) {
            Some(info) => Ok(Some(info.clone())),
            None => Ok(None),
        }
    }

    fn code_by_hash(&mut self, code_hash: B256) -> (r: Result<Bytecode, NoError>)
        ensures
            r is Ok,
    {
        match self.codes.get(&code_hash) {
            Some(code) => Ok(code.clone()),
            None => Ok(Bytecode::new()),
        }
    }

    fn storage(&mut self, address: Address, index: U256) -> (r: Result<U256, NoError>)
        ensures
            r is Ok,
    {
        match self.storage.get(&SlotKey { address, index }) {
            Some(value) => Ok(*value),
            None => Ok(U256::zero()),
        }
    }

    fn block_hash(&mut self, number: U256) -> (r: Result<B256, NoError>)
        ensures
            r is Ok,
    {
        match self.block_hashes.get(&number) {
            Some(hash) => Ok(*hash),
            None => Ok(B256::zero()),
        }
    }
}

} // verus!
