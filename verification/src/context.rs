//! The context that the interpreter works through: the environment, the journaled
//! state and the database, with the operations behind the opcodes that touch the
//! state.

use vstd::prelude::*;
use crate::account::Account;
use crate::db::{Database, DbModel};
use crate::env::{Env, EnvModel};
use crate::error::EVMError;
use crate::interpreter::{LoadAccountResult, SStoreResult, SelfDestructResult};
use crate::journal_model::JournalModel;
use crate::journaled_state::{AddressSet, JournaledState};
use crate::optimism::L1BlockInfo;
use crate::primitives::{Address, B256, U256};
use crate::spec_id::SpecId;

verus! {

/// What the machine needs to run a transaction.
pub struct InnerEvmContext<DB: Database> {
    /// Configuration, block and transaction.
    pub env: Box<Env>,
    /// The state, with its journal.
    pub journaled_state: JournaledState,
    /// The database that the state reads from.
    pub db: DB,
    /// An error of the database that came up where none could be returned.
    pub error: Result<(), EVMError<DB::Error>>,
    /// The fee data of the L1 block, on an Optimism chain.
    pub l1_block_info: Option<L1BlockInfo>,
}

/// The two bytes that the code of an EOF account reads as from outside.
pub open spec fn eof_magic_bytes() -> Seq<u8> {
    seq![0xEFu8, 0x00u8]
}

/// The state after the addresses of an access list are loaded, in order.
pub open spec fn load_access_list_spec(
    s: JournalModel,
    db: DbModel,
    list: Seq<(Address, Seq<U256>)>,
) -> JournalModel
    decreases list.len(),
{
    if list.len() == 0 {
        s
    } else {
        let (address, slots) = list.last();
        load_access_list_spec(s, db, list.drop_last()).initial_account_load(
            address,
            db.account(address),
            slots,
            |k: U256| db.slot(address, k),
        )
    }
}

/// The code that an account shows to `EXTCODECOPY`: the two magic bytes for an
/// EOF account, else its bytes.
pub open spec fn visible_code(account: crate::account::AccountModel) -> Seq<u8> {
    let code = account.info.code->0;
    if code.is_eof() {
        eof_magic_bytes()
    } else {
        code.original_bytes()
    }
}

/// The code hash that an account shows to `EXTCODEHASH`: zero for an empty
/// account, the hash of the two magic bytes for an EOF account, else its code
/// hash.
pub open spec fn visible_code_hash(account: crate::account::AccountModel) -> B256 {
    if account.is_empty() {
        B256 { hi: 0, lo: 0 }
    } else if account.info.code is Some && account.info.code->0.is_eof() {
        B256::eof_magic_hash_spec()
    } else {
        account.info.code_hash
    }
}

impl<DB: Database + Clone> Clone for InnerEvmContext<DB> where DB::Error: Clone {
    fn clone(&self) -> (r: Self)
        ensures
            r.env@ == self.env@,
            r.journaled_state@ == self.journaled_state@,
            cloned(self.db, r.db),
            r.error is Ok <==> self.error is Ok,
            r.l1_block_info == self.l1_block_info,
    {
        InnerEvmContext {
            env: Box::new(Env::clone(&self.env)),
            journaled_state: self.journaled_state.clone(),
            db: self.db.clone(),
            error: clone_error(&self.error),
            l1_block_info: self.l1_block_info,
        }
    }
}

/// A copy of a pending error.
pub fn clone_error<E: Clone>(error: &Result<(), EVMError<E>>) -> (r: Result<(), EVMError<E>>)
    ensures
        r is Ok <==> error is Ok,
        match (r, *error) {
            (Err(EVMError::Transaction(a)), Err(EVMError::Transaction(b))) => a == b,
            (Err(EVMError::Header(a)), Err(EVMError::Header(b))) => a == b,
            (Err(EVMError::Database(a)), Err(EVMError::Database(b))) => cloned(b, a),
            (Err(EVMError::Custom(a)), Err(EVMError::Custom(b))) => a@ == b@,
            (Err(EVMError::Precompile(a)), Err(EVMError::Precompile(b))) => a@ == b@,
            (Ok(_), Ok(_)) => true,
            _ => false,
        },
{
    match error {
        Ok(_) => Ok(()),
        Err(EVMError::Transaction(e)) => Err(EVMError::Transaction(*e)),
        Err(EVMError::Header(e)) => Err(EVMError::Header(*e)),
        Err(EVMError::Database(e)) => Err(EVMError::Database(e.clone())),
        Err(EVMError::Custom(text)) => Err(EVMError::Custom(text.clone())),
        Err(EVMError::Precompile(text)) => Err(EVMError::Precompile(text.clone())),
    }
}

impl<DB: Database> InnerEvmContext<DB> {
    /// Whether `self` and `other` differ in the journaled state at most: the
    /// environment, the pending error and the L1 block info are the same, and
    /// the database holds the same.
    pub open spec fn same_but_state(self, other: Self) -> bool {
        &&& self.env == other.env
        &&& self.error == other.error
        &&& self.l1_block_info == other.l1_block_info
        &&& self.db.model() == other.db.model()
    }

    /// A context over `db` with the default environment and an empty state under
    /// the latest rules.
    pub fn new(db: DB) -> (r: Self)
        ensures
            r.env@ == EnvModel::default_spec(),
            r.journaled_state@ == JournalModel::initial(SpecId::LATEST, Set::empty()),
            r.db == db,
            r.error is Ok,
            r.l1_block_info is None,
    {
        InnerEvmContext {
            env: Box::new(Env::default()),
            journaled_state: JournaledState::new(SpecId::LATEST, AddressSet::new()),
            db,
            error: Ok(()),
            l1_block_info: None,
        }
    }

    /// A context over `db` with the environment `env` and an empty state under
    /// the latest rules.
    pub fn new_with_env(db: DB, env: Box<Env>) -> (r: Self)
        ensures
            r.env == env,
            r.journaled_state@ == JournalModel::initial(SpecId::LATEST, Set::empty()),
            r.db == db,
            r.error is Ok,
            r.l1_block_info is None,
    {
        InnerEvmContext {
            env,
            journaled_state: JournaledState::new(SpecId::LATEST, AddressSet::new()),
            db,
            error: Ok(()),
            l1_block_info: None,
        }
    }

    /// The same context over another database. A pending error is dropped.
    pub fn with_db<ODB: Database>(self, db: ODB) -> (r: InnerEvmContext<ODB>)
        ensures
            r.env == self.env,
            r.journaled_state == self.journaled_state,
            r.db == db,
            r.error is Ok,
            r.l1_block_info == self.l1_block_info,
    {
        InnerEvmContext {
            env: self.env,
            journaled_state: self.journaled_state,
            db,
            error: Ok(()),
            l1_block_info: self.l1_block_info,
        }
    }

    /// The hard fork whose rules the state applies.
    pub fn spec_id(&self) -> (r: SpecId)
        ensures
            r == self.journaled_state.spec,
    {
        self.journaled_state.spec
    }

    /// Loads the access list of the transaction: its addresses and slots are warm
    /// from now on, and no revert makes them cold. Where the database fails, the
    /// items before the failing one are loaded.
    pub fn load_access_list(&mut self) -> (r: Result<(), EVMError<DB::Error>>)
        ensures
            final(self).same_but_state(*old(self)),
            match r {
                Ok(_) => final(self).journaled_state@ == load_access_list_spec(
                    old(self).journaled_state@,
                    old(self).db.model(),
                    old(self).env@.access_list,
                ),
                Err(e) => e is Database && exists|n: int|
                    0 <= n < old(self).env@.access_list.len() && final(self).journaled_state@
                        == load_access_list_spec(
                        old(self).journaled_state@,
                        old(self).db.model(),
                        #[trigger] old(self).env@.access_list.subrange(0, n),
                    ),
            },
            old(self).env@.access_list.len() == 0 ==> r is Ok,
    {
        let ghost list = self.env@.access_list;
        let ghost start = self.journaled_state@;
        let ghost model = self.db.model();
        let mut i: usize = 0;
        while i < self.env.tx.access_list.len()
            invariant
                i <= self.env.tx.access_list@.len(),
                self.same_but_state(*old(self)),
                list == old(self).env@.access_list,
                start == old(self).journaled_state@,
                model == old(self).db.model(),
                self.journaled_state@ == load_access_list_spec(start, model, list.subrange(0, i as int)),
            decreases self.env.tx.access_list@.len() - i,
        {
            let address = self.env.tx.access_list[i].address;
            let loaded = self.journaled_state.initial_account_load(
                address,
                &self.env.tx.access_list[i].storage_keys,
                &mut self.db,
            );
            match loaded {
                Ok(_) => {},
                Err(e) => {
                    return Err(e);
                },
            }
            proof {
                let next = list.subrange(0, i + 1);
                assert(next.drop_last() =~= list.subrange(0, i as int));
                assert(next.last() == list[i as int]);
            }
            i += 1;
        }
        proof {
            assert(list.subrange(0, i as int) =~= list);
        }
        Ok(())
    }

    /// The environment.
    pub fn env(&mut self) -> (r: &mut Env)
        ensures
            *r == *old(self).env,
            *final(self).env == *final(r),
            final(self).journaled_state == old(self).journaled_state,
            final(self).db == old(self).db,
            final(self).error == old(self).error,
            final(self).l1_block_info == old(self).l1_block_info,
    {
        &mut self.env
    }

    /// Hands back the pending error, if there is one, and leaves none behind.
    pub fn take_error(&mut self) -> (r: Result<(), EVMError<DB::Error>>)
        ensures
            r == old(self).error,
            final(self).error == Ok::<(), EVMError<DB::Error>>(()),
            final(self).env == old(self).env,
            final(self).journaled_state == old(self).journaled_state,
            final(self).db == old(self).db,
            final(self).l1_block_info == old(self).l1_block_info,
    {
        let mut taken: Result<(), EVMError<DB::Error>> = Ok(());
        core::mem::swap(&mut taken, &mut self.error);
        taken
    }

    /// The hash of the block with number `number`, as the database holds it.
    pub fn block_hash(&mut self, number: U256) -> (r: Result<B256, EVMError<DB::Error>>)
        ensures
            final(self).same_but_state(*old(self)),
            final(self).journaled_state == old(self).journaled_state,
            match r {
                Ok(hash) => hash == old(self).db.model().block_hash(number),
                Err(e) => e is Database,
            },
    {
        match self.db.block_hash(number) {
            Ok(hash) => Ok(hash),
            Err(e) => Err(EVMError::Database(e)),
        }
    }

    /// Marks `address` as touched: only touched accounts are written back.
    pub fn touch(&mut self, address: &Address)
        ensures
            final(self).same_but_state(*old(self)),
            final(self).journaled_state@ == old(self).journaled_state@.touch(*address),
    {
        self.journaled_state.touch(address);
    }

    /// Loads `address` into the cache. Hands back the account and whether the
    /// access was cold.
    pub fn load_account(&mut self, address: Address) -> (r: Result<
        (&Account, bool),
        EVMError<DB::Error>,
    >)
        ensures
            final(self).same_but_state(*old(self)),
            match r {
                Ok((account, is_cold)) => {
                    &&& final(self).journaled_state@ == old(self).journaled_state@.load_account(
                        address,
                        old(self).db.model().account(address),
                    )
                    &&& is_cold == old(self).journaled_state@.is_cold(address)
                    &&& final(self).journaled_state@.has(address)
                    &&& account@ == final(self).journaled_state@.accounts[address]
                },
                Err(e) => final(self).journaled_state@ == old(self).journaled_state@ && !old(
                    self,
                ).journaled_state@.has(address) && e is Database,
            },
            old(self).journaled_state@.has(address) ==> r is Ok,
    {
        self.journaled_state.load_account(address, &mut self.db)
    }

    /// Loads `address` and says whether the access was cold and whether the
    /// account is anything but empty.
    pub fn load_account_exist(&mut self, address: Address) -> (r: Result<
        LoadAccountResult,
        EVMError<DB::Error>,
    >)
        ensures
            final(self).same_but_state(*old(self)),
            match r {
                Ok(res) => {
                    &&& final(self).journaled_state@ == old(self).journaled_state@.load_account(
                        address,
                        old(self).db.model().account(address),
                    )
                    &&& res == old(self).journaled_state@.load_account_exist_result(
                        address,
                        old(self).db.model().account(address),
                    )
                },
                Err(e) => final(self).journaled_state@ == old(self).journaled_state@ && !old(
                    self,
                ).journaled_state@.has(address) && e is Database,
            },
            old(self).journaled_state@.has(address) ==> r is Ok,
    {
        self.journaled_state.load_account_exist(address, &mut self.db)
    }

    /// The balance of `address`, and whether the access was cold.
    pub fn balance(&mut self, address: Address) -> (r: Result<(U256, bool), EVMError<DB::Error>>)
        ensures
            final(self).same_but_state(*old(self)),
            match r {
                Ok((balance, is_cold)) => {
                    &&& final(self).journaled_state@ == old(self).journaled_state@.load_account(
                        address,
                        old(self).db.model().account(address),
                    )
                    &&& is_cold == old(self).journaled_state@.is_cold(address)
                    &&& final(self).journaled_state@.has(address)
                    &&& balance == final(self).journaled_state@.accounts[address].info.balance
                },
                Err(e) => final(self).journaled_state@ == old(self).journaled_state@ && !old(
                    self,
                ).journaled_state@.has(address) && e is Database,
            },
            old(self).journaled_state@.has(address) ==> r is Ok,
    {
        match self.journaled_state.load_account(address, &mut self.db) {
            Ok((account, is_cold)) => Ok((account.info.balance, is_cold)),
            Err(e) => Err(e),
        }
    }

    /// The code of `address` as it shows from outside, and whether the access was
    /// cold: the two magic bytes for an EOF account, else the bytes of the code.
    pub fn code(&mut self, address: Address) -> (r: Result<(Vec<u8>, bool), EVMError<DB::Error>>)
        ensures
            final(self).same_but_state(*old(self)),
            match r {
                Ok((code, is_cold)) => {
                    &&& final(self).journaled_state@ == old(self).journaled_state@.load_code(
                        address,
                        old(self).db.model().account(address),
                        old(self).db.model().code(
                            old(self).journaled_state@.load_account(
                                address,
                                old(self).db.model().account(address),
                            ).accounts[address].info.code_hash,
                        ),
                    )
                    &&& is_cold == old(self).journaled_state@.is_cold(address)
                    &&& code@ == visible_code(final(self).journaled_state@.accounts[address])
                },
                Err(e) => {
                    &&& e is Database
                    &&& (!old(self).journaled_state@.has(address) && final(self).journaled_state@
                        == old(self).journaled_state@) || (old(self).journaled_state@.needs_code(
                        address,
                        old(self).db.model().account(address),
                    ) && final(self).journaled_state@ == old(self).journaled_state@.load_account(
                        address,
                        old(self).db.model().account(address),
                    ))
                },
            },
            old(self).journaled_state@.has(address) && !old(self).journaled_state@.needs_code(
                address,
                old(self).db.model().account(address),
            ) ==> r is Ok,
    {
        match self.journaled_state.load_code(address, &mut self.db) {
            Ok((account, is_cold)) => {
                match &account.info.code {
                    Some(code) => {
                        if code.is_eof() {
                            let mut magic: Vec<u8> = Vec::new();
                            magic.push(0xEF);
                            magic.push(0x00);
                            assert(magic@ =~= eof_magic_bytes());
                            Ok((magic, is_cold))
                        } else {
                            Ok((code.original_bytes().clone(), is_cold))
                        }
                    },
                    None => Ok((Vec::new(), is_cold)),
                }
            },
            Err(e) => Err(e),
        }
    }

    /// The code hash of `address` as it shows from outside, and whether the access
    /// was cold: zero for an empty account, the hash of the two magic bytes for
    /// an EOF account, else the code hash.
    pub fn code_hash(&mut self, address: Address) -> (r: Result<(B256, bool), EVMError<DB::Error>>)
        ensures
            final(self).same_but_state(*old(self)),
            match r {
                Ok((hash, is_cold)) => {
                    &&& final(self).journaled_state@ == old(self).journaled_state@.load_code(
                        address,
                        old(self).db.model().account(address),
                        old(self).db.model().code(
                            old(self).journaled_state@.load_account(
                                address,
                                old(self).db.model().account(address),
                            ).accounts[address].info.code_hash,
                        ),
                    )
                    &&& is_cold == old(self).journaled_state@.is_cold(address)
                    &&& hash == visible_code_hash(final(self).journaled_state@.accounts[address])
                },
                Err(e) => {
                    &&& e is Database
                    &&& (!old(self).journaled_state@.has(address) && final(self).journaled_state@
                        == old(self).journaled_state@) || (old(self).journaled_state@.needs_code(
                        address,
                        old(self).db.model().account(address),
                    ) && final(self).journaled_state@ == old(self).journaled_state@.load_account(
                        address,
                        old(self).db.model().account(address),
                    ))
                },
            },
            old(self).journaled_state@.has(address) && !old(self).journaled_state@.needs_code(
                address,
                old(self).db.model().account(address),
            ) ==> r is Ok,
    {
        match self.journaled_state.load_code(address, &mut self.db) {
            Ok((account, is_cold)) => {
                if account.is_empty() {
                    return Ok((B256::zero(), is_cold));
                }
                let eof: bool = match &account.info.code {
                    Some(code) => code.is_eof(),
                    None => false,
                };
                if eof {
                    return Ok((B256::eof_magic_hash(), is_cold));
                }
                Ok((account.info.code_hash, is_cold))
            },
            Err(e) => Err(e),
        }
    }

    /// Reads a slot of `address`, which is cached. Hands back the value and
    /// whether the access was cold.
    pub fn sload(&mut self, address: Address, index: U256) -> (r: Result<
        (U256, bool),
        EVMError<DB::Error>,
    >)
        requires
            old(self).journaled_state@.has(address),
        ensures
            final(self).same_but_state(*old(self)),
            match r {
                Ok(res) => {
                    &&& final(self).journaled_state@ == old(self).journaled_state@.sload(
                        address,
                        index,
                        old(self).db.model().slot(address, index),
                    )
                    &&& res == old(self).journaled_state@.sload_result(
                        address,
                        index,
                        old(self).db.model().slot(address, index),
                    )
                },
                Err(e) => final(self).journaled_state@ == old(self).journaled_state@ && old(
                    self,
                ).journaled_state@.needs_slot(address, index) && e is Database,
            },
            !old(self).journaled_state@.needs_slot(address, index) ==> r is Ok,
    {
        self.journaled_state.sload(address, index, &mut self.db)
    }

    /// Writes a slot of `address`, which is cached. Hands back the three values
    /// that price the write and whether the access was cold.
    pub fn sstore(&mut self, address: Address, index: U256, value: U256) -> (r: Result<
        SStoreResult,
        EVMError<DB::Error>,
    >)
        requires
            old(self).journaled_state@.has(address),
        ensures
            final(self).same_but_state(*old(self)),
            match r {
                Ok(res) => {
                    &&& final(self).journaled_state@ == old(self).journaled_state@.sstore(
                        address,
                        index,
                        value,
                        old(self).db.model().slot(address, index),
                    )
                    &&& res == old(self).journaled_state@.sstore_result(
                        address,
                        index,
                        value,
                        old(self).db.model().slot(address, index),
                    )
                },
                Err(e) => final(self).journaled_state@ == old(self).journaled_state@ && old(
                    self,
                ).journaled_state@.needs_slot(address, index) && e is Database,
            },
            !old(self).journaled_state@.needs_slot(address, index) ==> r is Ok,
    {
        self.journaled_state.sstore(address, index, value, &mut self.db)
    }

    /// The value of a transient slot.
    pub fn tload(&mut self, address: Address, index: U256) -> (value: U256)
        ensures
            *final(self) == *old(self),
            value == old(self).journaled_state@.tload(address, index),
    {
        self.journaled_state.tload(address, index)
    }

    /// Writes a transient slot.
    pub fn tstore(&mut self, address: Address, index: U256, value: U256)
        ensures
            final(self).same_but_state(*old(self)),
            final(self).journaled_state@ == old(self).journaled_state@.tstore(address, index, value),
    {
        self.journaled_state.tstore(address, index, value)
    }

    /// Destroys `address`, which is cached, in favour of `target`.
    pub fn selfdestruct(&mut self, address: Address, target: Address) -> (r: Result<
        SelfDestructResult,
        EVMError<DB::Error>,
    >)
        requires
            old(self).journaled_state@.has(address),
        ensures
            final(self).same_but_state(*old(self)),
            match r {
                Ok(res) => {
                    &&& final(self).journaled_state@ == old(self).journaled_state@.selfdestruct(
                        address,
                        target,
                        old(self).db.model().account(target),
                    )
                    &&& res == old(self).journaled_state@.selfdestruct_result(
                        address,
                        target,
                        old(self).db.model().account(target),
                    )
                },
                Err(e) => final(self).journaled_state@ == old(self).journaled_state@ && !old(
                    self,
                ).journaled_state@.has(target) && e is Database,
            },
            old(self).journaled_state@.has(target) ==> r is Ok,
    {
        self.journaled_state.selfdestruct(address, target, &mut self.db)
    }
}

} // verus!
