//! The environment of an execution: configuration, block and transaction.

use vstd::prelude::*;
use crate::primitives::{Address, B256, U256};

verus! {

/// Whether code is analysed when it is deployed.
#[derive(Clone, Copy, Debug, PartialEq, Eq, Structural, Hash)]
pub enum AnalysisKind {
    /// Keep the code as it came.
    Raw,
    /// Build the jump table at once.
    Analyse,
}

/// The configuration of the machine.
#[derive(Clone, Copy, Debug, PartialEq, Eq, Structural)]
pub struct CfgEnv {
    pub chain_id: u64,
    /// The most bytes of code that a contract may hold; 24576 where unset.
    pub limit_contract_code_size: Option<usize>,
    pub perf_analyse_created_bytecodes: AnalysisKind,
    pub disable_balance_check: bool,
    pub disable_block_gas_limit: bool,
    pub disable_eip3607: bool,
    pub disable_gas_refund: bool,
    pub disable_base_fee: bool,
    pub disable_beneficiary_reward: bool,
}

/// The block in which the transaction runs.
#[derive(Clone, Copy, Debug, PartialEq, Eq, Structural)]
pub struct BlockEnv {
    pub number: U256,
    pub coinbase: Address,
    pub timestamp: U256,
    pub gas_limit: U256,
    pub basefee: U256,
    pub difficulty: U256,
    pub prevrandao: Option<B256>,
}

/// An address that the transaction declares it will access, with its slots.
#[derive(Debug)]
pub struct AccessListItem {
    pub address: Address,
    pub storage_keys: Vec<U256>,
}

impl Clone for AccessListItem {
    fn clone(&self) -> (r: Self)
        ensures
            r.address == self.address,
            r.storage_keys@ == self.storage_keys@,
    {
        AccessListItem { address: self.address, storage_keys: self.storage_keys.clone() }
    }
}

/// The transaction.
#[derive(Debug)]
pub struct TxEnv {
    pub caller: Address,
    pub gas_limit: u64,
    pub gas_price: U256,
    pub value: U256,
    pub data: Vec<u8>,
    /// The nonce of the transaction, where it is checked.
    pub nonce: Option<u64>,
    pub chain_id: Option<u64>,
    pub access_list: Vec<AccessListItem>,
}

/// Everything that an execution is given from outside.
#[derive(Debug)]
pub struct Env {
    pub cfg: CfgEnv,
    pub block: BlockEnv,
    pub tx: TxEnv,
}

/// The access list as a value: each address with its slots.
pub open spec fn access_list_view(list: Seq<AccessListItem>) -> Seq<(Address, Seq<U256>)> {
    Seq::new(list.len(), |i: int| (list[i].address, list[i].storage_keys@))
}

/// An environment as a value.
#[verifier::ext_equal]
pub struct EnvModel {
    pub cfg: CfgEnv,
    pub block: BlockEnv,
    pub caller: Address,
    pub gas_limit: u64,
    pub gas_price: U256,
    pub value: U256,
    pub data: Seq<u8>,
    pub nonce: Option<u64>,
    pub chain_id: Option<u64>,
    pub access_list: Seq<(Address, Seq<U256>)>,
}

impl View for Env {
    type V = EnvModel;

    open spec fn view(&self) -> EnvModel {
        EnvModel {
            cfg: self.cfg,
            block: self.block,
            caller: self.tx.caller,
            gas_limit: self.tx.gas_limit,
            gas_price: self.tx.gas_price,
            value: self.tx.value,
            data: self.tx.data@,
            nonce: self.tx.nonce,
            chain_id: self.tx.chain_id,
            access_list: access_list_view(self.tx.access_list@),
        }
    }
}

impl CfgEnv {
    /// The configuration of the main network.
    pub open spec fn default_spec() -> CfgEnv {
        CfgEnv {
            chain_id: 1,
            limit_contract_code_size: None,
            perf_analyse_created_bytecodes: AnalysisKind::Analyse,
            disable_balance_check: false,
            disable_block_gas_limit: false,
            disable_eip3607: false,
            disable_gas_refund: false,
            disable_base_fee: false,
            disable_beneficiary_reward: false,
        }
    }
}

impl BlockEnv {
    /// A block in which every field is zero, with no randomness set.
    pub open spec fn default_spec() -> BlockEnv {
        BlockEnv {
            number: U256 { hi: 0, lo: 0 },
            coinbase: Address { hi: 0, lo: 0 },
            timestamp: U256 { hi: 0, lo: 0 },
            gas_limit: U256 { hi: 0, lo: 0 },
            basefee: U256 { hi: 0, lo: 0 },
            difficulty: U256 { hi: 0, lo: 0 },
            prevrandao: None,
        }
    }
}

impl EnvModel {
    /// The environment that an execution starts from unless it is given one.
    pub open spec fn default_spec() -> EnvModel {
        EnvModel {
            cfg: CfgEnv::default_spec(),
            block: BlockEnv::default_spec(),
            caller: Address { hi: 0, lo: 0 },
            gas_limit: u64::MAX,
            gas_price: U256 { hi: 0, lo: 0 },
            value: U256 { hi: 0, lo: 0 },
            data: Seq::empty(),
            nonce: None,
            chain_id: None,
            access_list: Seq::empty(),
        }
    }
}

impl Default for CfgEnv {
    fn default() -> (r: CfgEnv)
        ensures
            r == CfgEnv::default_spec(),
    {
        CfgEnv {
            chain_id: 1,
            limit_contract_code_size: None,
            perf_analyse_created_bytecodes: AnalysisKind::Analyse,
            disable_balance_check: false,
            disable_block_gas_limit: false,
            disable_eip3607: false,
            disable_gas_refund: false,
            disable_base_fee: false,
            disable_beneficiary_reward: false,
        }
    }
}

impl Default for BlockEnv {
    fn default() -> (r: BlockEnv)
        ensures
            r == BlockEnv::default_spec(),
    {
        BlockEnv {
            number: U256::zero(),
            coinbase: Address::zero(),
            timestamp: U256::zero(),
            gas_limit: U256::zero(),
            basefee: U256::zero(),
            difficulty: U256::zero(),
            prevrandao: None,
        }
    }
}

impl Default for TxEnv {
    fn default() -> (r: TxEnv)
        ensures
            r.caller == (Address { hi: 0, lo: 0 }),
            r.gas_limit == u64::MAX,
            r.gas_price == (U256 { hi: 0, lo: 0 }),
            r.value == (U256 { hi: 0, lo: 0 }),
            r.data@ == Seq::<u8>::empty(),
            r.nonce == None::<u64>,
            r.chain_id == None::<u64>,
            r.access_list@ == Seq::<AccessListItem>::empty(),
    {
        TxEnv {
            caller: Address::zero(),
            gas_limit: u64::MAX,
            gas_price: U256::zero(),
            value: U256::zero(),
            data: Vec::new(),
            nonce: None,
            chain_id: None,
            access_list: Vec::new(),
        }
    }
}

impl Default for Env {
    fn default() -> (r: Env)
        ensures
            r@ == EnvModel::default_spec(),
    {
        let r = Env { cfg: CfgEnv::default(), block: BlockEnv::default(), tx: TxEnv::default() };
        assert(r@ =~~= EnvModel::default_spec());
        r
    }
}

impl Clone for Env {
    fn clone(&self) -> (r: Self)
        ensures
            r@ == self@,
    {
        let mut access_list: Vec<AccessListItem> = Vec::new();
        let mut i: usize = 0;
        while i < self.tx.access_list.len()
            invariant
                i <= self.tx.access_list@.len(),
                access_list@.len() == i,
                forall|j: int|
                    0 <= j < i ==> access_list@[j].address == self.tx.access_list@[j].address
                        && access_list@[j].storage_keys@ == self.tx.access_list@[j].storage_keys@,
            decreases self.tx.access_list@.len() - i,
        {
            access_list.push(self.tx.access_list[i].clone());
            i += 1;
        }
        let r = Env {
            cfg: self.cfg,
            block: self.block,
            tx: TxEnv {
                caller: self.tx.caller,
                gas_limit: self.tx.gas_limit,
                gas_price: self.tx.gas_price,
                value: self.tx.value,
                data: self.tx.data.clone(),
                nonce: self.tx.nonce,
                chain_id: self.tx.chain_id,
                access_list,
            },
        };
        assert(r@.access_list =~= self@.access_list);
        r
    }
}

} // verus!
