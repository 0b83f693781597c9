//! Contract code in its three forms, and the analysis that finds the places a
//! jump may land on.

use vstd::prelude::*;
use crate::eof::Eof;
use crate::hash::{keccak256, keccak256_spec};
use crate::primitives::B256;

verus! {

/// The opcode that marks a place a jump may land on.
pub const JUMPDEST: u8 = 0x5b;

/// The first of the 32 opcodes that push the bytes that follow them.
pub const PUSH1: u8 = 0x60;

/// The last of the opcodes that push the bytes that follow them.
pub const PUSH32: u8 = 0x7f;

/// The number of bytes after the opcode that belong to it.
pub open spec fn immediate_len(op: u8) -> nat {
    if PUSH1 <= op <= PUSH32 {
        (op - PUSH1 + 1) as nat
    } else {
        0
    }
}

/// Whether stepping from instruction to instruction, starting at `from`, arrives
/// at `pc`.
pub open spec fn reaches(code: Seq<u8>, from: int, pc: int) -> bool
    decreases (if from < code.len() { code.len() - from } else { 0 }),
{
    if from >= pc || from >= code.len() || from < 0 {
        from == pc
    } else {
        reaches(code, from + 1 + immediate_len(code[from]), pc)
    }
}

/// Whether a jump may land on `pc`: an instruction starts there, and it is
/// `JUMPDEST`.
pub open spec fn is_jumpdest(code: Seq<u8>, pc: int) -> bool {
    0 <= pc < code.len() && code[pc] == JUMPDEST && reaches(code, 0, pc)
}

/// For each position of the code, whether a jump may land on it.
pub open spec fn jump_table_spec(code: Seq<u8>) -> Seq<bool> {
    Seq::new(code.len(), |pc: int| is_jumpdest(code, pc))
}

/// For each position of `code`, whether a jump may land on it.
pub fn analyse(code: &Vec<u8>) -> (table: Vec<bool>)
    ensures
        table@ == jump_table_spec(code@),
{
    let len: usize = code.len();
    let mut table: Vec<bool> = Vec::new();
    let mut k: usize = 0;
    while k < len
        invariant
            k <= len,
            table@.len() == k,
            forall|j: int| 0 <= j < k ==> !table@[j],
        decreases len - k,
    {
        table.push(false);
        k += 1;
    }
    let mut i: usize = 0;
    while i < len
        invariant
            i <= len,
            len == code@.len(),
            table@.len() == len,
            forall|pc: int| 0 <= pc < i ==> table@[pc] == is_jumpdest(code@, pc),
            forall|pc: int| i <= pc < len ==> !table@[pc],
            forall|pc: int| i <= pc < len ==> reaches(code@, 0, pc) == reaches(code@, i as int, pc),
        decreases len - i,
    {
        let op: u8 = code[i];
        let ghost next: int = i + 1 + immediate_len(op);
        proof {
            assert(reaches(code@, i as int, i as int));
            assert forall|pc: int| i < pc < len implies reaches(code@, i as int, pc) == reaches(
                code@,
                next,
                pc,
            ) by {}
            assert forall|pc: int| i < pc < len && pc < next implies !reaches(code@, next, pc) by {}
        }
        if op == JUMPDEST {
            table.set(i, true);
            i += 1;
        } else if op >= PUSH1 && op <= PUSH32 {
            let skip: usize = (op - PUSH1) as usize + 1;
            if skip >= len - i - 1 {
                i = len;
            } else {
                i += skip + 1;
            }
        } else {
            i += 1;
        }
    }
    assert(table@ =~= jump_table_spec(code@));
    table
}

/// Code with the table of the places a jump may land on.
#[derive(Debug)]
pub struct AnalysedCode {
    pub bytes: Vec<u8>,
    pub jump_table: Vec<bool>,
}

/// Contract code: as it came, with its jump table, or as a decoded container.
#[derive(Debug)]
pub enum Bytecode {
    Raw(Vec<u8>),
    Analysed(AnalysedCode),
    Eof(Eof),
}

/// Contract code as a value: the bytes, and for analysed code the jump table.
#[verifier::ext_equal]
pub enum BytecodeModel {
    Raw(Seq<u8>),
    Analysed(Seq<u8>, Seq<bool>),
    Eof(Seq<u8>),
}

impl BytecodeModel {
    /// The bytes of the code as they were deployed.
    pub open spec fn original_bytes(self) -> Seq<u8> {
        match self {
            BytecodeModel::Raw(bytes) => bytes,
            BytecodeModel::Analysed(bytes, _) => bytes,
            BytecodeModel::Eof(raw) => raw,
        }
    }

    pub open spec fn is_eof(self) -> bool {
        self is Eof
    }

    /// The hash under which the code is kept: that of its bytes, and the fixed
    /// hash of nothing for empty code.
    pub open spec fn hash(self) -> B256 {
        if self.original_bytes().len() == 0 {
            B256::keccak_empty_spec()
        } else {
            keccak256_spec(self.original_bytes())
        }
    }

    /// The analysed form: raw code gets its jump table, the other forms stay.
    pub open spec fn analysed(self) -> BytecodeModel {
        match self {
            BytecodeModel::Raw(bytes) => BytecodeModel::Analysed(bytes, jump_table_spec(bytes)),
            _ => self,
        }
    }
}

impl View for Bytecode {
    type V = BytecodeModel;

    open spec fn view(&self) -> BytecodeModel {
        match self {
            Bytecode::Raw(bytes) => BytecodeModel::Raw(bytes@),
            Bytecode::Analysed(code) => BytecodeModel::Analysed(code.bytes@, code.jump_table@),
            Bytecode::Eof(eof) => BytecodeModel::Eof(eof@),
        }
    }
}

impl Clone for Bytecode {
    fn clone(&self) -> (r: Self)
        ensures
            r@ == self@,
    {
        match self {
            Bytecode::Raw(bytes) => Bytecode::Raw(bytes.clone()),
            Bytecode::Analysed(code) => Bytecode::Analysed(
                AnalysedCode { bytes: code.bytes.clone(), jump_table: code.jump_table.clone() },
            ),
            Bytecode::Eof(eof) => Bytecode::Eof(eof.clone()),
        }
    }
}

impl Bytecode {
    /// Empty code.
    pub fn new() -> (r: Bytecode)
        ensures
            r@ == BytecodeModel::Raw(Seq::empty()),
    {
        Bytecode::Raw(Vec::new())
    }

    /// Code as it came, not analysed.
    pub fn new_raw(bytes: Vec<u8>) -> (r: Bytecode)
        ensures
            r@ == BytecodeModel::Raw(bytes@),
    {
        Bytecode::Raw(bytes)
    }

    pub fn is_eof(&self) -> (r: bool)
        ensures
            r == self@.is_eof(),
    {
        match self {
            Bytecode::Eof(_) => true,
            _ => false,
        }
    }

    /// The bytes of the code as they were deployed.
    pub fn original_bytes(&self) -> (r: &Vec<u8>)
        ensures
            r@ == self@.original_bytes(),
    {
        match self {
            Bytecode::Raw(bytes) => bytes,
            Bytecode::Analysed(code) => &code.bytes,
            Bytecode::Eof(eof) => eof.raw(),
        }
    }

    pub fn len(&self) -> (r: usize)
        ensures
            r == self@.original_bytes().len(),
    {
        self.original_bytes().len()
    }

    pub fn is_empty(&self) -> (r: bool)
        ensures
            r == (self@.original_bytes().len() == 0),
    {
        self.original_bytes().len() == 0
    }

    /// The hash under which the code is kept.
    pub fn hash_slow(&self) -> (r: B256)
        ensures
            r == self@.hash(),
    {
        if self.is_empty() {
            B256::keccak_empty()
        } else {
            keccak256(self.original_bytes().as_slice())
        }
    }
}

/// Analyses raw code; code in another form is handed back as it is.
pub fn to_analysed(bytecode: Bytecode) -> (r: Bytecode)
    ensures
        r@ == bytecode@.analysed(),
{
    match bytecode {
        Bytecode::Raw(bytes) => {
            let jump_table = analyse(&bytes);
            Bytecode::Analysed(AnalysedCode { bytes, jump_table })
        },
        other => other,
    }
}

} // verus!
