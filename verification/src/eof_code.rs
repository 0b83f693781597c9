//! The checks on one code section of a container: every instruction is known and
//! whole, refers to what the container holds, and every relative jump lands on
//! an instruction.

use vstd::prelude::*;
use crate::eof::{read_u16, u16_at, EofValidationError};

verus! {

pub const OP_STOP: u8 = 0x00;

pub const OP_PUSH1: u8 = 0x60;

pub const OP_PUSH32: u8 = 0x7F;

pub const OP_DATALOADN: u8 = 0xD1;

pub const OP_RJUMP: u8 = 0xE0;

pub const OP_RJUMPI: u8 = 0xE1;

pub const OP_RJUMPV: u8 = 0xE2;

pub const OP_CALLF: u8 = 0xE3;

pub const OP_RETF: u8 = 0xE4;

pub const OP_JUMPF: u8 = 0xE5;

pub const OP_DUPN: u8 = 0xE6;

pub const OP_SWAPN: u8 = 0xE7;

pub const OP_EXCHANGE: u8 = 0xE8;

pub const OP_EOFCREATE: u8 = 0xEC;

pub const OP_RETURNCONTRACT: u8 = 0xEE;

pub const OP_RETURN: u8 = 0xF3;

pub const OP_REVERT: u8 = 0xFD;

pub const OP_INVALID: u8 = 0xFE;

/// Whether the opcode may stand in the code of a container: it is defined, and
/// it is none of those that look at code or jump to an absolute place.
pub open spec fn is_eof_opcode(op: u8) -> bool {
    ||| op <= 0x0B
    ||| 0x10 <= op <= 0x1D
    ||| op == 0x20
    ||| 0x30 <= op <= 0x37
    ||| op == 0x3A
    ||| op == 0x3D
    ||| op == 0x3E
    ||| 0x40 <= op <= 0x4A
    ||| 0x50 <= op <= 0x55
    ||| op == 0x59
    ||| 0x5B <= op <= 0xA4
    ||| 0xD0 <= op <= 0xD3
    ||| 0xE0 <= op <= 0xE8
    ||| op == 0xEC
    ||| op == 0xEE
    ||| op == 0xF3
    ||| 0xF7 <= op <= 0xF9
    ||| op == 0xFB
    ||| op == 0xFD
    ||| op == 0xFE
}

/// The number of bytes after the opcode that belong to it, the jump table of
/// `RJUMPV` aside, of which only the count byte is counted here.
pub open spec fn immediate_size(op: u8) -> nat {
    if OP_PUSH1 <= op <= OP_PUSH32 {
        (op - OP_PUSH1 + 1) as nat
    } else if op == OP_DATALOADN || op == OP_RJUMP || op == OP_RJUMPI || op == OP_CALLF || op
        == OP_JUMPF {
        2
    } else if op == OP_RJUMPV || op == OP_DUPN || op == OP_SWAPN || op == OP_EXCHANGE || op
        == OP_EOFCREATE || op == OP_RETURNCONTRACT {
        1
    } else {
        0
    }
}

/// Whether nothing runs after the instruction unless a jump leads there.
pub open spec fn is_terminating(op: u8) -> bool {
    op == OP_STOP || op == OP_RJUMP || op == OP_RETF || op == OP_JUMPF || op == OP_RETURNCONTRACT
        || op == OP_RETURN || op == OP_REVERT || op == OP_INVALID
}

/// The length of the instruction at `pc`: the opcode, its immediate bytes, and
/// for `RJUMPV` two bytes for each entry of its table, of which there is one more
/// than the count byte says.
pub open spec fn instr_len(code: Seq<u8>, pc: int) -> nat {
    let op = code[pc];
    if op == OP_RJUMPV && pc + 1 < code.len() {
        2 + 2 * (code[pc + 1] as nat + 1)
    } else {
        1 + immediate_size(op)
    }
}

/// What a container is for, which decides how its code may end.
#[derive(Clone, Copy, Debug, PartialEq, Eq, Structural, Hash)]
pub enum ContainerKind {
    /// Not decided: the code may end in any way.
    Unrestricted,
    /// Init code, which deploys a container: it may not end with `STOP` or
    /// `RETURN`.
    Init,
    /// Deployed code: it may not end with `RETURNCONTRACT`.
    Runtime,
}

/// What a code section may refer to, and what its container is for.
pub struct CodeContext {
    /// The number of code sections of the container.
    pub num_sections: nat,
    /// The number of sub-containers of the container.
    pub num_containers: nat,
    /// The size of the data section.
    pub data_size: nat,
    pub kind: ContainerKind,
}

/// Whether the opcode may not stand in a container of the kind.
pub open spec fn is_excluded(op: u8, kind: ContainerKind) -> bool {
    match kind {
        ContainerKind::Unrestricted => false,
        ContainerKind::Init => op == OP_STOP || op == OP_RETURN,
        ContainerKind::Runtime => op == OP_RETURNCONTRACT,
    }
}

/// What is wrong with the operand of the instruction at `pc`, if anything: a
/// call or jump to a code section that is not there, a load beyond the data
/// section, or a sub-container that is not there.
pub open spec fn operand_error(code: Seq<u8>, pc: int, ctx: CodeContext) -> Option<
    EofValidationError,
> {
    let op = code[pc];
    if (op == OP_CALLF || op == OP_JUMPF) && u16_at(code, pc + 1) >= ctx.num_sections {
        Some(EofValidationError::CodeSectionOutOfBounds)
    } else if op == OP_DATALOADN && u16_at(code, pc + 1) + 32 > ctx.data_size {
        Some(EofValidationError::DataLoadOutOfBounds)
    } else if (op == OP_EOFCREATE || op == OP_RETURNCONTRACT) && code[pc + 1]
        >= ctx.num_containers {
        Some(EofValidationError::ContainerOutOfBounds)
    } else {
        None
    }
}

/// What is wrong with the instruction at `pc`, if anything: its opcode may not
/// stand in a container, or not in one of this kind, the code ends inside it, or
/// its operand is out of range.
pub open spec fn instruction_error(code: Seq<u8>, pc: int, ctx: CodeContext) -> Option<
    EofValidationError,
> {
    if !is_eof_opcode(code[pc]) {
        Some(EofValidationError::OpcodeDisabled)
    } else if is_excluded(code[pc], ctx.kind) {
        Some(EofValidationError::IncompatibleContainerKind)
    } else if pc + instr_len(code, pc) > code.len() {
        Some(EofValidationError::MissingImmediateBytes)
    } else {
        operand_error(code, pc, ctx)
    }
}

/// The first fault met on the way from instruction to instruction, starting at
/// `pc`; at the end, that the last instruction does not terminate.
pub open spec fn scan_error(code: Seq<u8>, pc: int, ctx: CodeContext, terminated: bool) -> Option<
    EofValidationError,
>
    decreases (if pc < code.len() { code.len() - pc } else { 0 }),
{
    if pc >= code.len() || pc < 0 {
        if terminated {
            None
        } else {
            Some(EofValidationError::LastInstructionNotTerminating)
        }
    } else if instruction_error(code, pc, ctx) is Some {
        instruction_error(code, pc, ctx)
    } else {
        scan_error(code, pc + instr_len(code, pc), ctx, is_terminating(code[pc]))
    }
}

/// Whether stepping from instruction to instruction, starting at `from`, arrives
/// at `pc`.
pub open spec fn starts_at(code: Seq<u8>, from: int, pc: int) -> bool
    decreases (if from < code.len() { code.len() - from } else { 0 }),
{
    if from >= pc || from >= code.len() || from < 0 {
        from == pc
    } else {
        starts_at(code, from + instr_len(code, from), pc)
    }
}

/// The two bytes at `at`, read as a signed offset.
pub open spec fn rel_offset(code: Seq<u8>, at: int) -> int {
    let v = u16_at(code, at);
    if v >= 0x8000 {
        v - 0x10000
    } else {
        v as int
    }
}

/// Whether a jump may land on `target`: it lies in the code, and an instruction
/// starts there.
pub open spec fn target_ok(code: Seq<u8>, target: int) -> bool {
    0 <= target < code.len() && starts_at(code, 0, target)
}

/// Where entry `j` of the table of the `RJUMPV` at `pc` leads. The offsets count
/// from the end of the jump instruction.
pub open spec fn table_target(code: Seq<u8>, pc: int, j: int) -> int {
    pc + instr_len(code, pc) + rel_offset(code, pc + 2 + 2 * j)
}

/// Whether every jump of the instruction at `pc` lands on an instruction. The
/// offsets count from the end of the jump instruction.
pub open spec fn jumps_ok(code: Seq<u8>, pc: int) -> bool {
    let op = code[pc];
    if op == OP_RJUMP || op == OP_RJUMPI {
        target_ok(code, pc + 3 + rel_offset(code, pc + 1))
    } else if op == OP_RJUMPV {
        forall|j: int| 0 <= j <= code[pc + 1] ==> target_ok(code, #[trigger] table_target(code, pc, j))
    } else {
        true
    }
}

/// The fault of the first instruction from `pc` on with a jump that lands
/// nowhere.
pub open spec fn jump_error(code: Seq<u8>, pc: int) -> Option<EofValidationError>
    decreases (if pc < code.len() { code.len() - pc } else { 0 }),
{
    if pc >= code.len() || pc < 0 {
        None
    } else if !jumps_ok(code, pc) {
        Some(EofValidationError::InvalidJumpTarget)
    } else {
        jump_error(code, pc + instr_len(code, pc))
    }
}

/// What is wrong with a code section, if anything: the first fault of an
/// instruction, else the first jump that lands nowhere.
pub open spec fn code_error(code: Seq<u8>, ctx: CodeContext) -> Option<EofValidationError> {
    match scan_error(code, 0, ctx, false) {
        Some(e) => Some(e),
        None => jump_error(code, 0),
    }
}

/// Whether the opcode may stand in the code of a container.
pub fn eof_opcode(op: u8) -> (r: bool)
    ensures
        r == is_eof_opcode(op),
{
    op <= 0x0B || (0x10 <= op && op <= 0x1D) || op == 0x20 || (0x30 <= op && op <= 0x37) || op
        == 0x3A || op == 0x3D || op == 0x3E || (0x40 <= op && op <= 0x4A) || (0x50 <= op && op
        <= 0x55) || op == 0x59 || (0x5B <= op && op <= 0xA4) || (0xD0 <= op && op <= 0xD3) || (0xE0
        <= op && op <= 0xE8) || op == 0xEC || op == 0xEE || op == 0xF3 || (0xF7 <= op && op
        <= 0xF9) || op == 0xFB || op == 0xFD || op == 0xFE
}

/// Whether nothing runs after the instruction unless a jump leads there.
pub fn terminating(op: u8) -> (r: bool)
    ensures
        r == is_terminating(op),
{
    op == OP_STOP || op == OP_RJUMP || op == OP_RETF || op == OP_JUMPF || op == OP_RETURNCONTRACT
        || op == OP_RETURN || op == OP_REVERT || op == OP_INVALID
}

/// The length of the instruction at `pc`.
pub fn instruction_len(code: &[u8], pc: usize) -> (n: usize)
    requires
        pc < code.len(),
    ensures
        n == instr_len(code@, pc as int),
        1 <= n <= 514,
{
    let op = code[pc];
    if op == OP_RJUMPV && code.len() - pc > 1 {
        2 + 2 * (code[pc + 1] as usize + 1)
    } else if op >= OP_PUSH1 && op <= OP_PUSH32 {
        (op - OP_PUSH1) as usize + 2
    } else if op == OP_DATALOADN || op == OP_RJUMP || op == OP_RJUMPI || op == OP_CALLF || op
        == OP_JUMPF {
        3
    } else if op == OP_RJUMPV || op == OP_DUPN || op == OP_SWAPN || op == OP_EXCHANGE || op
        == OP_EOFCREATE || op == OP_RETURNCONTRACT {
        2
    } else {
        1
    }
}

/// Checks the instruction at `pc`.
fn check_instruction(
    code: &[u8],
    pc: usize,
    num_sections: usize,
    num_containers: usize,
    data_size: usize,
    kind: ContainerKind,
) -> (r: Option<EofValidationError>)
    requires
        pc < code.len(),
    ensures
        r == instruction_error(
            code@,
            pc as int,
            CodeContext {
                num_sections: num_sections as nat,
                num_containers: num_containers as nat,
                data_size: data_size as nat,
                kind,
            },
        ),
{
    let op = code[pc];
    if !eof_opcode(op) {
        return Some(EofValidationError::OpcodeDisabled);
    }
    let excluded: bool = match kind {
        ContainerKind::Unrestricted => false,
        ContainerKind::Init => op == OP_STOP || op == OP_RETURN,
        ContainerKind::Runtime => op == OP_RETURNCONTRACT,
    };
    if excluded {
        return Some(EofValidationError::IncompatibleContainerKind);
    }
    let len = instruction_len(code, pc);
    if len > code.len() - pc {
        return Some(EofValidationError::MissingImmediateBytes);
    }
    if (op == OP_CALLF || op == OP_JUMPF) && read_u16(code, pc + 1) as usize >= num_sections {
        return Some(EofValidationError::CodeSectionOutOfBounds);
    }
    if op == OP_DATALOADN && read_u16(code, pc + 1) as usize + 32 > data_size {
        return Some(EofValidationError::DataLoadOutOfBounds);
    }
    if (op == OP_EOFCREATE || op == OP_RETURNCONTRACT) && code[pc + 1] as usize >= num_containers {
        return Some(EofValidationError::ContainerOutOfBounds);
    }
    None
}

/// Whether a jump from the instruction that ends at `end` by the offset at `at`
/// lands on an instruction.
fn check_target(code: &[u8], starts: &Vec<bool>, end: usize, at: usize) -> (ok: bool)
    requires
        at + 2 <= code.len(),
        end <= code.len(),
        starts@.len() == code@.len(),
        forall|pc: int| 0 <= pc < code@.len() ==> starts@[pc] == starts_at(code@, 0, pc),
    ensures
        ok == target_ok(code@, end + rel_offset(code@, at as int)),
{
    let raw: u16 = read_u16(code, at);
    if raw >= 0x8000 {
        let back: usize = 0x10000 - raw as usize;
        if back > end {
            false
        } else {
            let target: usize = end - back;
            target < code.len() && starts[target]
        }
    } else {
        let forward: usize = raw as usize;
        if forward >= code.len() - end {
            false
        } else {
            starts[end + forward]
        }
    }
}

/// Checks a code section: every instruction is known, allowed in a container of
/// the kind, whole, and refers to what the container holds; the last one
/// terminates; and every relative jump lands on an instruction.
pub fn validate_code(
    code: &[u8],
    num_sections: usize,
    num_containers: usize,
    data_size: usize,
    kind: ContainerKind,
) -> (r: Option<EofValidationError>)
    ensures
        r == code_error(
            code@,
            CodeContext {
                num_sections: num_sections as nat,
                num_containers: num_containers as nat,
                data_size: data_size as nat,
                kind,
            },
        ),
{
    let ghost ctx = CodeContext {
        num_sections: num_sections as nat,
        num_containers: num_containers as nat,
        data_size: data_size as nat,
        kind,
    };
    let len: usize = code.len();
    let mut starts: Vec<bool> = Vec::new();
    let mut k: usize = 0;
    while k < len
        invariant
            k <= len,
            starts@.len() == k,
            forall|j: int| 0 <= j < k ==> !starts@[j],
        decreases len - k,
    {
        starts.push(false);
        k += 1;
    }
    // First pass: the instructions one by one.
    let mut pc: usize = 0;
    let mut terminated: bool = false;
    while pc < len
        invariant
            pc <= len,
            len == code@.len(),
            starts@.len() == len,
            ctx == (CodeContext {
                num_sections: num_sections as nat,
                num_containers: num_containers as nat,
                data_size: data_size as nat,
                kind,
            }),
            scan_error(code@, 0, ctx, false) == scan_error(code@, pc as int, ctx, terminated),
            forall|p: int| 0 <= p < pc ==> starts@[p] == starts_at(code@, 0, p),
            forall|p: int| pc <= p < len ==> !starts@[p],
            forall|p: int| pc <= p < len ==> starts_at(code@, 0, p) == starts_at(code@, pc as int, p),
        decreases len - pc,
    {
        match check_instruction(code, pc, num_sections, num_containers, data_size, kind) {
            Some(e) => {
                return Some(e);
            },
            None => {},
        }
        let n = instruction_len(code, pc);
        proof {
            let next: int = pc + n;
            assert(starts_at(code@, pc as int, pc as int));
            assert forall|p: int| pc < p < len implies starts_at(code@, pc as int, p) == starts_at(
                code@,
                next,
                p,
            ) by {}
            assert forall|p: int| pc < p < len && p < next implies !starts_at(code@, next, p) by {}
        }
        starts.set(pc, true);
        terminated = terminating(code[pc]);
        pc += n;
    }
    if !terminated {
        return Some(EofValidationError::LastInstructionNotTerminating);
    }
    // Second pass: the targets of the relative jumps.
    let mut pc: usize = 0;
    while pc < len
        invariant
            pc <= len,
            len == code@.len(),
            starts@.len() == len,
            forall|p: int| 0 <= p < len ==> starts@[p] == starts_at(code@, 0, p),
            ctx == (CodeContext {
                num_sections: num_sections as nat,
                num_containers: num_containers as nat,
                data_size: data_size as nat,
                kind,
            }),
            scan_error(code@, 0, ctx, false) is None,
            exists|t: bool| scan_error(code@, pc as int, ctx, t) is None,
            jump_error(code@, 0) == jump_error(code@, pc as int),
        decreases len - pc,
    {
        let op = code[pc];
        let n = instruction_len(code, pc);
        proof {
            let t = choose|t: bool| scan_error(code@, pc as int, ctx, t) is None;
            assert(instruction_error(code@, pc as int, ctx) is None);
            assert(scan_error(code@, pc + n, ctx, is_terminating(op)) is None);
        }
        if op == OP_RJUMP || op == OP_RJUMPI {
            if !check_target(code, &starts, pc + 3, pc + 1) {
                return Some(EofValidationError::InvalidJumpTarget);
            }
        } else if op == OP_RJUMPV {
            let count: usize = code[pc + 1] as usize + 1;
            let mut j: usize = 0;
            while j < count
                invariant
                    j <= count,
                    count == code@[pc + 1] as int + 1,
                    pc + n <= len,
                    n == instr_len(code@, pc as int),
                    n == 2 + 2 * count,
                    len == code@.len(),
                    starts@.len() == len,
                    forall|p: int| 0 <= p < len ==> starts@[p] == starts_at(code@, 0, p),
                    code@[pc as int] == OP_RJUMPV,
                    pc < len,
                    ctx == (CodeContext {
                        num_sections: num_sections as nat,
                        num_containers: num_containers as nat,
                        data_size: data_size as nat,
                        kind,
                    }),
                    scan_error(code@, 0, ctx, false) is None,
                    jump_error(code@, 0) == jump_error(code@, pc as int),
                    forall|i: int|
                        0 <= i < j ==> target_ok(code@, #[trigger] table_target(code@, pc as int, i)),
                decreases count - j,
            {
                if !check_target(code, &starts, pc + n, pc + 2 + 2 * j) {
                    proof {
                        assert(!target_ok(code@, table_target(code@, pc as int, j as int)));
                        assert(!jumps_ok(code@, pc as int));
                    }
                    return Some(EofValidationError::InvalidJumpTarget);
                }
                j += 1;
            }
            assert(jumps_ok(code@, pc as int));
        }
        pc += n;
    }
    None
}

} // verus!
