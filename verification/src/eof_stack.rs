//! The check on the operand stack of one code section: on every path, each
//! instruction finds the items it takes, the stack stays within bounds, and the
//! heights agree wherever paths meet.

use vstd::prelude::*;
use crate::eof::{read_u16, u16_at, EofValidationError, TypesSection, NON_RETURNING};
use crate::eof_code::{
    code_error, instr_len, instruction_error, instruction_len, is_terminating, jump_error, jumps_ok,
    rel_offset, scan_error, table_target, target_ok, terminating, validate_code, CodeContext,
    ContainerKind, OP_CALLF, OP_DUPN, OP_EXCHANGE, OP_JUMPF, OP_RETF, OP_RJUMP, OP_RJUMPI,
    OP_RJUMPV, OP_SWAPN,
};

verus! {

/// The highest that the operand stack may be after an instruction.
pub const MAX_STACK_HEIGHT: usize = 1023;

/// The most items that the operand stack may hold.
pub const STACK_LIMIT: usize = 1024;

/// What is known of the height of the stack before an instruction: nothing yet,
/// or the least and the greatest height over the paths that lead there.
#[derive(Clone, Copy, Debug, PartialEq, Eq, Structural)]
pub struct StackBounds {
    pub known: bool,
    pub min: usize,
    pub max: usize,
}

/// The number of items that an instruction without operands of its own takes
/// from the stack.
pub open spec fn plain_inputs(op: u8) -> nat {
    if op == 0xEC || op == 0xF8 {
        4
    } else if op == 0x08 || op == 0x09 || op == 0x37 || op == 0x3E || op == 0x5E || op == 0xD3
        || op == 0xF9 || op == 0xFB {
        3
    } else if (0x01 <= op <= 0x07) || op == 0x0A || op == 0x0B || (0x10 <= op <= 0x14) || (0x16
        <= op <= 0x18) || (0x1A <= op <= 0x1D) || op == 0x20 || op == 0x52 || op == 0x53 || op
        == 0x55 || op == 0x5D || op == 0xEE || op == 0xF3 || op == 0xFD {
        2
    } else if op == 0x15 || op == 0x19 || op == 0x31 || op == 0x35 || op == 0x40 || op == 0x49
        || op == 0x50 || op == 0x51 || op == 0x54 || op == 0x5C || op == 0xD0 || op == 0xE1 || op
        == 0xE2 || op == 0xF7 {
        1
    } else if 0x80 <= op <= 0x8F {
        (op - 0x7F) as nat
    } else if 0x90 <= op <= 0x9F {
        (op - 0x8E) as nat
    } else if 0xA0 <= op <= 0xA4 {
        (op - 0xA0 + 2) as nat
    } else {
        0
    }
}

/// The number of items that an instruction without operands of its own leaves
/// on the stack.
pub open spec fn plain_outputs(op: u8) -> nat {
    if 0x80 <= op <= 0x8F {
        (op - 0x7E) as nat
    } else if 0x90 <= op <= 0x9F {
        (op - 0x8E) as nat
    } else if (0x01 <= op <= 0x0B) || (0x10 <= op <= 0x1D) || op == 0x20 || (0x30 <= op <= 0x36)
        || op == 0x3A || op == 0x3D || (0x40 <= op <= 0x4A) || op == 0x51 || op == 0x54 || op
        == 0x59 || op == 0x5C || (0x5F <= op <= 0x7F) || (0xD0 <= op <= 0xD2) || op == 0xEC || op
        == 0xF7 || op == 0xF8 || op == 0xF9 || op == 0xFB {
        1
    } else {
        0
    }
}

/// What an instruction takes from the stack and what it leaves.
pub struct StackUse {
    pub inputs: nat,
    pub outputs: nat,
}

/// What the instruction at `pc` of code section `this` takes from the stack and
/// leaves on it, given the bounds `b` before it; or why it cannot stand there.
///
/// `CALLF` takes the inputs of its target and leaves its outputs; the target has
/// to return, and its own stack has to fit on top. `RETF` needs the stack to
/// hold exactly the outputs of the section, which has to be one that returns.
/// `JUMPF` to a section that never returns needs the inputs of the target; to
/// one that returns, it needs the stack to hold exactly what is left for the
/// caller when the target has run, and the target may return no more than this
/// section does. `DUPN`, `SWAPN` and `EXCHANGE` reach as deep as their operand
/// says.
pub open spec fn instruction_stack(
    code: Seq<u8>,
    pc: int,
    types: Seq<TypesSection>,
    this: int,
    b: StackBounds,
) -> Result<StackUse, EofValidationError> {
    let op = code[pc];
    if op == OP_CALLF {
        let target = types[u16_at(code, pc + 1) as int];
        if target.outputs == NON_RETURNING {
            Err(EofValidationError::CallToNonReturningSection)
        } else if b.max + target.max_stack_size > STACK_LIMIT + target.inputs {
            Err(EofValidationError::StackOverflow)
        } else {
            Ok(StackUse { inputs: target.inputs as nat, outputs: target.outputs as nat })
        }
    } else if op == OP_RETF {
        if types[this].outputs == NON_RETURNING {
            Err(EofValidationError::ReturnFromNonReturningSection)
        } else if b.min != types[this].outputs || b.max != types[this].outputs {
            Err(EofValidationError::StackHeightMismatch)
        } else {
            Ok(StackUse { inputs: types[this].outputs as nat, outputs: 0 })
        }
    } else if op == OP_JUMPF {
        let target = types[u16_at(code, pc + 1) as int];
        if b.max + target.max_stack_size > STACK_LIMIT + target.inputs {
            Err(EofValidationError::StackOverflow)
        } else if target.outputs == NON_RETURNING {
            Ok(StackUse { inputs: target.inputs as nat, outputs: 0 })
        } else if types[this].outputs == NON_RETURNING || types[this].outputs < target.outputs {
            Err(EofValidationError::JumpToIncompatibleSection)
        } else if b.min != types[this].outputs + target.inputs - target.outputs || b.max
            != b.min {
            Err(EofValidationError::StackHeightMismatch)
        } else {
            Ok(StackUse { inputs: b.min as nat, outputs: 0 })
        }
    } else if op == OP_DUPN {
        Ok(StackUse { inputs: code[pc + 1] as nat + 1, outputs: code[pc + 1] as nat + 2 })
    } else if op == OP_SWAPN {
        Ok(StackUse { inputs: code[pc + 1] as nat + 2, outputs: code[pc + 1] as nat + 2 })
    } else if op == OP_EXCHANGE {
        let depth = (code[pc + 1] / 16) as nat + (code[pc + 1] % 16) as nat + 3;
        Ok(StackUse { inputs: depth, outputs: depth })
    } else {
        Ok(StackUse { inputs: plain_inputs(op), outputs: plain_outputs(op) })
    }
}

/// The bounds at `target` after a path from the instruction at `from` arrives
/// there with bounds `after`. Ahead, the bounds widen to take the path in; at
/// or behind `from`, where the bounds are settled, the path has to agree.
pub open spec fn visit(bounds: Seq<StackBounds>, from: int, target: int, after: StackBounds) -> Result<
    Seq<StackBounds>,
    EofValidationError,
> {
    let seen = bounds[target];
    if target > from {
        if !seen.known {
            Ok(bounds.update(target, after))
        } else {
            Ok(
                bounds.update(
                    target,
                    StackBounds {
                        known: true,
                        min: if after.min < seen.min {
                            after.min
                        } else {
                            seen.min
                        },
                        max: if after.max > seen.max {
                            after.max
                        } else {
                            seen.max
                        },
                    },
                ),
            )
        }
    } else if seen == after {
        Ok(bounds)
    } else {
        Err(EofValidationError::StackHeightMismatch)
    }
}

/// The bounds after the paths through the entries `j..` of the table of the
/// `RJUMPV` at `pc` are taken in.
pub open spec fn visit_table(
    code: Seq<u8>,
    pc: int,
    bounds: Seq<StackBounds>,
    after: StackBounds,
    j: int,
) -> Result<Seq<StackBounds>, EofValidationError>
    decreases code[pc + 1] + 1 - j,
{
    if j > code[pc + 1] || j < 0 {
        Ok(bounds)
    } else {
        match visit(bounds, pc, table_target(code, pc, j), after) {
            Err(e) => Err(e),
            Ok(next) => visit_table(code, pc, next, after, j + 1),
        }
    }
}

/// The bounds after the paths that leave the instruction at `pc` are taken in:
/// first those of its jumps, then the one to the next instruction, unless the
/// instruction terminates.
pub open spec fn propagate(code: Seq<u8>, pc: int, bounds: Seq<StackBounds>, after: StackBounds) -> Result<
    Seq<StackBounds>,
    EofValidationError,
> {
    let op = code[pc];
    let jumped = if op == OP_RJUMP || op == OP_RJUMPI {
        visit(bounds, pc, pc + 3 + rel_offset(code, pc + 1), after)
    } else if op == OP_RJUMPV {
        visit_table(code, pc, bounds, after, 0)
    } else {
        Ok(bounds)
    };
    match jumped {
        Err(e) => Err(e),
        Ok(next) => if !is_terminating(op) && pc + instr_len(code, pc) < code.len() {
            visit(next, pc, pc + instr_len(code, pc), after)
        } else {
            Ok(next)
        },
    }
}

/// The bounds after the instruction at `pc`, which has bounds `b` before it; or
/// why the instruction cannot stand there: it is reached by no path from above,
/// it takes more than the stack is sure to hold, or it leaves the stack too high.
pub open spec fn step_bounds(
    code: Seq<u8>,
    pc: int,
    types: Seq<TypesSection>,
    this: int,
    b: StackBounds,
) -> Result<StackBounds, EofValidationError> {
    if !b.known {
        Err(EofValidationError::UnreachableCode)
    } else {
        match instruction_stack(code, pc, types, this, b) {
            Err(e) => Err(e),
            Ok(change) => if change.inputs > b.min {
                Err(EofValidationError::StackUnderflow)
            } else if b.max - change.inputs + change.outputs > MAX_STACK_HEIGHT {
                Err(EofValidationError::StackOverflow)
            } else {
                Ok(
                    StackBounds {
                        known: true,
                        min: (b.min - change.inputs + change.outputs) as usize,
                        max: (b.max - change.inputs + change.outputs) as usize,
                    },
                )
            },
        }
    }
}

/// The greatest height met on the way from instruction to instruction, starting
/// at `pc` with `bounds` known so far and `highest` met before; or the first
/// fault.
pub open spec fn stack_scan(
    code: Seq<u8>,
    types: Seq<TypesSection>,
    this: int,
    pc: int,
    bounds: Seq<StackBounds>,
    highest: nat,
) -> Result<nat, EofValidationError>
    decreases (if pc < code.len() { code.len() - pc } else { 0 }),
{
    if pc >= code.len() || pc < 0 {
        Ok(highest)
    } else {
        match step_bounds(code, pc, types, this, bounds[pc]) {
            Err(e) => Err(e),
            Ok(after) => match propagate(code, pc, bounds, after) {
                Err(e) => Err(e),
                Ok(next) => stack_scan(
                    code,
                    types,
                    this,
                    pc + instr_len(code, pc),
                    next,
                    if after.max > highest {
                        after.max as nat
                    } else {
                        highest
                    },
                ),
            },
        }
    }
}

/// The bounds before anything is scanned: the first instruction finds the
/// inputs of the section on the stack, and nothing is known of the others.
pub open spec fn initial_bounds(len: nat, inputs: u8) -> Seq<StackBounds> {
    Seq::new(
        len,
        |i: int|
            if i == 0 {
                StackBounds { known: true, min: inputs as usize, max: inputs as usize }
            } else {
                StackBounds { known: false, min: 0, max: 0 }
            },
    )
}

/// What is wrong with the stack use of code section `this`, if anything: the
/// first fault of the scan, or that the greatest height met is not the one that
/// the types section declares.
pub open spec fn stack_error(code: Seq<u8>, types: Seq<TypesSection>, this: int) -> Option<
    EofValidationError,
> {
    match stack_scan(
        code,
        types,
        this,
        0,
        initial_bounds(code.len(), types[this].inputs),
        types[this].inputs as nat,
    ) {
        Err(e) => Some(e),
        Ok(highest) => if highest != types[this].max_stack_size {
            Some(EofValidationError::MaxStackMismatch)
        } else {
            None
        },
    }
}

/// The number of items that an instruction without operands of its own takes.
pub fn opcode_inputs(op: u8) -> (n: usize)
    ensures
        n == plain_inputs(op),
        n <= 17,
{
    if op == 0xEC || op == 0xF8 {
        4
    } else if op == 0x08 || op == 0x09 || op == 0x37 || op == 0x3E || op == 0x5E || op == 0xD3
        || op == 0xF9 || op == 0xFB {
        3
    } else if (0x01 <= op && op <= 0x07) || op == 0x0A || op == 0x0B || (0x10 <= op && op <= 0x14)
        || (0x16 <= op && op <= 0x18) || (0x1A <= op && op <= 0x1D) || op == 0x20 || op == 0x52
        || op == 0x53 || op == 0x55 || op == 0x5D || op == 0xEE || op == 0xF3 || op == 0xFD {
        2
    } else if op == 0x15 || op == 0x19 || op == 0x31 || op == 0x35 || op == 0x40 || op == 0x49
        || op == 0x50 || op == 0x51 || op == 0x54 || op == 0x5C || op == 0xD0 || op == 0xE1 || op
        == 0xE2 || op == 0xF7 {
        1
    } else if 0x80 <= op && op <= 0x8F {
        (op - 0x7F) as usize
    } else if 0x90 <= op && op <= 0x9F {
        (op - 0x8E) as usize
    } else if 0xA0 <= op && op <= 0xA4 {
        (op - 0xA0 + 2) as usize
    } else {
        0
    }
}

/// The number of items that an instruction without operands of its own leaves.
pub fn opcode_outputs(op: u8) -> (n: usize)
    ensures
        n == plain_outputs(op),
        n <= 17,
{
    if 0x80 <= op && op <= 0x8F {
        (op - 0x7E) as usize
    } else if 0x90 <= op && op <= 0x9F {
        (op - 0x8E) as usize
    } else if (0x01 <= op && op <= 0x0B) || (0x10 <= op && op <= 0x1D) || op == 0x20 || (0x30 <= op
        && op <= 0x36) || op == 0x3A || op == 0x3D || (0x40 <= op && op <= 0x4A) || op == 0x51
        || op == 0x54 || op == 0x59 || op == 0x5C || (0x5F <= op && op <= 0x7F) || (0xD0 <= op
        && op <= 0xD2) || op == 0xEC || op == 0xF7 || op == 0xF8 || op == 0xF9 || op == 0xFB {
        1
    } else {
        0
    }
}

/// The bounds after the instruction at `pc`, or why it cannot stand there.
fn step(code: &[u8], pc: usize, types: &Vec<TypesSection>, this: usize, b: StackBounds) -> (r:
    Result<StackBounds, EofValidationError>)
    requires
        pc + instr_len(code@, pc as int) <= code@.len(),
        this < types@.len(),
        (code@[pc as int] == OP_CALLF || code@[pc as int] == OP_JUMPF) ==> u16_at(
            code@,
            pc + 1,
        ) < types@.len(),
        b.known ==> b.min <= b.max <= MAX_STACK_HEIGHT,
    ensures
        r == step_bounds(code@, pc as int, types@, this as int, b),
        r matches Ok(after) ==> after.known && after.min <= after.max <= MAX_STACK_HEIGHT,
{
    if !b.known {
        return Err(EofValidationError::UnreachableCode);
    }
    let op = code[pc];
    let inputs: usize;
    let outputs: usize;
    if op == OP_CALLF {
        let target = &types[read_u16(code, pc + 1) as usize];
        if target.outputs == NON_RETURNING {
            return Err(EofValidationError::CallToNonReturningSection);
        }
        if b.max + target.max_stack_size as usize > STACK_LIMIT + target.inputs as usize {
            return Err(EofValidationError::StackOverflow);
        }
        inputs = target.inputs as usize;
        outputs = target.outputs as usize;
    } else if op == OP_RETF {
        let expected: usize = types[this].outputs as usize;
        if types[this].outputs == NON_RETURNING {
            return Err(EofValidationError::ReturnFromNonReturningSection);
        }
        if b.min != expected || b.max != expected {
            return Err(EofValidationError::StackHeightMismatch);
        }
        inputs = expected;
        outputs = 0;
    } else if op == OP_JUMPF {
        let target = &types[read_u16(code, pc + 1) as usize];
        if b.max + target.max_stack_size as usize > STACK_LIMIT + target.inputs as usize {
            return Err(EofValidationError::StackOverflow);
        }
        if target.outputs == NON_RETURNING {
            inputs = target.inputs as usize;
        } else {
            if types[this].outputs == NON_RETURNING || types[this].outputs < target.outputs {
                return Err(EofValidationError::JumpToIncompatibleSection);
            }
            let expected: usize = types[this].outputs as usize + target.inputs as usize
                - target.outputs as usize;
            if b.min != expected || b.max != b.min {
                return Err(EofValidationError::StackHeightMismatch);
            }
            inputs = b.min;
        }
        outputs = 0;
    } else if op == OP_DUPN {
        inputs = code[pc + 1] as usize + 1;
        outputs = code[pc + 1] as usize + 2;
    } else if op == OP_SWAPN {
        inputs = code[pc + 1] as usize + 2;
        outputs = inputs;
    } else if op == OP_EXCHANGE {
        inputs = (code[pc + 1] / 16) as usize + (code[pc + 1] % 16) as usize + 3;
        outputs = inputs;
    } else {
        inputs = opcode_inputs(op);
        outputs = opcode_outputs(op);
    }
    if inputs > b.min {
        return Err(EofValidationError::StackUnderflow);
    }
    if b.max - inputs + outputs > MAX_STACK_HEIGHT {
        return Err(EofValidationError::StackOverflow);
    }
    Ok(StackBounds { known: true, min: b.min - inputs + outputs, max: b.max - inputs + outputs })
}

/// Takes a path from the instruction at `from` to `target` into the bounds.
fn visit_target(bounds: &mut Vec<StackBounds>, from: usize, target: usize, after: StackBounds) -> (r:
    Option<EofValidationError>)
    requires
        target < old(bounds)@.len(),
        bounds_in_range(old(bounds)@),
        after.known && after.min <= after.max <= MAX_STACK_HEIGHT,
    ensures
        final(bounds)@.len() == old(bounds)@.len(),
        bounds_in_range(final(bounds)@),
        match r {
            None => visit(old(bounds)@, from as int, target as int, after) == Ok::<
                Seq<StackBounds>,
                EofValidationError,
            >(final(bounds)@),
            Some(e) => visit(old(bounds)@, from as int, target as int, after) == Err::<
                Seq<StackBounds>,
                EofValidationError,
            >(e),
        },
{
    let seen: StackBounds = bounds[target];
    if target > from {
        if !seen.known {
            bounds.set(target, after);
        } else {
            let min: usize = if after.min < seen.min {
                after.min
            } else {
                seen.min
            };
            let max: usize = if after.max > seen.max {
                after.max
            } else {
                seen.max
            };
            bounds.set(target, StackBounds { known: true, min, max });
        }
        None
    } else if seen.known == after.known && seen.min == after.min && seen.max == after.max {
        None
    } else {
        Some(EofValidationError::StackHeightMismatch)
    }
}

/// Where a jump from the instruction that ends at `end` by the offset at `at`
/// leads, the target being in the code.
fn jump_target(code: &[u8], end: usize, at: usize) -> (target: usize)
    requires
        at + 2 <= code.len(),
        end <= code.len(),
        0 <= end + rel_offset(code@, at as int) < code@.len(),
    ensures
        target == end + rel_offset(code@, at as int),
{
    let raw: u16 = read_u16(code, at);
    if raw >= 0x8000 {
        end - (0x10000 - raw as usize)
    } else {
        end + raw as usize
    }
}

/// Whether the bounds that are known are in order and no higher than the stack
/// may be.
pub open spec fn bounds_in_range(bounds: Seq<StackBounds>) -> bool {
    forall|i: int|
        0 <= i < bounds.len() && (#[trigger] bounds[i]).known ==> bounds[i].min <= bounds[i].max
            <= MAX_STACK_HEIGHT
}

/// Takes the paths that leave the instruction at `pc` into the bounds.
fn propagate_paths(code: &[u8], pc: usize, bounds: &mut Vec<StackBounds>, after: StackBounds) -> (r:
    Option<EofValidationError>)
    requires
        pc + instr_len(code@, pc as int) <= code@.len(),
        jumps_ok(code@, pc as int),
        old(bounds)@.len() == code@.len(),
        bounds_in_range(old(bounds)@),
        after.known && after.min <= after.max <= MAX_STACK_HEIGHT,
    ensures
        final(bounds)@.len() == code@.len(),
        bounds_in_range(final(bounds)@),
        match r {
            None => propagate(code@, pc as int, old(bounds)@, after) == Ok::<
                Seq<StackBounds>,
                EofValidationError,
            >(final(bounds)@),
            Some(e) => propagate(code@, pc as int, old(bounds)@, after) == Err::<
                Seq<StackBounds>,
                EofValidationError,
            >(e),
        },
{
    let op = code[pc];
    let n = instruction_len(code, pc);
    if op == OP_RJUMP || op == OP_RJUMPI {
        let target = jump_target(code, pc + 3, pc + 1);
        match visit_target(bounds, pc, target, after) {
            Some(e) => {
                return Some(e);
            },
            None => {},
        }
    } else if op == OP_RJUMPV {
        let count: usize = code[pc + 1] as usize + 1;
        let mut j: usize = 0;
        while j < count
            invariant
                j <= count,
                count == code@[pc + 1] as int + 1,
                code@[pc as int] == OP_RJUMPV,
                n == instr_len(code@, pc as int),
                n == 2 + 2 * count,
                pc + n <= code.len(),
                jumps_ok(code@, pc as int),
                bounds@.len() == code@.len(),
                bounds_in_range(bounds@),
                after.known && after.min <= after.max <= MAX_STACK_HEIGHT,
                visit_table(code@, pc as int, old(bounds)@, after, 0) == visit_table(
                    code@,
                    pc as int,
                    bounds@,
                    after,
                    j as int,
                ),
            decreases count - j,
        {
            proof {
                assert(target_ok(code@, table_target(code@, pc as int, j as int)));
            }
            let target = jump_target(code, pc + n, pc + 2 + 2 * j);
            match visit_target(bounds, pc, target, after) {
                Some(e) => {
                    return Some(e);
                },
                None => {},
            }
            j += 1;
        }
    }
    if !terminating(op) && n < code.len() - pc {
        match visit_target(bounds, pc, pc + n, after) {
            Some(e) => {
                return Some(e);
            },
            None => {},
        }
    }
    None
}

/// Checks the stack use of code section `this`, whose instructions are whole and
/// whose jumps land.
fn scan_stack(code: &[u8], types: &Vec<TypesSection>, this: usize, Ghost(ctx): Ghost<CodeContext>) -> (r:
    Option<EofValidationError>)
    requires
        this < types@.len(),
        ctx.num_sections == types@.len(),
        code_error(code@, ctx) is None,
    ensures
        r == stack_error(code@, types@, this as int),
{
    let len: usize = code.len();
    let inputs: usize = types[this].inputs as usize;
    let mut bounds: Vec<StackBounds> = Vec::new();
    let mut k: usize = 0;
    while k < len
        invariant
            k <= len,
            this < types@.len(),
            bounds@.len() == k,
            inputs == types@[this as int].inputs,
            forall|i: int|
                0 <= i < k ==> bounds@[i] == initial_bounds(len as nat, types@[this as int].inputs)[i],
        decreases len - k,
    {
        if k == 0 {
            bounds.push(StackBounds { known: true, min: inputs, max: inputs });
        } else {
            bounds.push(StackBounds { known: false, min: 0, max: 0 });
        }
        k += 1;
    }
    assert(bounds@ =~= initial_bounds(len as nat, types@[this as int].inputs));
    let mut highest: usize = inputs;
    let mut pc: usize = 0;
    while pc < len
        invariant
            pc <= len,
            len == code@.len(),
            this < types@.len(),
            ctx.num_sections == types@.len(),
            bounds@.len() == len,
            bounds_in_range(bounds@),
            highest <= MAX_STACK_HEIGHT,
            exists|t: bool| scan_error(code@, pc as int, ctx, t) is None,
            jump_error(code@, pc as int) is None,
            stack_scan(
                code@,
                types@,
                this as int,
                0,
                initial_bounds(len as nat, types@[this as int].inputs),
                types@[this as int].inputs as nat,
            ) == stack_scan(code@, types@, this as int, pc as int, bounds@, highest as nat),
        decreases len - pc,
    {
        proof {
            let t = choose|t: bool| scan_error(code@, pc as int, ctx, t) is None;
            assert(instruction_error(code@, pc as int, ctx) is None);
            assert(scan_error(
                code@,
                pc + instr_len(code@, pc as int),
                ctx,
                is_terminating(code@[pc as int]),
            ) is None);
            assert(jumps_ok(code@, pc as int));
        }
        let n = instruction_len(code, pc);
        let after = match step(code, pc, types, this, bounds[pc]) {
            Ok(after) => after,
            Err(e) => {
                return Some(e);
            },
        };
        match propagate_paths(code, pc, &mut bounds, after) {
            Some(e) => {
                return Some(e);
            },
            None => {},
        }
        if after.max > highest {
            highest = after.max;
        }
        pc += n;
    }
    if highest != types[this].max_stack_size as usize {
        return Some(EofValidationError::MaxStackMismatch);
    }
    None
}

/// What is wrong with code section `this`, if anything: a fault of its
/// instructions or jumps, else a fault of its stack use.
pub open spec fn section_error(
    code: Seq<u8>,
    types: Seq<TypesSection>,
    this: int,
    num_containers: nat,
    data_size: nat,
    kind: ContainerKind,
) -> Option<EofValidationError> {
    let ctx = CodeContext { num_sections: types.len(), num_containers, data_size, kind };
    match code_error(code, ctx) {
        Some(e) => Some(e),
        None => stack_error(code, types, this),
    }
}

/// Checks code section `this` of a container with the types `types`: its
/// instructions and jumps, see `validate_code`, and then its use of the stack.
pub fn validate_section(
    code: &[u8],
    types: &Vec<TypesSection>,
    this: usize,
    num_containers: usize,
    data_size: usize,
    kind: ContainerKind,
) -> (r: Option<EofValidationError>)
    requires
        this < types@.len(),
    ensures
        r == section_error(
            code@,
            types@,
            this as int,
            num_containers as nat,
            data_size as nat,
            kind,
        ),
{
    match validate_code(code, types.len(), num_containers, data_size, kind) {
        Some(e) => Some(e),
        None => scan_stack(
            code,
            types,
            this,
            Ghost(
                CodeContext {
                    num_sections: types@.len(),
                    num_containers: num_containers as nat,
                    data_size: data_size as nat,
                    kind,
                },
            ),
        ),
    }
}

} // verus!
