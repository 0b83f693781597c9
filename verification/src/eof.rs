//! The container format of structured bytecode: its header, the sections that the
//! header announces, and the checks that a container has to pass.

use vstd::prelude::*;
use crate::encoding::{be_read, be_value, lemma_be_value_bound, lemma_pow256_16};
use crate::eof_code::ContainerKind;
use crate::eof_stack::{section_error, validate_section};

verus! {

pub const EOF_MAGIC_FIRST: u8 = 0xEF;

pub const EOF_MAGIC_SECOND: u8 = 0x00;

pub const EOF_VERSION: u8 = 0x01;

pub const KIND_TERMINAL: u8 = 0x00;

pub const KIND_TYPES: u8 = 0x01;

pub const KIND_CODE: u8 = 0x02;

pub const KIND_CONTAINER: u8 = 0x03;

pub const KIND_DATA: u8 = 0x04;

/// The most code sections that a container may hold.
pub const MAX_CODE_SECTIONS: usize = 1024;

/// The most sub-containers that a container may hold.
pub const MAX_CONTAINER_SECTIONS: usize = 256;

/// The `outputs` value of a code section that never returns.
pub const NON_RETURNING: u8 = 0x80;

/// Why a byte string is not a container.
#[derive(Clone, Copy, Debug, PartialEq, Eq, Structural, Hash)]
pub enum EofDecodeError {
    /// The input ends inside the header.
    MissingInput,
    /// The input ends before the sections that the header announces.
    MissingBody,
    /// Bytes follow the last section.
    DanglingData,
    /// The size of the types section is zero or no multiple of four.
    InvalidTypesSection,
    InvalidEOFMagicNumber,
    InvalidEOFVersion,
    InvalidTypesKind,
    InvalidCodeKind,
    InvalidDataKind,
    InvalidTerminalByte,
    /// The types section does not hold one entry for each code section.
    MismatchCodeAndTypesSize,
    /// A list of sections is announced with no section in it.
    NonSizes,
    /// The input ends inside a list of section sizes.
    ShortInputForSizes,
    /// A section of size zero.
    ZeroSize,
    TooManyCodeSections,
    TooManyContainerSections,
}

/// Why a container is refused although it decodes.
#[derive(Clone, Copy, Debug, PartialEq, Eq, Structural, Hash)]
pub enum EofValidationError {
    /// The first code section takes inputs or returns.
    InvalidFirstSectionType,
    /// A code section with more than 127 inputs.
    TooManyInputs,
    /// A code section with more than 127 outputs that is not marked as never
    /// returning.
    TooManyOutputs,
    /// A code section whose stack may grow beyond 1023 items.
    MaxStackTooHigh,
    /// An opcode that is undefined or may not stand in a container.
    OpcodeDisabled,
    /// The code ends inside an instruction.
    MissingImmediateBytes,
    /// The last instruction of a code section does not terminate.
    LastInstructionNotTerminating,
    /// A call or jump to a code section that the container does not hold.
    CodeSectionOutOfBounds,
    /// A load at a fixed offset beyond the data section.
    DataLoadOutOfBounds,
    /// A reference to a sub-container that the container does not hold.
    ContainerOutOfBounds,
    /// A relative jump that lands outside the code or inside an instruction.
    InvalidJumpTarget,
    /// An instruction that may not stand in a container of this kind: init code
    /// that stops or returns, or deployed code that returns a contract.
    IncompatibleContainerKind,
    /// An instruction that no path from above leads to.
    UnreachableCode,
    /// An instruction that takes more than the stack is sure to hold.
    StackUnderflow,
    /// The stack may grow beyond its limit.
    StackOverflow,
    /// Paths meet with different stack heights, or a section is left with a
    /// stack that is not what it returns.
    StackHeightMismatch,
    /// The greatest stack height met is not the one that the types section
    /// declares.
    MaxStackMismatch,
    /// A call to a code section that never returns.
    CallToNonReturningSection,
    /// A return from a code section that is declared as never returning.
    ReturnFromNonReturningSection,
    /// A jump to a code section that returns more than this one does.
    JumpToIncompatibleSection,
    /// A sub-container that is no container.
    InvalidSubContainer,
}

/// What the header of a container says.
pub struct EofHeaderModel {
    pub types_size: nat,
    pub code_sizes: Seq<u16>,
    pub container_sizes: Seq<u16>,
    pub data_size: nat,
    /// The number of bytes that the header takes.
    pub header_len: nat,
}

/// The two bytes at `pos`, read as a big-endian number.
pub open spec fn u16_at(b: Seq<u8>, pos: int) -> nat {
    be_value(b.subrange(pos, pos + 2))
}

/// The `count` two-byte sizes that start at `pos`.
pub open spec fn sizes_at(b: Seq<u8>, pos: int, count: nat) -> Seq<u16> {
    Seq::new(count, |j: int| u16_at(b, pos + 2 * j) as u16)
}

pub open spec fn sum_sizes(s: Seq<u16>) -> nat
    decreases s.len(),
{
    if s.len() == 0 {
        0
    } else {
        sum_sizes(s.drop_last()) + s.last() as nat
    }
}

/// A list of sections at `pos`: a two-byte count, then as many two-byte sizes, none
/// of them zero.
pub open spec fn parse_sizes(b: Seq<u8>, pos: int) -> Result<Seq<u16>, EofDecodeError> {
    if b.len() < pos + 2 {
        Err(EofDecodeError::MissingInput)
    } else if u16_at(b, pos) == 0 {
        Err(EofDecodeError::NonSizes)
    } else if b.len() < pos + 2 + 2 * u16_at(b, pos) {
        Err(EofDecodeError::ShortInputForSizes)
    } else if sizes_at(b, pos + 2, u16_at(b, pos)).contains(0u16) {
        Err(EofDecodeError::ZeroSize)
    } else {
        Ok(sizes_at(b, pos + 2, u16_at(b, pos)))
    }
}

/// The end of the header at `pos`: the data section's kind and size, then the
/// terminator.
pub open spec fn parse_header_end(
    b: Seq<u8>,
    pos: int,
    types_size: nat,
    code_sizes: Seq<u16>,
    container_sizes: Seq<u16>,
) -> Result<EofHeaderModel, EofDecodeError> {
    if b.len() < pos + 4 {
        Err(EofDecodeError::MissingInput)
    } else if b[pos] != KIND_DATA {
        Err(EofDecodeError::InvalidDataKind)
    } else if b[pos + 3] != KIND_TERMINAL {
        Err(EofDecodeError::InvalidTerminalByte)
    } else {
        Ok(
            EofHeaderModel {
                types_size,
                code_sizes,
                container_sizes,
                data_size: u16_at(b, pos + 1),
                header_len: (pos + 4) as nat,
            },
        )
    }
}

/// The header that `b` starts with: magic, version, the types section's size, the
/// code sections' sizes, the sub-containers' sizes if there are any, the data
/// section's size and the terminator. Each check comes in the order of the bytes
/// it reads.
pub open spec fn parse_header(b: Seq<u8>) -> Result<EofHeaderModel, EofDecodeError> {
    if b.len() < 3 {
        Err(EofDecodeError::MissingInput)
    } else if b[0] != EOF_MAGIC_FIRST || b[1] != EOF_MAGIC_SECOND {
        Err(EofDecodeError::InvalidEOFMagicNumber)
    } else if b[2] != EOF_VERSION {
        Err(EofDecodeError::InvalidEOFVersion)
    } else if b.len() < 7 {
        Err(EofDecodeError::MissingInput)
    } else if b[3] != KIND_TYPES {
        Err(EofDecodeError::InvalidTypesKind)
    } else if u16_at(b, 4) == 0 || u16_at(b, 4) % 4 != 0 {
        Err(EofDecodeError::InvalidTypesSection)
    } else if b[6] != KIND_CODE {
        Err(EofDecodeError::InvalidCodeKind)
    } else {
        match parse_sizes(b, 7) {
            Err(e) => Err(e),
            Ok(code_sizes) => {
                let pos: int = 9 + 2 * code_sizes.len() as int;
                if code_sizes.len() > MAX_CODE_SECTIONS {
                    Err(EofDecodeError::TooManyCodeSections)
                } else if code_sizes.len() * 4 != u16_at(b, 4) {
                    Err(EofDecodeError::MismatchCodeAndTypesSize)
                } else if b.len() < pos + 1 {
                    Err(EofDecodeError::MissingInput)
                } else if b[pos] == KIND_CONTAINER {
                    match parse_sizes(b, pos + 1) {
                        Err(e) => Err(e),
                        Ok(container_sizes) => {
                            if container_sizes.len() > MAX_CONTAINER_SECTIONS {
                                Err(EofDecodeError::TooManyContainerSections)
                            } else {
                                parse_header_end(
                                    b,
                                    pos + 3 + 2 * container_sizes.len(),
                                    u16_at(b, 4),
                                    code_sizes,
                                    container_sizes,
                                )
                            }
                        },
                    }
                } else {
                    parse_header_end(b, pos, u16_at(b, 4), code_sizes, Seq::empty())
                }
            },
        }
    }
}

impl EofHeaderModel {
    /// The number of bytes that the header and the sections it announces take.
    pub open spec fn container_len(self) -> nat {
        self.header_len + self.types_size + sum_sizes(self.code_sizes) + sum_sizes(
            self.container_sizes,
        ) + self.data_size
    }
}

/// The header of the container that `b` is: `b` starts with a header and is as long
/// as the header says.
pub open spec fn decode_spec(b: Seq<u8>) -> Result<EofHeaderModel, EofDecodeError> {
    match parse_header(b) {
        Err(e) => Err(e),
        Ok(h) => if b.len() < h.container_len() {
            Err(EofDecodeError::MissingBody)
        } else if b.len() > h.container_len() {
            Err(EofDecodeError::DanglingData)
        } else {
            Ok(h)
        },
    }
}

/// The header of the container that `b` starts with; bytes may follow it.
pub open spec fn decode_dangling_spec(b: Seq<u8>) -> Result<EofHeaderModel, EofDecodeError> {
    match parse_header(b) {
        Err(e) => Err(e),
        Ok(h) => if b.len() < h.container_len() {
            Err(EofDecodeError::MissingBody)
        } else {
            Ok(h)
        },
    }
}

/// The entry of the types section for the code section `i`.
#[derive(Clone, Copy, Debug, PartialEq, Eq, Structural, Hash)]
pub struct TypesSection {
    pub inputs: u8,
    pub outputs: u8,
    pub max_stack_size: u16,
}

/// The entry for code section `i` in the container `b` with header `h`.
pub open spec fn types_at(b: Seq<u8>, h: EofHeaderModel, i: int) -> TypesSection {
    TypesSection {
        inputs: b[h.header_len + 4 * i],
        outputs: b[h.header_len + 4 * i + 1],
        max_stack_size: u16_at(b, h.header_len + 4 * i + 2) as u16,
    }
}

/// What is wrong with the entry for code section `i`, if anything.
pub open spec fn types_entry_error(t: TypesSection, i: int) -> Option<EofValidationError> {
    if i == 0 && (t.inputs != 0 || t.outputs != NON_RETURNING) {
        Some(EofValidationError::InvalidFirstSectionType)
    } else if t.inputs > 0x7F {
        Some(EofValidationError::TooManyInputs)
    } else if t.outputs > NON_RETURNING {
        Some(EofValidationError::TooManyOutputs)
    } else if t.max_stack_size > 0x3FF {
        Some(EofValidationError::MaxStackTooHigh)
    } else {
        None
    }
}

/// The first fault among the entries `from..count` of the types section.
pub open spec fn types_error_from(b: Seq<u8>, h: EofHeaderModel, from: int) -> Option<
    EofValidationError,
>
    decreases h.code_sizes.len() - from,
{
    if from >= h.code_sizes.len() {
        None
    } else if types_entry_error(types_at(b, h, from), from) is Some {
        types_entry_error(types_at(b, h, from), from)
    } else {
        types_error_from(b, h, from + 1)
    }
}

/// Where code section `i` starts in the container.
pub open spec fn code_start(h: EofHeaderModel, i: int) -> int {
    (h.header_len + h.types_size + sum_sizes(h.code_sizes.subrange(0, i))) as int
}

/// The bytes of code section `i`.
pub open spec fn code_section(b: Seq<u8>, h: EofHeaderModel, i: int) -> Seq<u8> {
    b.subrange(code_start(h, i), code_start(h, i) + h.code_sizes[i])
}

/// The entries of the types section, one for each code section.
pub open spec fn types_seq(b: Seq<u8>, h: EofHeaderModel) -> Seq<TypesSection> {
    Seq::new(h.code_sizes.len(), |i: int| types_at(b, h, i))
}

/// The first fault among the code sections `from..count`.
pub open spec fn codes_error_from(b: Seq<u8>, h: EofHeaderModel, kind: ContainerKind, from: int) -> Option<
    EofValidationError,
>
    decreases h.code_sizes.len() - from,
{
    if from >= h.code_sizes.len() || from < 0 {
        None
    } else if section_error(
        code_section(b, h, from),
        types_seq(b, h),
        from,
        h.container_sizes.len(),
        h.data_size,
        kind,
    ) is Some {
        section_error(
            code_section(b, h, from),
            types_seq(b, h),
            from,
            h.container_sizes.len(),
            h.data_size,
            kind,
        )
    } else {
        codes_error_from(b, h, kind, from + 1)
    }
}

/// Whether a container of `kind` passes: `Ok`, or the fault of the first entry of
/// the types section that has one, or else that of the first code section that
/// has one. The sub-containers are not looked into: see `deep_error`.
pub open spec fn validate_spec(b: Seq<u8>, h: EofHeaderModel, kind: ContainerKind) -> Result<
    (),
    EofValidationError,
> {
    match types_error_from(b, h, 0) {
        Some(e) => Err(e),
        None => match codes_error_from(b, h, kind, 0) {
            Some(e) => Err(e),
            None => Ok(()),
        },
    }
}

/// Where sub-container `j` starts in the container.
pub open spec fn container_start(h: EofHeaderModel, j: int) -> int {
    (h.header_len + h.types_size + sum_sizes(h.code_sizes) + sum_sizes(
        h.container_sizes.subrange(0, j),
    )) as int
}

/// The bytes of sub-container `j`.
pub open spec fn container_section(b: Seq<u8>, h: EofHeaderModel, j: int) -> Seq<u8> {
    b.subrange(container_start(h, j), container_start(h, j) + h.container_sizes[j])
}

/// What is wrong with the bytes `b` as a container of `kind`, sub-containers
/// included: they are no container, or the container does not pass, or one of
/// its sub-containers, taken in order, has a fault of its own. A sub-container
/// may be of either kind.
pub open spec fn deep_error(b: Seq<u8>, kind: ContainerKind) -> Option<EofValidationError>
    decreases b.len(), 1nat, 0nat,
{
    match decode_spec(b) {
        Err(_) => Some(EofValidationError::InvalidSubContainer),
        Ok(h) => match validate_spec(b, h, kind) {
            Err(e) => Some(e),
            Ok(_) => subs_error_from(b, h, 0),
        },
    }
}

/// The first fault among the sub-containers `from..count`.
pub open spec fn subs_error_from(b: Seq<u8>, h: EofHeaderModel, from: int) -> Option<
    EofValidationError,
>
    decreases b.len(), 0nat, h.container_sizes.len() - from,
{
    if from >= h.container_sizes.len() || from < 0 {
        None
    } else if container_section(b, h, from).len() >= b.len() {
        Some(EofValidationError::InvalidSubContainer)
    } else if deep_error(container_section(b, h, from), ContainerKind::Unrestricted) is Some {
        deep_error(container_section(b, h, from), ContainerKind::Unrestricted)
    } else {
        subs_error_from(b, h, from + 1)
    }
}

/// A header takes at least fifteen bytes.
pub proof fn lemma_header_len(b: Seq<u8>, h: EofHeaderModel)
    requires
        parse_header(b) == Ok::<EofHeaderModel, EofDecodeError>(h),
    ensures
        h.header_len >= 15,
{
}

pub proof fn lemma_sum_sizes_prefix(s: Seq<u16>, i: int)
    requires
        0 <= i < s.len(),
    ensures
        sum_sizes(s.subrange(0, i + 1)) == sum_sizes(s.subrange(0, i)) + s[i],
        sum_sizes(s.subrange(0, i + 1)) <= sum_sizes(s),
    decreases s.len() - i,
{
    assert(s.subrange(0, i + 1).drop_last() =~= s.subrange(0, i));
    if i + 1 < s.len() {
        lemma_sum_sizes_prefix(s, i + 1);
    } else {
        assert(s.subrange(0, i + 1) =~= s);
    }
}

/// The two bytes of `b` at `pos`, read as a big-endian number.
pub fn read_u16(b: &[u8], pos: usize) -> (r: u16)
    requires
        pos + 2 <= b.len(),
    ensures
        r == u16_at(b@, pos as int),
{
    let wide: u128 = be_read(b, pos, 2);
    proof {
        lemma_be_value_bound(b@.subrange(pos as int, pos + 2));
        lemma_pow256_16();
    }
    wide as u16
}

/// The header of a container, as decoded.
#[derive(Debug)]
pub struct EofHeader {
    pub types_size: u16,
    pub code_sizes: Vec<u16>,
    pub container_sizes: Vec<u16>,
    pub data_size: u16,
    pub header_len: usize,
}

impl View for EofHeader {
    type V = EofHeaderModel;

    open spec fn view(&self) -> EofHeaderModel {
        EofHeaderModel {
            types_size: self.types_size as nat,
            code_sizes: self.code_sizes@,
            container_sizes: self.container_sizes@,
            data_size: self.data_size as nat,
            header_len: self.header_len as nat,
        }
    }
}

/// What a decoding function returns, as a model.
pub open spec fn header_result_view(r: Result<EofHeader, EofDecodeError>) -> Result<
    EofHeaderModel,
    EofDecodeError,
> {
    match r {
        Ok(h) => Ok(h@),
        Err(e) => Err(e),
    }
}

pub proof fn lemma_sum_sizes_bound(s: Seq<u16>)
    ensures
        sum_sizes(s) <= s.len() * 0xFFFF,
    decreases s.len(),
{
    if s.len() > 0 {
        lemma_sum_sizes_bound(s.drop_last());
    }
}

/// The sum of the sizes.
pub fn total_size(sizes: &Vec<u16>) -> (total: usize)
    requires
        sizes@.len() <= MAX_CODE_SECTIONS,
    ensures
        total == sum_sizes(sizes@),
{
    let mut total: usize = 0;
    let mut i: usize = 0;
    while i < sizes.len()
        invariant
            i <= sizes@.len(),
            sizes@.len() <= MAX_CODE_SECTIONS,
            total == sum_sizes(sizes@.subrange(0, i as int)),
            total <= i * 0xFFFF,
        decreases sizes@.len() - i,
    {
        proof {
            assert(sizes@.subrange(0, i + 1).drop_last() =~= sizes@.subrange(0, i as int));
        }
        total = total + sizes[i] as usize;
        i += 1;
    }
    proof {
        assert(sizes@.subrange(0, i as int) =~= sizes@);
    }
    total
}

/// Reads the list of sections at `pos`.
pub fn read_sizes(b: &[u8], pos: usize) -> (r: Result<Vec<u16>, EofDecodeError>)
    requires
        pos <= b.len(),
    ensures
        match r {
            Ok(sizes) => parse_sizes(b@, pos as int) == Ok::<Seq<u16>, EofDecodeError>(sizes@),
            Err(e) => parse_sizes(b@, pos as int) == Err::<Seq<u16>, EofDecodeError>(e),
        },
{
    if b.len() - pos < 2 {
        return Err(EofDecodeError::MissingInput);
    }
    let count: usize = read_u16(b, pos) as usize;
    if count == 0 {
        return Err(EofDecodeError::NonSizes);
    }
    if b.len() - pos - 2 < 2 * count {
        return Err(EofDecodeError::ShortInputForSizes);
    }
    let ghost want = sizes_at(b@, pos + 2, count as nat);
    let mut sizes: Vec<u16> = Vec::new();
    let mut zero: bool = false;
    let mut j: usize = 0;
    while j < count
        invariant
            j <= count,
            pos + 2 + 2 * count <= b.len(),
            want == sizes_at(b@, pos + 2, count as nat),
            sizes@.len() == j,
            forall|x: int| 0 <= x < j ==> sizes@[x] == want[x],
            zero ==> exists|x: int| 0 <= x < j && want[x] == 0u16,
            !zero ==> forall|x: int| 0 <= x < j ==> want[x] != 0u16,
        decreases count - j,
    {
        let size: u16 = read_u16(b, pos + 2 + 2 * j);
        proof {
            assert(size == want[j as int]);
            if zero {
                let x = choose|x: int| 0 <= x < j && want[x] == 0u16;
                assert(0 <= x < j + 1 && want[x] == 0u16);
            }
        }
        if size == 0 {
            zero = true;
        }
        sizes.push(size);
        j += 1;
    }
    proof {
        assert(sizes@ =~= want);
        if zero {
            let x = choose|x: int| 0 <= x < count && want[x] == 0u16;
            assert(want[x] == 0u16);
            assert(want.contains(0u16));
        }
    }
    if zero {
        return Err(EofDecodeError::ZeroSize);
    }
    Ok(sizes)
}

/// Reads the end of the header at `pos`.
fn read_header_end(
    b: &[u8],
    pos: usize,
    types_size: u16,
    code_sizes: Vec<u16>,
    container_sizes: Vec<u16>,
) -> (r: Result<EofHeader, EofDecodeError>)
    requires
        pos <= b.len(),
    ensures
        header_result_view(r) == parse_header_end(
            b@,
            pos as int,
            types_size as nat,
            code_sizes@,
            container_sizes@,
        ),
{
    if b.len() - pos < 4 {
        return Err(EofDecodeError::MissingInput);
    }
    if b[pos] != KIND_DATA {
        return Err(EofDecodeError::InvalidDataKind);
    }
    if b[pos + 3] != KIND_TERMINAL {
        return Err(EofDecodeError::InvalidTerminalByte);
    }
    let data_size: u16 = read_u16(b, pos + 1);
    Ok(EofHeader { types_size, code_sizes, container_sizes, data_size, header_len: pos + 4 })
}

/// Reads the header that `b` starts with.
pub fn read_header(b: &[u8]) -> (r: Result<EofHeader, EofDecodeError>)
    ensures
        header_result_view(r) == parse_header(b@),
{
    if b.len() < 3 {
        return Err(EofDecodeError::MissingInput);
    }
    if b[0] != EOF_MAGIC_FIRST || b[1] != EOF_MAGIC_SECOND {
        return Err(EofDecodeError::InvalidEOFMagicNumber);
    }
    if b[2] != EOF_VERSION {
        return Err(EofDecodeError::InvalidEOFVersion);
    }
    if b.len() < 7 {
        return Err(EofDecodeError::MissingInput);
    }
    if b[3] != KIND_TYPES {
        return Err(EofDecodeError::InvalidTypesKind);
    }
    let types_size: u16 = read_u16(b, 4);
    if types_size == 0 || types_size % 4 != 0 {
        return Err(EofDecodeError::InvalidTypesSection);
    }
    if b[6] != KIND_CODE {
        return Err(EofDecodeError::InvalidCodeKind);
    }
    let code_sizes = match read_sizes(b, 7) {
        Err(e) => {
            return Err(e);
        },
        Ok(sizes) => sizes,
    };
    if code_sizes.len() > MAX_CODE_SECTIONS {
        return Err(EofDecodeError::TooManyCodeSections);
    }
    if code_sizes.len() * 4 != types_size as usize {
        return Err(EofDecodeError::MismatchCodeAndTypesSize);
    }
    let pos: usize = 9 + 2 * code_sizes.len();
    if b.len() < pos + 1 {
        return Err(EofDecodeError::MissingInput);
    }
    if b[pos] == KIND_CONTAINER {
        let container_sizes = match read_sizes(b, pos + 1) {
            Err(e) => {
                return Err(e);
            },
            Ok(sizes) => sizes,
        };
        if container_sizes.len() > MAX_CONTAINER_SECTIONS {
            return Err(EofDecodeError::TooManyContainerSections);
        }
        let end: usize = pos + 3 + 2 * container_sizes.len();
        read_header_end(b, end, types_size, code_sizes, container_sizes)
    } else {
        let r = read_header_end(b, pos, types_size, code_sizes, Vec::new());
        r
    }
}

/// A decoded container: its bytes and the header that they start with.
#[derive(Debug)]
pub struct Eof {
    raw: Vec<u8>,
    header: EofHeader,
}

impl View for Eof {
    type V = Seq<u8>;

    /// The bytes of the container.
    closed spec fn view(&self) -> Seq<u8> {
        self.raw@
    }
}

impl Clone for Eof {
    fn clone(&self) -> (r: Self)
        ensures
            r@ == self@,
            r.header_spec() == self.header_spec(),
    {
        proof {
            use_type_invariant(self);
        }
        let header = EofHeader {
            types_size: self.header.types_size,
            code_sizes: self.header.code_sizes.clone(),
            container_sizes: self.header.container_sizes.clone(),
            data_size: self.header.data_size,
            header_len: self.header.header_len,
        };
        let raw = self.raw.clone();
        assert(header@.code_sizes =~= self.header@.code_sizes);
        assert(header@.container_sizes =~= self.header@.container_sizes);
        Eof { raw, header }
    }
}

impl Eof {
    /// The bytes are a container, and the header is theirs.
    #[verifier::type_invariant]
    closed spec fn well_formed(&self) -> bool {
        decode_spec(self.raw@) == Ok::<EofHeaderModel, EofDecodeError>(self.header@)
    }

    /// The header of the container.
    pub closed spec fn header_spec(&self) -> EofHeaderModel {
        self.header@
    }

    /// The container that `raw` is.
    pub fn decode(raw: Vec<u8>) -> (r: Result<Eof, EofDecodeError>)
        ensures
            match r {
                Ok(eof) => eof@ == raw@ && decode_spec(raw@) == Ok::<
                    EofHeaderModel,
                    EofDecodeError,
                >(eof.header_spec()),
                Err(e) => decode_spec(raw@) == Err::<EofHeaderModel, EofDecodeError>(e),
            },
    {
        let header = match read_header(raw.as_slice()) {
            Err(e) => {
                return Err(e);
            },
            Ok(h) => h,
        };
        let body: usize = Eof::body_len(&header);
        if raw.len() - header.header_len < body {
            return Err(EofDecodeError::MissingBody);
        }
        if raw.len() - header.header_len > body {
            return Err(EofDecodeError::DanglingData);
        }
        Ok(Eof { raw, header })
    }

    /// The container that `raw` starts with, and the bytes that follow it.
    pub fn decode_dangling(raw: Vec<u8>) -> (r: Result<(Eof, Vec<u8>), EofDecodeError>)
        ensures
            match r {
                Ok((eof, rest)) => {
                    &&& decode_dangling_spec(raw@) == Ok::<EofHeaderModel, EofDecodeError>(
                        eof.header_spec(),
                    )
                    &&& eof@ == raw@.subrange(0, eof.header_spec().container_len() as int)
                    &&& rest@ == raw@.subrange(
                        eof.header_spec().container_len() as int,
                        raw@.len() as int,
                    )
                },
                Err(e) => decode_dangling_spec(raw@) == Err::<EofHeaderModel, EofDecodeError>(e),
            },
    {
        let header = match read_header(raw.as_slice()) {
            Err(e) => {
                return Err(e);
            },
            Ok(h) => h,
        };
        let body: usize = Eof::body_len(&header);
        if raw.len() - header.header_len < body {
            return Err(EofDecodeError::MissingBody);
        }
        let total: usize = header.header_len + body;
        let mut raw = raw;
        let ghost whole = raw@;
        let rest = raw.split_off(total);
        proof {
            lemma_header_of_prefix(whole, raw@, header@);
        }
        Ok((Eof { raw, header }, rest))
    }

    /// The number of bytes that the sections take which a header announces.
    fn body_len(header: &EofHeader) -> (n: usize)
        requires
            header@.code_sizes.len() <= MAX_CODE_SECTIONS,
            header@.container_sizes.len() <= MAX_CONTAINER_SECTIONS,
        ensures
            header@.header_len + n == header@.container_len(),
    {
        proof {
            lemma_sum_sizes_bound(header@.code_sizes);
            lemma_sum_sizes_bound(header@.container_sizes);
        }
        header.types_size as usize + total_size(&header.code_sizes) + total_size(
            &header.container_sizes,
        ) + header.data_size as usize
    }

    /// The bytes of the container.
    pub fn raw(&self) -> (r: &Vec<u8>)
        ensures
            r@ == self@,
    {
        &self.raw
    }

    /// The header of the container.
    pub fn header(&self) -> (r: &EofHeader)
        ensures
            r@ == self.header_spec(),
            decode_spec(self@) == Ok::<EofHeaderModel, EofDecodeError>(r@),
    {
        proof {
            use_type_invariant(self);
        }
        &self.header
    }

    /// The entry of the types section for code section `i`.
    pub fn types_section(&self, i: usize) -> (t: TypesSection)
        requires
            i < self.header_spec().code_sizes.len(),
        ensures
            t == types_at(self@, self.header_spec(), i as int),
    {
        proof {
            use_type_invariant(self);
        }
        let at: usize = self.header.header_len + 4 * i;
        TypesSection {
            inputs: self.raw[at],
            outputs: self.raw[at + 1],
            max_stack_size: read_u16(self.raw.as_slice(), at + 2),
        }
    }

    /// Checks the container without regard to what it is for. See `validate_as`.
    pub fn validate(&self) -> (r: Result<(), EofValidationError>)
        ensures
            r == validate_spec(self@, self.header_spec(), ContainerKind::Unrestricted),
    {
        self.validate_as(ContainerKind::Unrestricted)
    }

    /// Checks the container as one of `kind`, and each sub-container in it, and
    /// theirs, as a container of either kind.
    pub fn validate_deep(&self, kind: ContainerKind) -> (r: Result<(), EofValidationError>)
        ensures
            r == match deep_error(self@, kind) {
                Some(e) => Err::<(), EofValidationError>(e),
                None => Ok::<(), EofValidationError>(()),
            },
        decreases self@.len(),
    {
        proof {
            use_type_invariant(self);
        }
        match self.validate_as(kind) {
            Err(e) => {
                return Err(e);
            },
            Ok(_) => {},
        }
        let ghost h = self.header_spec();
        let count: usize = self.header.container_sizes.len();
        proof {
            lemma_sum_sizes_bound(h.code_sizes);
            assert(h.container_sizes.subrange(0, 0) =~= Seq::<u16>::empty());
            assert(self.raw@.len() == h.container_len());
            assert(self.raw.len() == self.raw@.len());
        }
        let mut start: usize = self.header.header_len + self.header.types_size as usize
            + total_size(&self.header.code_sizes);
        let mut j: usize = 0;
        while j < count
            invariant
                j <= count,
                h == self.header_spec(),
                h == self.header@,
                count == h.container_sizes.len(),
                decode_spec(self.raw@) == Ok::<EofHeaderModel, EofDecodeError>(h),
                self@ == self.raw@,
                start == container_start(h, j as int),
                deep_error(self@, kind) == subs_error_from(self@, h, j as int),
            decreases count - j,
        {
            proof {
                lemma_sum_sizes_prefix(h.container_sizes, j as int);
                assert(self.raw@.len() == h.container_len());
                assert(self.raw.len() == self.raw@.len());
            }
            let size: usize = self.header.container_sizes[j] as usize;
            let bytes = vstd::slice::slice_subrange(self.raw.as_slice(), start, start + size);
            proof {
                lemma_header_len(self.raw@, h);
                assert(bytes@ == container_section(self@, h, j as int));
                assert(bytes@.len() < self@.len());
            }
            let sub = match Eof::decode(vstd::slice::slice_to_vec(bytes)) {
                Ok(sub) => sub,
                Err(_) => {
                    proof {
                        assert(decode_spec(bytes@) is Err);
                        assert(deep_error(bytes@, ContainerKind::Unrestricted) == Some(
                            EofValidationError::InvalidSubContainer,
                        ));
                    }
                    return Err(EofValidationError::InvalidSubContainer);
                },
            };
            match sub.validate_deep(ContainerKind::Unrestricted) {
                Err(e) => {
                    return Err(e);
                },
                Ok(_) => {},
            }
            start = start + size;
            j += 1;
        }
        Ok(())
    }

    /// Checks the container as one of `kind`. The types section: the first code
    /// section takes nothing and never returns, and no entry is out of range.
    /// Then each code section: see `validate_section`.
    pub fn validate_as(&self, kind: ContainerKind) -> (r: Result<(), EofValidationError>)
        ensures
            r == validate_spec(self@, self.header_spec(), kind),
    {
        proof {
            use_type_invariant(self);
        }
        let count: usize = self.header.code_sizes.len();
        let mut types: Vec<TypesSection> = Vec::new();
        let mut i: usize = 0;
        while i < count
            invariant
                i <= count,
                count == self.header_spec().code_sizes.len(),
                types@.len() == i,
                forall|j: int|
                    0 <= j < i ==> types@[j] == types_at(self@, self.header_spec(), j),
                types_error_from(self@, self.header_spec(), 0) == types_error_from(
                    self@,
                    self.header_spec(),
                    i as int,
                ),
            decreases count - i,
        {
            let t = self.types_section(i);
            if i == 0 && (t.inputs != 0 || t.outputs != NON_RETURNING) {
                return Err(EofValidationError::InvalidFirstSectionType);
            }
            if t.inputs > 0x7F {
                return Err(EofValidationError::TooManyInputs);
            }
            if t.outputs > NON_RETURNING {
                return Err(EofValidationError::TooManyOutputs);
            }
            if t.max_stack_size > 0x3FF {
                return Err(EofValidationError::MaxStackTooHigh);
            }
            types.push(t);
            i += 1;
        }
        let ghost h = self.header_spec();
        assert(types@ =~= types_seq(self@, h));
        let mut start: usize = self.header.header_len + self.header.types_size as usize;
        let mut i: usize = 0;
        proof {
            assert(h.code_sizes.subrange(0, 0) =~= Seq::<u16>::empty());
        }
        while i < count
            invariant
                i <= count,
                h == self.header_spec(),
                h == self.header@,
                count == h.code_sizes.len(),
                types@ == types_seq(self@, h),
                decode_spec(self.raw@) == Ok::<EofHeaderModel, EofDecodeError>(h),
                self@ == self.raw@,
                start == code_start(h, i as int),
                types_error_from(self@, h, 0) is None,
                codes_error_from(self@, h, kind, 0) == codes_error_from(self@, h, kind, i as int),
            decreases count - i,
        {
            proof {
                lemma_sum_sizes_prefix(h.code_sizes, i as int);
                assert(self.raw@.len() == h.container_len());
                assert(self.raw.len() == self.raw@.len());
            }
            let size: usize = self.header.code_sizes[i] as usize;
            let code = vstd::slice::slice_subrange(self.raw.as_slice(), start, start + size);
            match validate_section(
                code,
                &types,
                i,
                self.header.container_sizes.len(),
                self.header.data_size as usize,
                kind,
            ) {
                Some(e) => {
                    return Err(e);
                },
                None => {},
            }
            start = start + size;
            i += 1;
        }
        Ok(())
    }
}

/// A header read from a byte string is also the header of each prefix that holds
/// the whole container.
pub proof fn lemma_header_of_prefix(whole: Seq<u8>, prefix: Seq<u8>, h: EofHeaderModel)
    requires
        parse_header(whole) == Ok::<EofHeaderModel, EofDecodeError>(h),
        h.container_len() <= whole.len(),
        prefix == whole.subrange(0, h.container_len() as int),
    ensures
        decode_spec(prefix) == Ok::<EofHeaderModel, EofDecodeError>(h),
{
    let n = u16_at(whole, 7);
    assert forall|pos: int| 0 <= pos && pos + 2 <= h.header_len implies u16_at(prefix, pos)
        == u16_at(whole, pos) by {
        assert(prefix.subrange(pos, pos + 2) =~= whole.subrange(pos, pos + 2));
    }
    let code_sizes = h.code_sizes;
    assert(sizes_at(prefix, 9, n) =~= sizes_at(whole, 9, n));
    let pos: int = 9 + 2 * code_sizes.len() as int;
    if whole[pos] == KIND_CONTAINER {
        let m = u16_at(whole, pos + 1);
        assert(sizes_at(prefix, pos + 3, m) =~= sizes_at(whole, pos + 3, m));
    }
}

} // verus!
