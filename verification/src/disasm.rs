//! The binary scanner: recovers branch targets from the machine code of a
//! region.
//!
//! Decoding x86-64 is left to the Capstone disassembler. What this module
//! proves is what is done with the decoded instructions: which of them count
//! as trampolines, which of their operands are taken, and in which order the
//! targets come out.

use capstone::arch::x86::ArchMode;
use capstone::arch::x86::ArchSyntax;
use capstone::arch::x86::X86OperandType;
use capstone::arch::ArchOperand;
use capstone::arch::BuildsCapstone;
use capstone::arch::BuildsCapstoneSyntax;
use capstone::Capstone;
use capstone::Instructions;
use crate::text::text_eq;
use vstd::prelude::*;

verus! {

/// An operand of a decoded instruction, as far as the scanner tells operands
/// apart.
#[derive(Clone, Copy, Debug, PartialEq, Eq, Structural)]
pub enum Operand {
    /// A register.
    Register,
    /// An immediate value. For a direct call or jump the disassembler has
    /// already resolved it to the absolute address of the destination.
    Immediate(i64),
    /// A memory reference.
    Memory,
    /// An operand the disassembler could not classify.
    Invalid,
    /// An operand of an instruction set other than x86.
    Foreign,
}

/// One decoded instruction, as far as the scanner reads it.
pub struct Instruction {
    /// The instruction's name in the disassembler's default syntax, where it
    /// has one.
    pub mnemonic: Option<Seq<char>>,
    /// The instruction's operands in encoding order; `None` where the
    /// disassembler holds no detail for the instruction.
    pub operands: Option<Seq<Operand>>,
}

/// Why a region could not be scanned.
#[derive(Clone, Copy, Debug, PartialEq, Eq, Structural)]
pub enum ScanError {
    /// The disassembler could not be set up.
    Engine,
    /// The disassembler reported a failure instead of a listing.
    Disassemble,
    /// The disassembler holds no operand detail for a call or jump.
    Detail,
}

/// The instructions that the disassembler, set up for 64-bit x86, makes of
/// `code` loaded at address `addr`: decoded from the first byte on, one after
/// another, up to the end of `code` or the first bytes that form no
/// instruction.
pub uninterp spec fn x86_decode(code: Seq<u8>, addr: u64) -> Seq<Instruction>;

/// The instructions that a listing returned by the disassembler holds, in
/// address order.
pub uninterp spec fn listing(insns: &Instructions) -> Seq<Instruction>;

/// `capstone::Capstone`, the disassembler's handle, carried as an opaque
/// value.
#[verifier::external_type_specification]
#[verifier::external_body]
pub struct ExCapstone(capstone::Capstone);

/// `capstone::Instructions`, a listing, carried as an opaque value; see
/// [`listing`] for what it holds.
#[verifier::external_type_specification]
#[verifier::external_body]
pub struct ExInstructions<'a>(capstone::Instructions<'a>);

/// `capstone::Insn`, the element type of a listing. No value of it is ever
/// held here.
#[verifier::external_type_specification]
#[verifier::external_body]
pub struct ExInsn<'a>(capstone::Insn<'a>);

/// `capstone::Error`, carried as an opaque value and mapped to
/// [`ScanError`] where it arrives.
#[verifier::external_type_specification]
#[verifier::external_body]
pub struct ExCapstoneError(capstone::Error);

/// A disassembler for 64-bit x86. The only way to one is [`open_engine`], so
/// every engine is set up alike.
struct Engine {
    handle: Capstone,
}

/// Builds a disassembler through `Capstone::new()`: x86, 64-bit mode, AT&T
/// syntax, instruction detail switched on. Nothing is claimed of the outcome;
/// the build fails where the engine cannot be opened.
#[verifier::external_body]
fn open_engine() -> (engine: Result<Engine, capstone::Error>) {
    let handle =
        Capstone::new().x86().mode(ArchMode::Mode64).syntax(ArchSyntax::Att).detail(true).build()?;
    Ok(Engine { handle })
}

/// Calls `Capstone::disasm_all`. A listing that comes back holds the decoding
/// of `code` at `addr`; a failure may come back for any input.
#[verifier::external_body]
fn disassemble<'a>(engine: &'a Engine, code: &[u8], addr: u64) -> (result: Result<
    Instructions<'a>,
    capstone::Error,
>)
    ensures
        result matches Ok(insns) ==> listing(&insns) == x86_decode(code@, addr),
{
    engine.handle.disasm_all(code, addr)
}

/// The length of the slice of instructions that a listing dereferences to.
#[verifier::external_body]
fn insn_count(insns: &Instructions) -> (count: usize)
    ensures
        count == listing(insns).len(),
{
    insns.len()
}

/// Calls `Capstone::insn_name` on the id of the `index`-th instruction of a
/// listing: the instruction's name, if the disassembler has one for it.
#[verifier::external_body]
fn mnemonic_at(engine: &Engine, insns: &Instructions, index: usize) -> (name: Option<String>)
    requires
        index < listing(insns).len(),
    ensures
        match name {
            Some(text) => listing(insns)[index as int].mnemonic == Some(text@),
            None => listing(insns)[index as int].mnemonic is None,
        },
{
    engine.handle.insn_name(insns[index].id())
}

/// Calls `Capstone::insn_detail` on the `index`-th instruction of a listing
/// and hands out the operands of its architecture detail, each reduced to its
/// kind. Fails where the disassembler holds no detail for the instruction.
#[verifier::external_body]
fn operands_at(engine: &Engine, insns: &Instructions, index: usize) -> (operands: Result<
    Vec<Operand>,
    capstone::Error,
>)
    requires
        index < listing(insns).len(),
    ensures
        match operands {
            Ok(found) => listing(insns)[index as int].operands == Some(found@),
            Err(_) => listing(insns)[index as int].operands is None,
        },
{
    let detail = engine.handle.insn_detail(&insns[index])?;
    Ok(detail.arch_detail().operands().into_iter().map(|operand| match operand {
        ArchOperand::X86Operand(x86) => match x86.op_type {
            X86OperandType::Reg(_) => Operand::Register,
            X86OperandType::Imm(value) => Operand::Immediate(value),
            X86OperandType::Mem(_) => Operand::Memory,
            X86OperandType::Invalid => Operand::Invalid,
        },
        _ => Operand::Foreign,
    }).collect())
}

/// Whether an instruction name is that of a direct transfer of control: a
/// call or an unconditional jump.
pub open spec fn spec_is_branch(mnemonic: Seq<char>) -> bool {
    mnemonic == "call"@ || mnemonic == "jmp"@
}

/// The address an immediate operand denotes: its 64 bits, read unsigned.
pub open spec fn address_of(value: i64) -> u64 {
    value as u64
}

/// Reading the bits unsigned leaves a value that is not negative as it is and
/// lifts a negative one by two to the sixty-fourth.
pub proof fn lemma_address_of(value: i64)
    ensures
        value >= 0 ==> address_of(value) == value,
        value < 0 ==> address_of(value) == value + 0x1_0000_0000_0000_0000,
{
    assert(value >= 0 ==> (value as u64) == value) by (bit_vector);
    assert(value < 0 ==> (value as u64) == value + 0x1_0000_0000_0000_0000) by (bit_vector);
}

/// The addresses denoted by the immediate operands among `operands`, in
/// operand order.
pub open spec fn immediates(operands: Seq<Operand>) -> Seq<u64>
    decreases operands.len(),
{
    if operands.len() == 0 {
        Seq::empty()
    } else {
        let front = immediates(operands.drop_last());
        match operands.last() {
            Operand::Immediate(value) => front.push(address_of(value)),
            _ => front,
        }
    }
}

/// What one instruction contributes to the registry: the immediates of a
/// call or jump, nothing for any other instruction. `None` where a call or
/// jump comes without operand detail.
pub open spec fn targets_of(insn: Instruction) -> Option<Seq<u64>> {
    match insn.mnemonic {
        Some(name) if spec_is_branch(name) => match insn.operands {
            Some(operands) => Some(immediates(operands)),
            None => None,
        },
        _ => Some(Seq::empty()),
    }
}

/// The registry recovered from an instruction stream: the contributions of
/// its instructions, concatenated in stream order. `None` where some call or
/// jump comes without operand detail.
pub open spec fn spec_scan(insns: Seq<Instruction>) -> Option<Seq<u64>>
    decreases insns.len(),
{
    if insns.len() == 0 {
        Some(Seq::empty())
    } else {
        match (spec_scan(insns.drop_last()), targets_of(insns.last())) {
            (Some(front), Some(back)) => Some(front + back),
            _ => None,
        }
    }
}

impl ScanError {
    /// A one-line description of the failure.
    pub fn message(&self) -> (text: String)
        ensures
            text@ == match *self {
                ScanError::Engine => "Failed to create Capstone object"@,
                ScanError::Disassemble => "Failed to disassemble"@,
                ScanError::Detail => "Failed to get insn detail"@,
            },
    {
        match self {
            ScanError::Engine => String::from_str("Failed to create Capstone object"),
            ScanError::Disassemble => String::from_str("Failed to disassemble"),
            ScanError::Detail => String::from_str("Failed to get insn detail"),
        }
    }
}

/// Whether an instruction name is that of a call or an unconditional jump.
pub fn is_branch(mnemonic: &str) -> (branch: bool)
    ensures
        branch == spec_is_branch(mnemonic@),
{
    text_eq(mnemonic, "call") || text_eq(mnemonic, "jmp")
}

/// Appends to `targets` the addresses denoted by the immediate operands among
/// `operands`, in operand order.
pub fn push_immediates(operands: &Vec<Operand>, targets: &mut Vec<u64>)
    ensures
        final(targets)@ == old(targets)@ + immediates(operands@),
{
    let ghost before = targets@;
    let mut i: usize = 0;
    while i < operands.len()
        invariant
            i <= operands.len(),
            targets@ == before + immediates(operands@.take(i as int)),
        decreases operands.len() - i,
    {
        proof {
            assert(operands@.take(i + 1).drop_last() =~= operands@.take(i as int));
        }
        match operands[i] {
            Operand::Immediate(value) => {
                targets.push(#[verifier::truncate] (value as u64));
                assert(targets@ =~= before + immediates(operands@.take(i + 1)));
            },
            _ => {},
        }
        i = i + 1;
    }
    assert(operands@.take(operands.len() as int) =~= operands@);
}

/// One decoded instruction, as far as the scanner reads it.
#[derive(Clone, Debug, PartialEq, Eq)]
pub struct DecodedInsn {
    /// The instruction's name, where it has one.
    pub mnemonic: Option<String>,
    /// The instruction's operands in encoding order; `None` where no detail
    /// is at hand.
    pub operands: Option<Vec<Operand>>,
}

impl View for DecodedInsn {
    type V = Instruction;

    open spec fn view(&self) -> Instruction {
        Instruction {
            mnemonic: match self.mnemonic {
                Some(name) => Some(name@),
                None => None,
            },
            operands: match self.operands {
                Some(operands) => Some(operands@),
                None => None,
            },
        }
    }
}

/// The instruction stream that a list of decoded instructions stands for.
pub open spec fn stream(insns: Seq<DecodedInsn>) -> Seq<Instruction> {
    Seq::new(insns.len(), |i: int| insns[i]@)
}

/// Two instructions that the scanner cannot tell apart: they bear the same
/// name and, where that is the name of a call or jump, the same operands.
pub open spec fn reads_alike(a: Instruction, b: Instruction) -> bool {
    &&& a.mnemonic == b.mnemonic
    &&& (a.mnemonic matches Some(name) && spec_is_branch(name)) ==> a.operands == b.operands
}

/// Collects the registry from a stream of decoded instructions.
///
/// Every call and every unconditional jump contributes the addresses of its
/// immediate operands; the addresses come out in stream order. The outcome is
/// `None` exactly when some call or jump comes without operands.
pub fn scan(insns: &Vec<DecodedInsn>) -> (targets: Option<Vec<u64>>)
    ensures
        match targets {
            Some(found) => spec_scan(stream(insns@)) == Some(found@),
            None => spec_scan(stream(insns@)) is None,
        },
{
    let ghost whole = stream(insns@);
    let mut targets: Vec<u64> = Vec::new();
    let mut i: usize = 0;
    while i < insns.len()
        invariant
            i <= insns.len(),
            whole == stream(insns@),
            spec_scan(whole.take(i as int)) == Some(targets@),
        decreases insns.len() - i,
    {
        proof {
            assert(whole.take(i + 1).drop_last() =~= whole.take(i as int));
            assert(whole.take(i + 1).last() == insns@[i as int]@);
        }
        let ghost before = targets@;
        let insn = &insns[i];
        let branch = match &insn.mnemonic {
            Some(name) => is_branch(name.as_str()),
            None => false,
        };
        if branch {
            match &insn.operands {
                Some(operands) => {
                    push_immediates(operands, &mut targets);
                },
                None => {
                    proof {
                        assert(targets_of(whole[i as int]) is None);
                        assert(spec_scan(whole.take(i + 1)) is None);
                        lemma_scan_fails_from(whole, i + 1);
                    }
                    return None;
                },
            }
        } else {
            assert(targets@ =~= before + Seq::<u64>::empty());
        }
        i = i + 1;
    }
    assert(whole.take(insns.len() as int) =~= whole);
    Some(targets)
}

/// Decodes `code`, loaded at `addr`, and reads of every instruction what the
/// scanner needs: the name, and for a call or jump the operands.
fn decode(code: &[u8], addr: u64) -> (result: Result<Vec<DecodedInsn>, ScanError>)
    ensures
        match result {
            Ok(insns) => {
                &&& insns@.len() == x86_decode(code@, addr).len()
                &&& forall|i: int|
                    0 <= i < insns@.len() ==> reads_alike(
                        #[trigger] insns@[i]@,
                        x86_decode(code@, addr)[i],
                    )
            },
            Err(error) => error != ScanError::Detail,
        },
{
    let engine = match open_engine() {
        Ok(engine) => engine,
        Err(_) => {
            return Err(ScanError::Engine);
        },
    };
    let listed = match disassemble(&engine, code, addr) {
        Ok(listed) => listed,
        Err(_) => {
            return Err(ScanError::Disassemble);
        },
    };
    let count = insn_count(&listed);
    let mut insns: Vec<DecodedInsn> = Vec::new();
    let mut i: usize = 0;
    while i < count
        invariant
            i <= count,
            count == listing(&listed).len(),
            listing(&listed) == x86_decode(code@, addr),
            insns@.len() == i,
            forall|k: int|
                0 <= k < i ==> reads_alike(#[trigger] insns@[k]@, x86_decode(code@, addr)[k]),
        decreases count - i,
    {
        let mnemonic = mnemonic_at(&engine, &listed, i);
        let branch = match &mnemonic {
            Some(name) => is_branch(name.as_str()),
            None => false,
        };
        let operands = if branch {
            match operands_at(&engine, &listed, i) {
                Ok(operands) => Some(operands),
                Err(_) => None,
            }
        } else {
            None
        };
        insns.push(DecodedInsn { mnemonic, operands });
        i = i + 1;
    }
    Ok(insns)
}

/// Recovers the registry held in `code`, the content of a region loaded at
/// address `addr`.
///
/// The bytes are decoded as x86-64 instructions. Every call and every
/// unconditional jump contributes the addresses of its immediate operands;
/// the addresses come out in instruction order. The scan fails with
/// [`ScanError::Detail`] exactly when the decoded stream holds a call or jump
/// without operand detail; the other two failures are the disassembler's.
pub fn extract_function_pointers(code: &[u8], addr: u64) -> (result: Result<Vec<u64>, ScanError>)
    ensures
        match result {
            Ok(targets) => spec_scan(x86_decode(code@, addr)) == Some(targets@),
            Err(ScanError::Detail) => spec_scan(x86_decode(code@, addr)) is None,
            Err(_) => true,
        },
{
    let insns = match decode(code, addr) {
        Ok(insns) => insns,
        Err(error) => {
            return Err(error);
        },
    };
    proof {
        lemma_scan_reads_alike(stream(insns@), x86_decode(code@, addr));
    }
    match scan(&insns) {
        Some(targets) => Ok(targets),
        None => Err(ScanError::Detail),
    }
}

/// The scanner reads of an instruction its name and, for a call or jump, its
/// operands; streams that agree in these have the same registry.
pub proof fn lemma_scan_reads_alike(a: Seq<Instruction>, b: Seq<Instruction>)
    requires
        a.len() == b.len(),
        forall|i: int| 0 <= i < a.len() ==> reads_alike(#[trigger] a[i], b[i]),
    ensures
        spec_scan(a) == spec_scan(b),
    decreases a.len(),
{
    if a.len() > 0 {
        lemma_scan_reads_alike(a.drop_last(), b.drop_last());
        assert(reads_alike(a[a.len() - 1], b[b.len() - 1]));
    }
}

/// A scan that has failed on a prefix of the stream fails on the whole
/// stream.
pub proof fn lemma_scan_fails_from(insns: Seq<Instruction>, upto: int)
    requires
        0 <= upto <= insns.len(),
        spec_scan(insns.take(upto)) is None,
    ensures
        spec_scan(insns) is None,
    decreases insns.len() - upto,
{
    if upto < insns.len() {
        assert(insns.take(upto + 1).drop_last() =~= insns.take(upto));
        lemma_scan_fails_from(insns, upto + 1);
    } else {
        assert(insns.take(upto) =~= insns);
    }
}

/// Scanning keeps stream order: the registry of two instruction streams laid
/// end to end is the registry of the first followed by that of the second.
/// So contributions come out in the order in which the linker placed their
/// code.
pub proof fn lemma_scan_concat(front: Seq<Instruction>, back: Seq<Instruction>)
    ensures
        spec_scan(front + back) == match (spec_scan(front), spec_scan(back)) {
            (Some(first), Some(second)) => Some(first + second),
            _ => None::<Seq<u64>>,
        },
    decreases back.len(),
{
    if back.len() == 0 {
        assert(front + back =~= front);
        match spec_scan(front) {
            Some(first) => {
                assert(first + Seq::<u64>::empty() =~= first);
            },
            None => {},
        }
    } else {
        assert((front + back).drop_last() =~= front + back.drop_last());
        assert((front + back).last() == back.last());
        lemma_scan_concat(front, back.drop_last());
        match (spec_scan(front), spec_scan(back.drop_last()), targets_of(back.last())) {
            (Some(first), Some(middle), Some(last)) => {
                assert((first + middle) + last =~= first + (middle + last));
            },
            _ => {},
        }
    }
}

/// Whether an instruction has the shape of a trampoline: a call or jump whose
/// only operand is an immediate.
pub open spec fn is_trampoline(insn: Instruction) -> bool {
    &&& insn.mnemonic matches Some(name)
    &&& spec_is_branch(name)
    &&& insn.operands matches Some(operands)
    &&& operands.len() == 1
    &&& operands[0] is Immediate
}

/// Round trip: a region whose code decodes to `k` trampolines and nothing
/// else materializes to exactly `k` entries, the `i`-th being the destination
/// of the `i`-th trampoline.
pub proof fn lemma_one_entry_per_trampoline(insns: Seq<Instruction>)
    requires
        forall|i: int| 0 <= i < insns.len() ==> is_trampoline(#[trigger] insns[i]),
    ensures
        spec_scan(insns) matches Some(entries) && entries.len() == insns.len() && forall|i: int|
            0 <= i < insns.len() ==> #[trigger] entries[i] == address_of(
                insns[i].operands->0[0]->Immediate_0,
            ),
    decreases insns.len(),
{
    if insns.len() > 0 {
        let front = insns.drop_last();
        lemma_one_entry_per_trampoline(front);
        let last = insns.last();
        assert(is_trampoline(last));
        let operands = last.operands->0;
        reveal_with_fuel(immediates, 2);
        assert(operands.drop_last() =~= Seq::<Operand>::empty());
        assert(immediates(operands) =~= seq![address_of(operands[0]->Immediate_0)]);
        let entries = spec_scan(insns)->0;
        assert forall|i: int| 0 <= i < insns.len() implies #[trigger] entries[i] == address_of(
            insns[i].operands->0[0]->Immediate_0,
        ) by {
            if i < front.len() {
                assert(front[i] == insns[i]);
            }
        }
    }
}

/// Instruction streams laid end to end, in order.
pub open spec fn joined(streams: Seq<Seq<Instruction>>) -> Seq<Instruction>
    decreases streams.len(),
{
    if streams.len() == 0 {
        Seq::empty()
    } else {
        joined(streams.drop_last()) + streams.last()
    }
}

/// Round trip, whatever else the contributions' code holds: where the code
/// of each of `k` contributions scans to exactly one entry, the code of all
/// of them, laid end to end, scans to exactly these `k` entries, in the order
/// of the contributions. None is missing, none comes twice, none is foreign.
pub proof fn lemma_one_entry_per_contribution(streams: Seq<Seq<Instruction>>, entries: Seq<u64>)
    requires
        streams.len() == entries.len(),
        forall|i: int|
            0 <= i < streams.len() ==> spec_scan(#[trigger] streams[i]) == Some(seq![entries[i]]),
    ensures
        spec_scan(joined(streams)) == Some(entries),
    decreases streams.len(),
{
    if streams.len() == 0 {
        assert(entries =~= Seq::<u64>::empty());
    } else {
        lemma_one_entry_per_contribution(streams.drop_last(), entries.drop_last());
        lemma_scan_concat(joined(streams.drop_last()), streams.last());
        assert(spec_scan(streams[streams.len() - 1]) == Some(seq![entries[entries.len() - 1]]));
        assert(entries.drop_last() + seq![entries.last()] =~= entries);
    }
}

} // verus!
