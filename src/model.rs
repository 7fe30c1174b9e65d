//! The abstract machine and the meaning of each instruction on it: the
//! specification that the executable machine is proved against, and the laws
//! that follow from it.

use vstd::prelude::*;

use crate::immediate::{sext12, sext20, signed32, SmallImmediate};
use crate::instruction::{decode, Instruction, I, S};

verus! {

/// Why an instruction could not be executed.
#[derive(Clone, Copy, Debug, PartialEq, Eq, Structural)]
pub enum Fault {
    /// A fetch, load or store touched a byte at or beyond the end of memory.
    MemoryOutOfBounds,
    /// The instruction has no execution semantics here (`ECALL`, `EBREAK`).
    UnimplementedOperation,
}

/// The abstract machine: `regs[i]` backs register `x(i + 1)`, since `x0` has
/// no storage.
pub struct MachineView {
    pub regs: Seq<u32>,
    pub pc: int,
    pub mem: Seq<u8>,
}

/// `x` reduced to a 32-bit pattern.
pub open spec fn wrap32(x: int) -> u32 {
    (x % 0x1_0000_0000) as u32
}

/// Bytes in a 32-bit address space.
pub open spec fn address_space() -> int {
    0x1_0000_0000
}

/// Byte `k` of `v`, counting from the least significant.
pub open spec fn byte_of(v: u32, k: int) -> u8 {
    let d = if k == 0 {
        1
    } else if k == 1 {
        0x100
    } else if k == 2 {
        0x1_0000
    } else {
        0x100_0000
    };
    ((v / d) % 0x100) as u8
}

/// The `width`-byte big-endian value at `a`.
pub open spec fn load_be(mem: Seq<u8>, a: int, width: int) -> u32 {
    if width == 1 {
        mem[a] as u32
    } else if width == 2 {
        (mem[a] * 0x100 + mem[a + 1]) as u32
    } else {
        (mem[a] * 0x100_0000 + mem[a + 1] * 0x1_0000 + mem[a + 2] * 0x100 + mem[a + 3]) as u32
    }
}

/// `mem` with the low `width` bytes of `v` written at `a`, most significant first.
pub open spec fn store_be(mem: Seq<u8>, a: int, v: u32, width: int) -> Seq<u8> {
    if width == 1 {
        mem.update(a, byte_of(v, 0))
    } else if width == 2 {
        mem.update(a, byte_of(v, 1)).update(a + 1, byte_of(v, 0))
    } else {
        mem.update(a, byte_of(v, 3))
            .update(a + 1, byte_of(v, 2))
            .update(a + 2, byte_of(v, 1))
            .update(a + 3, byte_of(v, 0))
    }
}

/// The bytes `a .. a + width` exist.
pub open spec fn in_bounds(mem: Seq<u8>, a: int, width: int) -> bool {
    0 <= a && a + width <= mem.len()
}

/// The 32-bit pattern of a sign-extended 12-bit immediate.
pub open spec fn imm12(v: u32) -> u32 {
    wrap32(sext12(v as int))
}

impl MachineView {
    /// Thirty-one backing registers, for `x1` to `x31`.
    pub open spec fn wf(self) -> bool {
        self.regs.len() == 31
    }

    /// The value of register `r`; `x0` reads as zero.
    pub open spec fn reg(self, r: u8) -> u32 {
        if r == 0 {
            0
        } else {
            self.regs[r - 1]
        }
    }

    /// The state with register `r` set to `v`; a write to `x0` is discarded.
    pub open spec fn set(self, r: u8, v: u32) -> MachineView {
        if r == 0 {
            self
        } else {
            MachineView { regs: self.regs.update(r - 1, v), ..self }
        }
    }

    /// The state with the program counter at `target`.
    pub open spec fn jump(self, target: int) -> MachineView {
        MachineView { pc: target, ..self }
    }

    /// The state with the program counter at the next instruction.
    pub open spec fn next(self) -> MachineView {
        self.jump(self.pc + 4)
    }

    /// The state with memory replaced.
    pub open spec fn with_mem(self, mem: Seq<u8>) -> MachineView {
        MachineView { mem, ..self }
    }

    /// The effective address `rs1 + imm` of a load or store.
    pub open spec fn address(self, rs1: u8, imm: u32) -> int {
        wrap32(self.reg(rs1) + sext12(imm as int)) as int
    }

    /// A load of `width` bytes into `rd`, zero- or sign-extended.
    pub open spec fn load(self, rd: u8, a: int, width: int, signed: bool) -> Result<
        MachineView,
        Fault,
    > {
        if !in_bounds(self.mem, a, width) {
            Err(Fault::MemoryOutOfBounds)
        } else {
            let v = load_be(self.mem, a, width);
            let x = if !signed || width == 4 {
                v
            } else if width == 1 {
                if v >= 0x80 { wrap32(v - 0x100) } else { v }
            } else {
                if v >= 0x8000 { wrap32(v - 0x1_0000) } else { v }
            };
            Ok(self.set(rd, x).next())
        }
    }

    /// A store of the low `width` bytes of `v`.
    pub open spec fn store(self, a: int, v: u32, width: int) -> Result<MachineView, Fault> {
        if !in_bounds(self.mem, a, width) {
            Err(Fault::MemoryOutOfBounds)
        } else {
            Ok(self.with_mem(store_be(self.mem, a, v, width)).next())
        }
    }

    /// A conditional branch by `2 * sext(imm)` bytes.
    pub open spec fn branch(self, taken: bool, imm: u32) -> MachineView {
        if taken {
            self.jump(self.pc + sext12(imm as int) * 2)
        } else {
            self.next()
        }
    }
}

/// The result of executing `inst` in state `s`: the next state, or the fault
/// that stops it. Every operand register is read in `s`, before the
/// destination is written: `JALR x1, imm(x1)` jumps from the old `x1`, as the
/// base ISA has it.
pub open spec fn step(s: MachineView, inst: Instruction) -> Result<MachineView, Fault> {
    match inst {
        Instruction::ADD { data } => Ok(
            s.set(data.rd, wrap32(s.reg(data.rs1) + s.reg(data.rs2))).next(),
        ),
        Instruction::SUB { data } => Ok(
            s.set(data.rd, wrap32(s.reg(data.rs1) - s.reg(data.rs2))).next(),
        ),
        Instruction::XOR { data } => Ok(s.set(data.rd, s.reg(data.rs1) ^ s.reg(data.rs2)).next()),
        Instruction::OR { data } => Ok(s.set(data.rd, s.reg(data.rs1) | s.reg(data.rs2)).next()),
        Instruction::AND { data } => Ok(s.set(data.rd, s.reg(data.rs1) & s.reg(data.rs2)).next()),
        Instruction::SLL { data } => Ok(
            s.set(data.rd, s.reg(data.rs1) << (s.reg(data.rs2) % 32)).next(),
        ),
        Instruction::SRL { data } => Ok(
            s.set(data.rd, s.reg(data.rs1) >> (s.reg(data.rs2) % 32)).next(),
        ),
        Instruction::SRA { data } => Ok(
            s.set(data.rd, ((s.reg(data.rs1) as i32) >> (s.reg(data.rs2) % 32)) as u32).next(),
        ),
        Instruction::SLT { data } => Ok(
            s.set(
                data.rd,
                if signed32(s.reg(data.rs1)) < signed32(s.reg(data.rs2)) { 1 } else { 0 },
            ).next(),
        ),
        Instruction::SLTU { data } => Ok(
            s.set(data.rd, if s.reg(data.rs1) < s.reg(data.rs2) { 1 } else { 0 }).next(),
        ),
        Instruction::ADDI { data } => Ok(
            s.set(data.rd, wrap32(s.reg(data.rs1) + sext12(data.imm.val as int))).next(),
        ),
        Instruction::XORI { data } => Ok(
            s.set(data.rd, s.reg(data.rs1) ^ imm12(data.imm.val)).next(),
        ),
        Instruction::ORI { data } => Ok(
            s.set(data.rd, s.reg(data.rs1) | imm12(data.imm.val)).next(),
        ),
        Instruction::ANDI { data } => Ok(
            s.set(data.rd, s.reg(data.rs1) & imm12(data.imm.val)).next(),
        ),
        Instruction::SLLI { data } => Ok(
            s.set(data.rd, s.reg(data.rs1) << (data.imm.val % 32)).next(),
        ),
        Instruction::SRLI { data } => Ok(
            s.set(data.rd, s.reg(data.rs1) >> (data.imm.val % 32)).next(),
        ),
        Instruction::SRAI { data } => Ok(
            s.set(data.rd, ((s.reg(data.rs1) as i32) >> (data.imm.val % 32)) as u32).next(),
        ),
        Instruction::SLTI { data } => Ok(
            s.set(
                data.rd,
                if signed32(s.reg(data.rs1)) < sext12(data.imm.val as int) { 1 } else { 0 },
            ).next(),
        ),
        Instruction::SLTUI { data } => Ok(
            s.set(data.rd, if s.reg(data.rs1) < imm12(data.imm.val) { 1 } else { 0 }).next(),
        ),
        Instruction::LB { data } => s.load(data.rd, s.address(data.rs1, data.imm.val), 1, true),
        Instruction::LH { data } => s.load(data.rd, s.address(data.rs1, data.imm.val), 2, true),
        Instruction::LW { data } => s.load(data.rd, s.address(data.rs1, data.imm.val), 4, true),
        Instruction::LBU { data } => s.load(data.rd, s.address(data.rs1, data.imm.val), 1, false),
        Instruction::LHU { data } => s.load(data.rd, s.address(data.rs1, data.imm.val), 2, false),
        Instruction::SB { data } => s.store(s.address(data.rs1, data.imm.val), s.reg(data.rs2), 1),
        Instruction::SH { data } => s.store(s.address(data.rs1, data.imm.val), s.reg(data.rs2), 2),
        Instruction::SW { data } => s.store(s.address(data.rs1, data.imm.val), s.reg(data.rs2), 4),
        Instruction::BEQ { data } => Ok(s.branch(s.reg(data.rs1) == s.reg(data.rs2), data.imm.val)),
        Instruction::BNE { data } => Ok(s.branch(s.reg(data.rs1) != s.reg(data.rs2), data.imm.val)),
        Instruction::BLT { data } => Ok(
            s.branch(signed32(s.reg(data.rs1)) < signed32(s.reg(data.rs2)), data.imm.val),
        ),
        Instruction::BGE { data } => Ok(
            s.branch(signed32(s.reg(data.rs1)) >= signed32(s.reg(data.rs2)), data.imm.val),
        ),
        Instruction::BLTU { data } => Ok(s.branch(s.reg(data.rs1) < s.reg(data.rs2), data.imm.val)),
        Instruction::BGEU { data } => Ok(
            s.branch(s.reg(data.rs1) >= s.reg(data.rs2), data.imm.val),
        ),
        Instruction::JAL { data } => Ok(
            s.set(data.rd, wrap32(s.pc + 4)).jump(s.pc + sext20(data.imm.val as int) * 2),
        ),
        Instruction::JALR { data } => Ok(
            s.set(data.rd, wrap32(s.pc + 4)).jump(
                (wrap32(s.reg(data.rs1) + sext12(data.imm.val as int)) & 0xFFFF_FFFE) as int,
            ),
        ),
        Instruction::LUI { data } => Ok(s.set(data.rd, wrap32(data.imm.val * 0x1000)).next()),
        Instruction::AUIPC { data } => Ok(
            s.set(data.rd, wrap32(s.pc + data.imm.val * 0x1000)).next(),
        ),
        Instruction::ECALL { .. } => Err(Fault::UnimplementedOperation),
        Instruction::EBREAK { .. } => Err(Fault::UnimplementedOperation),
    }
}

/// The state after `inst` and what `apply` reports: a fault leaves the state
/// as it was.
pub open spec fn apply_spec(s: MachineView, inst: Instruction) -> (MachineView, Result<(), Fault>) {
    match step(s, inst) {
        Ok(t) => (t, Ok(())),
        Err(f) => (s, Err(f)),
    }
}

/// The program counter holds a 32-bit address.
pub open spec fn pc_ok(pc: int) -> bool {
    0 <= pc < address_space()
}

/// The four bytes at the program counter can be fetched.
pub open spec fn fetchable(s: MachineView) -> bool {
    in_bounds(s.mem, s.pc, 4) && s.pc + 4 <= address_space()
}

/// The state after one fetch, decode and execute, and what `tick` reports.
pub open spec fn tick_spec(s: MachineView) -> (MachineView, Result<(), Fault>) {
    if !fetchable(s) {
        (s, Err(Fault::MemoryOutOfBounds))
    } else {
        apply_spec(s, decode(load_be(s.mem, s.pc, 4)))
    }
}

/// The state after `k` ticks from `s`, faults included.
pub open spec fn run(s: MachineView, k: nat) -> MachineView
    decreases k,
{
    if k == 0 {
        s
    } else {
        tick_spec(run(s, (k - 1) as nat)).0
    }
}

/// `mem` with `bytes` copied over it from `offset` on.
pub open spec fn overwrite(mem: Seq<u8>, bytes: Seq<u8>, offset: int) -> Seq<u8> {
    Seq::new(
        mem.len(),
        |i: int|
            if offset <= i < offset + bytes.len() {
                bytes[i - offset]
            } else {
                mem[i]
            },
    )
}

/// Register `x0` reads as zero after any write to it, and the write changes
/// nothing.
pub proof fn lemma_x0_hardwired(s: MachineView, v: u32)
    ensures
        s.set(0, v).reg(0) == 0,
        s.set(0, v) == s,
{
}

/// A register other than `x0` reads back the last value written to it, and
/// the write leaves every other register alone.
pub proof fn lemma_register_write(s: MachineView, r: u8, v: u32, q: u8)
    requires
        s.wf(),
        0 < r < 32,
        q < 32,
        q != r,
    ensures
        s.set(r, v).reg(r) == v,
        s.set(r, v).reg(q) == s.reg(q),
{
}

proof fn lemma_bytes_of_word(v: u32)
    by (bit_vector)
    ensures
        ((v / 0x100_0000) % 0x100) * 0x100_0000 + ((v / 0x1_0000) % 0x100) * 0x1_0000 + ((v / 0x100)
            % 0x100) * 0x100 + v % 0x100 == v,
{
}

/// Four bytes stored big-endian at `a` read back, big-endian, as the value
/// stored.
pub proof fn lemma_store_load_word(mem: Seq<u8>, a: int, v: u32)
    requires
        in_bounds(mem, a, 4),
    ensures
        load_be(store_be(mem, a, v, 4), a, 4) == v,
{
    lemma_bytes_of_word(v);
}

/// `SW` at an address and then `LW` from the same address, through any base
/// register and offset, stores the word most significant byte first and loads
/// it back, whatever the memory held before.
pub proof fn lemma_sw_then_lw(
    s: MachineView,
    rs1: u8,
    rs2: u8,
    imm: SmallImmediate,
    rd: u8,
    base: u8,
    off: SmallImmediate,
)
    requires
        s.wf(),
        rs1 < 32,
        rs2 < 32,
        base < 32,
        0 < rd < 32,
        imm.wf(),
        off.wf(),
        in_bounds(s.mem, s.address(rs1, imm.val), 4),
        s.address(base, off.val) == s.address(rs1, imm.val),
    ensures
        ({
            let a = s.address(rs1, imm.val);
            let v = s.reg(rs2);
            let (s1, r1) = apply_spec(s, Instruction::SW { data: S { imm, rs1, rs2 } });
            let (s2, r2) = apply_spec(s1, Instruction::LW { data: I { rd, rs1: base, imm: off } });
            &&& r1 is Ok
            &&& r2 is Ok
            &&& s1.mem[a] == byte_of(v, 3)
            &&& s1.mem[a + 1] == byte_of(v, 2)
            &&& s1.mem[a + 2] == byte_of(v, 1)
            &&& s1.mem[a + 3] == byte_of(v, 0)
            &&& s2.reg(rd) == v
            &&& s2.mem == s1.mem
            &&& s2.pc == s.pc + 8
        }),
{
    lemma_store_load_word(s.mem, s.address(rs1, imm.val), s.reg(rs2));
}

/// Whether the branch `inst` is taken in state `s`: equality for `BEQ` and
/// `BNE`, signed order for `BLT` and `BGE`, unsigned order for `BLTU` and `BGEU`.
pub open spec fn branch_taken(s: MachineView, inst: Instruction) -> bool {
    match inst {
        Instruction::BEQ { data } => s.reg(data.rs1) == s.reg(data.rs2),
        Instruction::BNE { data } => s.reg(data.rs1) != s.reg(data.rs2),
        Instruction::BLT { data } => signed32(s.reg(data.rs1)) < signed32(s.reg(data.rs2)),
        Instruction::BGE { data } => signed32(s.reg(data.rs1)) >= signed32(s.reg(data.rs2)),
        Instruction::BLTU { data } => s.reg(data.rs1) < s.reg(data.rs2),
        Instruction::BGEU { data } => s.reg(data.rs1) >= s.reg(data.rs2),
        _ => false,
    }
}

/// The immediate of a branch.
pub open spec fn branch_imm(inst: Instruction) -> u32 {
    match inst {
        Instruction::BEQ { data } => data.imm.val,
        Instruction::BNE { data } => data.imm.val,
        Instruction::BLT { data } => data.imm.val,
        Instruction::BGE { data } => data.imm.val,
        Instruction::BLTU { data } => data.imm.val,
        Instruction::BGEU { data } => data.imm.val,
        _ => 0,
    }
}

/// A branch moves the program counter by twice its sign-extended immediate
/// when taken and by 4 when not, never faults, and changes nothing else.
pub proof fn lemma_branch_delta(s: MachineView, inst: Instruction)
    requires
        inst is BEQ || inst is BNE || inst is BLT || inst is BGE || inst is BLTU || inst is BGEU,
    ensures
        apply_spec(s, inst) == (s.jump(
            s.pc + if branch_taken(s, inst) {
                sext12(branch_imm(inst) as int) * 2
            } else {
                4
            },
        ), Ok::<(), Fault>(())),
{
}

/// The base register, offset and width of a load or store.
pub open spec fn access_of(inst: Instruction) -> (u8, u32, int) {
    match inst {
        Instruction::LB { data } => (data.rs1, data.imm.val, 1),
        Instruction::LBU { data } => (data.rs1, data.imm.val, 1),
        Instruction::LH { data } => (data.rs1, data.imm.val, 2),
        Instruction::LHU { data } => (data.rs1, data.imm.val, 2),
        Instruction::LW { data } => (data.rs1, data.imm.val, 4),
        Instruction::SB { data } => (data.rs1, data.imm.val, 1),
        Instruction::SH { data } => (data.rs1, data.imm.val, 2),
        Instruction::SW { data } => (data.rs1, data.imm.val, 4),
        _ => (0, 0, 0),
    }
}

/// A load or store that reaches a byte at or beyond the end of memory faults
/// with `MemoryOutOfBounds` before it changes anything.
pub proof fn lemma_access_out_of_bounds(s: MachineView, inst: Instruction)
    requires
        inst.is_memory_op(),
        ({
            let (rs1, imm, width) = access_of(inst);
            !in_bounds(s.mem, s.address(rs1, imm), width)
        }),
    ensures
        apply_spec(s, inst) == (s, Err::<(), Fault>(Fault::MemoryOutOfBounds)),
{
}

/// The word `ADDI x1, x1, 1`.
pub open spec fn addi_x1_one() -> u32 {
    0x0010_8093
}

/// Memory whose first `slots` words all hold `ADDI x1, x1, 1`.
pub open spec fn accumulator_program(mem: Seq<u8>, slots: nat) -> bool {
    &&& 4 * slots <= mem.len()
    &&& 4 * slots <= address_space()
    &&& forall|i: int| 0 <= i < slots ==> #[trigger] load_be(mem, 4 * i, 4) == addi_x1_one()
}

proof fn lemma_decode_addi_x1_one()
    ensures
        decode(addi_x1_one()) == (Instruction::ADDI {
            data: I { rd: 1, rs1: 1, imm: SmallImmediate { val: 1 } },
        }),
{
}

proof fn lemma_tick_addi_x1_one(m: MachineView)
    requires
        m.wf(),
        fetchable(m),
        load_be(m.mem, m.pc, 4) == addi_x1_one(),
        m.pc + 4 <= address_space(),
        m.reg(1) < u32::MAX,
    ensures
        tick_spec(m).0 == (MachineView {
            regs: m.regs.update(0, (m.reg(1) + 1) as u32),
            pc: m.pc + 4,
            mem: m.mem,
        }),
{
    lemma_decode_addi_x1_one();
    sext12_small(1);
}

proof fn sext12_small(v: int)
    requires
        0 <= v < 0x800,
    ensures
        sext12(v) == v,
{
}

#[verifier::spinoff_prover]
proof fn lemma_accumulator_steps(s: MachineView, slots: nat, k: nat)
    requires
        s.wf(),
        s.pc == 0,
        s.reg(1) == 0,
        accumulator_program(s.mem, slots),
        k <= slots,
    ensures
        run(s, k) == (MachineView {
            regs: s.regs.update(0, k as u32),
            pc: 4 * k as int,
            mem: s.mem,
        }),
    decreases k,
{
    if k == 0 {
        assert(s.regs.update(0, 0u32) =~= s.regs);
    } else {
        let j = (k - 1) as nat;
        lemma_accumulator_steps(s, slots, j);
        let prev = run(s, j);
        assert(load_be(s.mem, 4 * j as int, 4) == addi_x1_one());
        lemma_tick_addi_x1_one(prev);
        assert(prev.regs.update(0, k as u32) =~= s.regs.update(0, k as u32));
    }
}

/// From `pc` 0 with `x1` zero, over memory whose first `slots` words are
/// `ADDI x1, x1, 1`, `x1` holds `k` after `k` ticks, for every `k` up to `slots`.
pub proof fn lemma_accumulator(s: MachineView, slots: nat, k: nat)
    requires
        s.wf(),
        s.pc == 0,
        s.reg(1) == 0,
        accumulator_program(s.mem, slots),
        k <= slots,
    ensures
        run(s, k).reg(1) == k,
        run(s, k).pc == 4 * k,
        k < slots ==> tick_spec(run(s, k)).1 == Ok::<(), Fault>(()),
{
    lemma_accumulator_steps(s, slots, k);
    if k < slots {
        assert(load_be(s.mem, 4 * k as int, 4) == addi_x1_one());
        lemma_decode_addi_x1_one();
    }
}

} // verus!
