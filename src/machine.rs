//! The executable machine: register file, program counter and memory, and
//! the execution of decoded instructions on them.

use vstd::prelude::*;

use crate::immediate::{sext12, transmute_to_signed, transmute_to_unsigned, SmallImmediate};
use crate::instruction::{decode, interpret_bytes, Instruction};
use crate::memory::Memory;
use crate::model::{
    apply_spec, fetchable, imm12, in_bounds, load_be, overwrite, pc_ok, step, store_be, tick_spec,
    wrap32, Fault, MachineView,
};

verus! {

/// Register file, program counter and byte-addressed memory of one hart.
pub struct ArchState {
    regs: [u32; 31],
    pub pc: i64,
    mem: Memory,
}

impl View for ArchState {
    type V = MachineView;

    closed spec fn view(&self) -> MachineView {
        MachineView { regs: self.regs@, pc: self.pc as int, mem: self.mem@ }
    }
}

impl ArchState {
    /// A machine with zeroed registers, `pc` at 0 and zeroed memory spanning
    /// the whole 32-bit address space, or as much of it as the host can index.
    pub fn new() -> (r: Self)
        ensures
            r@.mem.len() == 0x1_0000_0000
                || (usize::MAX < 0x1_0000_0000 && r@.mem.len() == usize::MAX),
            forall|i: int| 0 <= i < r@.mem.len() ==> r@.mem[i] == 0,
            r@.regs == Seq::new(31, |i: int| 0u32),
            r@.pc == 0,
    {
        let cap = match (u32::MAX as usize).checked_add(1) {
            Some(n) => n,
            None => usize::MAX,
        };
        Self::with_mem(cap)
    }

    /// A machine with zeroed registers, `pc` at 0 and `cap` zeroed bytes of memory.
    pub fn with_mem(cap: usize) -> (r: Self)
        ensures
            r@.mem.len() == cap,
            forall|i: int| 0 <= i < r@.mem.len() ==> r@.mem[i] == 0,
            r@.regs == Seq::new(31, |i: int| 0u32),
            r@.pc == 0,
    {
        let r = Self { regs: [0; 31], pc: 0, mem: Memory::new(cap) };
        assert(r.regs@ =~= Seq::new(31, |i: int| 0u32));
        r
    }

    /// The value of register `reg`; `x0` always reads as zero.
    pub fn get_register(&self, reg: usize) -> (r: u32)
        requires
            reg < 32,
        ensures
            r == self@.reg(reg as u8),
    {
        if reg == 0 {
            return 0;
        }
        self.regs[reg - 1]
    }

    /// The program counter.
    pub fn pc(&self) -> (r: i64)
        ensures
            r == self@.pc,
    {
        self.pc
    }

    /// Moves the program counter to `pc`.
    pub fn set_pc(&mut self, pc: i64)
        ensures
            final(self)@ == old(self)@.jump(pc as int),
    {
        self.pc = pc;
    }

    /// The number of bytes of memory.
    pub fn mem_len(&self) -> (n: usize)
        ensures
            n == self@.mem.len(),
    {
        self.mem.len()
    }

    /// The byte of memory at `addr`.
    pub fn read_byte(&self, addr: usize) -> (b: u8)
        requires
            addr < self@.mem.len(),
        ensures
            b == self@.mem[addr as int],
    {
        self.mem.get(addr)
    }

    /// Writes `b` to memory at `addr`; registers and `pc` stay.
    pub fn write_byte(&mut self, addr: usize, b: u8)
        requires
            addr < old(self)@.mem.len(),
        ensures
            final(self)@ == old(self)@.with_mem(old(self)@.mem.update(addr as int, b)),
    {
        self.mem.set(addr, b);
    }

    /// The `n` bytes of memory from `start` on, for inspection.
    pub fn memory_range(&self, start: usize, n: usize) -> (r: Vec<u8>)
        requires
            start + n <= self@.mem.len(),
        ensures
            r@ == self@.mem.subrange(start as int, start + n),
    {
        self.mem.range(start, n)
    }

    /// Writes `val` to register `index`; a write to `x0` is discarded.
    pub fn set_register(&mut self, index: usize, val: u32)
        requires
            index < 32,
        ensures
            final(self)@ == old(self)@.set(index as u8, val),
    {
        if index == 0 {
            return;
        }
        self.regs[index - 1] = val;
        assert(self@.regs =~= old(self)@.regs.update(index - 1, val));
    }

    /// Copies `program` into memory from `offset` on; registers and `pc` stay.
    pub fn load(&mut self, program: Vec<u8>, offset: usize)
        requires
            offset + program.len() <= old(self)@.mem.len(),
        ensures
            final(self)@ == old(self)@.with_mem(overwrite(old(self)@.mem, program@, offset as int)),
    {
        let n = program.len();
        let mut i: usize = 0;
        while i < n
            invariant
                i <= n,
                n == program.len(),
                offset + n <= self@.mem.len(),
                self@.regs == old(self)@.regs,
                self@.pc == old(self)@.pc,
                self@.mem.len() == old(self)@.mem.len(),
                forall|k: int|
                    #![trigger self@.mem[k]]
                    0 <= k < self@.mem.len() ==> self@.mem[k] == if offset <= k < offset + i {
                        program@[k - offset]
                    } else {
                        old(self)@.mem[k]
                    },
            decreases n - i,
        {
            proof {
                self.mem.lemma_len_fits();
            }
            self.mem.set(offset + i, program[i]);
            i = i + 1;
        }
        assert(self@.mem =~= overwrite(old(self)@.mem, program@, offset as int));
    }
}

/// What an executing function leaves behind: on success the state that `res`
/// gives, on a fault the state it started from and that fault.
spec fn outcome(
    before: MachineView,
    after: MachineView,
    r: Result<(), Fault>,
    res: Result<MachineView, Fault>,
) -> bool {
    match res {
        Ok(t) => after == t && r == Ok::<(), Fault>(()),
        Err(f) => after == before && r == Err::<(), Fault>(f),
    }
}

proof fn lemma_wrap32(x: int)
    requires
        -0x1_0000_0000 <= x < 0x2_0000_0000,
    ensures
        wrap32(x) == (if x < 0 {
            x + 0x1_0000_0000
        } else if x >= 0x1_0000_0000 {
            x - 0x1_0000_0000
        } else {
            x
        }),
{
}

/// The 32-bit pattern of a sign-extended 12-bit immediate.
fn imm_bits(imm: SmallImmediate) -> (r: u32)
    requires
        imm.wf(),
    ensures
        r == imm12(imm.val),
{
    let v = imm.sign_extend();
    proof {
        lemma_wrap32(v as int);
    }
    transmute_to_unsigned(v)
}

impl ArchState {
    fn reg(&self, r: u8) -> (v: u32)
        requires
            r < 32,
        ensures
            v == self@.reg(r),
    {
        self.get_register(r as usize)
    }

    /// Writes `val` to `rd` and moves to the next instruction.
    fn write_next(&mut self, rd: u8, val: u32)
        requires
            rd < 32,
            pc_ok(old(self)@.pc),
        ensures
            final(self)@ == old(self)@.set(rd, val).next(),
    {
        self.set_register(rd as usize, val);
        self.pc = self.pc + 4;
    }

    /// The address `rs1 + imm`, wrapping at 32 bits.
    fn address(&self, rs1: u8, imm: SmallImmediate) -> (a: u32)
        requires
            rs1 < 32,
            imm.wf(),
        ensures
            a == self@.address(rs1, imm.val),
    {
        let base = self.reg(rs1);
        let off = imm.sign_extend();
        proof {
            lemma_wrap32(base + off);
            lemma_wrap32(off as int);
        }
        base.wrapping_add(transmute_to_unsigned(off))
    }

    /// Whether `width` bytes at `a` exist.
    fn fits(&self, a: u32, width: usize) -> (b: bool)
        ensures
            b == in_bounds(self@.mem, a as int, width as int),
    {
        width <= self.mem.len() && (a as usize) <= self.mem.len() - width
    }

    /// The big-endian value of `width` bytes at `a`.
    fn read_be(&self, a: u32, width: usize) -> (v: u32)
        requires
            width == 1 || width == 2 || width == 4,
            in_bounds(self@.mem, a as int, width as int),
        ensures
            v == load_be(self@.mem, a as int, width as int),
    {
        let i = a as usize;
        proof {
            self.mem.lemma_len_fits();
        }
        if width == 1 {
            self.mem.get(i) as u32
        } else if width == 2 {
            (self.mem.get(i) as u32) * 0x100 + (self.mem.get(i + 1) as u32)
        } else {
            (self.mem.get(i) as u32) * 0x100_0000 + (self.mem.get(i + 1) as u32) * 0x1_0000
                + (self.mem.get(i + 2) as u32) * 0x100 + (self.mem.get(i + 3) as u32)
        }
    }

    fn exec_load(&mut self, rd: u8, a: u32, width: usize, signed: bool) -> (r: Result<(), Fault>)
        requires
            rd < 32,
            width == 1 || width == 2 || width == 4,
            pc_ok(old(self)@.pc),
        ensures
            outcome(
                old(self)@,
                final(self)@,
                r,
                old(self)@.load(rd, a as int, width as int, signed),
            ),
    {
        if !self.fits(a, width) {
            return Err(Fault::MemoryOutOfBounds);
        }
        let v = self.read_be(a, width);
        let x = if !signed || width == 4 {
            v
        } else if width == 1 {
            if v >= 0x80 {
                proof {
                    lemma_wrap32(v - 0x100);
                }
                v + 0xFFFF_FF00
            } else {
                v
            }
        } else {
            if v >= 0x8000 {
                proof {
                    lemma_wrap32(v - 0x1_0000);
                }
                v + 0xFFFF_0000
            } else {
                v
            }
        };
        self.write_next(rd, x);
        Ok(())
    }

    fn exec_store(&mut self, a: u32, v: u32, width: usize) -> (r: Result<(), Fault>)
        requires
            width == 1 || width == 2 || width == 4,
            pc_ok(old(self)@.pc),
        ensures
            outcome(old(self)@, final(self)@, r, old(self)@.store(a as int, v, width as int)),
    {
        if !self.fits(a, width) {
            return Err(Fault::MemoryOutOfBounds);
        }
        let i = a as usize;
        proof {
            self.mem.lemma_len_fits();
        }
        if width == 1 {
            self.mem.set(i, (v % 0x100) as u8);
        } else if width == 2 {
            self.mem.set(i, ((v / 0x100) % 0x100) as u8);
            self.mem.set(i + 1, (v % 0x100) as u8);
        } else {
            self.mem.set(i, ((v / 0x100_0000) % 0x100) as u8);
            self.mem.set(i + 1, ((v / 0x1_0000) % 0x100) as u8);
            self.mem.set(i + 2, ((v / 0x100) % 0x100) as u8);
            self.mem.set(i + 3, (v % 0x100) as u8);
        }
        self.pc = self.pc + 4;
        assert(self@.mem =~= store_be(old(self)@.mem, a as int, v, width as int));
        Ok(())
    }

    fn take_branch(&mut self, taken: bool, imm: SmallImmediate)
        requires
            imm.wf(),
            pc_ok(old(self)@.pc),
        ensures
            final(self)@ == old(self)@.branch(taken, imm.val),
    {
        if taken {
            self.pc = self.pc + (imm.sign_extend() as i64) * 2;
        } else {
            self.pc = self.pc + 4;
        }
    }
}

impl ArchState {
    /// Executes one decoded instruction: its effect on registers or memory,
    /// then the program counter moves to the next instruction or to the branch
    /// or jump target. A fault leaves the state untouched.
    pub fn apply(&mut self, inst: &Instruction) -> (r: Result<(), Fault>)
        requires
            inst.wf(),
            pc_ok(old(self)@.pc),
        ensures
            (final(self)@, r) == apply_spec(old(self)@, *inst),
    {
        if inst.is_register_op() {
            self.exec_register_op(inst)
        } else if inst.is_immediate_op() {
            self.exec_immediate_op(inst)
        } else if inst.is_memory_op() {
            self.exec_memory_op(inst)
        } else if inst.is_control_op() {
            self.exec_control_op(inst)
        } else {
            Err(Fault::UnimplementedOperation)
        }
    }

    /// Register-register arithmetic, logic, shifts and comparisons.
    #[verifier::spinoff_prover]
    fn exec_register_op(&mut self, inst: &Instruction) -> (r: Result<(), Fault>)
        requires
            inst.wf(),
            pc_ok(old(self)@.pc),
            inst.is_register_op(),
        ensures
            r == Ok::<(), Fault>(()),
            step(old(self)@, *inst) == Ok::<MachineView, Fault>(final(self)@),
    {
        match *inst {
            Instruction::ADD { data } => {
                let v = self.reg(data.rs1).wrapping_add(self.reg(data.rs2));
                self.write_next(data.rd, v);
            },
            Instruction::SUB { data } => {
                let v = self.reg(data.rs1).wrapping_sub(self.reg(data.rs2));
                self.write_next(data.rd, v);
            },
            Instruction::XOR { data } => {
                let v = self.reg(data.rs1) ^ self.reg(data.rs2);
                self.write_next(data.rd, v);
            },
            Instruction::OR { data } => {
                let v = self.reg(data.rs1) | self.reg(data.rs2);
                self.write_next(data.rd, v);
            },
            Instruction::AND { data } => {
                let v = self.reg(data.rs1) & self.reg(data.rs2);
                self.write_next(data.rd, v);
            },
            Instruction::SLL { data } => {
                let v = self.reg(data.rs1) << (self.reg(data.rs2) % 32);
                self.write_next(data.rd, v);
            },
            Instruction::SRL { data } => {
                let v = self.reg(data.rs1) >> (self.reg(data.rs2) % 32);
                self.write_next(data.rd, v);
            },
            Instruction::SRA { data } => {
                let v = ((self.reg(data.rs1) as i32) >> (self.reg(data.rs2) % 32)) as u32;
                self.write_next(data.rd, v);
            },
            Instruction::SLT { data } => {
                let lt = transmute_to_signed(self.reg(data.rs1)) < transmute_to_signed(
                    self.reg(data.rs2),
                );
                self.write_next(data.rd, if lt { 1 } else { 0 });
            },
            Instruction::SLTU { data } => {
                let lt = self.reg(data.rs1) < self.reg(data.rs2);
                self.write_next(data.rd, if lt { 1 } else { 0 });
            },
            // excluded by the precondition
            _ => {},
        }
        Ok(())
    }

    /// Register-immediate arithmetic, logic, shifts and comparisons, and the
    /// upper-immediate operations.
    #[verifier::spinoff_prover]
    fn exec_immediate_op(&mut self, inst: &Instruction) -> (r: Result<(), Fault>)
        requires
            inst.wf(),
            pc_ok(old(self)@.pc),
            inst.is_immediate_op(),
        ensures
            r == Ok::<(), Fault>(()),
            step(old(self)@, *inst) == Ok::<MachineView, Fault>(final(self)@),
    {
        match *inst {
            Instruction::ADDI { data } => {
                let a = self.reg(data.rs1);
                let b = imm_bits(data.imm);
                proof {
                    lemma_wrap32(a + sext12(data.imm.val as int));
                    lemma_wrap32(sext12(data.imm.val as int));
                }
                self.write_next(data.rd, a.wrapping_add(b));
            },
            Instruction::XORI { data } => {
                let v = self.reg(data.rs1) ^ imm_bits(data.imm);
                self.write_next(data.rd, v);
            },
            Instruction::ORI { data } => {
                let v = self.reg(data.rs1) | imm_bits(data.imm);
                self.write_next(data.rd, v);
            },
            Instruction::ANDI { data } => {
                let v = self.reg(data.rs1) & imm_bits(data.imm);
                self.write_next(data.rd, v);
            },
            Instruction::SLLI { data } => {
                let v = self.reg(data.rs1) << (data.imm.val % 32);
                self.write_next(data.rd, v);
            },
            Instruction::SRLI { data } => {
                let v = self.reg(data.rs1) >> (data.imm.val % 32);
                self.write_next(data.rd, v);
            },
            Instruction::SRAI { data } => {
                let v = ((self.reg(data.rs1) as i32) >> (data.imm.val % 32)) as u32;
                self.write_next(data.rd, v);
            },
            Instruction::SLTI { data } => {
                let lt = transmute_to_signed(self.reg(data.rs1)) < data.imm.sign_extend();
                self.write_next(data.rd, if lt { 1 } else { 0 });
            },
            Instruction::SLTUI { data } => {
                let lt = self.reg(data.rs1) < imm_bits(data.imm);
                self.write_next(data.rd, if lt { 1 } else { 0 });
            },
            Instruction::LUI { data } => {
                proof {
                    lemma_wrap32(data.imm.val * 0x1000);
                }
                self.write_next(data.rd, data.imm.val * 0x1000);
            },
            Instruction::AUIPC { data } => {
                let pc = self.pc;
                proof {
                    lemma_wrap32(pc + data.imm.val * 0x1000);
                }
                let v = (pc as u32).wrapping_add(data.imm.val * 0x1000);
                self.write_next(data.rd, v);
            },
            // excluded by the precondition
            _ => {},
        }
        Ok(())
    }

    /// Loads and stores.
    #[verifier::spinoff_prover]
    fn exec_memory_op(&mut self, inst: &Instruction) -> (r: Result<(), Fault>)
        requires
            inst.wf(),
            pc_ok(old(self)@.pc),
            inst.is_memory_op(),
        ensures
            outcome(old(self)@, final(self)@, r, step(old(self)@, *inst)),
    {
        match *inst {
            Instruction::LB { data } => {
                let a = self.address(data.rs1, data.imm);
                return self.exec_load(data.rd, a, 1, true);
            },
            Instruction::LH { data } => {
                let a = self.address(data.rs1, data.imm);
                return self.exec_load(data.rd, a, 2, true);
            },
            Instruction::LW { data } => {
                let a = self.address(data.rs1, data.imm);
                return self.exec_load(data.rd, a, 4, true);
            },
            Instruction::LBU { data } => {
                let a = self.address(data.rs1, data.imm);
                return self.exec_load(data.rd, a, 1, false);
            },
            Instruction::LHU { data } => {
                let a = self.address(data.rs1, data.imm);
                return self.exec_load(data.rd, a, 2, false);
            },
            Instruction::SB { data } => {
                let a = self.address(data.rs1, data.imm);
                let v = self.reg(data.rs2);
                return self.exec_store(a, v, 1);
            },
            Instruction::SH { data } => {
                let a = self.address(data.rs1, data.imm);
                let v = self.reg(data.rs2);
                return self.exec_store(a, v, 2);
            },
            Instruction::SW { data } => {
                let a = self.address(data.rs1, data.imm);
                let v = self.reg(data.rs2);
                return self.exec_store(a, v, 4);
            },
            // excluded by the precondition
            _ => {},
        }
        Ok(())
    }

    /// Branches and jumps.
    #[verifier::spinoff_prover]
    fn exec_control_op(&mut self, inst: &Instruction) -> (r: Result<(), Fault>)
        requires
            inst.wf(),
            pc_ok(old(self)@.pc),
            inst.is_control_op(),
        ensures
            r == Ok::<(), Fault>(()),
            step(old(self)@, *inst) == Ok::<MachineView, Fault>(final(self)@),
    {
        match *inst {
            Instruction::BEQ { data } => {
                let taken = self.reg(data.rs1) == self.reg(data.rs2);
                self.take_branch(taken, data.imm);
            },
            Instruction::BNE { data } => {
                let taken = self.reg(data.rs1) != self.reg(data.rs2);
                self.take_branch(taken, data.imm);
            },
            Instruction::BLT { data } => {
                let taken = transmute_to_signed(self.reg(data.rs1)) < transmute_to_signed(
                    self.reg(data.rs2),
                );
                self.take_branch(taken, data.imm);
            },
            Instruction::BGE { data } => {
                let taken = transmute_to_signed(self.reg(data.rs1)) >= transmute_to_signed(
                    self.reg(data.rs2),
                );
                self.take_branch(taken, data.imm);
            },
            Instruction::BLTU { data } => {
                let taken = self.reg(data.rs1) < self.reg(data.rs2);
                self.take_branch(taken, data.imm);
            },
            Instruction::BGEU { data } => {
                let taken = self.reg(data.rs1) >= self.reg(data.rs2);
                self.take_branch(taken, data.imm);
            },
            Instruction::JAL { data } => {
                let pc = self.pc;
                proof {
                    lemma_wrap32(pc + 4);
                }
                let link = (pc as u32).wrapping_add(4);
                self.set_register(data.rd as usize, link);
                self.pc = pc + (data.imm.sign_extend() as i64) * 2;
            },
            Instruction::JALR { data } => {
                let pc = self.pc;
                proof {
                    lemma_wrap32(pc + 4);
                }
                let target = self.address(data.rs1, data.imm) & 0xFFFF_FFFE;
                let link = (pc as u32).wrapping_add(4);
                self.set_register(data.rd as usize, link);
                self.pc = target as i64;
            },
            // excluded by the precondition
            _ => {},
        }
        Ok(())
    }
}

impl ArchState {
    /// Fetches the four bytes at `pc` (most significant first), decodes them
    /// and executes the instruction.
    pub fn tick(&mut self) -> (r: Result<(), Fault>)
        ensures
            (final(self)@, r) == tick_spec(old(self)@),
    {
        let pc = self.pc;
        if pc < 0 || pc > 0xFFFF_FFFC || !self.fits(pc as u32, 4) {
            return Err(Fault::MemoryOutOfBounds);
        }
        let word = self.read_be(pc as u32, 4);
        let inst = interpret_bytes(word);
        self.apply(&inst)
    }

    /// The instruction at `pc`, or `None` where it cannot be fetched; the
    /// state is not changed.
    pub fn decode_at_pc(&self) -> (r: Option<Instruction>)
        ensures
            r == (if fetchable(self@) {
                Some(decode(load_be(self@.mem, self@.pc, 4)))
            } else {
                None
            }),
    {
        let pc = self.pc;
        if pc < 0 || pc > 0xFFFF_FFFC || !self.fits(pc as u32, 4) {
            return None;
        }
        Some(interpret_bytes(self.read_be(pc as u32, 4)))
    }
}

/// The view of every machine has its thirty-one backing registers.
pub proof fn lemma_view_wf(s: &ArchState)
    ensures
        s@.wf(),
{
}

} // verus!
