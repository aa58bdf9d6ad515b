use vstd::prelude::*;
use crate::decode::{
    decode_lxi, decode_mov, lemma_decode_mov_opcode, lxi_target, mov_opcode, mov_operands,
    Operand, RegisterPair,
};
use crate::pointer::{next_address, Pointer, MEMORY_SIZE};
use crate::register::{pair_address, Register};

verus! {

/// Cycles charged for every data move.
pub const MOV_CYCLES: u64 = 5;

/// Cycles added to a data move that reads or writes memory through H:L.
pub const MEMORY_ACCESS_CYCLES: u64 = 2;

/// Cycles charged for every 16-bit immediate load.
pub const LXI_CYCLES: u64 = 10;

/// The error of an instruction handler.
#[derive(Debug, Clone, Copy, PartialEq, Eq, Structural)]
pub enum ExecError {
    /// The opcode is not one of the handler's family; `pc` is where the
    /// program counter stood.
    UnimplementedOrInvalidOpcode { opcode: u8, pc: u16 },
}

/// The error for `opcode` met with the program counter at `pc`.
pub open spec fn invalid_opcode(opcode: u8, pc: u16) -> ExecError {
    ExecError::UnimplementedOrInvalidOpcode { opcode, pc }
}

/// The architectural state of the processor.
pub struct I8080 {
    pub a: Register,
    pub b: Register,
    pub c: Register,
    pub d: Register,
    pub e: Register,
    pub flags: Register,
    pub h: Register,
    pub l: Register,
    pub pc: Pointer,
    pub sp: Pointer,
    pub cycles: u64,
    pub mem: [u8; MEMORY_SIZE],
}

/// The processor state as plain values.
pub struct CpuState {
    pub a: u8,
    pub b: u8,
    pub c: u8,
    pub d: u8,
    pub e: u8,
    pub flags: u8,
    pub h: u8,
    pub l: u8,
    pub pc: u16,
    pub sp: u16,
    pub cycles: nat,
    pub mem: Seq<u8>,
}

/// Cycles charged for `MOV dst, src`.
pub open spec fn mov_cycles(dst: Operand, src: Operand) -> nat {
    if dst == Operand::M || src == Operand::M {
        (MOV_CYCLES + MEMORY_ACCESS_CYCLES) as nat
    } else {
        MOV_CYCLES as nat
    }
}

impl CpuState {
    /// The address held by the H:L pair.
    pub open spec fn hl(self) -> int {
        pair_address(self.h, self.l) as int
    }

    /// The value of an operand.
    pub open spec fn read(self, o: Operand) -> u8 {
        match o {
            Operand::B => self.b,
            Operand::C => self.c,
            Operand::D => self.d,
            Operand::E => self.e,
            Operand::H => self.h,
            Operand::L => self.l,
            Operand::M => self.mem[self.hl()],
            Operand::A => self.a,
        }
    }

    /// The state with operand `o` set to `v` and all else unchanged.
    pub open spec fn write(self, o: Operand, v: u8) -> CpuState {
        match o {
            Operand::B => CpuState { b: v, ..self },
            Operand::C => CpuState { c: v, ..self },
            Operand::D => CpuState { d: v, ..self },
            Operand::E => CpuState { e: v, ..self },
            Operand::H => CpuState { h: v, ..self },
            Operand::L => CpuState { l: v, ..self },
            Operand::M => CpuState { mem: self.mem.update(self.hl(), v), ..self },
            Operand::A => CpuState { a: v, ..self },
        }
    }

    /// The state after `MOV dst, src`.
    pub open spec fn after_mov(self, dst: Operand, src: Operand) -> CpuState {
        let moved = self.write(dst, self.read(src));
        CpuState { cycles: (self.cycles + mov_cycles(dst, src)) as nat, ..moved }
    }

    /// The state after loading `t` with the two bytes at PC, low byte first.
    pub open spec fn after_lxi(self, t: RegisterPair) -> CpuState {
        let low = self.mem[self.pc as int];
        let high = self.mem[next_address(self.pc) as int];
        let pc = next_address(next_address(self.pc));
        let cycles = self.cycles + LXI_CYCLES as nat;
        match t {
            RegisterPair::BC => CpuState { b: high, c: low, pc, cycles, ..self },
            RegisterPair::DE => CpuState { d: high, e: low, pc, cycles, ..self },
            RegisterPair::HL => CpuState { h: high, l: low, pc, cycles, ..self },
            RegisterPair::SP => CpuState { sp: pair_address(high, low), pc, cycles, ..self },
        }
    }
}

impl View for I8080 {
    type V = CpuState;

    open spec fn view(&self) -> CpuState {
        CpuState {
            a: self.a.0,
            b: self.b.0,
            c: self.c.0,
            d: self.d.0,
            e: self.e.0,
            flags: self.flags.0,
            h: self.h.0,
            l: self.l.0,
            pc: self.pc.0,
            sp: self.sp.0,
            cycles: self.cycles as nat,
            mem: self.mem@,
        }
    }
}

fn cycles_for_mov(dst: Operand, src: Operand) -> (r: u64)
    ensures
        r == mov_cycles(dst, src),
{
    if dst == Operand::M || src == Operand::M {
        MOV_CYCLES + MEMORY_ACCESS_CYCLES
    } else {
        MOV_CYCLES
    }
}

impl I8080 {
    /// A processor with every register, pointer and memory byte zero and no
    /// cycles counted.
    pub fn new() -> (r: Self)
        ensures
            r@.a == 0 && r@.b == 0 && r@.c == 0 && r@.d == 0 && r@.e == 0,
            r@.flags == 0 && r@.h == 0 && r@.l == 0,
            r@.pc == 0 && r@.sp == 0,
            r@.cycles == 0,
            r@.mem.len() == MEMORY_SIZE,
            forall|i: int| 0 <= i < MEMORY_SIZE ==> #[trigger] r@.mem[i] == 0,
    {
        I8080 {
            a: Register(0),
            b: Register(0),
            c: Register(0),
            d: Register(0),
            e: Register(0),
            flags: Register(0),
            h: Register(0),
            l: Register(0),
            pc: Pointer(0),
            sp: Pointer(0),
            cycles: 0,
            mem: [0u8; MEMORY_SIZE],
        }
    }

    /// The address held by the H:L pair.
    fn hl_pointer(&self) -> (r: Pointer)
        ensures
            r.addr() == self@.hl(),
            r.addr() < MEMORY_SIZE,
    {
        self.h.register_pair(&self.l)
    }

    /// Reads an operand of a data move.
    pub fn read_operand(&self, o: Operand) -> (r: u8)
        ensures
            r == self@.read(o),
    {
        match o {
            Operand::B => self.b.0,
            Operand::C => self.c.0,
            Operand::D => self.d.0,
            Operand::E => self.e.0,
            Operand::H => self.h.0,
            Operand::L => self.l.0,
            Operand::M => self.hl_pointer().load(&self.mem),
            Operand::A => self.a.0,
        }
    }

    /// Writes an operand of a data move.
    pub fn write_operand(&mut self, o: Operand, v: u8)
        ensures
            final(self)@ == old(self)@.write(o, v),
    {
        match o {
            Operand::B => self.b.0 = v,
            Operand::C => self.c.0 = v,
            Operand::D => self.d.0 = v,
            Operand::E => self.e.0 = v,
            Operand::H => self.h.0 = v,
            Operand::L => self.l.0 = v,
            Operand::M => {
                let p = self.hl_pointer();
                p.store(&mut self.mem, v);
            },
            Operand::A => self.a.0 = v,
        }
    }

    /// Executes a data move (`MOV`). An opcode outside that family is
    /// refused with nothing changed.
    pub fn mov(&mut self, opcode: u8) -> (r: Result<(), ExecError>)
        requires
            old(self).cycles <= u64::MAX - (MOV_CYCLES + MEMORY_ACCESS_CYCLES),
        ensures
            match mov_operands(opcode) {
                Some((dst, src)) => r is Ok && final(self)@ == old(self)@.after_mov(dst, src),
                None => r == Err::<(), ExecError>(invalid_opcode(opcode, old(self).pc.0))
                    && final(self)@ == old(self)@,
            },
    {
        match decode_mov(opcode) {
            Some((dst, src)) => {
                let v = self.read_operand(src);
                self.write_operand(dst, v);
                self.cycles = self.cycles + cycles_for_mov(dst, src);
                Ok(())
            },
            None => Err(ExecError::UnimplementedOrInvalidOpcode { opcode, pc: self.pc.0 }),
        }
    }

    /// Executes a 16-bit immediate load (`LXI`): the byte at PC is the low
    /// byte, the next one the high byte, and PC moves past both. An opcode
    /// outside that family is refused with nothing changed.
    pub fn lxi(&mut self, opcode: u8) -> (r: Result<(), ExecError>)
        requires
            old(self).cycles <= u64::MAX - LXI_CYCLES,
        ensures
            match lxi_target(opcode) {
                Some(t) => r is Ok && final(self)@ == old(self)@.after_lxi(t),
                None => r == Err::<(), ExecError>(invalid_opcode(opcode, old(self).pc.0))
                    && final(self)@ == old(self)@,
            },
    {
        match decode_lxi(opcode) {
            Some(t) => {
                let low = self.pc.load(&self.mem);
                self.pc.inc();
                let high = self.pc.load(&self.mem);
                self.pc.inc();
                match t {
                    RegisterPair::BC => {
                        self.b.0 = high;
                        self.c.0 = low;
                    },
                    RegisterPair::DE => {
                        self.d.0 = high;
                        self.e.0 = low;
                    },
                    RegisterPair::HL => {
                        self.h.0 = high;
                        self.l.0 = low;
                    },
                    RegisterPair::SP => {
                        self.sp = Register(high).register_pair(&Register(low));
                    },
                }
                self.cycles = self.cycles + LXI_CYCLES;
                Ok(())
            },
            None => Err(ExecError::UnimplementedOrInvalidOpcode { opcode, pc: self.pc.0 }),
        }
    }

    /// Executes one already-fetched opcode of either implemented family:
    /// data moves first, then 16-bit immediate loads. Any other opcode is
    /// refused with nothing changed.
    pub fn execute(&mut self, opcode: u8) -> (r: Result<(), ExecError>)
        requires
            old(self).cycles <= u64::MAX - LXI_CYCLES,
        ensures
            match (mov_operands(opcode), lxi_target(opcode)) {
                (Some((dst, src)), _) => r is Ok && final(self)@ == old(self)@.after_mov(dst, src),
                (None, Some(t)) => r is Ok && final(self)@ == old(self)@.after_lxi(t),
                (None, None) => r == Err::<(), ExecError>(invalid_opcode(opcode, old(self).pc.0))
                    && final(self)@ == old(self)@,
            },
    {
        match self.mov(opcode) {
            Ok(()) => Ok(()),
            Err(_) => self.lxi(opcode),
        }
    }
}

/// A register-to-register move `MOV dst, src` decodes from its opcode, leaves
/// `dst` equal to what `src` held, leaves `src` and memory as they were, and
/// charges the base cost alone.
pub proof fn lemma_mov_register_to_register(s: CpuState, dst: Operand, src: Operand)
    requires
        dst != Operand::M,
        src != Operand::M,
    ensures
        mov_operands(mov_opcode(dst, src)) == Some((dst, src)),
        s.after_mov(dst, src).read(dst) == s.read(src),
        s.after_mov(dst, src).read(src) == s.read(src),
        s.after_mov(dst, src).mem == s.mem,
        s.after_mov(dst, src).cycles == s.cycles + MOV_CYCLES,
{
    lemma_decode_mov_opcode(dst, src);
}

/// A move of a register into memory `MOV M, src` decodes from its opcode,
/// leaves the byte at the H:L address equal to what `src` held, and charges
/// the base cost plus the memory surcharge.
pub proof fn lemma_mov_to_memory(s: CpuState, src: Operand)
    requires
        src != Operand::M,
        s.mem.len() == MEMORY_SIZE,
    ensures
        mov_operands(mov_opcode(Operand::M, src)) == Some((Operand::M, src)),
        s.after_mov(Operand::M, src).mem[s.hl()] == s.read(src),
        s.after_mov(Operand::M, src).mem.len() == MEMORY_SIZE,
        s.after_mov(Operand::M, src).cycles == s.cycles + MOV_CYCLES + MEMORY_ACCESS_CYCLES,
{
    lemma_decode_mov_opcode(Operand::M, src);
    assert(s.hl() < MEMORY_SIZE);
}

/// A move of memory into a register `MOV dst, M` decodes from its opcode,
/// leaves `dst` equal to the byte at the H:L address, and charges the base
/// cost plus the memory surcharge.
pub proof fn lemma_mov_from_memory(s: CpuState, dst: Operand)
    requires
        dst != Operand::M,
    ensures
        mov_operands(mov_opcode(dst, Operand::M)) == Some((dst, Operand::M)),
        s.after_mov(dst, Operand::M).read(dst) == s.mem[s.hl()],
        s.after_mov(dst, Operand::M).mem == s.mem,
        s.after_mov(dst, Operand::M).cycles == s.cycles + MOV_CYCLES + MEMORY_ACCESS_CYCLES,
{
    lemma_decode_mov_opcode(dst, Operand::M);
}

} // verus!
