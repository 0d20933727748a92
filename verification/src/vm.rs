//! The machine: its registers, its memory, its control store, and the cycle
//! that the control unit runs on them.

use vstd::prelude::*;
use crate::alu::{
    flag, lemma_status_after_alu, status_after_alu, test_flag, update_flags, with_flag, CARRY,
    NEGATIVE, OVERFLOW, RESERVED, ZERO,
};
pub use crate::micro_code::{AluOp, Branch, MemOp, MicroCode, Register, RegisterOrSwitch, ShiftOp};

verus! {

/// Why a cycle could not be completed.
#[derive(Debug, Copy, Clone, PartialEq, Eq, Structural)]
pub enum Fault {
    /// The control-store address names no microinstruction.
    IndexFault,
    /// A memory access was asked for and MAR names no byte of the memory.
    MemoryFault,
}

/// The control-store address `i` modulo 65536.
pub open spec fn wrap16(i: int) -> u16 {
    (i % 65536) as u16
}

impl Branch {
    /// The flag that a conditional jump goes by; `None` for the branches that
    /// look at no flag.
    pub open spec fn condition(self) -> Option<u8> {
        match self {
            Branch::JM => Some(NEGATIVE),
            Branch::JZ => Some(ZERO),
            Branch::JC => Some(CARRY),
            Branch::JV => Some(OVERFLOW),
            Branch::Plus1 | Branch::J | Branch::JI => None,
        }
    }

    /// The control-store address of the next cycle, from the address `at` of
    /// this one, the instruction's target `addr`, and the status register and
    /// IR as the cycle leaves them. Addresses wrap at sixteen bits; `JI` adds
    /// IR to the address of this cycle and takes no notice of `addr`.
    pub open spec fn next(self, at: u16, addr: u16, status: u8, ir: u8) -> u16 {
        match self {
            Branch::Plus1 => wrap16(at + 1),
            Branch::J => addr,
            Branch::JI => wrap16(at + ir),
            Branch::JM | Branch::JZ | Branch::JC | Branch::JV => if flag(
                status,
                self.condition()->0,
            ) {
                addr
            } else {
                wrap16(at + 1)
            },
        }
    }

    /// Compute the control-store address of the next cycle.
    pub fn resolve(self, at: u16, addr: u16, status: u8, ir: u8) -> (next: u16)
        ensures
            next == self.next(at, addr, status, ir),
    {
        match self {
            Branch::Plus1 => at.wrapping_add(1),
            Branch::J => addr,
            Branch::JM => if test_flag(status, NEGATIVE) { addr } else { at.wrapping_add(1) },
            Branch::JZ => if test_flag(status, ZERO) { addr } else { at.wrapping_add(1) },
            Branch::JC => if test_flag(status, CARRY) { addr } else { at.wrapping_add(1) },
            Branch::JV => if test_flag(status, OVERFLOW) { addr } else { at.wrapping_add(1) },
            Branch::JI => at.wrapping_add(ir as u16),
        }
    }
}

/// A conditional jump whose flag is clear goes where `Plus1` goes, and one
/// whose flag is set goes where `J` goes.
pub proof fn lemma_conditional_jump(branch: Branch, at: u16, addr: u16, status: u8, ir: u8)
    requires
        branch.condition() is Some,
    ensures
        branch.next(at, addr, status, ir) == if flag(status, branch.condition()->0) {
            Branch::J.next(at, addr, status, ir)
        } else {
            Branch::Plus1.next(at, addr, status, ir)
        },
{
}

/// The machine as a mathematical value: what a `MicroArch` holds, with its
/// vectors as sequences.
pub struct MachineState {
    pub micro_program_counter: u16,
    pub micro_program: Seq<MicroCode>,
    pub memory: Seq<u8>,
    pub gpr: Seq<u8>,
    pub pc: u8,
    pub ir: u8,
    pub mdr: u8,
    pub mar: u8,
    pub str: u8,
    pub sw1: u8,
    pub sw2: u8,
    pub hlt: bool,
}

impl MachineState {
    /// There are seven general registers.
    pub open spec fn wf(self) -> bool {
        self.gpr.len() == 7
    }

    /// The value that the bus source `from` puts on its bus.
    pub open spec fn load(self, from: RegisterOrSwitch) -> u8 {
        match from {
            RegisterOrSwitch::Sw1 => self.sw1,
            RegisterOrSwitch::Sw2 => self.sw2,
            RegisterOrSwitch::Register(register) => match register {
                Register::Nop => 0,
                Register::R0 => self.gpr[0],
                Register::R1 => self.gpr[1],
                Register::R2 => self.gpr[2],
                Register::R3 => self.gpr[3],
                Register::R4 => self.gpr[4],
                Register::R5 => self.gpr[5],
                Register::R6 => self.gpr[6],
                Register::Pc => self.pc,
                Register::Ir => self.ir,
                Register::Mdr => self.mdr,
                Register::Mar => self.mar,
                Register::Str => self.str,
            },
        }
    }

    /// The state with `value` written to the register `to`; the state itself
    /// where `to` is `Nop`.
    pub open spec fn store(self, to: Register, value: u8) -> MachineState {
        match to {
            Register::Nop => self,
            Register::R0 => MachineState { gpr: self.gpr.update(0, value), ..self },
            Register::R1 => MachineState { gpr: self.gpr.update(1, value), ..self },
            Register::R2 => MachineState { gpr: self.gpr.update(2, value), ..self },
            Register::R3 => MachineState { gpr: self.gpr.update(3, value), ..self },
            Register::R4 => MachineState { gpr: self.gpr.update(4, value), ..self },
            Register::R5 => MachineState { gpr: self.gpr.update(5, value), ..self },
            Register::R6 => MachineState { gpr: self.gpr.update(6, value), ..self },
            Register::Pc => MachineState { pc: value, ..self },
            Register::Ir => MachineState { ir: value, ..self },
            Register::Mdr => MachineState { mdr: value, ..self },
            Register::Mar => MachineState { mar: value, ..self },
            Register::Str => MachineState { str: value, ..self },
        }
    }

    /// The microinstruction at the control-store address, if there is one.
    pub open spec fn fetch(self) -> Option<MicroCode> {
        if (self.micro_program_counter as int) < self.micro_program.len() {
            Some(self.micro_program[self.micro_program_counter as int])
        } else {
            None
        }
    }

    /// The state after the data path of `mc` has run: the flags are
    /// recomputed if `mc` asks for it, the shifter has left its carry, and the
    /// shifter's output is written to the destination register. The carry
    /// that the rotations take in is the one that the cycle began with; a
    /// destination `Str` replaces the whole status register, flags included.
    pub open spec fn after_data_path(self, mc: MicroCode) -> MachineState {
        let x = self.load(mc.x_bus);
        let y = self.load(mc.y_bus);
        let alu_out = mc.alu.result(x, y);
        let status = if mc.fl {
            status_after_alu(self.str, x, y, alu_out)
        } else {
            self.str
        };
        let z = mc.sft.result(alu_out, mc.sin, flag(self.str, CARRY));
        MachineState { str: mc.sft.status(status, alu_out), ..self }.store(mc.z_bus, z)
    }

    /// Whether the memory access `op` cannot be made: MAR names no byte.
    pub open spec fn memory_fault(self, op: MemOp) -> bool {
        op != MemOp::Nop && self.mar as int >= self.memory.len()
    }

    /// The state after the memory access `op`, where it can be made.
    pub open spec fn after_memory(self, op: MemOp) -> MachineState {
        match op {
            MemOp::Nop => self,
            MemOp::R => MachineState { mdr: self.memory[self.mar as int], ..self },
            MemOp::W => MachineState {
                memory: self.memory.update(self.mar as int, self.mdr),
                ..self
            },
        }
    }

    /// The state after one cycle.
    ///
    /// A halted machine stays as it is. So does one whose control-store
    /// address names no microinstruction. Otherwise the data path runs; if
    /// the memory access then cannot be made the cycle ends there, with the
    /// control-store address and the halt latch untouched; else the memory
    /// access is made, the control-store address moves on, and the halt latch
    /// takes the instruction's halt bit.
    pub open spec fn step(self) -> MachineState {
        if self.hlt {
            self
        } else {
            match self.fetch() {
                None => self,
                Some(mc) => {
                    let m1 = self.after_data_path(mc);
                    if m1.memory_fault(mc.mem) {
                        m1
                    } else {
                        let m2 = m1.after_memory(mc.mem);
                        MachineState {
                            micro_program_counter: mc.branch.next(
                                m2.micro_program_counter,
                                mc.addr,
                                m2.str,
                                m2.ir,
                            ),
                            hlt: mc.hlt,
                            ..m2
                        }
                    }
                },
            }
        }
    }

    /// What one cycle reports: the halt latch after it, or the fault that
    /// ended it.
    pub open spec fn step_result(self) -> Result<bool, Fault> {
        if self.hlt {
            Ok(true)
        } else {
            match self.fetch() {
                None => Err(Fault::IndexFault),
                Some(mc) => if self.after_data_path(mc).memory_fault(mc.mem) {
                    Err(Fault::MemoryFault)
                } else {
                    Ok(mc.hlt)
                },
            }
        }
    }

    /// The state after `cycles` cycles, one after the other.
    pub open spec fn steps(self, cycles: nat) -> MachineState
        decreases cycles,
    {
        if cycles == 0 {
            self
        } else {
            self.step().steps((cycles - 1) as nat)
        }
    }

    /// The state after running until the machine halts, a cycle faults, or
    /// `cycles` cycles have been run.
    pub open spec fn run(self, cycles: nat) -> MachineState
        decreases cycles,
    {
        if self.hlt || cycles == 0 {
            self
        } else if self.step_result() is Err {
            self.step()
        } else {
            self.step().run((cycles - 1) as nat)
        }
    }

    /// What such a run reports: `Ok(true)` if the machine has halted,
    /// `Ok(false)` if the cycles ran out first, or the fault that ended it.
    pub open spec fn run_result(self, cycles: nat) -> Result<bool, Fault>
        decreases cycles,
    {
        if self.hlt {
            Ok(true)
        } else if cycles == 0 {
            Ok(false)
        } else {
            match self.step_result() {
                Err(fault) => Err(fault),
                Ok(_) => self.step().run_result((cycles - 1) as nat),
            }
        }
    }
}

/// A cycle on a halted machine changes nothing and reports the halt, and so
/// does a run of any length.
pub proof fn lemma_halted_stays(m: MachineState, cycles: nat)
    requires
        m.hlt,
    ensures
        m.step() == m,
        m.step_result() == Ok::<bool, Fault>(true),
        m.run(cycles) == m,
        m.run_result(cycles) == Ok::<bool, Fault>(true),
{
}

/// No cycle changes the control store, the switches, the number of general
/// registers or the size of the memory. A cycle that faults leaves the
/// memory, the control-store address and the halt latch as they were, and one
/// that finds no microinstruction leaves everything.
pub proof fn lemma_step_keeps(m: MachineState)
    requires
        m.wf(),
    ensures
        m.step().wf(),
        m.step().micro_program == m.micro_program,
        m.step().sw1 == m.sw1,
        m.step().sw2 == m.sw2,
        m.step().memory.len() == m.memory.len(),
        m.step_result() is Err ==> m.step().memory == m.memory && m.step().micro_program_counter
            == m.micro_program_counter && m.step().hlt == m.hlt,
        m.step_result() == Err::<bool, Fault>(Fault::IndexFault) ==> m.step() == m,
        m.step_result() matches Ok(halted) ==> m.step().hlt == halted,
{
    if !m.hlt && m.fetch() is Some {
        let mc = m.fetch()->0;
        let m1 = m.after_data_path(mc);
        assert(m1.memory == m.memory && m1.gpr.len() == m.gpr.len());
    }
}

/// A cycle whose conditional jump finds its flag clear is the cycle of the
/// same microinstruction with `Plus1` in place of the jump: the two leave the
/// same registers, memory, control-store address and halt latch, and report
/// the same.
pub proof fn lemma_jump_not_taken_is_increment(m: MachineState, mc: MicroCode)
    requires
        !m.hlt,
        m.fetch() == Some(mc),
        mc.branch.condition() is Some,
        !flag(m.after_data_path(mc).str, mc.branch.condition()->0),
    ensures
        ({
            let plain = MicroCode { branch: Branch::Plus1, ..mc };
            let other = MachineState {
                micro_program: m.micro_program.update(m.micro_program_counter as int, plain),
                ..m
            };
            &&& other.step_result() == m.step_result()
            &&& other.step() == MachineState { micro_program: other.micro_program, ..m.step() }
        }),
{
    let plain = MicroCode { branch: Branch::Plus1, ..mc };
    let other = MachineState {
        micro_program: m.micro_program.update(m.micro_program_counter as int, plain),
        ..m
    };
    assert(other.fetch() == Some(plain));
    assert(other.after_data_path(plain) == MachineState {
        micro_program: other.micro_program,
        ..m.after_data_path(mc)
    });
}

/// A cycle whose destination is not the status register leaves the reserved
/// bits of the status register as they were.
pub proof fn lemma_reserved_bits_stay(m: MachineState, mc: MicroCode)
    requires
        mc.z_bus != Register::Str,
    ensures
        m.after_data_path(mc).str & RESERVED == m.str & RESERVED,
{
    let x = m.load(mc.x_bus);
    let y = m.load(mc.y_bus);
    let alu_out = mc.alu.result(x, y);
    let status = if mc.fl {
        status_after_alu(m.str, x, y, alu_out)
    } else {
        m.str
    };
    lemma_status_after_alu(m.str, x, y, alu_out);
    let shifted = mc.sft.status(status, alu_out);
    assert(shifted & RESERVED == status & RESERVED) by {
        let on = mc.sft.carry_out(alu_out) is Some && mc.sft.carry_out(alu_out)->0;
        assert(with_flag(status, CARRY, on) & RESERVED == status & RESERVED) by {
            assert((status | 0x04) & 0xf0 == status & 0xf0 && (status & !0x04u8) & 0xf0 == status
                & 0xf0) by (bit_vector);
        }
    }
}

/// A machine whose control store has a microinstruction at every address and
/// whose memory has a byte at every address never faults, however long it
/// runs.
pub proof fn lemma_full_machine_never_faults(m: MachineState, cycles: nat)
    requires
        m.wf(),
        m.micro_program.len() >= 0x1_0000,
        m.memory.len() >= 0x100,
    ensures
        m.step_result() is Ok,
        m.run_result(cycles) is Ok,
    decreases cycles,
{
    lemma_step_keeps(m);
    if !m.hlt && cycles > 0 {
        lemma_full_machine_never_faults(m.step(), (cycles - 1) as nat);
    }
}

/// A run reports a halt exactly when it leaves the machine halted; a run that
/// reports that the cycles ran out has run them all.
pub proof fn lemma_run_result(m: MachineState, cycles: nat)
    requires
        m.wf(),
    ensures
        m.run(cycles).wf(),
        m.run_result(cycles) == Ok::<bool, Fault>(true) <==> m.run(cycles).hlt,
        m.run_result(cycles) == Ok::<bool, Fault>(false) ==> m.run(cycles) == m.steps(cycles),
        m.run(cycles).micro_program == m.micro_program,
    decreases cycles,
{
    lemma_step_keeps(m);
    if !m.hlt && cycles > 0 && m.step_result() is Ok {
        lemma_run_result(m.step(), (cycles - 1) as nat);
    }
}

/// Small 8-bit architecture driven by microcode.
#[derive(Debug, PartialEq, Eq)]
pub struct MicroArch {
    /// Control-store address of the next microinstruction.
    pub micro_program_counter: u16,
    /// The control store.
    pub micro_program: Vec<MicroCode>,
    pub memory: Vec<u8>,
    /// The general registers R0 to R6.
    pub gpr: [u8; 7],
    pub pc: u8,
    pub ir: u8,
    pub mdr: u8,
    pub mar: u8,
    /// The status register.
    pub str: u8,
    /// The external switches. No cycle writes them.
    pub sw1: u8,
    pub sw2: u8,
    /// The halt latch.
    pub hlt: bool,
}

impl View for MicroArch {
    type V = MachineState;

    open spec fn view(&self) -> MachineState {
        MachineState {
            micro_program_counter: self.micro_program_counter,
            micro_program: self.micro_program@,
            memory: self.memory@,
            gpr: self.gpr@,
            pc: self.pc,
            ir: self.ir,
            mdr: self.mdr,
            mar: self.mar,
            str: self.str,
            sw1: self.sw1,
            sw2: self.sw2,
            hlt: self.hlt,
        }
    }
}

impl MicroArch {
    /// A machine with the control store `micro_codes`, no memory, every
    /// register and switch at zero, at control-store address zero and not
    /// halted.
    pub fn construct(micro_codes: Vec<MicroCode>) -> (vm: MicroArch)
        ensures
            vm@.micro_program == micro_codes@,
            vm@.micro_program_counter == 0,
            vm@.memory == Seq::<u8>::empty(),
            vm@.gpr == Seq::new(7, |i: int| 0u8),
            vm@.pc == 0 && vm@.ir == 0 && vm@.mdr == 0 && vm@.mar == 0 && vm@.str == 0,
            vm@.sw1 == 0 && vm@.sw2 == 0,
            !vm@.hlt,
            vm@.wf(),
    {
        MicroArch {
            micro_program_counter: 0,
            micro_program: micro_codes,
            memory: Vec::new(),
            gpr: [0; 7],
            pc: 0,
            ir: 0,
            mdr: 0,
            mar: 0,
            str: 0,
            sw1: 0,
            sw2: 0,
            hlt: false,
        }
    }

    /// Read the value that `from` puts on its bus.
    pub fn data_load(&self, from: RegisterOrSwitch) -> (value: u8)
        ensures
            value == self@.load(from),
    {
        match from {
            RegisterOrSwitch::Sw1 => self.sw1,
            RegisterOrSwitch::Sw2 => self.sw2,
            RegisterOrSwitch::Register(register) => match register {
                Register::Nop => 0,
                Register::R0 => self.gpr[0],
                Register::R1 => self.gpr[1],
                Register::R2 => self.gpr[2],
                Register::R3 => self.gpr[3],
                Register::R4 => self.gpr[4],
                Register::R5 => self.gpr[5],
                Register::R6 => self.gpr[6],
                Register::Pc => self.pc,
                Register::Ir => self.ir,
                Register::Mdr => self.mdr,
                Register::Mar => self.mar,
                Register::Str => self.str,
            },
        }
    }

    /// Write `value` to the register `to`. Nothing happens where `to` is
    /// `Nop`.
    pub fn data_store(&mut self, to: Register, value: u8)
        ensures
            final(self)@ == old(self)@.store(to, value),
    {
        match to {
            Register::Nop => {},
            Register::R0 => self.gpr[0] = value,
            Register::R1 => self.gpr[1] = value,
            Register::R2 => self.gpr[2] = value,
            Register::R3 => self.gpr[3] = value,
            Register::R4 => self.gpr[4] = value,
            Register::R5 => self.gpr[5] = value,
            Register::R6 => self.gpr[6] = value,
            Register::Pc => self.pc = value,
            Register::Ir => self.ir = value,
            Register::Mdr => self.mdr = value,
            Register::Mar => self.mar = value,
            Register::Str => self.str = value,
        }
    }

    /// Run one cycle.
    ///
    /// Returns the halt latch as the cycle leaves it. A halted machine does
    /// nothing and reports `Ok(true)`. `Err(Fault::IndexFault)` leaves the
    /// machine as it was. `Err(Fault::MemoryFault)` leaves it with the result
    /// of the data path written back, the memory, the control-store address
    /// and the halt latch as they were.
    pub fn exec(&mut self) -> (r: Result<bool, Fault>)
        ensures
            final(self)@ == old(self)@.step(),
            r == old(self)@.step_result(),
            old(self)@.hlt ==> final(self)@ == old(self)@ && r == Ok::<bool, Fault>(true),
            r is Ok ==> final(self)@.hlt == r->Ok_0,
            final(self)@.micro_program == old(self)@.micro_program,
            final(self)@.memory.len() == old(self)@.memory.len(),
            final(self)@.sw1 == old(self)@.sw1 && final(self)@.sw2 == old(self)@.sw2,
    {
        if self.hlt {
            return Ok(true);
        }
        let at: usize = self.micro_program_counter as usize;
        if at >= self.micro_program.len() {
            return Err(Fault::IndexFault);
        }
        let mc: MicroCode = self.micro_program[at];
        let x: u8 = self.data_load(mc.x_bus);
        let y: u8 = self.data_load(mc.y_bus);
        let alu_out: u8 = mc.alu.apply(x, y);
        let carry: bool = test_flag(self.str, CARRY);
        let status: u8 = if mc.fl {
            update_flags(self.str, x, y, alu_out)
        } else {
            self.str
        };
        let shifted: (u8, u8) = mc.sft.apply(alu_out, mc.sin, carry, status);
        self.str = shifted.1;
        self.data_store(mc.z_bus, shifted.0);
        assert(self@ == old(self)@.after_data_path(mc));
        let address: usize = self.mar as usize;
        match mc.mem {
            MemOp::Nop => {},
            MemOp::R => {
                if address >= self.memory.len() {
                    return Err(Fault::MemoryFault);
                }
                self.mdr = self.memory[address];
            },
            MemOp::W => {
                if address >= self.memory.len() {
                    return Err(Fault::MemoryFault);
                }
                self.memory.set(address, self.mdr);
            },
        }
        self.micro_program_counter = mc.branch.resolve(
            self.micro_program_counter,
            mc.addr,
            self.str,
            self.ir,
        );
        self.hlt = mc.hlt;
        Ok(mc.hlt)
    }

    /// Run cycles until the machine halts, a cycle faults, or `max_cycles`
    /// cycles have been run.
    ///
    /// Returns `Ok(true)` if the machine has halted and `Ok(false)` if the
    /// cycles ran out first. A machine that is halted already does nothing.
    pub fn exec_until_hlt(&mut self, max_cycles: u64) -> (r: Result<bool, Fault>)
        ensures
            final(self)@ == old(self)@.run(max_cycles as nat),
            r == old(self)@.run_result(max_cycles as nat),
            r == Ok::<bool, Fault>(true) <==> final(self)@.hlt,
    {
        let mut left: u64 = max_cycles;
        while !self.hlt && left > 0
            invariant
                old(self)@.run(max_cycles as nat) == self@.run(left as nat),
                old(self)@.run_result(max_cycles as nat) == self@.run_result(left as nat),
            decreases left,
        {
            match self.exec() {
                Ok(_) => {},
                Err(fault) => {
                    return Err(fault);
                },
            }
            left = left - 1;
        }
        Ok(self.hlt)
    }

    /// Give the machine a memory of `size` bytes, all of them zero. What the
    /// memory held before is gone; nothing else changes.
    pub fn set_memory_size(&mut self, size: usize)
        ensures
            final(self)@ == (MachineState {
                memory: Seq::new(size as nat, |i: int| 0u8),
                ..old(self)@
            }),
    {
        self.memory = vec![0u8; size];
        assert(self.memory@ =~= Seq::new(size as nat, |i: int| 0u8));
    }

    /// Set every register to zero and clear the halt latch. The memory, the
    /// control store, its address and the switches stay as they are.
    pub fn reset_registers(&mut self)
        ensures
            final(self)@ == (MachineState {
                gpr: Seq::new(7, |i: int| 0u8),
                pc: 0,
                ir: 0,
                mdr: 0,
                mar: 0,
                str: 0,
                hlt: false,
                ..old(self)@
            }),
    {
        self.gpr = [0; 7];
        self.pc = 0;
        self.ir = 0;
        self.mdr = 0;
        self.mar = 0;
        self.str = 0;
        self.hlt = false;
        assert(self.gpr@ =~= Seq::new(7, |i: int| 0u8));
    }
}

} // verus!
