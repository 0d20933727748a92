//! The microinstruction and the selectors it is made of.
//!
//! A microinstruction is one slot of the control store. It names the two bus
//! sources that feed the ALU, the ALU and shifter operations, the register
//! that receives the result, an optional memory access, and how the control
//! unit finds the next slot.

use vstd::prelude::*;

verus! {

/// A writable register of the machine, or `Nop` for "none".
#[derive(Debug, Copy, Clone, PartialEq, Eq, Structural)]
pub enum Register {
    Nop,
    R0,
    R1,
    R2,
    R3,
    R4,
    R5,
    R6,
    Pc,
    Ir,
    Mdr,
    Mar,
    Str,
}

/// What can drive a bus: a register, or one of the two external switches.
#[derive(Debug, Copy, Clone, PartialEq, Eq, Structural)]
pub enum RegisterOrSwitch {
    Sw1,
    Sw2,
    Register(Register),
}

/// The operation of the arithmetic-logic unit on the X and Y buses.
#[derive(Debug, Copy, Clone, PartialEq, Eq, Structural)]
pub enum AluOp {
    XPlusY,
    XMinusY,
    XAndY,
    XorY,
    XxorY,
    XPlus1,
    XMinus1,
}

/// The operation of the shifter on the ALU's output.
#[derive(Debug, Copy, Clone, PartialEq, Eq, Structural)]
pub enum ShiftOp {
    Nop,
    /// Rotate right through the carry flag.
    RRwC,
    /// Rotate left through the carry flag.
    RlwC,
    /// Shift right, logical.
    SRL,
    /// Shift left, logical.
    SLL,
    /// Shift right, arithmetic.
    SRA,
    /// Shift left, arithmetic.
    SLA,
}

/// The memory access of a cycle.
#[derive(Debug, Copy, Clone, PartialEq, Eq, Structural)]
pub enum MemOp {
    Nop,
    /// MDR receives the byte at address MAR.
    R,
    /// The byte at address MAR receives MDR.
    W,
}

/// How the control unit finds the next microinstruction.
#[derive(Debug, Copy, Clone, PartialEq, Eq, Structural)]
pub enum Branch {
    /// The next slot.
    Plus1,
    /// Jump.
    J,
    /// Jump if the negative flag is set.
    JM,
    /// Jump if the zero flag is set.
    JZ,
    /// Jump if the carry flag is set.
    JC,
    /// Jump if the overflow flag is set.
    JV,
    /// Advance by the value of IR.
    JI,
}

/// One microinstruction.
#[derive(Debug, Copy, Clone, PartialEq, Eq, Structural)]
pub struct MicroCode {
    /// Source of the ALU's X input.
    pub x_bus: RegisterOrSwitch,
    /// Source of the ALU's Y input.
    pub y_bus: RegisterOrSwitch,
    pub alu: AluOp,
    pub sft: ShiftOp,
    /// The bit that the plain shifts move into the vacated position.
    pub sin: bool,
    /// Whether this cycle recomputes the flags from the ALU's output.
    pub fl: bool,
    /// The register that receives the shifter's output.
    pub z_bus: Register,
    pub mem: MemOp,
    pub branch: Branch,
    /// Whether the machine halts after this cycle.
    pub hlt: bool,
    /// The control-store address that the jumps go to.
    pub addr: u16,
}

impl MicroCode {
    /// The microinstruction that changes nothing but the control-store
    /// address, which it advances by one.
    pub open spec fn spec_nop() -> MicroCode {
        MicroCode {
            x_bus: RegisterOrSwitch::Register(Register::Nop),
            y_bus: RegisterOrSwitch::Register(Register::Nop),
            alu: AluOp::XPlusY,
            sft: ShiftOp::Nop,
            sin: false,
            fl: false,
            z_bus: Register::Nop,
            mem: MemOp::Nop,
            branch: Branch::Plus1,
            hlt: false,
            addr: 0,
        }
    }

    /// The microinstruction that changes nothing but the control-store
    /// address, which it advances by one.
    #[verifier::when_used_as_spec(spec_nop)]
    pub fn nop() -> (mc: MicroCode)
        ensures
            mc == MicroCode::spec_nop(),
    {
        MicroCode {
            x_bus: RegisterOrSwitch::Register(Register::Nop),
            y_bus: RegisterOrSwitch::Register(Register::Nop),
            alu: AluOp::XPlusY,
            sft: ShiftOp::Nop,
            sin: false,
            fl: false,
            z_bus: Register::Nop,
            mem: MemOp::Nop,
            branch: Branch::Plus1,
            hlt: false,
            addr: 0,
        }
    }
}

impl Register {
    /// The name of this register as it is shown: empty for `Nop`.
    pub open spec fn label(self) -> Seq<char> {
        match self {
            Register::Nop => ""@,
            Register::R0 => "R0"@,
            Register::R1 => "R1"@,
            Register::R2 => "R2"@,
            Register::R3 => "R3"@,
            Register::R4 => "R4"@,
            Register::R5 => "R5"@,
            Register::R6 => "R6"@,
            Register::Pc => "PC"@,
            Register::Ir => "IR"@,
            Register::Mdr => "MDR"@,
            Register::Mar => "MAR"@,
            Register::Str => "STR"@,
        }
    }

    /// The name of this register as it is shown.
    pub fn to_string(&self) -> (s: String)
        ensures
            s@ == self.label(),
    {
        match self {
            Register::Nop => "",
            Register::R0 => "R0",
            Register::R1 => "R1",
            Register::R2 => "R2",
            Register::R3 => "R3",
            Register::R4 => "R4",
            Register::R5 => "R5",
            Register::R6 => "R6",
            Register::Pc => "PC",
            Register::Ir => "IR",
            Register::Mdr => "MDR",
            Register::Mar => "MAR",
            Register::Str => "STR",
        }.to_owned()
    }
}

impl RegisterOrSwitch {
    /// The name of this bus source as it is shown.
    pub open spec fn label(self) -> Seq<char> {
        match self {
            RegisterOrSwitch::Sw1 => "Sw1"@,
            RegisterOrSwitch::Sw2 => "Sw2"@,
            RegisterOrSwitch::Register(register) => register.label(),
        }
    }

    /// The name of this bus source as it is shown.
    pub fn to_string(&self) -> (s: String)
        ensures
            s@ == self.label(),
    {
        match self {
            RegisterOrSwitch::Sw1 => "Sw1".to_owned(),
            RegisterOrSwitch::Sw2 => "Sw2".to_owned(),
            RegisterOrSwitch::Register(register) => register.to_string(),
        }
    }
}

impl AluOp {
    /// The name of this operation as it is shown.
    pub open spec fn label(self) -> Seq<char> {
        match self {
            AluOp::XPlusY => "X+Y"@,
            AluOp::XMinusY => "X-Y"@,
            AluOp::XAndY => "X&Y"@,
            AluOp::XorY => "X|Y"@,
            AluOp::XxorY => "X^Y"@,
            AluOp::XPlus1 => "X+1"@,
            AluOp::XMinus1 => "X-1"@,
        }
    }

    /// The name of this operation as it is shown.
    pub fn to_string(&self) -> (s: String)
        ensures
            s@ == self.label(),
    {
        match self {
            AluOp::XPlusY => "X+Y",
            AluOp::XMinusY => "X-Y",
            AluOp::XAndY => "X&Y",
            AluOp::XorY => "X|Y",
            AluOp::XxorY => "X^Y",
            AluOp::XPlus1 => "X+1",
            AluOp::XMinus1 => "X-1",
        }.to_owned()
    }
}

impl ShiftOp {
    /// The name of this operation as it is shown: empty for `Nop`.
    pub open spec fn label(self) -> Seq<char> {
        match self {
            ShiftOp::Nop => ""@,
            ShiftOp::RRwC => "RRwC"@,
            ShiftOp::RlwC => "RLwC"@,
            ShiftOp::SRL => "SRL"@,
            ShiftOp::SLL => "SLL"@,
            ShiftOp::SRA => "SRA"@,
            ShiftOp::SLA => "SLA"@,
        }
    }

    /// The name of this operation as it is shown.
    pub fn to_string(&self) -> (s: String)
        ensures
            s@ == self.label(),
    {
        match self {
            ShiftOp::Nop => "",
            ShiftOp::RRwC => "RRwC",
            ShiftOp::RlwC => "RLwC",
            ShiftOp::SRL => "SRL",
            ShiftOp::SLL => "SLL",
            ShiftOp::SRA => "SRA",
            ShiftOp::SLA => "SLA",
        }.to_owned()
    }
}

impl MemOp {
    /// The name of this access as it is shown: empty for `Nop`.
    pub open spec fn label(self) -> Seq<char> {
        match self {
            MemOp::Nop => ""@,
            MemOp::R => "R"@,
            MemOp::W => "W"@,
        }
    }

    /// The name of this access as it is shown.
    pub fn to_string(&self) -> (s: String)
        ensures
            s@ == self.label(),
    {
        match self {
            MemOp::Nop => "",
            MemOp::R => "R",
            MemOp::W => "W",
        }.to_owned()
    }
}

impl Branch {
    /// The name of this branch as it is shown.
    pub open spec fn label(self) -> Seq<char> {
        match self {
            Branch::Plus1 => "+1"@,
            Branch::J => "J"@,
            Branch::JM => "JM"@,
            Branch::JZ => "JZ"@,
            Branch::JC => "JC"@,
            Branch::JV => "JV"@,
            Branch::JI => "JI"@,
        }
    }

    /// The name of this branch as it is shown.
    pub fn to_string(&self) -> (s: String)
        ensures
            s@ == self.label(),
    {
        match self {
            Branch::Plus1 => "+1",
            Branch::J => "J",
            Branch::JM => "JM",
            Branch::JZ => "JZ",
            Branch::JC => "JC",
            Branch::JV => "JV",
            Branch::JI => "JI",
        }.to_owned()
    }
}

} // verus!
