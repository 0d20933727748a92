//! The packed form of a microinstruction.
//!
//! A microinstruction is packed into one 64-bit word, field by field. From
//! the least significant bit upward:
//!
//! | field    | offset | width |
//! |----------|--------|-------|
//! | `addr`   | 0      | 16    |
//! | `hlt`    | 16     | 1     |
//! | `branch` | 17     | 3     |
//! | `mem`    | 20     | 2     |
//! | `z_bus`  | 22     | 4     |
//! | `fl`     | 26     | 1     |
//! | `sin`    | 27     | 1     |
//! | `sft`    | 28     | 3     |
//! | `alu`    | 31     | 3     |
//! | `y_bus`  | 34     | 5     |
//! | `x_bus`  | 39     | 25    |
//!
//! The ALU field is three bits wide, because the ALU has seven operations.
//! A word in which that field has only two bits, with `y_bus` at offset 33
//! and `x_bus` at 38, cannot tell the operations 4 to 6 from a change of the Y
//! source, and is not a word of this format: packing and unpacking here are
//! each other's inverse for every microinstruction.
//!
//! This table of offsets and widths stands here and nowhere else.

use vstd::prelude::*;
use crate::micro_code::{AluOp, Branch, MemOp, MicroCode, Register, RegisterOrSwitch, ShiftOp};

verus! {

pub const ADDR_SHIFT: u64 = 0;

pub const ADDR_BITS: u64 = 16;

pub const HLT_SHIFT: u64 = 16;

pub const HLT_BITS: u64 = 1;

pub const BRANCH_SHIFT: u64 = 17;

pub const BRANCH_BITS: u64 = 3;

pub const MEM_SHIFT: u64 = 20;

pub const MEM_BITS: u64 = 2;

pub const Z_BUS_SHIFT: u64 = 22;

pub const Z_BUS_BITS: u64 = 4;

pub const FL_SHIFT: u64 = 26;

pub const FL_BITS: u64 = 1;

pub const SIN_SHIFT: u64 = 27;

pub const SIN_BITS: u64 = 1;

pub const SFT_SHIFT: u64 = 28;

pub const SFT_BITS: u64 = 3;

pub const ALU_SHIFT: u64 = 31;

pub const ALU_BITS: u64 = 3;

pub const Y_BUS_SHIFT: u64 = 34;

pub const Y_BUS_BITS: u64 = 5;

pub const X_BUS_SHIFT: u64 = 39;

pub const X_BUS_BITS: u64 = 25;

/// A field of a word whose number stands for no member of the field's type.
/// Where several fields are at fault, the one nearest the least significant
/// bit is named.
#[derive(Debug, Copy, Clone, PartialEq, Eq, Structural)]
pub enum DecodeError {
    Branch,
    Mem,
    ZBus,
    Sft,
    Alu,
    YBus,
    XBus,
}

/// The number in the field of `width` bits that starts at bit `shift` of
/// `word`.
pub open spec fn field(word: u64, shift: u64, width: u64) -> u64 {
    (word >> shift) & (((1u64 << width) - 1) as u64)
}

/// The number that a flag contributes to a packed word.
pub open spec fn bit_of(b: bool) -> u64 {
    if b {
        1
    } else {
        0
    }
}

/// Take the field of `width` bits that starts at bit `shift` out of `word`.
pub fn extract(word: u64, shift: u64, width: u64) -> (number: u64)
    requires
        0 < width,
        shift + width <= 64,
    ensures
        number == field(word, shift, width),
{
    proof {
        assert(width < 64 ==> 1u64 << width >= 1) by (bit_vector);
        assert(width == 64 ==> ((1u64 << width) - 1) as u64 == 0xffff_ffff_ffff_ffffu64)
            by (bit_vector);
    }
    let ones: u64 = if width == 64 {
        u64::MAX
    } else {
        (1u64 << width) - 1
    };
    (word >> shift) & ones
}

/// The number of a flag.
pub fn bit(b: bool) -> (number: u64)
    ensures
        number == bit_of(b),
{
    if b {
        1
    } else {
        0
    }
}

impl Register {
    /// The number of this register in a packed word.
    pub open spec fn code(self) -> u64 {
        match self {
            Register::Nop => 0,
            Register::R0 => 1,
            Register::R1 => 2,
            Register::R2 => 3,
            Register::R3 => 4,
            Register::R4 => 5,
            Register::R5 => 6,
            Register::R6 => 7,
            Register::Pc => 8,
            Register::Ir => 9,
            Register::Mdr => 10,
            Register::Mar => 11,
            Register::Str => 12,
        }
    }

    /// The register that `code` stands for, if it stands for one.
    pub open spec fn from_code(code: u64) -> Option<Register> {
        if code == 0 {
            Some(Register::Nop)
        } else if code == 1 {
            Some(Register::R0)
        } else if code == 2 {
            Some(Register::R1)
        } else if code == 3 {
            Some(Register::R2)
        } else if code == 4 {
            Some(Register::R3)
        } else if code == 5 {
            Some(Register::R4)
        } else if code == 6 {
            Some(Register::R5)
        } else if code == 7 {
            Some(Register::R6)
        } else if code == 8 {
            Some(Register::Pc)
        } else if code == 9 {
            Some(Register::Ir)
        } else if code == 10 {
            Some(Register::Mdr)
        } else if code == 11 {
            Some(Register::Mar)
        } else if code == 12 {
            Some(Register::Str)
        } else {
            None
        }
    }

    /// The number of this register in a packed word.
    pub fn assemble(&self) -> (code: u64)
        ensures
            code == self.code(),
            code <= 12,
            Register::from_code(code) == Some(*self),
    {
        match self {
            Register::Nop => 0,
            Register::R0 => 1,
            Register::R1 => 2,
            Register::R2 => 3,
            Register::R3 => 4,
            Register::R4 => 5,
            Register::R5 => 6,
            Register::R6 => 7,
            Register::Pc => 8,
            Register::Ir => 9,
            Register::Mdr => 10,
            Register::Mar => 11,
            Register::Str => 12,
        }
    }

    /// The register that `code` stands for; `None` if it stands for none.
    pub fn disassemble(code: u64) -> (register: Option<Register>)
        ensures
            register == Register::from_code(code),
            register is Some <==> code <= 12,
            register matches Some(r) ==> r.code() == code,
    {
        match code {
            0 => Some(Register::Nop),
            1 => Some(Register::R0),
            2 => Some(Register::R1),
            3 => Some(Register::R2),
            4 => Some(Register::R3),
            5 => Some(Register::R4),
            6 => Some(Register::R5),
            7 => Some(Register::R6),
            8 => Some(Register::Pc),
            9 => Some(Register::Ir),
            10 => Some(Register::Mdr),
            11 => Some(Register::Mar),
            12 => Some(Register::Str),
            _ => None,
        }
    }
}

impl RegisterOrSwitch {
    /// The number of this bus source in a packed word: that of the register,
    /// or 13 and 14 for the switches.
    pub open spec fn code(self) -> u64 {
        match self {
            RegisterOrSwitch::Sw1 => 13,
            RegisterOrSwitch::Sw2 => 14,
            RegisterOrSwitch::Register(register) => register.code(),
        }
    }

    /// The bus source that `code` stands for, if it stands for one.
    pub open spec fn from_code(code: u64) -> Option<RegisterOrSwitch> {
        if code == 13 {
            Some(RegisterOrSwitch::Sw1)
        } else if code == 14 {
            Some(RegisterOrSwitch::Sw2)
        } else {
            match Register::from_code(code) {
                Some(register) => Some(RegisterOrSwitch::Register(register)),
                None => None,
            }
        }
    }

    /// The number of this bus source in a packed word.
    pub fn assemble(&self) -> (code: u64)
        ensures
            code == self.code(),
            code <= 14,
            RegisterOrSwitch::from_code(code) == Some(*self),
    {
        match self {
            RegisterOrSwitch::Sw1 => 13,
            RegisterOrSwitch::Sw2 => 14,
            RegisterOrSwitch::Register(register) => register.assemble(),
        }
    }

    /// The bus source that `code` stands for; `None` if it stands for none.
    pub fn disassemble(code: u64) -> (source: Option<RegisterOrSwitch>)
        ensures
            source == RegisterOrSwitch::from_code(code),
            source is Some <==> code <= 14,
            source matches Some(s) ==> s.code() == code,
    {
        match code {
            13 => Some(RegisterOrSwitch::Sw1),
            14 => Some(RegisterOrSwitch::Sw2),
            _ => match Register::disassemble(code) {
                Some(register) => Some(RegisterOrSwitch::Register(register)),
                None => None,
            },
        }
    }
}

impl AluOp {
    /// The number of this operation in a packed word.
    pub open spec fn code(self) -> u64 {
        match self {
            AluOp::XPlusY => 0,
            AluOp::XMinusY => 1,
            AluOp::XAndY => 2,
            AluOp::XorY => 3,
            AluOp::XxorY => 4,
            AluOp::XPlus1 => 5,
            AluOp::XMinus1 => 6,
        }
    }

    /// The operation that `code` stands for, if it stands for one.
    pub open spec fn from_code(code: u64) -> Option<AluOp> {
        if code == 0 {
            Some(AluOp::XPlusY)
        } else if code == 1 {
            Some(AluOp::XMinusY)
        } else if code == 2 {
            Some(AluOp::XAndY)
        } else if code == 3 {
            Some(AluOp::XorY)
        } else if code == 4 {
            Some(AluOp::XxorY)
        } else if code == 5 {
            Some(AluOp::XPlus1)
        } else if code == 6 {
            Some(AluOp::XMinus1)
        } else {
            None
        }
    }

    /// The number of this operation in a packed word.
    pub fn assemble(&self) -> (code: u64)
        ensures
            code == self.code(),
            code <= 6,
            AluOp::from_code(code) == Some(*self),
    {
        match self {
            AluOp::XPlusY => 0,
            AluOp::XMinusY => 1,
            AluOp::XAndY => 2,
            AluOp::XorY => 3,
            AluOp::XxorY => 4,
            AluOp::XPlus1 => 5,
            AluOp::XMinus1 => 6,
        }
    }

    /// The operation that `code` stands for; `None` if it stands for none.
    pub fn disassemble(code: u64) -> (op: Option<AluOp>)
        ensures
            op == AluOp::from_code(code),
            op is Some <==> code <= 6,
            op matches Some(o) ==> o.code() == code,
    {
        match code {
            0 => Some(AluOp::XPlusY),
            1 => Some(AluOp::XMinusY),
            2 => Some(AluOp::XAndY),
            3 => Some(AluOp::XorY),
            4 => Some(AluOp::XxorY),
            5 => Some(AluOp::XPlus1),
            6 => Some(AluOp::XMinus1),
            _ => None,
        }
    }
}

impl ShiftOp {
    /// The number of this operation in a packed word.
    pub open spec fn code(self) -> u64 {
        match self {
            ShiftOp::Nop => 0,
            ShiftOp::RRwC => 1,
            ShiftOp::RlwC => 2,
            ShiftOp::SRL => 3,
            ShiftOp::SLL => 4,
            ShiftOp::SRA => 5,
            ShiftOp::SLA => 6,
        }
    }

    /// The operation that `code` stands for, if it stands for one.
    pub open spec fn from_code(code: u64) -> Option<ShiftOp> {
        if code == 0 {
            Some(ShiftOp::Nop)
        } else if code == 1 {
            Some(ShiftOp::RRwC)
        } else if code == 2 {
            Some(ShiftOp::RlwC)
        } else if code == 3 {
            Some(ShiftOp::SRL)
        } else if code == 4 {
            Some(ShiftOp::SLL)
        } else if code == 5 {
            Some(ShiftOp::SRA)
        } else if code == 6 {
            Some(ShiftOp::SLA)
        } else {
            None
        }
    }

    /// The number of this operation in a packed word.
    pub fn assemble(&self) -> (code: u64)
        ensures
            code == self.code(),
            code <= 6,
            ShiftOp::from_code(code) == Some(*self),
    {
        match self {
            ShiftOp::Nop => 0,
            ShiftOp::RRwC => 1,
            ShiftOp::RlwC => 2,
            ShiftOp::SRL => 3,
            ShiftOp::SLL => 4,
            ShiftOp::SRA => 5,
            ShiftOp::SLA => 6,
        }
    }

    /// The operation that `code` stands for; `None` if it stands for none.
    pub fn disassemble(code: u64) -> (op: Option<ShiftOp>)
        ensures
            op == ShiftOp::from_code(code),
            op is Some <==> code <= 6,
            op matches Some(o) ==> o.code() == code,
    {
        match code {
            0 => Some(ShiftOp::Nop),
            1 => Some(ShiftOp::RRwC),
            2 => Some(ShiftOp::RlwC),
            3 => Some(ShiftOp::SRL),
            4 => Some(ShiftOp::SLL),
            5 => Some(ShiftOp::SRA),
            6 => Some(ShiftOp::SLA),
            _ => None,
        }
    }
}

impl MemOp {
    /// The number of this access in a packed word.
    pub open spec fn code(self) -> u64 {
        match self {
            MemOp::Nop => 0,
            MemOp::R => 1,
            MemOp::W => 2,
        }
    }

    /// The access that `code` stands for, if it stands for one.
    pub open spec fn from_code(code: u64) -> Option<MemOp> {
        if code == 0 {
            Some(MemOp::Nop)
        } else if code == 1 {
            Some(MemOp::R)
        } else if code == 2 {
            Some(MemOp::W)
        } else {
            None
        }
    }

    /// The number of this access in a packed word.
    pub fn assemble(&self) -> (code: u64)
        ensures
            code == self.code(),
            code <= 2,
            MemOp::from_code(code) == Some(*self),
    {
        match self {
            MemOp::Nop => 0,
            MemOp::R => 1,
            MemOp::W => 2,
        }
    }

    /// The access that `code` stands for; `None` if it stands for none.
    pub fn disassemble(code: u64) -> (op: Option<MemOp>)
        ensures
            op == MemOp::from_code(code),
            op is Some <==> code <= 2,
            op matches Some(o) ==> o.code() == code,
    {
        match code {
            0 => Some(MemOp::Nop),
            1 => Some(MemOp::R),
            2 => Some(MemOp::W),
            _ => None,
        }
    }
}

impl Branch {
    /// The number of this branch in a packed word.
    pub open spec fn code(self) -> u64 {
        match self {
            Branch::Plus1 => 0,
            Branch::J => 1,
            Branch::JM => 2,
            Branch::JZ => 3,
            Branch::JC => 4,
            Branch::JV => 5,
            Branch::JI => 6,
        }
    }

    /// The branch that `code` stands for, if it stands for one.
    pub open spec fn from_code(code: u64) -> Option<Branch> {
        if code == 0 {
            Some(Branch::Plus1)
        } else if code == 1 {
            Some(Branch::J)
        } else if code == 2 {
            Some(Branch::JM)
        } else if code == 3 {
            Some(Branch::JZ)
        } else if code == 4 {
            Some(Branch::JC)
        } else if code == 5 {
            Some(Branch::JV)
        } else if code == 6 {
            Some(Branch::JI)
        } else {
            None
        }
    }

    /// The number of this branch in a packed word.
    pub fn assemble(&self) -> (code: u64)
        ensures
            code == self.code(),
            code <= 6,
            Branch::from_code(code) == Some(*self),
    {
        match self {
            Branch::Plus1 => 0,
            Branch::J => 1,
            Branch::JM => 2,
            Branch::JZ => 3,
            Branch::JC => 4,
            Branch::JV => 5,
            Branch::JI => 6,
        }
    }

    /// The branch that `code` stands for; `None` if it stands for none.
    pub fn disassemble(code: u64) -> (branch: Option<Branch>)
        ensures
            branch == Branch::from_code(code),
            branch is Some <==> code <= 6,
            branch matches Some(b) ==> b.code() == code,
    {
        match code {
            0 => Some(Branch::Plus1),
            1 => Some(Branch::J),
            2 => Some(Branch::JM),
            3 => Some(Branch::JZ),
            4 => Some(Branch::JC),
            5 => Some(Branch::JV),
            6 => Some(Branch::JI),
            _ => None,
        }
    }
}

/// The numbers in the eleven fields of a packed word.
pub struct Fields {
    pub addr: u64,
    pub hlt: u64,
    pub branch: u64,
    pub mem: u64,
    pub z_bus: u64,
    pub fl: u64,
    pub sin: u64,
    pub sft: u64,
    pub alu: u64,
    pub y_bus: u64,
    pub x_bus: u64,
}

impl Fields {
    /// Each number fits the width of its field.
    pub open spec fn fits(self) -> bool {
        &&& self.addr < 0x1_0000
        &&& self.hlt < 2
        &&& self.branch < 8
        &&& self.mem < 4
        &&& self.z_bus < 16
        &&& self.fl < 2
        &&& self.sin < 2
        &&& self.sft < 8
        &&& self.alu < 8
        &&& self.y_bus < 32
        &&& self.x_bus < 0x200_0000
    }

    /// The word with each number at the offset of its field.
    pub open spec fn pack(self) -> u64 {
        self.addr << ADDR_SHIFT | self.hlt << HLT_SHIFT | self.branch << BRANCH_SHIFT | self.mem
            << MEM_SHIFT | self.z_bus << Z_BUS_SHIFT | self.fl << FL_SHIFT | self.sin
            << SIN_SHIFT | self.sft << SFT_SHIFT | self.alu << ALU_SHIFT | self.y_bus
            << Y_BUS_SHIFT | self.x_bus << X_BUS_SHIFT
    }

    /// The numbers in the fields of `word`.
    pub open spec fn unpack(word: u64) -> Fields {
        Fields {
            addr: field(word, ADDR_SHIFT, ADDR_BITS),
            hlt: field(word, HLT_SHIFT, HLT_BITS),
            branch: field(word, BRANCH_SHIFT, BRANCH_BITS),
            mem: field(word, MEM_SHIFT, MEM_BITS),
            z_bus: field(word, Z_BUS_SHIFT, Z_BUS_BITS),
            fl: field(word, FL_SHIFT, FL_BITS),
            sin: field(word, SIN_SHIFT, SIN_BITS),
            sft: field(word, SFT_SHIFT, SFT_BITS),
            alu: field(word, ALU_SHIFT, ALU_BITS),
            y_bus: field(word, Y_BUS_SHIFT, Y_BUS_BITS),
            x_bus: field(word, X_BUS_SHIFT, X_BUS_BITS),
        }
    }

    /// The numbers that stand for the fields of `mc`.
    pub open spec fn of(mc: MicroCode) -> Fields {
        Fields {
            addr: mc.addr as u64,
            hlt: bit_of(mc.hlt),
            branch: mc.branch.code(),
            mem: mc.mem.code(),
            z_bus: mc.z_bus.code(),
            fl: bit_of(mc.fl),
            sin: bit_of(mc.sin),
            sft: mc.sft.code(),
            alu: mc.alu.code(),
            y_bus: mc.y_bus.code(),
            x_bus: mc.x_bus.code(),
        }
    }

    /// The microinstruction that these numbers stand for, or the first field,
    /// from the least significant bit upward, whose number stands for
    /// nothing.
    pub open spec fn instruction(self) -> Result<MicroCode, DecodeError> {
        let branch = Branch::from_code(self.branch);
        let mem = MemOp::from_code(self.mem);
        let z_bus = Register::from_code(self.z_bus);
        let sft = ShiftOp::from_code(self.sft);
        let alu = AluOp::from_code(self.alu);
        let y_bus = RegisterOrSwitch::from_code(self.y_bus);
        let x_bus = RegisterOrSwitch::from_code(self.x_bus);
        if branch is None {
            Err(DecodeError::Branch)
        } else if mem is None {
            Err(DecodeError::Mem)
        } else if z_bus is None {
            Err(DecodeError::ZBus)
        } else if sft is None {
            Err(DecodeError::Sft)
        } else if alu is None {
            Err(DecodeError::Alu)
        } else if y_bus is None {
            Err(DecodeError::YBus)
        } else if x_bus is None {
            Err(DecodeError::XBus)
        } else {
            Ok(
                MicroCode {
                    x_bus: x_bus->0,
                    y_bus: y_bus->0,
                    alu: alu->0,
                    sft: sft->0,
                    sin: self.sin != 0,
                    fl: self.fl != 0,
                    z_bus: z_bus->0,
                    mem: mem->0,
                    branch: branch->0,
                    hlt: self.hlt != 0,
                    addr: self.addr as u16,
                },
            )
        }
    }
}

impl MicroCode {
    /// The packed word of this microinstruction: the number of each field at
    /// the field's offset.
    pub open spec fn word(self) -> u64 {
        Fields::of(self).pack()
    }

    /// The microinstruction that `word` is the packed form of, or the field
    /// of `word` that stands for nothing.
    pub open spec fn decode(word: u64) -> Result<MicroCode, DecodeError> {
        Fields::unpack(word).instruction()
    }

    /// Pack this microinstruction into a word.
    pub fn assemble(&self) -> (word: u64)
        ensures
            word == self.word(),
            MicroCode::decode(word) == Ok::<MicroCode, DecodeError>(*self),
    {
        proof {
            lemma_decode_word(*self);
        }
        (self.addr as u64) << ADDR_SHIFT | bit(self.hlt) << HLT_SHIFT | self.branch.assemble()
            << BRANCH_SHIFT | self.mem.assemble() << MEM_SHIFT | self.z_bus.assemble()
            << Z_BUS_SHIFT | bit(self.fl) << FL_SHIFT | bit(self.sin) << SIN_SHIFT
            | self.sft.assemble() << SFT_SHIFT | self.alu.assemble() << ALU_SHIFT
            | self.y_bus.assemble() << Y_BUS_SHIFT | self.x_bus.assemble() << X_BUS_SHIFT
    }

    /// Unpack a word. Fails where a field of the word holds a number that
    /// stands for no member of the field's type, and names the field.
    pub fn disassemble(word: u64) -> (r: Result<MicroCode, DecodeError>)
        ensures
            r == MicroCode::decode(word),
            r matches Ok(mc) ==> mc.word() == word,
    {
        proof {
            lemma_word_decode(word);
        }
        let branch = match Branch::disassemble(extract(word, BRANCH_SHIFT, BRANCH_BITS)) {
            Some(branch) => branch,
            None => {
                return Err(DecodeError::Branch);
            },
        };
        let mem = match MemOp::disassemble(extract(word, MEM_SHIFT, MEM_BITS)) {
            Some(mem) => mem,
            None => {
                return Err(DecodeError::Mem);
            },
        };
        let z_bus = match Register::disassemble(extract(word, Z_BUS_SHIFT, Z_BUS_BITS)) {
            Some(z_bus) => z_bus,
            None => {
                return Err(DecodeError::ZBus);
            },
        };
        let sft = match ShiftOp::disassemble(extract(word, SFT_SHIFT, SFT_BITS)) {
            Some(sft) => sft,
            None => {
                return Err(DecodeError::Sft);
            },
        };
        let alu = match AluOp::disassemble(extract(word, ALU_SHIFT, ALU_BITS)) {
            Some(alu) => alu,
            None => {
                return Err(DecodeError::Alu);
            },
        };
        let y_bus = match RegisterOrSwitch::disassemble(extract(word, Y_BUS_SHIFT, Y_BUS_BITS)) {
            Some(y_bus) => y_bus,
            None => {
                return Err(DecodeError::YBus);
            },
        };
        let x_bus = match RegisterOrSwitch::disassemble(extract(word, X_BUS_SHIFT, X_BUS_BITS)) {
            Some(x_bus) => x_bus,
            None => {
                return Err(DecodeError::XBus);
            },
        };
        let addr: u64 = extract(word, ADDR_SHIFT, ADDR_BITS);
        proof {
            lemma_pack_unpack(word);
        }
        Ok(
            MicroCode {
                x_bus,
                y_bus,
                alu,
                sft,
                sin: extract(word, SIN_SHIFT, SIN_BITS) != 0,
                fl: extract(word, FL_SHIFT, FL_BITS) != 0,
                z_bus,
                mem,
                branch,
                hlt: extract(word, HLT_SHIFT, HLT_BITS) != 0,
                addr: addr as u16,
            },
        )
    }
}

/// Every field of a packed word holds the number that was put there: the
/// bits of one field never reach another.
pub proof fn lemma_unpack_pack(f: Fields)
    requires
        f.fits(),
    ensures
        Fields::unpack(f.pack()) == f,
{
    let Fields { addr, hlt, branch, mem, z_bus, fl, sin, sft, alu, y_bus, x_bus } = f;
    let word = f.pack();
    assert(field(word, ADDR_SHIFT, ADDR_BITS) == addr && field(word, HLT_SHIFT, HLT_BITS) == hlt
        && field(word, BRANCH_SHIFT, BRANCH_BITS) == branch && field(word, MEM_SHIFT, MEM_BITS)
        == mem && field(word, Z_BUS_SHIFT, Z_BUS_BITS) == z_bus && field(word, FL_SHIFT, FL_BITS)
        == fl && field(word, SIN_SHIFT, SIN_BITS) == sin && field(word, SFT_SHIFT, SFT_BITS)
        == sft && field(word, ALU_SHIFT, ALU_BITS) == alu && field(word, Y_BUS_SHIFT, Y_BUS_BITS)
        == y_bus && field(word, X_BUS_SHIFT, X_BUS_BITS) == x_bus) by (bit_vector)
        requires
            word == addr << ADDR_SHIFT | hlt << HLT_SHIFT | branch << BRANCH_SHIFT | mem
                << MEM_SHIFT | z_bus << Z_BUS_SHIFT | fl << FL_SHIFT | sin << SIN_SHIFT | sft
                << SFT_SHIFT | alu << ALU_SHIFT | y_bus << Y_BUS_SHIFT | x_bus << X_BUS_SHIFT,
            addr < 0x1_0000,
            hlt < 2,
            branch < 8,
            mem < 4,
            z_bus < 16,
            fl < 2,
            sin < 2,
            sft < 8,
            alu < 8,
            y_bus < 32,
            x_bus < 0x200_0000,
    ;
}

/// A word is made of its fields: together they cover all 64 bits.
pub proof fn lemma_pack_unpack(word: u64)
    ensures
        Fields::unpack(word).fits(),
        Fields::unpack(word).pack() == word,
{
    assert(word == field(word, ADDR_SHIFT, ADDR_BITS) << ADDR_SHIFT | field(
        word,
        HLT_SHIFT,
        HLT_BITS,
    ) << HLT_SHIFT | field(word, BRANCH_SHIFT, BRANCH_BITS) << BRANCH_SHIFT | field(
        word,
        MEM_SHIFT,
        MEM_BITS,
    ) << MEM_SHIFT | field(word, Z_BUS_SHIFT, Z_BUS_BITS) << Z_BUS_SHIFT | field(
        word,
        FL_SHIFT,
        FL_BITS,
    ) << FL_SHIFT | field(word, SIN_SHIFT, SIN_BITS) << SIN_SHIFT | field(
        word,
        SFT_SHIFT,
        SFT_BITS,
    ) << SFT_SHIFT | field(word, ALU_SHIFT, ALU_BITS) << ALU_SHIFT | field(
        word,
        Y_BUS_SHIFT,
        Y_BUS_BITS,
    ) << Y_BUS_SHIFT | field(word, X_BUS_SHIFT, X_BUS_BITS) << X_BUS_SHIFT) by (bit_vector);
    assert(field(word, ADDR_SHIFT, ADDR_BITS) < 0x1_0000 && field(word, HLT_SHIFT, HLT_BITS) < 2
        && field(word, BRANCH_SHIFT, BRANCH_BITS) < 8 && field(word, MEM_SHIFT, MEM_BITS) < 4
        && field(word, Z_BUS_SHIFT, Z_BUS_BITS) < 16 && field(word, FL_SHIFT, FL_BITS) < 2
        && field(word, SIN_SHIFT, SIN_BITS) < 2 && field(word, SFT_SHIFT, SFT_BITS) < 8 && field(
        word,
        ALU_SHIFT,
        ALU_BITS,
    ) < 8 && field(word, Y_BUS_SHIFT, Y_BUS_BITS) < 32 && field(word, X_BUS_SHIFT, X_BUS_BITS)
        < 0x200_0000) by (bit_vector);
}

/// The numbers of a microinstruction fit their fields and stand for that
/// microinstruction.
pub proof fn lemma_instruction_of(mc: MicroCode)
    ensures
        Fields::of(mc).fits(),
        Fields::of(mc).instruction() == Ok::<MicroCode, DecodeError>(mc),
{
    lemma_codes(mc);
    let f = Fields::of(mc);
    assert(f.addr as u16 == mc.addr);
    assert((f.hlt != 0) == mc.hlt && (f.fl != 0) == mc.fl && (f.sin != 0) == mc.sin);
}

/// The number of each member of a field's type fits the field and stands for
/// that member.
pub proof fn lemma_codes(mc: MicroCode)
    ensures
        mc.branch.code() < 8 && Branch::from_code(mc.branch.code()) == Some(mc.branch),
        mc.mem.code() < 4 && MemOp::from_code(mc.mem.code()) == Some(mc.mem),
        mc.z_bus.code() < 16 && Register::from_code(mc.z_bus.code()) == Some(mc.z_bus),
        mc.sft.code() < 8 && ShiftOp::from_code(mc.sft.code()) == Some(mc.sft),
        mc.alu.code() < 8 && AluOp::from_code(mc.alu.code()) == Some(mc.alu),
        mc.y_bus.code() < 32 && RegisterOrSwitch::from_code(mc.y_bus.code()) == Some(mc.y_bus),
        mc.x_bus.code() < 32 && RegisterOrSwitch::from_code(mc.x_bus.code()) == Some(mc.x_bus),
{
}

/// Numbers that stand for a microinstruction are the numbers of that
/// microinstruction.
pub proof fn lemma_of_instruction(f: Fields)
    requires
        f.fits(),
    ensures
        f.instruction() matches Ok(mc) ==> Fields::of(mc) == f,
{
}

/// Unpacking the packed word of a microinstruction gives the
/// microinstruction back, whatever it is.
pub proof fn lemma_decode_word(mc: MicroCode)
    ensures
        MicroCode::decode(mc.word()) == Ok::<MicroCode, DecodeError>(mc),
{
    lemma_instruction_of(mc);
    lemma_unpack_pack(Fields::of(mc));
}

/// A word that unpacks to a microinstruction is the packed word of that
/// microinstruction: no two words unpack to the same one.
pub proof fn lemma_word_decode(word: u64)
    ensures
        MicroCode::decode(word) matches Ok(mc) ==> mc.word() == word,
{
    lemma_pack_unpack(word);
    lemma_of_instruction(Fields::unpack(word));
}

} // verus!
