use micro_arch::micro_code::{AluOp, Branch, MemOp, MicroCode, Register, RegisterOrSwitch, ShiftOp};

#[test]
fn register_labels() {
    assert_eq!(Register::Nop.to_string(), "");
    assert_eq!(Register::R0.to_string(), "R0");
    assert_eq!(Register::R1.to_string(), "R1");
    assert_eq!(Register::R2.to_string(), "R2");
    assert_eq!(Register::R3.to_string(), "R3");
    assert_eq!(Register::R4.to_string(), "R4");
    assert_eq!(Register::R5.to_string(), "R5");
    assert_eq!(Register::R6.to_string(), "R6");
    assert_eq!(Register::Pc.to_string(), "PC");
    assert_eq!(Register::Ir.to_string(), "IR");
    assert_eq!(Register::Mdr.to_string(), "MDR");
    assert_eq!(Register::Mar.to_string(), "MAR");
    assert_eq!(Register::Str.to_string(), "STR");
}

#[test]
fn bus_source_labels() {
    assert_eq!(RegisterOrSwitch::Sw1.to_string(), "Sw1");
    assert_eq!(RegisterOrSwitch::Sw2.to_string(), "Sw2");
    assert_eq!(RegisterOrSwitch::Register(Register::Nop).to_string(), "");
    assert_eq!(RegisterOrSwitch::Register(Register::R4).to_string(), "R4");
    assert_eq!(RegisterOrSwitch::Register(Register::Mdr).to_string(), "MDR");
}

#[test]
fn alu_labels() {
    assert_eq!(AluOp::XPlusY.to_string(), "X+Y");
    assert_eq!(AluOp::XMinusY.to_string(), "X-Y");
    assert_eq!(AluOp::XAndY.to_string(), "X&Y");
    assert_eq!(AluOp::XorY.to_string(), "X|Y");
    assert_eq!(AluOp::XxorY.to_string(), "X^Y");
    assert_eq!(AluOp::XPlus1.to_string(), "X+1");
    assert_eq!(AluOp::XMinus1.to_string(), "X-1");
}

#[test]
fn shift_labels() {
    assert_eq!(ShiftOp::Nop.to_string(), "");
    assert_eq!(ShiftOp::RRwC.to_string(), "RRwC");
    assert_eq!(ShiftOp::RlwC.to_string(), "RLwC");
    assert_eq!(ShiftOp::SRL.to_string(), "SRL");
    assert_eq!(ShiftOp::SLL.to_string(), "SLL");
    assert_eq!(ShiftOp::SRA.to_string(), "SRA");
    assert_eq!(ShiftOp::SLA.to_string(), "SLA");
}

#[test]
fn memory_labels() {
    assert_eq!(MemOp::Nop.to_string(), "");
    assert_eq!(MemOp::R.to_string(), "R");
    assert_eq!(MemOp::W.to_string(), "W");
}

#[test]
fn branch_labels() {
    assert_eq!(Branch::Plus1.to_string(), "+1");
    assert_eq!(Branch::J.to_string(), "J");
    assert_eq!(Branch::JM.to_string(), "JM");
    assert_eq!(Branch::JZ.to_string(), "JZ");
    assert_eq!(Branch::JC.to_string(), "JC");
    assert_eq!(Branch::JV.to_string(), "JV");
    assert_eq!(Branch::JI.to_string(), "JI");
}

#[test]
fn the_idle_microinstruction_selects_nothing() {
    let idle = MicroCode::nop();
    assert_eq!(idle.x_bus, RegisterOrSwitch::Register(Register::Nop));
    assert_eq!(idle.y_bus, RegisterOrSwitch::Register(Register::Nop));
    assert_eq!(idle.alu, AluOp::XPlusY);
    assert_eq!(idle.sft, ShiftOp::Nop);
    assert!(!idle.sin);
    assert!(!idle.fl);
    assert_eq!(idle.z_bus, Register::Nop);
    assert_eq!(idle.mem, MemOp::Nop);
    assert_eq!(idle.branch, Branch::Plus1);
    assert!(!idle.hlt);
    assert_eq!(idle.addr, 0);
}
