use lc3_backend::breakpoints::{remove_breakpoint, set_breakpoint};
use lc3_backend::machine::new_machine;
use lc3_backend::memory::set_mem_value;
use lc3_ensemble::ast::reg_consts::R1;
use lc3_ensemble::sim::debug::{Breakpoint, Comparator};

fn at(addr: u16) -> Breakpoint {
    Breakpoint::PC(Comparator::eq(addr))
}

#[test]
fn sets_breakpoints_in_order() {
    let mut sim = new_machine(true);
    set_breakpoint(&mut sim, 0x3005);
    set_breakpoint(&mut sim, 0x3001);
    assert_eq!(sim.breakpoints, vec![at(0x3005), at(0x3001)]);
}

#[test]
fn removes_every_breakpoint_at_the_address_and_no_other() {
    let mut sim = new_machine(true);
    sim.breakpoints.push(at(0x3001));
    sim.breakpoints.push(Breakpoint::PC(Comparator::lt(0x3001)));
    sim.breakpoints.push(at(0x3001));
    sim.breakpoints.push(at(0x3002));
    sim.breakpoints.push(Breakpoint::Reg { reg: R1, value: Comparator::eq(0x3001) });
    sim.breakpoints.push(at(0x3001));
    remove_breakpoint(&mut sim, 0x3001);
    let left = vec![
        Breakpoint::PC(Comparator::lt(0x3001)),
        at(0x3002),
        Breakpoint::Reg { reg: R1, value: Comparator::eq(0x3001) },
    ];
    assert_eq!(sim.breakpoints, left);
    remove_breakpoint(&mut sim, 0x3001);
    assert_eq!(sim.breakpoints, left);
}

#[test]
fn removal_undoes_setting() {
    let mut sim = new_machine(true);
    set_breakpoint(&mut sim, 0x3002);
    set_breakpoint(&mut sim, 0x3001);
    remove_breakpoint(&mut sim, 0x3001);
    assert_eq!(sim.breakpoints, vec![at(0x3002)]);
    remove_breakpoint(&mut sim, 0x4000);
    assert_eq!(sim.breakpoints, vec![at(0x3002)]);
}

#[test]
fn removals_commute() {
    let mut one = new_machine(true);
    let mut two = new_machine(true);
    for addr in [1, 2, 3, 1, 2] {
        set_breakpoint(&mut one, addr);
        set_breakpoint(&mut two, addr);
    }
    remove_breakpoint(&mut one, 1);
    remove_breakpoint(&mut one, 2);
    remove_breakpoint(&mut two, 2);
    remove_breakpoint(&mut two, 1);
    assert_eq!(one.breakpoints, vec![at(3)]);
    assert_eq!(two.breakpoints, vec![at(3)]);
}

#[test]
fn execution_stops_at_a_breakpoint() {
    let mut sim = new_machine(true);
    // ADD R0, R0, #1 twice, then HALT
    set_mem_value(&mut sim, 0x3000, 0x1021);
    set_mem_value(&mut sim, 0x3001, 0x1021);
    set_mem_value(&mut sim, 0x3002, 0xF025);
    set_breakpoint(&mut sim, 0x3001);
    assert!(sim.run().is_ok());
    assert!(sim.hit_breakpoint());
    assert_eq!(sim.pc, 0x3001);
    remove_breakpoint(&mut sim, 0x3001);
    assert!(sim.run().is_ok());
    assert!(!sim.hit_breakpoint());
    assert_eq!(sim.pc, 0x3002);
}
