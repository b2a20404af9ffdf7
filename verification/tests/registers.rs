use lc3_backend::machine::new_machine;
use lc3_backend::registers::{
    control_word, control_word_runs, find_register, get_reg_value, set_reg_value, Register,
};
use lc3_ensemble::ast::reg_consts::{R0, R5, R7};
use lc3_ensemble::sim::mem::WordCreateStrategy;
use lc3_ensemble::sim::Simulator;
use std::sync::atomic::Ordering;

#[test]
fn finds_every_register_by_name() {
    let names = ["r0", "r1", "r2", "r3", "r4", "r5", "r6", "r7"];
    for (index, name) in names.iter().enumerate() {
        assert_eq!(find_register(name), Some(Register::General(index as u8)));
    }
    assert_eq!(find_register("pc"), Some(Register::Pc));
    assert_eq!(find_register("psr"), Some(Register::Psr));
    assert_eq!(find_register("mcr"), Some(Register::Mcr));
}

#[test]
fn finds_no_register_under_another_name() {
    for name in ["", "r", "r8", "R0", "PC", "r00", "pc ", "\u{e9}"] {
        assert_eq!(find_register(name), None);
    }
}

#[test]
fn reads_what_the_simulator_holds() {
    let mut sim = Simulator::new(WordCreateStrategy::Known(0x1234));
    sim.reg_file[R0].set(7);
    sim.reg_file[R7].set(0xFFFF);
    sim.pc = 0x4321;
    assert_eq!(get_reg_value(&sim, "r0").data, 7);
    assert_eq!(get_reg_value(&sim, "r1").data, 0x1234);
    assert_eq!(get_reg_value(&sim, "r7").data, 0xFFFF);
    assert_eq!(get_reg_value(&sim, "pc").data, 0x4321);
    assert_eq!(get_reg_value(&sim, "psr").data, 0x8002);
}

#[test]
fn reads_the_machine_control_register() {
    let sim = new_machine(true);
    let read = get_reg_value(&sim, "mcr");
    assert_eq!(read.data, 0x0000);
    assert!(!read.loaded.unwrap().running());
    sim.mcr().store(true, Ordering::Relaxed);
    let read = get_reg_value(&sim, "mcr");
    assert_eq!(read.data, 0x8000);
    assert!(read.loaded.unwrap().running());
    assert!(get_reg_value(&sim, "pc").loaded.is_none());
    assert!(get_reg_value(&sim, "r0").loaded.is_none());
}

#[test]
fn sets_one_register_and_no_other() {
    let mut sim = new_machine(true);
    assert!(set_reg_value(&mut sim, "r5", 0xBEEF).is_none());
    assert_eq!(sim.reg_file[R5].get(), 0xBEEF);
    assert!(sim.reg_file[R5].is_init());
    assert!(!sim.reg_file[R0].is_init());
    assert_eq!(get_reg_value(&sim, "r5").data, 0xBEEF);
    for other in ["r0", "r1", "r2", "r3", "r4", "r6", "r7"] {
        assert_eq!(get_reg_value(&sim, other).data, 0);
    }
    assert_eq!(get_reg_value(&sim, "pc").data, 0x3000);
    set_reg_value(&mut sim, "pc", 0x5000);
    assert_eq!(sim.pc, 0x5000);
    assert_eq!(get_reg_value(&sim, "r5").data, 0xBEEF);
}

#[test]
fn reads_the_same_again() {
    let sim = new_machine(false);
    for name in ["r0", "r1", "r2", "r3", "r4", "r5", "r6", "r7", "pc", "psr", "mcr"] {
        assert_eq!(get_reg_value(&sim, name).data, get_reg_value(&sim, name).data);
    }
}

#[test]
fn leaves_the_machine_control_register() {
    let mut sim = new_machine(true);
    for running in [0x8000, 0] {
        set_reg_value(&mut sim, "mcr", running);
        for name in ["r0", "r1", "r2", "r3", "r4", "r5", "r6", "r7", "pc"] {
            set_reg_value(&mut sim, name, !running);
            assert_eq!(get_reg_value(&sim, "mcr").data, running);
        }
    }
}

#[test]
fn sets_every_general_purpose_register() {
    let mut sim = new_machine(true);
    let names = ["r0", "r1", "r2", "r3", "r4", "r5", "r6", "r7"];
    for (index, name) in names.iter().enumerate() {
        set_reg_value(&mut sim, name, 100 + index as u16);
    }
    for (index, name) in names.iter().enumerate() {
        assert_eq!(get_reg_value(&sim, name).data, 100 + index as u16);
    }
}

#[test]
fn sets_the_machine_control_register_by_its_highest_bit() {
    let mut sim = new_machine(true);
    let stored = set_reg_value(&mut sim, "mcr", 0x8000);
    assert!(stored.unwrap().running());
    assert!(sim.mcr().load(Ordering::Relaxed));
    let stored = set_reg_value(&mut sim, "mcr", 0x7FFF);
    assert!(!stored.unwrap().running());
    assert!(!sim.mcr().load(Ordering::Relaxed));
    set_reg_value(&mut sim, "mcr", 0xFFFF);
    assert_eq!(get_reg_value(&sim, "mcr").data, 0x8000);
}

#[test]
fn converts_the_machine_control_flag() {
    assert_eq!(control_word(true), 0x8000);
    assert_eq!(control_word(false), 0);
    assert!(control_word_runs(0x8000));
    assert!(!control_word_runs(0x7FFF));
    assert!(!control_word_runs(0));
    assert!(control_word_runs(control_word(true)));
    assert!(!control_word_runs(control_word(false)));
    for data in [0u16, 1, 0x7FFF, 0x8000, 0x8001, 0xFFFF] {
        assert_eq!(control_word(control_word_runs(data)), data & 0x8000);
    }
}
