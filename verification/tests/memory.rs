use lc3_backend::machine::new_machine;
use lc3_backend::memory::{get_mem_value, set_mem_value};
use lc3_backend::registers::get_reg_value;
use lc3_ensemble::sim::io::{BiChannelIO, Stop};
use std::sync::atomic::Ordering;
use std::sync::Arc;

#[test]
fn reads_back_what_was_set() {
    let mut sim = new_machine(true);
    let written = set_mem_value(&mut sim, 0x3000, 0x1021);
    assert_eq!((written.addr(), written.data()), (0x3000, 0x1021));
    assert_eq!(get_mem_value(&mut sim, 0x3000), 0x1021);
    assert_eq!(sim.mem.get_raw(0x3000).get(), 0x1021);
    assert!(sim.mem.get_raw(0x3000).is_init());
    assert!(!sim.mem.get_raw(0x3001).is_init());
    assert_eq!(get_mem_value(&mut sim, 0x2FFF), 0);
    assert_eq!(get_mem_value(&mut sim, 0x3001), 0);
}

#[test]
fn reaches_supervisor_space() {
    let mut sim = new_machine(true);
    set_mem_value(&mut sim, 0x0000, 0xABCD);
    assert_eq!(get_mem_value(&mut sim, 0x0000), 0xABCD);
    assert_eq!(get_mem_value(&mut sim, 0xFDFF), 0);
}

#[test]
fn leaves_registers_and_breakpoints() {
    let mut sim = new_machine(true);
    set_mem_value(&mut sim, 0x4000, 9);
    assert_eq!(get_reg_value(&sim, "r0").data, 0);
    assert_eq!(get_reg_value(&sim, "pc").data, 0x3000);
    assert!(sim.breakpoints.is_empty());
}

#[test]
fn nothing_listens_at_a_device_address_of_a_fresh_machine() {
    let mut sim = new_machine(true);
    set_mem_value(&mut sim, 0xFE06, 0x41);
    assert_eq!(get_mem_value(&mut sim, 0xFE06), 0);
    assert_eq!(get_mem_value(&mut sim, 0xFFFF), 0);
}

#[test]
fn a_device_gives_and_takes_data() {
    let mut sim = new_machine(true);
    let control = Arc::clone(sim.mcr());
    sim.open_io(BiChannelIO::new(|| Err(Stop), |_| Ok(()), control));
    assert_eq!(get_mem_value(&mut sim, 0xFFFE), 0);
    set_mem_value(&mut sim, 0xFFFE, 0x8000);
    assert!(sim.mcr().load(Ordering::Relaxed));
    assert_eq!(get_mem_value(&mut sim, 0xFFFE), 0x8000);
    let written = set_mem_value(&mut sim, 0xFE06, 0x41);
    assert_eq!((written.addr(), written.data()), (0xFE06, 0x41));
    assert_eq!(sim.mem.get_raw(0xFE06).get(), 0x41);
    set_mem_value(&mut sim, 0xFFFE, 1);
    assert_eq!(get_mem_value(&mut sim, 0xFFFE), 0);
}
