use lc3_backend::breakpoints::set_breakpoint;
use lc3_backend::console::{get_and_clear_output, PrintBuffer};
use lc3_backend::machine::{
    load_blocks, load_object_file, new_machine, randomize_machine, reinitialize_machine, Block,
};
use lc3_backend::memory::{get_mem_value, set_mem_value};
use lc3_backend::registers::{get_reg_value, set_reg_value};
use lc3_ensemble::ast::reg_consts::{R0, R1, R2, R3, R4, R5, R6, R7};
use lc3_ensemble::sim::io::{BiChannelIO, Stop};
use lc3_ensemble::sim::Simulator;
use std::sync::Arc;

#[test]
fn a_zeroed_machine_holds_zero() {
    let mut sim = new_machine(true);
    for name in ["r0", "r1", "r2", "r3", "r4", "r5", "r6", "r7"] {
        assert_eq!(get_reg_value(&sim, name).data, 0);
    }
    for addr in 0x3000..=0xFFFF {
        assert_eq!(get_mem_value(&mut sim, addr), 0);
    }
    assert_eq!(get_reg_value(&sim, "pc").data, 0x3000);
    assert_eq!(get_reg_value(&sim, "psr").data, 0x8002);
    // the operating system is there
    assert_ne!(get_mem_value(&mut sim, 0x0025), 0);
}

#[test]
fn fresh_machines_have_the_same_operating_system() {
    let zeroed = reinitialize_machine();
    let random = randomize_machine();
    for addr in 0..=0xFFFF {
        let (left, right) = (zeroed.mem.get_raw(addr), random.mem.get_raw(addr));
        assert_eq!(left.is_init(), right.is_init());
        if left.is_init() {
            assert_eq!(left.get(), right.get());
        } else {
            assert_eq!(left.get(), 0);
        }
        if addr < 0x0200 {
            assert!(left.is_init());
        }
        if addr >= 0x3000 {
            assert!(!left.is_init());
        }
    }
    for register in [R0, R1, R2, R3, R4, R5, R6, R7] {
        assert!(!zeroed.reg_file[register].is_init());
        assert!(!random.reg_file[register].is_init());
    }
    // bad traps share a handler, and a trap for output has its own
    assert_eq!(zeroed.mem.get_raw(0x0000).get(), 0x0200);
    assert_eq!(zeroed.mem.get_raw(0x00FF).get(), 0x0200);
    assert_ne!(zeroed.mem.get_raw(0x0021).get(), 0x0200);
    assert_ne!(zeroed.mem.get_raw(0x0021).get(), zeroed.mem.get_raw(0x0022).get());
}

#[test]
fn loading_keeps_the_operating_system() {
    let mut buffer = PrintBuffer::new();
    let blocks = vec![Block::new(0x0021, vec![Some(0x4000)]).unwrap()];
    let sim = load_object_file(&mut buffer, "trap.obj", Some(&blocks)).unwrap();
    let fresh = reinitialize_machine();
    for addr in 0..0x3000 {
        let (word, system) = (sim.mem.get_raw(addr), fresh.mem.get_raw(addr));
        assert_eq!(word.is_init(), system.is_init());
        if addr == 0x0021 {
            assert_eq!(word.get(), 0x4000);
        } else if system.is_init() {
            assert_eq!(word.get(), system.get());
        }
    }
}

#[test]
fn a_loaded_program_prints_through_the_operating_system() {
    // LEA R0, #2; PUTS; HALT; "hi"
    let words = vec![Some(0xE002), Some(0xF022), Some(0xF025), Some(0x68), Some(0x69), Some(0)];
    let blocks = vec![Block::new(0x3000, words).unwrap()];
    let mut buffer = PrintBuffer::new();
    let mut sim = load_object_file(&mut buffer, "print.obj", Some(&blocks)).unwrap();
    let (sender, receiver) = std::sync::mpsc::channel();
    let control = Arc::clone(sim.mcr());
    sim.open_io(BiChannelIO::new(
        || Err(Stop),
        move |byte| sender.send(byte).map_err(|_| Stop),
        control,
    ));
    assert!(sim.run().is_ok());
    sim.close_io();
    assert_eq!(receiver.iter().collect::<Vec<u8>>(), b"hi".to_vec());
}

#[test]
fn placing_blocks_again_changes_nothing() {
    let blocks = vec![
        Block::new(0x3000, vec![Some(1), Some(2), None]).unwrap(),
        Block::new(0x3001, vec![None, Some(4)]).unwrap(),
    ];
    let mut sim = new_machine(true);
    load_blocks(&mut sim, &blocks);
    load_blocks(&mut sim, &blocks);
    assert_eq!(sim.mem.get_raw(0x3000).get(), 1);
    assert_eq!(sim.mem.get_raw(0x3001).get(), 2);
    assert_eq!(sim.mem.get_raw(0x3002).get(), 4);
    assert!(sim.mem.get_raw(0x3000).is_init());
    assert!(!sim.mem.get_raw(0x3001).is_init());
    assert!(sim.mem.get_raw(0x3002).is_init());
    assert!(!sim.mem.get_raw(0x3003).is_init());
}

#[test]
fn a_random_machine_does_not_hold_one_value() {
    let mut sim = new_machine(false);
    let first = get_mem_value(&mut sim, 0x3000);
    assert!((0x3001..0xFE00).any(|addr| get_mem_value(&mut sim, addr) != first));
}

#[test]
fn reinitializing_starts_over_with_zero() {
    let mut sim = reinitialize_machine();
    assert!(sim.breakpoints.is_empty());
    assert_eq!(get_reg_value(&sim, "pc").data, 0x3000);
    assert_eq!(get_reg_value(&sim, "r3").data, 0);
    assert_eq!(get_mem_value(&mut sim, 0x5000), 0);
    assert_eq!(get_mem_value(&mut sim, 0xFDFF), 0);
}

#[test]
fn randomizing_starts_over_with_random_data() {
    let mut sim = randomize_machine();
    assert!(sim.breakpoints.is_empty());
    assert_eq!(get_reg_value(&sim, "pc").data, 0x3000);
    assert!((0x3000..0xFE00).any(|addr| get_mem_value(&mut sim, addr) != 0));
}

#[test]
fn a_machine_keeps_how_its_words_are_created() {
    let mut zeroed = reinitialize_machine();
    set_mem_value(&mut zeroed, 0x4000, 5);
    zeroed.reset();
    assert!((0x3000..=0xFFFF).all(|addr| zeroed.mem.get_raw(addr).get() == 0));

    let mut buffer = PrintBuffer::new();
    let loaded = load_object_file(&mut buffer, "empty.obj", Some(&vec![])).unwrap();
    for mut random in [randomize_machine(), new_machine(false), loaded] {
        let words = |sim: &Simulator| -> Vec<u16> {
            (0x3000..=0xFFFF).map(|addr| sim.mem.get_raw(addr).get()).collect()
        };
        let before = words(&random);
        random.reset();
        let after = words(&random);
        assert_ne!(before, after);
        assert!(after.iter().any(|word| *word != after[0]));
    }
}

#[test]
fn a_block_has_fewer_words_than_memory() {
    assert!(Block::new(0x3000, vec![]).is_some());
    assert!(Block::new(0x3000, vec![Some(1); 0xFFFF]).is_some());
    assert!(Block::new(0x3000, vec![Some(1); 0x1_0000]).is_none());
}

#[test]
fn loading_places_the_words_of_a_program() {
    // AND R0, R0, #0; ADD R0, R0, #7; HALT; data; a word left free
    let words = vec![Some(0x5020), Some(0x1027), Some(0xF025), Some(0x1234), None];
    let blocks = vec![Block::new(0x3000, words).unwrap()];
    let mut buffer = PrintBuffer::new();
    let mut sim = load_object_file(&mut buffer, "program.obj", Some(&blocks)).unwrap();
    assert!(get_and_clear_output(&mut buffer).is_empty());
    assert!(sim.breakpoints.is_empty());
    assert_eq!(get_reg_value(&sim, "pc").data, 0x3000);
    assert_eq!(get_mem_value(&mut sim, 0x3000), 0x5020);
    assert_eq!(get_mem_value(&mut sim, 0x3001), 0x1027);
    assert_eq!(get_mem_value(&mut sim, 0x3002), 0xF025);
    assert_eq!(get_mem_value(&mut sim, 0x3003), 0x1234);
    assert!(sim.run().is_ok());
    assert_eq!(get_reg_value(&sim, "r0").data, 7);
    assert_eq!(get_reg_value(&sim, "pc").data, 0x3002);
}

#[test]
fn loading_wraps_around_the_end_of_memory() {
    let mut buffer = PrintBuffer::new();
    let blocks = vec![Block::new(0xFFFF, vec![Some(1), Some(2), Some(3)]).unwrap()];
    let mut sim = load_object_file(&mut buffer, "wrap.obj", Some(&blocks)).unwrap();
    assert_eq!(sim.mem.get_raw(0xFFFF).get(), 1);
    assert_eq!(get_mem_value(&mut sim, 0x0000), 2);
    assert_eq!(get_mem_value(&mut sim, 0x0001), 3);
}

#[test]
fn a_later_block_goes_over_an_earlier_one() {
    let mut buffer = PrintBuffer::new();
    let blocks = vec![
        Block::new(0x3000, vec![Some(1), Some(2), Some(3)]).unwrap(),
        Block::new(0x3001, vec![Some(20), None]).unwrap(),
    ];
    let mut sim = load_object_file(&mut buffer, "overlap.obj", Some(&blocks)).unwrap();
    assert_eq!(get_mem_value(&mut sim, 0x3000), 1);
    assert_eq!(get_mem_value(&mut sim, 0x3001), 20);
    assert_eq!(get_mem_value(&mut sim, 0x3002), 3);
    assert!(!sim.mem.get_raw(0x3002).is_init());
}

#[test]
fn blocks_leave_the_rest_of_the_machine() {
    let mut sim = new_machine(true);
    set_breakpoint(&mut sim, 0x3001);
    set_reg_value(&mut sim, "r2", 3);
    set_mem_value(&mut sim, 0x3001, 4);
    load_blocks(&mut sim, &vec![Block::new(0x3000, vec![Some(1), None]).unwrap()]);
    assert_eq!(sim.breakpoints.len(), 1);
    assert_eq!(get_reg_value(&sim, "r2").data, 3);
    assert_eq!(get_mem_value(&mut sim, 0x3000), 1);
    assert_eq!(get_mem_value(&mut sim, 0x3001), 4);
}

#[test]
fn an_object_file_that_cannot_be_read_is_reported() {
    let mut buffer = PrintBuffer::new();
    buffer.write_text("before\n");
    assert!(load_object_file(&mut buffer, "/tmp/bad.obj", None).is_none());
    assert_eq!(
        get_and_clear_output(&mut buffer),
        b"before\nerror: malformed object file /tmp/bad.obj\n".to_vec()
    );
}
