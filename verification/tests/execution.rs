use lc3_backend::console::{get_and_clear_output, PrintBuffer};
use lc3_backend::execution::{finish_execution, finish_execution_if_located, write_error_line};
use lc3_backend::machine::new_machine;
use lc3_backend::memory::set_mem_value;
use lc3_backend::registers::set_reg_value;
use lc3_backend::text::{append_hex4, same_text};

#[test]
fn success_prints_nothing() {
    let mut sim = new_machine(true);
    let mut buffer = PrintBuffer::new();
    set_mem_value(&mut sim, 0x3000, 0x1021);
    let result = sim.step_in();
    finish_execution(&mut buffer, &sim, result);
    assert!(get_and_clear_output(&mut buffer).is_empty());
}

#[test]
fn an_error_before_the_fetch_is_located() {
    let mut sim = new_machine(true);
    let mut buffer = PrintBuffer::new();
    set_mem_value(&mut sim, 0x3000, 0xD000);
    let result = sim.step_in();
    finish_execution(&mut buffer, &sim, result);
    assert_eq!(
        get_and_clear_output(&mut buffer),
        b"error: simulator executed illegal opcode (instruction x3000)\n".to_vec()
    );
}

#[test]
fn an_error_after_the_fetch_is_located() {
    let mut sim = new_machine(true);
    let mut buffer = PrintBuffer::new();
    // RTI in user mode
    set_mem_value(&mut sim, 0x3ABC, 0x8000);
    set_reg_value(&mut sim, "pc", 0x3ABC);
    let result = sim.step_in();
    assert_eq!(sim.pc, 0x3ABD);
    assert!(finish_execution_if_located(&mut buffer, &sim, result).is_none());
    assert_eq!(
        get_and_clear_output(&mut buffer),
        b"error: privilege violation (instruction x3ABC)\n".to_vec()
    );
}

#[test]
fn an_error_at_address_zero() {
    let mut sim = new_machine(true);
    let mut buffer = PrintBuffer::new();
    set_reg_value(&mut sim, "pc", 0);
    let result = sim.step_in();
    finish_execution(&mut buffer, &sim, result);
    assert_eq!(
        get_and_clear_output(&mut buffer),
        b"error: access violation (instruction x0000)\n".to_vec()
    );
    let result = sim.step_in();
    let left = finish_execution_if_located(&mut buffer, &sim, result);
    assert_eq!(left.unwrap().to_string(), "access violation");
    assert!(get_and_clear_output(&mut buffer).is_empty());
}

#[test]
fn an_error_line_has_four_digits_in_upper_case() {
    assert_eq!(write_error_line("oops", 0x00AF), "error: oops (instruction x00AF)\n");
    assert_eq!(write_error_line("", 0xFFFF), "error:  (instruction xFFFF)\n");
}

#[test]
fn hexadecimal_is_padded() {
    for number in [0u16, 1, 9, 10, 15, 16, 0xFF, 0x100, 0xABC, 0x1234, 0x8000, 0xFEDC, 0xFFFF] {
        let mut text = String::from("x");
        append_hex4(&mut text, number);
        assert_eq!(text, format!("x{:04X}", number));
    }
}

#[test]
fn texts_are_compared() {
    assert!(same_text("", ""));
    assert!(same_text("caf\u{e9}", "caf\u{e9}"));
    assert!(!same_text("a", "b"));
    assert!(!same_text("a", "ab"));
    assert!(!same_text("ab", "a"));
}
