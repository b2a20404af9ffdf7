use lc3_backend::console::{
    clear_output, get_and_clear_output, input_byte, InputError, PrintBuffer,
};

#[test]
fn output_comes_in_order_and_once() {
    let mut buffer = PrintBuffer::new();
    buffer.write_text("caf\u{e9} ");
    buffer.write_bytes(&[0xFF, 0x00]);
    buffer.write_text("!");
    assert_eq!(
        get_and_clear_output(&mut buffer),
        vec![b'c', b'a', b'f', 0xC3, 0xA9, b' ', 0xFF, 0x00, b'!']
    );
    assert!(get_and_clear_output(&mut buffer).is_empty());
}

#[test]
fn printing_in_pieces_is_printing_at_once() {
    let mut pieces = PrintBuffer::new();
    let mut whole = PrintBuffer::new();
    pieces.write_text("\u{1F600}a");
    pieces.write_text("b\u{e9}");
    whole.write_text("\u{1F600}ab\u{e9}");
    assert_eq!(pieces.take(), whole.take());
}

#[test]
fn cleared_output_is_gone() {
    let mut buffer = PrintBuffer::new();
    buffer.write_text("text");
    clear_output(&mut buffer);
    assert!(get_and_clear_output(&mut buffer).is_empty());
    buffer.write_text("more");
    assert_eq!(get_and_clear_output(&mut buffer), b"more".to_vec());
}

#[test]
fn one_byte_is_accepted() {
    assert_eq!(input_byte("a"), Ok(b'a'));
    assert_eq!(input_byte("\n"), Ok(10));
    assert_eq!(input_byte("\u{0}"), Ok(0));
    assert_eq!(input_byte("\u{7f}"), Ok(0x7F));
}

#[test]
fn anything_but_one_byte_is_refused() {
    for input in ["", "ab", "\u{80}", "\u{e9}", "\u{1F600}"] {
        assert_eq!(input_byte(input), Err(InputError::NotOneByte));
    }
    assert_eq!(InputError::NotOneByte.message(), "more than one byte was sent at once");
}
