//! The console: what the machine and the commands print, and what is typed.

use vstd::prelude::*;
use vstd::utf8::{encode_scalar, encode_utf8};

verus! {

/// What was printed since the output was last cleared, as bytes: a program
/// prints one byte at a time, which need not be text.
pub struct PrintBuffer {
    bytes: Vec<u8>,
}

impl View for PrintBuffer {
    type V = Seq<u8>;

    closed spec fn view(&self) -> Seq<u8> {
        self.bytes@
    }
}

impl PrintBuffer {
    /// A buffer that holds nothing.
    pub fn new() -> (buffer: Self)
        ensures
            buffer@ == Seq::<u8>::empty(),
    {
        PrintBuffer { bytes: Vec::new() }
    }

    /// Prints bytes.
    pub fn write_bytes(&mut self, bytes: &[u8])
        ensures
            final(self)@ == old(self)@ + bytes@,
    {
        self.bytes.extend_from_slice(bytes);
        proof {
            assert(self.bytes@ =~= old(self).bytes@ + bytes@);
        }
    }

    /// Prints text, in UTF-8.
    pub fn write_text(&mut self, text: &str)
        ensures
            final(self)@ == old(self)@ + encode_utf8(text@),
    {
        self.write_bytes(text.as_bytes());
    }

    /// Takes out what was printed.
    pub fn take(&mut self) -> (bytes: Vec<u8>)
        ensures
            bytes@ == old(self)@,
            final(self)@ == Seq::<u8>::empty(),
    {
        let mut bytes: Vec<u8> = Vec::new();
        std::mem::swap(&mut bytes, &mut self.bytes);
        bytes
    }
}

/// Gives what was printed since the output was last cleared, and clears it.
pub fn get_and_clear_output(buffer: &mut PrintBuffer) -> (bytes: Vec<u8>)
    ensures
        bytes@ == old(buffer)@,
        final(buffer)@ == Seq::<u8>::empty(),
{
    buffer.take()
}

/// Clears the output.
pub fn clear_output(buffer: &mut PrintBuffer)
    ensures
        final(buffer)@ == Seq::<u8>::empty(),
{
    let _ = buffer.take();
}

/// Why typed input was refused.
#[derive(Clone, Copy, PartialEq, Eq, Structural, Debug)]
pub enum InputError {
    /// The input is not a single byte.
    NotOneByte,
}

impl InputError {
    /// What to tell whoever sent the input.
    pub fn message(&self) -> (text: &'static str)
        ensures
            text@ == "more than one byte was sent at once"@,
    {
        "more than one byte was sent at once"
    }
}

/// A text takes up one byte exactly if it is one ASCII character.
pub(crate) proof fn lemma_one_byte(text: Seq<char>)
    ensures
        encode_utf8(text).len() == 1 <==> text.len() == 1 && text[0] <= '\u{7F}',
        encode_utf8(text).len() == 1 ==> encode_utf8(text)[0] == text[0] as u8,
{
    reveal_with_fuel(encode_utf8, 3);
    if text.len() > 0 {
        let first = text[0] as u32;
        vstd::utf8::char_is_scalar(text[0]);
        vstd::utf8::char_u32_cast(text[0], first);
        assert(encode_scalar(first).len() >= 1);
        if text.len() > 1 {
            assert(text.drop_first()[0] == text[1]);
            assert(encode_scalar(text[1] as u32).len() >= 1);
        } else {
            assert(text.drop_first() =~= Seq::<char>::empty());
            if text[0] <= '\u{7F}' {
                vstd::utf8::is_ascii_chars_encode_utf8(text);
            }
        }
    }
}

/// The byte to hand to the machine for the input that was typed: the input is
/// to be a single byte, which is one ASCII character.
pub fn input_byte(input: &str) -> (byte: Result<u8, InputError>)
    ensures
        byte is Ok <==> input@.len() == 1 && input@[0] <= '\u{7F}',
        byte matches Ok(value) ==> value == input@[0] as u8,
        byte matches Err(err) ==> err == InputError::NotOneByte,
{
    let bytes: &[u8] = input.as_bytes();
    proof {
        lemma_one_byte(input@);
    }
    if bytes.len() == 1 {
        Ok(bytes[0])
    } else {
        Err(InputError::NotOneByte)
    }
}

} // verus!
