//! What is reported when an execution ends.

use crate::console::PrintBuffer;
use crate::ensemble::{
    can_locate, describe_error, error_text, instruction_address, machine, pc,
};
use crate::text::{append_hex4, hex4};
use lc3_ensemble::sim::{SimErr, Simulator};
use vstd::prelude::*;
use vstd::utf8::encode_utf8;

verus! {

/// The line that reports an error of the instruction at the address.
pub open spec fn error_line(description: Seq<char>, addr: u16) -> Seq<char> {
    "error: "@ + description + " (instruction x"@ + hex4(addr) + ")\n"@
}

/// Writes the line that reports an error of the instruction at the address.
pub fn write_error_line(description: &str, addr: u16) -> (line: String)
    ensures
        line@ == error_line(description@, addr),
{
    let mut line: String = "error: ".to_owned();
    line.append(description);
    line.append(" (instruction x");
    append_hex4(&mut line, addr);
    line.append(")\n");
    line
}

/// Ends an execution: an error is printed together with the address of the
/// instruction that raised it, and success prints nothing.
pub fn finish_execution(
    buffer: &mut PrintBuffer,
    sim: &Simulator,
    result: Result<(), SimErr>,
)
    requires
        result is Err ==> can_locate(machine(*sim)),
    ensures
        result is Ok ==> final(buffer)@ == old(buffer)@,
        result matches Err(err) ==> final(buffer)@ == old(buffer)@ + encode_utf8(
            error_line(error_text(err), instruction_address(machine(*sim)) as u16),
        ),
{
    if let Err(err) = result {
        let addr: u16 = sim.prefetch_pc();
        let description: String = describe_error(&err);
        let line: String = write_error_line(description.as_str(), addr);
        buffer.write_text(line.as_str());
    }
}

/// Ends an execution as `finish_execution` does, unless the error's address
/// cannot be told from the program counter alone: with the program counter at
/// 0, nothing is printed and the error is given back.
pub fn finish_execution_if_located(
    buffer: &mut PrintBuffer,
    sim: &Simulator,
    result: Result<(), SimErr>,
) -> (left: Option<SimErr>)
    ensures
        left == (if machine(*sim).pc == 0 {
            result.err()
        } else {
            None
        }),
        result is Ok || left is Some ==> final(buffer)@ == old(buffer)@,
        left is None ==> (result matches Err(err) ==> final(buffer)@ == old(buffer)@ + encode_utf8(
            error_line(error_text(err), instruction_address(machine(*sim)) as u16),
        )),
{
    if pc(sim) == 0 {
        result.err()
    } else {
        finish_execution(buffer, sim, result);
        None
    }
}

} // verus!
