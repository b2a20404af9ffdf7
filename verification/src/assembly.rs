//! The command that assembles a source file: the order of its stages, and what
//! is reported in the end.

use crate::console::PrintBuffer;
use vstd::prelude::*;
use vstd::utf8::encode_utf8;

verus! {

/// A stage of assembling a source file.
#[derive(Clone, Copy, PartialEq, Eq, Structural, Debug)]
pub enum Stage {
    /// The source text is parsed.
    Parse,
    /// What was parsed is assembled.
    Assemble,
    /// The object file is written.
    Write,
}

/// What to do once a stage has ended.
#[derive(Clone, Copy, PartialEq, Eq, Structural, Debug)]
pub enum Step {
    /// Begin the stage.
    Begin(Stage),
    /// Report why the stage failed, and end.
    Report(Stage),
    /// Announce the object file, and end.
    Announce,
}

/// What to do once the stage has ended, by whether it succeeded.
pub open spec fn step_after(stage: Stage, succeeded: bool) -> Step {
    if !succeeded {
        Step::Report(stage)
    } else {
        match stage {
            Stage::Parse => Step::Begin(Stage::Assemble),
            Stage::Assemble => Step::Begin(Stage::Write),
            Stage::Write => Step::Announce,
        }
    }
}

/// Decides what to do once the stage has ended.
pub fn next_step(stage: Stage, succeeded: bool) -> (step: Step)
    ensures
        step == step_after(stage, succeeded),
{
    if succeeded {
        match stage {
            Stage::Parse => Step::Begin(Stage::Assemble),
            Stage::Assemble => Step::Begin(Stage::Write),
            Stage::Write => Step::Announce,
        }
    } else {
        Step::Report(stage)
    }
}

/// The line that reports that a source file was assembled into an object file.
pub open spec fn assembled_line(source_path: Seq<char>, object_path: Seq<char>) -> Seq<char> {
    "successfully assembled "@ + source_path + " into "@ + object_path + "\n"@
}

/// Prints that a source file was assembled into an object file.
pub fn announce_assembly(buffer: &mut PrintBuffer, source_path: &str, object_path: &str)
    ensures
        final(buffer)@ == old(buffer)@ + encode_utf8(
            assembled_line(source_path@, object_path@),
        ),
{
    let mut line: String = "successfully assembled ".to_owned();
    line.append(source_path);
    line.append(" into ");
    line.append(object_path);
    line.append("\n");
    buffer.write_text(line.as_str());
}

} // verus!
