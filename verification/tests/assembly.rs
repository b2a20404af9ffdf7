use lc3_backend::assembly::{announce_assembly, next_step, Stage, Step};
use lc3_backend::console::{get_and_clear_output, PrintBuffer};

#[test]
fn stages_follow_each_other() {
    assert_eq!(next_step(Stage::Parse, true), Step::Begin(Stage::Assemble));
    assert_eq!(next_step(Stage::Assemble, true), Step::Begin(Stage::Write));
    assert_eq!(next_step(Stage::Write, true), Step::Announce);
}

#[test]
fn a_stage_that_failed_is_reported() {
    for stage in [Stage::Parse, Stage::Assemble, Stage::Write] {
        assert_eq!(next_step(stage, false), Step::Report(stage));
    }
}

#[test]
fn an_object_file_is_announced() {
    let mut buffer = PrintBuffer::new();
    announce_assembly(&mut buffer, "/tmp/a.s", "/tmp/a.obj");
    assert_eq!(
        get_and_clear_output(&mut buffer),
        b"successfully assembled /tmp/a.s into /tmp/a.obj\n".to_vec()
    );
}
