use lc3_backend::listing::get_mem_line;

#[test]
fn nothing_found_shows_an_empty_line() {
    assert_eq!(get_mem_line(None), "");
}

#[test]
fn a_line_is_cut_out_of_the_source() {
    let source = "caf\u{e9}\n  ADD R0, R0, #1\n";
    assert_eq!(get_mem_line(Some((source, 0, 5))), "caf\u{e9}");
    assert_eq!(get_mem_line(Some((source, 8, 22))), "ADD R0, R0, #1");
    assert_eq!(get_mem_line(Some((source, 8, 22))), "ADD R0, R0, #1");
    assert_eq!(get_mem_line(Some((source, 6, 6))), "");
    assert_eq!(get_mem_line(Some((source, 0, source.len()))), source);
}
