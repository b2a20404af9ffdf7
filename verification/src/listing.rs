//! The command that shows the source line of a memory location.

use vstd::prelude::*;
use vstd::utf8::{
    encode_utf8, encode_utf8_valid_utf8, is_char_boundary,
    is_char_boundary_iff_not_is_continuation_byte, is_char_boundary_start_end_of_seq,
};

verus! {

/// Whether the bytes from `start` to `end` of a text are a text.
pub open spec fn is_piece(text: Seq<char>, start: int, end: int) -> bool {
    &&& start <= end
    &&& is_char_boundary(encode_utf8(text), start)
    &&& is_char_boundary(encode_utf8(text), end)
}

/// Shows the source line of a memory location, for which a source text was found
/// and where in it, in bytes, the line starts and ends. Where nothing was found,
/// the line is empty.
pub fn get_mem_line(found: Option<(&str, usize, usize)>) -> (line: String)
    requires
        found matches Some((source, start, end)) ==> is_piece(source@, start as int, end as int),
    ensures
        found is None ==> line@ == Seq::<char>::empty(),
        found matches Some((source, start, end)) ==> encode_utf8(line@) == encode_utf8(
            source@,
        ).subrange(start as int, end as int),
{
    match found {
        Some((source, start, end)) => {
            let (head, _): (&str, &str) = source.split_at(end);
            proof {
                let whole = encode_utf8(source@);
                let until = encode_utf8(head@);
                encode_utf8_valid_utf8(source@);
                encode_utf8_valid_utf8(head@);
                assert(until == whole.subrange(0, end as int));
                if start < end {
                    assert(until[start as int] == whole[start as int]);
                    is_char_boundary_iff_not_is_continuation_byte(whole, start as int);
                    is_char_boundary_iff_not_is_continuation_byte(until, start as int);
                } else {
                    is_char_boundary_start_end_of_seq(until);
                }
            }
            let (_, line): (&str, &str) = head.split_at(start);
            proof {
                assert(encode_utf8(line@) =~= encode_utf8(source@).subrange(
                    start as int,
                    end as int,
                ));
            }
            line.to_owned()
        },
        None => String::new(),
    }
}

} // verus!
