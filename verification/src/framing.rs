//! Line framing: every message is one line of text, closed by a newline.

use vstd::prelude::*;
use vstd::string::{StrSliceExecFns, StringExecFns};

verus! {

/// Whether `text` is closed by a newline.
pub open spec fn is_full_line(text: Seq<char>) -> bool {
    text.len() > 0 && text.last() == '\n'
}

/// Whether `text` holds no newline, so that it fits on one line.
pub open spec fn is_single_line(text: Seq<char>) -> bool {
    forall|i: int| 0 <= i < text.len() ==> text[i] != '\n'
}

/// Says whether `text` is closed by a newline.
pub fn ends_line(text: &str) -> (full: bool)
    ensures
        full == is_full_line(text@),
{
    let length: usize = text.unicode_len();
    length > 0 && text.get_char(length - 1) == '\n'
}

/// Closes a serialized message with a newline, ready to be written. A
/// message that holds a newline itself would arrive as two lines, and is
/// refused.
pub fn frame(body: &str) -> (line: Option<String>)
    ensures
        is_single_line(body@) ==> line is Some && line->0@ == body@.push('\n'),
        !is_single_line(body@) ==> line is None,
{
    let length: usize = body.unicode_len();
    let mut index: usize = 0;
    while index < length
        invariant
            length == body@.len(),
            index <= length,
            forall|i: int| 0 <= i < index ==> body@[i] != '\n',
        decreases length - index,
    {
        if body.get_char(index) == '\n' {
            return None;
        }
        index = index + 1;
    }
    let mut line: String = String::from_str(body);
    line.append("\n");
    proof {
        reveal_strlit("\n");
        assert(line@ =~= body@.push('\n'));
    }
    Some(line)
}

} // verus!
