//! What is made of a line that a user typed in answer to a prompt.

use vstd::prelude::*;
use vstd::string::StrSliceExecFns;

verus! {

/// `text` without its last character, if that character is `ending`.
pub open spec fn without_last(text: Seq<char>, ending: char) -> Seq<char> {
    if text.len() > 0 && text.last() == ending {
        text.drop_last()
    } else {
        text
    }
}

/// A line as typed, without the line feed at its end and without the carriage
/// return before that. No more than one of each is taken off, and nothing
/// elsewhere in the line.
pub open spec fn without_line_end(line: Seq<char>) -> Seq<char> {
    without_last(without_last(line, '\n'), '\r')
}

/// Takes the end of the line off a line as typed.
pub fn strip_line_end(line: &str) -> (answer: String)
    ensures
        answer@ == without_line_end(line@),
{
    let mut kept = line.unicode_len();
    if kept > 0 && line.get_char(kept - 1) == '\n' {
        kept = kept - 1;
    }
    proof {
        assert(line@.subrange(0, kept as int) =~= without_last(line@, '\n'));
    }
    if kept > 0 && line.get_char(kept - 1) == '\r' {
        kept = kept - 1;
    }
    proof {
        assert(line@.subrange(0, kept as int) =~= without_line_end(line@));
    }
    line.substring_char(0, kept).to_owned()
}

/// A line that ends in neither a line feed nor a carriage return is left as it is.
pub proof fn lemma_strip_keeps_plain_lines(line: Seq<char>)
    requires
        line.len() == 0 || (line.last() != '\n' && line.last() != '\r'),
    ensures
        without_line_end(line) == line,
{
}

} // verus!
