//! Loading source text line by line.
//!
//! Reading the lines is the program's business; the library decides what a
//! line read from a file holds.

use vstd::prelude::*;

verus! {

/// A line as it was read, line feed included: its length without the line
/// feed, and whether anything was read (nothing is, at the end of the file).
/// A carriage return before the line feed stays in the line.
pub open spec fn line_end(line: Seq<u8>) -> (usize, bool) {
    let len = if line.len() > 0 && line.last() == 10 {
        line.len() - 1
    } else {
        line.len() as int
    };
    (len as usize, line.len() != 0)
}

/// The length of `line` without its line feed, and whether it is not the
/// end of the file.
pub fn load_line_result(line: &[u8]) -> (r: (usize, bool))
    ensures
        r == line_end(line@),
{
    let len = line.len();
    let not_eof = len != 0;
    if len > 0 && line[len - 1] == 10u8 {
        (len - 1, not_eof)
    } else {
        (len, not_eof)
    }
}

} // verus!
