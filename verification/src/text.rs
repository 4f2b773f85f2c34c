//! Lists of text lines and their views.

use vstd::prelude::*;

verus! {

/// The texts of a list of lines.
pub open spec fn texts(lines: Seq<String>) -> Seq<Seq<char>> {
    Seq::new(lines.len(), |i: int| lines[i]@)
}

/// Appends a copy of `line` to `lines`.
pub fn push_line(lines: &mut Vec<String>, line: &str)
    ensures
        texts(final(lines)@) == texts(old(lines)@).push(line@),
        final(lines)@.len() == old(lines)@.len() + 1,
{
    lines.push(line.to_string());
}

} // verus!
