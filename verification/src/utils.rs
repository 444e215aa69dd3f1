//! Small helpers on text.
use vstd::prelude::*;

use crate::text::{chars_of, string_from_chars};

verus! {

/// Removes one trailing newline from `line`, if it ends with one.
pub fn pop_newline(line: &mut String)
    ensures
        final(line)@ == (if old(line)@.len() > 0 && old(line)@.last() == '\n' {
            old(line)@.drop_last()
        } else {
            old(line)@
        }),
{
    let mut chars = chars_of(line.as_str());
    let n = chars.len();
    if n > 0 && chars[n - 1] == '\n' {
        let _ = chars.pop();
        *line = string_from_chars(&chars);
    }
}

} // verus!
