//! Character and string helpers shared by the protocol code.

use vstd::prelude::*;

verus! {

/// The characters that carry the Unicode `White_Space` property.
pub open spec fn spec_is_whitespace(c: char) -> bool {
    let n: u32 = c as u32;
    ||| 0x09 <= n <= 0x0D
    ||| n == 0x20
    ||| n == 0x85
    ||| n == 0xA0
    ||| n == 0x1680
    ||| 0x2000 <= n <= 0x200A
    ||| n == 0x2028
    ||| n == 0x2029
    ||| n == 0x202F
    ||| n == 0x205F
    ||| n == 0x3000
}

/// A line is blank when every one of its characters is whitespace.
pub open spec fn spec_is_blank(line: Seq<char>) -> bool {
    forall|i: int| 0 <= i < line.len() ==> spec_is_whitespace(#[trigger] line[i])
}

/// Whether `c` has the Unicode `White_Space` property.
pub fn is_whitespace(c: char) -> (r: bool)
    ensures
        r == spec_is_whitespace(c),
{
    let n: u32 = c as u32;
    (0x09 <= n && n <= 0x0D) || n == 0x20 || n == 0x85 || n == 0xA0 || n == 0x1680
        || (0x2000 <= n && n <= 0x200A) || n == 0x2028 || n == 0x2029 || n == 0x202F
        || n == 0x205F || n == 0x3000
}

/// Whether every character of `line` is whitespace (an empty line is blank).
pub fn is_blank(line: &str) -> (r: bool)
    ensures
        r == spec_is_blank(line@),
{
    broadcast use vstd::string::group_string_axioms;
    let mut blank: bool = true;
    for c in it: line.chars()
        invariant
            it.seq() == line@,
            blank == (forall|j: int| 0 <= j < it.index() ==> spec_is_whitespace(#[trigger] line@[j])),
    {
        if !is_whitespace(c) {
            blank = false;
        }
    }
    blank
}

/// Equality of two string slices by their characters.
pub fn str_eq(a: &str, b: &str) -> (r: bool)
    ensures
        r == (a@ == b@),
{
    let x: String = a.to_owned();
    let y: String = b.to_owned();
    x == y
}

} // verus!
