use vstd::prelude::*;

use crate::error::{Error, ErrorKind};

verus! {

/// The characters with the Unicode White_Space property, which is what
/// `char::is_whitespace` and `str::trim` go by.
pub open spec fn is_space(c: char) -> bool {
    let n = c as u32;
    (0x9 <= n && n <= 0xd) || n == 0x20 || n == 0x85 || n == 0xa0 || n == 0x1680
        || (0x2000 <= n && n <= 0x200a) || n == 0x2028 || n == 0x2029 || n == 0x202f
        || n == 0x205f || n == 0x3000
}

/// A value is blank when trimming it leaves nothing: it is empty or all whitespace.
pub open spec fn is_blank(s: Seq<char>) -> bool {
    forall|i: int| 0 <= i < s.len() ==> #[trigger] is_space(s[i])
}

/// `e` is the error that names the argument `name` as blank.
pub open spec fn is_empty_argument(e: Error, name: Seq<char>) -> bool {
    match e.kind {
        ErrorKind::ArgumentEmpty(n) => n@ == name,
        _ => false,
    }
}

/// Whether `c` is a whitespace character.
pub fn is_space_char(c: char) -> (r: bool)
    ensures
        r == is_space(c),
{
    let n = c as u32;
    (0x9 <= n && n <= 0xd) || n == 0x20 || n == 0x85 || n == 0xa0 || n == 0x1680
        || (0x2000 <= n && n <= 0x200a) || n == 0x2028 || n == 0x2029 || n == 0x202f
        || n == 0x205f || n == 0x3000
}

/// Whether `s` is empty or holds only whitespace.
pub fn is_blank_str(s: &str) -> (r: bool)
    ensures
        r == is_blank(s@),
{
    let n = s.unicode_len();
    let mut i: usize = 0;
    while i < n
        invariant
            n == s@.len(),
            i <= n,
            forall|j: int| 0 <= j < i ==> #[trigger] is_space(s@[j]),
        decreases n - i,
    {
        if !is_space_char(s.get_char(i)) {
            return false;
        }
        i = i + 1;
    }
    true
}

/// Checks that the argument `name` holds more than whitespace, and hands its
/// value back unchanged; a blank value gives `ArgumentEmpty` with the name.
pub fn ensure_not_empty<'a>(name: &str, value: &'a str) -> (r: Result<&'a str, Error>)
    ensures
        is_blank(value@) <==> r is Err,
        r is Ok ==> r->Ok_0@ == value@,
        r is Err ==> is_empty_argument(r->Err_0, name@),
{
    if is_blank_str(value) {
        Err(Error::new(ErrorKind::ArgumentEmpty(String::from_str(name))))
    } else {
        Ok(value)
    }
}

} // verus!
