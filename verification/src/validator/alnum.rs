use vstd::prelude::*;
use vstd::string::StrSliceExecFns;

use crate::validator::Validate;

verus! {

/// An ASCII letter or digit.
pub open spec fn is_alnum_char(c: char) -> bool {
    (48 <= c as u32 && c as u32 <= 57)  // '0'..'9'
    || (65 <= c as u32 && c as u32 <= 90)  // 'A'..'Z'
    || (97 <= c as u32 && c as u32 <= 122)  // 'a'..'z'
}

/// Every character of `s` is an ASCII letter or digit; the empty string
/// passes vacuously.
pub open spec fn all_alnum(s: Seq<char>) -> bool {
    forall|i: int| 0 <= i < s.len() ==> is_alnum_char(s[i])
}

/// The strict grammar: letters and digits only, so a code is always a single
/// safe URL path segment.
#[derive(Default)]
pub struct Alnum;

impl Validate for Alnum {
    open spec fn accepts(&self, s: Seq<char>) -> bool {
        all_alnum(s)
    }

    fn validate(&self, code: &str) -> (r: bool) {
        let n = code.unicode_len();
        let mut i: usize = 0;
        while i < n
            invariant
                i <= n,
                n == code@.len(),
                forall|j: int| 0 <= j < i ==> is_alnum_char(code@[j]),
            decreases n - i,
        {
            let c = code.get_char(i);
            let x = c as u32;
            if !((48 <= x && x <= 57) || (65 <= x && x <= 90) || (97 <= x && x <= 122)) {
                assert(!is_alnum_char(code@[i as int]));
                return false;
            }
            i = i + 1;
        }
        true
    }
}

} // verus!
