use vstd::prelude::*;
use vstd::string::StrSliceExecFns;

use crate::validator::Validate;
use crate::validator::is_alnum_char;

verus! {

/// A character allowed bare in a URL path segment: unreserved characters,
/// sub-delimiters, `:` and `@`.
pub open spec fn is_pchar(c: char) -> bool {
    ||| is_alnum_char(c)
    ||| c == '-' || c == '.' || c == '_' || c == '~'
    ||| c == '!' || c == '$' || c == '&' || c == '\'' || c == '(' || c == ')'
    ||| c == '*' || c == '+' || c == ',' || c == ';' || c == '='
    ||| c == ':' || c == '@'
}

/// An ASCII hexadecimal digit.
pub open spec fn is_hex_digit(c: char) -> bool {
    (48 <= c as u32 && c as u32 <= 57)  // '0'..'9'
    || (65 <= c as u32 && c as u32 <= 70)  // 'A'..'F'
    || (97 <= c as u32 && c as u32 <= 102)  // 'a'..'f'
}

/// `s` is a well-formed URL path segment: a sequence of allowed characters
/// and percent-encoded triplets (`%` followed by two hex digits). The empty
/// string is well-formed.
pub open spec fn path_segment_ok(s: Seq<char>) -> bool
    decreases s.len(),
{
    if s.len() == 0 {
        true
    } else if s[0] == '%' {
        if s.len() >= 3 {
            is_hex_digit(s[1]) && is_hex_digit(s[2]) && path_segment_ok(s.skip(3))
        } else {
            false
        }
    } else {
        is_pchar(s[0]) && path_segment_ok(s.skip(1))
    }
}

/// The default grammar: the candidate must be a well-formed URL path segment.
#[derive(Default)]
pub struct DefaultValidator;

/// Decide `is_pchar` for one character.
fn pchar_char(c: char) -> (r: bool)
    ensures
        r == is_pchar(c),
{
    let x = c as u32;
    (48 <= x && x <= 57) || (65 <= x && x <= 90) || (97 <= x && x <= 122)
    || c == '-' || c == '.' || c == '_' || c == '~'
    || c == '!' || c == '$' || c == '&' || c == '\'' || c == '(' || c == ')'
    || c == '*' || c == '+' || c == ',' || c == ';' || c == '='
    || c == ':' || c == '@'
}

/// Decide `is_hex_digit` for one character.
fn hex_digit_char(c: char) -> (r: bool)
    ensures
        r == is_hex_digit(c),
{
    let x = c as u32;
    (48 <= x && x <= 57) || (65 <= x && x <= 70) || (97 <= x && x <= 102)
}

impl Validate for DefaultValidator {
    open spec fn accepts(&self, s: Seq<char>) -> bool {
        path_segment_ok(s)
    }

    fn validate(&self, code: &str) -> (r: bool) {
        let n = code.unicode_len();
        let mut i: usize = 0;
        proof {
            assert(code@.skip(0) =~= code@);
        }
        while i < n
            invariant
                i <= n,
                n == code@.len(),
                path_segment_ok(code@) == path_segment_ok(code@.skip(i as int)),
            decreases n - i,
        {
            let c = code.get_char(i);
            if c == '%' {
                if n - i < 3 {
                    return false;
                }
                let h1 = code.get_char(i + 1);
                let h2 = code.get_char(i + 2);
                if !(hex_digit_char(h1) && hex_digit_char(h2)) {
                    return false;
                }
                proof {
                    assert(code@.skip(i as int).skip(3) =~= code@.skip(i as int + 3));
                }
                i = i + 3;
            } else {
                if !pchar_char(c) {
                    return false;
                }
                proof {
                    assert(code@.skip(i as int).skip(1) =~= code@.skip(i as int + 1));
                }
                i = i + 1;
            }
        }
        proof {
            assert(code@.skip(n as int) =~= Seq::<char>::empty());
        }
        true
    }
}

} // verus!
