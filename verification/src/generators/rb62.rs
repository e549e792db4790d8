use rand::Rng;

use vstd::prelude::*;

use crate::Generator;
use crate::urls::Url;
use crate::validator::Code;
use crate::validator::is_alnum_char;

verus! {

/// The base-62 alphabet, by index: digits first, then lower case, then upper
/// case letters.
pub open spec fn spec_base62(i: nat) -> char {
    if i < 10 {
        ((48 + i) as char)  // '0'..'9'
    } else if i < 36 {
        ((87 + i) as char)  // 'a'..'z'
    } else {
        ((29 + i) as char)  // 'A'..'Z'
    }
}

/// Relies on rand's `Rng::random_range` through `rand::rng()`: the draw lies
/// in the given non-empty range. Nothing is assumed about which value comes
/// back: the caller must hold for every outcome.
#[verifier::external_body]
fn random_below(bound: usize) -> (r: usize)
    requires
        bound > 0,
    ensures
        r < bound,
{
    rand::rng().random_range(0..bound)
}

/// The alphabet character at index `i`.
fn alphabet_char(i: usize) -> (c: char)
    requires
        i < 62,
    ensures
        c == spec_base62(i as nat),
        is_alnum_char(c),
{
    let b: u8 = if i < 10 {
        48 + i as u8
    } else if i < 36 {
        87 + i as u8
    } else {
        29 + i as u8
    };
    b as char
}

/// Random base-62 generator: draws a fixed-length, seven-character code from
/// the 62-symbol alphabet on every call; stateless, so collision detection
/// must happen outside (see the orchestrator).
#[derive(Default)]
pub struct RB62;

impl Generator for RB62 {
    fn generate(&mut self, _url: &Url) -> (code: Code)
        ensures
            code@.len() == 7,
            forall|i: int| 0 <= i < 7 ==> is_alnum_char(code@[i]),
    {
        let mut s = String::new();
        let mut i: usize = 0;
        while i < 7
            invariant
                i <= 7,
                s@.len() == i,
                forall|j: int| 0 <= j < i ==> is_alnum_char(s@[j]),
            decreases 7 - i,
        {
            let d = random_below(62);
            s.push(alphabet_char(d));
            i = i + 1;
        }
        Code::new(s)
    }
}

} // verus!
