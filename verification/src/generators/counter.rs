use vstd::prelude::*;

use crate::Generator;
use crate::urls::Url;
use crate::validator::Code;

verus! {

/// The character for one decimal digit.
pub open spec fn digit_char(d: nat) -> char {
    ((48 + d) as char)
}

/// The decimal form of `n`, most significant digit first.
pub open spec fn decimal_digits(n: nat) -> Seq<char>
    decreases n,
{
    if n < 10 {
        seq![digit_char(n)]
    } else {
        decimal_digits(n / 10).push(digit_char(n % 10))
    }
}

/// `n` in decimal.
fn usize_to_decimal(n: usize) -> (s: String)
    ensures
        s@ == decimal_digits(n as nat),
    decreases n,
{
    let d: u8 = (n % 10) as u8;
    let c = (48 + d) as char;
    proof {
        assert(c == digit_char(n as nat % 10));
    }
    if n < 10 {
        let mut s = String::new();
        s.push(c);
        proof {
            assert(s@ =~= seq![digit_char(n as nat)]);
        }
        s
    } else {
        let mut s = usize_to_decimal(n / 10);
        s.push(c);
        s
    }
}

/// The sequential generator: a private monotonically increasing counter,
/// returned in its decimal string form. Distinct calls on one instance give
/// distinct codes until the counter tops out at the type's maximum, where it
/// stays; the counter is not persisted, so this is acceptable only for a
/// single-process, single-generator deployment.
pub struct Counter(usize);

impl Counter {
    /// How many codes have been handed out.
    pub closed spec fn count(&self) -> nat {
        self.0 as nat
    }
}

impl Default for Counter {
    fn default() -> (r: Self)
        ensures
            r.count() == 0,
    {
        Counter(0)
    }
}

impl Generator for Counter {
    fn generate(&mut self, _url: &Url) -> (code: Code)
        ensures
            final(self).count() == if old(self).count() < usize::MAX as nat {
                old(self).count() + 1
            } else {
                old(self).count()
            },
            code@ == decimal_digits(final(self).count()),
    {
        if self.0 < usize::MAX {
            self.0 = self.0 + 1;
        }
        Code::new(usize_to_decimal(self.0))
    }
}

/// A decimal form is never empty.
proof fn lemma_decimal_len(n: nat)
    ensures
        decimal_digits(n).len() >= 1,
    decreases n,
{
    if n >= 10 {
        lemma_decimal_len(n / 10);
    }
}

/// The decimal form is injective, so two counts never share a code: what
/// makes the sequential generator collision-free below the counter's cap.
pub proof fn lemma_decimal_injective(a: nat, b: nat)
    requires
        a != b,
    ensures
        decimal_digits(a) != decimal_digits(b),
    decreases a + b,
{
    if a < 10 && b < 10 {
        assert(decimal_digits(a)[0] != decimal_digits(b)[0]);
    } else if a < 10 {
        lemma_decimal_len(b / 10);
        assert(decimal_digits(b).len() >= 2);
    } else if b < 10 {
        lemma_decimal_len(a / 10);
        assert(decimal_digits(a).len() >= 2);
    } else {
        if a % 10 != b % 10 {
            assert(decimal_digits(a).last() != decimal_digits(b).last());
        } else {
            lemma_decimal_injective(a / 10, b / 10);
            if decimal_digits(a) == decimal_digits(b) {
                assert(decimal_digits(a).drop_last() =~= decimal_digits(a / 10));
                assert(decimal_digits(b).drop_last() =~= decimal_digits(b / 10));
            }
        }
    }
}

} // verus!
