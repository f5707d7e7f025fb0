//! Decimal rendering of unsigned integers, as `{}` formats them.
use vstd::prelude::*;
use vstd::utf8::*;
use crate::fixed::{FixedString, utf8_len, lemma_ascii_utf8_len, lemma_utf8_len_concat};

verus! {

/// The ASCII digit for `d` (`d < 10`).
pub open spec fn digit_char(d: nat) -> char {
    (48 + d) as char
}

/// The decimal digits of `n`, most significant first, without leading zeros
/// (a single `'0'` for zero).
pub open spec fn decimal(n: nat) -> Seq<char>
    decreases n,
{
    if n < 10 {
        seq![digit_char(n)]
    } else {
        decimal(n / 10).push(digit_char(n % 10))
    }
}

/// The decimal text of `n` is ASCII, and it has at most `k` digits when `n < 10^k`.
pub proof fn lemma_decimal_shape(n: nat)
    ensures
        is_ascii_chars(decimal(n)),
        1 <= decimal(n).len(),
        n < 10 ==> decimal(n).len() == 1,
    decreases n,
{
    if n < 10 {
        assert(decimal(n) =~= seq![digit_char(n)]);
    } else {
        lemma_decimal_shape(n / 10);
        let d = decimal(n);
        assert(d =~= decimal(n / 10).push(digit_char(n % 10)));
        assert forall|i| 0 <= i < d.len() implies '\0' <= #[trigger] d[i] <= '\u{7f}' by {
            if i < d.len() - 1 {
                assert(d[i] == decimal(n / 10)[i]);
            }
        }
    }
}

/// Different numbers have different decimal texts.
pub proof fn lemma_decimal_injective(n: nat, m: nat)
    requires
        decimal(n) == decimal(m),
    ensures
        n == m,
    decreases n,
{
    lemma_decimal_shape(n / 10);
    lemma_decimal_shape(m / 10);
    if n < 10 && m < 10 {
        assert(decimal(n)[0] == digit_char(n));
        assert(decimal(m)[0] == digit_char(m));
        assert((digit_char(n) as int) == 48 + n);
        assert((digit_char(m) as int) == 48 + m);
    } else if n < 10 {
        assert(decimal(n).len() == 1);
        assert(decimal(m).len() == decimal(m / 10).len() + 1);
    } else if m < 10 {
        assert(decimal(m).len() == 1);
        assert(decimal(n).len() == decimal(n / 10).len() + 1);
    } else {
        let dn = decimal(n);
        let dm = decimal(m);
        assert(dn == decimal(n / 10).push(digit_char(n % 10)));
        assert(dm == decimal(m / 10).push(digit_char(m % 10)));
        assert(dn.last() == digit_char(n % 10));
        assert(dm.last() == digit_char(m % 10));
        assert((digit_char(n % 10) as int) == 48 + n % 10);
        assert((digit_char(m % 10) as int) == 48 + m % 10);
        assert(dn.drop_last() =~= decimal(n / 10));
        assert(dm.drop_last() =~= decimal(m / 10));
        lemma_decimal_injective(n / 10, m / 10);
    }
}

/// A number below `10^k` has at most `k` decimal digits (`k >= 1`).
pub proof fn lemma_decimal_len_bound(n: nat, k: nat, bound: int)
    requires
        1 <= k,
        bound == vstd::arithmetic::power::pow(10, k),
        n < bound,
    ensures
        decimal(n).len() <= k,
    decreases k,
{
    lemma_decimal_shape(n);
    vstd::arithmetic::power::lemma_pow_positive(10, k);
    if n >= 10 {
        let b2 = vstd::arithmetic::power::pow(10, (k - 1) as nat);
        assert(k >= 2) by {
            if k == 1 {
                vstd::arithmetic::power::lemma_pow1(10);
            }
        }
        assert(bound == 10 * b2) by {
            vstd::arithmetic::power::lemma_pow_adds(10, 1, (k - 1) as nat);
            vstd::arithmetic::power::lemma_pow1(10);
        }
        assert(n / 10 < b2) by (nonlinear_arith)
            requires n < bound, bound == 10 * b2;
        lemma_decimal_len_bound(n / 10, (k - 1) as nat, b2);
        assert(decimal(n) == decimal(n / 10).push(digit_char(n % 10)));
    }
}

/// Every `usize` has at most 20 decimal digits.
pub proof fn lemma_decimal_usize(n: usize)
    ensures
        decimal(n as nat).len() <= 20,
{
    assert(vstd::arithmetic::power::pow(10, 20) == 100000000000000000000) by {
        vstd::arithmetic::power::lemma_pow_adds(10, 10, 10);
        assert(vstd::arithmetic::power::pow(10, 10) == 10000000000) by {
            reveal_with_fuel(vstd::arithmetic::power::pow, 11);
        }
    }
    assert(n < 100000000000000000000);
    lemma_decimal_len_bound(n as nat, 20, 100000000000000000000);
}

/// Appends the decimal digits of `n` to `buf`, one character at a time.
fn push_decimal(buf: &mut FixedString<20>, n: usize)
    requires
        utf8_len(old(buf)@) + decimal(n as nat).len() <= 20,
    ensures
        final(buf)@ == old(buf)@ + decimal(n as nat),
    decreases n,
{
    proof {
        lemma_decimal_shape(n as nat);
    }
    let d: u8 = (n % 10) as u8;
    let c: char = (48u8 + d) as char;
    if n >= 10 {
        proof {
            lemma_decimal_shape((n / 10) as nat);
            assert(decimal(n as nat) == decimal((n / 10) as nat).push(digit_char((n % 10) as nat)));
        }
        push_decimal(buf, n / 10);
        proof {
            lemma_utf8_len_concat(old(buf)@, decimal((n / 10) as nat));
            lemma_ascii_utf8_len(decimal((n / 10) as nat));
            lemma_ascii_utf8_len(seq![c]);
        }
        let r = buf.push(c);
        assert(r is Ok);
        assert(buf@ =~= old(buf)@ + decimal(n as nat));
    } else {
        proof {
            lemma_ascii_utf8_len(seq![c]);
        }
        let r = buf.push(c);
        assert(r is Ok);
        assert(buf@ =~= old(buf)@ + decimal(n as nat));
    }
}

/// The decimal digits of `n` in a buffer of its own.
pub(crate) fn decimal_text(n: usize) -> (r: FixedString<20>)
    ensures
        r@ == decimal(n as nat),
{
    let mut buf = FixedString::<20>::new();
    proof {
        lemma_decimal_usize(n);
        assert(utf8_len(Seq::<char>::empty()) == 0);
    }
    push_decimal(&mut buf, n);
    assert(buf@ =~= decimal(n as nat));
    buf
}

} // verus!
