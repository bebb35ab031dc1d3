//! Number-theoretic helpers used by the sample guest programs: a verified
//! primality test by trial division and a bounded next-prime search.

use vstd::prelude::*;

verus! {

use vstd::arithmetic::div_mod::{lemma_fundamental_div_mod, lemma_mod_multiples_basic};

/// `n` is prime: at least 2, with no divisor strictly between 1 and `n`.
pub open spec fn is_prime_spec(n: int) -> bool {
    n >= 2 && forall|d: int| 2 <= d < n ==> #[trigger] (n % d) != 0
}

/// A divisor `d` of `n` with `2 <= d < n` has a cofactor `n / d` that also
/// divides `n`, also lies strictly between 1 and `n`, and multiplies with
/// `d` back to `n`.
proof fn lemma_divisor_cofactor(n: int, d: int)
    requires
        2 <= d < n,
        n % d == 0,
    ensures
        n == d * (n / d),
        2 <= n / d < n,
        n % (n / d) == 0,
{
    lemma_fundamental_div_mod(n, d);
    let q = n / d;
    assert(n == d * q);
    assert(q >= 1) by (nonlinear_arith)
        requires
            n == d * q,
            d >= 2,
            n >= 2,
    ;
    assert(q != 1) by {
        if q == 1 {
            assert(n == d) by (nonlinear_arith)
                requires
                    n == d * q,
                    q == 1,
            ;
        }
    }
    assert(q < n) by (nonlinear_arith)
        requires
            n == d * q,
            d >= 2,
            q >= 2,
    ;
    lemma_mod_multiples_basic(d, q);
    assert(d * q == n);
}

/// An even divisor forces the dividend to be even.
proof fn lemma_even_divisor(n: int, e: int)
    requires
        n >= 1,
        2 <= e,
        e % 2 == 0,
        n % e == 0,
    ensures
        n % 2 == 0,
{
    lemma_fundamental_div_mod(n, e);
    lemma_fundamental_div_mod(e, 2);
    let q = n / e;
    let h = e / 2;
    assert(n == (h * q) * 2) by (nonlinear_arith)
        requires
            n == e * q,
            e == 2 * h,
    ;
    lemma_mod_multiples_basic(h * q, 2);
}

/// If `n` has a divisor strictly between 1 and `n`, it has one below any
/// `i` whose square exceeds `n`.
proof fn lemma_composite_has_small_factor(n: int, i: int, d: int)
    requires
        3 <= i,
        i * i > n,
        2 <= d < n,
        n % d == 0,
    ensures
        exists|e: int| 2 <= e < i && #[trigger] (n % e) == 0,
{
    lemma_divisor_cofactor(n, d);
    let q = n / d;
    if d < i {
        assert(2 <= d < i && n % d == 0);
    } else {
        assert(q < i) by (nonlinear_arith)
            requires
                n == d * q,
                d >= i,
                i * i > n,
                q >= 2,
                i >= 3,
        ;
        assert(2 <= q < i && n % q == 0);
    }
}

/// Whether `i * i <= n`, computed without 32-bit overflow.
fn sq_le(i: i32, n: i32) -> (r: bool)
    ensures
        r == ((i as int) * (i as int) <= (n as int)),
{
    proof {
        assert((i as int) * (i as int) <= 0x4000_0000_0000_0000) by (nonlinear_arith)
            requires
                -0x8000_0000 <= i as int <= 0x7fff_ffff,
        ;
        assert((i as int) * (i as int) >= 0) by (nonlinear_arith);
    }
    (i as i64) * (i as i64) <= (n as i64)
}

/// Trial-division primality test.
pub fn is_prime(n: i32) -> (r: bool)
    ensures
        r == is_prime_spec(n as int),
{
    if n < 2 {
        return false;
    }
    if n % 2 == 0 {
        proof {
            if n > 2 {
                assert(2 <= 2 < n && (n as int) % 2 == 0);
            }
        }
        return n == 2;
    }
    let mut i: i32 = 3;
    while sq_le(i, n)
        invariant
            n >= 3,
            (n as int) % 2 != 0,
            3 <= i,
            i % 2 == 1,
            forall|d: int| 2 <= d < i ==> #[trigger] ((n as int) % d) != 0,
        decreases n - i,
    {
        proof {
            assert(i < n) by (nonlinear_arith)
                requires
                    i * i <= n,
                    i >= 3,
            ;
        }
        if n % i == 0 {
            proof {
                assert(2 <= (i as int) && (i as int) < (n as int) && (n as int) % (i as int)
                    == 0);
            }
            return false;
        }
        proof {
            assert forall|d: int| 2 <= d < i as int + 2 implies #[trigger] ((n as int) % d)
                != 0 by {
                if d == i as int + 1 && (n as int) % d == 0 {
                    lemma_even_divisor(n as int, d);
                }
            }
        }
        i += 2;
    }
    proof {
        assert forall|d: int| 2 <= d < n as int implies #[trigger] ((n as int) % d) != 0 by {
            if (n as int) % d == 0 {
                assert((i as int) * (i as int) > n as int);
                lemma_composite_has_small_factor(n as int, i as int, d);
            }
        }
    }
    true
}

/// The smallest prime strictly above `v`, or `None` when no prime above
/// `v` fits the 32-bit range.
pub fn next_prime_above(v: i32) -> (r: Option<i32>)
    ensures
        match r {
            Some(p) => v < p && is_prime_spec(p as int) && forall|q: int|
                v < q < p ==> !is_prime_spec(q),
            None => forall|q: int| v < q <= i32::MAX ==> !is_prime_spec(q),
        },
{
    let mut c: i32 = if v < 1 {
        1
    } else {
        v
    };
    while c < i32::MAX
        invariant
            c >= 1,
            v <= c || v < 1,
            forall|q: int| v < q <= c ==> !is_prime_spec(q),
        decreases i32::MAX - c,
    {
        let candidate = c + 1;
        if is_prime(candidate) {
            return Some(candidate);
        }
        c = candidate;
    }
    None
}

} // verus!
