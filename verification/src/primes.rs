//! Primality by trial division.

use vstd::prelude::*;
use vstd::arithmetic::div_mod::lemma_fundamental_div_mod;

verus! {

/// A prime: a number from 2 on that no number strictly between 1 and itself
/// divides.
pub open spec fn is_prime_number(n: nat) -> bool {
    n >= 2 && forall|d: nat| 2 <= d < n ==> #[trigger] (n % d) != 0
}

/// An even number does not divide an odd one.
proof fn lemma_even_divisor(n: nat, d: nat)
    requires
        n % 2 == 1,
        d > 0,
        d % 2 == 0,
    ensures
        n % d != 0,
{
    if n % d == 0 {
        lemma_fundamental_div_mod(n as int, d as int);
        lemma_fundamental_div_mod(d as int, 2);
        let q = n as int / d as int;
        let h = d as int / 2;
        assert((2 * h) * q == 2 * (h * q)) by (nonlinear_arith);
        assert(n % 2 == 0) by (nonlinear_arith)
            requires
                n == 2 * (h * q),
        ;
    }
}

/// A number with a divisor strictly between 1 and itself has one whose
/// square does not exceed it.
proof fn lemma_small_divisor(n: nat, d: nat) -> (s: nat)
    requires
        2 <= d < n,
        n % d == 0,
    ensures
        2 <= s < n,
        n % s == 0,
        s * s <= n,
{
    lemma_fundamental_div_mod(n as int, d as int);
    let q = (n as int / d as int) as nat;
    assert(q >= 2 && q < n) by (nonlinear_arith)
        requires
            n == d * q,
            2 <= d < n,
    ;
    assert(n % q == 0) by (nonlinear_arith)
        requires
            n == d * q,
            q > 0,
    ;
    if d <= q {
        assert(d * d <= n) by (nonlinear_arith)
            requires
                n == d * q,
                d <= q,
        ;
        d
    } else {
        assert(q * q <= n) by (nonlinear_arith)
            requires
                n == d * q,
                q < d,
        ;
        q
    }
}

/// Tests an odd number against the odd divisors up to its square root, and
/// an even number against 2. The answer is that of primality for every
/// number but 1, which has no such divisor and passes.
pub fn is_prime(n: u64) -> (r: bool)
    ensures
        r == (n == 1 || is_prime_number(n as nat)),
{
    if n == 2 {
        return true;
    }
    if n % 2 == 0 {
        return false;
    }
    let mut i: u64 = 3;
    while i <= n / i
        invariant
            3 <= i,
            i % 2 == 1,
            n % 2 == 1,
            forall|d: nat| 2 <= d < i ==> #[trigger] ((n as nat) % d) != 0,
        decreases n - i,
    {
        proof {
            lemma_fundamental_div_mod(n as int, i as int);
            let q = n as int / i as int;
            let m = n as int % i as int;
            assert(i * i <= n) by (nonlinear_arith)
                requires
                    i <= q,
                    n == i * q + m,
                    0 <= m,
                    i >= 3,
            ;
            assert(i < n && i + 2 <= n) by (nonlinear_arith)
                requires
                    i * i <= n,
                    i >= 3,
            ;
        }
        if n % i == 0 {
            return false;
        }
        proof {
            lemma_even_divisor(n as nat, (i + 1) as nat);
        }
        i += 2;
    }
    proof {
        if n >= 2 {
            lemma_fundamental_div_mod(n as int, i as int);
            let q = n as int / i as int;
            let m = n as int % i as int;
            assert(i * i > n) by (nonlinear_arith)
                requires
                    i > q,
                    n == i * q + m,
                    m < i,
                    i >= 3,
            ;
            assert forall|d: nat| 2 <= d < n implies #[trigger] ((n as nat) % d) != 0 by {
                if (n as nat) % d == 0 {
                    let s = lemma_small_divisor(n as nat, d);
                    assert(s < i) by (nonlinear_arith)
                        requires
                            s * s <= n,
                            i * i > n,
                            i >= 3,
                    ;
                }
            }
        }
    }
    true
}

/// The list that starts with 2 and goes on with the odd primes below `n` in
/// increasing order. 2 leads the list whatever `n` is.
pub fn primes_below(n: u64) -> (primes: Vec<u64>)
    ensures
        primes@.len() >= 1,
        primes@[0] == 2,
        forall|j: int, k: int| 0 <= j < k < primes@.len() ==> primes@[j] < primes@[k],
        forall|p: u64|
            #[trigger] primes@.contains(p) <==> (p == 2 || (3 <= p < n && is_prime_number(
                p as nat,
            ))),
{
    let mut primes: Vec<u64> = Vec::new();
    primes.push(2);
    let mut i: u64 = 3;
    while i < n
        invariant
            3 <= i,
            i % 2 == 1,
            primes@.len() >= 1,
            primes@[0] == 2,
            forall|j: int, k: int| 0 <= j < k < primes@.len() ==> primes@[j] < primes@[k],
            forall|j: int|
                0 <= j < primes@.len() ==> (#[trigger] primes@[j]) == 2 || (3 <= primes@[j] < i
                    && primes@[j] < n && is_prime_number(primes@[j] as nat)),
            forall|p: u64|
                3 <= p < i && p < n && #[trigger] is_prime_number(p as nat) ==> primes@.contains(p),
        decreases n + 1 - i,
    {
        let ghost before = primes@;
        if is_prime(i) {
            primes.push(i);
            assert(primes@[before.len() as int] == i);
        }
        proof {
            assert(((i + 1) as nat) % 2 == 0);
            assert forall|p: u64|
                3 <= p < i + 2 && p < n && #[trigger] is_prime_number(
                    p as nat,
                ) implies primes@.contains(p) by {
                if p < i {
                    let j = choose|j: int| 0 <= j < before.len() && before[j] == p;
                    assert(primes@[j] == p);
                }
            }
        }
        i = i + 2;
    }
    proof {
        assert forall|p: u64|
            #[trigger] primes@.contains(p) <==> (p == 2 || (3 <= p < n && is_prime_number(
                p as nat,
            ))) by {
            if p == 2 {
            }
        }
    }
    primes
}

} // verus!
