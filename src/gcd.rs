//! Greatest common divisor by Euclid's algorithm.
use vstd::prelude::*;

verus! {

/// Euclid's recursion: `gcd(a, 0) = a`, `gcd(a, b) = gcd(b, a mod b)`.
pub open spec fn gcd_spec(a: nat, b: nat) -> nat
    decreases b,
{
    if b == 0 {
        a
    } else {
        gcd_spec(b, a % b)
    }
}

/// The greatest common divisor does not depend on the order of its arguments.
pub proof fn lemma_gcd_symmetric(a: nat, b: nat)
    ensures
        gcd_spec(a, b) == gcd_spec(b, a),
{
    if a < b {
        vstd::arithmetic::div_mod::lemma_small_mod(a, b);
        assert(gcd_spec(a, b) == gcd_spec(b, a % b));
    } else if b < a {
        vstd::arithmetic::div_mod::lemma_small_mod(b, a);
        assert(gcd_spec(b, a) == gcd_spec(a, b % a));
    }
}

/// `gcd_spec(a, b)` divides both `a` and `b`.
pub proof fn lemma_gcd_divides(a: nat, b: nat)
    ensures
        gcd_spec(a, b) == 0 || a % gcd_spec(a, b) == 0,
        gcd_spec(a, b) == 0 || b % gcd_spec(a, b) == 0,
    decreases b,
{
    if b != 0 {
        let g = gcd_spec(b, a % b);
        lemma_gcd_divides(b, a % b);
        if g != 0 {
            // a = b * (a / b) + a % b, and g divides both b and a % b
            vstd::arithmetic::div_mod::lemma_fundamental_div_mod(a as int, b as int);
            let q = a / b;
            let kb = b / g;
            let kr = (a % b) / g;
            vstd::arithmetic::div_mod::lemma_fundamental_div_mod(b as int, g as int);
            vstd::arithmetic::div_mod::lemma_fundamental_div_mod((a % b) as int, g as int);
            assert(a == g * (kb * q + kr)) by (nonlinear_arith)
                requires
                    a == b * q + a % b,
                    b == g * kb + 0,
                    a % b == g * kr + 0,
            ;
            vstd::arithmetic::div_mod::lemma_mod_multiples_basic((kb * q + kr) as int, g as int);
            let k = (kb * q + kr) as int;
            assert((k * g) % (g as int) == 0);
            assert(a as int == k * g) by (nonlinear_arith)
                requires
                    a == g * (kb * q + kr),
                    k == kb * q + kr,
            ;
            assert(a % g == 0);
        }
        assert(gcd_spec(a, b) == g);
    } else if a != 0 {
        vstd::arithmetic::div_mod::lemma_mod_self_0(a as int);
    }
}

/// Every common divisor of `a` and `b` divides `gcd_spec(a, b)`, which is
/// therefore the greatest of them.
pub proof fn lemma_common_divisor_divides_gcd(a: nat, b: nat, d: nat)
    requires
        d > 0,
        a % d == 0,
        b % d == 0,
    ensures
        gcd_spec(a, b) % d == 0,
    decreases b,
{
    if b != 0 {
        vstd::arithmetic::div_mod::lemma_fundamental_div_mod(a as int, b as int);
        vstd::arithmetic::div_mod::lemma_fundamental_div_mod(a as int, d as int);
        vstd::arithmetic::div_mod::lemma_fundamental_div_mod(b as int, d as int);
        let q = (a / b) as int;
        let ka = (a / d) as int;
        let kb = (b / d) as int;
        let r = (a % b) as int;
        let k = ka - kb * q;
        // a mod b = a - b * (a / b), and d divides both a and b
        assert(r == k * d) by (nonlinear_arith)
            requires
                a == b * q + r,
                a == d * ka + 0,
                b == d * kb + 0,
                k == ka - kb * q,
        ;
        assert(k >= 0) by (nonlinear_arith)
            requires
                r == k * d,
                d > 0,
                r >= 0,
        ;
        vstd::arithmetic::div_mod::lemma_mod_multiples_basic(k, d as int);
        assert((a % b) % d == 0);
        lemma_common_divisor_divides_gcd(b, a % b, d);
    }
}

/// The greatest common divisor of two nonzero integers.
pub fn gcd(n: u64, m: u64) -> (r: u64)
    requires
        n != 0 && m != 0,
    ensures
        r == gcd_spec(n as nat, m as nat),
        r != 0,
{
    let mut n = n;
    let mut m = m;
    let ghost g = gcd_spec(n as nat, m as nat);
    while m != 0
        invariant
            n != 0,
            gcd_spec(n as nat, m as nat) == g,
        decreases m,
    {
        if m < n {
            proof {
                lemma_gcd_symmetric(n as nat, m as nat);
            }
            let t = m;
            m = n;
            n = t;
        }
        proof {
            lemma_gcd_symmetric(n as nat, m as nat);
            assert(gcd_spec(m as nat, n as nat) == gcd_spec(n as nat, (m % n) as nat));
        }
        m = m % n;
    }
    n
}

/// Folds `gcd_spec` over a sequence, starting from its first element.
pub open spec fn gcd_fold(s: Seq<u64>) -> nat
    decreases s.len(),
{
    if s.len() <= 1 {
        if s.len() == 0 { 0 } else { s[0] as nat }
    } else {
        gcd_spec(gcd_fold(s.drop_last()), s.last() as nat)
    }
}

/// The greatest common divisor of every number in the list, or `None` for an
/// empty list. A single number stands for itself; two or more must all be
/// nonzero.
pub fn gcd_of_all(numbers: &Vec<u64>) -> (r: Option<u64>)
    requires
        numbers@.len() <= 1 || forall|i: int| 0 <= i < numbers@.len() ==> numbers@[i] != 0,
    ensures
        r is None <==> numbers@.len() == 0,
        r matches Some(d) ==> d as nat == gcd_fold(numbers@),
{
    if numbers.len() == 0 {
        return None;
    }
    if numbers.len() == 1 {
        return Some(numbers[0]);
    }
    let mut d = numbers[0];
    let mut i: usize = 1;
    while i < numbers.len()
        invariant
            1 <= i <= numbers@.len(),
            d != 0,
            forall|j: int| 0 <= j < numbers@.len() ==> numbers@[j] != 0,
            d as nat == gcd_fold(numbers@.subrange(0, i as int)),
        decreases numbers@.len() - i,
    {
        let ghost prefix = numbers@.subrange(0, i as int + 1);
        assert(prefix.drop_last() =~= numbers@.subrange(0, i as int));
        d = gcd(d, numbers[i]);
        i = i + 1;
    }
    assert(numbers@.subrange(0, i as int) =~= numbers@);
    Some(d)
}

} // verus!
