use vstd::prelude::*;

verus! {

/// Greatest common divisor, with `gcd(a, 0) == a`.
pub open spec fn gcd(a: nat, b: nat) -> nat
    decreases b,
{
    if b == 0 {
        a
    } else {
        gcd(b, a % b)
    }
}

/// Euclid's algorithm on `u32`, with the result floored at 1 so that it can
/// always divide.
pub fn gcd_u32(a: u32, b: u32) -> (r: u32)
    ensures
        r == if gcd(a as nat, b as nat) == 0 {
            1
        } else {
            gcd(a as nat, b as nat)
        },
{
    let mut x = a;
    let mut y = b;
    while y != 0
        invariant
            gcd(x as nat, y as nat) == gcd(a as nat, b as nat),
        decreases y,
    {
        let t = x % y;
        x = y;
        y = t;
    }
    if x < 1 {
        1
    } else {
        x
    }
}

proof fn lemma_gcd_divides(a: nat, b: nat)
    ensures
        gcd(a, b) > 0 ==> a % gcd(a, b) == 0 && b % gcd(a, b) == 0,
    decreases b,
{
    if b > 0 {
        lemma_gcd_divides(b, a % b);
        let g = gcd(b, a % b);
        if g > 0 {
            let q = a / b;
            assert(a == q * b + a % b) by (nonlinear_arith)
                requires
                    b > 0,
                    q == a / b,
            ;
            let kb = b / g;
            let kr = (a % b) / g;
            assert(b == kb * g) by (nonlinear_arith)
                requires
                    b % g == 0,
                    g > 0,
                    kb == b / g,
            ;
            assert(a % b == kr * g) by (nonlinear_arith)
                requires
                    (a % b) % g == 0,
                    g > 0,
                    kr == (a % b) / g,
            ;
            assert(a == (q * kb + kr) * g) by (nonlinear_arith)
                requires
                    a == q * b + a % b,
                    b == kb * g,
                    a % b == kr * g,
            ;
            vstd::arithmetic::div_mod::lemma_mod_multiples_basic((q * kb + kr) as int, g as int);
        }
    }
}

/// A frame rate as the decoder reports it, classified before reduction: a
/// whole number of frames per second, or a rate in thousandths of a frame
/// per second (the rate times 1000, rounded).
#[derive(Debug, Clone, Copy, PartialEq, Eq, Structural)]
pub enum FrameRate {
    Whole(u32),
    Thousandths(u32),
}

/// The reduced fraction for a rate of `m / 1000` frames per second.
pub open spec fn reduced_thousandths(m: u32) -> (u32, u32) {
    let g = gcd(m as nat, 1000);
    ((m as nat / g) as u32, (1000nat / g) as u32)
}

/// The numerator and denominator of a frame rate: a whole rate `n` is `n/1`,
/// a rate in thousandths is reduced by the greatest common divisor.
pub open spec fn rational_of(rate: FrameRate) -> (u32, u32) {
    match rate {
        FrameRate::Whole(n) => (n, 1),
        FrameRate::Thousandths(m) => reduced_thousandths(m),
    }
}

/// Converts a frame rate to the fraction the stream header carries.
pub fn fps_to_rational(rate: FrameRate) -> (r: (u32, u32))
    ensures
        r == rational_of(rate),
        r.1 >= 1,
{
    match rate {
        FrameRate::Whole(n) => (n, 1),
        FrameRate::Thousandths(m) => {
            let g = gcd_u32(m, 1000);
            proof {
                lemma_gcd_positive(m as nat);
                lemma_gcd_divides(m as nat, 1000);
                lemma_gcd_at_most(m as nat);
                lemma_reduced_thousandths_exact(m);
            }
            (m / g, 1000 / g)
        },
    }
}

proof fn lemma_gcd_positive(m: nat)
    ensures
        gcd(m, 1000) > 0,
{
    assert(gcd(m, 1000) == gcd(1000, m % 1000));
    lemma_gcd_nonzero_left(1000, m % 1000);
}

proof fn lemma_gcd_nonzero_left(a: nat, b: nat)
    requires
        a > 0,
    ensures
        gcd(a, b) > 0,
    decreases b,
{
    if b > 0 {
        lemma_gcd_nonzero_left(b, a % b);
    }
}

proof fn lemma_gcd_at_most(m: nat)
    ensures
        gcd(m, 1000) <= 1000,
{
    lemma_gcd_positive(m);
    lemma_gcd_divides(m, 1000);
    let g = gcd(m, 1000);
    vstd::arithmetic::div_mod::lemma_mod_is_zero(1000, g as nat);
}

/// The reduced fraction denotes the same rate: `num / den == m / 1000`.
pub proof fn lemma_reduced_thousandths_exact(m: u32)
    ensures
        reduced_thousandths(m).0 as int * 1000 == m as int * reduced_thousandths(m).1 as int,
        reduced_thousandths(m).1 >= 1,
{
    lemma_gcd_positive(m as nat);
    lemma_gcd_divides(m as nat, 1000);
    lemma_gcd_at_most(m as nat);
    let g = gcd(m as nat, 1000);
    let p = m as nat / g;
    let q = 1000nat / g;
    assert(m as nat == p * g && 1000 == q * g) by (nonlinear_arith)
        requires
            (m as nat) % g == 0,
            1000nat % g == 0,
            g > 0,
            p == m as nat / g,
            q == 1000nat / g,
    ;
    assert(p * 1000 == m as nat * q) by (nonlinear_arith)
        requires
            m as nat == p * g,
            1000 == q * g,
    ;
    assert(q >= 1) by (nonlinear_arith)
        requires
            1000 == q * g,
    ;
    assert(p <= m);
}

} // verus!
