use vstd::prelude::*;

verus! {

/// ASCII decimal digits of `n`, without leading zeros.
pub open spec fn decimal(n: nat) -> Seq<u8>
    decreases n,
{
    if n < 10 {
        seq![(48 + n) as u8]
    } else {
        decimal(n / 10) + seq![(48 + n % 10) as u8]
    }
}

/// `count` ASCII zeros.
pub open spec fn zeros(count: nat) -> Seq<u8> {
    Seq::new(count, |i: int| 48u8)
}

/// Decimal digits of `n`, left-padded with zeros to at least four digits.
pub open spec fn padded4(n: nat) -> Seq<u8> {
    if decimal(n).len() < 4 {
        zeros((4 - decimal(n).len()) as nat) + decimal(n)
    } else {
        decimal(n)
    }
}

/// Appends the decimal digits of `n`.
pub fn push_decimal(out: &mut Vec<u8>, n: u64)
    ensures
        final(out)@ == old(out)@ + decimal(n as nat),
    decreases n,
{
    if n >= 10 {
        push_decimal(out, n / 10);
    }
    out.push((48 + n % 10) as u8);
    proof {
        if n < 10 {
            assert(n % 10 == n);
        }
        assert(final(out)@ =~= old(out)@ + decimal(n as nat));
    }
}

/// Appends literal bytes.
pub fn push_all(out: &mut Vec<u8>, s: &[u8])
    ensures
        final(out)@ == old(out)@ + s@,
{
    let ghost start = out@;
    let n = s.len();
    let mut i: usize = 0;
    while i < n
        invariant
            n == s@.len(),
            i <= n,
            out@ == start + s@.subrange(0, i as int),
        decreases n - i,
    {
        out.push(s[i]);
        i += 1;
        assert(out@ =~= start + s@.subrange(0, i as int));
    }
    assert(s@.subrange(0, n as int) =~= s@);
}

proof fn lemma_decimal_len_small(n: nat)
    ensures
        n < 10 ==> decimal(n).len() == 1,
        10 <= n < 100 ==> decimal(n).len() == 2,
        100 <= n < 1000 ==> decimal(n).len() == 3,
        1000 <= n ==> decimal(n).len() >= 4,
    decreases n,
{
    if n >= 10 {
        lemma_decimal_len_small(n / 10);
    }
}

/// Appends the decimal digits of `n`, left-padded with zeros to four digits.
pub fn push_padded4(out: &mut Vec<u8>, n: u32)
    ensures
        final(out)@ == old(out)@ + padded4(n as nat),
{
    proof {
        lemma_decimal_len_small(n as nat);
    }
    let ghost start = out@;
    if n < 10 {
        out.push(48u8);
        out.push(48u8);
        out.push(48u8);
        assert(out@ =~= start + zeros(3));
    } else if n < 100 {
        out.push(48u8);
        out.push(48u8);
        assert(out@ =~= start + zeros(2));
    } else if n < 1000 {
        out.push(48u8);
        assert(out@ =~= start + zeros(1));
    } else {
        assert(out@ =~= start + zeros(0));
    }
    push_decimal(out, n as u64);
    assert(out@ =~= start + padded4(n as nat));
}

} // verus!
