//! Natural numbers of any size, as decimal digits from the lowest up.

use vstd::arithmetic::power::*;
use vstd::prelude::*;

use crate::tekst;

verus! {

/// The number whose decimal digits, lowest first, are `v`.
pub open spec fn wartosc(v: Seq<u8>) -> nat
    decreases v.len(),
{
    if v.len() == 0 {
        0
    } else {
        v[0] as nat + 10 * wartosc(v.skip(1))
    }
}

/// Every element is a digit, and the highest one is not zero.
pub open spec fn poprawne(v: Seq<u8>) -> bool {
    &&& forall|i: int| 0 <= i < v.len() ==> #[trigger] v[i] < 10
    &&& v.len() > 0 ==> v.last() != 0
}

/// A further digit on top counts as many units as the power of ten it stands at.
proof fn wartosc_dolozona(v: Seq<u8>, c: u8)
    ensures
        wartosc(v.push(c)) == wartosc(v) + c * pow(10, v.len()),
    decreases v.len(),
{
    reveal(pow);
    if v.len() == 0 {
        assert(v.push(c).skip(1) =~= Seq::<u8>::empty());
        assert(wartosc(v.push(c).skip(1)) == 0);
        assert(c * pow(10, 0) == c) by (nonlinear_arith)
            requires
                pow(10, 0) == 1,
        ;
    } else {
        assert(v.push(c).skip(1) =~= v.skip(1).push(c));
        wartosc_dolozona(v.skip(1), c);
        let p = pow(10, (v.len() - 1) as nat);
        assert(pow(10, v.len()) == 10 * p);
        assert(10 * (c * p) == c * (10 * p)) by (nonlinear_arith);
    }
}

/// A well-formed number with two digits or more is at least ten.
proof fn wartosc_dodatnia(v: Seq<u8>)
    requires
        poprawne(v),
        v.len() > 0,
    ensures
        wartosc(v) >= 1,
    decreases v.len(),
{
    if v.len() > 1 {
        assert(v.skip(1).last() == v.last());
        assert forall|i: int| 0 <= i < v.skip(1).len() implies #[trigger] v.skip(1)[i] < 10 by {
            assert(v.skip(1)[i] == v[i + 1]);
        }
        wartosc_dodatnia(v.skip(1));
    }
}

/// The digits of `n`.
pub fn z_liczby(n: u64) -> (v: Vec<u8>)
    ensures
        poprawne(v@),
        wartosc(v@) == n,
{
    let mut v: Vec<u8> = Vec::new();
    let mut m: u64 = n;
    proof {
        reveal(pow);
    }
    while m > 0
        invariant
            forall|i: int| 0 <= i < v@.len() ==> #[trigger] v@[i] < 10,
            wartosc(v@) + m * pow(10, v@.len()) == n,
            m == 0 && v@.len() > 0 ==> v@.last() != 0,
            pow(10, v@.len()) >= 1,
        decreases m,
    {
        let c: u8 = (m % 10) as u8;
        proof {
            wartosc_dolozona(v@, c);
            reveal(pow);
            let p = pow(10, v@.len());
            assert(m * p == c * p + (m / 10) * (10 * p)) by (nonlinear_arith)
                requires
                    m as int == 10 * (m / 10) + c as int,
            ;
            assert(10 * p >= 1) by (nonlinear_arith)
                requires
                    p >= 1,
            ;
        }
        v.push(c);
        m = m / 10;
    }
    v
}

/// Twice the number.
pub fn podwoj(v: &Vec<u8>) -> (r: Vec<u8>)
    requires
        poprawne(v@),
    ensures
        poprawne(r@),
        wartosc(r@) == 2 * wartosc(v@),
{
    let mut r: Vec<u8> = Vec::new();
    let mut c: u8 = 0;
    let mut i: usize = 0;
    proof {
        reveal(pow);
        assert(v@.take(0) =~= Seq::<u8>::empty());
    }
    while i < v.len()
        invariant
            poprawne(v@),
            i <= v.len(),
            c <= 1,
            r@.len() == i,
            forall|j: int| 0 <= j < i ==> #[trigger] r@[j] < 10,
            wartosc(r@) + c * pow(10, i as nat) == 2 * wartosc(v@.take(i as int)),
            i > 0 && v@[i - 1] != 0 ==> c == 1 || r@[i - 1] != 0,
        decreases v.len() - i,
    {
        let t: u8 = 2 * v[i] + c;
        let d: u8 = t % 10;
        let e: u8 = t / 10;
        proof {
            wartosc_dolozona(r@, d);
            wartosc_dolozona(v@.take(i as int), v@[i as int]);
            assert(v@.take(i as int).push(v@[i as int]) =~= v@.take(i + 1));
            reveal(pow);
            let p = pow(10, i as nat);
            let x = v@[i as int];
            assert(c * p + 2 * (x * p) == d * p + e * (10 * p)) by (nonlinear_arith)
                requires
                    2 * x + c == d + 10 * e,
            ;
        }
        r.push(d);
        c = e;
        i += 1;
    }
    assert(v@.take(v@.len() as int) =~= v@);
    if c > 0 {
        proof {
            wartosc_dolozona(r@, c);
        }
        r.push(c);
    }
    r
}

/// Appends the decimal notation of the number whose digits start at `od`.
pub fn dopisz(s: &mut String, v: &Vec<u8>, od: usize)
    requires
        poprawne(v@),
        od < usize::MAX,
    ensures
        final(s)@ == old(s)@ + tekst::dziesietny(
            wartosc(
                v@.skip(
                    if od <= v@.len() {
                        od as int
                    } else {
                        v@.len() as int
                    },
                ),
            ),
        ),
    decreases v.len() - od,
{
    if od >= v.len() {
        s.push('0');
        assert(v@.skip(v@.len() as int) =~= Seq::<u8>::empty());
        assert(s@ =~= old(s)@ + tekst::dziesietny(0));
        return;
    }
    let ghost w = v@.skip(od as int);
    proof {
        assert(w.skip(1) =~= v@.skip(od + 1));
        assert(w[0] == v@[od as int]);
    }
    if od + 1 < v.len() {
        proof {
            assert(w.skip(1).last() == v@.last());
            assert forall|i: int| 0 <= i < w.skip(1).len() implies #[trigger] w.skip(1)[i] < 10 by {
                assert(w.skip(1)[i] == v@[od + 1 + i]);
            }
            wartosc_dodatnia(w.skip(1));
        }
        dopisz(s, v, od + 1);
        s.push((48u8 + v[od]) as char);
        proof {
            let a = wartosc(w);
            assert(a / 10 == wartosc(w.skip(1)) && a % 10 == w[0]);
            assert(s@ =~= old(s)@ + tekst::dziesietny(a));
        }
    } else {
        s.push((48u8 + v[od]) as char);
        proof {
            assert(w.skip(1) =~= Seq::<u8>::empty());
            assert(s@ =~= old(s)@ + tekst::dziesietny(wartosc(w)));
        }
    }
}

/// Appends the `szer` digits that start at `od`, the highest first, with zeros
/// where the number has no digit.
pub fn dopisz_ostatnie(s: &mut String, v: &Vec<u8>, od: usize, szer: usize)
    requires
        poprawne(v@),
        od + szer <= usize::MAX,
    ensures
        final(s)@ == old(s)@ + tekst::ostatnie_cyfry(
            wartosc(v@.skip(if od <= v@.len() { od as int } else { v@.len() as int })),
            szer as nat,
        ),
    decreases szer,
{
    if szer > 0 {
        dopisz_ostatnie(s, v, od + 1, szer - 1);
        if od < v.len() {
            proof {
                let w = v@.skip(od as int);
                assert(w.skip(1) =~= v@.skip(od + 1));
                assert(w[0] == v@[od as int]);
            }
            s.push((48u8 + v[od]) as char);
        } else {
            proof {
                assert(v@.skip(v@.len() as int) =~= Seq::<u8>::empty());
            }
            s.push('0');
        }
    }
    assert(s@ =~= old(s)@ + tekst::ostatnie_cyfry(
        wartosc(v@.skip(if od <= v@.len() { od as int } else { v@.len() as int })),
        szer as nat,
    ));
}

} // verus!
