//! Laws of numbers and their texts.

use vstd::arithmetic::power::pow;
use vstd::prelude::*;

use crate::binary64;
use crate::binary64::Binary64;
use crate::tekst;

verus! {

/// The number that a row of decimal digits stands for.
pub open spec fn odczytana(t: Seq<char>) -> int
    decreases t.len(),
{
    if t.len() == 0 {
        0
    } else {
        10 * odczytana(t.drop_last()) + (t.last() as int - 48)
    }
}

/// A number reads back from its decimal notation, which starts with a zero only where
/// it is zero.
pub proof fn dziesietny_wraca(n: nat)
    ensures
        odczytana(tekst::dziesietny(n)) == n,
        n > 0 ==> tekst::dziesietny(n)[0] != '0',
    decreases n,
{
    let t = tekst::dziesietny(n);
    if n < 10 {
        assert(t.drop_last() =~= Seq::<char>::empty());
        assert(odczytana(Seq::<char>::empty()) == 0);
    } else {
        dziesietny_wraca(n / 10);
        tekst::dziesietny_niepusty(n / 10);
        assert(t.drop_last() =~= tekst::dziesietny(n / 10));
    }
}

/// The lowest digits behind others read back as one number.
proof fn cyfry_za_cyframi(a: Seq<char>, n: nat, d: nat)
    ensures
        odczytana(a + tekst::ostatnie_cyfry(n, d)) == odczytana(a) * pow(10, d) + n % (pow(
            10,
            d,
        ) as nat),
        pow(10, d) > 0,
    decreases d,
{
    vstd::arithmetic::power::lemma_pow_positive(10, d);
    reveal(pow);
    let t = a + tekst::ostatnie_cyfry(n, d);
    if d == 0 {
        assert(t =~= a);
    } else {
        let p = pow(10, (d - 1) as nat);
        cyfry_za_cyframi(a, n / 10, (d - 1) as nat);
        assert(t.drop_last() =~= a + tekst::ostatnie_cyfry(n / 10, (d - 1) as nat));
        assert(t.last() == tekst::cyfra(n % 10));
        assert(pow(10, d) == 10 * p);
        vstd::arithmetic::div_mod::lemma_mod_breakdown(n as int, 10, p);
        assert(10 * (odczytana(a) * p) == odczytana(a) * (10 * p)) by (nonlinear_arith);
    }
}

/// A number with a point reads back without it, and the point stands before exactly
/// as many digits as were asked for.
pub proof fn staly_wraca(n: nat, d: nat)
    requires
        d > 0,
    ensures
        ({
            let t = binary64::tekst_staly(n, d);
            let k = t.len() - d - 1;
            &&& k >= 1
            &&& t[k] == '.'
            &&& odczytana(t.take(k) + t.skip(k + 1)) == n
        }),
{
    let p = pow(10, d);
    let a = tekst::dziesietny(n / (p as nat));
    let c = tekst::ostatnie_cyfry(n, d);
    let t = binary64::tekst_staly(n, d);
    let k = t.len() - d - 1;
    tekst::dziesietny_niepusty(n / (p as nat));
    tekst::ostatnie_cyfry_to_cyfry(n, d);
    dziesietny_wraca(n / (p as nat));
    cyfry_za_cyframi(a, n, d);
    vstd::arithmetic::div_mod::lemma_fundamental_div_mod(n as int, p);
    assert(t.take(k) =~= a);
    assert(t.skip(k + 1) =~= c);
    assert((n as int / p) * p == p * (n as int / p)) by (nonlinear_arith);
}

/// Rounding goes to the nearest integer, and from halfway to the even one.
pub proof fn zaokraglenie_jest_najblizsze(p: nat, q: nat)
    requires
        q > 0,
    ensures
        ({
            let z = binary64::zaokraglony(p, q);
            &&& 2 * (z * q - p) <= q
            &&& 2 * (p - z * q) <= q
            &&& (2 * (z * q - p) == q || 2 * (p - z * q) == q) ==> z % 2 == 0
        }),
{
    let c = p / q;
    let r = p % q;
    vstd::arithmetic::div_mod::lemma_fundamental_div_mod(p as int, q as int);
    assert(q * c == c * q) by (nonlinear_arith);
    assert((c + 1) * q == c * q + q) by (nonlinear_arith);
}

/// A printed number starts with a minus sign exactly where it is below zero or a
/// negative zero.
pub proof fn znak_zapisu(x: Binary64, d: nat)
    requires
        !x.nie_liczba(),
    ensures
        x.zapis(d).len() > 0,
        x.zapis(d)[0] == '-' <==> x.ujemna(),
        x.wartosc() < 0 ==> x.zapis(d)[0] == '-',
        x.wartosc() > 0 ==> x.zapis(d)[0] != '-',
{
    reveal_strlit("inf");
    let n = binary64::zaokraglony_modul(x.modul(), d);
    tekst::dziesietny_niepusty(n);
    tekst::dziesietny_niepusty(n / (pow(10, d) as nat));
}

} // verus!
