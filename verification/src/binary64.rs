//! Double-precision numbers, held as their bit patterns.
//!
//! Measurements (percentages, entropies, speeds) reach the library as the
//! 64 bits of an IEEE 754 binary64 number. The value of such a pattern is an
//! exact multiple of 2^-1074, so comparing two measurements, rounding one to a
//! few decimal places and printing it are all integer arithmetic.

use vstd::arithmetic::div_mod::*;
use vstd::arithmetic::mul::*;
use vstd::arithmetic::power::pow;
use vstd::arithmetic::power2::*;
use vstd::prelude::*;

use crate::cyfry;
use crate::tekst;

verus! {

/// 2^63: the sign bit.
pub const ZNAK: u64 = 0x8000_0000_0000_0000;

/// The bit pattern of positive infinity; a larger magnitude is not a number.
pub const NIESKONCZONOSC: u64 = 0x7FF0_0000_0000_0000;

/// 2^52: the leading bit of a normal significand.
pub const UKRYTY: u64 = 0x0010_0000_0000_0000;

/// 2^53: the first significand that no longer fits.
pub const PELNY: u64 = 0x0020_0000_0000_0000;

/// A binary64 number, by its bits.
#[derive(Clone, Copy, Debug, PartialEq, Eq, Structural)]
pub struct Binary64 {
    pub bits: u64,
}

/// The significand that the magnitude bits `mag` stand for.
pub open spec fn mantysa(mag: nat) -> nat {
    if mag < UKRYTY {
        mag
    } else {
        UKRYTY as nat + mag % (UKRYTY as nat)
    }
}

/// The power of two by which that significand is scaled, counted from 2^-1074.
pub open spec fn przesuniecie(mag: nat) -> nat {
    if mag < UKRYTY {
        0
    } else {
        (mag / (UKRYTY as nat) - 1) as nat
    }
}

/// The value of the magnitude bits `mag`, as a multiple of 2^-1074.
pub open spec fn jednostki(mag: nat) -> nat {
    mantysa(mag) * pow2(przesuniecie(mag))
}

impl Binary64 {
    /// Whether the sign bit is set.
    pub open spec fn ujemna(self) -> bool {
        self.bits >= ZNAK
    }

    /// The bits below the sign bit.
    pub open spec fn modul(self) -> nat {
        self.bits as nat % ZNAK as nat
    }

    /// Whether the pattern stands for no number at all.
    pub open spec fn nie_liczba(self) -> bool {
        self.modul() > NIESKONCZONOSC
    }

    /// The value as a multiple of 2^-1074. An infinity stands above every
    /// finite value.
    pub open spec fn wartosc(self) -> int {
        if self.ujemna() {
            -(jednostki(self.modul()) as int)
        } else {
            jednostki(self.modul()) as int
        }
    }

    /// `self < inna` as IEEE 754 orders numbers: false where either is not one.
    pub open spec fn mniejsza_niz(self, inna: Binary64) -> bool {
        !self.nie_liczba() && !inna.nie_liczba() && self.wartosc() < inna.wartosc()
    }

    /// `self <= inna` as IEEE 754 orders numbers: false where either is not one.
    pub open spec fn najwyzej(self, inna: Binary64) -> bool {
        !self.nie_liczba() && !inna.nie_liczba() && self.wartosc() <= inna.wartosc()
    }

    /// Whether `self < inna`.
    pub fn mniejsza(self, inna: Binary64) -> (r: bool)
        ensures
            r == self.mniejsza_niz(inna),
    {
        let a: u64 = self.bits % ZNAK;
        let b: u64 = inna.bits % ZNAK;
        if a > NIESKONCZONOSC || b > NIESKONCZONOSC {
            return false;
        }
        proof {
            rosnie(a as nat, b as nat);
            rosnie(b as nat, a as nat);
            dodatnia(a as nat);
            dodatnia(b as nat);
        }
        if self.bits >= ZNAK {
            if inna.bits >= ZNAK {
                b < a
            } else {
                a > 0 || b > 0
            }
        } else {
            inna.bits < ZNAK && a < b
        }
    }

    /// Whether `self <= inna`.
    pub fn co_najwyzej(self, inna: Binary64) -> (r: bool)
        ensures
            r == self.najwyzej(inna),
    {
        let a: u64 = self.bits % ZNAK;
        let b: u64 = inna.bits % ZNAK;
        if a > NIESKONCZONOSC || b > NIESKONCZONOSC {
            return false;
        }
        !inna.mniejsza(self)
    }
}

/// Below the leading significand bit the magnitude is the value itself.
proof fn male_wprost(a: nat)
    ensures
        a < UKRYTY ==> jednostki(a) == a,
{
    lemma2_to64();
    assert(a * 1 == a) by (nonlinear_arith);
}

/// A larger magnitude stands for a larger value.
pub proof fn rosnie(a: nat, b: nat)
    ensures
        a < b ==> jednostki(a) < jednostki(b),
{
    if a < b {
        let u = UKRYTY as nat;
        lemma_pow2_pos(przesuniecie(a));
        lemma_pow2_pos(przesuniecie(b));
        let pa = pow2(przesuniecie(a));
        let pb = pow2(przesuniecie(b));
        if b < u {
            male_wprost(a);
            male_wprost(b);
        } else if a < u {
            male_wprost(a);
            assert(mantysa(b) * pb >= u) by (nonlinear_arith)
                requires
                    mantysa(b) >= u,
                    pb >= 1,
            ;
        } else if a / u == b / u {
            assert(a % u < b % u);
            assert(mantysa(a) * pa < mantysa(b) * pa) by (nonlinear_arith)
                requires
                    mantysa(a) < mantysa(b),
                    pa > 0,
            ;
        } else {
            assert(a / u < b / u);
            lemma_pow2_unfold((przesuniecie(a) + 1) as nat);
            if przesuniecie(a) + 1 < przesuniecie(b) {
                lemma_pow2_strictly_increases((przesuniecie(a) + 1) as nat, przesuniecie(b));
            }
            assert(2 * pa <= pb);
            assert(mantysa(a) < 2 * u);
            assert(mantysa(a) * pa < 2 * u * pa) by (nonlinear_arith)
                requires
                    mantysa(a) < 2 * u,
                    pa > 0,
            ;
            assert(2 * u * pa <= mantysa(b) * pb) by (nonlinear_arith)
                requires
                    u <= mantysa(b),
                    2 * pa <= pb,
            ;
        }
    }
}

/// Only the zero magnitude has the value zero.
proof fn dodatnia(a: nat)
    ensures
        a == 0 <==> jednostki(a) == 0,
{
    male_wprost(0);
    if a > 0 {
        rosnie(0, a);
    }
}

// ---------------------------------------------------------------------------
// Rounding and printing
// ---------------------------------------------------------------------------

/// `p / q` rounded to the nearest integer, a tie to the even one.
pub open spec fn zaokraglony(p: nat, q: nat) -> nat {
    let c = p / q;
    let r = p % q;
    if 2 * r < q {
        c
    } else if 2 * r > q {
        c + 1
    } else if c % 2 == 0 {
        c
    } else {
        c + 1
    }
}

/// `n` units of 10^-d, written with `d` digits behind the point.
pub open spec fn tekst_staly(n: nat, d: nat) -> Seq<char> {
    if d == 0 {
        tekst::dziesietny(n)
    } else {
        tekst::dziesietny(n / (pow(10, d) as nat)) + seq!['.'] + tekst::ostatnie_cyfry(n, d)
    }
}

/// A magnitude rounded to `d` decimal places, in units of 10^-d.
pub open spec fn zaokraglony_modul(mag: nat, d: nat) -> nat {
    zaokraglony(jednostki(mag) * pow(10, d) as nat, pow2(1074))
}

/// Rounding ignores a factor that both parts of a fraction share.
proof fn zaokraglony_skrocony(p: nat, q: nat, c: nat)
    requires
        q > 0,
        c > 0,
    ensures
        zaokraglony(p * c, q * c) == zaokraglony(p, q),
{
    lemma_mul_is_commutative(p as int, c as int);
    lemma_mul_is_commutative(q as int, c as int);
    lemma_div_multiples_vanish_quotient(c as int, p as int, q as int);
    lemma_truncate_middle(p as int, c as int, q as int);
    let r = p % q;
    assert(q * c > 0) by (nonlinear_arith)
        requires
            q > 0,
            c > 0,
    ;
    assert((p * c) % (q * c) == c * r);
    assert(2 * (c * r) < c * q <==> 2 * r < q) by (nonlinear_arith)
        requires
            c > 0,
    ;
    assert(2 * (c * r) > c * q <==> 2 * r > q) by (nonlinear_arith)
        requires
            c > 0,
    ;
}

/// A whole number rounds to itself.
proof fn zaokraglony_caly(x: nat, q: nat)
    requires
        q > 0,
    ensures
        zaokraglony(x * q, q) == x,
{
    lemma_div_multiples_vanish(x as int, q as int);
    lemma_mul_is_commutative(x as int, q as int);
    lemma_mod_multiples_basic(x as int, q as int);
}

/// Dropping the lowest `d` digits divides by 10^d.
proof fn bez_najnizszych(v: Seq<u8>, d: nat)
    requires
        cyfry::poprawne(v),
    ensures
        cyfry::wartosc(v.skip(if d <= v.len() { d as int } else { v.len() as int }))
            == cyfry::wartosc(v) / (pow(10, d) as nat),
        pow(10, d) > 0,
    decreases d,
{
    reveal(pow);
    vstd::arithmetic::power::lemma_pow_positive(10, d);
    if d == 0 {
        assert(v.skip(0) =~= v);
        assert(pow(10, 0) as nat == 1);
        assert(cyfry::wartosc(v) / 1nat == cyfry::wartosc(v));
    } else if v.len() == 0 {
        assert(v.skip(0) =~= v);
        assert(cyfry::wartosc(v) == 0);
        lemma_basic_div(0, pow(10, d));
    } else {
        let w = v.skip(1);
        assert forall|i: int| 0 <= i < w.len() implies #[trigger] w[i] < 10 by {
            assert(w[i] == v[i + 1]);
        }
        if w.len() > 0 {
            assert(w.last() == v.last());
        }
        bez_najnizszych(w, (d - 1) as nat);
        let p = pow(10, (d - 1) as nat);
        let a = cyfry::wartosc(v) as int;
        assert(cyfry::wartosc(v) == v[0] as nat + 10 * cyfry::wartosc(w));
        assert(a / 10 == cyfry::wartosc(w));
        vstd::arithmetic::power::lemma_pow_positive(10, (d - 1) as nat);
        lemma_div_denominator(a, 10, p);
        assert(pow(10, d) == 10 * p);
        assert(a / (10 * p) == (a / 10) / p);
        let k = if d - 1 <= w.len() {
            d - 1
        } else {
            w.len() as int
        };
        assert(w.skip(k) =~= v.skip(k + 1));
        assert(k + 1 == (if d <= v.len() {
            d as int
        } else {
            v.len() as int
        }));
    }
}

/// 2^s for a small `s`.
fn potega_dwojki(s: u32) -> (r: u64)
    requires
        s <= 63,
    ensures
        r == pow2(s as nat),
{
    let mut r: u64 = 1;
    let mut i: u32 = 0;
    proof {
        lemma2_to64();
        lemma2_to64_rest();
    }
    while i < s
        invariant
            i <= s <= 63,
            r == pow2(i as nat),
            pow2(63) == 0x8000_0000_0000_0000,
        decreases s - i,
    {
        proof {
            lemma_pow2_unfold((i + 1) as nat);
            if i + 1 < 63 {
                lemma_pow2_strictly_increases((i + 1) as nat, 63);
            }
        }
        r = r * 2;
        i += 1;
    }
    r
}

/// 10^d for a small `d`.
fn potega_dziesiatki(d: usize) -> (r: u64)
    requires
        d <= 3,
    ensures
        r == pow(10, d as nat),
        1 <= r <= 1000,
{
    proof {
        reveal_with_fuel(pow, 4);
    }
    if d == 0 {
        1
    } else if d == 1 {
        10
    } else if d == 2 {
        100
    } else {
        1000
    }
}

impl Binary64 {
    /// The number with `d` digits behind the point.
    pub open spec fn zapis(self, d: nat) -> Seq<char> {
        if self.nie_liczba() {
            "NaN"@
        } else {
            (if self.ujemna() {
                seq!['-']
            } else {
                Seq::empty()
            }) + (if self.modul() == NIESKONCZONOSC {
                "inf"@
            } else {
                tekst_staly(zaokraglony_modul(self.modul(), d), d)
            })
        }
    }

    /// The number rounded to `d` decimal places and written with that many
    /// digits behind the point.
    pub fn zapisz(self, d: usize) -> (r: String)
        requires
            d <= 3,
        ensures
            r@ == self.zapis(d as nat),
    {
        let mag: u64 = self.bits % ZNAK;
        if mag > NIESKONCZONOSC {
            return "NaN".to_owned();
        }
        let mut s = String::new();
        if self.bits >= ZNAK {
            s.push('-');
            assert(s@ =~= seq!['-']);
        }
        let ghost znak = s@;
        if mag == NIESKONCZONOSC {
            s.append("inf");
            return s;
        }
        let v = zaokraglij_modul(mag, d);
        proof {
            bez_najnizszych(v@, d as nat);
        }
        cyfry::dopisz(&mut s, &v, d);
        if d > 0 {
            let ghost przed = s@;
            s.push('.');
            cyfry::dopisz_ostatnie(&mut s, &v, 0, d);
            proof {
                assert(v@.skip(0) =~= v@);
                let n = cyfry::wartosc(v@);
                assert(s@ =~= znak + tekst_staly(n, d as nat));
            }
        } else {
            proof {
                reveal(pow);
                let n = cyfry::wartosc(v@);
                assert(n / 1nat == n);
            }
        }
        s
    }
}

impl Binary64 {
    /// A printed number holds digits, a sign, a point, or the letters of `NaN`
    /// and `inf`, and no other character.
    pub proof fn zapis_bez_znaku(self, d: nat, c: char)
        requires
            !('0' <= c <= '9'),
            c != '-' && c != '.' && c != 'N' && c != 'a' && c != 'i' && c != 'n' && c != 'f',
        ensures
            tekst::bez_znaku(self.zapis(d), c, self.zapis(d).len()),
    {
        reveal_strlit("NaN");
        reveal_strlit("inf");
        let n = zaokraglony_modul(self.modul(), d);
        tekst::dziesietny_niepusty(n);
        tekst::dziesietny_niepusty(n / (pow(10, d) as nat));
        tekst::ostatnie_cyfry_to_cyfry(n, d);
        let z = self.zapis(d);
        tekst::bez_znaku_gdy_nigdzie(z, c, z.len());
    }
}

/// The digits of a finite magnitude rounded to `d` decimal places.
fn zaokraglij_modul(mag: u64, d: usize) -> (v: Vec<u8>)
    requires
        mag < NIESKONCZONOSC,
        d <= 3,
    ensures
        cyfry::poprawne(v@),
        cyfry::wartosc(v@) == zaokraglony_modul(mag as nat, d as nat),
{
    let m: u64 = if mag < UKRYTY {
        mag
    } else {
        UKRYTY + mag % UKRYTY
    };
    let w: u64 = if mag < UKRYTY {
        0
    } else {
        mag / UKRYTY - 1
    };
    let p: u64 = potega_dziesiatki(d);
    assert(m * p <= 9_007_199_254_740_992 * 1000) by (nonlinear_arith)
        requires
            m <= 9_007_199_254_740_992,
            p <= 1000,
    ;
    let n: u64 = m * p;
    let ghost pw = pow2(w as nat);
    proof {
        lemma_pow2_pos(w as nat);
        assert(jednostki(mag as nat) == m * pw);
        assert((m * pw) * p == (m * p) * pw) by (nonlinear_arith);
    }
    if w >= 1074 {
        let mut v = cyfry::z_liczby(n);
        let mut i: u64 = 1074;
        proof {
            lemma2_to64();
            assert(n * 1 == n) by (nonlinear_arith);
        }
        while i < w
            invariant
                1074 <= i <= w,
                cyfry::poprawne(v@),
                cyfry::wartosc(v@) == n * pow2((i - 1074) as nat),
            decreases w - i,
        {
            v = cyfry::podwoj(&v);
            proof {
                lemma_pow2_unfold((i + 1 - 1074) as nat);
                let q = pow2((i - 1074) as nat);
                assert(2 * (n * q) == n * (2 * q)) by (nonlinear_arith);
            }
            i += 1;
        }
        proof {
            let q = pow2((w - 1074) as nat);
            let u = pow2(1074);
            lemma_pow2_adds((w - 1074) as nat, 1074);
            lemma_pow2_pos(1074);
            assert(n * pw == (n * q) * u) by (nonlinear_arith)
                requires
                    pw == q * u,
            ;
            zaokraglony_caly((n * q) as nat, u);
        }
        return v;
    }
    let s: u64 = 1074 - w;
    proof {
        let u = pow2(s as nat);
        lemma_pow2_adds(s as nat, w as nat);
        lemma_pow2_pos(s as nat);
        zaokraglony_skrocony(n as nat, u, pw);
    }
    if s >= 64 {
        proof {
            lemma2_to64();
            lemma2_to64_rest();
            if s > 64 {
                lemma_pow2_strictly_increases(64, s as nat);
            }
            lemma_basic_div(n as int, pow2(s as nat) as int);
            lemma_small_mod(n as nat, pow2(s as nat));
        }
        return cyfry::z_liczby(0);
    }
    let u: u64 = potega_dwojki(s as u32);
    let c: u64 = n / u;
    let r: u64 = n % u;
    let z: u64 = if r < u - r || (r == u - r && c % 2 == 0) {
        c
    } else {
        c + 1
    };
    cyfry::z_liczby(z)
}

// ---------------------------------------------------------------------------
// Percentages
// ---------------------------------------------------------------------------

/// How often `p` must be doubled until `p / q` has 53 significant bits.
pub open spec fn podwojenia_licznika(p: nat, q: nat) -> nat
    decreases (if p >= UKRYTY * q { 0int } else { UKRYTY * q - p }),
{
    if p == 0 || p >= UKRYTY * q {
        0
    } else {
        1 + podwojenia_licznika(2 * p, q)
    }
}

/// How often `q` must be doubled until `p / q` has no more than 53 significant bits.
pub open spec fn podwojenia_mianownika(p: nat, q: nat) -> nat
    decreases (if p < PELNY * q { 0int } else { p - PELNY * q + 1 }),
{
    if q == 0 || p < PELNY * q {
        0
    } else {
        1 + podwojenia_mianownika(p, 2 * q)
    }
}

/// The binary64 number nearest to `p / q`, a tie going to the even significand:
/// a significand of 53 bits and the power of two that scales it.
pub open spec fn najblizsza(p: nat, q: nat) -> (nat, int) {
    let g = podwojenia_licznika(p, q);
    let d = podwojenia_mianownika(p, q);
    let m = zaokraglony(p * pow2(g), q * pow2(d));
    if m == PELNY {
        (UKRYTY as nat, d - g + 1)
    } else {
        (m, d - g)
    }
}

/// `czesc` as a percentage of `calosc`, computed in binary64 arithmetic: both
/// counts converted, one divided by the other, the quotient multiplied by a
/// hundred, each step rounded to nearest. Zero where there is nothing to count.
pub open spec fn procent_z(czesc: nat, calosc: nat) -> Binary64 {
    if czesc == 0 || calosc == 0 {
        Binary64 { bits: 0 }
    } else {
        let a = najblizsza(czesc, 1);
        let b = najblizsza(calosc, 1);
        let r = najblizsza(a.0, b.0);
        let s = najblizsza(r.0 * 100, 1);
        let k = s.1 + r.1 + a.1 - b.1;
        Binary64 { bits: ((k + 1075) * UKRYTY + s.0 - UKRYTY) as u64 }
    }
}

/// The binary64 number nearest to `p0 / q0`.
fn znormalizuj(p0: u64, q0: u64) -> (r: (u64, i32))
    requires
        0 < p0,
        0 < q0,
    ensures
        r.0 == najblizsza(p0 as nat, q0 as nat).0,
        r.1 == najblizsza(p0 as nat, q0 as nat).1,
        UKRYTY <= r.0 < PELNY,
        -130 < r.1 < 70,
{
    let mut p: u128 = p0 as u128;
    let mut q: u128 = q0 as u128;
    let mut g: i32 = 0;
    let mut d: i32 = 0;
    proof {
        lemma2_to64();
        lemma2_to64_rest();
        lemma_pow2_adds(63, 64);
        assert(p0 * 1 == p0 && q0 * 1 == q0) by (nonlinear_arith);
    }
    while p < 0x0010_0000_0000_0000u128 * q
        invariant
            0 < p0,
            0 < q,
            q == q0,
            p0 <= p,
            0 <= g < 128,
            p == p0 * pow2(g as nat),
            pow2(g as nat) <= p,
            p < PELNY * q || g == 0,
            p < 0x40_0000_0000_0000_0000_0000_0000_0000,
            podwojenia_licznika(p0 as nat, q0 as nat) == g + podwojenia_licznika(p as nat, q0 as nat),
            pow2(127) == 0x8000_0000_0000_0000_0000_0000_0000_0000,
            g > 0 ==> p0 < UKRYTY * q,
        decreases (if p < UKRYTY * q { UKRYTY * q - p } else { 0int }),
    {
        proof {
            lemma_pow2_unfold((g + 1) as nat);
            let z = pow2(g as nat);
            assert(2 * (p0 * z) == p0 * (2 * z)) by (nonlinear_arith);
            if g + 1 > 127 {
                lemma_pow2_strictly_increases(127, (g + 1) as nat);
            }
        }
        p = 2 * p;
        g = g + 1;
    }
    proof {
        if g >= 127 {
            if g > 127 {
                lemma_pow2_strictly_increases(127, g as nat);
            }
        }
        lemma2_to64();
        lemma2_to64_rest();
    }
    while p >= 2 * (0x0010_0000_0000_0000u128 * q)
        invariant
            0 < p0,
            0 < q0,
            0 < q,
            0 <= d < 64,
            0 <= g < 127,
            g > 0 ==> p < PELNY * q0 && p0 < UKRYTY * q0,
            g == 0 ==> p == p0,
            q == q0 * pow2(d as nat),
            pow2(d as nat) <= q,
            q <= 0xFFFF_FFFF_FFFF_FFFF,
            q0 <= q,
            UKRYTY * q <= p,
            podwojenia_mianownika(p0 as nat, q0 as nat) == d + podwojenia_mianownika(p0 as nat, q as nat),
            pow2(64) == 0x1_0000_0000_0000_0000,
            p < 0x40_0000_0000_0000_0000_0000_0000_0000,
        decreases (if p >= PELNY * q { p - PELNY * q + 1 } else { 0int }),
    {
        proof {
            lemma_pow2_unfold((d + 1) as nat);
            let z = pow2(d as nat);
            assert(2 * (q0 * z) == q0 * (2 * z)) by (nonlinear_arith);
            if d + 1 > 64 {
                lemma_pow2_strictly_increases(64, (d + 1) as nat);
            }
        }
        q = 2 * q;
        d = d + 1;
    }
    let c: u128 = p / q;
    let r: u128 = p % q;
    proof {
        assert(podwojenia_mianownika(p0 as nat, q0 as nat) == d);
        let u = 0x0010_0000_0000_0000int;
        assert(u <= c && c < 2 * u) by (nonlinear_arith)
            requires
                c == p / q,
                u * q <= p,
                p < 2 * u * q,
                q > 0,
        ;
    }
    let m: u128 = if r < q - r || (r == q - r && c % 2 == 0) {
        c
    } else {
        c + 1
    };
    if m == 0x0020_0000_0000_0000u128 {
        (UKRYTY, d - g + 1)
    } else {
        (m as u64, d - g)
    }
}

/// `czesc` as a percentage of `calosc`, zero where either is zero.
pub fn procent(czesc: u64, calosc: u64) -> (r: Binary64)
    ensures
        r == procent_z(czesc as nat, calosc as nat),
{
    if czesc == 0 || calosc == 0 {
        return Binary64 { bits: 0 };
    }
    let a = znormalizuj(czesc, 1);
    let b = znormalizuj(calosc, 1);
    let r = znormalizuj(a.0, b.0);
    let s = znormalizuj(r.0 * 100, 1);
    let k: i32 = s.1 + r.1 + a.1 - b.1;
    let e: u64 = (k + 1075) as u64;
    assert(e * UKRYTY <= 1500 * UKRYTY) by (nonlinear_arith)
        requires
            e <= 1500,
    ;
    Binary64 { bits: e * UKRYTY + (s.0 - UKRYTY) }
}

} // verus!
