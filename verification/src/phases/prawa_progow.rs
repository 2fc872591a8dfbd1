//! What the thresholds of the measurements are as numbers.

use vstd::arithmetic::power2::*;
use vstd::prelude::*;

use crate::binary64;
use crate::binary64::Binary64;
use crate::phases::phase7::entropia;
use crate::phases::phase8;

verus! {

/// The value of the number one.
pub open spec fn jeden() -> int {
    pow2(1074) as int
}

/// The number with the bits `prog`.
pub open spec fn liczba(prog: u64) -> Binary64 {
    Binary64 { bits: prog }
}

/// `x` is a number above `n` thousandths.
pub open spec fn ponad(x: Binary64, n: int) -> bool {
    !x.nie_liczba() && 1000 * x.wartosc() > n * jeden()
}

/// `x` is a number of at least `n` thousandths.
pub open spec fn co_najmniej(x: Binary64, n: int) -> bool {
    !x.nie_liczba() && 1000 * x.wartosc() >= n * jeden()
}

/// `x` is a number below `n` thousandths.
pub open spec fn pod(x: Binary64, n: int) -> bool {
    !x.nie_liczba() && 1000 * x.wartosc() < n * jeden()
}

/// `x` is a number of more than 7.995, by more than the rounding with which a
/// binary64 number holds 7.995 itself (2^-51).
pub open spec fn szum(x: Binary64) -> bool {
    !x.nie_liczba() && 1000 * x.wartosc() > 7995 * jeden() + 1000 * pow2(1023)
}

/// A significand scaled by a power of two, where both together make up `k` ones.
proof fn calkowity(prog: u64, k: nat, m: nat, e: nat, z: nat)
    requires
        prog < binary64::NIESKONCZONOSC,
        binary64::mantysa(prog as nat) == m,
        binary64::przesuniecie(prog as nat) == e,
        m == k * pow2(z),
        z + e == 1074,
    ensures
        liczba(prog).wartosc() == k * jeden(),
        !liczba(prog).nie_liczba(),
{
    lemma_pow2_adds(z, e);
    assert((k * pow2(z)) * pow2(e) == k * (pow2(z) * pow2(e))) by (nonlinear_arith);
    assert((prog as nat) % (binary64::ZNAK as nat) == prog as nat);
}

/// The thresholds are the numbers that they are called: 99 percent of zeros, 90
/// percent of likeness, entropies of 1, 6 and 7.5 bits per byte, and 4 where the
/// entropy was not measured.
pub proof fn progi_maja_swoje_wartosci()
    ensures
        liczba(phase8::PROG_ZER).wartosc() == 99 * jeden(),
        liczba(phase8::PROG_PODOBIENSTWA).wartosc() == 90 * jeden(),
        liczba(phase8::PROG_PUSTKI).wartosc() == jeden(),
        liczba(phase8::ENTROPIA_NIEZNANA).wartosc() == 4 * jeden(),
        2 * liczba(entropia::PROG_SZYFROWANIA).wartosc() == 15 * jeden(),
        liczba(entropia::PROG_KOMPRESJI).wartosc() == 6 * jeden(),
        !liczba(phase8::PROG_ZER).nie_liczba(),
        !liczba(phase8::PROG_PODOBIENSTWA).nie_liczba(),
        !liczba(phase8::PROG_PUSTKI).nie_liczba(),
        !liczba(phase8::ENTROPIA_NIEZNANA).nie_liczba(),
        !liczba(entropia::PROG_SZYFROWANIA).nie_liczba(),
        !liczba(entropia::PROG_KOMPRESJI).nie_liczba(),
{
    lemma2_to64();
    lemma2_to64_rest();
    lemma_pow2_pos(1074);
    calkowity(phase8::PROG_ZER, 99, 99 * pow2(46), 1028, 46);
    calkowity(phase8::PROG_PODOBIENSTWA, 90, 90 * pow2(46), 1028, 46);
    calkowity(phase8::PROG_PUSTKI, 1, pow2(52), 1022, 52);
    calkowity(phase8::ENTROPIA_NIEZNANA, 4, 4 * pow2(50), 1024, 50);
    calkowity(entropia::PROG_KOMPRESJI, 6, 6 * pow2(50), 1024, 50);
    let p = entropia::PROG_SZYFROWANIA;
    lemma_pow2_adds(49, 1024);
    lemma_pow2_unfold(1074);
    assert((15 * pow2(49)) * pow2(1024) == 15 * (pow2(49) * pow2(1024))) by (nonlinear_arith);
    assert((p as nat) % (binary64::ZNAK as nat) == p as nat);
}

/// A measurement exceeds the threshold of noise exactly where it exceeds 7.995.
pub proof fn prog_szumu(x: Binary64)
    ensures
        phase8::powyzej(x, phase8::PROG_SZUMU) <==> szum(x),
        x.najwyzej(liczba(phase8::PROG_SZUMU)) <==> !x.nie_liczba() && !szum(x),
{
    let p = phase8::PROG_SZUMU;
    let t = p as nat;
    lemma2_to64();
    lemma2_to64_rest();
    lemma_pow2_pos(1024);
    lemma_pow2_adds(50, 1024);
    lemma_pow2_unfold(1024);
    assert(t % (binary64::ZNAK as nat) == t);
    assert(pow2(50) == 0x4_0000_0000_0000);
    let d = pow2(1024);
    assert(1000 * (9001569755206779nat * d) == 7995 * (pow2(50) * d) + 120 * d) by (nonlinear_arith)
        requires
            pow2(50) == 0x4_0000_0000_0000,
    ;
    assert(9001569755206780nat * d == 9001569755206779nat * d + d) by (nonlinear_arith);
    let m = x.modul();
    binary64::rosnie(m, t);
    binary64::rosnie(t + 1, m);
    assert(binary64::jednostki(t) == 9001569755206779nat * d);
    assert(binary64::jednostki(t + 1) == 9001569755206780nat * d);
}

/// Comparison with a threshold of `k` ones is comparison with `1000 * k`
/// thousandths.
pub proof fn prog_calkowity(x: Binary64, prog: u64, k: int)
    requires
        !liczba(prog).nie_liczba(),
        liczba(prog).wartosc() == k * jeden(),
    ensures
        phase8::powyzej(x, prog) <==> ponad(x, 1000 * k),
        phase8::ponizej(x, prog) <==> pod(x, 1000 * k),
        phase8::osiaga(x, prog) <==> co_najmniej(x, 1000 * k),
{
    assert((1000 * k) * jeden() == 1000 * (k * jeden())) by (nonlinear_arith);
}

/// The pattern without any bit is zero.
pub proof fn zero_jest_zerem()
    ensures
        liczba(0).wartosc() == 0,
        !liczba(0).nie_liczba(),
{
    assert(binary64::jednostki(0) == 0) by (nonlinear_arith);
}

} // verus!
