//! Counting of bytes and classification of the entropy of a file.

use vstd::prelude::*;

use crate::binary64;
use crate::binary64::Binary64;
use crate::phases::phase8;
use crate::sciezka;
use crate::tekst;

verus! {

/// 7.5: above it, a format that is not compressed looks encrypted.
pub const PROG_SZYFROWANIA: u64 = 0x401E_0000_0000_0000;

/// 6.0: below it, a compressed format looks broken.
pub const PROG_KOMPRESJI: u64 = 0x4018_0000_0000_0000;

/// What the entropy of a file betrays.
#[derive(Clone, Copy, PartialEq, Eq, Structural, Debug)]
pub enum KategoriaEntropii {
    Szum,
    Zaszyfrowany,
    ZepsutaKompresja,
    Wydmuszka,
}

/// The class of an entropy in bits per byte, for a format that is compressed or
/// not. A husk lies in the closed range from zero up to one.
pub open spec fn klasa(ent: Binary64, skompresowany: bool) -> Option<KategoriaEntropii> {
    if phase8::powyzej(ent, phase8::PROG_SZUMU) {
        Some(KategoriaEntropii::Szum)
    } else if phase8::powyzej(ent, PROG_SZYFROWANIA) && !skompresowany {
        Some(KategoriaEntropii::Zaszyfrowany)
    } else if phase8::ponizej(ent, PROG_KOMPRESJI) && skompresowany {
        Some(KategoriaEntropii::ZepsutaKompresja)
    } else if phase8::osiaga(ent, 0) && phase8::ponizej(ent, phase8::PROG_PUSTKI) {
        Some(KategoriaEntropii::Wydmuszka)
    } else {
        None
    }
}

/// Classifies the entropy of a file.
pub fn klasyfikuj_entropie(ent: Binary64, is_compressed: bool) -> (r: Option<KategoriaEntropii>)
    ensures
        r == klasa(ent, is_compressed),
{
    if phase8::przekracza(ent, phase8::PROG_SZUMU) {
        Some(KategoriaEntropii::Szum)
    } else if phase8::przekracza(ent, PROG_SZYFROWANIA) && !is_compressed {
        Some(KategoriaEntropii::Zaszyfrowany)
    } else if ent.mniejsza(Binary64 { bits: PROG_KOMPRESJI }) && is_compressed {
        Some(KategoriaEntropii::ZepsutaKompresja)
    } else if (Binary64 { bits: 0 }).co_najwyzej(ent) && ent.mniejsza(
        Binary64 { bits: phase8::PROG_PUSTKI },
    ) {
        Some(KategoriaEntropii::Wydmuszka)
    } else {
        None
    }
}

/// No entropy from zero up to one goes unclassified: a husk where the format is
/// not compressed, a broken compression where it is.
pub proof fn pusty_blok_zawsze_sklasyfikowany(ent: Binary64, skompresowany: bool)
    requires
        phase8::osiaga(ent, 0),
        phase8::ponizej(ent, phase8::PROG_PUSTKI),
    ensures
        klasa(ent, skompresowany) == Some(
            if skompresowany {
                KategoriaEntropii::ZepsutaKompresja
            } else {
                KategoriaEntropii::Wydmuszka
            },
        ),
{
    progi_rosna();
}

/// The value of the number with the bits `prog`.
spec fn wartosc_progu(prog: u64) -> int {
    Binary64 { bits: prog }.wartosc()
}

/// The thresholds stand in the order of the classes.
proof fn progi_rosna()
    ensures
        wartosc_progu(phase8::PROG_PUSTKI) < wartosc_progu(PROG_KOMPRESJI),
        wartosc_progu(PROG_KOMPRESJI) < wartosc_progu(PROG_SZYFROWANIA),
        wartosc_progu(PROG_SZYFROWANIA) < wartosc_progu(phase8::PROG_SZUMU),
{
    binary64::rosnie(phase8::PROG_PUSTKI as nat, PROG_KOMPRESJI as nat);
    binary64::rosnie(PROG_KOMPRESJI as nat, PROG_SZYFROWANIA as nat);
    binary64::rosnie(PROG_SZYFROWANIA as nat, phase8::PROG_SZUMU as nat);
}

/// Formats that are compressed by design.
pub open spec fn skompresowany(e: Seq<char>) -> bool {
    e == "zip"@ || e == "rar"@ || e == "7z"@ || e == "jpg"@ || e == "jpeg"@ || e == "png"@ || e
        == "mp4"@ || e == "mkv"@ || e == "pdf"@ || e == "apk"@ || e == "gz"@ || e == "docx"@ || e
        == "xlsx"@
}

/// Whether a format is compressed by design.
pub fn jest_skompresowany(e: &str) -> (r: bool)
    ensures
        r == skompresowany(e@),
{
    tekst::rowne(e, "zip") || tekst::rowne(e, "rar") || tekst::rowne(e, "7z") || tekst::rowne(
        e,
        "jpg",
    ) || tekst::rowne(e, "jpeg") || tekst::rowne(e, "png") || tekst::rowne(e, "mp4")
        || tekst::rowne(e, "mkv") || tekst::rowne(e, "pdf") || tekst::rowne(e, "apk")
        || tekst::rowne(e, "gz") || tekst::rowne(e, "docx") || tekst::rowne(e, "xlsx")
}

/// The extension under which a file is counted: in lower case, `brak` for none.
pub open spec fn format_pliku(rel: Seq<char>) -> Seq<char> {
    tekst::male_litery(
        match sciezka::rozszerzenie(rel) {
            Some(e) => e,
            None => "brak"@,
        },
    )
}

/// The extension under which a file is counted.
pub fn wyznacz_format(rel_path: &str) -> (r: String)
    ensures
        r@ == format_pliku(rel_path@),
{
    let e = match sciezka::rozszerzenie_pliku(rel_path) {
        Some(e) => e,
        None => "brak".to_owned(),
    };
    tekst::na_male_litery(e.as_str())
}

/// How often a byte occurs.
pub open spec fn wystapienia(s: Seq<u8>, b: u8) -> nat
    decreases s.len(),
{
    if s.len() == 0 {
        0
    } else {
        wystapienia(s.drop_last(), b) + if s.last() == b {
            1nat
        } else {
            0
        }
    }
}

/// The sum of the first `k` counts.
pub open spec fn suma_pierwszych(l: Seq<u64>, k: int) -> int
    decreases k,
{
    if k <= 0 {
        0
    } else {
        suma_pierwszych(l, k - 1) + l[k - 1]
    }
}

/// How often each byte occurs in what was read of a file.
pub struct Histogram {
    pub liczby: Vec<u64>,
    pub razem: u64,
}

impl Histogram {
    /// One count for each byte, and together they are all the bytes read.
    pub open spec fn zgodny(&self) -> bool {
        &&& self.liczby@.len() == 256
        &&& suma_pierwszych(self.liczby@, 256) == self.razem
    }

    /// Nothing was read.
    pub fn new() -> (r: Self)
        ensures
            r.zgodny(),
            r.razem == 0,
            forall|b: u8| r.liczby@[b as int] == 0,
    {
        let mut liczby: Vec<u64> = Vec::new();
        let mut i: usize = 0;
        while i < 256
            invariant
                i <= 256,
                liczby@.len() == i,
                forall|k: int| 0 <= k < i ==> liczby@[k] == 0,
                suma_pierwszych(liczby@, i as int) == 0,
            decreases 256 - i,
        {
            let ghost przed = liczby@;
            liczby.push(0);
            proof {
                suma_bez_zmian(przed, liczby@, i as int);
            }
            i = i + 1;
        }
        Histogram { liczby, razem: 0 }
    }

    /// Counts the bytes of one buffer.
    pub fn dodaj(&mut self, bufor: &Vec<u8>)
        requires
            old(self).zgodny(),
            old(self).razem + bufor@.len() <= u64::MAX,
        ensures
            final(self).zgodny(),
            final(self).razem == old(self).razem + bufor@.len(),
            forall|b: u8|
                #[trigger] final(self).liczby@[b as int] == old(self).liczby@[b as int]
                    + wystapienia(bufor@, b),
    {
        let mut i: usize = 0;
        let ghost l0 = self.liczby@;
        assert(bufor@.take(0) =~= Seq::<u8>::empty());
        while i < bufor.len()
            invariant
                i <= bufor@.len(),
                self.zgodny(),
                l0.len() == 256,
                self.razem == old(self).razem + i,
                old(self).razem + bufor@.len() <= u64::MAX,
                forall|b: u8|
                    #[trigger] self.liczby@[b as int] == l0[b as int] + wystapienia(
                        bufor@.take(i as int),
                        b,
                    ),
            decreases bufor@.len() - i,
        {
            let b: u8 = bufor[i];
            let k: usize = b as usize;
            proof {
                skladnik_sumy(self.liczby@, 256, k as int);
                suma_po_zwiekszeniu(self.liczby@, k as int, 256);
                assert(bufor@.take(i + 1).drop_last() =~= bufor@.take(i as int));
            }
            let n: u64 = self.liczby[k];
            self.liczby.set(k, n + 1);
            self.razem = self.razem + 1;
            i = i + 1;
        }
        assert(bufor@.take(bufor@.len() as int) =~= bufor@);
    }
}

proof fn suma_bez_zmian(a: Seq<u64>, b: Seq<u64>, k: int)
    requires
        0 <= k <= a.len(),
        k <= b.len(),
        forall|i: int| 0 <= i < k ==> a[i] == b[i],
    ensures
        suma_pierwszych(a, k) == suma_pierwszych(b, k),
    decreases k,
{
    if k > 0 {
        suma_bez_zmian(a, b, k - 1);
    }
}

proof fn skladnik_sumy(l: Seq<u64>, k: int, i: int)
    requires
        0 <= i < k <= l.len(),
    ensures
        l[i] <= suma_pierwszych(l, k),
    decreases k,
{
    suma_nieujemna(l, k - 1);
    if i < k - 1 {
        skladnik_sumy(l, k - 1, i);
    }
}

proof fn suma_nieujemna(l: Seq<u64>, k: int)
    requires
        k <= l.len(),
    ensures
        suma_pierwszych(l, k) >= 0,
    decreases k,
{
    if k > 0 {
        suma_nieujemna(l, k - 1);
    }
}

proof fn suma_po_zwiekszeniu(l: Seq<u64>, i: int, k: int)
    requires
        0 <= i < l.len(),
        0 <= k <= l.len(),
        l[i] < u64::MAX,
    ensures
        suma_pierwszych(l.update(i, (l[i] + 1) as u64), k) == suma_pierwszych(l, k) + if i < k {
            1int
        } else {
            0
        },
    decreases k,
{
    if k > 0 {
        suma_po_zwiekszeniu(l, i, k - 1);
    }
}

} // verus!
