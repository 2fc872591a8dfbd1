//! Laws of the classification of entropies.

use vstd::prelude::*;

use crate::binary64::Binary64;
use crate::phases::phase7::entropia;
use crate::phases::phase7::entropia::KategoriaEntropii;
use crate::phases::phase8;
use crate::phases::prawa_progow;

verus! {

/// The bounds of the classes in bits per byte: noise lies above 7.995 whatever the
/// format; an uncompressed format above 7.5 looks encrypted; a compressed one below
/// 6.0 is broken; an uncompressed one from 0.0 up to 1.0 is a husk. Nothing else is
/// an anomaly, and what is not a number is none.
pub proof fn granice_klas(ent: Binary64, skompresowany: bool)
    ensures
        ({
            let k = entropia::klasa(ent, skompresowany);
            &&& k == Some(KategoriaEntropii::Szum) <==> prawa_progow::szum(ent)
            &&& k == Some(KategoriaEntropii::Zaszyfrowany) <==> !skompresowany
                && prawa_progow::ponad(ent, 7500) && !prawa_progow::szum(ent)
            &&& k == Some(KategoriaEntropii::ZepsutaKompresja) <==> skompresowany
                && prawa_progow::pod(ent, 6000)
            &&& k == Some(KategoriaEntropii::Wydmuszka) <==> !skompresowany
                && prawa_progow::co_najmniej(ent, 0) && prawa_progow::pod(ent, 1000)
        }),
{
    prawa_progow::progi_maja_swoje_wartosci();
    prawa_progow::zero_jest_zerem();
    vstd::arithmetic::power2::lemma_pow2_pos(1074);
    vstd::arithmetic::power2::lemma_pow2_pos(1023);
    prawa_progow::prog_szumu(ent);
    prawa_progow::prog_calkowity(ent, entropia::PROG_KOMPRESJI, 6);
    prawa_progow::prog_calkowity(ent, phase8::PROG_PUSTKI, 1);
    prawa_progow::prog_calkowity(ent, 0, 0);
}

/// Compression moves only the middle of the scale: noise is noise in either format,
/// and below 1.0 both formats are anomalous from zero on.
pub proof fn klasa_a_kompresja(ent: Binary64)
    ensures
        ({
            let z = entropia::klasa(ent, true);
            let bez = entropia::klasa(ent, false);
            &&& z == Some(KategoriaEntropii::Szum) <==> bez == Some(KategoriaEntropii::Szum)
            &&& bez == Some(KategoriaEntropii::Wydmuszka) ==> z == Some(
                KategoriaEntropii::ZepsutaKompresja,
            )
            &&& z != Some(KategoriaEntropii::Zaszyfrowany) && z != Some(
                KategoriaEntropii::Wydmuszka,
            )
            &&& bez != Some(KategoriaEntropii::ZepsutaKompresja)
            &&& bez == Some(KategoriaEntropii::Zaszyfrowany) ==> z is None
        }),
{
    granice_klas(ent, true);
    granice_klas(ent, false);
}

/// A higher entropy never looks emptier: among formats of one sort, what lies above
/// noise is noise, and what lies below a husk or a broken compression is no better.
pub proof fn klasy_rosna(a: Binary64, b: Binary64, skompresowany: bool)
    requires
        !a.nie_liczba() && !b.nie_liczba(),
        a.wartosc() <= b.wartosc(),
    ensures
        entropia::klasa(a, skompresowany) == Some(KategoriaEntropii::Szum) ==> entropia::klasa(
            b,
            skompresowany,
        ) == Some(KategoriaEntropii::Szum),
        entropia::klasa(b, skompresowany) == Some(KategoriaEntropii::ZepsutaKompresja)
            ==> entropia::klasa(a, skompresowany) == Some(KategoriaEntropii::ZepsutaKompresja),
        entropia::klasa(b, skompresowany) == Some(KategoriaEntropii::Wydmuszka) && a.wartosc() >= 0
            ==> entropia::klasa(a, skompresowany) == Some(KategoriaEntropii::Wydmuszka),
{
    granice_klas(a, skompresowany);
    granice_klas(b, skompresowany);
}

} // verus!
