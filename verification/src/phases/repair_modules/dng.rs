//! DNG and other raw images on TIFF: structure from one copy, data from the other.

use vstd::prelude::*;

use crate::phases::phase8;
use crate::phases::repair_modules::cel;
use crate::phases::repair_modules::praca;
use crate::phases::repair_modules::praca::{
    Badanie, Czynnosc, Kandydat, KrokNaprawy, KrokWeryfikacji, Naprawa, Nastepny, Ruch, Werdykt,
    Zdarzenie,
};
use crate::phases::repair_modules::skladanie;
use crate::phases::repair_modules::weryfikacja;
use crate::phases::repair_modules;
use crate::phases::repair_modules::{RepairContext, RepairModule};
use crate::tekst;

verus! {

/// Raw formats built on the TIFF container.
pub open spec fn raw_na_tiff(e: Seq<char>) -> bool {
    e == "dng"@ || e == "nef"@ || e == "cr2"@ || e == "arw"@ || e == "orf"@ || e == "pef"@ || e
        == "srw"@ || e == "rw2"@
}

/// Whether an extension belongs to a raw format built on the TIFF container.
pub fn jest_raw_na_tiff(e: &str) -> (r: bool)
    ensures
        r == raw_na_tiff(e@),
{
    tekst::rowne(e, "dng") || tekst::rowne(e, "nef") || tekst::rowne(e, "cr2") || tekst::rowne(
        e,
        "arw",
    ) || tekst::rowne(e, "orf") || tekst::rowne(e, "pef") || tekst::rowne(e, "srw")
        || tekst::rowne(e, "rw2")
}

/// A raw image that did not read: cut off, refused by the header check, or not
/// decoded.
pub open spec fn nieodczytany_dng(ctx: &RepairContext<'_>) -> bool {
    raw_na_tiff(ctx.ext@) && (ctx.eof_ok == Some(false) || repair_modules::powod_zawiera(
        ctx,
        "RAW"@,
    ) || ctx.media_decoded == Some(false))
}

/// Whether a file is a raw image that did not read.
pub fn jest_nieodczytanym_dng(ctx: &RepairContext<'_>) -> (r: bool)
    ensures
        r == nieodczytany_dng(ctx),
{
    jest_raw_na_tiff(ctx.ext) && (phase8::nie(ctx.eof_ok) || repair_modules::powod_ma(ctx, "RAW")
        || phase8::nie(ctx.media_decoded))
}

/// The first candidate whose moved data look like sensor data and that decodes.
pub open spec fn pierwszy_wiarygodny(k: Seq<Kandydat>) -> Option<Kandydat>
    decreases k.len(),
{
    if k.len() == 0 {
        None
    } else if k[0].plausible && k[0].decodes {
        Some(k[0])
    } else {
        pierwszy_wiarygodny(k.skip(1))
    }
}

/// The position of the first candidate that is plausible and decodes.
pub fn wybierz_kandydata(k: &Vec<Kandydat>) -> (r: Option<usize>)
    ensures
        match r {
            Some(i) => i < k@.len() && pierwszy_wiarygodny(k@) == Some(k@[i as int]),
            None => pierwszy_wiarygodny(k@) is None,
        },
{
    let mut i: usize = 0;
    assert(k@.skip(0) =~= k@);
    while i < k.len()
        invariant
            i <= k@.len(),
            pierwszy_wiarygodny(k@) == pierwszy_wiarygodny(k@.skip(i as int)),
        decreases k@.len() - i,
    {
        assert(k@.skip(i as int)[0] == k@[i as int]);
        assert(k@.skip(i as int).skip(1) =~= k@.skip(i + 1));
        if k[i].plausible && k[i].decodes {
            return Some(i);
        }
        i = i + 1;
    }
    None
}

/// The line for the log of a file that was put together.
pub open spec fn opis_zlozenia(k: Kandydat, dawca: Seq<char>) -> Seq<char> {
    k.description@ + "; entropia przeniesionych danych "@ + k.donated_data_entropy.zapis(2)
        + " bit/bajt (plauzybilne dane sensora); dawca: "@ + dawca
        + ". UWAGA: potwierdzona wyłącznie spójność struktury, NIE poprawność pikseli."@
}

/// The line for the log of a file that was put together.
pub fn opisz_zlozenie(k: &Kandydat, dawca: &str) -> (r: String)
    ensures
        r@ == opis_zlozenia(*k, dawca@),
{
    let mut s = k.description.clone();
    s.append("; entropia przeniesionych danych ");
    s.append(k.donated_data_entropy.zapisz(2).as_str());
    s.append(" bit/bajt (plauzybilne dane sensora); dawca: ");
    s.append(dawca);
    s.append(". UWAGA: potwierdzona wyłącznie spójność struktury, NIE poprawność pikseli.");
    s
}

/// Takes the structure of a raw image from one copy and its pixels from the other.
pub struct DngStructuralModule;

impl RepairModule for DngStructuralModule {
    open spec fn identyfikator(&self) -> Seq<char> {
        "dng_structural"@
    }

    open spec fn nazwa(&self) -> Seq<char> {
        "DNG składanie strukturalne z bliźniaczej kopii (gwarancja SŁABA)"@
    }

    open spec fn stosuje_sie(&self, ctx: &RepairContext<'_>) -> bool {
        nieodczytany_dng(ctx)
    }

    open spec fn naprawa(
        &self,
        zrodlo: Seq<char>,
        ctx: &RepairContext<'_>,
        dawca: Option<Seq<char>>,
        katalog: Seq<char>,
        h: Seq<Zdarzenie>,
    ) -> Nastepny<Naprawa> {
        match dawca {
            None => Nastepny::Koniec(None),
            Some(d) => if h.len() < 1 {
                Nastepny::Ruch(Ruch::Kandydaci(zrodlo, d))
            } else {
                match h[0] {
                    Zdarzenie::Kandydaci(Some(v)) => match (
                        pierwszy_wiarygodny(v@),
                        cel::cel(zrodlo, katalog, "_repaired_dng"@, ctx.ext@),
                    ) {
                        (Some(k), Some(c)) => skladanie::zapis(
                            c,
                            k.bytes@,
                            opis_zlozenia(k, d),
                            h,
                            1,
                        ),
                        _ => Nastepny::Koniec(None),
                    },
                    _ => Nastepny::Koniec(None),
                }
            },
        }
    }

    open spec fn weryfikacja(&self, plik: Seq<char>, h: Seq<Zdarzenie>) -> Nastepny<Werdykt> {
        match weryfikacja::badanie_pliku(plik, Badanie::RawObraz, h) {
            Err(k) => k,
            Ok(z) => Nastepny::Koniec(
                weryfikacja::tak_lub_nie(
                    praca::powiodlo_sie(z),
                    "dekodowanie RAW przez rawloader (gwarancja SŁABA - potwierdza spójność struktury TIFF/IFD, nie treść pikseli)"@,
                    "złożony plik nie daje się zdekodować jako RAW"@,
                ),
            ),
        }
    }

    open spec fn odmawia_dekoder(&self, plik: Seq<char>, h: Seq<Zdarzenie>) -> bool {
        false
    }

    fn id(&self) -> (r: &'static str) {
        "dng_structural"
    }

    fn display_name(&self) -> (r: &'static str) {
        "DNG składanie strukturalne z bliźniaczej kopii (gwarancja SŁABA)"
    }

    fn applies_to(&self, ctx: &RepairContext<'_>) -> (r: bool) {
        jest_nieodczytanym_dng(ctx)
    }

    fn repair(
        &self,
        source: &str,
        ctx: &RepairContext<'_>,
        twin: Option<&str>,
        katalog_wyjsciowy: &str,
        h: &Vec<Zdarzenie>,
    ) -> (r: KrokNaprawy) {
        let d = match twin {
            None => {
                return KrokNaprawy::Koniec(None);
            },
            Some(d) => d,
        };
        if h.len() < 1 {
            return KrokNaprawy::Wykonaj(Czynnosc::Kandydaci(source.to_owned(), d.to_owned()));
        }
        match &h[0] {
            Zdarzenie::Kandydaci(Some(v)) => match (
                wybierz_kandydata(v),
                cel::wyznacz_cel(source, katalog_wyjsciowy, "_repaired_dng", ctx.ext),
            ) {
                (Some(i), Some(c)) => {
                    let opis = opisz_zlozenie(&v[i], d);
                    skladanie::zapisz_wynik(c, &v[i].bytes, opis, h, 1)
                },
                _ => KrokNaprawy::Koniec(None),
            },
            _ => KrokNaprawy::Koniec(None),
        }
    }

    fn verify(&self, repaired: &str, _ctx: &RepairContext<'_>, h: &Vec<Zdarzenie>) -> (r:
        KrokWeryfikacji) {
        match weryfikacja::zbadaj_plik(repaired, Badanie::RawObraz, h) {
            Err(k) => k,
            Ok(z) => KrokWeryfikacji::Werdykt(
                weryfikacja::werdykt_silnika(
                    praca::udane(z),
                    "dekodowanie RAW przez rawloader (gwarancja SŁABA - potwierdza spójność struktury TIFF/IFD, nie treść pikseli)",
                    "złożony plik nie daje się zdekodować jako RAW",
                ),
            ),
        }
    }
}

} // verus!
