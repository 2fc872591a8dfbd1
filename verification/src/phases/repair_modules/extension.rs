//! Correction of a false extension, by the type that the content has.

use vstd::prelude::*;

use crate::phases::repair_modules::cel;
use crate::phases::repair_modules::praca;
use crate::phases::repair_modules::praca::{
    Czynnosc, KrokNaprawy, KrokWeryfikacji, Naprawa, Nastepny, Ruch, Werdykt, Zdarzenie,
};
use crate::phases::repair_modules::weryfikacja;
use crate::phases::repair_modules::{RepairContext, RepairModule};
use crate::tekst;

verus! {

/// The true type that a reason names: what stands between `Wewnątrz to: ` and
/// the next closing bracket.
pub open spec fn mime_w_powodzie(p: Seq<char>) -> Option<Seq<char>> {
    match tekst::pierwsze(p, "Wewnątrz to: "@, 0) {
        None => None,
        Some(i) => {
            let od = i + "Wewnątrz to: "@.len();
            match tekst::pierwsze(p, ")"@, od) {
                None => None,
                Some(k) => Some(p.subrange(od, k)),
            }
        },
    }
}

/// The true type that a reason names.
pub fn extract_true_mime(reason: &str) -> (r: Option<String>)
    ensures
        tekst::widok(r) == mime_w_powodzie(reason@),
{
    let p = tekst::znaki(reason);
    let wstep = tekst::znaki("Wewnątrz to: ");
    let nawias = tekst::znaki(")");
    match tekst::pozycja_od(&p, &wstep, 0) {
        None => None,
        Some(i) => {
            assert(i + wstep@.len() <= p.len());
            let od: usize = i + wstep.len();
            match tekst::pozycja_od(&p, &nawias, od) {
                None => None,
                Some(k) => Some(tekst::wycinek(&p, od, k)),
            }
        },
    }
}

/// The extension that fits a type, for the types that are known.
pub open spec fn rozszerzenie_typu(m: Seq<char>) -> Option<Seq<char>> {
    if tekst::zawiera_tekst(m, "jpeg"@) {
        Some("jpg"@)
    } else if tekst::zawiera_tekst(m, "png"@) {
        Some("png"@)
    } else if tekst::zawiera_tekst(m, "pdf"@) {
        Some("pdf"@)
    } else if tekst::zawiera_tekst(m, "mp4"@) {
        Some("mp4"@)
    } else if tekst::zawiera_tekst(m, "zip"@) {
        Some("zip"@)
    } else {
        None
    }
}

/// The extension that fits a type.
pub fn dobierz_rozszerzenie(m: &str) -> (r: Option<&'static str>)
    ensures
        tekst::widok_ref(r) == rozszerzenie_typu(m@),
{
    if tekst::zawiera(m, "jpeg") {
        Some("jpg")
    } else if tekst::zawiera(m, "png") {
        Some("png")
    } else if tekst::zawiera(m, "pdf") {
        Some("pdf")
    } else if tekst::zawiera(m, "mp4") {
        Some("mp4")
    } else if tekst::zawiera(m, "zip") {
        Some("zip")
    } else {
        None
    }
}

/// The true extension of the file, from the reason of its anomaly.
pub open spec fn prawdziwe_rozszerzenie(ctx: &RepairContext<'_>) -> Option<Seq<char>> {
    match ctx.media_reason {
        None => None,
        Some(p) => match mime_w_powodzie(p@) {
            None => None,
            Some(m) => rozszerzenie_typu(m),
        },
    }
}

/// Copies a file under the extension that fits its true type.
pub struct ExtensionModule;

impl RepairModule for ExtensionModule {
    open spec fn identyfikator(&self) -> Seq<char> {
        "extension"@
    }

    open spec fn nazwa(&self) -> Seq<char> {
        "Korekta fałszywego rozszerzenia"@
    }

    open spec fn stosuje_sie(&self, ctx: &RepairContext<'_>) -> bool {
        ctx.media_reason matches Some(p) && tekst::zawiera_tekst(p@, "Fałszywe"@) && mime_w_powodzie(
            p@,
        ) is Some
    }

    open spec fn naprawa(
        &self,
        zrodlo: Seq<char>,
        ctx: &RepairContext<'_>,
        dawca: Option<Seq<char>>,
        katalog: Seq<char>,
        h: Seq<Zdarzenie>,
    ) -> Nastepny<Naprawa> {
        match prawdziwe_rozszerzenie(ctx) {
            None => Nastepny::Koniec(None),
            Some(e) => match cel::cel(zrodlo, katalog, "_repaired"@, e) {
                None => Nastepny::Koniec(None),
                Some(c) => if h.len() < 1 {
                    Nastepny::Ruch(Ruch::Kopiuj(zrodlo, c))
                } else if praca::powiodlo_sie(h[0]) {
                    Nastepny::Koniec(Some((c, "Poprawiono fałszywe rozszerzenie na ."@ + e)))
                } else {
                    Nastepny::Koniec(None)
                },
            },
        }
    }

    open spec fn weryfikacja(&self, plik: Seq<char>, h: Seq<Zdarzenie>) -> Nastepny<Werdykt> {
        weryfikacja::weryfikacja_pliku(plik, h)
    }

    open spec fn odmawia_dekoder(&self, plik: Seq<char>, h: Seq<Zdarzenie>) -> bool {
        weryfikacja::odmowa_dekodera(plik, h)
    }

    fn id(&self) -> (r: &'static str) {
        "extension"
    }

    fn display_name(&self) -> (r: &'static str) {
        "Korekta fałszywego rozszerzenia"
    }

    fn applies_to(&self, ctx: &RepairContext<'_>) -> (r: bool) {
        match ctx.media_reason {
            Some(p) => tekst::zawiera(p, "Fałszywe") && extract_true_mime(p).is_some(),
            None => false,
        }
    }

    fn repair(
        &self,
        source: &str,
        ctx: &RepairContext<'_>,
        _twin: Option<&str>,
        katalog_wyjsciowy: &str,
        h: &Vec<Zdarzenie>,
    ) -> (r: KrokNaprawy) {
        let mime = match ctx.media_reason {
            None => {
                return KrokNaprawy::Koniec(None);
            },
            Some(p) => match extract_true_mime(p) {
                None => {
                    return KrokNaprawy::Koniec(None);
                },
                Some(m) => m,
            },
        };
        let e = match dobierz_rozszerzenie(mime.as_str()) {
            None => {
                return KrokNaprawy::Koniec(None);
            },
            Some(e) => e,
        };
        match cel::wyznacz_cel(source, katalog_wyjsciowy, "_repaired", e) {
            None => KrokNaprawy::Koniec(None),
            Some(c) => {
                if h.len() < 1 {
                    KrokNaprawy::Wykonaj(Czynnosc::Kopiuj(source.to_owned(), c))
                } else if praca::udane(&h[0]) {
                    let mut opis = "Poprawiono fałszywe rozszerzenie na .".to_owned();
                    opis.append(e);
                    KrokNaprawy::Koniec(Some((c, opis)))
                } else {
                    KrokNaprawy::Koniec(None)
                }
            },
        }
    }

    fn verify(&self, repaired: &str, _ctx: &RepairContext<'_>, h: &Vec<Zdarzenie>) -> (r:
        KrokWeryfikacji) {
        weryfikacja::weryfikuj_naprawiony_plik(repaired, h)
    }
}

} // verus!
