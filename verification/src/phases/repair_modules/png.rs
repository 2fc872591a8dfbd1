//! PNG: repair by chunks, with a donor and without.

use vstd::prelude::*;

use crate::phases::phase8;
use crate::phases::repair_modules::cel;
use crate::phases::repair_modules::praca::{
    KrokNaprawy, KrokWeryfikacji, Naprawa, Nastepny, Silnik, Werdykt, Zdarzenie,
};
use crate::phases::repair_modules::skladanie;
use crate::phases::repair_modules::weryfikacja;
use crate::phases::repair_modules;
use crate::phases::repair_modules::{RepairContext, RepairModule};
use crate::tekst;

verus! {

/// A PNG with a trace of damage: its header is broken or its end marker is gone.
pub open spec fn uszkodzony_png(ctx: &RepairContext<'_>) -> bool {
    ctx.ext@ == "png"@ && (ctx.eof_ok == Some(false) || repair_modules::powod_zawiera(
        ctx,
        "Nagłówek"@,
    ))
}

/// Whether a file is a PNG with a trace of damage.
pub fn jest_uszkodzonym_png(ctx: &RepairContext<'_>) -> (r: bool)
    ensures
        r == uszkodzony_png(ctx),
{
    tekst::rowne(ctx.ext, "png") && (phase8::nie(ctx.eof_ok) || repair_modules::powod_ma(
        ctx,
        "Nagłówek",
    ))
}

/// Takes every chunk of a PNG from the copy in which its CRC32 holds.
pub struct PngCloneModule;

impl RepairModule for PngCloneModule {
    open spec fn identyfikator(&self) -> Seq<char> {
        "png_clone"@
    }

    open spec fn nazwa(&self) -> Seq<char> {
        "PNG wybór zdrowych fragmentów z dwóch kopii (CRC32)"@
    }

    open spec fn stosuje_sie(&self, ctx: &RepairContext<'_>) -> bool {
        uszkodzony_png(ctx)
    }

    open spec fn naprawa(
        &self,
        zrodlo: Seq<char>,
        ctx: &RepairContext<'_>,
        dawca: Option<Seq<char>>,
        katalog: Seq<char>,
        h: Seq<Zdarzenie>,
    ) -> Nastepny<Naprawa> {
        match (dawca, cel::cel(zrodlo, katalog, "_repaired_png"@, "png"@)) {
            (Some(d), Some(c)) => match skladanie::praca_silnika(
                Silnik::PngClone,
                zrodlo,
                Some(d),
                c,
                h,
                0,
            ) {
                Err(n) => n,
                Ok(o) => Nastepny::Koniec(
                    Some((c, "Złożono z dwóch kopii, wybierając fragmenty o zgodnym CRC32 (dawca: "@ + d + ")."@)),
                ),
            },
            _ => Nastepny::Koniec(None),
        }
    }

    open spec fn weryfikacja(&self, plik: Seq<char>, h: Seq<Zdarzenie>) -> Nastepny<Werdykt> {
        weryfikacja::weryfikacja_pliku(plik, h)
    }

    open spec fn odmawia_dekoder(&self, plik: Seq<char>, h: Seq<Zdarzenie>) -> bool {
        weryfikacja::odmowa_dekodera(plik, h)
    }

    fn id(&self) -> (r: &'static str) {
        "png_clone"
    }

    fn display_name(&self) -> (r: &'static str) {
        "PNG wybór zdrowych fragmentów z dwóch kopii (CRC32)"
    }

    fn applies_to(&self, ctx: &RepairContext<'_>) -> (r: bool) {
        jest_uszkodzonym_png(ctx)
    }

    fn repair(
        &self,
        source: &str,
        _ctx: &RepairContext<'_>,
        twin: Option<&str>,
        katalog_wyjsciowy: &str,
        h: &Vec<Zdarzenie>,
    ) -> (r: KrokNaprawy) {
        match (twin, cel::wyznacz_cel(source, katalog_wyjsciowy, "_repaired_png", "png")) {
            (Some(d), Some(c)) => match skladanie::uruchom_silnik(
                Silnik::PngClone,
                source,
                Some(d),
                c.as_str(),
                h,
                0,
            ) {
                Err(n) => n,
                Ok(_) => {
                    let mut opis = "Złożono z dwóch kopii, wybierając fragmenty o zgodnym CRC32 (dawca: ".to_owned();
                    opis.append(d);
                    opis.append(").");
                    KrokNaprawy::Koniec(Some((c, opis)))
                },
            },
            _ => KrokNaprawy::Koniec(None),
        }
    }

    fn verify(&self, repaired: &str, _ctx: &RepairContext<'_>, h: &Vec<Zdarzenie>) -> (r:
        KrokWeryfikacji) {
        weryfikacja::weryfikuj_naprawiony_plik(repaired, h)
    }
}

/// Drops broken ancillary chunks, adds the end marker and cuts off what follows it.
pub struct PngSanitizeModule;

impl RepairModule for PngSanitizeModule {
    open spec fn identyfikator(&self) -> Seq<char> {
        "png_sanitize"@
    }

    open spec fn nazwa(&self) -> Seq<char> {
        "PNG odrzucenie uszkodzonych fragmentów pomocniczych (bez dawcy)"@
    }

    open spec fn stosuje_sie(&self, ctx: &RepairContext<'_>) -> bool {
        uszkodzony_png(ctx)
    }

    open spec fn naprawa(
        &self,
        zrodlo: Seq<char>,
        ctx: &RepairContext<'_>,
        dawca: Option<Seq<char>>,
        katalog: Seq<char>,
        h: Seq<Zdarzenie>,
    ) -> Nastepny<Naprawa> {
        match cel::cel(zrodlo, katalog, "_repaired_png_sanit"@, "png"@) {
            Some(c) => match skladanie::praca_silnika(Silnik::PngSanitize, zrodlo, None, c, h, 0) {
                Err(n) => n,
                Ok(o) => Nastepny::Koniec(Some((c, "Naprawa bez dawcy: "@ + o + "."@))),
            },
            None => Nastepny::Koniec(None),
        }
    }

    open spec fn weryfikacja(&self, plik: Seq<char>, h: Seq<Zdarzenie>) -> Nastepny<Werdykt> {
        weryfikacja::weryfikacja_pliku(plik, h)
    }

    open spec fn odmawia_dekoder(&self, plik: Seq<char>, h: Seq<Zdarzenie>) -> bool {
        weryfikacja::odmowa_dekodera(plik, h)
    }

    fn id(&self) -> (r: &'static str) {
        "png_sanitize"
    }

    fn display_name(&self) -> (r: &'static str) {
        "PNG odrzucenie uszkodzonych fragmentów pomocniczych (bez dawcy)"
    }

    fn applies_to(&self, ctx: &RepairContext<'_>) -> (r: bool) {
        jest_uszkodzonym_png(ctx)
    }

    fn repair(
        &self,
        source: &str,
        _ctx: &RepairContext<'_>,
        _twin: Option<&str>,
        katalog_wyjsciowy: &str,
        h: &Vec<Zdarzenie>,
    ) -> (r: KrokNaprawy) {
        match cel::wyznacz_cel(source, katalog_wyjsciowy, "_repaired_png_sanit", "png") {
            Some(c) => match skladanie::uruchom_silnik(
                Silnik::PngSanitize,
                source,
                None,
                c.as_str(),
                h,
                0,
            ) {
                Err(n) => n,
                Ok(o) => {
                    let mut opis = "Naprawa bez dawcy: ".to_owned();
                    opis.append(o.as_str());
                    opis.append(".");
                    KrokNaprawy::Koniec(Some((c, opis)))
                },
            },
            None => KrokNaprawy::Koniec(None),
        }
    }

    fn verify(&self, repaired: &str, _ctx: &RepairContext<'_>, h: &Vec<Zdarzenie>) -> (r:
        KrokWeryfikacji) {
        weryfikacja::weryfikuj_naprawiony_plik(repaired, h)
    }
}

} // verus!
