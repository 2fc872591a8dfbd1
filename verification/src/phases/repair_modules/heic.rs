//! HEIC, HEIF and AVIF: the `meta` index, from a donor or rebuilt.

use vstd::prelude::*;

use crate::phases::phase8;
use crate::phases::repair_modules::cel;
use crate::phases::repair_modules::praca::{
    KrokNaprawy, KrokWeryfikacji, Naprawa, Nastepny, Silnik, Werdykt, Zdarzenie,
};
use crate::phases::repair_modules::skladanie;
use crate::phases::repair_modules::weryfikacja;
use crate::phases::repair_modules;
use crate::phases::repair_modules::{RepairContext, RepairModule};

verus! {

/// A HEIF image with a trace of damage: its header is broken, its end marker is
/// gone, or its pixels could not be decoded.
pub open spec fn uszkodzony_heic(ctx: &RepairContext<'_>) -> bool {
    weryfikacja::rodzina_heif(ctx.ext@) && (ctx.eof_ok == Some(false)
        || repair_modules::powod_zawiera(ctx, "Nagłówek"@) || ctx.media_decoded == Some(false))
}

/// Whether a file is a HEIF image with a trace of damage.
pub fn jest_uszkodzonym_heic(ctx: &RepairContext<'_>) -> (r: bool)
    ensures
        r == uszkodzony_heic(ctx),
{
    weryfikacja::jest_heif(ctx.ext) && (phase8::nie(ctx.eof_ok) || repair_modules::powod_ma(
        ctx,
        "Nagłówek",
    ) || phase8::nie(ctx.media_decoded))
}

/// Grafts the `meta` index of the twin copy onto the image data of the source.
pub struct HeicCloneModule;

impl RepairModule for HeicCloneModule {
    open spec fn identyfikator(&self) -> Seq<char> {
        "heic_clone"@
    }

    open spec fn nazwa(&self) -> Seq<char> {
        "HEIC/HEIF przeszczep indeksu meta z bliźniaczej kopii"@
    }

    open spec fn stosuje_sie(&self, ctx: &RepairContext<'_>) -> bool {
        uszkodzony_heic(ctx)
    }

    open spec fn naprawa(
        &self,
        zrodlo: Seq<char>,
        ctx: &RepairContext<'_>,
        dawca: Option<Seq<char>>,
        katalog: Seq<char>,
        h: Seq<Zdarzenie>,
    ) -> Nastepny<Naprawa> {
        match (dawca, cel::cel(zrodlo, katalog, "_repaired_heic"@, cel::rozszerzenie_lub(zrodlo, "heic"@))) {
            (Some(d), Some(c)) => match skladanie::praca_silnika(
                Silnik::HeicClone,
                zrodlo,
                Some(d),
                c,
                h,
                0,
            ) {
                Err(n) => n,
                Ok(o) => Nastepny::Koniec(
                    Some((c, "Przeszczepiono indeks `meta` od dawcy "@ + d + " z zachowaniem danych obrazu."@)),
                ),
            },
            _ => Nastepny::Koniec(None),
        }
    }

    open spec fn weryfikacja(&self, plik: Seq<char>, h: Seq<Zdarzenie>) -> Nastepny<Werdykt> {
        weryfikacja::weryfikacja_pliku(plik, h)
    }

    open spec fn odmawia_dekoder(&self, plik: Seq<char>, h: Seq<Zdarzenie>) -> bool {
        weryfikacja::odmowa_dekodera(plik, h)
    }

    fn id(&self) -> (r: &'static str) {
        "heic_clone"
    }

    fn display_name(&self) -> (r: &'static str) {
        "HEIC/HEIF przeszczep indeksu meta z bliźniaczej kopii"
    }

    fn applies_to(&self, ctx: &RepairContext<'_>) -> (r: bool) {
        jest_uszkodzonym_heic(ctx)
    }

    fn repair(
        &self,
        source: &str,
        _ctx: &RepairContext<'_>,
        twin: Option<&str>,
        katalog_wyjsciowy: &str,
        h: &Vec<Zdarzenie>,
    ) -> (r: KrokNaprawy) {
        let ext = cel::rozszerzenie_zrodla(source, "heic");
        match (twin, cel::wyznacz_cel(source, katalog_wyjsciowy, "_repaired_heic", ext.as_str())) {
            (Some(d), Some(c)) => match skladanie::uruchom_silnik(
                Silnik::HeicClone,
                source,
                Some(d),
                c.as_str(),
                h,
                0,
            ) {
                Err(n) => n,
                Ok(_) => {
                    let mut opis = "Przeszczepiono indeks `meta` od dawcy ".to_owned();
                    opis.append(d);
                    opis.append(" z zachowaniem danych obrazu.");
                    KrokNaprawy::Koniec(Some((c, opis)))
                },
            },
            _ => KrokNaprawy::Koniec(None),
        }
    }

    fn verify(&self, repaired: &str, _ctx: &RepairContext<'_>, h: &Vec<Zdarzenie>) -> (r:
        KrokWeryfikacji) {
        weryfikacja::weryfikuj_naprawiony_plik(repaired, h)
    }
}

/// Rebuilds the `meta` index from the image data alone.
pub struct HeicNativeModule;

impl RepairModule for HeicNativeModule {
    open spec fn identyfikator(&self) -> Seq<char> {
        "heic_native"@
    }

    open spec fn nazwa(&self) -> Seq<char> {
        "HEIC odbudowa indeksu meta bez dawcy (Zero-Donor)"@
    }

    open spec fn stosuje_sie(&self, ctx: &RepairContext<'_>) -> bool {
        uszkodzony_heic(ctx)
    }

    open spec fn naprawa(
        &self,
        zrodlo: Seq<char>,
        ctx: &RepairContext<'_>,
        dawca: Option<Seq<char>>,
        katalog: Seq<char>,
        h: Seq<Zdarzenie>,
    ) -> Nastepny<Naprawa> {
        match cel::cel(zrodlo, katalog, "_repaired_native"@, cel::rozszerzenie_lub(zrodlo, "heic"@)) {
            Some(c) => match skladanie::praca_silnika(Silnik::HeicNative, zrodlo, None, c, h, 0) {
                Err(n) => n,
                Ok(o) => Nastepny::Koniec(Some((c, o))),
            },
            None => Nastepny::Koniec(None),
        }
    }

    open spec fn weryfikacja(&self, plik: Seq<char>, h: Seq<Zdarzenie>) -> Nastepny<Werdykt> {
        weryfikacja::weryfikacja_pliku(plik, h)
    }

    open spec fn odmawia_dekoder(&self, plik: Seq<char>, h: Seq<Zdarzenie>) -> bool {
        weryfikacja::odmowa_dekodera(plik, h)
    }

    fn id(&self) -> (r: &'static str) {
        "heic_native"
    }

    fn display_name(&self) -> (r: &'static str) {
        "HEIC odbudowa indeksu meta bez dawcy (Zero-Donor)"
    }

    fn applies_to(&self, ctx: &RepairContext<'_>) -> (r: bool) {
        jest_uszkodzonym_heic(ctx)
    }

    fn repair(
        &self,
        source: &str,
        _ctx: &RepairContext<'_>,
        _twin: Option<&str>,
        katalog_wyjsciowy: &str,
        h: &Vec<Zdarzenie>,
    ) -> (r: KrokNaprawy) {
        let ext = cel::rozszerzenie_zrodla(source, "heic");
        match cel::wyznacz_cel(source, katalog_wyjsciowy, "_repaired_native", ext.as_str()) {
            Some(c) => match skladanie::uruchom_silnik(
                Silnik::HeicNative,
                source,
                None,
                c.as_str(),
                h,
                0,
            ) {
                Err(n) => n,
                Ok(o) => KrokNaprawy::Koniec(Some((c, o))),
            },
            None => KrokNaprawy::Koniec(None),
        }
    }

    fn verify(&self, repaired: &str, _ctx: &RepairContext<'_>, h: &Vec<Zdarzenie>) -> (r:
        KrokWeryfikacji) {
        weryfikacja::weryfikuj_naprawiony_plik(repaired, h)
    }
}

} // verus!
