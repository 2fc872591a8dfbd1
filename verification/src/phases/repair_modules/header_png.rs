//! PNG: injection of a lost signature.

use vstd::prelude::*;

use crate::bajty;
use crate::phases::phase8;
use crate::phases::repair_modules::cel;
use crate::phases::repair_modules::praca;
use crate::phases::repair_modules::praca::{
    Czynnosc, KrokNaprawy, KrokWeryfikacji, Naprawa, Nastepny, Ruch, Werdykt, Zdarzenie,
};
use crate::phases::repair_modules::weryfikacja;
use crate::phases::repair_modules;
use crate::phases::repair_modules::{RepairContext, RepairModule};
use crate::tekst;

verus! {

/// The signature that every PNG starts with.
pub open spec fn sygnatura_png() -> Seq<u8> {
    seq![0x89u8, 0x50u8, 0x4Eu8, 0x47u8, 0x0Du8, 0x0Au8, 0x1Au8, 0x0Au8]
}

/// Puts the signature before a PNG that has lost it.
pub struct HeaderPngModule;

impl RepairModule for HeaderPngModule {
    open spec fn identyfikator(&self) -> Seq<char> {
        "header_png"@
    }

    open spec fn nazwa(&self) -> Seq<char> {
        "Nagłówek PNG (wstrzyknięcie sygnatury)"@
    }

    open spec fn stosuje_sie(&self, ctx: &RepairContext<'_>) -> bool {
        ctx.ext@ == "png"@ && (repair_modules::powod_zawiera(ctx, "Nagłówek"@) || ctx.media_decoded
            == Some(false))
    }

    open spec fn naprawa(
        &self,
        zrodlo: Seq<char>,
        ctx: &RepairContext<'_>,
        dawca: Option<Seq<char>>,
        katalog: Seq<char>,
        h: Seq<Zdarzenie>,
    ) -> Nastepny<Naprawa> {
        if h.len() < 1 {
            Nastepny::Ruch(Ruch::Wczytaj(zrodlo))
        } else {
            match (h[0], cel::cel(zrodlo, katalog, "_repaired"@, "png"@)) {
                (Zdarzenie::Bajty(Ok(b)), Some(c)) => if bajty::zaczyna_sie(b@, sygnatura_png()) {
                    Nastepny::Koniec(None)
                } else if h.len() < 2 {
                    Nastepny::Ruch(Ruch::Zapisz(c, sygnatura_png() + b@))
                } else if praca::powiodlo_sie(h[1]) {
                    Nastepny::Koniec(
                        Some((c, "Wstrzyknięto utraconą sygnaturę PNG (89 50 4E 47 0D 0A 1A 0A)."@)),
                    )
                } else {
                    Nastepny::Koniec(None)
                },
                _ => Nastepny::Koniec(None),
            }
        }
    }

    open spec fn weryfikacja(&self, plik: Seq<char>, h: Seq<Zdarzenie>) -> Nastepny<Werdykt> {
        weryfikacja::weryfikacja_pliku(plik, h)
    }

    open spec fn odmawia_dekoder(&self, plik: Seq<char>, h: Seq<Zdarzenie>) -> bool {
        weryfikacja::odmowa_dekodera(plik, h)
    }

    fn id(&self) -> (r: &'static str) {
        "header_png"
    }

    fn display_name(&self) -> (r: &'static str) {
        "Nagłówek PNG (wstrzyknięcie sygnatury)"
    }

    fn applies_to(&self, ctx: &RepairContext<'_>) -> (r: bool) {
        tekst::rowne(ctx.ext, "png") && (repair_modules::powod_ma(ctx, "Nagłówek") || phase8::nie(
            ctx.media_decoded,
        ))
    }

    fn repair(
        &self,
        source: &str,
        _ctx: &RepairContext<'_>,
        _twin: Option<&str>,
        katalog_wyjsciowy: &str,
        h: &Vec<Zdarzenie>,
    ) -> (r: KrokNaprawy) {
        if h.len() < 1 {
            return KrokNaprawy::Wykonaj(Czynnosc::Wczytaj(source.to_owned()));
        }
        let b = match &h[0] {
            Zdarzenie::Bajty(Ok(b)) => b,
            _ => {
                return KrokNaprawy::Koniec(None);
            },
        };
        let c = match cel::wyznacz_cel(source, katalog_wyjsciowy, "_repaired", "png") {
            Some(c) => c,
            None => {
                return KrokNaprawy::Koniec(None);
            },
        };
        let znacznik: Vec<u8> = vec![0x89u8, 0x50u8, 0x4Eu8, 0x47u8, 0x0Du8, 0x0Au8, 0x1Au8, 0x0Au8];
        assert(znacznik@ =~= sygnatura_png());
        if bajty::zaczyna(b, &znacznik) {
            return KrokNaprawy::Koniec(None);
        }
        if h.len() < 2 {
            let naglowek: Vec<u8> = vec![0x89u8, 0x50u8, 0x4Eu8, 0x47u8, 0x0Du8, 0x0Au8, 0x1Au8, 0x0Au8];
            assert(naglowek@ =~= sygnatura_png());
            return KrokNaprawy::Wykonaj(Czynnosc::Zapisz(c, bajty::poprzedzone(&naglowek, b)));
        }
        if praca::udane(&h[1]) {
            KrokNaprawy::Koniec(
                Some((c, "Wstrzyknięto utraconą sygnaturę PNG (89 50 4E 47 0D 0A 1A 0A).".to_owned())),
            )
        } else {
            KrokNaprawy::Koniec(None)
        }
    }

    fn verify(&self, repaired: &str, _ctx: &RepairContext<'_>, h: &Vec<Zdarzenie>) -> (r:
        KrokWeryfikacji) {
        weryfikacja::weryfikuj_naprawiony_plik(repaired, h)
    }
}

} // verus!
