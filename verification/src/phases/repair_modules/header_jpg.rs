//! JPEG: injection of a lost header.

use vstd::prelude::*;

use crate::bajty;
use crate::phases::repair_modules::cel;
use crate::phases::repair_modules::praca;
use crate::phases::repair_modules::praca::{
    Czynnosc, KrokNaprawy, KrokWeryfikacji, Naprawa, Nastepny, Ruch, Werdykt, Zdarzenie,
};
use crate::phases::repair_modules::weryfikacja;
use crate::phases::repair_modules;
use crate::phases::repair_modules::{RepairContext, RepairModule};
use crate::tekst;

verus! {

/// The marker that every JPEG starts with.
pub open spec fn poczatek_obrazu() -> Seq<u8> {
    seq![0xFFu8, 0xD8u8]
}

/// The smallest standard JFIF header.
pub open spec fn naglowek_jfif() -> Seq<u8> {
    seq![
        0xFFu8, 0xD8u8, 0xFFu8, 0xE0u8, 0x00u8, 0x10u8, 0x4Au8, 0x46u8,
        0x49u8, 0x46u8, 0x00u8, 0x01u8, 0x01u8, 0x01u8, 0x00u8, 0x60u8,
        0x00u8, 0x60u8, 0x00u8, 0x00u8,
    ]
}

/// Puts a minimal JFIF header before a JPEG that has lost its own.
pub struct HeaderJpgModule;

impl RepairModule for HeaderJpgModule {
    open spec fn identyfikator(&self) -> Seq<char> {
        "header_jpg"@
    }

    open spec fn nazwa(&self) -> Seq<char> {
        "Nagłówek JPG (wstrzyknięcie SOI/JFIF)"@
    }

    open spec fn stosuje_sie(&self, ctx: &RepairContext<'_>) -> bool {
        (ctx.ext@ == "jpg"@ || ctx.ext@ == "jpeg"@) && repair_modules::powod_zawiera(ctx, "Nagłówek"@)
    }

    open spec fn naprawa(
        &self,
        zrodlo: Seq<char>,
        ctx: &RepairContext<'_>,
        dawca: Option<Seq<char>>,
        katalog: Seq<char>,
        h: Seq<Zdarzenie>,
    ) -> Nastepny<Naprawa> {
        if h.len() < 1 {
            Nastepny::Ruch(Ruch::Wczytaj(zrodlo))
        } else {
            match (h[0], cel::cel(zrodlo, katalog, "_repaired"@, "jpg"@)) {
                (Zdarzenie::Bajty(Ok(b)), Some(c)) => if bajty::zaczyna_sie(b@, poczatek_obrazu()) {
                    Nastepny::Koniec(None)
                } else if h.len() < 2 {
                    Nastepny::Ruch(Ruch::Zapisz(c, naglowek_jfif() + b@))
                } else if praca::powiodlo_sie(h[1]) {
                    Nastepny::Koniec(
                        Some((c, "Wstrzyknięto utracony nagłówek Magic Bytes (SOI/JFIF)."@)),
                    )
                } else {
                    Nastepny::Koniec(None)
                },
                _ => Nastepny::Koniec(None),
            }
        }
    }

    open spec fn weryfikacja(&self, plik: Seq<char>, h: Seq<Zdarzenie>) -> Nastepny<Werdykt> {
        weryfikacja::weryfikacja_pliku(plik, h)
    }

    open spec fn odmawia_dekoder(&self, plik: Seq<char>, h: Seq<Zdarzenie>) -> bool {
        weryfikacja::odmowa_dekodera(plik, h)
    }

    fn id(&self) -> (r: &'static str) {
        "header_jpg"
    }

    fn display_name(&self) -> (r: &'static str) {
        "Nagłówek JPG (wstrzyknięcie SOI/JFIF)"
    }

    fn applies_to(&self, ctx: &RepairContext<'_>) -> (r: bool) {
        (tekst::rowne(ctx.ext, "jpg") || tekst::rowne(ctx.ext, "jpeg")) && repair_modules::powod_ma(
            ctx,
            "Nagłówek",
        )
    }

    fn repair(
        &self,
        source: &str,
        _ctx: &RepairContext<'_>,
        _twin: Option<&str>,
        katalog_wyjsciowy: &str,
        h: &Vec<Zdarzenie>,
    ) -> (r: KrokNaprawy) {
        if h.len() < 1 {
            return KrokNaprawy::Wykonaj(Czynnosc::Wczytaj(source.to_owned()));
        }
        let b = match &h[0] {
            Zdarzenie::Bajty(Ok(b)) => b,
            _ => {
                return KrokNaprawy::Koniec(None);
            },
        };
        let c = match cel::wyznacz_cel(source, katalog_wyjsciowy, "_repaired", "jpg") {
            Some(c) => c,
            None => {
                return KrokNaprawy::Koniec(None);
            },
        };
        let znacznik: Vec<u8> = vec![0xFFu8, 0xD8u8];
        assert(znacznik@ =~= poczatek_obrazu());
        if bajty::zaczyna(b, &znacznik) {
            return KrokNaprawy::Koniec(None);
        }
        if h.len() < 2 {
            let naglowek: Vec<u8> = vec![
                0xFFu8, 0xD8u8, 0xFFu8, 0xE0u8, 0x00u8, 0x10u8, 0x4Au8, 0x46u8,
                0x49u8, 0x46u8, 0x00u8, 0x01u8, 0x01u8, 0x01u8, 0x00u8, 0x60u8,
                0x00u8, 0x60u8, 0x00u8, 0x00u8,
            ];
            assert(naglowek@ =~= naglowek_jfif());
            return KrokNaprawy::Wykonaj(Czynnosc::Zapisz(c, bajty::poprzedzone(&naglowek, b)));
        }
        if praca::udane(&h[1]) {
            KrokNaprawy::Koniec(
                Some((c, "Wstrzyknięto utracony nagłówek Magic Bytes (SOI/JFIF).".to_owned())),
            )
        } else {
            KrokNaprawy::Koniec(None)
        }
    }

    fn verify(&self, repaired: &str, _ctx: &RepairContext<'_>, h: &Vec<Zdarzenie>) -> (r:
        KrokWeryfikacji) {
        weryfikacja::weryfikuj_naprawiony_plik(repaired, h)
    }
}

} // verus!
