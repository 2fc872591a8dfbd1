//! Stitching of two cut fragments, whatever their format.

use vstd::prelude::*;

use crate::phases::repair_modules::cel;
use crate::phases::repair_modules::praca;
use crate::phases::repair_modules::praca::{
    Czynnosc, KrokNaprawy, KrokWeryfikacji, Naprawa, Nastepny, Ruch, Werdykt, Zdarzenie,
};
use crate::phases::repair_modules::weryfikacja;
use crate::phases::repair_modules;
use crate::phases::repair_modules::{RepairContext, RepairModule};

verus! {

/// Stitches the source and its twin, byte by byte.
pub struct SpliceModule;

impl RepairModule for SpliceModule {
    open spec fn identyfikator(&self) -> Seq<char> {
        "splice"@
    }

    open spec fn nazwa(&self) -> Seq<char> {
        "Zszywanie fragmentów (korelacja Fazy 14)"@
    }

    open spec fn stosuje_sie(&self, ctx: &RepairContext<'_>) -> bool {
        repair_modules::czesciowe_dopasowanie(ctx)
    }

    open spec fn naprawa(
        &self,
        zrodlo: Seq<char>,
        ctx: &RepairContext<'_>,
        dawca: Option<Seq<char>>,
        katalog: Seq<char>,
        h: Seq<Zdarzenie>,
    ) -> Nastepny<Naprawa> {
        match dawca {
            None => Nastepny::Koniec(None),
            Some(d) => if h.len() < 1 {
                Nastepny::Ruch(Ruch::Otworz(zrodlo))
            } else if !praca::powiodlo_sie(h[0]) {
                Nastepny::Koniec(None)
            } else if h.len() < 2 {
                Nastepny::Ruch(Ruch::Otworz(d))
            } else if !praca::powiodlo_sie(h[1]) {
                Nastepny::Koniec(None)
            } else {
                match cel::cel(
                    zrodlo,
                    katalog,
                    "_spliced"@,
                    cel::rozszerzenie_lub(zrodlo, "bin"@),
                ) {
                    None => Nastepny::Koniec(None),
                    Some(c) => if h.len() < 3 {
                        Nastepny::Ruch(Ruch::UtworzPlik(c))
                    } else if !praca::powiodlo_sie(h[2]) {
                        Nastepny::Koniec(None)
                    } else if h.len() < 4 {
                        Nastepny::Ruch(Ruch::Zszyj)
                    } else if praca::powiodlo_sie(h[3]) {
                        Nastepny::Koniec(
                            Some(
                                (
                                    c,
                                    "Wykonano fizyczny Splicing strumieniowy (bezpieczne dla RAM)."@,
                                ),
                            ),
                        )
                    } else if h.len() < 5 {
                        Nastepny::Ruch(Ruch::Usun(c))
                    } else {
                        Nastepny::Koniec(None)
                    },
                }
            },
        }
    }

    open spec fn weryfikacja(&self, plik: Seq<char>, h: Seq<Zdarzenie>) -> Nastepny<Werdykt> {
        weryfikacja::weryfikacja_pliku(plik, h)
    }

    open spec fn odmawia_dekoder(&self, plik: Seq<char>, h: Seq<Zdarzenie>) -> bool {
        weryfikacja::odmowa_dekodera(plik, h)
    }

    fn id(&self) -> (r: &'static str) {
        "splice"
    }

    fn display_name(&self) -> (r: &'static str) {
        "Zszywanie fragmentów (korelacja Fazy 14)"
    }

    fn applies_to(&self, ctx: &RepairContext<'_>) -> (r: bool) {
        repair_modules::jest_czesciowe(ctx)
    }

    fn repair(
        &self,
        source: &str,
        _ctx: &RepairContext<'_>,
        twin: Option<&str>,
        katalog_wyjsciowy: &str,
        h: &Vec<Zdarzenie>,
    ) -> (r: KrokNaprawy) {
        let d = match twin {
            None => {
                return KrokNaprawy::Koniec(None);
            },
            Some(d) => d,
        };
        if h.len() < 1 {
            return KrokNaprawy::Wykonaj(Czynnosc::Otworz(source.to_owned()));
        }
        if !praca::udane(&h[0]) {
            return KrokNaprawy::Koniec(None);
        }
        if h.len() < 2 {
            return KrokNaprawy::Wykonaj(Czynnosc::Otworz(d.to_owned()));
        }
        if !praca::udane(&h[1]) {
            return KrokNaprawy::Koniec(None);
        }
        let ext = cel::rozszerzenie_zrodla(source, "bin");
        let c = match cel::wyznacz_cel(source, katalog_wyjsciowy, "_spliced", ext.as_str()) {
            None => {
                return KrokNaprawy::Koniec(None);
            },
            Some(c) => c,
        };
        if h.len() < 3 {
            return KrokNaprawy::Wykonaj(Czynnosc::UtworzPlik(c));
        }
        if !praca::udane(&h[2]) {
            return KrokNaprawy::Koniec(None);
        }
        if h.len() < 4 {
            return KrokNaprawy::Wykonaj(Czynnosc::Zszyj);
        }
        if praca::udane(&h[3]) {
            return KrokNaprawy::Koniec(
                Some(
                    (c, "Wykonano fizyczny Splicing strumieniowy (bezpieczne dla RAM).".to_owned()),
                ),
            );
        }
        if h.len() < 5 {
            return KrokNaprawy::Wykonaj(Czynnosc::Usun(c));
        }
        KrokNaprawy::Koniec(None)
    }

    fn verify(&self, repaired: &str, _ctx: &RepairContext<'_>, h: &Vec<Zdarzenie>) -> (r:
        KrokWeryfikacji) {
        weryfikacja::weryfikuj_naprawiony_plik(repaired, h)
    }
}

} // verus!
