//! SQLite: an orphaned write-ahead log folded into its database.

use vstd::prelude::*;

use crate::phases::repair_modules::cel;
use crate::phases::repair_modules::praca;
use crate::phases::repair_modules::praca::{
    Czynnosc, KrokNaprawy, KrokWeryfikacji, Naprawa, Nastepny, Ruch, Werdykt, Zdarzenie,
};
use crate::phases::repair_modules::weryfikacja;
use crate::phases::repair_modules::{RepairContext, RepairModule};
use crate::sciezka;
use crate::tekst;

verus! {

/// Folds a write-ahead log into a copy of its database.
pub struct SqliteModule;

impl RepairModule for SqliteModule {
    open spec fn identyfikator(&self) -> Seq<char> {
        "sqlite"@
    }

    open spec fn nazwa(&self) -> Seq<char> {
        "Scalenie WAL z bazą SQLite (checkpoint)"@
    }

    open spec fn stosuje_sie(&self, ctx: &RepairContext<'_>) -> bool {
        ctx.ext@ == "db"@ || ctx.ext@ == "sqlite"@ || ctx.ext@ == "sqlite3"@
    }

    open spec fn naprawa(
        &self,
        zrodlo: Seq<char>,
        ctx: &RepairContext<'_>,
        dawca: Option<Seq<char>>,
        katalog: Seq<char>,
        h: Seq<Zdarzenie>,
    ) -> Nastepny<Naprawa> {
        match (sciezka::rozszerzenie(zrodlo), sciezka::rdzen(zrodlo)) {
            (Some(ext), Some(_)) => {
                let wal = sciezka::przyciety(zrodlo) + "-wal"@;
                let baza = cel::cel(zrodlo, katalog, "_repaired"@, ext)->0;
                let kopia_wal = cel::cel(zrodlo, katalog, "_repaired"@, ext + "-wal"@)->0;
                if h.len() < 1 {
                    Nastepny::Ruch(Ruch::SprawdzIstnienie(wal))
                } else if !praca::powiodlo_sie(h[0]) {
                    Nastepny::Koniec(None)
                } else if h.len() < 2 {
                    Nastepny::Ruch(Ruch::Kopiuj(zrodlo, baza))
                } else if !praca::powiodlo_sie(h[1]) {
                    Nastepny::Koniec(None)
                } else if h.len() < 3 {
                    Nastepny::Ruch(Ruch::Kopiuj(wal, kopia_wal))
                } else if !praca::powiodlo_sie(h[2]) {
                    Nastepny::Koniec(None)
                } else if h.len() < 4 {
                    Nastepny::Ruch(Ruch::ScalWal(baza))
                } else if praca::powiodlo_sie(h[3]) {
                    if h.len() < 5 {
                        Nastepny::Ruch(Ruch::Usun(kopia_wal))
                    } else {
                        Nastepny::Koniec(
                            Some((baza, "Zespolono plik WAL z głównym plikiem bazy danych."@)),
                        )
                    }
                } else if h.len() < 5 {
                    Nastepny::Ruch(Ruch::Usun(baza))
                } else if h.len() < 6 {
                    Nastepny::Ruch(Ruch::Usun(kopia_wal))
                } else {
                    Nastepny::Koniec(None)
                }
            },
            _ => Nastepny::Koniec(None),
        }
    }

    open spec fn weryfikacja(&self, plik: Seq<char>, h: Seq<Zdarzenie>) -> Nastepny<Werdykt> {
        weryfikacja::weryfikacja_pliku(plik, h)
    }

    open spec fn odmawia_dekoder(&self, plik: Seq<char>, h: Seq<Zdarzenie>) -> bool {
        weryfikacja::odmowa_dekodera(plik, h)
    }

    fn id(&self) -> (r: &'static str) {
        "sqlite"
    }

    fn display_name(&self) -> (r: &'static str) {
        "Scalenie WAL z bazą SQLite (checkpoint)"
    }

    fn applies_to(&self, ctx: &RepairContext<'_>) -> (r: bool) {
        tekst::rowne(ctx.ext, "db") || tekst::rowne(ctx.ext, "sqlite") || tekst::rowne(ctx.ext, "sqlite3")
    }

    fn repair(
        &self,
        source: &str,
        _ctx: &RepairContext<'_>,
        _twin: Option<&str>,
        katalog_wyjsciowy: &str,
        h: &Vec<Zdarzenie>,
    ) -> (r: KrokNaprawy) {
        let ext = match sciezka::rozszerzenie_pliku(source) {
            None => {
                return KrokNaprawy::Koniec(None);
            },
            Some(e) => e,
        };
        let mut wal = sciezka::bez_ogona(source);
        wal.append("-wal");
        let mut ext_wal = ext.clone();
        ext_wal.append("-wal");
        let (baza, kopia_wal) = match (
            cel::wyznacz_cel(source, katalog_wyjsciowy, "_repaired", ext.as_str()),
            cel::wyznacz_cel(source, katalog_wyjsciowy, "_repaired", ext_wal.as_str()),
        ) {
            (Some(b), Some(w)) => (b, w),
            _ => {
                return KrokNaprawy::Koniec(None);
            },
        };
        if h.len() < 1 {
            return KrokNaprawy::Wykonaj(Czynnosc::SprawdzIstnienie(wal));
        }
        if !praca::udane(&h[0]) {
            return KrokNaprawy::Koniec(None);
        }
        if h.len() < 2 {
            return KrokNaprawy::Wykonaj(Czynnosc::Kopiuj(source.to_owned(), baza));
        }
        if !praca::udane(&h[1]) {
            return KrokNaprawy::Koniec(None);
        }
        if h.len() < 3 {
            return KrokNaprawy::Wykonaj(Czynnosc::Kopiuj(wal, kopia_wal));
        }
        if !praca::udane(&h[2]) {
            return KrokNaprawy::Koniec(None);
        }
        if h.len() < 4 {
            return KrokNaprawy::Wykonaj(Czynnosc::ScalWal(baza));
        }
        if praca::udane(&h[3]) {
            if h.len() < 5 {
                return KrokNaprawy::Wykonaj(Czynnosc::Usun(kopia_wal));
            }
            return KrokNaprawy::Koniec(
                Some((baza, "Zespolono plik WAL z głównym plikiem bazy danych.".to_owned())),
            );
        }
        if h.len() < 5 {
            return KrokNaprawy::Wykonaj(Czynnosc::Usun(baza));
        }
        if h.len() < 6 {
            return KrokNaprawy::Wykonaj(Czynnosc::Usun(kopia_wal));
        }
        KrokNaprawy::Koniec(None)
    }

    fn verify(&self, repaired: &str, _ctx: &RepairContext<'_>, h: &Vec<Zdarzenie>) -> (r:
        KrokWeryfikacji) {
        weryfikacja::weryfikuj_naprawiony_plik(repaired, h)
    }
}

} // verus!
