//! MP3: MPEG audio frames taken from two copies.

use vstd::prelude::*;

use crate::phases::repair_modules::cel;
use crate::phases::repair_modules::praca::{
    Badanie, KrokNaprawy, KrokWeryfikacji, Naprawa, Nastepny, Silnik, Werdykt, Zdarzenie,
};
use crate::phases::repair_modules::skladanie;
use crate::phases::repair_modules::weryfikacja;
use crate::phases::repair_modules;
use crate::phases::repair_modules::{RepairContext, RepairModule};
use crate::tekst;

verus! {

/// Takes every frame of an MP3 stream from the copy in which it is no husk.
pub struct Mp3CloneModule;

impl RepairModule for Mp3CloneModule {
    open spec fn identyfikator(&self) -> Seq<char> {
        "mp3_clone"@
    }

    open spec fn nazwa(&self) -> Seq<char> {
        "MP3 składanie ramek MPEG audio (gwarancja SŁABA)"@
    }

    open spec fn stosuje_sie(&self, ctx: &RepairContext<'_>) -> bool {
        tekst::male_ascii(ctx.ext@) == tekst::male_ascii("mp3"@) && repair_modules::czesciowe_dopasowanie(ctx)
    }

    open spec fn naprawa(
        &self,
        zrodlo: Seq<char>,
        ctx: &RepairContext<'_>,
        dawca: Option<Seq<char>>,
        katalog: Seq<char>,
        h: Seq<Zdarzenie>,
    ) -> Nastepny<Naprawa> {
        skladanie::skladanie(
            Silnik::Mp3Splice,
            zrodlo,
            dawca,
            cel::cel(zrodlo, katalog, "_repaired_mp3"@, "mp3"@),
            "Złożono strumień MP3 z dwóch kopii, wybierając ramki niewyglądające na wydmuszkę (dawca: "@,
            "). UWAGA: MP3 nie niesie sumy kontrolnej per ramkę — potwierdzona wyłącznie spójność łańcucha ramek."@,
            h,
        )
    }

    open spec fn weryfikacja(&self, plik: Seq<char>, h: Seq<Zdarzenie>) -> Nastepny<Werdykt> {
        match weryfikacja::badanie_pliku(plik, Badanie::Mp3Ramki, h) {
            Err(k) => k,
            Ok(z) => Nastepny::Koniec(
                weryfikacja::ocena_strumienia(
                    z,
                    "łańcuch ramek MP3 spójny (gwarancja SŁABA - MP3 nie niesie sumy kontrolnej per ramkę, treść próbek NIE zweryfikowana)"@,
                    "plik ma urwany/niespójny łańcuch ramek MP3: "@,
                    "plik nie ma ani jednej wiarygodnej ramki MPEG audio"@,
                ),
            ),
        }
    }

    open spec fn odmawia_dekoder(&self, plik: Seq<char>, h: Seq<Zdarzenie>) -> bool {
        false
    }

    fn id(&self) -> (r: &'static str) {
        "mp3_clone"
    }

    fn display_name(&self) -> (r: &'static str) {
        "MP3 składanie ramek MPEG audio (gwarancja SŁABA)"
    }

    fn applies_to(&self, ctx: &RepairContext<'_>) -> (r: bool) {
        tekst::rowne_bez_wielkosci(ctx.ext, "mp3") && repair_modules::jest_czesciowe(ctx)
    }

    fn repair(
        &self,
        source: &str,
        _ctx: &RepairContext<'_>,
        twin: Option<&str>,
        katalog_wyjsciowy: &str,
        h: &Vec<Zdarzenie>,
    ) -> (r: KrokNaprawy) {
        skladanie::zloz_z_dwoch(
            Silnik::Mp3Splice,
            source,
            twin,
            cel::wyznacz_cel(source, katalog_wyjsciowy, "_repaired_mp3", "mp3"),
            "Złożono strumień MP3 z dwóch kopii, wybierając ramki niewyglądające na wydmuszkę (dawca: ",
            "). UWAGA: MP3 nie niesie sumy kontrolnej per ramkę — potwierdzona wyłącznie spójność łańcucha ramek.",
            h,
        )
    }

    fn verify(&self, repaired: &str, _ctx: &RepairContext<'_>, h: &Vec<Zdarzenie>) -> (r:
        KrokWeryfikacji) {
        match weryfikacja::zbadaj_plik(repaired, Badanie::Mp3Ramki, h) {
            Err(k) => k,
            Ok(z) => KrokWeryfikacji::Werdykt(
                weryfikacja::werdykt_strumienia(
                    z,
                    "łańcuch ramek MP3 spójny (gwarancja SŁABA - MP3 nie niesie sumy kontrolnej per ramkę, treść próbek NIE zweryfikowana)",
                    "plik ma urwany/niespójny łańcuch ramek MP3: ",
                    "plik nie ma ani jednej wiarygodnej ramki MPEG audio",
                ),
            ),
        }
    }
}

} // verus!
