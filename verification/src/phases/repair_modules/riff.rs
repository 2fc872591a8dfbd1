//! WAV and AVI: chunks of a RIFF container taken from two copies.

use vstd::prelude::*;

use crate::phases::repair_modules::cel;
use crate::phases::repair_modules::praca::{
    Badanie, KrokNaprawy, KrokWeryfikacji, Naprawa, Nastepny, Silnik, Werdykt, Zdarzenie,
};
use crate::phases::repair_modules::skladanie;
use crate::phases::repair_modules::weryfikacja;
use crate::phases::repair_modules;
use crate::phases::repair_modules::{RepairContext, RepairModule};
use crate::tekst;

verus! {

/// Audio and video in a RIFF container.
pub open spec fn rodzina_riff(e: Seq<char>) -> bool {
    e == "wav"@ || e == "avi"@
}

/// Whether an extension belongs to a RIFF container.
pub fn jest_riff(e: &str) -> (r: bool)
    ensures
        r == rodzina_riff(e@),
{
    tekst::rowne(e, "wav") || tekst::rowne(e, "avi")
}

/// Takes every chunk of a RIFF container from the copy in which it is no husk.
pub struct RiffCloneModule;

impl RepairModule for RiffCloneModule {
    open spec fn identyfikator(&self) -> Seq<char> {
        "riff_clone"@
    }

    open spec fn nazwa(&self) -> Seq<char> {
        "WAV/AVI składanie fragmentów RIFF (gwarancja SŁABA)"@
    }

    open spec fn stosuje_sie(&self, ctx: &RepairContext<'_>) -> bool {
        rodzina_riff(ctx.ext@) && repair_modules::czesciowe_dopasowanie(ctx)
    }

    open spec fn naprawa(
        &self,
        zrodlo: Seq<char>,
        ctx: &RepairContext<'_>,
        dawca: Option<Seq<char>>,
        katalog: Seq<char>,
        h: Seq<Zdarzenie>,
    ) -> Nastepny<Naprawa> {
        skladanie::skladanie(
            Silnik::RiffSplice,
            zrodlo,
            dawca,
            cel::cel(zrodlo, katalog, "_repaired_riff"@, cel::rozszerzenie_lub(zrodlo, "wav"@)),
            "Złożono kontener RIFF z dwóch kopii, wybierając fragmenty niewyglądające na wydmuszkę (dawca: "@,
            "). UWAGA: RIFF nie niesie sumy kontrolnej per fragment — potwierdzona wyłącznie spójność struktury."@,
            h,
        )
    }

    open spec fn weryfikacja(&self, plik: Seq<char>, h: Seq<Zdarzenie>) -> Nastepny<Werdykt> {
        match weryfikacja::badanie_pliku(plik, Badanie::RiffFragmenty, h) {
            Err(k) => k,
            Ok(z) => Nastepny::Koniec(
                weryfikacja::ocena_kawalkow(
                    z,
                    "struktura fragmentów RIFF spójna (gwarancja SŁABA - RIFF nie niesie sumy kontrolnej per fragment, treść próbek NIE zweryfikowana)"@,
                    "plik ma ucięty/niespójny fragment RIFF"@,
                    "plik nie ma czytelnego nagłówka RIFF albo nie ma ani jednego fragmentu"@,
                ),
            ),
        }
    }

    open spec fn odmawia_dekoder(&self, plik: Seq<char>, h: Seq<Zdarzenie>) -> bool {
        false
    }

    fn id(&self) -> (r: &'static str) {
        "riff_clone"
    }

    fn display_name(&self) -> (r: &'static str) {
        "WAV/AVI składanie fragmentów RIFF (gwarancja SŁABA)"
    }

    fn applies_to(&self, ctx: &RepairContext<'_>) -> (r: bool) {
        jest_riff(ctx.ext) && repair_modules::jest_czesciowe(ctx)
    }

    fn repair(
        &self,
        source: &str,
        _ctx: &RepairContext<'_>,
        twin: Option<&str>,
        katalog_wyjsciowy: &str,
        h: &Vec<Zdarzenie>,
    ) -> (r: KrokNaprawy) {
        let ext = cel::rozszerzenie_zrodla(source, "wav");
        skladanie::zloz_z_dwoch(
            Silnik::RiffSplice,
            source,
            twin,
            cel::wyznacz_cel(source, katalog_wyjsciowy, "_repaired_riff", ext.as_str()),
            "Złożono kontener RIFF z dwóch kopii, wybierając fragmenty niewyglądające na wydmuszkę (dawca: ",
            "). UWAGA: RIFF nie niesie sumy kontrolnej per fragment — potwierdzona wyłącznie spójność struktury.",
            h,
        )
    }

    fn verify(&self, repaired: &str, _ctx: &RepairContext<'_>, h: &Vec<Zdarzenie>) -> (r:
        KrokWeryfikacji) {
        match weryfikacja::zbadaj_plik(repaired, Badanie::RiffFragmenty, h) {
            Err(k) => k,
            Ok(z) => KrokWeryfikacji::Werdykt(
                weryfikacja::werdykt_kawalkow(
                    z,
                    "struktura fragmentów RIFF spójna (gwarancja SŁABA - RIFF nie niesie sumy kontrolnej per fragment, treść próbek NIE zweryfikowana)",
                    "plik ma ucięty/niespójny fragment RIFF",
                    "plik nie ma czytelnego nagłówka RIFF albo nie ma ani jednego fragmentu",
                ),
            ),
        }
    }
}

} // verus!
