//! WMV and WMA: objects of an ASF container taken from two copies.

use vstd::prelude::*;

use crate::phases::repair_modules::cel;
use crate::phases::repair_modules::praca::{
    Badanie, KrokNaprawy, KrokWeryfikacji, Naprawa, Nastepny, Silnik, Werdykt, Zdarzenie,
};
use crate::phases::repair_modules::skladanie;
use crate::phases::repair_modules::weryfikacja;
use crate::phases::repair_modules;
use crate::phases::repair_modules::{RepairContext, RepairModule};
use crate::tekst;

verus! {

/// Audio and video in an ASF container.
pub open spec fn rodzina_asf(e: Seq<char>) -> bool {
    e == "wmv"@ || e == "wma"@
}

/// Whether an extension belongs to an ASF container.
pub fn jest_asf(e: &str) -> (r: bool)
    ensures
        r == rodzina_asf(e@),
{
    tekst::rowne(e, "wmv") || tekst::rowne(e, "wma")
}

/// Takes every object of an ASF container from the copy in which it is no husk.
pub struct AsfCloneModule;

impl RepairModule for AsfCloneModule {
    open spec fn identyfikator(&self) -> Seq<char> {
        "asf_clone"@
    }

    open spec fn nazwa(&self) -> Seq<char> {
        "WMV/WMA składanie obiektów ASF (gwarancja SŁABA)"@
    }

    open spec fn stosuje_sie(&self, ctx: &RepairContext<'_>) -> bool {
        rodzina_asf(ctx.ext@) && repair_modules::czesciowe_dopasowanie(ctx)
    }

    open spec fn naprawa(
        &self,
        zrodlo: Seq<char>,
        ctx: &RepairContext<'_>,
        dawca: Option<Seq<char>>,
        katalog: Seq<char>,
        h: Seq<Zdarzenie>,
    ) -> Nastepny<Naprawa> {
        skladanie::skladanie(
            Silnik::AsfSplice,
            zrodlo,
            dawca,
            cel::cel(zrodlo, katalog, "_repaired_asf"@, cel::rozszerzenie_lub(zrodlo, "wmv"@)),
            "Złożono kontener ASF z dwóch kopii, wybierając obiekty niewyglądające na wydmuszkę (dawca: "@,
            "). UWAGA: ASF nie niesie sumy kontrolnej per obiekt — potwierdzona wyłącznie spójność struktury."@,
            h,
        )
    }

    open spec fn weryfikacja(&self, plik: Seq<char>, h: Seq<Zdarzenie>) -> Nastepny<Werdykt> {
        match weryfikacja::badanie_pliku(plik, Badanie::AsfObiekty, h) {
            Err(k) => k,
            Ok(z) => Nastepny::Koniec(
                weryfikacja::ocena_kawalkow(
                    z,
                    "struktura obiektów ASF spójna (gwarancja SŁABA - ASF nie niesie sumy kontrolnej per obiekt, treść próbek NIE zweryfikowana)"@,
                    "plik ma ucięty/niespójny obiekt ASF"@,
                    "plik nie ma czytelnego nagłówka ASF albo nie ma ani jednego obiektu"@,
                ),
            ),
        }
    }

    open spec fn odmawia_dekoder(&self, plik: Seq<char>, h: Seq<Zdarzenie>) -> bool {
        false
    }

    fn id(&self) -> (r: &'static str) {
        "asf_clone"
    }

    fn display_name(&self) -> (r: &'static str) {
        "WMV/WMA składanie obiektów ASF (gwarancja SŁABA)"
    }

    fn applies_to(&self, ctx: &RepairContext<'_>) -> (r: bool) {
        jest_asf(ctx.ext) && repair_modules::jest_czesciowe(ctx)
    }

    fn repair(
        &self,
        source: &str,
        _ctx: &RepairContext<'_>,
        twin: Option<&str>,
        katalog_wyjsciowy: &str,
        h: &Vec<Zdarzenie>,
    ) -> (r: KrokNaprawy) {
        let ext = cel::rozszerzenie_zrodla(source, "wmv");
        skladanie::zloz_z_dwoch(
            Silnik::AsfSplice,
            source,
            twin,
            cel::wyznacz_cel(source, katalog_wyjsciowy, "_repaired_asf", ext.as_str()),
            "Złożono kontener ASF z dwóch kopii, wybierając obiekty niewyglądające na wydmuszkę (dawca: ",
            "). UWAGA: ASF nie niesie sumy kontrolnej per obiekt — potwierdzona wyłącznie spójność struktury.",
            h,
        )
    }

    fn verify(&self, repaired: &str, _ctx: &RepairContext<'_>, h: &Vec<Zdarzenie>) -> (r:
        KrokWeryfikacji) {
        match weryfikacja::zbadaj_plik(repaired, Badanie::AsfObiekty, h) {
            Err(k) => k,
            Ok(z) => KrokWeryfikacji::Werdykt(
                weryfikacja::werdykt_kawalkow(
                    z,
                    "struktura obiektów ASF spójna (gwarancja SŁABA - ASF nie niesie sumy kontrolnej per obiekt, treść próbek NIE zweryfikowana)",
                    "plik ma ucięty/niespójny obiekt ASF",
                    "plik nie ma czytelnego nagłówka ASF albo nie ma ani jednego obiektu",
                ),
            ),
        }
    }
}

} // verus!
