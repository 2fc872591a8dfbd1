//! Matroska: elements of the segment taken from two copies.

use vstd::prelude::*;

use crate::phases::phase8;
use crate::phases::repair_modules::cel;
use crate::phases::repair_modules::praca::{
    KrokNaprawy, KrokWeryfikacji, Naprawa, Nastepny, Silnik, Werdykt, Zdarzenie,
};
use crate::phases::repair_modules::skladanie;
use crate::phases::repair_modules::weryfikacja;
use crate::phases::repair_modules::{RepairContext, RepairModule};

verus! {

/// A Matroska file with a trace of damage: its container is broken or cut off.
pub open spec fn uszkodzona_matroska(ctx: &RepairContext<'_>) -> bool {
    weryfikacja::rodzina_matroski(ctx.ext@) && (ctx.video_ok == Some(false) || ctx.eof_ok == Some(
        false,
    ))
}

/// Whether a file is a Matroska file with a trace of damage.
pub fn jest_uszkodzona_matroska(ctx: &RepairContext<'_>) -> (r: bool)
    ensures
        r == uszkodzona_matroska(ctx),
{
    weryfikacja::jest_matroska(ctx.ext) && (phase8::nie(ctx.video_ok) || phase8::nie(ctx.eof_ok))
}

/// Takes every element of the segment from the copy in which its CRC-32 holds.
pub struct MkvCloneModule;

impl RepairModule for MkvCloneModule {
    open spec fn identyfikator(&self) -> Seq<char> {
        "mkv_clone"@
    }

    open spec fn nazwa(&self) -> Seq<char> {
        "Matroska składanie elementów z dwóch kopii (CRC-32 per element)"@
    }

    open spec fn stosuje_sie(&self, ctx: &RepairContext<'_>) -> bool {
        uszkodzona_matroska(ctx)
    }

    open spec fn naprawa(
        &self,
        zrodlo: Seq<char>,
        ctx: &RepairContext<'_>,
        dawca: Option<Seq<char>>,
        katalog: Seq<char>,
        h: Seq<Zdarzenie>,
    ) -> Nastepny<Naprawa> {
        skladanie::skladanie(
            Silnik::MkvSplice,
            zrodlo,
            dawca,
            cel::cel(zrodlo, katalog, "_repaired_mkv"@, cel::rozszerzenie_lub(zrodlo, "mkv"@)),
            "Złożono Matroskę z dwóch kopii, wybierając elementy `Segment` o zgodnym CRC-32 (dawca: "@,
            ")."@,
            h,
        )
    }

    open spec fn weryfikacja(&self, plik: Seq<char>, h: Seq<Zdarzenie>) -> Nastepny<Werdykt> {
        weryfikacja::weryfikacja_pliku(plik, h)
    }

    open spec fn odmawia_dekoder(&self, plik: Seq<char>, h: Seq<Zdarzenie>) -> bool {
        weryfikacja::odmowa_dekodera(plik, h)
    }

    fn id(&self) -> (r: &'static str) {
        "mkv_clone"
    }

    fn display_name(&self) -> (r: &'static str) {
        "Matroska składanie elementów z dwóch kopii (CRC-32 per element)"
    }

    fn applies_to(&self, ctx: &RepairContext<'_>) -> (r: bool) {
        jest_uszkodzona_matroska(ctx)
    }

    fn repair(
        &self,
        source: &str,
        _ctx: &RepairContext<'_>,
        twin: Option<&str>,
        katalog_wyjsciowy: &str,
        h: &Vec<Zdarzenie>,
    ) -> (r: KrokNaprawy) {
        let ext = cel::rozszerzenie_zrodla(source, "mkv");
        skladanie::zloz_z_dwoch(
            Silnik::MkvSplice,
            source,
            twin,
            cel::wyznacz_cel(source, katalog_wyjsciowy, "_repaired_mkv", ext.as_str()),
            "Złożono Matroskę z dwóch kopii, wybierając elementy `Segment` o zgodnym CRC-32 (dawca: ",
            ").",
            h,
        )
    }

    fn verify(&self, repaired: &str, _ctx: &RepairContext<'_>, h: &Vec<Zdarzenie>) -> (r:
        KrokWeryfikacji) {
        weryfikacja::weryfikuj_naprawiony_plik(repaired, h)
    }
}

} // verus!
