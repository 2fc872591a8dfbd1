//! Archives: ZIP and what is built on it, and TAR. Entries are taken from two copies.

use vstd::prelude::*;

use crate::phases::phase8;
use crate::phases::repair_modules::cel;
use crate::phases::repair_modules::praca::{
    KrokNaprawy, KrokWeryfikacji, Naprawa, Nastepny, Silnik, Werdykt, Zdarzenie,
};
use crate::phases::repair_modules::skladanie;
use crate::phases::repair_modules::weryfikacja;
use crate::phases::repair_modules::{RepairContext, RepairModule};
use crate::tekst;

verus! {

/// The archive bears a trace of damage: it does not open, has broken entries,
/// or is cut off.
pub open spec fn slad_uszkodzenia(ctx: &RepairContext<'_>) -> bool {
    ctx.structure_ok == Some(false) || ctx.eof_ok == Some(false)
}

/// Whether the archive bears a trace of damage.
pub fn nosi_slad_uszkodzenia(ctx: &RepairContext<'_>) -> (r: bool)
    ensures
        r == slad_uszkodzenia(ctx),
{
    phase8::nie(ctx.structure_ok) || phase8::nie(ctx.eof_ok)
}

/// Takes every entry of a ZIP archive from the copy in which its CRC32 holds.
pub struct ZipSpliceModule;

impl RepairModule for ZipSpliceModule {
    open spec fn identyfikator(&self) -> Seq<char> {
        "zip_splice"@
    }

    open spec fn nazwa(&self) -> Seq<char> {
        "ZIP składanie wpisów z dwóch kopii (CRC32 per wpis)"@
    }

    open spec fn stosuje_sie(&self, ctx: &RepairContext<'_>) -> bool {
        weryfikacja::rodzina_zip(ctx.ext@) && slad_uszkodzenia(ctx)
    }

    open spec fn naprawa(
        &self,
        zrodlo: Seq<char>,
        ctx: &RepairContext<'_>,
        dawca: Option<Seq<char>>,
        katalog: Seq<char>,
        h: Seq<Zdarzenie>,
    ) -> Nastepny<Naprawa> {
        skladanie::skladanie(
            Silnik::ZipSplice,
            zrodlo,
            dawca,
            cel::cel(zrodlo, katalog, "_repaired_zip"@, cel::rozszerzenie_lub(zrodlo, "zip"@)),
            "Złożono archiwum z dwóch kopii, wybierając wpisy o zgodnym CRC32 (dawca: "@,
            ")."@,
            h,
        )
    }

    open spec fn weryfikacja(&self, plik: Seq<char>, h: Seq<Zdarzenie>) -> Nastepny<Werdykt> {
        weryfikacja::weryfikacja_pliku(plik, h)
    }

    open spec fn odmawia_dekoder(&self, plik: Seq<char>, h: Seq<Zdarzenie>) -> bool {
        weryfikacja::odmowa_dekodera(plik, h)
    }

    fn id(&self) -> (r: &'static str) {
        "zip_splice"
    }

    fn display_name(&self) -> (r: &'static str) {
        "ZIP składanie wpisów z dwóch kopii (CRC32 per wpis)"
    }

    fn applies_to(&self, ctx: &RepairContext<'_>) -> (r: bool) {
        weryfikacja::jest_zip(ctx.ext) && nosi_slad_uszkodzenia(ctx)
    }

    fn repair(
        &self,
        source: &str,
        _ctx: &RepairContext<'_>,
        twin: Option<&str>,
        katalog_wyjsciowy: &str,
        h: &Vec<Zdarzenie>,
    ) -> (r: KrokNaprawy) {
        let ext = cel::rozszerzenie_zrodla(source, "zip");
        skladanie::zloz_z_dwoch(
            Silnik::ZipSplice,
            source,
            twin,
            cel::wyznacz_cel(source, katalog_wyjsciowy, "_repaired_zip", ext.as_str()),
            "Złożono archiwum z dwóch kopii, wybierając wpisy o zgodnym CRC32 (dawca: ",
            ").",
            h,
        )
    }

    fn verify(&self, repaired: &str, _ctx: &RepairContext<'_>, h: &Vec<Zdarzenie>) -> (r:
        KrokWeryfikacji) {
        weryfikacja::weryfikuj_naprawiony_plik(repaired, h)
    }
}

/// Takes every entry of a tar archive from the copy whose entry header has a sound sum.
pub struct TarSpliceModule;

impl RepairModule for TarSpliceModule {
    open spec fn identyfikator(&self) -> Seq<char> {
        "tar_splice"@
    }

    open spec fn nazwa(&self) -> Seq<char> {
        "TAR składanie wpisów z dwóch kopii (gwarancja SŁABA - suma chroni tylko nagłówki)"@
    }

    open spec fn stosuje_sie(&self, ctx: &RepairContext<'_>) -> bool {
        ctx.ext@ == "tar"@ && slad_uszkodzenia(ctx)
    }

    open spec fn naprawa(
        &self,
        zrodlo: Seq<char>,
        ctx: &RepairContext<'_>,
        dawca: Option<Seq<char>>,
        katalog: Seq<char>,
        h: Seq<Zdarzenie>,
    ) -> Nastepny<Naprawa> {
        skladanie::skladanie(
            Silnik::TarSplice,
            zrodlo,
            dawca,
            cel::cel(zrodlo, katalog, "_repaired_tar"@, "tar"@),
            "Złożono archiwum z dwóch kopii wg sum kontrolnych nagłówków wpisów (dawca: "@,
            "). UWAGA: tar nie chroni danych wpisów - potwierdzona poprawna STRUKTURA, nie treść."@,
            h,
        )
    }

    open spec fn weryfikacja(&self, plik: Seq<char>, h: Seq<Zdarzenie>) -> Nastepny<Werdykt> {
        weryfikacja::weryfikacja_pliku(plik, h)
    }

    open spec fn odmawia_dekoder(&self, plik: Seq<char>, h: Seq<Zdarzenie>) -> bool {
        weryfikacja::odmowa_dekodera(plik, h)
    }

    fn id(&self) -> (r: &'static str) {
        "tar_splice"
    }

    fn display_name(&self) -> (r: &'static str) {
        "TAR składanie wpisów z dwóch kopii (gwarancja SŁABA - suma chroni tylko nagłówki)"
    }

    fn applies_to(&self, ctx: &RepairContext<'_>) -> (r: bool) {
        tekst::rowne(ctx.ext, "tar") && nosi_slad_uszkodzenia(ctx)
    }

    fn repair(
        &self,
        source: &str,
        _ctx: &RepairContext<'_>,
        twin: Option<&str>,
        katalog_wyjsciowy: &str,
        h: &Vec<Zdarzenie>,
    ) -> (r: KrokNaprawy) {
        skladanie::zloz_z_dwoch(
            Silnik::TarSplice,
            source,
            twin,
            cel::wyznacz_cel(source, katalog_wyjsciowy, "_repaired_tar", "tar"),
            "Złożono archiwum z dwóch kopii wg sum kontrolnych nagłówków wpisów (dawca: ",
            "). UWAGA: tar nie chroni danych wpisów - potwierdzona poprawna STRUKTURA, nie treść.",
            h,
        )
    }

    fn verify(&self, repaired: &str, _ctx: &RepairContext<'_>, h: &Vec<Zdarzenie>) -> (r:
        KrokWeryfikacji) {
        weryfikacja::weryfikuj_naprawiony_plik(repaired, h)
    }
}

} // verus!
