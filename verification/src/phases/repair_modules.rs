//! Registry of the repair modules.
//!
//! Every way of repairing a file is a module of its own behind one trait. Who
//! drives a repair knows the trait alone: it tries the modules of
//! [`all_modules`] in their order until one of them succeeds and its result
//! passes the mandatory verification.

pub mod archive;
pub mod asf;
pub mod cel;
pub mod dng;
pub mod extension;
pub mod header_jpg;
pub mod header_png;
pub mod header_raster;
pub mod heic;
pub mod jpeg;
pub mod mkv;
pub mod mp3;
pub mod mp4;
pub mod mp4_autopilot;
pub mod png;
pub mod praca;
pub mod prawa_krokow;
pub mod prawa_kwalifikacji;
pub mod prawa_napraw;
pub mod prawa_przyjec;
pub mod prawa_slow;
pub mod prawa_weryfikacji;
pub mod riff;
pub mod skladanie;
pub mod splice;
pub mod sqlite;
pub mod weryfikacja;
pub mod zszywanie;

use vstd::prelude::*;

use crate::phases::repair_modules::archive::{TarSpliceModule, ZipSpliceModule};
use crate::phases::repair_modules::asf::AsfCloneModule;
use crate::phases::repair_modules::dng::DngStructuralModule;
use crate::phases::repair_modules::extension::ExtensionModule;
use crate::phases::repair_modules::header_jpg::HeaderJpgModule;
use crate::phases::repair_modules::header_png::HeaderPngModule;
use crate::phases::repair_modules::header_raster::HeaderRasterModule;
use crate::phases::repair_modules::heic::{HeicCloneModule, HeicNativeModule};
use crate::phases::repair_modules::jpeg::JpegCloneModule;
use crate::phases::repair_modules::mkv::MkvCloneModule;
use crate::phases::repair_modules::mp3::Mp3CloneModule;
use crate::phases::repair_modules::mp4::{Mp4CloneModule, Mp4NativeModule, Mp4RecontainerModule};
use crate::phases::repair_modules::mp4_autopilot::Mp4AutopilotModule;
use crate::phases::repair_modules::png::{PngCloneModule, PngSanitizeModule};
use crate::phases::repair_modules::riff::RiffCloneModule;
use crate::phases::repair_modules::splice::SpliceModule;
use crate::phases::repair_modules::sqlite::SqliteModule;
use crate::phases::repair_modules::praca::{
    KrokNaprawy, KrokWeryfikacji, Naprawa, Nastepny, Werdykt, Zdarzenie,
};
use crate::tekst;

pub use crate::phases::repair_modules::praca::WynikWeryfikacji;
pub use crate::phases::repair_modules::weryfikacja::weryfikuj_naprawiony_plik;

verus! {

/// Diagnosis of one file on one side, gathered by the earlier phases.
pub struct RepairContext<'a> {
    /// Extension in lower case, without the dot.
    pub ext: &'a str,
    /// Reason of the anomaly that the header check reported.
    pub media_reason: Option<&'a str>,
    /// The content is valid UTF-8.
    pub utf8_ok: Option<bool>,
    /// The content is one long line.
    pub is_oneliner: Option<bool>,
    /// The end marker is in place and nothing follows it.
    pub eof_ok: Option<bool>,
    /// How the two copies correlate.
    pub match_type: Option<&'a str>,
    /// The video container is sound.
    pub video_ok: Option<bool>,
    /// The structure of the archive is sound.
    pub structure_ok: Option<bool>,
    /// The picture was decoded in full.
    pub media_decoded: Option<bool>,
}

/// The reason of the anomaly holds a phrase.
pub open spec fn powod_zawiera(ctx: &RepairContext<'_>, fraza: Seq<char>) -> bool {
    ctx.media_reason matches Some(p) && tekst::zawiera_tekst(p@, fraza)
}

/// Whether the reason of the anomaly holds a phrase.
pub fn powod_ma(ctx: &RepairContext<'_>, fraza: &str) -> (r: bool)
    ensures
        r == powod_zawiera(ctx, fraza@),
{
    match ctx.media_reason {
        Some(p) => tekst::zawiera(p, fraza),
        None => false,
    }
}

/// The copies correlate in part.
pub open spec fn czesciowe_dopasowanie(ctx: &RepairContext<'_>) -> bool {
    tekst::widok_ref(ctx.match_type) == Some("PARTIAL"@)
}

/// Whether the copies correlate in part.
pub fn jest_czesciowe(ctx: &RepairContext<'_>) -> (r: bool)
    ensures
        r == czesciowe_dopasowanie(ctx),
{
    tekst::jest_tekstem(ctx.match_type, "PARTIAL")
}

/// What all repair modules share.
pub trait RepairModule: Send + Sync {
    /// The stable identifier.
    spec fn identyfikator(&self) -> Seq<char>;

    /// The name for the reader of a menu or a log.
    spec fn nazwa(&self) -> Seq<char>;

    /// The module should try a file with this diagnosis.
    spec fn stosuje_sie(&self, ctx: &RepairContext<'_>) -> bool;

    /// The repair: the next piece of work, or its result.
    spec fn naprawa(
        &self,
        zrodlo: Seq<char>,
        ctx: &RepairContext<'_>,
        dawca: Option<Seq<char>>,
        katalog: Seq<char>,
        h: Seq<Zdarzenie>,
    ) -> Nastepny<Naprawa>;

    /// The verification of a result: the next piece of work, or the verdict.
    spec fn weryfikacja(&self, plik: Seq<char>, h: Seq<Zdarzenie>) -> Nastepny<Werdykt>;

    /// The verdict is the refusal of an image decoder, which words it itself.
    spec fn odmawia_dekoder(&self, plik: Seq<char>, h: Seq<Zdarzenie>) -> bool;

    /// Stable identifier: key of the live counters, of the log and of the menu.
    fn id(&self) -> (r: &'static str)
        ensures
            r@ == self.identyfikator(),
    ;

    /// Name for the reader of a menu or a log.
    fn display_name(&self) -> (r: &'static str)
        ensures
            r@ == self.nazwa(),
    ;

    /// Decides whether this module should try a file with the given diagnosis.
    fn applies_to(&self, ctx: &RepairContext<'_>) -> (r: bool)
        ensures
            r == self.stosuje_sie(ctx),
    ;

    /// The repair of `source` into a new file in `katalog_wyjsciowy`, step by
    /// step: `h` holds the answers so far. `None` at the end is a failure, after
    /// which the next module gets its chance.
    fn repair(
        &self,
        source: &str,
        ctx: &RepairContext<'_>,
        twin: Option<&str>,
        katalog_wyjsciowy: &str,
        h: &Vec<Zdarzenie>,
    ) -> (r: KrokNaprawy)
        ensures
            r@ == self.naprawa(
                source@,
                ctx,
                tekst::widok_ref(twin),
                katalog_wyjsciowy@,
                h@,
            ),
    ;

    /// The mandatory verification of a result, step by step. A refusal means
    /// that the repair failed.
    fn verify(&self, repaired: &str, _ctx: &RepairContext<'_>, h: &Vec<Zdarzenie>) -> (r:
        KrokWeryfikacji)
        ensures
            !self.odmawia_dekoder(repaired@, h@) ==> r@ == self.weryfikacja(repaired@, h@),
            self.odmawia_dekoder(repaired@, h@) ==> weryfikacja::niedekodowalny(r@, h@),
    ;
}

/// One of the repair modules.
pub enum Modul {
    HeicClone(HeicCloneModule),
    HeicNative(HeicNativeModule),
    JpegClone(JpegCloneModule),
    PngClone(PngCloneModule),
    PngSanitize(PngSanitizeModule),
    DngStructural(DngStructuralModule),
    ZipSplice(ZipSpliceModule),
    TarSplice(TarSpliceModule),
    MkvClone(MkvCloneModule),
    AsfClone(AsfCloneModule),
    RiffClone(RiffCloneModule),
    Mp3Clone(Mp3CloneModule),
    Mp4Clone(Mp4CloneModule),
    Mp4Native(Mp4NativeModule),
    Mp4Recontainer(Mp4RecontainerModule),
    Mp4Autopilot(Mp4AutopilotModule),
    Splice(SpliceModule),
    Sqlite(SqliteModule),
    HeaderJpg(HeaderJpgModule),
    HeaderPng(HeaderPngModule),
    HeaderRaster(HeaderRasterModule),
    Extension(ExtensionModule),
}

impl RepairModule for Modul {
    open spec fn identyfikator(&self) -> Seq<char> {
        match self {
            Modul::HeicClone(m) => m.identyfikator(),
            Modul::HeicNative(m) => m.identyfikator(),
            Modul::JpegClone(m) => m.identyfikator(),
            Modul::PngClone(m) => m.identyfikator(),
            Modul::PngSanitize(m) => m.identyfikator(),
            Modul::DngStructural(m) => m.identyfikator(),
            Modul::ZipSplice(m) => m.identyfikator(),
            Modul::TarSplice(m) => m.identyfikator(),
            Modul::MkvClone(m) => m.identyfikator(),
            Modul::AsfClone(m) => m.identyfikator(),
            Modul::RiffClone(m) => m.identyfikator(),
            Modul::Mp3Clone(m) => m.identyfikator(),
            Modul::Mp4Clone(m) => m.identyfikator(),
            Modul::Mp4Native(m) => m.identyfikator(),
            Modul::Mp4Recontainer(m) => m.identyfikator(),
            Modul::Mp4Autopilot(m) => m.identyfikator(),
            Modul::Splice(m) => m.identyfikator(),
            Modul::Sqlite(m) => m.identyfikator(),
            Modul::HeaderJpg(m) => m.identyfikator(),
            Modul::HeaderPng(m) => m.identyfikator(),
            Modul::HeaderRaster(m) => m.identyfikator(),
            Modul::Extension(m) => m.identyfikator(),
        }
    }

    open spec fn nazwa(&self) -> Seq<char> {
        match self {
            Modul::HeicClone(m) => m.nazwa(),
            Modul::HeicNative(m) => m.nazwa(),
            Modul::JpegClone(m) => m.nazwa(),
            Modul::PngClone(m) => m.nazwa(),
            Modul::PngSanitize(m) => m.nazwa(),
            Modul::DngStructural(m) => m.nazwa(),
            Modul::ZipSplice(m) => m.nazwa(),
            Modul::TarSplice(m) => m.nazwa(),
            Modul::MkvClone(m) => m.nazwa(),
            Modul::AsfClone(m) => m.nazwa(),
            Modul::RiffClone(m) => m.nazwa(),
            Modul::Mp3Clone(m) => m.nazwa(),
            Modul::Mp4Clone(m) => m.nazwa(),
            Modul::Mp4Native(m) => m.nazwa(),
            Modul::Mp4Recontainer(m) => m.nazwa(),
            Modul::Mp4Autopilot(m) => m.nazwa(),
            Modul::Splice(m) => m.nazwa(),
            Modul::Sqlite(m) => m.nazwa(),
            Modul::HeaderJpg(m) => m.nazwa(),
            Modul::HeaderPng(m) => m.nazwa(),
            Modul::HeaderRaster(m) => m.nazwa(),
            Modul::Extension(m) => m.nazwa(),
        }
    }

    open spec fn stosuje_sie(&self, ctx: &RepairContext<'_>) -> bool {
        match self {
            Modul::HeicClone(m) => m.stosuje_sie(ctx),
            Modul::HeicNative(m) => m.stosuje_sie(ctx),
            Modul::JpegClone(m) => m.stosuje_sie(ctx),
            Modul::PngClone(m) => m.stosuje_sie(ctx),
            Modul::PngSanitize(m) => m.stosuje_sie(ctx),
            Modul::DngStructural(m) => m.stosuje_sie(ctx),
            Modul::ZipSplice(m) => m.stosuje_sie(ctx),
            Modul::TarSplice(m) => m.stosuje_sie(ctx),
            Modul::MkvClone(m) => m.stosuje_sie(ctx),
            Modul::AsfClone(m) => m.stosuje_sie(ctx),
            Modul::RiffClone(m) => m.stosuje_sie(ctx),
            Modul::Mp3Clone(m) => m.stosuje_sie(ctx),
            Modul::Mp4Clone(m) => m.stosuje_sie(ctx),
            Modul::Mp4Native(m) => m.stosuje_sie(ctx),
            Modul::Mp4Recontainer(m) => m.stosuje_sie(ctx),
            Modul::Mp4Autopilot(m) => m.stosuje_sie(ctx),
            Modul::Splice(m) => m.stosuje_sie(ctx),
            Modul::Sqlite(m) => m.stosuje_sie(ctx),
            Modul::HeaderJpg(m) => m.stosuje_sie(ctx),
            Modul::HeaderPng(m) => m.stosuje_sie(ctx),
            Modul::HeaderRaster(m) => m.stosuje_sie(ctx),
            Modul::Extension(m) => m.stosuje_sie(ctx),
        }
    }

    open spec fn naprawa(
        &self,
        zrodlo: Seq<char>,
        ctx: &RepairContext<'_>,
        dawca: Option<Seq<char>>,
        katalog: Seq<char>,
        h: Seq<Zdarzenie>,
    ) -> Nastepny<Naprawa> {
        match self {
            Modul::HeicClone(m) => m.naprawa(zrodlo, ctx, dawca, katalog, h),
            Modul::HeicNative(m) => m.naprawa(zrodlo, ctx, dawca, katalog, h),
            Modul::JpegClone(m) => m.naprawa(zrodlo, ctx, dawca, katalog, h),
            Modul::PngClone(m) => m.naprawa(zrodlo, ctx, dawca, katalog, h),
            Modul::PngSanitize(m) => m.naprawa(zrodlo, ctx, dawca, katalog, h),
            Modul::DngStructural(m) => m.naprawa(zrodlo, ctx, dawca, katalog, h),
            Modul::ZipSplice(m) => m.naprawa(zrodlo, ctx, dawca, katalog, h),
            Modul::TarSplice(m) => m.naprawa(zrodlo, ctx, dawca, katalog, h),
            Modul::MkvClone(m) => m.naprawa(zrodlo, ctx, dawca, katalog, h),
            Modul::AsfClone(m) => m.naprawa(zrodlo, ctx, dawca, katalog, h),
            Modul::RiffClone(m) => m.naprawa(zrodlo, ctx, dawca, katalog, h),
            Modul::Mp3Clone(m) => m.naprawa(zrodlo, ctx, dawca, katalog, h),
            Modul::Mp4Clone(m) => m.naprawa(zrodlo, ctx, dawca, katalog, h),
            Modul::Mp4Native(m) => m.naprawa(zrodlo, ctx, dawca, katalog, h),
            Modul::Mp4Recontainer(m) => m.naprawa(zrodlo, ctx, dawca, katalog, h),
            Modul::Mp4Autopilot(m) => m.naprawa(zrodlo, ctx, dawca, katalog, h),
            Modul::Splice(m) => m.naprawa(zrodlo, ctx, dawca, katalog, h),
            Modul::Sqlite(m) => m.naprawa(zrodlo, ctx, dawca, katalog, h),
            Modul::HeaderJpg(m) => m.naprawa(zrodlo, ctx, dawca, katalog, h),
            Modul::HeaderPng(m) => m.naprawa(zrodlo, ctx, dawca, katalog, h),
            Modul::HeaderRaster(m) => m.naprawa(zrodlo, ctx, dawca, katalog, h),
            Modul::Extension(m) => m.naprawa(zrodlo, ctx, dawca, katalog, h),
        }
    }

    open spec fn weryfikacja(&self, plik: Seq<char>, h: Seq<Zdarzenie>) -> Nastepny<Werdykt> {
        match self {
            Modul::HeicClone(m) => m.weryfikacja(plik, h),
            Modul::HeicNative(m) => m.weryfikacja(plik, h),
            Modul::JpegClone(m) => m.weryfikacja(plik, h),
            Modul::PngClone(m) => m.weryfikacja(plik, h),
            Modul::PngSanitize(m) => m.weryfikacja(plik, h),
            Modul::DngStructural(m) => m.weryfikacja(plik, h),
            Modul::ZipSplice(m) => m.weryfikacja(plik, h),
            Modul::TarSplice(m) => m.weryfikacja(plik, h),
            Modul::MkvClone(m) => m.weryfikacja(plik, h),
            Modul::AsfClone(m) => m.weryfikacja(plik, h),
            Modul::RiffClone(m) => m.weryfikacja(plik, h),
            Modul::Mp3Clone(m) => m.weryfikacja(plik, h),
            Modul::Mp4Clone(m) => m.weryfikacja(plik, h),
            Modul::Mp4Native(m) => m.weryfikacja(plik, h),
            Modul::Mp4Recontainer(m) => m.weryfikacja(plik, h),
            Modul::Mp4Autopilot(m) => m.weryfikacja(plik, h),
            Modul::Splice(m) => m.weryfikacja(plik, h),
            Modul::Sqlite(m) => m.weryfikacja(plik, h),
            Modul::HeaderJpg(m) => m.weryfikacja(plik, h),
            Modul::HeaderPng(m) => m.weryfikacja(plik, h),
            Modul::HeaderRaster(m) => m.weryfikacja(plik, h),
            Modul::Extension(m) => m.weryfikacja(plik, h),
        }
    }

    open spec fn odmawia_dekoder(&self, plik: Seq<char>, h: Seq<Zdarzenie>) -> bool {
        match self {
            Modul::HeicClone(m) => m.odmawia_dekoder(plik, h),
            Modul::HeicNative(m) => m.odmawia_dekoder(plik, h),
            Modul::JpegClone(m) => m.odmawia_dekoder(plik, h),
            Modul::PngClone(m) => m.odmawia_dekoder(plik, h),
            Modul::PngSanitize(m) => m.odmawia_dekoder(plik, h),
            Modul::DngStructural(m) => m.odmawia_dekoder(plik, h),
            Modul::ZipSplice(m) => m.odmawia_dekoder(plik, h),
            Modul::TarSplice(m) => m.odmawia_dekoder(plik, h),
            Modul::MkvClone(m) => m.odmawia_dekoder(plik, h),
            Modul::AsfClone(m) => m.odmawia_dekoder(plik, h),
            Modul::RiffClone(m) => m.odmawia_dekoder(plik, h),
            Modul::Mp3Clone(m) => m.odmawia_dekoder(plik, h),
            Modul::Mp4Clone(m) => m.odmawia_dekoder(plik, h),
            Modul::Mp4Native(m) => m.odmawia_dekoder(plik, h),
            Modul::Mp4Recontainer(m) => m.odmawia_dekoder(plik, h),
            Modul::Mp4Autopilot(m) => m.odmawia_dekoder(plik, h),
            Modul::Splice(m) => m.odmawia_dekoder(plik, h),
            Modul::Sqlite(m) => m.odmawia_dekoder(plik, h),
            Modul::HeaderJpg(m) => m.odmawia_dekoder(plik, h),
            Modul::HeaderPng(m) => m.odmawia_dekoder(plik, h),
            Modul::HeaderRaster(m) => m.odmawia_dekoder(plik, h),
            Modul::Extension(m) => m.odmawia_dekoder(plik, h),
        }
    }

    fn id(&self) -> (r: &'static str) {
        match self {
            Modul::HeicClone(m) => m.id(),
            Modul::HeicNative(m) => m.id(),
            Modul::JpegClone(m) => m.id(),
            Modul::PngClone(m) => m.id(),
            Modul::PngSanitize(m) => m.id(),
            Modul::DngStructural(m) => m.id(),
            Modul::ZipSplice(m) => m.id(),
            Modul::TarSplice(m) => m.id(),
            Modul::MkvClone(m) => m.id(),
            Modul::AsfClone(m) => m.id(),
            Modul::RiffClone(m) => m.id(),
            Modul::Mp3Clone(m) => m.id(),
            Modul::Mp4Clone(m) => m.id(),
            Modul::Mp4Native(m) => m.id(),
            Modul::Mp4Recontainer(m) => m.id(),
            Modul::Mp4Autopilot(m) => m.id(),
            Modul::Splice(m) => m.id(),
            Modul::Sqlite(m) => m.id(),
            Modul::HeaderJpg(m) => m.id(),
            Modul::HeaderPng(m) => m.id(),
            Modul::HeaderRaster(m) => m.id(),
            Modul::Extension(m) => m.id(),
        }
    }

    fn display_name(&self) -> (r: &'static str) {
        match self {
            Modul::HeicClone(m) => m.display_name(),
            Modul::HeicNative(m) => m.display_name(),
            Modul::JpegClone(m) => m.display_name(),
            Modul::PngClone(m) => m.display_name(),
            Modul::PngSanitize(m) => m.display_name(),
            Modul::DngStructural(m) => m.display_name(),
            Modul::ZipSplice(m) => m.display_name(),
            Modul::TarSplice(m) => m.display_name(),
            Modul::MkvClone(m) => m.display_name(),
            Modul::AsfClone(m) => m.display_name(),
            Modul::RiffClone(m) => m.display_name(),
            Modul::Mp3Clone(m) => m.display_name(),
            Modul::Mp4Clone(m) => m.display_name(),
            Modul::Mp4Native(m) => m.display_name(),
            Modul::Mp4Recontainer(m) => m.display_name(),
            Modul::Mp4Autopilot(m) => m.display_name(),
            Modul::Splice(m) => m.display_name(),
            Modul::Sqlite(m) => m.display_name(),
            Modul::HeaderJpg(m) => m.display_name(),
            Modul::HeaderPng(m) => m.display_name(),
            Modul::HeaderRaster(m) => m.display_name(),
            Modul::Extension(m) => m.display_name(),
        }
    }

    fn applies_to(&self, ctx: &RepairContext<'_>) -> (r: bool) {
        match self {
            Modul::HeicClone(m) => m.applies_to(ctx),
            Modul::HeicNative(m) => m.applies_to(ctx),
            Modul::JpegClone(m) => m.applies_to(ctx),
            Modul::PngClone(m) => m.applies_to(ctx),
            Modul::PngSanitize(m) => m.applies_to(ctx),
            Modul::DngStructural(m) => m.applies_to(ctx),
            Modul::ZipSplice(m) => m.applies_to(ctx),
            Modul::TarSplice(m) => m.applies_to(ctx),
            Modul::MkvClone(m) => m.applies_to(ctx),
            Modul::AsfClone(m) => m.applies_to(ctx),
            Modul::RiffClone(m) => m.applies_to(ctx),
            Modul::Mp3Clone(m) => m.applies_to(ctx),
            Modul::Mp4Clone(m) => m.applies_to(ctx),
            Modul::Mp4Native(m) => m.applies_to(ctx),
            Modul::Mp4Recontainer(m) => m.applies_to(ctx),
            Modul::Mp4Autopilot(m) => m.applies_to(ctx),
            Modul::Splice(m) => m.applies_to(ctx),
            Modul::Sqlite(m) => m.applies_to(ctx),
            Modul::HeaderJpg(m) => m.applies_to(ctx),
            Modul::HeaderPng(m) => m.applies_to(ctx),
            Modul::HeaderRaster(m) => m.applies_to(ctx),
            Modul::Extension(m) => m.applies_to(ctx),
        }
    }

    fn repair(
        &self,
        source: &str,
        ctx: &RepairContext<'_>,
        twin: Option<&str>,
        katalog_wyjsciowy: &str,
        h: &Vec<Zdarzenie>,
    ) -> (r: KrokNaprawy) {
        match self {
            Modul::HeicClone(m) => m.repair(source, ctx, twin, katalog_wyjsciowy, h),
            Modul::HeicNative(m) => m.repair(source, ctx, twin, katalog_wyjsciowy, h),
            Modul::JpegClone(m) => m.repair(source, ctx, twin, katalog_wyjsciowy, h),
            Modul::PngClone(m) => m.repair(source, ctx, twin, katalog_wyjsciowy, h),
            Modul::PngSanitize(m) => m.repair(source, ctx, twin, katalog_wyjsciowy, h),
            Modul::DngStructural(m) => m.repair(source, ctx, twin, katalog_wyjsciowy, h),
            Modul::ZipSplice(m) => m.repair(source, ctx, twin, katalog_wyjsciowy, h),
            Modul::TarSplice(m) => m.repair(source, ctx, twin, katalog_wyjsciowy, h),
            Modul::MkvClone(m) => m.repair(source, ctx, twin, katalog_wyjsciowy, h),
            Modul::AsfClone(m) => m.repair(source, ctx, twin, katalog_wyjsciowy, h),
            Modul::RiffClone(m) => m.repair(source, ctx, twin, katalog_wyjsciowy, h),
            Modul::Mp3Clone(m) => m.repair(source, ctx, twin, katalog_wyjsciowy, h),
            Modul::Mp4Clone(m) => m.repair(source, ctx, twin, katalog_wyjsciowy, h),
            Modul::Mp4Native(m) => m.repair(source, ctx, twin, katalog_wyjsciowy, h),
            Modul::Mp4Recontainer(m) => m.repair(source, ctx, twin, katalog_wyjsciowy, h),
            Modul::Mp4Autopilot(m) => m.repair(source, ctx, twin, katalog_wyjsciowy, h),
            Modul::Splice(m) => m.repair(source, ctx, twin, katalog_wyjsciowy, h),
            Modul::Sqlite(m) => m.repair(source, ctx, twin, katalog_wyjsciowy, h),
            Modul::HeaderJpg(m) => m.repair(source, ctx, twin, katalog_wyjsciowy, h),
            Modul::HeaderPng(m) => m.repair(source, ctx, twin, katalog_wyjsciowy, h),
            Modul::HeaderRaster(m) => m.repair(source, ctx, twin, katalog_wyjsciowy, h),
            Modul::Extension(m) => m.repair(source, ctx, twin, katalog_wyjsciowy, h),
        }
    }

    fn verify(&self, repaired: &str, ctx: &RepairContext<'_>, h: &Vec<Zdarzenie>) -> (r:
        KrokWeryfikacji) {
        match self {
            Modul::HeicClone(m) => m.verify(repaired, ctx, h),
            Modul::HeicNative(m) => m.verify(repaired, ctx, h),
            Modul::JpegClone(m) => m.verify(repaired, ctx, h),
            Modul::PngClone(m) => m.verify(repaired, ctx, h),
            Modul::PngSanitize(m) => m.verify(repaired, ctx, h),
            Modul::DngStructural(m) => m.verify(repaired, ctx, h),
            Modul::ZipSplice(m) => m.verify(repaired, ctx, h),
            Modul::TarSplice(m) => m.verify(repaired, ctx, h),
            Modul::MkvClone(m) => m.verify(repaired, ctx, h),
            Modul::AsfClone(m) => m.verify(repaired, ctx, h),
            Modul::RiffClone(m) => m.verify(repaired, ctx, h),
            Modul::Mp3Clone(m) => m.verify(repaired, ctx, h),
            Modul::Mp4Clone(m) => m.verify(repaired, ctx, h),
            Modul::Mp4Native(m) => m.verify(repaired, ctx, h),
            Modul::Mp4Recontainer(m) => m.verify(repaired, ctx, h),
            Modul::Mp4Autopilot(m) => m.verify(repaired, ctx, h),
            Modul::Splice(m) => m.verify(repaired, ctx, h),
            Modul::Sqlite(m) => m.verify(repaired, ctx, h),
            Modul::HeaderJpg(m) => m.verify(repaired, ctx, h),
            Modul::HeaderPng(m) => m.verify(repaired, ctx, h),
            Modul::HeaderRaster(m) => m.verify(repaired, ctx, h),
            Modul::Extension(m) => m.verify(repaired, ctx, h),
        }
    }
}

/// The repair modules of this library in the order in which they are tried: the
/// first that fits and succeeds wins. Engines that know a format stand before the
/// blind stitching, grafts from a twin before reconstructions, and injections of
/// a header behind both.
///
/// The host adds four modules of its own: those for TS and FLV streams between
/// `MkvClone` and the ASF, RIFF, MP3 and MP4 engines, and those that trim trailing
/// rubbish and repair text, in this order, between `Sqlite` and `HeaderJpg`.
pub open spec fn rejestr(ffmpeg: bool) -> Seq<Modul> {
    seq![
        Modul::HeicClone(HeicCloneModule),
        Modul::HeicNative(HeicNativeModule),
        Modul::JpegClone(JpegCloneModule),
        Modul::PngClone(PngCloneModule),
        Modul::PngSanitize(PngSanitizeModule),
        Modul::DngStructural(DngStructuralModule),
        Modul::ZipSplice(ZipSpliceModule),
        Modul::TarSplice(TarSpliceModule),
        Modul::MkvClone(MkvCloneModule),
        Modul::AsfClone(AsfCloneModule),
        Modul::RiffClone(RiffCloneModule),
        Modul::Mp3Clone(Mp3CloneModule),
        Modul::Mp4Clone(Mp4CloneModule),
        Modul::Mp4Native(Mp4NativeModule),
        Modul::Mp4Recontainer(Mp4RecontainerModule { ffmpeg }),
        Modul::Mp4Autopilot(Mp4AutopilotModule),
        Modul::Splice(SpliceModule),
        Modul::Sqlite(SqliteModule),
        Modul::HeaderJpg(HeaderJpgModule),
        Modul::HeaderPng(HeaderPngModule),
        Modul::HeaderRaster(HeaderRasterModule),
        Modul::Extension(ExtensionModule),
    ]
}

/// The repair modules of this library in the order in which they are tried, as
/// [`rejestr`] has them. `ffmpeg` says whether that program is there on this
/// machine.
pub fn all_modules(ffmpeg: bool) -> (r: Vec<Modul>)
    ensures
        r@ == rejestr(ffmpeg),
{
    let mut r: Vec<Modul> = Vec::new();
    r.push(Modul::HeicClone(HeicCloneModule));
    r.push(Modul::HeicNative(HeicNativeModule));
    r.push(Modul::JpegClone(JpegCloneModule));
    r.push(Modul::PngClone(PngCloneModule));
    r.push(Modul::PngSanitize(PngSanitizeModule));
    r.push(Modul::DngStructural(DngStructuralModule));
    r.push(Modul::ZipSplice(ZipSpliceModule));
    r.push(Modul::TarSplice(TarSpliceModule));
    r.push(Modul::MkvClone(MkvCloneModule));
    r.push(Modul::AsfClone(AsfCloneModule));
    r.push(Modul::RiffClone(RiffCloneModule));
    r.push(Modul::Mp3Clone(Mp3CloneModule));
    r.push(Modul::Mp4Clone(Mp4CloneModule));
    r.push(Modul::Mp4Native(Mp4NativeModule));
    r.push(Modul::Mp4Recontainer(Mp4RecontainerModule { ffmpeg }));
    r.push(Modul::Mp4Autopilot(Mp4AutopilotModule));
    r.push(Modul::Splice(SpliceModule));
    r.push(Modul::Sqlite(SqliteModule));
    r.push(Modul::HeaderJpg(HeaderJpgModule));
    r.push(Modul::HeaderPng(HeaderPngModule));
    r.push(Modul::HeaderRaster(HeaderRasterModule));
    r.push(Modul::Extension(ExtensionModule));
    assert(r@ =~= rejestr(ffmpeg));
    r
}

} // verus!
