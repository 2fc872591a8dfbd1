//! Laws of the repair modules.

use vstd::prelude::*;

use crate::phases::repair_modules;
use crate::phases::repair_modules::archive::{TarSpliceModule, ZipSpliceModule};
use crate::phases::repair_modules::asf::AsfCloneModule;
use crate::phases::repair_modules::dng::DngStructuralModule;
use crate::phases::repair_modules::extension::ExtensionModule;
use crate::phases::repair_modules::header_jpg::HeaderJpgModule;
use crate::phases::repair_modules::header_png::HeaderPngModule;
use crate::phases::repair_modules::header_raster::HeaderRasterModule;
use crate::phases::repair_modules::heic::{HeicCloneModule, HeicNativeModule};
use crate::phases::repair_modules::jpeg::JpegCloneModule;
use crate::phases::repair_modules::mkv::MkvCloneModule;
use crate::phases::repair_modules::mp3::Mp3CloneModule;
use crate::phases::repair_modules::mp4::{Mp4CloneModule, Mp4NativeModule, Mp4RecontainerModule};
use crate::phases::repair_modules::mp4_autopilot::Mp4AutopilotModule;
use crate::phases::repair_modules::png::{PngCloneModule, PngSanitizeModule};
use crate::phases::repair_modules::riff::RiffCloneModule;
use crate::phases::repair_modules::splice::SpliceModule;
use crate::phases::repair_modules::sqlite::SqliteModule;
use crate::phases::repair_modules::cel;
use crate::phases::repair_modules::mp4_autopilot;
use crate::phases::repair_modules::praca::{Naprawa, Nastepny, Ruch, Werdykt, Zdarzenie};
use crate::phases::repair_modules::prawa_weryfikacji;
use crate::phases::repair_modules::skladanie;
use crate::phases::repair_modules::{Modul, RepairContext, RepairModule};
use crate::sciezka;
use crate::tekst;

verus! {

/// The place of an identifier in the registry.
pub open spec fn miejsce(id: Seq<char>) -> int {
    if id == "heic_clone"@ {
        0
    } else if id == "heic_native"@ {
        1
    } else if id == "jpeg_clone"@ {
        2
    } else if id == "png_clone"@ {
        3
    } else if id == "png_sanitize"@ {
        4
    } else if id == "dng_structural"@ {
        5
    } else if id == "zip_splice"@ {
        6
    } else if id == "tar_splice"@ {
        7
    } else if id == "mkv_clone"@ {
        8
    } else if id == "asf_clone"@ {
        9
    } else if id == "riff_clone"@ {
        10
    } else if id == "mp3_clone"@ {
        11
    } else if id == "mp4_clone"@ {
        12
    } else if id == "mp4_native"@ {
        13
    } else if id == "mp4_recontainer"@ {
        14
    } else if id == "mp4_autopilot"@ {
        15
    } else if id == "splice"@ {
        16
    } else if id == "sqlite"@ {
        17
    } else if id == "header_jpg"@ {
        18
    } else if id == "header_png"@ {
        19
    } else if id == "header_raster"@ {
        20
    } else if id == "extension"@ {
        21
    } else {
        -1
    }
}

proof fn miejsce_w_rejestrze(ffmpeg: bool, i: int)
    requires
        0 <= i < repair_modules::rejestr(ffmpeg).len(),
    ensures
        miejsce(repair_modules::rejestr(ffmpeg)[i].identyfikator()) == i,
{
    reveal_strlit("heic_clone");
    reveal_strlit("heic_native");
    reveal_strlit("jpeg_clone");
    reveal_strlit("png_clone");
    reveal_strlit("png_sanitize");
    reveal_strlit("dng_structural");
    reveal_strlit("zip_splice");
    reveal_strlit("tar_splice");
    reveal_strlit("mkv_clone");
    reveal_strlit("asf_clone");
    reveal_strlit("riff_clone");
    reveal_strlit("mp3_clone");
    reveal_strlit("mp4_clone");
    reveal_strlit("mp4_native");
    reveal_strlit("mp4_recontainer");
    reveal_strlit("mp4_autopilot");
    reveal_strlit("splice");
    reveal_strlit("sqlite");
    reveal_strlit("header_jpg");
    reveal_strlit("header_png");
    reveal_strlit("header_raster");
    reveal_strlit("extension");
    let r = repair_modules::rejestr(ffmpeg);
    if i == 0 {
        assert(r[i].identyfikator() == "heic_clone"@);
    } else if i == 1 {
        assert(r[i].identyfikator() == "heic_native"@);
    } else if i == 2 {
        assert(r[i].identyfikator() == "jpeg_clone"@);
        assert("jpeg_clone"@[0] != "heic_clone"@[0]);
    } else if i == 3 {
        assert(r[i].identyfikator() == "png_clone"@);
    } else if i == 4 {
        assert(r[i].identyfikator() == "png_sanitize"@);
    } else if i == 5 {
        assert(r[i].identyfikator() == "dng_structural"@);
    } else if i == 6 {
        assert(r[i].identyfikator() == "zip_splice"@);
        assert("zip_splice"@[0] != "heic_clone"@[0]);
        assert("zip_splice"@[0] != "jpeg_clone"@[0]);
    } else if i == 7 {
        assert(r[i].identyfikator() == "tar_splice"@);
        assert("tar_splice"@[0] != "heic_clone"@[0]);
        assert("tar_splice"@[0] != "jpeg_clone"@[0]);
        assert("tar_splice"@[0] != "zip_splice"@[0]);
    } else if i == 8 {
        assert(r[i].identyfikator() == "mkv_clone"@);
        assert("mkv_clone"@[0] != "png_clone"@[0]);
    } else if i == 9 {
        assert(r[i].identyfikator() == "asf_clone"@);
        assert("asf_clone"@[0] != "png_clone"@[0]);
        assert("asf_clone"@[0] != "mkv_clone"@[0]);
    } else if i == 10 {
        assert(r[i].identyfikator() == "riff_clone"@);
        assert("riff_clone"@[0] != "heic_clone"@[0]);
        assert("riff_clone"@[0] != "jpeg_clone"@[0]);
        assert("riff_clone"@[0] != "zip_splice"@[0]);
        assert("riff_clone"@[0] != "tar_splice"@[0]);
    } else if i == 11 {
        assert(r[i].identyfikator() == "mp3_clone"@);
        assert("mp3_clone"@[0] != "png_clone"@[0]);
        assert("mp3_clone"@[1] != "mkv_clone"@[1]);
        assert("mp3_clone"@[0] != "asf_clone"@[0]);
    } else if i == 12 {
        assert(r[i].identyfikator() == "mp4_clone"@);
        assert("mp4_clone"@[0] != "png_clone"@[0]);
        assert("mp4_clone"@[1] != "mkv_clone"@[1]);
        assert("mp4_clone"@[0] != "asf_clone"@[0]);
        assert("mp4_clone"@[2] != "mp3_clone"@[2]);
    } else if i == 13 {
        assert(r[i].identyfikator() == "mp4_native"@);
        assert("mp4_native"@[0] != "heic_clone"@[0]);
        assert("mp4_native"@[0] != "jpeg_clone"@[0]);
        assert("mp4_native"@[0] != "zip_splice"@[0]);
        assert("mp4_native"@[0] != "tar_splice"@[0]);
        assert("mp4_native"@[0] != "riff_clone"@[0]);
    } else if i == 14 {
        assert(r[i].identyfikator() == "mp4_recontainer"@);
    } else if i == 15 {
        assert(r[i].identyfikator() == "mp4_autopilot"@);
    } else if i == 16 {
        assert(r[i].identyfikator() == "splice"@);
    } else if i == 17 {
        assert(r[i].identyfikator() == "sqlite"@);
        assert("sqlite"@[1] != "splice"@[1]);
    } else if i == 18 {
        assert(r[i].identyfikator() == "header_jpg"@);
        assert("header_jpg"@[2] != "heic_clone"@[2]);
        assert("header_jpg"@[0] != "jpeg_clone"@[0]);
        assert("header_jpg"@[0] != "zip_splice"@[0]);
        assert("header_jpg"@[0] != "tar_splice"@[0]);
        assert("header_jpg"@[0] != "riff_clone"@[0]);
        assert("header_jpg"@[0] != "mp4_native"@[0]);
    } else if i == 19 {
        assert(r[i].identyfikator() == "header_png"@);
        assert("header_png"@[2] != "heic_clone"@[2]);
        assert("header_png"@[0] != "jpeg_clone"@[0]);
        assert("header_png"@[0] != "zip_splice"@[0]);
        assert("header_png"@[0] != "tar_splice"@[0]);
        assert("header_png"@[0] != "riff_clone"@[0]);
        assert("header_png"@[0] != "mp4_native"@[0]);
        assert("header_png"@[7] != "header_jpg"@[7]);
    } else if i == 20 {
        assert(r[i].identyfikator() == "header_raster"@);
        assert("header_raster"@[0] != "mp4_autopilot"@[0]);
    } else if i == 21 {
        assert(r[i].identyfikator() == "extension"@);
        assert("extension"@[0] != "png_clone"@[0]);
        assert("extension"@[0] != "mkv_clone"@[0]);
        assert("extension"@[0] != "asf_clone"@[0]);
        assert("extension"@[0] != "mp3_clone"@[0]);
        assert("extension"@[0] != "mp4_clone"@[0]);
    }
}

/// No two modules of the registry share an identifier, so that every one of
/// them has a counter of its own.
pub proof fn identyfikatory_sie_nie_powtarzaja(ffmpeg: bool, i: int, j: int)
    requires
        0 <= i < repair_modules::rejestr(ffmpeg).len(),
        0 <= j < repair_modules::rejestr(ffmpeg).len(),
        repair_modules::rejestr(ffmpeg)[i].identyfikator() == repair_modules::rejestr(
            ffmpeg,
        )[j].identyfikator(),
    ensures
        i == j,
{
    miejsce_w_rejestrze(ffmpeg, i);
    miejsce_w_rejestrze(ffmpeg, j);
}

/// A repair reaches its result after at most eight answers, whatever they are.
pub proof fn naprawa_konczy_sie(
    m: Modul,
    zrodlo: Seq<char>,
    ctx: &RepairContext<'_>,
    dawca: Option<Seq<char>>,
    katalog: Seq<char>,
    h: Seq<Zdarzenie>,
)
    requires
        h.len() >= 8,
    ensures
        m.naprawa(zrodlo, ctx, dawca, katalog, h) is Koniec,
{
}

/// The module works on two copies.
pub open spec fn wymaga_dawcy(m: Modul) -> bool {
    m is HeicClone || m is JpegClone || m is PngClone || m is DngStructural || m is ZipSplice
        || m is TarSplice || m is MkvClone || m is AsfClone || m is RiffClone || m is Mp3Clone
        || m is Mp4Clone || m is Splice
}

/// Without a twin, a module that works on two copies gives up at once and asks
/// for nothing.
pub proof fn bez_dawcy_nie_ma_naprawy(
    m: Modul,
    zrodlo: Seq<char>,
    ctx: &RepairContext<'_>,
    katalog: Seq<char>,
    h: Seq<Zdarzenie>,
)
    requires
        wymaga_dawcy(m),
    ensures
        m.naprawa(zrodlo, ctx, None, katalog, h) == Nastepny::<Naprawa>::Koniec(None),
{
}

/// The module puts a file together in memory from two copies.
pub open spec fn sklada_w_pamieci(m: Modul) -> bool {
    m is ZipSplice || m is TarSplice || m is MkvClone || m is AsfClone || m is RiffClone
        || m is Mp3Clone
}

/// A module that puts a file together in memory reads neither copy unless both
/// are within the memory limit.
pub proof fn limit_obu_kopii_jest_pilnowany(
    m: Modul,
    zrodlo: Seq<char>,
    ctx: &RepairContext<'_>,
    dawca: Option<Seq<char>>,
    katalog: Seq<char>,
    h: Seq<Zdarzenie>,
    p: Seq<char>,
)
    requires
        sklada_w_pamieci(m),
        m.naprawa(zrodlo, ctx, dawca, katalog, h) == Nastepny::<Naprawa>::Ruch(Ruch::Wczytaj(p)),
    ensures
        h.len() >= 2,
        skladanie::miesci_sie(h[0]) && skladanie::miesci_sie(h[1]),
{
}

/// The files that a piece of work changes.
pub open spec fn zmieniane(r: Ruch) -> Seq<Seq<char>> {
    match r {
        Ruch::UtworzPlik(p) => seq![p],
        Ruch::Zapisz(p, _) => seq![p],
        Ruch::Kopiuj(_, q) => seq![q],
        Ruch::Przenies(p, q) => seq![p, q],
        Ruch::Usun(p) => seq![p],
        Ruch::ScalWal(p) => seq![p],
        Ruch::Uruchom(_, _, _, q) => seq![q],
        _ => Seq::empty(),
    }
}

/// The path lies directly in the output directory, under a name that is not the
/// name of the source.
pub open spec fn w_katalogu_wyjsciowym(p: Seq<char>, zrodlo: Seq<char>, katalog: Seq<char>) -> bool {
    &&& sciezka::nazwa(p) is Some
    &&& p == sciezka::polaczona(katalog, sciezka::nazwa(p)->0)
    &&& sciezka::nazwa(p) != sciezka::nazwa(zrodlo)
}

/// The step changes nothing outside the output directory, but for `inny`, and
/// ends with nothing outside it.
#[verifier::opaque]
spec fn bezpieczny(
    n: Nastepny<Naprawa>,
    zrodlo: Seq<char>,
    katalog: Seq<char>,
    inny: Option<Seq<char>>,
) -> bool {
    match n {
        Nastepny::Ruch(r) => forall|i: int|
            0 <= i < zmieniane(r).len() ==> #[trigger] w_katalogu_wyjsciowym(
                zmieniane(r)[i],
                zrodlo,
                katalog,
            ) || Some(zmieniane(r)[i]) == inny,
        Nastepny::Koniec(Some((c, _))) => w_katalogu_wyjsciowym(c, zrodlo, katalog),
        Nastepny::Koniec(None) => true,
    }
}

proof fn cel_w_katalogu(zrodlo: Seq<char>, katalog: Seq<char>, sufiks: Seq<char>, ext: Seq<char>)
    requires
        sufiks.len() > 0,
        sufiks[0] == '_',
        cel::bez_ukosnika(sufiks),
        cel::bez_ukosnika(ext),
    ensures
        cel::cel(zrodlo, katalog, sufiks, ext) matches Some(c) ==> w_katalogu_wyjsciowym(
            c,
            zrodlo,
            katalog,
        ),
{
    cel::wynik_nie_zastepuje_zrodla(zrodlo, katalog, sufiks, ext);
}

proof fn bezpieczny_heic_clone(
    m: HeicCloneModule,
    zrodlo: Seq<char>,
    ctx: &RepairContext<'_>,
    dawca: Option<Seq<char>>,
    katalog: Seq<char>,
    h: Seq<Zdarzenie>,
)
    requires
        cel::bez_ukosnika(ctx.ext@),
    ensures
        bezpieczny(m.naprawa(zrodlo, ctx, dawca, katalog, h), zrodlo, katalog, None),
{
    reveal(bezpieczny);
    reveal_strlit("_repaired_heic");
    reveal_strlit("heic");
    rozszerzenie_bez_ukosnika(zrodlo);
    cel_w_katalogu(zrodlo, katalog, "_repaired_heic"@, cel::rozszerzenie_lub(zrodlo, "heic"@));
}

proof fn bezpieczny_heic_native(
    m: HeicNativeModule,
    zrodlo: Seq<char>,
    ctx: &RepairContext<'_>,
    dawca: Option<Seq<char>>,
    katalog: Seq<char>,
    h: Seq<Zdarzenie>,
)
    requires
        cel::bez_ukosnika(ctx.ext@),
    ensures
        bezpieczny(m.naprawa(zrodlo, ctx, dawca, katalog, h), zrodlo, katalog, None),
{
    reveal(bezpieczny);
    reveal_strlit("_repaired_native");
    reveal_strlit("heic");
    rozszerzenie_bez_ukosnika(zrodlo);
    cel_w_katalogu(zrodlo, katalog, "_repaired_native"@, cel::rozszerzenie_lub(zrodlo, "heic"@));
}

proof fn bezpieczny_jpeg_clone(
    m: JpegCloneModule,
    zrodlo: Seq<char>,
    ctx: &RepairContext<'_>,
    dawca: Option<Seq<char>>,
    katalog: Seq<char>,
    h: Seq<Zdarzenie>,
)
    requires
        cel::bez_ukosnika(ctx.ext@),
    ensures
        bezpieczny(m.naprawa(zrodlo, ctx, dawca, katalog, h), zrodlo, katalog, None),
{
    reveal(bezpieczny);
    reveal_strlit("_repaired_jpeg");
    reveal_strlit("jpg");
    rozszerzenie_bez_ukosnika(zrodlo);
    cel_w_katalogu(zrodlo, katalog, "_repaired_jpeg"@, cel::rozszerzenie_lub(zrodlo, "jpg"@));
}

proof fn bezpieczny_png_clone(
    m: PngCloneModule,
    zrodlo: Seq<char>,
    ctx: &RepairContext<'_>,
    dawca: Option<Seq<char>>,
    katalog: Seq<char>,
    h: Seq<Zdarzenie>,
)
    requires
        cel::bez_ukosnika(ctx.ext@),
    ensures
        bezpieczny(m.naprawa(zrodlo, ctx, dawca, katalog, h), zrodlo, katalog, None),
{
    reveal(bezpieczny);
    reveal_strlit("_repaired_png");
    reveal_strlit("png");
    cel_w_katalogu(zrodlo, katalog, "_repaired_png"@, "png"@);
}

proof fn bezpieczny_png_sanitize(
    m: PngSanitizeModule,
    zrodlo: Seq<char>,
    ctx: &RepairContext<'_>,
    dawca: Option<Seq<char>>,
    katalog: Seq<char>,
    h: Seq<Zdarzenie>,
)
    requires
        cel::bez_ukosnika(ctx.ext@),
    ensures
        bezpieczny(m.naprawa(zrodlo, ctx, dawca, katalog, h), zrodlo, katalog, None),
{
    reveal(bezpieczny);
    reveal_strlit("_repaired_png_sanit");
    reveal_strlit("png");
    cel_w_katalogu(zrodlo, katalog, "_repaired_png_sanit"@, "png"@);
}

proof fn bezpieczny_dng_structural(
    m: DngStructuralModule,
    zrodlo: Seq<char>,
    ctx: &RepairContext<'_>,
    dawca: Option<Seq<char>>,
    katalog: Seq<char>,
    h: Seq<Zdarzenie>,
)
    requires
        cel::bez_ukosnika(ctx.ext@),
    ensures
        bezpieczny(m.naprawa(zrodlo, ctx, dawca, katalog, h), zrodlo, katalog, None),
{
    reveal(bezpieczny);
    reveal_strlit("_repaired_dng");
    cel_w_katalogu(zrodlo, katalog, "_repaired_dng"@, ctx.ext@);
}

proof fn bezpieczny_zip_splice(
    m: ZipSpliceModule,
    zrodlo: Seq<char>,
    ctx: &RepairContext<'_>,
    dawca: Option<Seq<char>>,
    katalog: Seq<char>,
    h: Seq<Zdarzenie>,
)
    requires
        cel::bez_ukosnika(ctx.ext@),
    ensures
        bezpieczny(m.naprawa(zrodlo, ctx, dawca, katalog, h), zrodlo, katalog, None),
{
    reveal(bezpieczny);
    reveal_strlit("_repaired_zip");
    reveal_strlit("zip");
    rozszerzenie_bez_ukosnika(zrodlo);
    cel_w_katalogu(zrodlo, katalog, "_repaired_zip"@, cel::rozszerzenie_lub(zrodlo, "zip"@));
}

proof fn bezpieczny_tar_splice(
    m: TarSpliceModule,
    zrodlo: Seq<char>,
    ctx: &RepairContext<'_>,
    dawca: Option<Seq<char>>,
    katalog: Seq<char>,
    h: Seq<Zdarzenie>,
)
    requires
        cel::bez_ukosnika(ctx.ext@),
    ensures
        bezpieczny(m.naprawa(zrodlo, ctx, dawca, katalog, h), zrodlo, katalog, None),
{
    reveal(bezpieczny);
    reveal_strlit("_repaired_tar");
    reveal_strlit("tar");
    cel_w_katalogu(zrodlo, katalog, "_repaired_tar"@, "tar"@);
}

proof fn bezpieczny_mkv_clone(
    m: MkvCloneModule,
    zrodlo: Seq<char>,
    ctx: &RepairContext<'_>,
    dawca: Option<Seq<char>>,
    katalog: Seq<char>,
    h: Seq<Zdarzenie>,
)
    requires
        cel::bez_ukosnika(ctx.ext@),
    ensures
        bezpieczny(m.naprawa(zrodlo, ctx, dawca, katalog, h), zrodlo, katalog, None),
{
    reveal(bezpieczny);
    reveal_strlit("_repaired_mkv");
    reveal_strlit("mkv");
    rozszerzenie_bez_ukosnika(zrodlo);
    cel_w_katalogu(zrodlo, katalog, "_repaired_mkv"@, cel::rozszerzenie_lub(zrodlo, "mkv"@));
}

proof fn bezpieczny_asf_clone(
    m: AsfCloneModule,
    zrodlo: Seq<char>,
    ctx: &RepairContext<'_>,
    dawca: Option<Seq<char>>,
    katalog: Seq<char>,
    h: Seq<Zdarzenie>,
)
    requires
        cel::bez_ukosnika(ctx.ext@),
    ensures
        bezpieczny(m.naprawa(zrodlo, ctx, dawca, katalog, h), zrodlo, katalog, None),
{
    reveal(bezpieczny);
    reveal_strlit("_repaired_asf");
    reveal_strlit("wmv");
    rozszerzenie_bez_ukosnika(zrodlo);
    cel_w_katalogu(zrodlo, katalog, "_repaired_asf"@, cel::rozszerzenie_lub(zrodlo, "wmv"@));
}

proof fn bezpieczny_riff_clone(
    m: RiffCloneModule,
    zrodlo: Seq<char>,
    ctx: &RepairContext<'_>,
    dawca: Option<Seq<char>>,
    katalog: Seq<char>,
    h: Seq<Zdarzenie>,
)
    requires
        cel::bez_ukosnika(ctx.ext@),
    ensures
        bezpieczny(m.naprawa(zrodlo, ctx, dawca, katalog, h), zrodlo, katalog, None),
{
    reveal(bezpieczny);
    reveal_strlit("_repaired_riff");
    reveal_strlit("wav");
    rozszerzenie_bez_ukosnika(zrodlo);
    cel_w_katalogu(zrodlo, katalog, "_repaired_riff"@, cel::rozszerzenie_lub(zrodlo, "wav"@));
}

proof fn bezpieczny_mp3_clone(
    m: Mp3CloneModule,
    zrodlo: Seq<char>,
    ctx: &RepairContext<'_>,
    dawca: Option<Seq<char>>,
    katalog: Seq<char>,
    h: Seq<Zdarzenie>,
)
    requires
        cel::bez_ukosnika(ctx.ext@),
    ensures
        bezpieczny(m.naprawa(zrodlo, ctx, dawca, katalog, h), zrodlo, katalog, None),
{
    reveal(bezpieczny);
    reveal_strlit("_repaired_mp3");
    reveal_strlit("mp3");
    cel_w_katalogu(zrodlo, katalog, "_repaired_mp3"@, "mp3"@);
}

proof fn bezpieczny_mp4_clone(
    m: Mp4CloneModule,
    zrodlo: Seq<char>,
    ctx: &RepairContext<'_>,
    dawca: Option<Seq<char>>,
    katalog: Seq<char>,
    h: Seq<Zdarzenie>,
)
    requires
        cel::bez_ukosnika(ctx.ext@),
    ensures
        bezpieczny(m.naprawa(zrodlo, ctx, dawca, katalog, h), zrodlo, katalog, None),
{
    reveal(bezpieczny);
    reveal_strlit("_repaired_");
    reveal_strlit("clone");
    reveal_strlit("mp4");
    rozszerzenie_bez_ukosnika(zrodlo);
    cel_w_katalogu(zrodlo, katalog, "_repaired_"@ + "clone"@, cel::rozszerzenie_lub(zrodlo, "mp4"@));
}

proof fn bezpieczny_mp4_native(
    m: Mp4NativeModule,
    zrodlo: Seq<char>,
    ctx: &RepairContext<'_>,
    dawca: Option<Seq<char>>,
    katalog: Seq<char>,
    h: Seq<Zdarzenie>,
)
    requires
        cel::bez_ukosnika(ctx.ext@),
    ensures
        bezpieczny(m.naprawa(zrodlo, ctx, dawca, katalog, h), zrodlo, katalog, None),
{
    reveal(bezpieczny);
    reveal_strlit("_repaired_");
    reveal_strlit("native");
    reveal_strlit("mp4");
    cel_w_katalogu(zrodlo, katalog, "_repaired_"@ + "native"@, "mp4"@);
}

proof fn bezpieczny_mp4_recontainer(
    m: Mp4RecontainerModule,
    zrodlo: Seq<char>,
    ctx: &RepairContext<'_>,
    dawca: Option<Seq<char>>,
    katalog: Seq<char>,
    h: Seq<Zdarzenie>,
)
    requires
        cel::bez_ukosnika(ctx.ext@),
    ensures
        bezpieczny(m.naprawa(zrodlo, ctx, dawca, katalog, h), zrodlo, katalog, None),
{
    reveal(bezpieczny);
    reveal_strlit("_repaired_");
    reveal_strlit("recontainer");
    reveal_strlit("mp4");
    rozszerzenie_bez_ukosnika(zrodlo);
    cel_w_katalogu(zrodlo, katalog, "_repaired_"@ + "recontainer"@, cel::rozszerzenie_lub(zrodlo, "mp4"@));
}

proof fn bezpieczny_mp4_autopilot(
    m: Mp4AutopilotModule,
    zrodlo: Seq<char>,
    ctx: &RepairContext<'_>,
    dawca: Option<Seq<char>>,
    katalog: Seq<char>,
    h: Seq<Zdarzenie>,
)
    requires
        cel::bez_ukosnika(ctx.ext@),
    ensures
        bezpieczny(m.naprawa(zrodlo, ctx, dawca, katalog, h), zrodlo, katalog, kaskada(zrodlo, h)),
{
    reveal(bezpieczny);
    reveal_strlit("_repaired_");
    reveal_strlit("autopilot");
    reveal_strlit("mp4");
    rozszerzenie_bez_ukosnika(zrodlo);
    cel_w_katalogu(zrodlo, katalog, "_repaired_"@ + "autopilot"@, cel::rozszerzenie_lub(zrodlo, "mp4"@));
}

proof fn bezpieczny_splice(
    m: SpliceModule,
    zrodlo: Seq<char>,
    ctx: &RepairContext<'_>,
    dawca: Option<Seq<char>>,
    katalog: Seq<char>,
    h: Seq<Zdarzenie>,
)
    requires
        cel::bez_ukosnika(ctx.ext@),
    ensures
        bezpieczny(m.naprawa(zrodlo, ctx, dawca, katalog, h), zrodlo, katalog, None),
{
    reveal(bezpieczny);
    reveal_strlit("_spliced");
    reveal_strlit("bin");
    rozszerzenie_bez_ukosnika(zrodlo);
    cel_w_katalogu(zrodlo, katalog, "_spliced"@, cel::rozszerzenie_lub(zrodlo, "bin"@));
}

proof fn bezpieczny_sqlite(
    m: SqliteModule,
    zrodlo: Seq<char>,
    ctx: &RepairContext<'_>,
    dawca: Option<Seq<char>>,
    katalog: Seq<char>,
    h: Seq<Zdarzenie>,
)
    requires
        cel::bez_ukosnika(ctx.ext@),
    ensures
        bezpieczny(m.naprawa(zrodlo, ctx, dawca, katalog, h), zrodlo, katalog, None),
{
    reveal(bezpieczny);
    reveal_strlit("_repaired");
    reveal_strlit("-wal");
    rozszerzenie_bez_ukosnika(zrodlo);
    if let Some(e) = sciezka::rozszerzenie(zrodlo) {
        cel_w_katalogu(zrodlo, katalog, "_repaired"@, e);
        cel_w_katalogu(zrodlo, katalog, "_repaired"@, e + "-wal"@);
    }
}

proof fn bezpieczny_header_jpg(
    m: HeaderJpgModule,
    zrodlo: Seq<char>,
    ctx: &RepairContext<'_>,
    dawca: Option<Seq<char>>,
    katalog: Seq<char>,
    h: Seq<Zdarzenie>,
)
    requires
        cel::bez_ukosnika(ctx.ext@),
    ensures
        bezpieczny(m.naprawa(zrodlo, ctx, dawca, katalog, h), zrodlo, katalog, None),
{
    reveal(bezpieczny);
    reveal_strlit("_repaired");
    reveal_strlit("jpg");
    cel_w_katalogu(zrodlo, katalog, "_repaired"@, "jpg"@);
}

proof fn bezpieczny_header_png(
    m: HeaderPngModule,
    zrodlo: Seq<char>,
    ctx: &RepairContext<'_>,
    dawca: Option<Seq<char>>,
    katalog: Seq<char>,
    h: Seq<Zdarzenie>,
)
    requires
        cel::bez_ukosnika(ctx.ext@),
    ensures
        bezpieczny(m.naprawa(zrodlo, ctx, dawca, katalog, h), zrodlo, katalog, None),
{
    reveal(bezpieczny);
    reveal_strlit("_repaired");
    reveal_strlit("png");
    cel_w_katalogu(zrodlo, katalog, "_repaired"@, "png"@);
}

proof fn bezpieczny_header_raster(
    m: HeaderRasterModule,
    zrodlo: Seq<char>,
    ctx: &RepairContext<'_>,
    dawca: Option<Seq<char>>,
    katalog: Seq<char>,
    h: Seq<Zdarzenie>,
)
    requires
        cel::bez_ukosnika(ctx.ext@),
    ensures
        bezpieczny(m.naprawa(zrodlo, ctx, dawca, katalog, h), zrodlo, katalog, None),
{
    reveal(bezpieczny);
    reveal_strlit("_repaired");
    cel_w_katalogu(zrodlo, katalog, "_repaired"@, ctx.ext@);
}

proof fn bezpieczny_extension(
    m: ExtensionModule,
    zrodlo: Seq<char>,
    ctx: &RepairContext<'_>,
    dawca: Option<Seq<char>>,
    katalog: Seq<char>,
    h: Seq<Zdarzenie>,
)
    requires
        cel::bez_ukosnika(ctx.ext@),
    ensures
        bezpieczny(m.naprawa(zrodlo, ctx, dawca, katalog, h), zrodlo, katalog, None),
{
    reveal(bezpieczny);
    reveal_strlit("_repaired");
    reveal_strlit("jpg");
    cel_w_katalogu(zrodlo, katalog, "_repaired"@, "jpg"@);
    reveal_strlit("png");
    cel_w_katalogu(zrodlo, katalog, "_repaired"@, "png"@);
    reveal_strlit("pdf");
    cel_w_katalogu(zrodlo, katalog, "_repaired"@, "pdf"@);
    reveal_strlit("mp4");
    cel_w_katalogu(zrodlo, katalog, "_repaired"@, "mp4"@);
    reveal_strlit("zip");
    cel_w_katalogu(zrodlo, katalog, "_repaired"@, "zip"@);
}

/// What the learning cascade left in its own directory.
pub open spec fn kaskada(zrodlo: Seq<char>, h: Seq<Zdarzenie>) -> Option<Seq<char>> {
    if h.len() >= 1 && sciezka::nazwa(zrodlo) is Some {
        mp4_autopilot::pozostawiony(h[0], sciezka::nazwa(zrodlo)->0)
    } else {
        None
    }
}

proof fn kazdy_bezpieczny(
    m: Modul,
    zrodlo: Seq<char>,
    ctx: &RepairContext<'_>,
    dawca: Option<Seq<char>>,
    katalog: Seq<char>,
    h: Seq<Zdarzenie>,
)
    requires
        cel::bez_ukosnika(ctx.ext@),
    ensures
        bezpieczny(
            m.naprawa(zrodlo, ctx, dawca, katalog, h),
            zrodlo,
            katalog,
            if m is Mp4Autopilot {
                kaskada(zrodlo, h)
            } else {
                None
            },
        ),
{
    match m {
        Modul::HeicClone(x) => {
            bezpieczny_heic_clone(x, zrodlo, ctx, dawca, katalog, h);
        },
        Modul::HeicNative(x) => {
            bezpieczny_heic_native(x, zrodlo, ctx, dawca, katalog, h);
        },
        Modul::JpegClone(x) => {
            bezpieczny_jpeg_clone(x, zrodlo, ctx, dawca, katalog, h);
        },
        Modul::PngClone(x) => {
            bezpieczny_png_clone(x, zrodlo, ctx, dawca, katalog, h);
        },
        Modul::PngSanitize(x) => {
            bezpieczny_png_sanitize(x, zrodlo, ctx, dawca, katalog, h);
        },
        Modul::DngStructural(x) => {
            bezpieczny_dng_structural(x, zrodlo, ctx, dawca, katalog, h);
        },
        Modul::ZipSplice(x) => {
            bezpieczny_zip_splice(x, zrodlo, ctx, dawca, katalog, h);
        },
        Modul::TarSplice(x) => {
            bezpieczny_tar_splice(x, zrodlo, ctx, dawca, katalog, h);
        },
        Modul::MkvClone(x) => {
            bezpieczny_mkv_clone(x, zrodlo, ctx, dawca, katalog, h);
        },
        Modul::AsfClone(x) => {
            bezpieczny_asf_clone(x, zrodlo, ctx, dawca, katalog, h);
        },
        Modul::RiffClone(x) => {
            bezpieczny_riff_clone(x, zrodlo, ctx, dawca, katalog, h);
        },
        Modul::Mp3Clone(x) => {
            bezpieczny_mp3_clone(x, zrodlo, ctx, dawca, katalog, h);
        },
        Modul::Mp4Clone(x) => {
            bezpieczny_mp4_clone(x, zrodlo, ctx, dawca, katalog, h);
        },
        Modul::Mp4Native(x) => {
            bezpieczny_mp4_native(x, zrodlo, ctx, dawca, katalog, h);
        },
        Modul::Mp4Recontainer(x) => {
            bezpieczny_mp4_recontainer(x, zrodlo, ctx, dawca, katalog, h);
        },
        Modul::Mp4Autopilot(x) => {
            bezpieczny_mp4_autopilot(x, zrodlo, ctx, dawca, katalog, h);
        },
        Modul::Splice(x) => {
            bezpieczny_splice(x, zrodlo, ctx, dawca, katalog, h);
        },
        Modul::Sqlite(x) => {
            bezpieczny_sqlite(x, zrodlo, ctx, dawca, katalog, h);
        },
        Modul::HeaderJpg(x) => {
            bezpieczny_header_jpg(x, zrodlo, ctx, dawca, katalog, h);
        },
        Modul::HeaderPng(x) => {
            bezpieczny_header_png(x, zrodlo, ctx, dawca, katalog, h);
        },
        Modul::HeaderRaster(x) => {
            bezpieczny_header_raster(x, zrodlo, ctx, dawca, katalog, h);
        },
        Modul::Extension(x) => {
            bezpieczny_extension(x, zrodlo, ctx, dawca, katalog, h);
        },
    }
}

proof fn rozszerzenie_bez_ukosnika(p: Seq<char>)
    ensures
        sciezka::rozszerzenie(p) matches Some(e) ==> cel::bez_ukosnika(e),
{
    sciezka::nazwa_bez_ukosnika(p);
    if let Some(n) = sciezka::nazwa(p) {
        sciezka::nazwa_z_rdzenia(n);
        if let Some(e) = sciezka::rozszerzenie(p) {
            assert forall|i: int| 0 <= i < e.len() implies e[i] != '/' by {
                assert(n[sciezka::rdzen_nazwy(n).len() + 1 + i] == e[i]);
            }
        }
    }
}

proof fn bezpieczny_ruch(
    n: Nastepny<Naprawa>,
    zrodlo: Seq<char>,
    katalog: Seq<char>,
    inny: Option<Seq<char>>,
    r: Ruch,
    i: int,
)
    requires
        n == Nastepny::<Naprawa>::Ruch(r),
        bezpieczny(n, zrodlo, katalog, inny),
        0 <= i < zmieniane(r).len(),
    ensures
        w_katalogu_wyjsciowym(zmieniane(r)[i], zrodlo, katalog) || Some(zmieniane(r)[i]) == inny,
{
    reveal(bezpieczny);
    let _ = w_katalogu_wyjsciowym(zmieniane(r)[i], zrodlo, katalog);
}

/// A repair writes nowhere but into the output directory, and never under the
/// name of its source: the evidence stays as it was. The one other file that is
/// touched is the one that the learning cascade left in its own directory.
pub proof fn naprawa_nie_rusza_zrodla(
    m: Modul,
    zrodlo: Seq<char>,
    ctx: &RepairContext<'_>,
    dawca: Option<Seq<char>>,
    katalog: Seq<char>,
    h: Seq<Zdarzenie>,
    r: Ruch,
    i: int,
)
    requires
        cel::bez_ukosnika(ctx.ext@),
        m.naprawa(zrodlo, ctx, dawca, katalog, h) == Nastepny::<Naprawa>::Ruch(r),
        0 <= i < zmieniane(r).len(),
    ensures
        w_katalogu_wyjsciowym(zmieniane(r)[i], zrodlo, katalog) || (m is Mp4Autopilot && Some(
            zmieniane(r)[i],
        ) == kaskada(zrodlo, h)),
{
    let n = m.naprawa(zrodlo, ctx, dawca, katalog, h);
    if m is Mp4Autopilot {
        kazdy_bezpieczny(m, zrodlo, ctx, dawca, katalog, h);
        bezpieczny_ruch(n, zrodlo, katalog, kaskada(zrodlo, h), r, i);
    } else {
        kazdy_bezpieczny(m, zrodlo, ctx, dawca, katalog, h);
        bezpieczny_ruch(n, zrodlo, katalog, None, r, i);
    }
}

/// The result of a repair lies directly in the output directory and does not
/// bear the name of its source.
pub proof fn wynik_lezy_w_katalogu(
    m: Modul,
    zrodlo: Seq<char>,
    ctx: &RepairContext<'_>,
    dawca: Option<Seq<char>>,
    katalog: Seq<char>,
    h: Seq<Zdarzenie>,
    c: Seq<char>,
    opis: Seq<char>,
)
    requires
        cel::bez_ukosnika(ctx.ext@),
        m.naprawa(zrodlo, ctx, dawca, katalog, h) == Nastepny::<Naprawa>::Koniec(Some((c, opis))),
    ensures
        w_katalogu_wyjsciowym(c, zrodlo, katalog),
{
    kazdy_bezpieczny(m, zrodlo, ctx, dawca, katalog, h);
    reveal(bezpieczny);
}

/// The module rests on a heuristic or on structure alone.
pub open spec fn slaby(m: Modul) -> bool {
    m is AsfClone || m is RiffClone || m is Mp3Clone || m is DngStructural
}

/// A module that rests on a heuristic or on structure alone accepts its result
/// with a weak guarantee, and never with a strong one.
pub proof fn zawsze_slaba_nigdy_mocna(m: Modul, plik: Seq<char>, h: Seq<Zdarzenie>, d: Seq<char>)
    requires
        slaby(m),
        m.weryfikacja(plik, h) == Nastepny::<Werdykt>::Koniec(Ok(d)),
    ensures
        tekst::zawiera_tekst(d, "gwarancja SŁABA"@),
        !tekst::zawiera_tekst(d, "MOCNA"@),
{
    slaba_asf();
    slaba_riff();
    slaba_mp3();
    slaba_dng();
}

/// Whatever module made it, a result that is accepted names the strength of its
/// guarantee and holds exactly one of the two labels.
pub proof fn kazdy_modul_nazywa_gwarancje(m: Modul, plik: Seq<char>, h: Seq<Zdarzenie>, d: Seq<char>)
    requires
        m.weryfikacja(plik, h) == Nastepny::<Werdykt>::Koniec(Ok(d)),
    ensures
        prawa_weryfikacji::mocna(d) || prawa_weryfikacji::slaba(d),
        prawa_weryfikacji::jedna_etykieta(d),
{
    if slaby(m) {
        zawsze_slaba_nigdy_mocna(m, plik, h, d);
        prawa_weryfikacji::nazwana_raz(d);
    } else if m is Mp4Clone || m is Mp4Native || m is Mp4Recontainer || m is Mp4Autopilot {
        prawa_weryfikacji::wideo_nazywa_gwarancje(plik, h, d);
    } else {
        prawa_weryfikacji::kazde_przyjecie_nazywa_gwarancje(plik, h, d);
    }
}

proof fn slaba_asf()
    ensures
        ({
            let t =
                "struktura obiektów ASF spójna (gwarancja SŁABA - ASF nie niesie sumy kontrolnej per obiekt, treść próbek NIE zweryfikowana)"@;
            &&& tekst::zawiera_tekst(t, "gwarancja SŁABA"@)
            &&& !tekst::zawiera_tekst(t, "MOCNA"@)
        }),
{
    let t =
        "struktura obiektów ASF spójna (gwarancja SŁABA - ASF nie niesie sumy kontrolnej per obiekt, treść próbek NIE zweryfikowana)"@;
    reveal_strlit(
        "struktura obiektów ASF spójna (gwarancja SŁABA - ASF nie niesie sumy kontrolnej per obiekt, treść próbek NIE zweryfikowana)",
    );
    reveal_strlit("gwarancja SŁABA");
    reveal_strlit("MOCNA");
    reveal_with_fuel(tekst::bez_znaku, 42);
    assert(tekst::bez_znaku(t, 'M', 40));
    assert(tekst::bez_znaku(t, 'M', 80));
    assert(tekst::bez_znaku(t, 'M', 100));
    assert(t.subrange(31, 46) =~= "gwarancja SŁABA"@);
    assert(tekst::wystepuje(t, "gwarancja SŁABA"@, 31));
    tekst::bez_znaku_nie_zawiera(t, "MOCNA"@, 0);
}

proof fn slaba_riff()
    ensures
        ({
            let t =
                "struktura fragmentów RIFF spójna (gwarancja SŁABA - RIFF nie niesie sumy kontrolnej per fragment, treść próbek NIE zweryfikowana)"@;
            &&& tekst::zawiera_tekst(t, "gwarancja SŁABA"@)
            &&& !tekst::zawiera_tekst(t, "MOCNA"@)
        }),
{
    let t =
        "struktura fragmentów RIFF spójna (gwarancja SŁABA - RIFF nie niesie sumy kontrolnej per fragment, treść próbek NIE zweryfikowana)"@;
    reveal_strlit(
        "struktura fragmentów RIFF spójna (gwarancja SŁABA - RIFF nie niesie sumy kontrolnej per fragment, treść próbek NIE zweryfikowana)",
    );
    reveal_strlit("gwarancja SŁABA");
    reveal_strlit("MOCNA");
    reveal_with_fuel(tekst::bez_znaku, 42);
    assert(tekst::bez_znaku(t, 'M', 40));
    assert(tekst::bez_znaku(t, 'M', 80));
    assert(tekst::bez_znaku(t, 'M', 100));
    assert(t.subrange(34, 49) =~= "gwarancja SŁABA"@);
    assert(tekst::wystepuje(t, "gwarancja SŁABA"@, 34));
    tekst::bez_znaku_nie_zawiera(t, "MOCNA"@, 0);
}

proof fn slaba_mp3()
    ensures
        ({
            let t =
                "łańcuch ramek MP3 spójny (gwarancja SŁABA - MP3 nie niesie sumy kontrolnej per ramkę, treść próbek NIE zweryfikowana)"@;
            &&& tekst::zawiera_tekst(t, "gwarancja SŁABA"@)
            &&& !tekst::zawiera_tekst(t, "MOCNA"@)
        }),
{
    let t =
        "łańcuch ramek MP3 spójny (gwarancja SŁABA - MP3 nie niesie sumy kontrolnej per ramkę, treść próbek NIE zweryfikowana)"@;
    reveal_strlit(
        "łańcuch ramek MP3 spójny (gwarancja SŁABA - MP3 nie niesie sumy kontrolnej per ramkę, treść próbek NIE zweryfikowana)",
    );
    reveal_strlit("gwarancja SŁABA");
    reveal_strlit("MOCNA");
    reveal_with_fuel(tekst::bez_znaku, 42);
    assert(tekst::bez_znaku(t, 'O', 40));
    assert(tekst::bez_znaku(t, 'O', 80));
    assert(tekst::bez_znaku(t, 'O', 100));
    assert(t.subrange(26, 41) =~= "gwarancja SŁABA"@);
    assert(tekst::wystepuje(t, "gwarancja SŁABA"@, 26));
    tekst::bez_znaku_nie_zawiera(t, "MOCNA"@, 1);
}

proof fn slaba_dng()
    ensures
        ({
            let t =
                "dekodowanie RAW przez rawloader (gwarancja SŁABA - potwierdza spójność struktury TIFF/IFD, nie treść pikseli)"@;
            &&& tekst::zawiera_tekst(t, "gwarancja SŁABA"@)
            &&& !tekst::zawiera_tekst(t, "MOCNA"@)
        }),
{
    let t =
        "dekodowanie RAW przez rawloader (gwarancja SŁABA - potwierdza spójność struktury TIFF/IFD, nie treść pikseli)"@;
    reveal_strlit(
        "dekodowanie RAW przez rawloader (gwarancja SŁABA - potwierdza spójność struktury TIFF/IFD, nie treść pikseli)",
    );
    reveal_strlit("gwarancja SŁABA");
    reveal_strlit("MOCNA");
    reveal_with_fuel(tekst::bez_znaku, 42);
    assert(tekst::bez_znaku(t, 'M', 40));
    assert(tekst::bez_znaku(t, 'M', 80));
    assert(tekst::bez_znaku(t, 'M', 100));
    assert(t.subrange(33, 48) =~= "gwarancja SŁABA"@);
    assert(tekst::wystepuje(t, "gwarancja SŁABA"@, 33));
    tekst::bez_znaku_nie_zawiera(t, "MOCNA"@, 0);
}

} // verus!
