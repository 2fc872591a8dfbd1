//! Laws of which formats belong where: the verification of a file and the module
//! that repairs it both go by its extension and by what is known of its damage.

use vstd::prelude::*;

use crate::bajty;
use crate::phases::phase7::entropia;
use crate::phases::repair_modules;
use crate::phases::repair_modules::extension;
use crate::phases::repair_modules::header_raster;
use crate::phases::repair_modules::mp4_autopilot;
use crate::phases::repair_modules::praca::{Naprawa, Nastepny, Ruch, Zdarzenie};
use crate::phases::repair_modules::weryfikacja;
use crate::phases::repair_modules::weryfikacja::Format;
use crate::phases::repair_modules::{Modul, RepairContext, RepairModule};
use crate::sciezka;
use crate::tekst;

verus! {

/// The extensions of a family.
pub open spec fn rozszerzenia(f: Format) -> Seq<Seq<char>> {
    match f {
        Format::Baza => seq!["db"@, "sqlite"@, "sqlite3"@],
        Format::Zip => seq!["zip"@, "docx"@, "xlsx"@, "pptx"@, "odt"@, "ods"@, "odp"@, "epub"@, "jar"@, "apk"@],
        Format::Heic => seq!["heic"@, "heif"@, "avif"@],
        Format::Ts => seq!["ts"@, "m2ts"@, "mts"@],
        Format::Flv => seq!["flv"@],
        Format::Matroska => seq!["mkv"@, "webm"@, "mka"@],
        Format::Wideo => seq!["mp4"@, "mov"@, "m4v"@, "3gp"@, "3g2"@, "f4v"@],
        Format::Audio => seq!["m4a"@, "m4b"@],
        Format::Obraz => seq!["jpg"@, "jpeg"@, "png"@, "gif"@, "bmp"@, "tif"@, "tiff"@, "webp"@],
        Format::Raw => seq!["dng"@, "nef"@, "cr2"@, "cr3"@, "arw"@, "orf"@, "rw2"@, "raf"@, "srw"@, "pef"@],
        Format::Tar => seq!["tar"@],
        Format::Tekst => seq!["txt"@, "py"@, "csv"@, "json"@, "xml"@, "md"@, "log"@],
        Format::Pdf => seq!["pdf"@],
        Format::Riff => seq!["wav"@, "avi"@],
        Format::Asf => seq!["wmv"@, "wma"@],
        Format::Mp3 => seq!["mp3"@],
        Format::Inny => Seq::empty(),
    }
}

/// What tells one extension from another: its length and three of its characters.
spec fn klucz(e: Seq<char>) -> int {
    e.len() + 16 * (e[0] as int) + 16384 * (e[1] as int) + 16777216 * (e.last() as int)
}

/// Every extension has its own mark.
proof fn klucze()
    ensures
        klucz("db"@) == 1645774402,
        klucz("sqlite"@) == 1696352054,
        klucz("sqlite3"@) == 857491255,
        klucz("zip"@) == 1880770467,
        klucz("docx"@) == 2015086148,
        klucz("xlsx"@) == 2015037316,
        klucz("pptx"@) == 2015102724,
        klucz("odt"@) == 1947797235,
        klucz("ods"@) == 1931020019,
        klucz("odp"@) == 1880688371,
        klucz("epub"@) == 1646003796,
        klucz("jar"@) == 1914193571,
        klucz("apk"@) == 1796998675,
        klucz("heic"@) == 1662600836,
        klucz("heif"@) == 1712932484,
        klucz("avif"@) == 1713210900,
        klucz("ts"@) == 1931265858,
        klucz("m2ts"@) == 1930200788,
        klucz("mts"@) == 1931282131,
        klucz("flv"@) == 1981482595,
        klucz("mkv"@) == 1981466323,
        klucz("webm"@) == 1830373236,
        klucz("mka"@) == 1629144787,
        klucz("mp4"@) == 874251987,
        klucz("mov"@) == 1981531859,
        klucz("m4v"@) == 1980565203,
        klucz("3gp"@) == 1880736563,
        klucz("3g2"@) == 840549171,
        klucz("f4v"@) == 1980565091,
        klucz("m4a"@) == 1628243667,
        klucz("m4b"@) == 1645020883,
        klucz("jpg"@) == 1729889955,
        klucz("jpeg"@) == 1729889956,
        klucz("png"@) == 1729857283,
        klucz("gif"@) == 1712998003,
        klucz("bmp"@) == 1880835619,
        klucz("tif"@) == 1712998211,
        klucz("tiff"@) == 1712998212,
        klucz("webp"@) == 1880704884,
        klucz("dng"@) == 1729857091,
        klucz("nef"@) == 1712932579,
        klucz("cr2"@) == 840730163,
        klucz("cr3"@) == 857507379,
        klucz("arw"@) == 1998358035,
        klucz("orf"@) == 1713145587,
        klucz("rw2"@) == 840812323,
        klucz("raf"@) == 1712867107,
        klucz("srw"@) == 1998358323,
        klucz("pef"@) == 1712932611,
        klucz("tar"@) == 1914193731,
        klucz("txt"@) == 1948124995,
        klucz("py"@) == 2032027394,
        klucz("csv"@) == 1981597235,
        klucz("json"@) == 1847379620,
        klucz("xml"@) == 1813727107,
        klucz("md"@) == 1679361746,
        klucz("log"@) == 1729873603,
        klucz("pdf"@) == 1712916227,
        klucz("wav"@) == 1981302643,
        klucz("avi"@) == 1763542547,
        klucz("wmv"@) == 1981499251,
        klucz("wma"@) == 1629177715,
        klucz("mp3"@) == 857474771,
{
    reveal_strlit("db");
    reveal_strlit("sqlite");
    reveal_strlit("sqlite3");
    reveal_strlit("zip");
    reveal_strlit("docx");
    reveal_strlit("xlsx");
    reveal_strlit("pptx");
    reveal_strlit("odt");
    reveal_strlit("ods");
    reveal_strlit("odp");
    reveal_strlit("epub");
    reveal_strlit("jar");
    reveal_strlit("apk");
    reveal_strlit("heic");
    reveal_strlit("heif");
    reveal_strlit("avif");
    reveal_strlit("ts");
    reveal_strlit("m2ts");
    reveal_strlit("mts");
    reveal_strlit("flv");
    reveal_strlit("mkv");
    reveal_strlit("webm");
    reveal_strlit("mka");
    reveal_strlit("mp4");
    reveal_strlit("mov");
    reveal_strlit("m4v");
    reveal_strlit("3gp");
    reveal_strlit("3g2");
    reveal_strlit("f4v");
    reveal_strlit("m4a");
    reveal_strlit("m4b");
    reveal_strlit("jpg");
    reveal_strlit("jpeg");
    reveal_strlit("png");
    reveal_strlit("gif");
    reveal_strlit("bmp");
    reveal_strlit("tif");
    reveal_strlit("tiff");
    reveal_strlit("webp");
    reveal_strlit("dng");
    reveal_strlit("nef");
    reveal_strlit("cr2");
    reveal_strlit("cr3");
    reveal_strlit("arw");
    reveal_strlit("orf");
    reveal_strlit("rw2");
    reveal_strlit("raf");
    reveal_strlit("srw");
    reveal_strlit("pef");
    reveal_strlit("tar");
    reveal_strlit("txt");
    reveal_strlit("py");
    reveal_strlit("csv");
    reveal_strlit("json");
    reveal_strlit("xml");
    reveal_strlit("md");
    reveal_strlit("log");
    reveal_strlit("pdf");
    reveal_strlit("wav");
    reveal_strlit("avi");
    reveal_strlit("wmv");
    reveal_strlit("wma");
    reveal_strlit("mp3");
}

/// Every extension is verified by the method of the family that lists it, and one
/// that no family lists by none.
#[verifier::spinoff_prover]
#[verifier::rlimit(50)]
pub proof fn rodzina_z_listy(e: Seq<char>, f: Format)
    ensures
        !(f is Inny) ==> (weryfikacja::format_rozszerzenia(e) == f <==> rozszerzenia(f).contains(e)),
{
    klucze();
    match f {
        Format::Baza => {
            assert(rozszerzenia(f)[0] == "db"@ && rozszerzenia(f)[1] == "sqlite"@ && rozszerzenia(f)[2] == "sqlite3"@);
        },
        Format::Zip => {
            assert(rozszerzenia(f)[0] == "zip"@ && rozszerzenia(f)[1] == "docx"@ && rozszerzenia(f)[2] == "xlsx"@ && rozszerzenia(f)[3] == "pptx"@ && rozszerzenia(f)[4] == "odt"@ && rozszerzenia(f)[5] == "ods"@ && rozszerzenia(f)[6] == "odp"@ && rozszerzenia(f)[7] == "epub"@ && rozszerzenia(f)[8] == "jar"@ && rozszerzenia(f)[9] == "apk"@);
        },
        Format::Heic => {
            assert(rozszerzenia(f)[0] == "heic"@ && rozszerzenia(f)[1] == "heif"@ && rozszerzenia(f)[2] == "avif"@);
        },
        Format::Ts => {
            assert(rozszerzenia(f)[0] == "ts"@ && rozszerzenia(f)[1] == "m2ts"@ && rozszerzenia(f)[2] == "mts"@);
        },
        Format::Flv => {
            assert(rozszerzenia(f)[0] == "flv"@);
        },
        Format::Matroska => {
            assert(rozszerzenia(f)[0] == "mkv"@ && rozszerzenia(f)[1] == "webm"@ && rozszerzenia(f)[2] == "mka"@);
        },
        Format::Wideo => {
            assert(rozszerzenia(f)[0] == "mp4"@ && rozszerzenia(f)[1] == "mov"@ && rozszerzenia(f)[2] == "m4v"@ && rozszerzenia(f)[3] == "3gp"@ && rozszerzenia(f)[4] == "3g2"@ && rozszerzenia(f)[5] == "f4v"@);
        },
        Format::Audio => {
            assert(rozszerzenia(f)[0] == "m4a"@ && rozszerzenia(f)[1] == "m4b"@);
        },
        Format::Obraz => {
            assert(rozszerzenia(f)[0] == "jpg"@ && rozszerzenia(f)[1] == "jpeg"@ && rozszerzenia(f)[2] == "png"@ && rozszerzenia(f)[3] == "gif"@ && rozszerzenia(f)[4] == "bmp"@ && rozszerzenia(f)[5] == "tif"@ && rozszerzenia(f)[6] == "tiff"@ && rozszerzenia(f)[7] == "webp"@);
        },
        Format::Raw => {
            assert(rozszerzenia(f)[0] == "dng"@ && rozszerzenia(f)[1] == "nef"@ && rozszerzenia(f)[2] == "cr2"@ && rozszerzenia(f)[3] == "cr3"@ && rozszerzenia(f)[4] == "arw"@ && rozszerzenia(f)[5] == "orf"@ && rozszerzenia(f)[6] == "rw2"@ && rozszerzenia(f)[7] == "raf"@ && rozszerzenia(f)[8] == "srw"@ && rozszerzenia(f)[9] == "pef"@);
        },
        Format::Tar => {
            assert(rozszerzenia(f)[0] == "tar"@);
        },
        Format::Tekst => {
            assert(rozszerzenia(f)[0] == "txt"@ && rozszerzenia(f)[1] == "py"@ && rozszerzenia(f)[2] == "csv"@ && rozszerzenia(f)[3] == "json"@ && rozszerzenia(f)[4] == "xml"@ && rozszerzenia(f)[5] == "md"@ && rozszerzenia(f)[6] == "log"@);
        },
        Format::Pdf => {
            assert(rozszerzenia(f)[0] == "pdf"@);
        },
        Format::Riff => {
            assert(rozszerzenia(f)[0] == "wav"@ && rozszerzenia(f)[1] == "avi"@);
        },
        Format::Asf => {
            assert(rozszerzenia(f)[0] == "wmv"@ && rozszerzenia(f)[1] == "wma"@);
        },
        Format::Mp3 => {
            assert(rozszerzenia(f)[0] == "mp3"@);
        },
        Format::Inny => {},
    }
    if rozszerzenia(f).contains(e) {
        let i = choose|i: int| 0 <= i < rozszerzenia(f).len() && rozszerzenia(f)[i] == e;
        assert(rozszerzenia(f)[i] == e);
    }
    if weryfikacja::format_rozszerzenia(e) == f && !(f is Inny) {
        assert(exists|i: int| 0 <= i < rozszerzenia(f).len() && rozszerzenia(f)[i] == e);
    }
}

/// The reason of the anomaly speaks of `fraza`.
pub open spec fn powod_mowi(ctx: &RepairContext<'_>, fraza: Seq<char>) -> bool {
    ctx.media_reason matches Some(p) && tekst::zawiera_tekst(p@, fraza)
}

/// The two copies correlate in part.
pub open spec fn po_czesci(ctx: &RepairContext<'_>) -> bool {
    ctx.match_type matches Some(t) && t@ == "PARTIAL"@
}

/// A raw stream without a container.
pub open spec fn surowy_strumien(e: Seq<char>) -> bool {
    e == "h264"@ || e == "264"@ || e == "avc"@
}

/// The formats that a module works on, in the words of the verification where it has
/// them.
pub open spec fn swoj_format(m: Modul, e: Seq<char>) -> bool {
    let f = weryfikacja::format_rozszerzenia(e);
    match m {
        Modul::HeicClone(_) | Modul::HeicNative(_) => f is Heic,
        Modul::JpegClone(_) | Modul::HeaderJpg(_) => e == "jpg"@ || e == "jpeg"@,
        Modul::PngClone(_) | Modul::PngSanitize(_) | Modul::HeaderPng(_) => e == "png"@,
        Modul::HeaderRaster(_) => f is Obraz && e != "jpg"@ && e != "jpeg"@ && e != "png"@,
        Modul::DngStructural(_) => f is Raw && e != "cr3"@ && e != "raf"@,
        Modul::ZipSplice(_) => f is Zip,
        Modul::TarSplice(_) => f is Tar,
        Modul::MkvClone(_) => f is Matroska,
        Modul::AsfClone(_) => f is Asf,
        Modul::RiffClone(_) => f is Riff,
        Modul::Mp3Clone(_) => e.len() == 3 && (e[0] == 'm' || e[0] == 'M') && (e[1] == 'p' || e[1]
            == 'P') && e[2] == '3',
        Modul::Mp4Clone(_) | Modul::Mp4Recontainer(_) | Modul::Mp4Autopilot(_) => f is Wideo,
        Modul::Mp4Native(_) => f is Wideo || surowy_strumien(e),
        Modul::Sqlite(_) => f is Baza,
        Modul::Splice(_) | Modul::Extension(_) => true,
    }
}

/// What has to be known of a file before a module touches it.
pub open spec fn slad(m: Modul, ctx: &RepairContext<'_>) -> bool {
    match m {
        Modul::HeicClone(_) | Modul::HeicNative(_) => ctx.eof_ok == Some(false) || powod_mowi(
            ctx,
            "Nagłówek"@,
        ) || ctx.media_decoded == Some(false),
        Modul::JpegClone(_) | Modul::PngClone(_) | Modul::PngSanitize(_) => ctx.eof_ok == Some(
            false,
        ) || powod_mowi(ctx, "Nagłówek"@),
        Modul::DngStructural(_) => ctx.eof_ok == Some(false) || powod_mowi(ctx, "RAW"@)
            || ctx.media_decoded == Some(false),
        Modul::ZipSplice(_) | Modul::TarSplice(_) => ctx.structure_ok == Some(false) || ctx.eof_ok
            == Some(false),
        Modul::MkvClone(_) => ctx.video_ok == Some(false) || ctx.eof_ok == Some(false),
        Modul::AsfClone(_) | Modul::RiffClone(_) | Modul::Mp3Clone(_) | Modul::Splice(_) => {
            po_czesci(ctx)
        },
        Modul::Mp4Clone(_) | Modul::Mp4Autopilot(_) => wideo_uszkodzone(ctx),
        Modul::Mp4Native(_) => wideo_uszkodzone(ctx) || surowy_strumien(ctx.ext@),
        Modul::Mp4Recontainer(x) => x.ffmpeg && wideo_uszkodzone(ctx),
        Modul::Sqlite(_) => true,
        Modul::HeaderJpg(_) => powod_mowi(ctx, "Nagłówek"@),
        Modul::HeaderPng(_) | Modul::HeaderRaster(_) => powod_mowi(ctx, "Nagłówek"@)
            || ctx.media_decoded == Some(false),
        Modul::Extension(_) => powod_mowi(ctx, "Fałszywe"@) && extension::mime_w_powodzie(
            ctx.media_reason->0@,
        ) is Some,
    }
}

/// A video is broken, cut off, or without its header.
pub open spec fn wideo_uszkodzone(ctx: &RepairContext<'_>) -> bool {
    ctx.video_ok == Some(false) || ctx.eof_ok == Some(false) || powod_mowi(ctx, "Nagłówek"@)
}

/// A module tries a file exactly where the file has a format of its own and bears the
/// trace that the module goes by.
#[verifier::spinoff_prover]
#[verifier::rlimit(100)]
pub proof fn modul_bierze_swoje(m: Modul, ctx: &RepairContext<'_>)
    ensures
        m.stosuje_sie(ctx) <==> swoj_format(m, ctx.ext@) && slad(m, ctx),
{
    klucze();
    reveal_strlit("h264");
    reveal_strlit("264");
    reveal_strlit("avc");
    let e = ctx.ext@;
    if m is Mp3Clone {
        mp3_bez_wielkosci(e);
    }
    if surowy_strumien(e) {
        assert(klucz("h264"@) == 873236100);
        assert(klucz("264"@) == 873300771);
        assert(klucz("avc"@) == 1662879251);
    }
    match m {
        Modul::HeicClone(_) => {
            assert(m.stosuje_sie(ctx) == (swoj_format(m, ctx.ext@) && slad(m, ctx)));
        },
        Modul::HeicNative(_) => {
            assert(m.stosuje_sie(ctx) == (swoj_format(m, ctx.ext@) && slad(m, ctx)));
        },
        Modul::JpegClone(_) => {
            assert(m.stosuje_sie(ctx) == (swoj_format(m, ctx.ext@) && slad(m, ctx)));
        },
        Modul::PngClone(_) => {
            assert(m.stosuje_sie(ctx) == (swoj_format(m, ctx.ext@) && slad(m, ctx)));
        },
        Modul::PngSanitize(_) => {
            assert(m.stosuje_sie(ctx) == (swoj_format(m, ctx.ext@) && slad(m, ctx)));
        },
        Modul::DngStructural(_) => {
            assert(m.stosuje_sie(ctx) == (swoj_format(m, ctx.ext@) && slad(m, ctx)));
        },
        Modul::ZipSplice(_) => {
            assert(m.stosuje_sie(ctx) == (swoj_format(m, ctx.ext@) && slad(m, ctx)));
        },
        Modul::TarSplice(_) => {
            assert(m.stosuje_sie(ctx) == (swoj_format(m, ctx.ext@) && slad(m, ctx)));
        },
        Modul::MkvClone(_) => {
            assert(m.stosuje_sie(ctx) == (swoj_format(m, ctx.ext@) && slad(m, ctx)));
        },
        Modul::AsfClone(_) => {
            assert(m.stosuje_sie(ctx) == (swoj_format(m, ctx.ext@) && slad(m, ctx)));
        },
        Modul::RiffClone(_) => {
            assert(m.stosuje_sie(ctx) == (swoj_format(m, ctx.ext@) && slad(m, ctx)));
        },
        Modul::Mp3Clone(_) => {
            assert(m.stosuje_sie(ctx) == (swoj_format(m, ctx.ext@) && slad(m, ctx)));
        },
        Modul::Mp4Clone(_) => {
            assert(m.stosuje_sie(ctx) == (swoj_format(m, ctx.ext@) && slad(m, ctx)));
        },
        Modul::Mp4Native(_) => {
            assert(m.stosuje_sie(ctx) == (swoj_format(m, ctx.ext@) && slad(m, ctx)));
        },
        Modul::Mp4Recontainer(_) => {
            assert(m.stosuje_sie(ctx) == (swoj_format(m, ctx.ext@) && slad(m, ctx)));
        },
        Modul::Mp4Autopilot(_) => {
            assert(m.stosuje_sie(ctx) == (swoj_format(m, ctx.ext@) && slad(m, ctx)));
        },
        Modul::Splice(_) => {
            assert(m.stosuje_sie(ctx) == (swoj_format(m, ctx.ext@) && slad(m, ctx)));
        },
        Modul::Sqlite(_) => {
            assert(m.stosuje_sie(ctx) == (swoj_format(m, ctx.ext@) && slad(m, ctx)));
        },
        Modul::HeaderJpg(_) => {
            assert(m.stosuje_sie(ctx) == (swoj_format(m, ctx.ext@) && slad(m, ctx)));
        },
        Modul::HeaderPng(_) => {
            assert(m.stosuje_sie(ctx) == (swoj_format(m, ctx.ext@) && slad(m, ctx)));
        },
        Modul::HeaderRaster(_) => {
            assert(m.stosuje_sie(ctx) == (swoj_format(m, ctx.ext@) && slad(m, ctx)));
        },
        Modul::Extension(_) => {
            assert(m.stosuje_sie(ctx) == (swoj_format(m, ctx.ext@) && slad(m, ctx)));
        },
    }
}

/// Three letters that read `mp3` in either case.
proof fn mp3_bez_wielkosci(e: Seq<char>)
    ensures
        tekst::male_ascii(e) == tekst::male_ascii("mp3"@) <==> e.len() == 3 && (e[0] == 'm' || e[0]
            == 'M') && (e[1] == 'p' || e[1] == 'P') && e[2] == '3',
{
    reveal_strlit("mp3");
    let a = tekst::male_ascii(e);
    let b = tekst::male_ascii("mp3"@);
    assert(b.len() == 3 && b[0] == 'm' && b[1] == 'p' && b[2] == '3');
    if a == b {
        assert(e.len() == 3);
        assert(a[0] == tekst::mala_ascii(e[0]) && a[1] == tekst::mala_ascii(e[1]) && a[2]
            == tekst::mala_ascii(e[2]));
    }
    if e.len() == 3 && (e[0] == 'm' || e[0] == 'M') && (e[1] == 'p' || e[1] == 'P') && e[2] == '3' {
        assert(a =~= b);
    }
}

/// Nothing is known against the file.
pub open spec fn bez_zarzutu(ctx: &RepairContext<'_>) -> bool {
    &&& ctx.media_reason is None
    &&& ctx.eof_ok != Some(false)
    &&& ctx.video_ok != Some(false)
    &&& ctx.structure_ok != Some(false)
    &&& ctx.media_decoded != Some(false)
    &&& !po_czesci(ctx)
}

/// A file against which nothing is known is touched by no module, but for a database,
/// whose log may be orphaned, and for a raw stream, which wants a container.
pub proof fn zdrowy_plik_nietkniety(m: Modul, ctx: &RepairContext<'_>)
    requires
        bez_zarzutu(ctx),
        m.stosuje_sie(ctx),
    ensures
        m is Sqlite || m is Mp4Native && surowy_strumien(ctx.ext@),
{
    modul_bierze_swoje(m, ctx);
}

/// The place of a module among those that are tried: engines that know a format, from
/// grafts to reconstructions, then the blind stitching, then the databases, then the
/// injections of a header, and last the correction of an extension.
pub open spec fn stopien(m: Modul) -> int {
    if m is Splice {
        1
    } else if m is Sqlite {
        2
    } else if m is HeaderJpg || m is HeaderPng || m is HeaderRaster {
        3
    } else if m is Extension {
        4
    } else {
        0
    }
}

/// The modules are tried in the order of their steps, and of the engines for one
/// format those that graft from a twin come before those that rebuild, and the
/// learning cascade comes last.
pub proof fn kolejnosc_prob(ffmpeg: bool, i: int, j: int)
    requires
        0 <= i < j < repair_modules::rejestr(ffmpeg).len(),
    ensures
        stopien(repair_modules::rejestr(ffmpeg)[i]) <= stopien(repair_modules::rejestr(ffmpeg)[j]),
        repair_modules::rejestr(ffmpeg)[j] is HeicClone ==> !(repair_modules::rejestr(ffmpeg)[i]
            is HeicNative),
        repair_modules::rejestr(ffmpeg)[j] is PngClone ==> !(repair_modules::rejestr(ffmpeg)[i]
            is PngSanitize),
        repair_modules::rejestr(ffmpeg)[j] is Mp4Clone ==> !(repair_modules::rejestr(ffmpeg)[i]
            is Mp4Native),
        repair_modules::rejestr(ffmpeg)[j] is Mp4Native ==> !(repair_modules::rejestr(ffmpeg)[i]
            is Mp4Recontainer),
        repair_modules::rejestr(ffmpeg)[j] is Mp4Recontainer ==> !(repair_modules::rejestr(
            ffmpeg,
        )[i] is Mp4Autopilot),
{
}

/// The first signature that stands in the list and makes the content decode.
pub open spec fn pasuje_jako_pierwsza(w: Seq<Seq<u8>>, b: Seq<u8>, i: int) -> bool {
    &&& 0 <= i < w.len()
    &&& weryfikacja::wymiary_obrazu(w[i] + b) is Some
    &&& forall|j: int| 0 <= j < i ==> weryfikacja::wymiary_obrazu(#[trigger] w[j] + b) is None
}

/// The signatures of a format, the likelier one first.
pub open spec fn znaki_formatu(e: Seq<char>) -> Seq<Seq<u8>> {
    if e == "gif"@ {
        seq![seq![71u8, 73u8, 70u8, 56u8, 57u8, 97u8], seq![71u8, 73u8, 70u8, 56u8, 55u8, 97u8]]
    } else if e == "bmp"@ {
        seq![seq![66u8, 77u8]]
    } else if e == "webp"@ {
        seq![seq![82u8, 73u8, 70u8, 70u8]]
    } else {
        seq![seq![73u8, 73u8, 42u8, 0u8], seq![77u8, 77u8, 0u8, 42u8]]
    }
}

proof fn pierwszy_znaczy(s: Seq<bool>)
    ensures
        match header_raster::pierwszy(s) {
            Some(i) => 0 <= i < s.len() && s[i] && forall|j: int| 0 <= j < i ==> !s[j],
            None => forall|j: int| 0 <= j < s.len() ==> !s[j],
        },
    decreases s.len(),
{
    if s.len() > 0 && !s[0] {
        let t = s.skip(1);
        pierwszy_znaczy(t);
        assert(forall|j: int| 1 <= j < s.len() ==> s[j] == t[j - 1]);
    }
}

/// A lost signature is put before the whole content as it was read: the first of the
/// format with which the content decodes, and only where the content starts with none
/// of them.
pub proof fn wstrzyknieta_sygnatura_dekoduje(
    m: Modul,
    zrodlo: Seq<char>,
    ctx: &RepairContext<'_>,
    dawca: Option<Seq<char>>,
    katalog: Seq<char>,
    h: Seq<Zdarzenie>,
    c: Seq<char>,
    dane: Seq<u8>,
)
    requires
        m is HeaderRaster,
        m.naprawa(zrodlo, ctx, dawca, katalog, h) == Nastepny::<Naprawa>::Ruch(
            Ruch::Zapisz(c, dane),
        ),
    ensures
        h.len() >= 1,
        h[0] matches Zdarzenie::Bajty(Ok(b)) && (exists|i: int|
            #[trigger] pasuje_jako_pierwsza(znaki_formatu(ctx.ext@), b@, i) && dane
                == znaki_formatu(ctx.ext@)[i] + b@) && forall|i: int|
            0 <= i < znaki_formatu(ctx.ext@).len() ==> !#[trigger] bajty::zaczyna_sie(
                b@,
                znaki_formatu(ctx.ext@)[i],
            ),
{
    let e = ctx.ext@;
    let w = header_raster::sygnatury(e)->0;
    let b = h[0]->Bajty_0->Ok_0@;
    let d = header_raster::dekodowania(w, b);
    klucze();
    pierwszy_znaczy(d);
    znaki_zgodne(e);
    let i = header_raster::pierwszy(d)->0;
    assert(pasuje_jako_pierwsza(znaki_formatu(e), b, i)) by {
        assert(d[i]);
        assert forall|j: int| 0 <= j < i implies weryfikacja::wymiary_obrazu(
            #[trigger] w[j] + b,
        ) is None by {
            assert(!d[j]);
        }
    }
}

/// A content of a raster format that lost its signature: it starts with none of the
/// format and decodes once one of them stands before it.
pub open spec fn do_uzupelnienia(e: Seq<char>, b: Seq<u8>) -> bool {
    &&& e == "gif"@ || e == "bmp"@ || e == "tif"@ || e == "tiff"@ || e == "webp"@
    &&& forall|i: int|
        0 <= i < znaki_formatu(e).len() ==> !#[trigger] bajty::zaczyna_sie(b, znaki_formatu(e)[i])
    &&& exists|i: int|
        0 <= i < znaki_formatu(e).len() && weryfikacja::wymiary_obrazu(
            #[trigger] znaki_formatu(e)[i] + b,
        ) is Some
}

pub(crate) proof fn uzupelniany(e: Seq<char>, b: Seq<u8>)
    requires
        do_uzupelnienia(e, b),
    ensures
        ({
            let w = header_raster::sygnatury(e);
            &&& w is Some
            &&& !header_raster::ma_sygnature(b, w->0)
            &&& header_raster::pierwszy(header_raster::dekodowania(w->0, b)) is Some
        }),
{
    klucze();
    znaki_zgodne(e);
    let w = header_raster::sygnatury(e)->0;
    let d = header_raster::dekodowania(w, b);
    pierwszy_znaczy(d);
    let i = choose|i: int|
        0 <= i < znaki_formatu(e).len() && weryfikacja::wymiary_obrazu(
            #[trigger] znaki_formatu(e)[i] + b,
        ) is Some;
    assert(d[i]);
}

proof fn znaki_zgodne(e: Seq<char>)
    requires
        header_raster::sygnatury(e) is Some,
    ensures
        header_raster::sygnatury(e)->0 == znaki_formatu(e),
{
    klucze();
    let w = header_raster::sygnatury(e)->0;
    let z = znaki_formatu(e);
    assert(w.len() == z.len());
    assert(w[0] =~= z[0]);
    if w.len() > 1 {
        assert(w[1] =~= z[1]);
    }
    assert(w =~= z);
}

/// The extension that the type found inside a file calls for.
pub proof fn rozszerzenie_wedlug_typu(t: Seq<char>)
    ensures
        ({
            let e = extension::rozszerzenie_typu(t);
            &&& e == Some("jpg"@) <==> tekst::zawiera_tekst(t, "jpeg"@)
            &&& e == Some("png"@) <==> tekst::zawiera_tekst(t, "png"@) && !tekst::zawiera_tekst(
                t,
                "jpeg"@,
            )
            &&& e == Some("pdf"@) <==> tekst::zawiera_tekst(t, "pdf"@) && !tekst::zawiera_tekst(
                t,
                "jpeg"@,
            ) && !tekst::zawiera_tekst(t, "png"@)
            &&& e == Some("mp4"@) <==> tekst::zawiera_tekst(t, "mp4"@) && !tekst::zawiera_tekst(
                t,
                "jpeg"@,
            ) && !tekst::zawiera_tekst(t, "png"@) && !tekst::zawiera_tekst(t, "pdf"@)
            &&& e == Some("zip"@) <==> tekst::zawiera_tekst(t, "zip"@) && !tekst::zawiera_tekst(
                t,
                "jpeg"@,
            ) && !tekst::zawiera_tekst(t, "png"@) && !tekst::zawiera_tekst(t, "pdf"@)
                && !tekst::zawiera_tekst(t, "mp4"@)
            &&& e is None <==> !tekst::zawiera_tekst(t, "jpeg"@) && !tekst::zawiera_tekst(t, "png"@)
                && !tekst::zawiera_tekst(t, "pdf"@) && !tekst::zawiera_tekst(t, "mp4"@)
                && !tekst::zawiera_tekst(t, "zip"@)
            &&& e matches Some(x) ==> x == "jpg"@ || x == "png"@ || x == "pdf"@ || x == "mp4"@ || x
                == "zip"@
        }),
{
    klucze();
}

/// A search finds the first place at which the text stands, and misses none.
pub proof fn pierwsze_jest_pierwsze(t: Seq<char>, w: Seq<char>, od: int)
    ensures
        match tekst::pierwsze(t, w, od) {
            Some(i) => od <= i && tekst::wystepuje(t, w, i) && forall|j: int|
                od <= j < i ==> !tekst::wystepuje(t, w, j),
            None => forall|j: int| od <= j ==> !tekst::wystepuje(t, w, j),
        },
    decreases (if od > t.len() {
        0int
    } else {
        t.len() - od + 1
    }),
{
    if od <= t.len() && !tekst::wystepuje(t, w, od) {
        pierwsze_jest_pierwsze(t, w, od + 1);
    }
}

/// The type that a reason names is what stands in it behind `Wewnątrz to: ` and before
/// the next closing bracket; a reason of that form always names one.
pub proof fn typ_z_powodu(p: Seq<char>)
    ensures
        extension::mime_w_powodzie(p) matches Some(m) ==> {
            &&& tekst::zawiera_tekst(p, "Wewnątrz to: "@ + m + ")"@)
            &&& forall|i: int| 0 <= i < m.len() ==> m[i] != ')'
        },
        forall|i: int, j: int|
            #![trigger tekst::wystepuje(p, "Wewnątrz to: "@, i), tekst::wystepuje(p, ")"@, j)]
            tekst::wystepuje(p, "Wewnątrz to: "@, i) && tekst::wystepuje(p, ")"@, j) && i
                + "Wewnątrz to: "@.len() <= j ==> extension::mime_w_powodzie(p) is Some,
{
    let w = "Wewnątrz to: "@;
    let n = ")"@;
    reveal_strlit(")");
    pierwsze_jest_pierwsze(p, w, 0);
    if let Some(i) = tekst::pierwsze(p, w, 0) {
        let od = i + w.len();
        pierwsze_jest_pierwsze(p, n, od);
        if let Some(k) = tekst::pierwsze(p, n, od) {
            let m = p.subrange(od, k);
            assert(p.subrange(k, k + n.len())[0] == ')');
            let c = w + m + n;
            let u = p.subrange(i, i + c.len());
            assert forall|x: int| 0 <= x < c.len() implies u[x] == c[x] by {
                if x < w.len() {
                    assert(p.subrange(i, i + w.len())[x] == w[x]);
                }
            }
            assert(u =~= c);
            assert(tekst::wystepuje(p, c, i));
            assert forall|x: int| 0 <= x < m.len() implies m[x] != ')' by {
                if m[x] == ')' {
                    assert(p.subrange(od + x, od + x + n.len()) =~= n);
                    assert(tekst::wystepuje(p, n, od + x));
                }
            }
        }
    }
}

/// What the cascade left for a source is the first file in its list whose name ends
/// as asked for; there is none only where no name does.
pub proof fn wynik_kaskady_jest_pierwszy(p: Seq<(String, String)>, sufiks: Seq<char>)
    ensures
        match mp4_autopilot::wynik_autopilota(p, sufiks) {
            Some(w) => exists|i: int|
                0 <= i < p.len() && (#[trigger] p[i]).1@ == w && tekst::konczy_sie_tekstem(
                    p[i].0@,
                    sufiks,
                ) && forall|j: int|
                    0 <= j < i ==> !tekst::konczy_sie_tekstem((#[trigger] p[j]).0@, sufiks),
            None => forall|j: int|
                0 <= j < p.len() ==> !tekst::konczy_sie_tekstem((#[trigger] p[j]).0@, sufiks),
        },
    decreases p.len(),
{
    if p.len() > 0 && !tekst::konczy_sie_tekstem(p[0].0@, sufiks) {
        let r = p.skip(1);
        wynik_kaskady_jest_pierwszy(r, sufiks);
        match mp4_autopilot::wynik_autopilota(r, sufiks) {
            Some(w) => {
                let i = choose|i: int|
                    0 <= i < r.len() && (#[trigger] r[i]).1@ == w && tekst::konczy_sie_tekstem(
                        r[i].0@,
                        sufiks,
                    ) && forall|j: int|
                        0 <= j < i ==> !tekst::konczy_sie_tekstem((#[trigger] r[j]).0@, sufiks);
                assert(p[i + 1] == r[i]);
                assert forall|j: int| 0 <= j < i + 1 implies !tekst::konczy_sie_tekstem(
                    (#[trigger] p[j]).0@,
                    sufiks,
                ) by {
                    if j > 0 {
                        assert(r[j - 1] == p[j]);
                    }
                }
            },
            None => {
                assert forall|j: int| 0 <= j < p.len() implies !tekst::konczy_sie_tekstem(
                    (#[trigger] p[j]).0@,
                    sufiks,
                ) by {
                    if j > 0 {
                        assert(r[j - 1] == p[j]);
                    }
                }
            },
        }
    } else if p.len() > 0 {
        assert(p[0].1@ == mp4_autopilot::wynik_autopilota(p, sufiks)->0);
    }
}

/// What the cascade left is moved to the target: the first file in its list whose name
/// ends with an underscore, the whole name of the source and `.mp4`.
pub proof fn kaskada_zabiera_swoj_plik(
    m: Modul,
    zrodlo: Seq<char>,
    ctx: &RepairContext<'_>,
    dawca: Option<Seq<char>>,
    katalog: Seq<char>,
    h: Seq<Zdarzenie>,
    w: Seq<char>,
    c: Seq<char>,
)
    requires
        m is Mp4Autopilot,
        m.naprawa(zrodlo, ctx, dawca, katalog, h) == Nastepny::<Naprawa>::Ruch(
            Ruch::Przenies(w, c),
        ),
    ensures
        h.len() == 1,
        sciezka::nazwa(zrodlo) is Some,
        h[0] matches Zdarzenie::Pliki(Some(p)) && exists|i: int|
            0 <= i < p@.len() && (#[trigger] p@[i]).1@ == w && tekst::konczy_sie_tekstem(
                p@[i].0@,
                "_"@ + sciezka::nazwa(zrodlo)->0 + ".mp4"@,
            ) && forall|j: int|
                0 <= j < i ==> !tekst::konczy_sie_tekstem(
                    (#[trigger] p@[j]).0@,
                    "_"@ + sciezka::nazwa(zrodlo)->0 + ".mp4"@,
                ),
{
    let p = h[0]->Pliki_0->0;
    wynik_kaskady_jest_pierwszy(p@, "_"@ + sciezka::nazwa(zrodlo)->0 + ".mp4"@);
}

/// The formats that are compressed by design.
pub proof fn skompresowane_formaty(e: Seq<char>)
    ensures
        entropia::skompresowany(e) <==> seq![
            "zip"@, "rar"@, "7z"@, "jpg"@, "jpeg"@, "png"@, "mp4"@, "mkv"@, "pdf"@, "apk"@, "gz"@,
            "docx"@, "xlsx"@,
        ].contains(e),
{
    let s = seq![
        "zip"@, "rar"@, "7z"@, "jpg"@, "jpeg"@, "png"@, "mp4"@, "mkv"@, "pdf"@, "apk"@, "gz"@,
        "docx"@, "xlsx"@,
    ];
    assert(s[0] == "zip"@ && s[1] == "rar"@ && s[2] == "7z"@ && s[3] == "jpg"@ && s[4] == "jpeg"@
        && s[5] == "png"@ && s[6] == "mp4"@ && s[7] == "mkv"@ && s[8] == "pdf"@ && s[9] == "apk"@
        && s[10] == "gz"@ && s[11] == "docx"@ && s[12] == "xlsx"@);
    if s.contains(e) {
        let i = choose|i: int| 0 <= i < s.len() && s[i] == e;
        assert(s[i] == e);
    }
    if entropia::skompresowany(e) {
        assert(exists|i: int| 0 <= i < s.len() && s[i] == e);
    }
}

} // verus!
