//! Laws of what the repairs are called, where their results go and what is said of
//! them.

use vstd::prelude::*;

use crate::phases::repair_modules::dng;
use crate::phases::repair_modules::extension;
use crate::phases::repair_modules::header_raster;
use crate::phases::repair_modules::praca::{
    Naprawa, Nastepny, StanBazy, Werdykt, WeryfikacjaHeic, Zdarzenie,
};
use crate::phases::repair_modules::prawa_przyjec;
use crate::phases::repair_modules::weryfikacja;
use crate::phases::repair_modules::weryfikacja::Format;
use crate::phases::repair_modules::{Modul, RepairContext, RepairModule};
use crate::sciezka;
use crate::tekst;

verus! {

/// The mark by which the register knows a module, and its name for people.
pub open spec fn tozsamosc(m: Modul) -> (Seq<char>, Seq<char>) {
    match m {
        Modul::HeicClone(_) => ("heic_clone"@, "HEIC/HEIF przeszczep indeksu meta z bliźniaczej kopii"@),
        Modul::HeicNative(_) => ("heic_native"@, "HEIC odbudowa indeksu meta bez dawcy (Zero-Donor)"@),
        Modul::JpegClone(_) => ("jpeg_clone"@, "JPEG przeszczep tablic DQT/DHT/SOF z bliźniaczej kopii"@),
        Modul::PngClone(_) => ("png_clone"@, "PNG wybór zdrowych fragmentów z dwóch kopii (CRC32)"@),
        Modul::PngSanitize(_) => ("png_sanitize"@, "PNG odrzucenie uszkodzonych fragmentów pomocniczych (bez dawcy)"@),
        Modul::DngStructural(_) => ("dng_structural"@, "DNG składanie strukturalne z bliźniaczej kopii (gwarancja SŁABA)"@),
        Modul::ZipSplice(_) => ("zip_splice"@, "ZIP składanie wpisów z dwóch kopii (CRC32 per wpis)"@),
        Modul::TarSplice(_) => ("tar_splice"@, "TAR składanie wpisów z dwóch kopii (gwarancja SŁABA - suma chroni tylko nagłówki)"@),
        Modul::MkvClone(_) => ("mkv_clone"@, "Matroska składanie elementów z dwóch kopii (CRC-32 per element)"@),
        Modul::AsfClone(_) => ("asf_clone"@, "WMV/WMA składanie obiektów ASF (gwarancja SŁABA)"@),
        Modul::RiffClone(_) => ("riff_clone"@, "WAV/AVI składanie fragmentów RIFF (gwarancja SŁABA)"@),
        Modul::Mp3Clone(_) => ("mp3_clone"@, "MP3 składanie ramek MPEG audio (gwarancja SŁABA)"@),
        Modul::Mp4Clone(_) => ("mp4_clone"@, "MP4 przeszczep moov z bliźniaczej kopii (stco/co64)"@),
        Modul::Mp4Native(_) => ("mp4_native"@, "MP4 Zero-Donor (odbudowa moov od zera, bez dawcy)"@),
        Modul::Mp4Recontainer(_) => ("mp4_recontainer"@, "MP4 przepakowanie ffmpegiem (korekta dryfu A/V)"@),
        Modul::Mp4Autopilot(_) => ("mp4_autopilot"@, "MP4 Autopilot (kaskada ucząca się + Rój, ostatnia szansa)"@),
        Modul::Splice(_) => ("splice"@, "Zszywanie fragmentów (korelacja Fazy 14)"@),
        Modul::Sqlite(_) => ("sqlite"@, "Scalenie WAL z bazą SQLite (checkpoint)"@),
        Modul::HeaderJpg(_) => ("header_jpg"@, "Nagłówek JPG (wstrzyknięcie SOI/JFIF)"@),
        Modul::HeaderPng(_) => ("header_png"@, "Nagłówek PNG (wstrzyknięcie sygnatury)"@),
        Modul::HeaderRaster(_) => ("header_raster"@, "Nagłówek GIF/BMP/TIFF/WEBP (wstrzyknięcie sygnatury)"@),
        Modul::Extension(_) => ("extension"@, "Korekta fałszywego rozszerzenia"@),
    }
}

/// Every module has its own mark and its own name.
pub proof fn modul_ma_swoja_nazwe(m: Modul)
    ensures
        m.identyfikator() == tozsamosc(m).0,
        m.nazwa() == tozsamosc(m).1,
{
}

/// The extension of the source, or the usual one of the format where it has none.
pub open spec fn wlasne(zrodlo: Seq<char>, zwykle: Seq<char>) -> Seq<char> {
    match sciezka::rozszerzenie(zrodlo) {
        Some(e) => e,
        None => zwykle,
    }
}

/// The mark of a module in the name of its result, and the extension of the result.
pub open spec fn koncowka(m: Modul, zrodlo: Seq<char>, ctx: &RepairContext<'_>) -> (
    Seq<char>,
    Seq<char>,
) {
    match m {
        Modul::HeicClone(_) => ("_repaired_heic"@, wlasne(zrodlo, "heic"@)),
        Modul::HeicNative(_) => ("_repaired_native"@, wlasne(zrodlo, "heic"@)),
        Modul::JpegClone(_) => ("_repaired_jpeg"@, wlasne(zrodlo, "jpg"@)),
        Modul::PngClone(_) => ("_repaired_png"@, "png"@),
        Modul::PngSanitize(_) => ("_repaired_png_sanit"@, "png"@),
        Modul::DngStructural(_) => ("_repaired_dng"@, ctx.ext@),
        Modul::ZipSplice(_) => ("_repaired_zip"@, wlasne(zrodlo, "zip"@)),
        Modul::TarSplice(_) => ("_repaired_tar"@, "tar"@),
        Modul::MkvClone(_) => ("_repaired_mkv"@, wlasne(zrodlo, "mkv"@)),
        Modul::AsfClone(_) => ("_repaired_asf"@, wlasne(zrodlo, "wmv"@)),
        Modul::RiffClone(_) => ("_repaired_riff"@, wlasne(zrodlo, "wav"@)),
        Modul::Mp3Clone(_) => ("_repaired_mp3"@, "mp3"@),
        Modul::Mp4Clone(_) => ("_repaired_"@ + "clone"@, wlasne(zrodlo, "mp4"@)),
        Modul::Mp4Native(_) => ("_repaired_"@ + "native"@, "mp4"@),
        Modul::Mp4Recontainer(_) => ("_repaired_"@ + "recontainer"@, wlasne(zrodlo, "mp4"@)),
        Modul::Mp4Autopilot(_) => ("_repaired_"@ + "autopilot"@, wlasne(zrodlo, "mp4"@)),
        Modul::Splice(_) => ("_spliced"@, wlasne(zrodlo, "bin"@)),
        Modul::Sqlite(_) => ("_repaired"@, wlasne(zrodlo, "db"@)),
        Modul::HeaderJpg(_) => ("_repaired"@, "jpg"@),
        Modul::HeaderPng(_) => ("_repaired"@, "png"@),
        Modul::HeaderRaster(_) => ("_repaired"@, ctx.ext@),
        Modul::Extension(_) => ("_repaired"@, extension::prawdziwe_rozszerzenie(ctx)->0),
    }
}

/// The result of a repair is named after its source, with the mark of the module and
/// the extension of its format, inside the output directory.
#[verifier::spinoff_prover]
#[verifier::rlimit(50)]
pub proof fn wynik_nazwany_po_zrodle(
    m: Modul,
    zrodlo: Seq<char>,
    ctx: &RepairContext<'_>,
    dawca: Option<Seq<char>>,
    katalog: Seq<char>,
    h: Seq<Zdarzenie>,
    c: Seq<char>,
    o: Seq<char>,
)
    requires
        m.naprawa(zrodlo, ctx, dawca, katalog, h) == Nastepny::<Naprawa>::Koniec(Some((c, o))),
    ensures
        sciezka::rdzen(zrodlo) matches Some(stem) && c == sciezka::polaczona(
            katalog,
            stem + koncowka(m, zrodlo, ctx).0 + "."@ + koncowka(m, zrodlo, ctx).1,
        ),
{
    match m {
        Modul::HeicClone(_) => {
            assert(sciezka::rdzen(zrodlo) is Some);
        },
        Modul::HeicNative(_) => {
            assert(sciezka::rdzen(zrodlo) is Some);
        },
        Modul::JpegClone(_) => {
            assert(sciezka::rdzen(zrodlo) is Some);
        },
        Modul::PngClone(_) => {
            assert(sciezka::rdzen(zrodlo) is Some);
        },
        Modul::PngSanitize(_) => {
            assert(sciezka::rdzen(zrodlo) is Some);
        },
        Modul::DngStructural(_) => {
            assert(sciezka::rdzen(zrodlo) is Some);
        },
        Modul::ZipSplice(_) => {
            assert(sciezka::rdzen(zrodlo) is Some);
        },
        Modul::TarSplice(_) => {
            assert(sciezka::rdzen(zrodlo) is Some);
        },
        Modul::MkvClone(_) => {
            assert(sciezka::rdzen(zrodlo) is Some);
        },
        Modul::AsfClone(_) => {
            assert(sciezka::rdzen(zrodlo) is Some);
        },
        Modul::RiffClone(_) => {
            assert(sciezka::rdzen(zrodlo) is Some);
        },
        Modul::Mp3Clone(_) => {
            assert(sciezka::rdzen(zrodlo) is Some);
        },
        Modul::Mp4Clone(_) => {
            assert(sciezka::rdzen(zrodlo) is Some);
        },
        Modul::Mp4Native(_) => {
            assert(sciezka::rdzen(zrodlo) is Some);
        },
        Modul::Mp4Recontainer(_) => {
            assert(sciezka::rdzen(zrodlo) is Some);
        },
        Modul::Mp4Autopilot(_) => {
            assert(sciezka::rdzen(zrodlo) is Some);
        },
        Modul::Splice(_) => {
            assert(sciezka::rdzen(zrodlo) is Some);
        },
        Modul::Sqlite(_) => {
            assert(sciezka::rdzen(zrodlo) is Some);
        },
        Modul::HeaderJpg(_) => {
            assert(sciezka::rdzen(zrodlo) is Some);
        },
        Modul::HeaderPng(_) => {
            assert(sciezka::rdzen(zrodlo) is Some);
        },
        Modul::HeaderRaster(_) => {
            assert(sciezka::rdzen(zrodlo) is Some);
        },
        Modul::Extension(_) => {
            assert(sciezka::rdzen(zrodlo) is Some);
        },
    }
}

/// An extension of a raster image in capitals.
pub open spec fn wielkie(ext: Seq<char>) -> Seq<char> {
    if ext == "gif"@ {
        "GIF"@
    } else if ext == "bmp"@ {
        "BMP"@
    } else if ext == "tif"@ {
        "TIF"@
    } else if ext == "tiff"@ {
        "TIFF"@
    } else {
        "WEBP"@
    }
}

/// The log of a repair says what the module did; where a donor gave something, it
/// names that donor.
pub open spec fn opis_zgodny(
    m: Modul,
    ctx: &RepairContext<'_>,
    dawca: Option<Seq<char>>,
    h: Seq<Zdarzenie>,
    o: Seq<char>,
) -> bool {
    let d = dawca->0;
    match m {
        Modul::HeicClone(_) => o == "Przeszczepiono indeks `meta` od dawcy "@ + d + " z zachowaniem danych obrazu."@,
        Modul::HeicNative(_) => h[0] matches Zdarzenie::Opis(Some(x)) && o == x@,
        Modul::JpegClone(_) => (h[1] matches Zdarzenie::Opis(Some(x)) ==> o == x@ + " (dawca: "@ + d + ")"@) && (!(h[1] matches Zdarzenie::Opis(Some(_))) ==> o == "przeniesiono nagłówek dawcy, dane skanu zachowane z kopii uszkodzonej"@ + " (dawca: "@ + d + ")"@),
        Modul::PngClone(_) => o == "Złożono z dwóch kopii, wybierając fragmenty o zgodnym CRC32 (dawca: "@ + d + ")."@,
        Modul::PngSanitize(_) => h[0] matches Zdarzenie::Opis(Some(x)) && o == "Naprawa bez dawcy: "@ + x@ + "."@,
        Modul::DngStructural(_) => tekst::konczy_sie_tekstem(o, " bit/bajt (plauzybilne dane sensora); dawca: "@ + d + ". UWAGA: potwierdzona wyłącznie spójność struktury, NIE poprawność pikseli."@),
        Modul::ZipSplice(_) => o == "Złożono archiwum z dwóch kopii, wybierając wpisy o zgodnym CRC32 (dawca: "@ + d + ")."@,
        Modul::TarSplice(_) => o == "Złożono archiwum z dwóch kopii wg sum kontrolnych nagłówków wpisów (dawca: "@ + d + "). UWAGA: tar nie chroni danych wpisów - potwierdzona poprawna STRUKTURA, nie treść."@,
        Modul::MkvClone(_) => o == "Złożono Matroskę z dwóch kopii, wybierając elementy `Segment` o zgodnym CRC-32 (dawca: "@ + d + ")."@,
        Modul::AsfClone(_) => o == "Złożono kontener ASF z dwóch kopii, wybierając obiekty niewyglądające na wydmuszkę (dawca: "@ + d + "). UWAGA: ASF nie niesie sumy kontrolnej per obiekt — potwierdzona wyłącznie spójność struktury."@,
        Modul::RiffClone(_) => o == "Złożono kontener RIFF z dwóch kopii, wybierając fragmenty niewyglądające na wydmuszkę (dawca: "@ + d + "). UWAGA: RIFF nie niesie sumy kontrolnej per fragment — potwierdzona wyłącznie spójność struktury."@,
        Modul::Mp3Clone(_) => o == "Złożono strumień MP3 z dwóch kopii, wybierając ramki niewyglądające na wydmuszkę (dawca: "@ + d + "). UWAGA: MP3 nie niesie sumy kontrolnej per ramkę — potwierdzona wyłącznie spójność łańcucha ramek."@,
        Modul::Mp4Clone(_) => o == "Przeszczepiono moov od dawcy "@ + d + " z korektą tablic stco/co64."@,
        Modul::Mp4Native(_) => o == "Odbudowano kontener MP4 od zera (Zero-Donor, bez dawcy)."@,
        Modul::Mp4Recontainer(_) => o == "Przepakowano kontener ffmpegiem z korektą dryfu A/V."@,
        Modul::Mp4Autopilot(_) => o == "Odzyskano kaskadą ucząca się mp4_doctor (KNN + pula dawców/Rój) po porażce Clone/Native/Recontainer."@,
        Modul::Splice(_) => o == "Wykonano fizyczny Splicing strumieniowy (bezpieczne dla RAM)."@,
        Modul::Sqlite(_) => o == "Zespolono plik WAL z głównym plikiem bazy danych."@,
        Modul::HeaderJpg(_) => o == "Wstrzyknięto utracony nagłówek Magic Bytes (SOI/JFIF)."@,
        Modul::HeaderPng(_) => o == "Wstrzyknięto utraconą sygnaturę PNG (89 50 4E 47 0D 0A 1A 0A)."@,
        Modul::HeaderRaster(_) => exists|s: Seq<u8>| o == "Wstrzyknięto utraconą sygnaturę "@ + wielkie(ctx.ext@) + " ("@ + #[trigger] header_raster::szesnastkowo(s) + ")."@,
        Modul::Extension(_) => o == "Poprawiono fałszywe rozszerzenie na ."@ + extension::prawdziwe_rozszerzenie(ctx)->0,
    }
}

/// The log of a successful repair is that of its own module.
#[verifier::spinoff_prover]
#[verifier::rlimit(80)]
pub proof fn opis_mowi_co_zrobiono(
    m: Modul,
    zrodlo: Seq<char>,
    ctx: &RepairContext<'_>,
    dawca: Option<Seq<char>>,
    katalog: Seq<char>,
    h: Seq<Zdarzenie>,
    c: Seq<char>,
    o: Seq<char>,
)
    requires
        m.naprawa(zrodlo, ctx, dawca, katalog, h) == Nastepny::<Naprawa>::Koniec(Some((c, o))),
    ensures
        opis_zgodny(m, ctx, dawca, h, o),
{
    match m {
        Modul::HeicClone(_) => {
            assert(opis_zgodny(m, ctx, dawca, h, o));
        },
        Modul::HeicNative(_) => {
            assert(opis_zgodny(m, ctx, dawca, h, o));
        },
        Modul::JpegClone(_) => {
            assert(opis_zgodny(m, ctx, dawca, h, o));
        },
        Modul::PngClone(_) => {
            assert(opis_zgodny(m, ctx, dawca, h, o));
        },
        Modul::PngSanitize(_) => {
            assert(opis_zgodny(m, ctx, dawca, h, o));
        },
        Modul::DngStructural(_) => {
            let v = h[0]->Kandydaci_0->0;
            let k = dng::pierwszy_wiarygodny(v@)->0;
            let d = dawca->0;
            let a = k.description@ + "; entropia przeniesionych danych "@
                + k.donated_data_entropy.zapis(2);
            let z = " bit/bajt (plauzybilne dane sensora); dawca: "@ + d
                + ". UWAGA: potwierdzona wyłącznie spójność struktury, NIE poprawność pikseli."@;
            assert(o == dng::opis_zlozenia(k, d));
            assert(o =~= a + z);
            assert(o.skip(o.len() - z.len()) =~= z);
        },
        Modul::ZipSplice(_) => {
            assert(opis_zgodny(m, ctx, dawca, h, o));
        },
        Modul::TarSplice(_) => {
            assert(opis_zgodny(m, ctx, dawca, h, o));
        },
        Modul::MkvClone(_) => {
            assert(opis_zgodny(m, ctx, dawca, h, o));
        },
        Modul::AsfClone(_) => {
            assert(opis_zgodny(m, ctx, dawca, h, o));
        },
        Modul::RiffClone(_) => {
            assert(opis_zgodny(m, ctx, dawca, h, o));
        },
        Modul::Mp3Clone(_) => {
            assert(opis_zgodny(m, ctx, dawca, h, o));
        },
        Modul::Mp4Clone(_) => {
            assert(opis_zgodny(m, ctx, dawca, h, o));
        },
        Modul::Mp4Native(_) => {
            assert(opis_zgodny(m, ctx, dawca, h, o));
        },
        Modul::Mp4Recontainer(_) => {
            assert(opis_zgodny(m, ctx, dawca, h, o));
        },
        Modul::Mp4Autopilot(_) => {
            assert(opis_zgodny(m, ctx, dawca, h, o));
        },
        Modul::Splice(_) => {
            assert(opis_zgodny(m, ctx, dawca, h, o));
        },
        Modul::Sqlite(_) => {
            assert(opis_zgodny(m, ctx, dawca, h, o));
        },
        Modul::HeaderJpg(_) => {
            assert(opis_zgodny(m, ctx, dawca, h, o));
        },
        Modul::HeaderPng(_) => {
            assert(opis_zgodny(m, ctx, dawca, h, o));
        },
        Modul::HeaderRaster(_) => {
            let w = header_raster::sygnatury(ctx.ext@)->0;
            let b = h[0]->Bajty_0->Ok_0@;
            let i = header_raster::pierwszy(header_raster::dekodowania(w, b))->0;
            assert(header_raster::opis_sygnatury(ctx.ext@, w[i]) == o);
        },
        Modul::Extension(_) => {
            assert(opis_zgodny(m, ctx, dawca, h, o));
        },
    }
}

/// What an engine's acceptance says of each family.
pub open spec fn dowod_silnika(f: Format, h: Seq<Zdarzenie>) -> Seq<char> {
    match f {
        Format::Zip => "odczyt każdego wpisu archiwum z kontrolą CRC32 (gwarancja MOCNA)"@,
        Format::Heic => if h[2] == Zdarzenie::Heic(WeryfikacjaHeic::PikseleZdekodowane) {
            "pełne dekodowanie pikseli przez libheif (gwarancja MOCNA)"@
        } else {
            "brak pluginu kodeka - sprawdzono tylko strukturę kontenera HEIF (gwarancja SŁABA)"@
        },
        Format::Ts => "ciągłość pakietów TS bez luk i bez flag błędu transportu (gwarancja SŁABA - dowód ramowania, nie treści)"@,
        Format::Flv => "domknięty łańcuch tagów FLV (gwarancja SŁABA - dowód ramowania, nie treści)"@,
        Format::Matroska => if h[3] == Zdarzenie::Trojstan(Some(true)) {
            "odczyt struktury Matroski z kontrolą CRC-32 elementów nadrzędnych (gwarancja MOCNA)"@
        } else {
            "odczyt struktury Matroski (gwarancja SŁABA - kontener nie zawiera sum CRC-32)"@
        },
        Format::Audio => "odczyt struktury ISOBMFF z co najmniej jedną ścieżką (gwarancja SŁABA - dowód struktury kontenera, nie treści próbek)"@,
        Format::Raw => "dekodowanie RAW przez rawloader (gwarancja MOCNA)"@,
        _ => "sumy kontrolne nagłówków wpisów tar (gwarancja SŁABA - tar nie chroni danych)"@,
    }
}

/// What an engine's refusal says of each family.
pub open spec fn odmowa_silnika(f: Format, h: Seq<Zdarzenie>) -> Seq<char> {
    match f {
        Format::Zip => "archiwum nie przechodzi odczytu wpisów / kontroli CRC32"@,
        Format::Heic => "plik nie daje się zdekodować jako HEIC/HEIF/AVIF"@,
        Format::Ts => match h[2] {
            Zdarzenie::Strumien(Some(s)) => "strumień TS nadal uszkodzony: "@ + s.1@,
            _ => "plik nie jest rozpoznawalnym strumieniem transportowym"@,
        },
        Format::Flv => match h[2] {
            Zdarzenie::Strumien(Some(s)) => "kontener FLV nadal uszkodzony: "@ + s.1@,
            _ => "plik nie jest rozpoznawalnym kontenerem FLV"@,
        },
        Format::Matroska => if h[2] == Zdarzenie::Udalo(true) {
            "struktura Matroski czytelna, ale suma CRC-32 któregoś elementu się nie zgadza"@
        } else {
            "plik nie daje się odczytać jako Matroska (uszkodzona struktura lub ucięcie)"@
        },
        Format::Audio => "plik nie daje się odczytać jako kontener ISOBMFF albo nie ma ani jednej ścieżki"@,
        Format::Raw => "plik nie daje się zdekodować jako RAW"@,
        _ => "archiwum tar ma uszkodzone nagłówki lub ucięte wpisy"@,
    }
}

/// The verdict that follows an engine's word is worded for the family of the file:
/// what was proved where it is accepted, what failed where it is refused.
pub proof fn slowa_po_silniku(plik: Seq<char>, h: Seq<Zdarzenie>)
    requires
        prawa_przyjec::sadzi_silnik(prawa_przyjec::rodzina(plik)),
        prawa_przyjec::wczytany(h),
        prawa_przyjec::silnik_skonczyl(prawa_przyjec::rodzina(plik), h),
    ensures
        weryfikacja::weryfikacja_pliku(plik, h) == Nastepny::<Werdykt>::Koniec(
            if prawa_przyjec::silnik_potwierdza(prawa_przyjec::rodzina(plik), h) {
                Ok(dowod_silnika(prawa_przyjec::rodzina(plik), h))
            } else {
                Err(odmowa_silnika(prawa_przyjec::rodzina(plik), h))
            },
        ),
{
}

/// Where the content alone judges, the verdict names what was looked for in it.
pub proof fn slowa_po_tresci(plik: Seq<char>, h: Seq<Zdarzenie>, w: Werdykt)
    requires
        prawa_przyjec::wczytany(h),
        prawa_przyjec::sadzi_tresc(prawa_przyjec::rodzina(plik)),
        weryfikacja::weryfikacja_pliku(plik, h) == Nastepny::<Werdykt>::Koniec(w),
    ensures
        match prawa_przyjec::rodzina(plik) {
            Format::Obraz => w is Ok ==> w == Ok::<Seq<char>, Seq<char>>(
                "realne dekodowanie pikseli (gwarancja MOCNA)"@,
            ),
            Format::Tekst => if w is Ok {
                w == Ok::<Seq<char>, Seq<char>>(
                    "poprawny UTF-8 bez bajtów NULL (gwarancja MOCNA dla tekstu)"@,
                )
            } else if prawa_przyjec::wczytane(h).contains(0) {
                w == Err::<Seq<char>, Seq<char>>("plik tekstowy nadal zawiera bajty NULL"@)
            } else {
                w == Err::<Seq<char>, Seq<char>>(
                    "plik tekstowy nie jest poprawnym UTF-8: "@ + weryfikacja::blad_utf8(
                        prawa_przyjec::wczytane(h),
                    ),
                )
            },
            Format::Pdf => if w is Ok {
                w == Ok::<Seq<char>, Seq<char>>(
                    "nagłówek %PDF- i znacznik %%EOF na miejscu (gwarancja SŁABA - bez parsowania obiektów)"@,
                )
            } else if prawa_przyjec::stoi_na(
                prawa_przyjec::wczytane(h),
                seq![0x25u8, 0x50u8, 0x44u8, 0x46u8, 0x2Du8],
                0,
            ) {
                w == Err::<Seq<char>, Seq<char>>("brak znacznika %%EOF w końcówce pliku"@)
            } else {
                w == Err::<Seq<char>, Seq<char>>("brak nagłówka %PDF- na początku pliku"@)
            },
            Format::Riff => w == if w is Ok {
                Ok::<Seq<char>, Seq<char>>(
                    "nagłówek RIFF na miejscu (gwarancja SŁABA - sprawdzono tylko pierwsze 12 bajtów)"@,
                )
            } else {
                Err("brak nagłówka RIFF na początku pliku"@)
            },
            Format::Asf => w == if w is Ok {
                Ok::<Seq<char>, Seq<char>>(
                    "GUID nagłówka ASF na miejscu (gwarancja SŁABA - sprawdzono tylko pierwsze 16 bajtów)"@,
                )
            } else {
                Err("brak GUID nagłówka ASF na początku pliku"@)
            },
            Format::Mp3 => w == if w is Ok {
                Ok::<Seq<char>, Seq<char>>(
                    "tag ID3 albo synchronizacja ramki MPEG audio na początku pliku (gwarancja SŁABA)"@,
                )
            } else {
                Err("brak tagu ID3 i synchronizacji ramki MPEG audio na początku pliku"@)
            },
            _ => w == if w is Ok {
                Ok::<Seq<char>, Seq<char>>(
                    "brak metody weryfikacji dla tego formatu - sprawdzono niepustość i brak samych zer (gwarancja SŁABA)"@,
                )
            } else {
                Err("naprawiony plik zawiera wyłącznie bajty zerowe"@)
            },
        },
{
    let b = prawa_przyjec::wczytane(h);
    if prawa_przyjec::rodzina(plik) is Pdf {
        let p = seq![0x25u8, 0x50u8, 0x44u8, 0x46u8, 0x2Du8];
        prawa_przyjec::stoi_znaczy(b, p, 0);
        assert(weryfikacja::poczatek_pdf() =~= p);
    }
}

/// The words of the verdict on a database, on a video and on a file that cannot be
/// judged at all.
pub proof fn slowa_pozostale(plik: Seq<char>, h: Seq<Zdarzenie>, k: int)
    requires
        k >= 0,
    ensures
        prawa_przyjec::rodzina(plik) is Baza && h.len() >= 6 && (h[0] matches Zdarzenie::Rozmiar(
            Ok(n),
        ) && n > 0) ==> (h[3] matches Zdarzenie::Baza(s)
            ==> weryfikacja::weryfikacja_pliku(plik, h) == Nastepny::<Werdykt>::Koniec(
            match s {
                StanBazy::Nieotwarta(e) => Err("nie udało się otworzyć bazy: "@ + e@),
                StanBazy::Blad(e) => Err("nie udało się wykonać quick_check: "@ + e@),
                StanBazy::Odpowiedz(o) => if o@ == "ok"@ {
                    Ok("PRAGMA quick_check bazy SQLite (gwarancja MOCNA)"@)
                } else {
                    Err("quick_check bazy zgłosił problem: "@ + o@)
                },
            },
        )),
        h.len() >= k + 2 && h[k] == Zdarzenie::Udalo(true) ==> weryfikacja::weryfikacja_wideo(
            plik,
            h,
            k,
        ) == Nastepny::<Werdykt>::Koniec(
            if h[k + 1] == Zdarzenie::Udalo(true) {
                Ok("pełne dekodowanie klatek wideo, bez pustych strumieni (gwarancja MOCNA)"@)
            } else {
                Err(
                    "plik nie przechodzi pełnego dekodowania wideo (brak klatek lub zepsute offsety)"@,
                )
            },
        ),
        h.len() >= k + 2 && h[k] != Zdarzenie::Udalo(true) ==> weryfikacja::weryfikacja_wideo(
            plik,
            h,
            k,
        ) == Nastepny::<Werdykt>::Koniec(
            if h[k + 1] == Zdarzenie::Trojstan(Some(true)) {
                Ok(
                    "brak ffmpeg - sprawdzono strukturę kontenera: moov i mdat obecne, offsety w granicach pliku (gwarancja SŁABA)"@,
                )
            } else if h[k + 1] == Zdarzenie::Trojstan(Some(false)) {
                Err("struktura kontenera niespójna: brak moov/mdat albo offsety wskazują poza plik"@)
            } else {
                Err(
                    "nie udało się wczytać wyniku do kontroli strukturalnej (brak ffmpeg, plik zbyt duży lub nieczytelny)"@,
                )
            },
        ),
        h.len() >= 1 && h[0] == Zdarzenie::Rozmiar(Ok(0)) ==> weryfikacja::weryfikacja_pliku(
            plik,
            h,
        ) == Nastepny::<Werdykt>::Koniec(Err("naprawiony plik jest PUSTY (0 bajtów)"@)),
        h.len() >= 1 && (h[0] matches Zdarzenie::Rozmiar(Err(e)) && true)
            ==> weryfikacja::weryfikacja_pliku(plik, h) == Nastepny::<Werdykt>::Koniec(
            Err(
                "naprawiony plik nie istnieje lub jest nieczytelny: "@
                    + h[0]->Rozmiar_0->Err_0@,
            ),
        ),
{
}

/// The words of the modules that examine their own results: sound, cut off, or no
/// file of that format.
pub proof fn slowa_wlasnego_badania(m: Modul, plik: Seq<char>, h: Seq<Zdarzenie>)
    requires
        h.len() >= 2,
        h[0] matches Zdarzenie::Bajty(Ok(_)),
    ensures
        m is AsfClone ==> m.weryfikacja(plik, h) == Nastepny::<Werdykt>::Koniec(
            if h[1] == Zdarzenie::Trojstan(Some(true)) {
                Ok(
                    "struktura obiektów ASF spójna (gwarancja SŁABA - ASF nie niesie sumy kontrolnej per obiekt, treść próbek NIE zweryfikowana)"@,
                )
            } else if h[1] == Zdarzenie::Trojstan(Some(false)) {
                Err("plik ma ucięty/niespójny obiekt ASF"@)
            } else {
                Err("plik nie ma czytelnego nagłówka ASF albo nie ma ani jednego obiektu"@)
            },
        ),
        m is RiffClone ==> m.weryfikacja(plik, h) == Nastepny::<Werdykt>::Koniec(
            if h[1] == Zdarzenie::Trojstan(Some(true)) {
                Ok(
                    "struktura fragmentów RIFF spójna (gwarancja SŁABA - RIFF nie niesie sumy kontrolnej per fragment, treść próbek NIE zweryfikowana)"@,
                )
            } else if h[1] == Zdarzenie::Trojstan(Some(false)) {
                Err("plik ma ucięty/niespójny fragment RIFF"@)
            } else {
                Err("plik nie ma czytelnego nagłówka RIFF albo nie ma ani jednego fragmentu"@)
            },
        ),
        m is Mp3Clone ==> m.weryfikacja(plik, h) == Nastepny::<Werdykt>::Koniec(
            match h[1] {
                Zdarzenie::Strumien(Some(s)) => if s.0 {
                    Ok(
                        "łańcuch ramek MP3 spójny (gwarancja SŁABA - MP3 nie niesie sumy kontrolnej per ramkę, treść próbek NIE zweryfikowana)"@,
                    )
                } else {
                    Err("plik ma urwany/niespójny łańcuch ramek MP3: "@ + s.1@)
                },
                _ => Err("plik nie ma ani jednej wiarygodnej ramki MPEG audio"@),
            },
        ),
        m is DngStructural ==> m.weryfikacja(plik, h) == Nastepny::<Werdykt>::Koniec(
            if h[1] == Zdarzenie::Udalo(true) {
                Ok(
                    "dekodowanie RAW przez rawloader (gwarancja SŁABA - potwierdza spójność struktury TIFF/IFD, nie treść pikseli)"@,
                )
            } else {
                Err("złożony plik nie daje się zdekodować jako RAW"@)
            },
        ),
{
}

} // verus!
