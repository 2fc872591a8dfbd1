//! Mandatory verification of a repaired file, by the method that fits its format.

use vstd::prelude::*;

use crate::bajty;
use crate::phases::repair_modules::praca;
use crate::phases::repair_modules::praca::{
    Badanie, Czynnosc, KrokWeryfikacji, Nastepny, Ruch, StanBazy, Werdykt, WeryfikacjaHeic,
    WynikWeryfikacji, Zdarzenie,
};
use crate::sciezka;
use crate::tekst;

verus! {

/// The largest file that is read whole for its verification: 512 MB.
pub const LIMIT_WERYFIKACJI_W_RAM: u64 = 536870912;

/// How far from the end of a PDF its end marker is looked for.
pub const OGON_PDF: usize = 2048;

/// The families of formats, by the method that verifies them.
#[derive(Clone, Copy, PartialEq, Eq, Structural)]
pub enum Format {
    Baza,
    Zip,
    Heic,
    Ts,
    Flv,
    Matroska,
    Wideo,
    Audio,
    Obraz,
    Raw,
    Tar,
    Tekst,
    Pdf,
    Riff,
    Asf,
    Mp3,
    Inny,
}

/// Archives built on ZIP.
pub open spec fn rodzina_zip(e: Seq<char>) -> bool {
    e == "zip"@ || e == "docx"@ || e == "xlsx"@ || e == "pptx"@ || e == "odt"@ || e == "ods"@ || e
        == "odp"@ || e == "epub"@ || e == "jar"@ || e == "apk"@
}

/// Whether an extension belongs to an archive built on ZIP.
pub fn jest_zip(e: &str) -> (r: bool)
    ensures
        r == rodzina_zip(e@),
{
    tekst::rowne(e, "zip") || tekst::rowne(e, "docx") || tekst::rowne(e, "xlsx") || tekst::rowne(
        e,
        "pptx",
    ) || tekst::rowne(e, "odt") || tekst::rowne(e, "ods") || tekst::rowne(e, "odp")
        || tekst::rowne(e, "epub") || tekst::rowne(e, "jar") || tekst::rowne(e, "apk")
}

/// Images in a HEIF container.
pub open spec fn rodzina_heif(e: Seq<char>) -> bool {
    e == "heic"@ || e == "heif"@ || e == "avif"@
}

/// Whether an extension belongs to an image in a HEIF container.
pub fn jest_heif(e: &str) -> (r: bool)
    ensures
        r == rodzina_heif(e@),
{
    tekst::rowne(e, "heic") || tekst::rowne(e, "heif") || tekst::rowne(e, "avif")
}

/// Matroska containers.
pub open spec fn rodzina_matroski(e: Seq<char>) -> bool {
    e == "mkv"@ || e == "webm"@ || e == "mka"@
}

/// Whether an extension belongs to a Matroska container.
pub fn jest_matroska(e: &str) -> (r: bool)
    ensures
        r == rodzina_matroski(e@),
{
    tekst::rowne(e, "mkv") || tekst::rowne(e, "webm") || tekst::rowne(e, "mka")
}

/// ISOBMFF containers that carry a picture track.
pub open spec fn rodzina_mp4(e: Seq<char>) -> bool {
    e == "mp4"@ || e == "mov"@ || e == "m4v"@ || e == "3gp"@ || e == "3g2"@ || e == "f4v"@
}

/// Whether an extension belongs to an ISOBMFF container with a picture track.
pub fn jest_mp4(e: &str) -> (r: bool)
    ensures
        r == rodzina_mp4(e@),
{
    tekst::rowne(e, "mp4") || tekst::rowne(e, "mov") || tekst::rowne(e, "m4v") || tekst::rowne(
        e,
        "3gp",
    ) || tekst::rowne(e, "3g2") || tekst::rowne(e, "f4v")
}

/// The family of an extension in lower case. The first family that names it decides.
pub open spec fn format_rozszerzenia(e: Seq<char>) -> Format {
    if e == "db"@ || e == "sqlite"@ || e == "sqlite3"@ {
        Format::Baza
    } else if rodzina_zip(e) {
        Format::Zip
    } else if rodzina_heif(e) {
        Format::Heic
    } else if e == "ts"@ || e == "m2ts"@ || e == "mts"@ {
        Format::Ts
    } else if e == "flv"@ {
        Format::Flv
    } else if rodzina_matroski(e) {
        Format::Matroska
    } else if rodzina_mp4(e) {
        Format::Wideo
    } else if e == "m4a"@ || e == "m4b"@ {
        Format::Audio
    } else if e == "jpg"@ || e == "jpeg"@ || e == "png"@ || e == "gif"@ || e == "bmp"@ || e
        == "tif"@ || e == "tiff"@ || e == "webp"@ {
        Format::Obraz
    } else if e == "dng"@ || e == "nef"@ || e == "cr2"@ || e == "cr3"@ || e == "arw"@ || e
        == "orf"@ || e == "rw2"@ || e == "raf"@ || e == "srw"@ || e == "pef"@ {
        Format::Raw
    } else if e == "tar"@ {
        Format::Tar
    } else if e == "txt"@ || e == "py"@ || e == "csv"@ || e == "json"@ || e == "xml"@ || e
        == "md"@ || e == "log"@ {
        Format::Tekst
    } else if e == "pdf"@ {
        Format::Pdf
    } else if e == "wav"@ || e == "avi"@ {
        Format::Riff
    } else if e == "wmv"@ || e == "wma"@ {
        Format::Asf
    } else if e == "mp3"@ {
        Format::Mp3
    } else {
        Format::Inny
    }
}

/// The family of an extension in lower case.
pub fn rozpoznaj_format(e: &str) -> (r: Format)
    ensures
        r == format_rozszerzenia(e@),
{
    if tekst::rowne(e, "db") || tekst::rowne(e, "sqlite") || tekst::rowne(e, "sqlite3") {
        Format::Baza
    } else if jest_zip(e) {
        Format::Zip
    } else if jest_heif(e) {
        Format::Heic
    } else if tekst::rowne(e, "ts") || tekst::rowne(e, "m2ts") || tekst::rowne(e, "mts") {
        Format::Ts
    } else if tekst::rowne(e, "flv") {
        Format::Flv
    } else if jest_matroska(e) {
        Format::Matroska
    } else if jest_mp4(e) {
        Format::Wideo
    } else if tekst::rowne(e, "m4a") || tekst::rowne(e, "m4b") {
        Format::Audio
    } else if tekst::rowne(e, "jpg") || tekst::rowne(e, "jpeg") || tekst::rowne(e, "png")
        || tekst::rowne(e, "gif") || tekst::rowne(e, "bmp") || tekst::rowne(e, "tif")
        || tekst::rowne(e, "tiff") || tekst::rowne(e, "webp") {
        Format::Obraz
    } else if tekst::rowne(e, "dng") || tekst::rowne(e, "nef") || tekst::rowne(e, "cr2")
        || tekst::rowne(e, "cr3") || tekst::rowne(e, "arw") || tekst::rowne(e, "orf")
        || tekst::rowne(e, "rw2") || tekst::rowne(e, "raf") || tekst::rowne(e, "srw")
        || tekst::rowne(e, "pef") {
        Format::Raw
    } else if tekst::rowne(e, "tar") {
        Format::Tar
    } else if tekst::rowne(e, "txt") || tekst::rowne(e, "py") || tekst::rowne(e, "csv")
        || tekst::rowne(e, "json") || tekst::rowne(e, "xml") || tekst::rowne(e, "md")
        || tekst::rowne(e, "log") {
        Format::Tekst
    } else if tekst::rowne(e, "pdf") {
        Format::Pdf
    } else if tekst::rowne(e, "wav") || tekst::rowne(e, "avi") {
        Format::Riff
    } else if tekst::rowne(e, "wmv") || tekst::rowne(e, "wma") {
        Format::Asf
    } else if tekst::rowne(e, "mp3") {
        Format::Mp3
    } else {
        Format::Inny
    }
}

/// The width and height of the image that `image::load_from_memory` makes of some
/// bytes, where it succeeds.
pub uninterp spec fn wymiary_obrazu(b: Seq<u8>) -> Option<(u32, u32)>;

/// A decoding over plain values.
pub open spec fn dekodowanie(w: Result<(u32, u32), String>) -> Result<(u32, u32), Seq<char>> {
    match w {
        Ok(d) => Ok(d),
        Err(e) => Err(e@),
    }
}

/// Decodes an image with `image::load_from_memory`, which guesses the format
/// from the content. The contract names the dimensions as a function of the
/// bytes, and says that a failure is one too. Nothing is said of the text of the
/// error: blocks of one image may be decoded in parallel, and then the first that
/// fails words it. The guess also looks at formats registered for the whole
/// process in `image::hooks`; nothing here registers one.
#[verifier::external_body]
pub fn zdekoduj_obraz(b: &Vec<u8>) -> (r: Result<(u32, u32), String>)
    ensures
        r matches Ok(d) ==> wymiary_obrazu(b@) == Some(d),
        r is Err ==> wymiary_obrazu(b@) is None,
{
    match image::load_from_memory(b) {
        Ok(img) => Ok((img.width(), img.height())),
        Err(e) => Err(e.to_string()),
    }
}

/// The text of the error of `std::str::from_utf8`.
pub uninterp spec fn blad_utf8(b: Seq<u8>) -> Seq<char>;

/// Checks with `std::str::from_utf8` that some bytes are UTF-8. The contract says
/// that it succeeds exactly on valid UTF-8, and names the text of its error.
#[verifier::external_body]
pub(crate) fn sprawdz_utf8(b: &Vec<u8>) -> (r: Result<(), String>)
    ensures
        r is Ok <==> vstd::utf8::valid_utf8(b@),
        r matches Err(e) ==> e@ == blad_utf8(b@),
{
    match std::str::from_utf8(b) {
        Ok(_) => Ok(()),
        Err(e) => Err(e.to_string()),
    }
}

/// The content of the file at `plik` of size `rozmiar`, once it was read, or
/// what comes instead: the request to read it, a weak acceptance above the
/// memory limit, or the refusal of a file that cannot be read.
pub open spec fn tresc(plik: Seq<char>, rozmiar: u64, h: Seq<Zdarzenie>) -> Result<
    Seq<u8>,
    Nastepny<Werdykt>,
> {
    if rozmiar > LIMIT_WERYFIKACJI_W_RAM {
        Err(
            Nastepny::Koniec(
                Ok(
                    "plik przekracza limit weryfikacji w RAM - sprawdzono tylko, że jest niepusty (gwarancja SŁABA)"@,
                ),
            ),
        )
    } else if h.len() < 2 {
        Err(Nastepny::Ruch(Ruch::Wczytaj(plik)))
    } else {
        match h[1] {
            Zdarzenie::Bajty(Ok(b)) => Ok(b@),
            Zdarzenie::Bajty(Err(e)) => Err(
                Nastepny::Koniec(Err("nie udało się odczytać naprawionego pliku: "@ + e@)),
            ),
            _ => Err(Nastepny::Koniec(Err("nie udało się odczytać naprawionego pliku: "@))),
        }
    }
}

/// The content of the repaired file, or what comes instead.
pub fn wczytaj_do_weryfikacji<'a>(plik: &str, rozmiar: u64, h: &'a Vec<Zdarzenie>) -> (r: Result<
    &'a Vec<u8>,
    KrokWeryfikacji,
>)
    ensures
        match r {
            Ok(b) => tresc(plik@, rozmiar, h@) == Ok::<Seq<u8>, Nastepny<Werdykt>>(b@),
            Err(k) => tresc(plik@, rozmiar, h@) == Err::<Seq<u8>, Nastepny<Werdykt>>(k@),
        },
        r matches Ok(b) ==> h@.len() >= 2 && h@[1] == Zdarzenie::Bajty(Ok(*b)),
{
    if rozmiar > LIMIT_WERYFIKACJI_W_RAM {
        return Err(
            KrokWeryfikacji::Werdykt(
                Ok(
                    "plik przekracza limit weryfikacji w RAM - sprawdzono tylko, że jest niepusty (gwarancja SŁABA)",
                ),
            ),
        );
    }
    if h.len() < 2 {
        return Err(KrokWeryfikacji::Wykonaj(Czynnosc::Wczytaj(plik.to_owned())));
    }
    match &h[1] {
        Zdarzenie::Bajty(Ok(b)) => Ok(b),
        Zdarzenie::Bajty(Err(e)) => {
            let mut s = "nie udało się odczytać naprawionego pliku: ".to_owned();
            s.append(e.as_str());
            Err(KrokWeryfikacji::Werdykt(Err(s)))
        },
        _ => Err(
            KrokWeryfikacji::Werdykt(
                Err("nie udało się odczytać naprawionego pliku: ".to_owned()),
            ),
        ),
    }
}

/// A yes or no of an engine as a verdict.
pub open spec fn tak_lub_nie(ok: bool, dowod: Seq<char>, powod: Seq<char>) -> Werdykt {
    if ok {
        Ok(dowod)
    } else {
        Err(powod)
    }
}

/// A yes or no of an engine as a verdict.
pub fn werdykt_silnika(ok: bool, dowod: &'static str, powod: &str) -> (r: WynikWeryfikacji)
    ensures
        praca::werdykt(r) == tak_lub_nie(ok, dowod@, powod@),
{
    if ok {
        Ok(dowod)
    } else {
        Err(powod.to_owned())
    }
}

/// The verdict on a HEIF image.
pub open spec fn ocena_heic(z: Zdarzenie) -> Werdykt {
    match z {
        Zdarzenie::Heic(WeryfikacjaHeic::PikseleZdekodowane) => Ok(
            "pełne dekodowanie pikseli przez libheif (gwarancja MOCNA)"@,
        ),
        Zdarzenie::Heic(WeryfikacjaHeic::TylkoStruktura) => Ok(
            "brak pluginu kodeka - sprawdzono tylko strukturę kontenera HEIF (gwarancja SŁABA)"@,
        ),
        _ => Err("plik nie daje się zdekodować jako HEIC/HEIF/AVIF"@),
    }
}

/// The verdict on a HEIF image.
pub fn werdykt_heic(z: &Zdarzenie) -> (r: WynikWeryfikacji)
    ensures
        praca::werdykt(r) == ocena_heic(*z),
{
    match z {
        Zdarzenie::Heic(WeryfikacjaHeic::PikseleZdekodowane) => Ok(
            "pełne dekodowanie pikseli przez libheif (gwarancja MOCNA)",
        ),
        Zdarzenie::Heic(WeryfikacjaHeic::TylkoStruktura) => Ok(
            "brak pluginu kodeka - sprawdzono tylko strukturę kontenera HEIF (gwarancja SŁABA)",
        ),
        _ => Err("plik nie daje się zdekodować jako HEIC/HEIF/AVIF".to_owned()),
    }
}

/// The verdict on a framed stream: sound, broken as described, or no such stream.
pub open spec fn ocena_strumienia(
    z: Zdarzenie,
    dowod: Seq<char>,
    uszkodzony: Seq<char>,
    obcy: Seq<char>,
) -> Werdykt {
    match z {
        Zdarzenie::Strumien(Some((true, _))) => Ok(dowod),
        Zdarzenie::Strumien(Some((false, o))) => Err(uszkodzony + o@),
        _ => Err(obcy),
    }
}

/// The verdict on a framed stream.
pub fn werdykt_strumienia(
    z: &Zdarzenie,
    dowod: &'static str,
    uszkodzony: &str,
    obcy: &str,
) -> (r: WynikWeryfikacji)
    ensures
        praca::werdykt(r) == ocena_strumienia(*z, dowod@, uszkodzony@, obcy@),
{
    match z {
        Zdarzenie::Strumien(Some((zdrowy, o))) => {
            if *zdrowy {
                Ok(dowod)
            } else {
                let mut s = uszkodzony.to_owned();
                s.append(o.as_str());
                Err(s)
            }
        },
        _ => Err(obcy.to_owned()),
    }
}

/// The verdict on the sums of a Matroska file whose structure reads.
pub open spec fn ocena_sum_matroski(z: Zdarzenie) -> Werdykt {
    match z {
        Zdarzenie::Trojstan(Some(true)) => Ok(
            "odczyt struktury Matroski z kontrolą CRC-32 elementów nadrzędnych (gwarancja MOCNA)"@,
        ),
        Zdarzenie::Trojstan(None) => Ok(
            "odczyt struktury Matroski (gwarancja SŁABA - kontener nie zawiera sum CRC-32)"@,
        ),
        _ => Err(
            "struktura Matroski czytelna, ale suma CRC-32 któregoś elementu się nie zgadza"@,
        ),
    }
}

/// The verdict on the sums of a Matroska file whose structure reads.
pub fn werdykt_sum_matroski(z: &Zdarzenie) -> (r: WynikWeryfikacji)
    ensures
        praca::werdykt(r) == ocena_sum_matroski(*z),
{
    match z {
        Zdarzenie::Trojstan(Some(true)) => Ok(
            "odczyt struktury Matroski z kontrolą CRC-32 elementów nadrzędnych (gwarancja MOCNA)",
        ),
        Zdarzenie::Trojstan(None) => Ok(
            "odczyt struktury Matroski (gwarancja SŁABA - kontener nie zawiera sum CRC-32)",
        ),
        _ => Err(
            "struktura Matroski czytelna, ale suma CRC-32 któregoś elementu się nie zgadza".to_owned(),
        ),
    }
}

/// How the refusal of an image starts that cannot be decoded.
pub open spec fn powod_dekodera() -> Seq<char> {
    "obraz nie daje się zdekodować: "@
}

/// The decoder may refuse these bytes in these words.
pub open spec fn slowa_dekodera(b: &Vec<u8>, e: String) -> bool {
    call_ensures(zdekoduj_obraz, (b,), Err::<(u32, u32), String>(e))
}

/// The verdict refuses an image that cannot be decoded, in the decoder's words.
pub open spec fn odrzuca_obraz(w: Werdykt, b: &Vec<u8>) -> bool {
    exists|e: String| #[trigger] slowa_dekodera(b, e) && w == Err::<Seq<char>, Seq<char>>(
        powod_dekodera() + e@,
    )
}

/// The step is the refusal, in the decoder's words, of the image whose bytes were
/// read.
pub open spec fn niedekodowalny(n: Nastepny<Werdykt>, h: Seq<Zdarzenie>) -> bool {
    &&& n matches Nastepny::Koniec(w)
    &&& h[1] matches Zdarzenie::Bajty(Ok(b))
    &&& odrzuca_obraz(w, &b)
}

/// The verdict on a raster image from its decoding.
pub open spec fn ocena_obrazu(d: Result<(u32, u32), Seq<char>>) -> Werdykt {
    match d {
        Ok((w, h)) => if w > 0 && h > 0 {
            Ok("realne dekodowanie pikseli (gwarancja MOCNA)"@)
        } else {
            Err("obraz zdekodowany, ale ma zerowe wymiary"@)
        },
        Err(e) => Err(powod_dekodera() + e),
    }
}

/// The verdict on a raster image from its dimensions; where it cannot be decoded,
/// as far as the decoder does not word it.
pub open spec fn ocena_wymiarow(d: Option<(u32, u32)>) -> Werdykt {
    match d {
        Some(w) => ocena_obrazu(Ok(w)),
        None => Err(powod_dekodera()),
    }
}

/// The verdict on a raster image from its decoding.
pub fn werdykt_obrazu(d: &Result<(u32, u32), String>) -> (r: WynikWeryfikacji)
    ensures
        praca::werdykt(r) == ocena_obrazu(dekodowanie(*d)),
{
    match d {
        Ok((w, h)) => {
            if *w > 0 && *h > 0 {
                Ok("realne dekodowanie pikseli (gwarancja MOCNA)")
            } else {
                Err("obraz zdekodowany, ale ma zerowe wymiary".to_owned())
            }
        },
        Err(e) => {
            let mut s = "obraz nie daje się zdekodować: ".to_owned();
            s.append(e.as_str());
            Err(s)
        },
    }
}

/// The verdict on a text file; `u` is the text of the error of the UTF-8 check.
pub open spec fn ocena_tekstu(b: Seq<u8>, u: Option<Seq<char>>) -> Werdykt {
    if b.contains(0) {
        Err("plik tekstowy nadal zawiera bajty NULL"@)
    } else {
        match u {
            None => Ok("poprawny UTF-8 bez bajtów NULL (gwarancja MOCNA dla tekstu)"@),
            Some(e) => Err("plik tekstowy nie jest poprawnym UTF-8: "@ + e),
        }
    }
}

/// The verdict on a text file from the outcome of the UTF-8 check.
pub fn werdykt_tekstu(b: &Vec<u8>, u: &Result<(), String>) -> (r: WynikWeryfikacji)
    ensures
        praca::werdykt(r) == ocena_tekstu(
            b@,
            match *u {
                Ok(_) => None,
                Err(e) => Some(e@),
            },
        ),
{
    if bajty::zawiera_zero(b) {
        return Err("plik tekstowy nadal zawiera bajty NULL".to_owned());
    }
    match u {
        Ok(_) => Ok("poprawny UTF-8 bez bajtów NULL (gwarancja MOCNA dla tekstu)"),
        Err(e) => {
            let mut s = "plik tekstowy nie jest poprawnym UTF-8: ".to_owned();
            s.append(e.as_str());
            Err(s)
        },
    }
}

/// `%PDF-`.
pub open spec fn poczatek_pdf() -> Seq<u8> {
    seq![0x25u8, 0x50u8, 0x44u8, 0x46u8, 0x2Du8]
}

/// `%%EOF`.
pub open spec fn koniec_pdf() -> Seq<u8> {
    seq![0x25u8, 0x25u8, 0x45u8, 0x4Fu8, 0x46u8]
}

/// Where the tail of a PDF starts.
pub open spec fn poczatek_ogona(n: nat) -> int {
    if n > OGON_PDF {
        n - OGON_PDF
    } else {
        0
    }
}

/// The verdict on a PDF: its header and, near the end, its end marker.
pub open spec fn ocena_pdf(b: Seq<u8>) -> Werdykt {
    if !bajty::zaczyna_sie(b, poczatek_pdf()) {
        Err("brak nagłówka %PDF- na początku pliku"@)
    } else if !bajty::wystepuje_od(b, koniec_pdf(), poczatek_ogona(b.len())) {
        Err("brak znacznika %%EOF w końcówce pliku"@)
    } else {
        Ok(
            "nagłówek %PDF- i znacznik %%EOF na miejscu (gwarancja SŁABA - bez parsowania obiektów)"@,
        )
    }
}

/// The verdict on a PDF.
pub fn werdykt_pdf(b: &Vec<u8>) -> (r: WynikWeryfikacji)
    ensures
        praca::werdykt(r) == ocena_pdf(b@),
{
    let poczatek: Vec<u8> = vec![0x25u8, 0x50u8, 0x44u8, 0x46u8, 0x2Du8];
    let koniec: Vec<u8> = vec![0x25u8, 0x25u8, 0x45u8, 0x4Fu8, 0x46u8];
    assert(poczatek@ =~= poczatek_pdf());
    assert(koniec@ =~= koniec_pdf());
    if !bajty::zaczyna(b, &poczatek) {
        return Err("brak nagłówka %PDF- na początku pliku".to_owned());
    }
    let od: usize = if b.len() > OGON_PDF {
        b.len() - OGON_PDF
    } else {
        0
    };
    if !bajty::zawiera_od(b, &koniec, od) {
        return Err("brak znacznika %%EOF w końcówce pliku".to_owned());
    }
    Ok("nagłówek %PDF- i znacznik %%EOF na miejscu (gwarancja SŁABA - bez parsowania obiektów)")
}

/// `RIFF`.
pub open spec fn znak_riff() -> Seq<u8> {
    seq![0x52u8, 0x49u8, 0x46u8, 0x46u8]
}

/// `WAVE`.
pub open spec fn postac_wave() -> Seq<u8> {
    seq![0x57u8, 0x41u8, 0x56u8, 0x45u8]
}

/// `AVI` and a space.
pub open spec fn postac_avi() -> Seq<u8> {
    seq![0x41u8, 0x56u8, 0x49u8, 0x20u8]
}

/// The first twelve bytes are the header of a RIFF file: its mark, a size, and
/// the form that WAV or AVI has.
pub open spec fn naglowek_riff(b: Seq<u8>) -> bool {
    bajty::stoi(b, znak_riff(), 0) && (bajty::stoi(b, postac_wave(), 8) || bajty::stoi(
        b,
        postac_avi(),
        8,
    ))
}

/// The verdict on a RIFF file from its header alone.
pub open spec fn ocena_riff(b: Seq<u8>) -> Werdykt {
    tak_lub_nie(
        naglowek_riff(b),
        "nagłówek RIFF na miejscu (gwarancja SŁABA - sprawdzono tylko pierwsze 12 bajtów)"@,
        "brak nagłówka RIFF na początku pliku"@,
    )
}

/// The verdict on a RIFF file from its header alone.
pub fn werdykt_riff(b: &Vec<u8>) -> (r: WynikWeryfikacji)
    ensures
        praca::werdykt(r) == ocena_riff(b@),
{
    let znak: Vec<u8> = vec![0x52u8, 0x49u8, 0x46u8, 0x46u8];
    let wave: Vec<u8> = vec![0x57u8, 0x41u8, 0x56u8, 0x45u8];
    let avi: Vec<u8> = vec![0x41u8, 0x56u8, 0x49u8, 0x20u8];
    assert(znak@ =~= znak_riff());
    assert(wave@ =~= postac_wave());
    assert(avi@ =~= postac_avi());
    werdykt_silnika(
        b.len() >= 12 && bajty::pasuje(b, &znak, 0) && (bajty::pasuje(b, &wave, 8)
            || bajty::pasuje(b, &avi, 8)),
        "nagłówek RIFF na miejscu (gwarancja SŁABA - sprawdzono tylko pierwsze 12 bajtów)",
        "brak nagłówka RIFF na początku pliku",
    )
}

/// The GUID of the header object with which an ASF file starts.
pub open spec fn guid_asf() -> Seq<u8> {
    seq![
        0x30u8,
        0x26u8,
        0xB2u8,
        0x75u8,
        0x8Eu8,
        0x66u8,
        0xCFu8,
        0x11u8,
        0xA6u8,
        0xD9u8,
        0x00u8,
        0xAAu8,
        0x00u8,
        0x62u8,
        0xCEu8,
        0x6Cu8,
    ]
}

/// The verdict on an ASF file from the GUID at its start.
pub open spec fn ocena_asf(b: Seq<u8>) -> Werdykt {
    tak_lub_nie(
        bajty::zaczyna_sie(b, guid_asf()),
        "GUID nagłówka ASF na miejscu (gwarancja SŁABA - sprawdzono tylko pierwsze 16 bajtów)"@,
        "brak GUID nagłówka ASF na początku pliku"@,
    )
}

/// The verdict on an ASF file from the GUID at its start.
pub fn werdykt_asf(b: &Vec<u8>) -> (r: WynikWeryfikacji)
    ensures
        praca::werdykt(r) == ocena_asf(b@),
{
    let guid: Vec<u8> = vec![
        0x30u8,
        0x26u8,
        0xB2u8,
        0x75u8,
        0x8Eu8,
        0x66u8,
        0xCFu8,
        0x11u8,
        0xA6u8,
        0xD9u8,
        0x00u8,
        0xAAu8,
        0x00u8,
        0x62u8,
        0xCEu8,
        0x6Cu8,
    ];
    assert(guid@ =~= guid_asf());
    werdykt_silnika(
        bajty::zaczyna(b, &guid),
        "GUID nagłówka ASF na miejscu (gwarancja SŁABA - sprawdzono tylko pierwsze 16 bajtów)",
        "brak GUID nagłówka ASF na początku pliku",
    )
}

/// `ID3`.
pub open spec fn znak_id3() -> Seq<u8> {
    seq![0x49u8, 0x44u8, 0x33u8]
}

/// The content starts with an MPEG audio frame: eleven bits are set.
pub open spec fn synchronizacja_mpeg(b: Seq<u8>) -> bool {
    b.len() >= 2 && b[0] == 0xFF && b[1] >= 0xE0
}

/// The verdict on an MP3 file from its first bytes.
pub open spec fn ocena_mp3(b: Seq<u8>) -> Werdykt {
    tak_lub_nie(
        bajty::zaczyna_sie(b, znak_id3()) || synchronizacja_mpeg(b),
        "tag ID3 albo synchronizacja ramki MPEG audio na początku pliku (gwarancja SŁABA)"@,
        "brak tagu ID3 i synchronizacji ramki MPEG audio na początku pliku"@,
    )
}

/// The verdict on an MP3 file from its first bytes.
pub fn werdykt_mp3(b: &Vec<u8>) -> (r: WynikWeryfikacji)
    ensures
        praca::werdykt(r) == ocena_mp3(b@),
{
    let znak: Vec<u8> = vec![0x49u8, 0x44u8, 0x33u8];
    assert(znak@ =~= znak_id3());
    werdykt_silnika(
        bajty::zaczyna(b, &znak) || (b.len() >= 2 && b[0] == 0xFF && b[1] >= 0xE0),
        "tag ID3 albo synchronizacja ramki MPEG audio na początku pliku (gwarancja SŁABA)",
        "brak tagu ID3 i synchronizacji ramki MPEG audio na początku pliku",
    )
}

/// The verdict where no method fits the format.
pub open spec fn ocena_nieznanego(b: Seq<u8>) -> Werdykt {
    if bajty::same_zera(b) {
        Err("naprawiony plik zawiera wyłącznie bajty zerowe"@)
    } else {
        Ok(
            "brak metody weryfikacji dla tego formatu - sprawdzono niepustość i brak samych zer (gwarancja SŁABA)"@,
        )
    }
}

/// The verdict where no method fits the format.
pub fn werdykt_nieznanego(b: &Vec<u8>) -> (r: WynikWeryfikacji)
    ensures
        praca::werdykt(r) == ocena_nieznanego(b@),
{
    if bajty::sa_same_zera(b) {
        return Err("naprawiony plik zawiera wyłącznie bajty zerowe".to_owned());
    }
    Ok(
        "brak metody weryfikacji dla tego formatu - sprawdzono niepustość i brak samych zer (gwarancja SŁABA)",
    )
}

/// The path of a file that a database keeps beside itself: the suffix is put
/// behind the whole name.
pub fn plik_towarzyszacy(plik: &str, sufiks: &str) -> (r: String)
    ensures
        r@ == plik@ + sufiks@,
{
    let mut s = plik.to_owned();
    s.append(sufiks);
    s
}

/// The verdict on a database from what its check said.
pub open spec fn ocena_bazy(s: StanBazy) -> Werdykt {
    match s {
        StanBazy::Nieotwarta(e) => Err("nie udało się otworzyć bazy: "@ + e@),
        StanBazy::Blad(e) => Err("nie udało się wykonać quick_check: "@ + e@),
        StanBazy::Odpowiedz(o) => if o@ == "ok"@ {
            Ok("PRAGMA quick_check bazy SQLite (gwarancja MOCNA)"@)
        } else {
            Err("quick_check bazy zgłosił problem: "@ + o@)
        },
    }
}

/// The verdict on a database from what its check said.
pub fn werdykt_bazy(s: &StanBazy) -> (r: WynikWeryfikacji)
    ensures
        praca::werdykt(r) == ocena_bazy(*s),
{
    match s {
        StanBazy::Nieotwarta(e) => {
            let mut t = "nie udało się otworzyć bazy: ".to_owned();
            t.append(e.as_str());
            Err(t)
        },
        StanBazy::Blad(e) => {
            let mut t = "nie udało się wykonać quick_check: ".to_owned();
            t.append(e.as_str());
            Err(t)
        },
        StanBazy::Odpowiedz(o) => {
            if tekst::rowne(o.as_str(), "ok") {
                Ok("PRAGMA quick_check bazy SQLite (gwarancja MOCNA)")
            } else {
                let mut t = "quick_check bazy zgłosił problem: ".to_owned();
                t.append(o.as_str());
                Err(t)
            }
        },
    }
}

/// The companion files that the check itself made: those that were not there before.
pub open spec fn slady(plik: Seq<char>, wal_istnial: bool, shm_istnial: bool) -> Seq<Seq<char>> {
    (if wal_istnial {
        Seq::empty()
    } else {
        seq![plik + "-wal"@]
    }) + (if shm_istnial {
        Seq::empty()
    } else {
        seq![plik + "-shm"@]
    })
}

/// The check of a database: look for its companion files, check it, and remove
/// the companions that were not there before.
pub open spec fn weryfikacja_bazy(plik: Seq<char>, h: Seq<Zdarzenie>) -> Nastepny<Werdykt> {
    if h.len() < 2 {
        Nastepny::Ruch(Ruch::SprawdzIstnienie(plik + "-wal"@))
    } else if h.len() < 3 {
        Nastepny::Ruch(Ruch::SprawdzIstnienie(plik + "-shm"@))
    } else if h.len() < 4 {
        Nastepny::Ruch(Ruch::SprawdzBaze(plik))
    } else {
        let s = slady(plik, praca::powiodlo_sie(h[1]), praca::powiodlo_sie(h[2]));
        match h[3] {
            Zdarzenie::Baza(StanBazy::Nieotwarta(e)) => Nastepny::Koniec(
                ocena_bazy(StanBazy::Nieotwarta(e)),
            ),
            Zdarzenie::Baza(b) => if h.len() - 4 < s.len() {
                Nastepny::Ruch(Ruch::Usun(s[h.len() - 4]))
            } else {
                Nastepny::Koniec(ocena_bazy(b))
            },
            _ => Nastepny::Koniec(Err("nie udało się otworzyć bazy: "@)),
        }
    }
}

/// The next step of the check of a database.
pub fn weryfikuj_sqlite(plik: &str, h: &Vec<Zdarzenie>) -> (r: KrokWeryfikacji)
    requires
        h@.len() >= 1,
    ensures
        r@ == weryfikacja_bazy(plik@, h@),
{
    let wal = plik_towarzyszacy(plik, "-wal");
    let shm = plik_towarzyszacy(plik, "-shm");
    if h.len() < 2 {
        return KrokWeryfikacji::Wykonaj(Czynnosc::SprawdzIstnienie(wal));
    }
    if h.len() < 3 {
        return KrokWeryfikacji::Wykonaj(Czynnosc::SprawdzIstnienie(shm));
    }
    if h.len() < 4 {
        return KrokWeryfikacji::Wykonaj(Czynnosc::SprawdzBaze(plik.to_owned()));
    }
    let wal_istnial = praca::udane(&h[1]);
    let shm_istnial = praca::udane(&h[2]);
    match &h[3] {
        Zdarzenie::Baza(b) => {
            let nieotwarta = match b {
                StanBazy::Nieotwarta(_) => true,
                _ => false,
            };
            let po: usize = h.len() - 4;
            if !nieotwarta && !wal_istnial && po == 0 {
                KrokWeryfikacji::Wykonaj(Czynnosc::Usun(wal))
            } else if !nieotwarta && !shm_istnial && po == (if wal_istnial { 0usize } else { 1usize }) {
                KrokWeryfikacji::Wykonaj(Czynnosc::Usun(shm))
            } else {
                KrokWeryfikacji::Werdykt(werdykt_bazy(b))
            }
        },
        _ => KrokWeryfikacji::Werdykt(Err("nie udało się otworzyć bazy: ".to_owned())),
    }
}

/// The check of a video, from the answer at position `k` on: full decoding
/// where the machine has a decoder, and else the structure of the container.
pub open spec fn weryfikacja_wideo(plik: Seq<char>, h: Seq<Zdarzenie>, k: int) -> Nastepny<Werdykt> {
    if h.len() <= k {
        Nastepny::Ruch(Ruch::SprawdzFfmpeg)
    } else if praca::powiodlo_sie(h[k]) {
        if h.len() <= k + 1 {
            Nastepny::Ruch(Ruch::DekodujWideo(plik))
        } else {
            Nastepny::Koniec(
                tak_lub_nie(
                    praca::powiodlo_sie(h[k + 1]),
                    "pełne dekodowanie klatek wideo, bez pustych strumieni (gwarancja MOCNA)"@,
                    "plik nie przechodzi pełnego dekodowania wideo (brak klatek lub zepsute offsety)"@,
                ),
            )
        }
    } else if h.len() <= k + 1 {
        Nastepny::Ruch(Ruch::SprawdzKontener(plik))
    } else {
        Nastepny::Koniec(ocena_kontenera(h[k + 1]))
    }
}

/// The verdict on a video from the structure of its container alone.
pub open spec fn ocena_kontenera(z: Zdarzenie) -> Werdykt {
    match z {
        Zdarzenie::Trojstan(Some(true)) => Ok(
            "brak ffmpeg - sprawdzono strukturę kontenera: moov i mdat obecne, offsety w granicach pliku (gwarancja SŁABA)"@,
        ),
        Zdarzenie::Trojstan(Some(false)) => Err(
            "struktura kontenera niespójna: brak moov/mdat albo offsety wskazują poza plik"@,
        ),
        _ => Err(
            "nie udało się wczytać wyniku do kontroli strukturalnej (brak ffmpeg, plik zbyt duży lub nieczytelny)"@,
        ),
    }
}

/// The verdict on a video from the structure of its container alone.
pub fn werdykt_kontenera(z: &Zdarzenie) -> (r: WynikWeryfikacji)
    ensures
        praca::werdykt(r) == ocena_kontenera(*z),
{
    match z {
        Zdarzenie::Trojstan(Some(true)) => Ok(
            "brak ffmpeg - sprawdzono strukturę kontenera: moov i mdat obecne, offsety w granicach pliku (gwarancja SŁABA)",
        ),
        Zdarzenie::Trojstan(Some(false)) => Err(
            "struktura kontenera niespójna: brak moov/mdat albo offsety wskazują poza plik".to_owned(),
        ),
        _ => Err(
            "nie udało się wczytać wyniku do kontroli strukturalnej (brak ffmpeg, plik zbyt duży lub nieczytelny)".to_owned(),
        ),
    }
}

/// The next step of the check of a video, from the answer at position `k` on.
pub fn weryfikuj_wideo(plik: &str, h: &Vec<Zdarzenie>, k: usize) -> (r: KrokWeryfikacji)
    requires
        k < usize::MAX,
    ensures
        r@ == weryfikacja_wideo(plik@, h@, k as int),
{
    if h.len() <= k {
        return KrokWeryfikacji::Wykonaj(Czynnosc::SprawdzFfmpeg);
    }
    if praca::udane(&h[k]) {
        if h.len() <= k + 1 {
            return KrokWeryfikacji::Wykonaj(Czynnosc::DekodujWideo(plik.to_owned()));
        }
        return KrokWeryfikacji::Werdykt(
            werdykt_silnika(
                praca::udane(&h[k + 1]),
                "pełne dekodowanie klatek wideo, bez pustych strumieni (gwarancja MOCNA)",
                "plik nie przechodzi pełnego dekodowania wideo (brak klatek lub zepsute offsety)",
            ),
        );
    }
    if h.len() <= k + 1 {
        return KrokWeryfikacji::Wykonaj(Czynnosc::SprawdzKontener(plik.to_owned()));
    }
    KrokWeryfikacji::Werdykt(werdykt_kontenera(&h[k + 1]))
}

/// The engine that judges the content of a family, where an engine does.
pub open spec fn silnik_formatu(f: Format) -> Option<Badanie> {
    match f {
        Format::Zip => Some(Badanie::ZipWpisy),
        Format::Heic => Some(Badanie::HeicPiksele),
        Format::Ts => Some(Badanie::TsPakiety),
        Format::Flv => Some(Badanie::FlvTagi),
        Format::Matroska => Some(Badanie::MkvStruktura),
        Format::Audio => Some(Badanie::IsoSciezki),
        Format::Raw => Some(Badanie::RawObraz),
        Format::Tar => Some(Badanie::TarNaglowki),
        _ => None,
    }
}

/// The verdict that an engine's answer gives on the content of a family.
pub open spec fn ocena_silnika(f: Format, h: Seq<Zdarzenie>) -> Nastepny<Werdykt> {
    let z = h[2];
    match f {
        Format::Zip => Nastepny::Koniec(
            tak_lub_nie(
                praca::powiodlo_sie(z),
                "odczyt każdego wpisu archiwum z kontrolą CRC32 (gwarancja MOCNA)"@,
                "archiwum nie przechodzi odczytu wpisów / kontroli CRC32"@,
            ),
        ),
        Format::Heic => Nastepny::Koniec(ocena_heic(z)),
        Format::Ts => Nastepny::Koniec(
            ocena_strumienia(
                z,
                "ciągłość pakietów TS bez luk i bez flag błędu transportu (gwarancja SŁABA - dowód ramowania, nie treści)"@,
                "strumień TS nadal uszkodzony: "@,
                "plik nie jest rozpoznawalnym strumieniem transportowym"@,
            ),
        ),
        Format::Flv => Nastepny::Koniec(
            ocena_strumienia(
                z,
                "domknięty łańcuch tagów FLV (gwarancja SŁABA - dowód ramowania, nie treści)"@,
                "kontener FLV nadal uszkodzony: "@,
                "plik nie jest rozpoznawalnym kontenerem FLV"@,
            ),
        ),
        Format::Matroska => if !praca::powiodlo_sie(z) {
            Nastepny::Koniec(
                Err(
                    "plik nie daje się odczytać jako Matroska (uszkodzona struktura lub ucięcie)"@,
                ),
            )
        } else if h.len() < 4 {
            Nastepny::Ruch(Ruch::Zbadaj(Badanie::MkvSumy))
        } else {
            Nastepny::Koniec(ocena_sum_matroski(h[3]))
        },
        Format::Audio => Nastepny::Koniec(
            tak_lub_nie(
                praca::powiodlo_sie(z),
                "odczyt struktury ISOBMFF z co najmniej jedną ścieżką (gwarancja SŁABA - dowód struktury kontenera, nie treści próbek)"@,
                "plik nie daje się odczytać jako kontener ISOBMFF albo nie ma ani jednej ścieżki"@,
            ),
        ),
        Format::Raw => Nastepny::Koniec(
            tak_lub_nie(
                praca::powiodlo_sie(z),
                "dekodowanie RAW przez rawloader (gwarancja MOCNA)"@,
                "plik nie daje się zdekodować jako RAW"@,
            ),
        ),
        _ => Nastepny::Koniec(
            tak_lub_nie(
                praca::powiodlo_sie(z),
                "sumy kontrolne nagłówków wpisów tar (gwarancja SŁABA - tar nie chroni danych)"@,
                "archiwum tar ma uszkodzone nagłówki lub ucięte wpisy"@,
            ),
        ),
    }
}

/// The verdict that the content alone gives, for a family that no engine judges.
pub open spec fn ocena_tresci(f: Format, b: Seq<u8>) -> Werdykt {
    match f {
        Format::Obraz => ocena_wymiarow(wymiary_obrazu(b)),
        Format::Tekst => ocena_tekstu(
            b,
            if vstd::utf8::valid_utf8(b) {
                None
            } else {
                Some(blad_utf8(b))
            },
        ),
        Format::Pdf => ocena_pdf(b),
        Format::Riff => ocena_riff(b),
        Format::Asf => ocena_asf(b),
        Format::Mp3 => ocena_mp3(b),
        _ => ocena_nieznanego(b),
    }
}

/// The content belongs to an image that cannot be decoded.
pub open spec fn odmowa_tresci(f: Format, b: Seq<u8>) -> bool {
    f == Format::Obraz && wymiary_obrazu(b) is None
}

/// The verification of a file that is there and not empty has come to an image
/// that cannot be decoded.
pub open spec fn odmowa_formatu(plik: Seq<char>, f: Format, rozmiar: u64, h: Seq<Zdarzenie>) -> bool {
    tresc(plik, rozmiar, h) matches Ok(b) && odmowa_tresci(f, b)
}

/// The verification of the repaired file at `plik` has come to an image that
/// cannot be decoded.
pub open spec fn odmowa_dekodera(plik: Seq<char>, h: Seq<Zdarzenie>) -> bool {
    &&& h.len() > 0
    &&& h[0] matches Zdarzenie::Rozmiar(Ok(n))
    &&& n > 0
    &&& odmowa_formatu(plik, format_rozszerzenia(male_rozszerzenie(plik)), n, h)
}

/// The verification of a file that is there and not empty.
pub open spec fn weryfikacja_formatu(
    plik: Seq<char>,
    f: Format,
    rozmiar: u64,
    h: Seq<Zdarzenie>,
) -> Nastepny<Werdykt> {
    if f == Format::Baza {
        weryfikacja_bazy(plik, h)
    } else if f == Format::Wideo {
        weryfikacja_wideo(plik, h, 1)
    } else {
        match tresc(plik, rozmiar, h) {
            Err(k) => k,
            Ok(b) => match silnik_formatu(f) {
                Some(s) => if h.len() < 3 {
                    Nastepny::Ruch(Ruch::Zbadaj(s))
                } else {
                    ocena_silnika(f, h)
                },
                None => Nastepny::Koniec(ocena_tresci(f, b)),
            },
        }
    }
}

/// The extension of a path in lower case; empty where there is none.
pub open spec fn male_rozszerzenie(plik: Seq<char>) -> Seq<char> {
    tekst::male_litery(
        match sciezka::rozszerzenie(plik) {
            Some(e) => e,
            None => ""@,
        },
    )
}

/// The verification of the repaired file at `plik`.
pub open spec fn weryfikacja_pliku(plik: Seq<char>, h: Seq<Zdarzenie>) -> Nastepny<Werdykt> {
    if h.len() == 0 {
        Nastepny::Ruch(Ruch::Zmierz(plik))
    } else {
        match h[0] {
            Zdarzenie::Rozmiar(Ok(n)) => if n == 0 {
                Nastepny::Koniec(Err("naprawiony plik jest PUSTY (0 bajtów)"@))
            } else {
                weryfikacja_formatu(plik, format_rozszerzenia(male_rozszerzenie(plik)), n, h)
            },
            Zdarzenie::Rozmiar(Err(e)) => Nastepny::Koniec(
                Err("naprawiony plik nie istnieje lub jest nieczytelny: "@ + e@),
            ),
            _ => Nastepny::Koniec(Err("naprawiony plik nie istnieje lub jest nieczytelny: "@)),
        }
    }
}

/// The next step of what an engine decides on the content of a family.
fn krok_silnika(f: Format, h: &Vec<Zdarzenie>) -> (r: KrokWeryfikacji)
    requires
        h@.len() >= 3,
        silnik_formatu(f) is Some,
    ensures
        r@ == ocena_silnika(f, h@),
{
    let z = &h[2];
    match f {
        Format::Zip => KrokWeryfikacji::Werdykt(
            werdykt_silnika(
                praca::udane(z),
                "odczyt każdego wpisu archiwum z kontrolą CRC32 (gwarancja MOCNA)",
                "archiwum nie przechodzi odczytu wpisów / kontroli CRC32",
            ),
        ),
        Format::Heic => KrokWeryfikacji::Werdykt(werdykt_heic(z)),
        Format::Ts => KrokWeryfikacji::Werdykt(
            werdykt_strumienia(
                z,
                "ciągłość pakietów TS bez luk i bez flag błędu transportu (gwarancja SŁABA - dowód ramowania, nie treści)",
                "strumień TS nadal uszkodzony: ",
                "plik nie jest rozpoznawalnym strumieniem transportowym",
            ),
        ),
        Format::Flv => KrokWeryfikacji::Werdykt(
            werdykt_strumienia(
                z,
                "domknięty łańcuch tagów FLV (gwarancja SŁABA - dowód ramowania, nie treści)",
                "kontener FLV nadal uszkodzony: ",
                "plik nie jest rozpoznawalnym kontenerem FLV",
            ),
        ),
        Format::Matroska => {
            if !praca::udane(z) {
                KrokWeryfikacji::Werdykt(
                    Err(
                        "plik nie daje się odczytać jako Matroska (uszkodzona struktura lub ucięcie)".to_owned(),
                    ),
                )
            } else if h.len() < 4 {
                KrokWeryfikacji::Wykonaj(Czynnosc::Zbadaj(Badanie::MkvSumy))
            } else {
                KrokWeryfikacji::Werdykt(werdykt_sum_matroski(&h[3]))
            }
        },
        Format::Audio => KrokWeryfikacji::Werdykt(
            werdykt_silnika(
                praca::udane(z),
                "odczyt struktury ISOBMFF z co najmniej jedną ścieżką (gwarancja SŁABA - dowód struktury kontenera, nie treści próbek)",
                "plik nie daje się odczytać jako kontener ISOBMFF albo nie ma ani jednej ścieżki",
            ),
        ),
        Format::Raw => KrokWeryfikacji::Werdykt(
            werdykt_silnika(
                praca::udane(z),
                "dekodowanie RAW przez rawloader (gwarancja MOCNA)",
                "plik nie daje się zdekodować jako RAW",
            ),
        ),
        _ => KrokWeryfikacji::Werdykt(
            werdykt_silnika(
                praca::udane(z),
                "sumy kontrolne nagłówków wpisów tar (gwarancja SŁABA - tar nie chroni danych)",
                "archiwum tar ma uszkodzone nagłówki lub ucięte wpisy",
            ),
        ),
    }
}

/// The engine that judges the content of a family, where an engine does.
fn wybierz_silnik(f: Format) -> (r: Option<Badanie>)
    ensures
        r == silnik_formatu(f),
{
    match f {
        Format::Zip => Some(Badanie::ZipWpisy),
        Format::Heic => Some(Badanie::HeicPiksele),
        Format::Ts => Some(Badanie::TsPakiety),
        Format::Flv => Some(Badanie::FlvTagi),
        Format::Matroska => Some(Badanie::MkvStruktura),
        Format::Audio => Some(Badanie::IsoSciezki),
        Format::Raw => Some(Badanie::RawObraz),
        Format::Tar => Some(Badanie::TarNaglowki),
        _ => None,
    }
}

/// The verdict that the content alone gives, for a family that no engine judges.
pub fn werdykt_tresci(f: Format, b: &Vec<u8>) -> (r: WynikWeryfikacji)
    ensures
        !odmowa_tresci(f, b@) ==> praca::werdykt(r) == ocena_tresci(f, b@),
        odmowa_tresci(f, b@) ==> odrzuca_obraz(praca::werdykt(r), b),
{
    match f {
        Format::Obraz => {
            let d = zdekoduj_obraz(b);
            assert(d matches Err(e) ==> slowa_dekodera(b, e));
            werdykt_obrazu(&d)
        },
        Format::Tekst => werdykt_tekstu(b, &sprawdz_utf8(b)),
        Format::Pdf => werdykt_pdf(b),
        Format::Riff => werdykt_riff(b),
        Format::Asf => werdykt_asf(b),
        Format::Mp3 => werdykt_mp3(b),
        _ => werdykt_nieznanego(b),
    }
}

/// The next step of the verification of a file that is there and not empty.
pub fn weryfikuj_format(plik: &str, f: Format, rozmiar: u64, h: &Vec<Zdarzenie>) -> (r:
    KrokWeryfikacji)
    requires
        h@.len() >= 1,
    ensures
        !odmowa_formatu(plik@, f, rozmiar, h@) ==> r@ == weryfikacja_formatu(plik@, f, rozmiar, h@),
        odmowa_formatu(plik@, f, rozmiar, h@) ==> niedekodowalny(r@, h@),
{
    match f {
        Format::Baza => weryfikuj_sqlite(plik, h),
        Format::Wideo => weryfikuj_wideo(plik, h, 1),
        _ => match wczytaj_do_weryfikacji(plik, rozmiar, h) {
            Err(k) => k,
            Ok(b) => match wybierz_silnik(f) {
                Some(s) => {
                    if h.len() < 3 {
                        KrokWeryfikacji::Wykonaj(Czynnosc::Zbadaj(s))
                    } else {
                        krok_silnika(f, h)
                    }
                },
                None => KrokWeryfikacji::Werdykt(werdykt_tresci(f, b)),
            },
        },
    }
}

/// Verifies a repaired file by the method that fits its extension: the next
/// piece of work, or the verdict. Where an image cannot be decoded, the reason of
/// the refusal ends in the decoder's own words.
pub fn weryfikuj_naprawiony_plik(plik: &str, h: &Vec<Zdarzenie>) -> (r: KrokWeryfikacji)
    ensures
        !odmowa_dekodera(plik@, h@) ==> r@ == weryfikacja_pliku(plik@, h@),
        odmowa_dekodera(plik@, h@) ==> niedekodowalny(r@, h@),
{
    if h.len() == 0 {
        return KrokWeryfikacji::Wykonaj(Czynnosc::Zmierz(plik.to_owned()));
    }
    match &h[0] {
        Zdarzenie::Rozmiar(Ok(n)) => {
            if *n == 0 {
                return KrokWeryfikacji::Werdykt(
                    Err("naprawiony plik jest PUSTY (0 bajtów)".to_owned()),
                );
            }
            let e = match sciezka::rozszerzenie_pliku(plik) {
                Some(e) => e,
                None => "".to_owned(),
            };
            let male = tekst::na_male_litery(e.as_str());
            weryfikuj_format(plik, rozpoznaj_format(male.as_str()), *n, h)
        },
        Zdarzenie::Rozmiar(Err(e)) => {
            let mut s = "naprawiony plik nie istnieje lub jest nieczytelny: ".to_owned();
            s.append(e.as_str());
            KrokWeryfikacji::Werdykt(Err(s))
        },
        _ => KrokWeryfikacji::Werdykt(
            Err("naprawiony plik nie istnieje lub jest nieczytelny: ".to_owned()),
        ),
    }
}

/// What an engine says of the whole content of the file at `plik`, or what
/// comes before it, or instead of it.
pub open spec fn badanie_pliku(plik: Seq<char>, b: Badanie, h: Seq<Zdarzenie>) -> Result<
    Zdarzenie,
    Nastepny<Werdykt>,
> {
    if h.len() < 1 {
        Err(Nastepny::Ruch(Ruch::Wczytaj(plik)))
    } else {
        match h[0] {
            Zdarzenie::Bajty(Ok(_)) => if h.len() < 2 {
                Err(Nastepny::Ruch(Ruch::Zbadaj(b)))
            } else {
                Ok(h[1])
            },
            Zdarzenie::Bajty(Err(e)) => Err(
                Nastepny::Koniec(Err("nie udało się odczytać wyniku: "@ + e@)),
            ),
            _ => Err(Nastepny::Koniec(Err("nie udało się odczytać wyniku: "@))),
        }
    }
}

/// What an engine says of the whole content of a file, or what comes instead.
pub fn zbadaj_plik<'a>(plik: &str, b: Badanie, h: &'a Vec<Zdarzenie>) -> (r: Result<
    &'a Zdarzenie,
    KrokWeryfikacji,
>)
    ensures
        match r {
            Ok(z) => badanie_pliku(plik@, b, h@) == Ok::<Zdarzenie, Nastepny<Werdykt>>(*z),
            Err(k) => badanie_pliku(plik@, b, h@) == Err::<Zdarzenie, Nastepny<Werdykt>>(k@),
        },
{
    if h.len() < 1 {
        return Err(KrokWeryfikacji::Wykonaj(Czynnosc::Wczytaj(plik.to_owned())));
    }
    match &h[0] {
        Zdarzenie::Bajty(Ok(_)) => {
            if h.len() < 2 {
                Err(KrokWeryfikacji::Wykonaj(Czynnosc::Zbadaj(b)))
            } else {
                Ok(&h[1])
            }
        },
        Zdarzenie::Bajty(Err(e)) => {
            let mut s = "nie udało się odczytać wyniku: ".to_owned();
            s.append(e.as_str());
            Err(KrokWeryfikacji::Werdykt(Err(s)))
        },
        _ => Err(KrokWeryfikacji::Werdykt(Err("nie udało się odczytać wyniku: ".to_owned()))),
    }
}

/// The verdict on the pieces of a container: whole, cut off, or no such container.
pub open spec fn ocena_kawalkow(
    z: Zdarzenie,
    dowod: Seq<char>,
    uciety: Seq<char>,
    obcy: Seq<char>,
) -> Werdykt {
    match z {
        Zdarzenie::Trojstan(Some(true)) => Ok(dowod),
        Zdarzenie::Trojstan(Some(false)) => Err(uciety),
        _ => Err(obcy),
    }
}

/// The verdict on the pieces of a container.
pub fn werdykt_kawalkow(z: &Zdarzenie, dowod: &'static str, uciety: &str, obcy: &str) -> (r:
    WynikWeryfikacji)
    ensures
        praca::werdykt(r) == ocena_kawalkow(*z, dowod@, uciety@, obcy@),
{
    match z {
        Zdarzenie::Trojstan(Some(true)) => Ok(dowod),
        Zdarzenie::Trojstan(Some(false)) => Err(uciety.to_owned()),
        _ => Err(obcy.to_owned()),
    }
}

} // verus!
