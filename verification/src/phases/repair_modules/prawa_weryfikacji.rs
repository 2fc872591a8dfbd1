//! Laws of the verification of repaired files.

use vstd::prelude::*;

use crate::bajty;
use crate::phases::repair_modules::praca;
use crate::phases::repair_modules::praca::{Nastepny, Ruch, Werdykt, Zdarzenie};
use crate::phases::repair_modules::weryfikacja;
use crate::phases::repair_modules::weryfikacja::{Format, LIMIT_WERYFIKACJI_W_RAM};
use crate::tekst;

verus! {

/// The work changes what is on the disk.
pub open spec fn zmienia_dysk(r: Ruch) -> bool {
    match r {
        Ruch::UtworzKatalog(_) | Ruch::UtworzPlik(_) | Ruch::Zapisz(_, _) | Ruch::Kopiuj(_, _)
        | Ruch::Przenies(_, _) | Ruch::Usun(_) | Ruch::Zszyj | Ruch::ScalWal(_)
        | Ruch::Uruchom(_, _, _, _) | Ruch::Autopilot(_) => true,
        _ => false,
    }
}

/// A verification reaches its verdict after at most six answers, whatever they are.
pub proof fn weryfikacja_konczy_sie(plik: Seq<char>, h: Seq<Zdarzenie>)
    requires
        h.len() >= 6,
    ensures
        weryfikacja::weryfikacja_pliku(plik, h) is Koniec,
{
}

/// A verification leaves no trace: the one change it asks for is to remove a
/// companion file of a database that was not there before the check.
pub proof fn weryfikacja_nie_zostawia_sladow(plik: Seq<char>, h: Seq<Zdarzenie>, r: Ruch)
    requires
        weryfikacja::weryfikacja_pliku(plik, h) == Nastepny::<Werdykt>::Ruch(r),
        zmienia_dysk(r),
    ensures
        h.len() >= 4,
        (r == Ruch::Usun(plik + "-wal"@) && !praca::powiodlo_sie(h[1])) || (r == Ruch::Usun(
            plik + "-shm"@,
        ) && !praca::powiodlo_sie(h[2])),
{
}

/// Before a database that opened gets its verdict, every companion file that
/// was not there before has been removed.
pub proof fn baza_posprzatana_przed_werdyktem(plik: Seq<char>, h: Seq<Zdarzenie>, w: Werdykt, i: int)
    requires
        weryfikacja::weryfikacja_bazy(plik, h) == Nastepny::<Werdykt>::Koniec(w),
        h[3] matches Zdarzenie::Baza(b) && b !is Nieotwarta,
        0 <= i < weryfikacja::slady(plik, praca::powiodlo_sie(h[1]), praca::powiodlo_sie(h[2])).len(),
    ensures
        4 + i < h.len(),
        weryfikacja::weryfikacja_bazy(plik, h.take(4 + i)) == Nastepny::<Werdykt>::Ruch(
            Ruch::Usun(
                weryfikacja::slady(
                    plik,
                    praca::powiodlo_sie(h[1]),
                    praca::powiodlo_sie(h[2]),
                )[i],
            ),
        ),
{
    let g = h.take(4 + i);
    assert(g[1] == h[1] && g[2] == h[2] && g[3] == h[3]);
}

/// A file that is missing, unreadable or empty is never accepted.
pub proof fn przyjety_plik_jest_niepusty(plik: Seq<char>, h: Seq<Zdarzenie>, d: Seq<char>)
    requires
        weryfikacja::weryfikacja_pliku(plik, h) == Nastepny::<Werdykt>::Koniec(Ok(d)),
    ensures
        h.len() > 0,
        h[0] matches Zdarzenie::Rozmiar(Ok(n)) && n > 0,
{
}

/// No file above the memory limit is read whole.
pub proof fn limit_pamieci_jest_pilnowany(plik: Seq<char>, h: Seq<Zdarzenie>, p: Seq<char>)
    requires
        weryfikacja::weryfikacja_pliku(plik, h) == Nastepny::<Werdykt>::Ruch(Ruch::Wczytaj(p)),
    ensures
        p == plik,
        h.len() > 0,
        h[0] matches Zdarzenie::Rozmiar(Ok(n)) && 0 < n <= LIMIT_WERYFIKACJI_W_RAM,
{
}

/// The acceptance names a strong guarantee and no weak one.
pub open spec fn mocna(d: Seq<char>) -> bool {
    tekst::zawiera_tekst(d, "gwarancja MOCNA"@) && !tekst::zawiera_tekst(d, "SŁABA"@)
}

/// The acceptance names a weak guarantee and no strong one.
pub open spec fn slaba(d: Seq<char>) -> bool {
    tekst::zawiera_tekst(d, "gwarancja SŁABA"@) && !tekst::zawiera_tekst(d, "MOCNA"@)
}

/// Exactly one of the two labels of a guarantee stands in the text.
pub open spec fn jedna_etykieta(d: Seq<char>) -> bool {
    tekst::zawiera_tekst(d, "MOCNA"@) != tekst::zawiera_tekst(d, "SŁABA"@)
}

/// A text that names one guarantee and not the other holds exactly one label.
pub proof fn nazwana_raz(d: Seq<char>)
    requires
        mocna(d) || slaba(d),
    ensures
        jedna_etykieta(d),
{
    reveal_strlit("gwarancja MOCNA");
    reveal_strlit("gwarancja SŁABA");
    reveal_strlit("MOCNA");
    reveal_strlit("SŁABA");
    assert("gwarancja MOCNA"@.subrange(10, 15) =~= "MOCNA"@);
    assert("gwarancja SŁABA"@.subrange(10, 15) =~= "SŁABA"@);
    if mocna(d) {
        koncowka_wystepuje(d, "gwarancja MOCNA"@, "MOCNA"@, 10);
    } else {
        koncowka_wystepuje(d, "gwarancja SŁABA"@, "SŁABA"@, 10);
    }
}

pub(crate) proof fn koncowka_wystepuje(d: Seq<char>, w: Seq<char>, k: Seq<char>, od: int)
    requires
        tekst::zawiera_tekst(d, w),
        0 <= od <= w.len(),
        w.subrange(od, w.len() as int) == k,
    ensures
        tekst::zawiera_tekst(d, k),
{
    let i = choose|i: int| tekst::wystepuje(d, w, i);
    assert(d.subrange(i + od, i + od + k.len()) =~= d.subrange(i, i + w.len()).subrange(
        od,
        w.len() as int,
    ));
    assert(tekst::wystepuje(d, k, i + od));
}

/// Every acceptance names the strength of its guarantee and holds exactly one of
/// the two labels, so that the log never passes a weak proof for a strong one.
pub proof fn kazde_przyjecie_nazywa_gwarancje(plik: Seq<char>, h: Seq<Zdarzenie>, d: Seq<char>)
    requires
        weryfikacja::weryfikacja_pliku(plik, h) == Nastepny::<Werdykt>::Koniec(Ok(d)),
    ensures
        mocna(d) || slaba(d),
        jedna_etykieta(d),
{
    gwarancja_limitu();
    gwarancja_zip();
    gwarancja_heic();
    gwarancja_heic_struktury();
    gwarancja_ts();
    gwarancja_flv();
    gwarancja_mkv();
    gwarancja_mkv_struktury();
    gwarancja_wideo();
    gwarancja_kontenera();
    gwarancja_audio();
    gwarancja_obrazu();
    gwarancja_raw();
    gwarancja_tar();
    gwarancja_tekstu();
    gwarancja_pdf();
    gwarancja_riff();
    gwarancja_asf();
    gwarancja_mp3();
    gwarancja_nieznanego();
    gwarancja_bazy();
    nazwana_raz(d);
}

/// An acceptance of a video names the strength of its guarantee and holds exactly
/// one of the two labels.
pub proof fn wideo_nazywa_gwarancje(plik: Seq<char>, h: Seq<Zdarzenie>, d: Seq<char>)
    requires
        weryfikacja::weryfikacja_wideo(plik, h, 0) == Nastepny::<Werdykt>::Koniec(Ok(d)),
    ensures
        mocna(d) || slaba(d),
        jedna_etykieta(d),
{
    gwarancja_wideo();
    gwarancja_kontenera();
    nazwana_raz(d);
}

/// A family whose check proves structure, framing or a header alone yields a weak
/// guarantee and never a strong one.
pub proof fn dowod_struktury_jest_slaby(
    plik: Seq<char>,
    f: Format,
    rozmiar: u64,
    h: Seq<Zdarzenie>,
    d: Seq<char>,
)
    requires
        h.len() >= 1,
        f == Format::Ts || f == Format::Flv || f == Format::Audio || f == Format::Tar || f
            == Format::Pdf || f == Format::Riff || f == Format::Asf || f == Format::Mp3 || f
            == Format::Inny,
        weryfikacja::weryfikacja_formatu(plik, f, rozmiar, h) == Nastepny::<Werdykt>::Koniec(Ok(d)),
    ensures
        tekst::zawiera_tekst(d, "gwarancja SŁABA"@),
        !tekst::zawiera_tekst(d, "MOCNA"@),
{
    gwarancja_limitu();
    gwarancja_ts();
    gwarancja_flv();
    gwarancja_audio();
    gwarancja_tar();
    gwarancja_pdf();
    gwarancja_riff();
    gwarancja_asf();
    gwarancja_mp3();
    gwarancja_nieznanego();
}

/// A default verification accepts no RIFF, ASF or MP3 file without its header.
pub proof fn bez_naglowka_nie_ma_przyjecia(
    plik: Seq<char>,
    f: Format,
    rozmiar: u64,
    h: Seq<Zdarzenie>,
    b: Seq<u8>,
)
    requires
        f == Format::Riff && !weryfikacja::naglowek_riff(b) || f == Format::Asf
            && !bajty::zaczyna_sie(b, weryfikacja::guid_asf()) || f == Format::Mp3
            && !bajty::zaczyna_sie(b, weryfikacja::znak_id3())
            && !weryfikacja::synchronizacja_mpeg(b),
        weryfikacja::tresc(plik, rozmiar, h) == Ok::<Seq<u8>, Nastepny<Werdykt>>(b),
    ensures
        weryfikacja::weryfikacja_formatu(plik, f, rozmiar, h) matches Nastepny::Koniec(w) && w is Err,
{
}

/// Repair and verification agree on what a video container is: the check by
/// decoding covers exactly the extensions that the container engines repair.
pub proof fn lista_wideo_pokrywa_sie_z_weryfikacja(e: Seq<char>)
    ensures
        weryfikacja::format_rozszerzenia(e) == Format::Wideo <==> weryfikacja::rodzina_mp4(e),
{
    reveal_strlit("db");
    reveal_strlit("sqlite");
    reveal_strlit("sqlite3");
    reveal_strlit("zip");
    reveal_strlit("docx");
    reveal_strlit("xlsx");
    reveal_strlit("pptx");
    reveal_strlit("odt");
    reveal_strlit("ods");
    reveal_strlit("odp");
    reveal_strlit("epub");
    reveal_strlit("jar");
    reveal_strlit("apk");
    reveal_strlit("heic");
    reveal_strlit("heif");
    reveal_strlit("avif");
    reveal_strlit("ts");
    reveal_strlit("m2ts");
    reveal_strlit("mts");
    reveal_strlit("flv");
    reveal_strlit("mkv");
    reveal_strlit("webm");
    reveal_strlit("mka");
    reveal_strlit("mp4");
    reveal_strlit("mov");
    reveal_strlit("m4v");
    reveal_strlit("3gp");
    reveal_strlit("3g2");
    reveal_strlit("f4v");
    if e == "mp4"@ || e == "mov"@ || e == "m4v"@ || e == "3gp"@ || e == "3g2"@ || e == "f4v"@ {
        assert(e.len() == 3);
        assert(e[0] == 'm' || e[0] == '3' || e[0] == 'f');
        assert(e[1] == 'p' || e[1] == 'o' || e[1] == '4' || e[1] == 'g');
        assert(e[2] == '4' || e[2] == 'v' || e[2] == 'p' || e[2] == '2');
    }
}

/// What the proof of every method is called.
pub(crate) proof fn gwarancje()
    ensures
        slaba("plik przekracza limit weryfikacji w RAM - sprawdzono tylko, że jest niepusty (gwarancja SŁABA)"@),
        mocna("odczyt każdego wpisu archiwum z kontrolą CRC32 (gwarancja MOCNA)"@),
        mocna("pełne dekodowanie pikseli przez libheif (gwarancja MOCNA)"@),
        slaba("brak pluginu kodeka - sprawdzono tylko strukturę kontenera HEIF (gwarancja SŁABA)"@),
        slaba("ciągłość pakietów TS bez luk i bez flag błędu transportu (gwarancja SŁABA - dowód ramowania, nie treści)"@),
        slaba("domknięty łańcuch tagów FLV (gwarancja SŁABA - dowód ramowania, nie treści)"@),
        mocna("odczyt struktury Matroski z kontrolą CRC-32 elementów nadrzędnych (gwarancja MOCNA)"@),
        slaba("odczyt struktury Matroski (gwarancja SŁABA - kontener nie zawiera sum CRC-32)"@),
        mocna("pełne dekodowanie klatek wideo, bez pustych strumieni (gwarancja MOCNA)"@),
        slaba("brak ffmpeg - sprawdzono strukturę kontenera: moov i mdat obecne, offsety w granicach pliku (gwarancja SŁABA)"@),
        slaba("odczyt struktury ISOBMFF z co najmniej jedną ścieżką (gwarancja SŁABA - dowód struktury kontenera, nie treści próbek)"@),
        mocna("realne dekodowanie pikseli (gwarancja MOCNA)"@),
        mocna("dekodowanie RAW przez rawloader (gwarancja MOCNA)"@),
        slaba("sumy kontrolne nagłówków wpisów tar (gwarancja SŁABA - tar nie chroni danych)"@),
        mocna("poprawny UTF-8 bez bajtów NULL (gwarancja MOCNA dla tekstu)"@),
        slaba("nagłówek %PDF- i znacznik %%EOF na miejscu (gwarancja SŁABA - bez parsowania obiektów)"@),
        slaba("nagłówek RIFF na miejscu (gwarancja SŁABA - sprawdzono tylko pierwsze 12 bajtów)"@),
        slaba("GUID nagłówka ASF na miejscu (gwarancja SŁABA - sprawdzono tylko pierwsze 16 bajtów)"@),
        slaba("tag ID3 albo synchronizacja ramki MPEG audio na początku pliku (gwarancja SŁABA)"@),
        slaba("brak metody weryfikacji dla tego formatu - sprawdzono niepustość i brak samych zer (gwarancja SŁABA)"@),
        mocna("PRAGMA quick_check bazy SQLite (gwarancja MOCNA)"@),
{
    gwarancja_limitu();
    gwarancja_zip();
    gwarancja_heic();
    gwarancja_heic_struktury();
    gwarancja_ts();
    gwarancja_flv();
    gwarancja_mkv();
    gwarancja_mkv_struktury();
    gwarancja_wideo();
    gwarancja_kontenera();
    gwarancja_audio();
    gwarancja_obrazu();
    gwarancja_raw();
    gwarancja_tar();
    gwarancja_tekstu();
    gwarancja_pdf();
    gwarancja_riff();
    gwarancja_asf();
    gwarancja_mp3();
    gwarancja_nieznanego();
    gwarancja_bazy();
}

proof fn gwarancja_limitu()
    ensures
        slaba("plik przekracza limit weryfikacji w RAM - sprawdzono tylko, że jest niepusty (gwarancja SŁABA)"@),
{
    let t = "plik przekracza limit weryfikacji w RAM - sprawdzono tylko, że jest niepusty (gwarancja SŁABA)"@;
    reveal_strlit("plik przekracza limit weryfikacji w RAM - sprawdzono tylko, że jest niepusty (gwarancja SŁABA)");
    reveal_strlit("gwarancja SŁABA");
    reveal_strlit("MOCNA");
    assert(t.subrange(78, 93) =~= "gwarancja SŁABA"@);
    assert(tekst::wystepuje(t, "gwarancja SŁABA"@, 78));
    reveal_with_fuel(tekst::bez_znaku, 42);
    assert(tekst::bez_znaku(t, 'O', 40));
    assert(tekst::bez_znaku(t, 'O', 80));
    tekst::bez_znaku_nie_zawiera(t, "MOCNA"@, 1);
}

proof fn gwarancja_zip()
    ensures
        mocna("odczyt każdego wpisu archiwum z kontrolą CRC32 (gwarancja MOCNA)"@),
{
    let t = "odczyt każdego wpisu archiwum z kontrolą CRC32 (gwarancja MOCNA)"@;
    reveal_strlit("odczyt każdego wpisu archiwum z kontrolą CRC32 (gwarancja MOCNA)");
    reveal_strlit("gwarancja MOCNA");
    reveal_strlit("SŁABA");
    assert(t.subrange(48, 63) =~= "gwarancja MOCNA"@);
    assert(tekst::wystepuje(t, "gwarancja MOCNA"@, 48));
    reveal_with_fuel(tekst::bez_znaku, 42);
    assert(tekst::bez_znaku(t, 'S', 40));
    tekst::bez_znaku_nie_zawiera(t, "SŁABA"@, 0);
}

proof fn gwarancja_heic()
    ensures
        mocna("pełne dekodowanie pikseli przez libheif (gwarancja MOCNA)"@),
{
    let t = "pełne dekodowanie pikseli przez libheif (gwarancja MOCNA)"@;
    reveal_strlit("pełne dekodowanie pikseli przez libheif (gwarancja MOCNA)");
    reveal_strlit("gwarancja MOCNA");
    reveal_strlit("SŁABA");
    assert(t.subrange(41, 56) =~= "gwarancja MOCNA"@);
    assert(tekst::wystepuje(t, "gwarancja MOCNA"@, 41));
    reveal_with_fuel(tekst::bez_znaku, 42);
    assert(tekst::bez_znaku(t, 'S', 40));
    tekst::bez_znaku_nie_zawiera(t, "SŁABA"@, 0);
}

proof fn gwarancja_heic_struktury()
    ensures
        slaba("brak pluginu kodeka - sprawdzono tylko strukturę kontenera HEIF (gwarancja SŁABA)"@),
{
    let t = "brak pluginu kodeka - sprawdzono tylko strukturę kontenera HEIF (gwarancja SŁABA)"@;
    reveal_strlit("brak pluginu kodeka - sprawdzono tylko strukturę kontenera HEIF (gwarancja SŁABA)");
    reveal_strlit("gwarancja SŁABA");
    reveal_strlit("MOCNA");
    assert(t.subrange(65, 80) =~= "gwarancja SŁABA"@);
    assert(tekst::wystepuje(t, "gwarancja SŁABA"@, 65));
    reveal_with_fuel(tekst::bez_znaku, 42);
    assert(tekst::bez_znaku(t, 'M', 40));
    assert(tekst::bez_znaku(t, 'M', 80));
    tekst::bez_znaku_nie_zawiera(t, "MOCNA"@, 0);
}

proof fn gwarancja_ts()
    ensures
        slaba("ciągłość pakietów TS bez luk i bez flag błędu transportu (gwarancja SŁABA - dowód ramowania, nie treści)"@),
{
    let t = "ciągłość pakietów TS bez luk i bez flag błędu transportu (gwarancja SŁABA - dowód ramowania, nie treści)"@;
    reveal_strlit("ciągłość pakietów TS bez luk i bez flag błędu transportu (gwarancja SŁABA - dowód ramowania, nie treści)");
    reveal_strlit("gwarancja SŁABA");
    reveal_strlit("MOCNA");
    assert(t.subrange(58, 73) =~= "gwarancja SŁABA"@);
    assert(tekst::wystepuje(t, "gwarancja SŁABA"@, 58));
    reveal_with_fuel(tekst::bez_znaku, 42);
    assert(tekst::bez_znaku(t, 'M', 40));
    assert(tekst::bez_znaku(t, 'M', 80));
    tekst::bez_znaku_nie_zawiera(t, "MOCNA"@, 0);
}

proof fn gwarancja_flv()
    ensures
        slaba("domknięty łańcuch tagów FLV (gwarancja SŁABA - dowód ramowania, nie treści)"@),
{
    let t = "domknięty łańcuch tagów FLV (gwarancja SŁABA - dowód ramowania, nie treści)"@;
    reveal_strlit("domknięty łańcuch tagów FLV (gwarancja SŁABA - dowód ramowania, nie treści)");
    reveal_strlit("gwarancja SŁABA");
    reveal_strlit("MOCNA");
    assert(t.subrange(29, 44) =~= "gwarancja SŁABA"@);
    assert(tekst::wystepuje(t, "gwarancja SŁABA"@, 29));
    reveal_with_fuel(tekst::bez_znaku, 42);
    assert(tekst::bez_znaku(t, 'M', 40));
    tekst::bez_znaku_nie_zawiera(t, "MOCNA"@, 0);
}

proof fn gwarancja_mkv()
    ensures
        mocna("odczyt struktury Matroski z kontrolą CRC-32 elementów nadrzędnych (gwarancja MOCNA)"@),
{
    let t = "odczyt struktury Matroski z kontrolą CRC-32 elementów nadrzędnych (gwarancja MOCNA)"@;
    reveal_strlit("odczyt struktury Matroski z kontrolą CRC-32 elementów nadrzędnych (gwarancja MOCNA)");
    reveal_strlit("gwarancja MOCNA");
    reveal_strlit("SŁABA");
    assert(t.subrange(67, 82) =~= "gwarancja MOCNA"@);
    assert(tekst::wystepuje(t, "gwarancja MOCNA"@, 67));
    reveal_with_fuel(tekst::bez_znaku, 42);
    assert(tekst::bez_znaku(t, 'S', 40));
    assert(tekst::bez_znaku(t, 'S', 80));
    tekst::bez_znaku_nie_zawiera(t, "SŁABA"@, 0);
}

proof fn gwarancja_mkv_struktury()
    ensures
        slaba("odczyt struktury Matroski (gwarancja SŁABA - kontener nie zawiera sum CRC-32)"@),
{
    let t = "odczyt struktury Matroski (gwarancja SŁABA - kontener nie zawiera sum CRC-32)"@;
    reveal_strlit("odczyt struktury Matroski (gwarancja SŁABA - kontener nie zawiera sum CRC-32)");
    reveal_strlit("gwarancja SŁABA");
    reveal_strlit("MOCNA");
    assert(t.subrange(27, 42) =~= "gwarancja SŁABA"@);
    assert(tekst::wystepuje(t, "gwarancja SŁABA"@, 27));
    reveal_with_fuel(tekst::bez_znaku, 42);
    assert(tekst::bez_znaku(t, 'O', 40));
    tekst::bez_znaku_nie_zawiera(t, "MOCNA"@, 1);
}

pub(crate) proof fn gwarancja_wideo()
    ensures
        mocna("pełne dekodowanie klatek wideo, bez pustych strumieni (gwarancja MOCNA)"@),
{
    let t = "pełne dekodowanie klatek wideo, bez pustych strumieni (gwarancja MOCNA)"@;
    reveal_strlit("pełne dekodowanie klatek wideo, bez pustych strumieni (gwarancja MOCNA)");
    reveal_strlit("gwarancja MOCNA");
    reveal_strlit("SŁABA");
    assert(t.subrange(55, 70) =~= "gwarancja MOCNA"@);
    assert(tekst::wystepuje(t, "gwarancja MOCNA"@, 55));
    reveal_with_fuel(tekst::bez_znaku, 42);
    assert(tekst::bez_znaku(t, 'S', 40));
    tekst::bez_znaku_nie_zawiera(t, "SŁABA"@, 0);
}

pub(crate) proof fn gwarancja_kontenera()
    ensures
        slaba("brak ffmpeg - sprawdzono strukturę kontenera: moov i mdat obecne, offsety w granicach pliku (gwarancja SŁABA)"@),
{
    let t = "brak ffmpeg - sprawdzono strukturę kontenera: moov i mdat obecne, offsety w granicach pliku (gwarancja SŁABA)"@;
    reveal_strlit("brak ffmpeg - sprawdzono strukturę kontenera: moov i mdat obecne, offsety w granicach pliku (gwarancja SŁABA)");
    reveal_strlit("gwarancja SŁABA");
    reveal_strlit("MOCNA");
    assert(t.subrange(93, 108) =~= "gwarancja SŁABA"@);
    assert(tekst::wystepuje(t, "gwarancja SŁABA"@, 93));
    reveal_with_fuel(tekst::bez_znaku, 42);
    assert(tekst::bez_znaku(t, 'M', 40));
    assert(tekst::bez_znaku(t, 'M', 80));
    tekst::bez_znaku_nie_zawiera(t, "MOCNA"@, 0);
}

proof fn gwarancja_audio()
    ensures
        slaba("odczyt struktury ISOBMFF z co najmniej jedną ścieżką (gwarancja SŁABA - dowód struktury kontenera, nie treści próbek)"@),
{
    let t = "odczyt struktury ISOBMFF z co najmniej jedną ścieżką (gwarancja SŁABA - dowód struktury kontenera, nie treści próbek)"@;
    reveal_strlit("odczyt struktury ISOBMFF z co najmniej jedną ścieżką (gwarancja SŁABA - dowód struktury kontenera, nie treści próbek)");
    reveal_strlit("gwarancja SŁABA");
    reveal_strlit("MOCNA");
    assert(t.subrange(54, 69) =~= "gwarancja SŁABA"@);
    assert(tekst::wystepuje(t, "gwarancja SŁABA"@, 54));
    reveal_with_fuel(tekst::bez_znaku, 42);
    assert(tekst::bez_znaku(t, 'C', 40));
    assert(tekst::bez_znaku(t, 'C', 80));
    tekst::bez_znaku_nie_zawiera(t, "MOCNA"@, 2);
}

proof fn gwarancja_obrazu()
    ensures
        mocna("realne dekodowanie pikseli (gwarancja MOCNA)"@),
{
    let t = "realne dekodowanie pikseli (gwarancja MOCNA)"@;
    reveal_strlit("realne dekodowanie pikseli (gwarancja MOCNA)");
    reveal_strlit("gwarancja MOCNA");
    reveal_strlit("SŁABA");
    assert(t.subrange(28, 43) =~= "gwarancja MOCNA"@);
    assert(tekst::wystepuje(t, "gwarancja MOCNA"@, 28));
    reveal_with_fuel(tekst::bez_znaku, 42);
    assert(tekst::bez_znaku(t, 'S', 40));
    tekst::bez_znaku_nie_zawiera(t, "SŁABA"@, 0);
}

proof fn gwarancja_raw()
    ensures
        mocna("dekodowanie RAW przez rawloader (gwarancja MOCNA)"@),
{
    let t = "dekodowanie RAW przez rawloader (gwarancja MOCNA)"@;
    reveal_strlit("dekodowanie RAW przez rawloader (gwarancja MOCNA)");
    reveal_strlit("gwarancja MOCNA");
    reveal_strlit("SŁABA");
    assert(t.subrange(33, 48) =~= "gwarancja MOCNA"@);
    assert(tekst::wystepuje(t, "gwarancja MOCNA"@, 33));
    reveal_with_fuel(tekst::bez_znaku, 42);
    assert(tekst::bez_znaku(t, 'S', 40));
    tekst::bez_znaku_nie_zawiera(t, "SŁABA"@, 0);
}

proof fn gwarancja_tar()
    ensures
        slaba("sumy kontrolne nagłówków wpisów tar (gwarancja SŁABA - tar nie chroni danych)"@),
{
    let t = "sumy kontrolne nagłówków wpisów tar (gwarancja SŁABA - tar nie chroni danych)"@;
    reveal_strlit("sumy kontrolne nagłówków wpisów tar (gwarancja SŁABA - tar nie chroni danych)");
    reveal_strlit("gwarancja SŁABA");
    reveal_strlit("MOCNA");
    assert(t.subrange(37, 52) =~= "gwarancja SŁABA"@);
    assert(tekst::wystepuje(t, "gwarancja SŁABA"@, 37));
    reveal_with_fuel(tekst::bez_znaku, 42);
    assert(tekst::bez_znaku(t, 'M', 40));
    tekst::bez_znaku_nie_zawiera(t, "MOCNA"@, 0);
}

proof fn gwarancja_tekstu()
    ensures
        mocna("poprawny UTF-8 bez bajtów NULL (gwarancja MOCNA dla tekstu)"@),
{
    let t = "poprawny UTF-8 bez bajtów NULL (gwarancja MOCNA dla tekstu)"@;
    reveal_strlit("poprawny UTF-8 bez bajtów NULL (gwarancja MOCNA dla tekstu)");
    reveal_strlit("gwarancja MOCNA");
    reveal_strlit("SŁABA");
    assert(t.subrange(32, 47) =~= "gwarancja MOCNA"@);
    assert(tekst::wystepuje(t, "gwarancja MOCNA"@, 32));
    reveal_with_fuel(tekst::bez_znaku, 42);
    assert(tekst::bez_znaku(t, 'S', 40));
    tekst::bez_znaku_nie_zawiera(t, "SŁABA"@, 0);
}

proof fn gwarancja_pdf()
    ensures
        slaba("nagłówek %PDF- i znacznik %%EOF na miejscu (gwarancja SŁABA - bez parsowania obiektów)"@),
{
    let t = "nagłówek %PDF- i znacznik %%EOF na miejscu (gwarancja SŁABA - bez parsowania obiektów)"@;
    reveal_strlit("nagłówek %PDF- i znacznik %%EOF na miejscu (gwarancja SŁABA - bez parsowania obiektów)");
    reveal_strlit("gwarancja SŁABA");
    reveal_strlit("MOCNA");
    assert(t.subrange(44, 59) =~= "gwarancja SŁABA"@);
    assert(tekst::wystepuje(t, "gwarancja SŁABA"@, 44));
    reveal_with_fuel(tekst::bez_znaku, 42);
    assert(tekst::bez_znaku(t, 'M', 40));
    assert(tekst::bez_znaku(t, 'M', 80));
    tekst::bez_znaku_nie_zawiera(t, "MOCNA"@, 0);
}

proof fn gwarancja_riff()
    ensures
        slaba("nagłówek RIFF na miejscu (gwarancja SŁABA - sprawdzono tylko pierwsze 12 bajtów)"@),
{
    let t = "nagłówek RIFF na miejscu (gwarancja SŁABA - sprawdzono tylko pierwsze 12 bajtów)"@;
    reveal_strlit("nagłówek RIFF na miejscu (gwarancja SŁABA - sprawdzono tylko pierwsze 12 bajtów)");
    reveal_strlit("gwarancja SŁABA");
    reveal_strlit("MOCNA");
    assert(t.subrange(26, 41) =~= "gwarancja SŁABA"@);
    assert(tekst::wystepuje(t, "gwarancja SŁABA"@, 26));
    reveal_with_fuel(tekst::bez_znaku, 42);
    assert(tekst::bez_znaku(t, 'M', 40));
    tekst::bez_znaku_nie_zawiera(t, "MOCNA"@, 0);
}

proof fn gwarancja_asf()
    ensures
        slaba("GUID nagłówka ASF na miejscu (gwarancja SŁABA - sprawdzono tylko pierwsze 16 bajtów)"@),
{
    let t = "GUID nagłówka ASF na miejscu (gwarancja SŁABA - sprawdzono tylko pierwsze 16 bajtów)"@;
    reveal_strlit("GUID nagłówka ASF na miejscu (gwarancja SŁABA - sprawdzono tylko pierwsze 16 bajtów)");
    reveal_strlit("gwarancja SŁABA");
    reveal_strlit("MOCNA");
    assert(t.subrange(30, 45) =~= "gwarancja SŁABA"@);
    assert(tekst::wystepuje(t, "gwarancja SŁABA"@, 30));
    reveal_with_fuel(tekst::bez_znaku, 42);
    assert(tekst::bez_znaku(t, 'M', 40));
    assert(tekst::bez_znaku(t, 'M', 80));
    tekst::bez_znaku_nie_zawiera(t, "MOCNA"@, 0);
}

proof fn gwarancja_mp3()
    ensures
        slaba("tag ID3 albo synchronizacja ramki MPEG audio na początku pliku (gwarancja SŁABA)"@),
{
    let t = "tag ID3 albo synchronizacja ramki MPEG audio na początku pliku (gwarancja SŁABA)"@;
    reveal_strlit("tag ID3 albo synchronizacja ramki MPEG audio na początku pliku (gwarancja SŁABA)");
    reveal_strlit("gwarancja SŁABA");
    reveal_strlit("MOCNA");
    assert(t.subrange(64, 79) =~= "gwarancja SŁABA"@);
    assert(tekst::wystepuje(t, "gwarancja SŁABA"@, 64));
    reveal_with_fuel(tekst::bez_znaku, 42);
    assert(tekst::bez_znaku(t, 'O', 40));
    tekst::bez_znaku_nie_zawiera(t, "MOCNA"@, 1);
}

proof fn gwarancja_nieznanego()
    ensures
        slaba("brak metody weryfikacji dla tego formatu - sprawdzono niepustość i brak samych zer (gwarancja SŁABA)"@),
{
    let t = "brak metody weryfikacji dla tego formatu - sprawdzono niepustość i brak samych zer (gwarancja SŁABA)"@;
    reveal_strlit("brak metody weryfikacji dla tego formatu - sprawdzono niepustość i brak samych zer (gwarancja SŁABA)");
    reveal_strlit("gwarancja SŁABA");
    reveal_strlit("MOCNA");
    assert(t.subrange(84, 99) =~= "gwarancja SŁABA"@);
    assert(tekst::wystepuje(t, "gwarancja SŁABA"@, 84));
    reveal_with_fuel(tekst::bez_znaku, 42);
    assert(tekst::bez_znaku(t, 'M', 40));
    assert(tekst::bez_znaku(t, 'M', 80));
    tekst::bez_znaku_nie_zawiera(t, "MOCNA"@, 0);
}

proof fn gwarancja_bazy()
    ensures
        mocna("PRAGMA quick_check bazy SQLite (gwarancja MOCNA)"@),
{
    let t = "PRAGMA quick_check bazy SQLite (gwarancja MOCNA)"@;
    reveal_strlit("PRAGMA quick_check bazy SQLite (gwarancja MOCNA)");
    reveal_strlit("gwarancja MOCNA");
    reveal_strlit("SŁABA");
    assert(t.subrange(32, 47) =~= "gwarancja MOCNA"@);
    assert(tekst::wystepuje(t, "gwarancja MOCNA"@, 32));
    reveal_with_fuel(tekst::bez_znaku, 42);
    assert(tekst::bez_znaku(t, 'Ł', 40));
    tekst::bez_znaku_nie_zawiera(t, "SŁABA"@, 1);
}

} // verus!
