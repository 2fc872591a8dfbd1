//! Laws of acceptance: a repaired file is accepted where it was proved sound, and
//! nowhere else.

use vstd::prelude::*;

use crate::bajty;
use crate::phases::repair_modules::praca::{
    Badanie, Nastepny, Ruch, StanBazy, Werdykt, WeryfikacjaHeic, Zdarzenie,
};
use crate::phases::repair_modules::prawa_weryfikacji;
use crate::phases::repair_modules::weryfikacja;
use crate::phases::repair_modules::weryfikacja::Format;
use crate::tekst;

verus! {

/// The families whose content an engine judges.
pub open spec fn sadzi_silnik(f: Format) -> bool {
    f is Zip || f is Heic || f is Ts || f is Flv || f is Matroska || f is Audio || f is Raw
        || f is Tar
}

/// The families judged by their content alone.
pub open spec fn sadzi_tresc(f: Format) -> bool {
    f is Obraz || f is Tekst || f is Pdf || f is Riff || f is Asf || f is Mp3 || f is Inny
}

/// The answers of the engines say that the content is sound.
pub open spec fn silnik_potwierdza(f: Format, h: Seq<Zdarzenie>) -> bool {
    match f {
        Format::Zip | Format::Audio | Format::Raw | Format::Tar => h[2] == Zdarzenie::Udalo(true),
        Format::Heic => h[2] == Zdarzenie::Heic(WeryfikacjaHeic::PikseleZdekodowane) || h[2]
            == Zdarzenie::Heic(WeryfikacjaHeic::TylkoStruktura),
        Format::Ts | Format::Flv => h[2] matches Zdarzenie::Strumien(Some(s)) && s.0,
        Format::Matroska => h[2] == Zdarzenie::Udalo(true) && h[3] != Zdarzenie::Trojstan(
            Some(false),
        ) && h[3] is Trojstan,
        _ => false,
    }
}

/// The engines have said all that they have to say.
pub open spec fn silnik_skonczyl(f: Format, h: Seq<Zdarzenie>) -> bool {
    h.len() >= 3 && (f is Matroska && h[2] == Zdarzenie::Udalo(true) ==> h.len() >= 4)
}

/// The file was measured, is neither empty nor above 512 MB, and was read.
pub open spec fn wczytany(h: Seq<Zdarzenie>) -> bool {
    &&& h.len() >= 2
    &&& h[0] matches Zdarzenie::Rozmiar(Ok(n))
    &&& 0 < n <= 512 * 1024 * 1024
    &&& h[1] matches Zdarzenie::Bajty(Ok(_))
}

/// The bytes that were read.
pub open spec fn wczytane(h: Seq<Zdarzenie>) -> Seq<u8> {
    h[1]->Bajty_0->Ok_0@
}

/// The family of the file at `plik`.
pub open spec fn rodzina(plik: Seq<char>) -> Format {
    weryfikacja::format_rozszerzenia(weryfikacja::male_rozszerzenie(plik))
}

/// Where an engine judges the content of a file that was read, the file is accepted
/// if and only if the engine found it sound.
pub proof fn przyjecie_z_potwierdzeniem_silnika(plik: Seq<char>, h: Seq<Zdarzenie>)
    requires
        sadzi_silnik(rodzina(plik)),
        wczytany(h),
        silnik_skonczyl(rodzina(plik), h),
    ensures
        weryfikacja::weryfikacja_pliku(plik, h) matches Nastepny::Koniec(w) && (w is Ok
            <==> silnik_potwierdza(rodzina(plik), h)),
{
}

/// A file of at most 512 MB that an engine judges is never accepted without the
/// engine's word, whatever the answers are.
pub proof fn bez_silnika_nie_ma_przyjecia(plik: Seq<char>, h: Seq<Zdarzenie>, d: Seq<char>)
    requires
        sadzi_silnik(rodzina(plik)),
        weryfikacja::weryfikacja_pliku(plik, h) == Nastepny::<Werdykt>::Koniec(Ok(d)),
    ensures
        h.len() >= 1,
        h[0] matches Zdarzenie::Rozmiar(Ok(n)) && (n > 512 * 1024 * 1024 || (wczytany(h)
            && silnik_skonczyl(rodzina(plik), h) && silnik_potwierdza(rodzina(plik), h))),
{
}

/// The engine for a family.
pub open spec fn wlasciwy_silnik(f: Format) -> Badanie {
    match f {
        Format::Zip => Badanie::ZipWpisy,
        Format::Heic => Badanie::HeicPiksele,
        Format::Ts => Badanie::TsPakiety,
        Format::Flv => Badanie::FlvTagi,
        Format::Matroska => Badanie::MkvStruktura,
        Format::Audio => Badanie::IsoSciezki,
        Format::Raw => Badanie::RawObraz,
        _ => Badanie::TarNaglowki,
    }
}

/// A verification first measures the file, then reads that same file, and then hands
/// it to the engine of its own family; a Matroska file whose structure reads has its
/// sums checked as well.
pub proof fn kolejne_kroki_weryfikacji(plik: Seq<char>, h: Seq<Zdarzenie>)
    ensures
        h.len() == 0 ==> weryfikacja::weryfikacja_pliku(plik, h) == Nastepny::<Werdykt>::Ruch(
            Ruch::Zmierz(plik),
        ),
        h.len() == 1 && (h[0] matches Zdarzenie::Rozmiar(Ok(n)) && 0 < n <= 512 * 1024 * 1024) && (
        sadzi_silnik(rodzina(plik)) || sadzi_tresc(rodzina(plik)))
            ==> weryfikacja::weryfikacja_pliku(plik, h) == Nastepny::<Werdykt>::Ruch(
            Ruch::Wczytaj(plik),
        ),
        h.len() == 2 && wczytany(h) && sadzi_silnik(rodzina(plik))
            ==> weryfikacja::weryfikacja_pliku(plik, h) == Nastepny::<Werdykt>::Ruch(
            Ruch::Zbadaj(wlasciwy_silnik(rodzina(plik))),
        ),
        h.len() == 3 && wczytany(h) && rodzina(plik) is Matroska && h[2] == Zdarzenie::Udalo(true)
            ==> weryfikacja::weryfikacja_pliku(plik, h) == Nastepny::<Werdykt>::Ruch(
            Ruch::Zbadaj(Badanie::MkvSumy),
        ),
{
}

/// The content itself says that it is sound.
pub open spec fn tresc_potwierdza(f: Format, b: Seq<u8>) -> bool {
    match f {
        Format::Obraz => weryfikacja::wymiary_obrazu(b) matches Some(d) && d.0 > 0 && d.1 > 0,
        Format::Tekst => vstd::utf8::valid_utf8(b) && forall|i: int|
            0 <= i < b.len() ==> b[i] != 0,
        Format::Pdf => {
            &&& stoi_na(b, seq![0x25u8, 0x50u8, 0x44u8, 0x46u8, 0x2Du8], 0)
            &&& ma_od(b, seq![0x25u8, 0x25u8, 0x45u8, 0x4Fu8, 0x46u8], b.len() - 2048)
        },
        Format::Riff => stoi_na(b, seq![0x52u8, 0x49u8, 0x46u8, 0x46u8], 0) && (stoi_na(
            b,
            seq![0x57u8, 0x41u8, 0x56u8, 0x45u8],
            8,
        ) || stoi_na(b, seq![0x41u8, 0x56u8, 0x49u8, 0x20u8], 8)),
        Format::Asf => stoi_na(
            b,
            seq![
                0x30u8, 0x26u8, 0xB2u8, 0x75u8, 0x8Eu8, 0x66u8, 0xCFu8, 0x11u8, 0xA6u8, 0xD9u8,
                0x00u8, 0xAAu8, 0x00u8, 0x62u8, 0xCEu8, 0x6Cu8,
            ],
            0,
        ),
        Format::Mp3 => stoi_na(b, seq![0x49u8, 0x44u8, 0x33u8], 0) || (b.len() >= 2 && b[0] == 0xFF
            && b[1] >= 0xE0),
        Format::Inny => exists|i: int| 0 <= i < b.len() && b[i] != 0,
        _ => false,
    }
}

/// From position `i` on, `b` holds the bytes of `w`.
pub open spec fn stoi_na(b: Seq<u8>, w: Seq<u8>, i: int) -> bool {
    &&& 0 <= i
    &&& i + w.len() <= b.len()
    &&& forall|k: int| 0 <= k < w.len() ==> b[i + k] == #[trigger] w[k]
}

/// At or behind position `od`, `b` holds the bytes of `w`.
pub open spec fn ma_od(b: Seq<u8>, w: Seq<u8>, od: int) -> bool {
    exists|i: int| od <= i && #[trigger] stoi_na(b, w, i)
}

pub(crate) proof fn stoi_znaczy(b: Seq<u8>, w: Seq<u8>, i: int)
    ensures
        bajty::stoi(b, w, i) <==> stoi_na(b, w, i),
        bajty::zaczyna_sie(b, w) <==> stoi_na(b, w, 0),
{
    if bajty::stoi(b, w, i) {
        let s = b.subrange(i, i + w.len());
        assert forall|k: int| 0 <= k < w.len() implies b[i + k] == #[trigger] w[k] by {
            assert(s[k] == b[i + k]);
        }
    }
    if stoi_na(b, w, i) {
        assert(b.subrange(i, i + w.len()) =~= w);
    }
    if bajty::zaczyna_sie(b, w) {
        let s = b.subrange(0, w.len() as int);
        assert forall|k: int| 0 <= k < w.len() implies b[0 + k] == #[trigger] w[k] by {
            assert(s[k] == b[k]);
        }
    }
    if stoi_na(b, w, 0) {
        assert forall|k: int| 0 <= k < w.len() implies b[k] == #[trigger] w[k] by {
            assert(b[0 + k] == w[k]);
        }
        assert(b.subrange(0, w.len() as int) =~= w);
    }
}

/// Where the content alone judges a file that was read, the file is accepted if and
/// only if the content is sound: an image decodes to a picture with an area, a text
/// is UTF-8 without a zero byte, a PDF has its head and, within its last 2048 bytes,
/// its end, a RIFF, ASF or MP3 file has its head, and any other holds a byte that is
/// not zero.
pub proof fn przyjecie_z_potwierdzeniem_tresci(plik: Seq<char>, h: Seq<Zdarzenie>)
    requires
        sadzi_tresc(rodzina(plik)),
        wczytany(h),
    ensures
        weryfikacja::weryfikacja_pliku(plik, h) matches Nastepny::Koniec(w) && (w is Ok
            <==> tresc_potwierdza(rodzina(plik), wczytane(h))),
{
    let b = wczytane(h);
    let f = rodzina(plik);
    if f is Pdf {
        let p = seq![0x25u8, 0x50u8, 0x44u8, 0x46u8, 0x2Du8];
        let k = seq![0x25u8, 0x25u8, 0x45u8, 0x4Fu8, 0x46u8];
        stoi_znaczy(b, p, 0);
        assert(weryfikacja::poczatek_pdf() =~= p);
        assert(weryfikacja::koniec_pdf() =~= k);
        let od = weryfikacja::poczatek_ogona(b.len());
        if bajty::wystepuje_od(b, k, od) {
            let i = choose|i: int| od <= i && #[trigger] bajty::stoi(b, k, i);
            stoi_znaczy(b, k, i);
            assert(b.len() - 2048 <= i && stoi_na(b, k, i));
        }
        if ma_od(b, k, b.len() - 2048) {
            let i = choose|i: int| b.len() - 2048 <= i && #[trigger] stoi_na(b, k, i);
            stoi_znaczy(b, k, i);
            assert(od <= i && bajty::stoi(b, k, i));
        }
    } else if f is Riff {
        let r = seq![0x52u8, 0x49u8, 0x46u8, 0x46u8];
        let w = seq![0x57u8, 0x41u8, 0x56u8, 0x45u8];
        let a = seq![0x41u8, 0x56u8, 0x49u8, 0x20u8];
        assert(weryfikacja::znak_riff() =~= r);
        assert(weryfikacja::postac_wave() =~= w);
        assert(weryfikacja::postac_avi() =~= a);
        stoi_znaczy(b, r, 0);
        stoi_znaczy(b, w, 8);
        stoi_znaczy(b, a, 8);
    } else if f is Asf {
        let g = seq![
            0x30u8, 0x26u8, 0xB2u8, 0x75u8, 0x8Eu8, 0x66u8, 0xCFu8, 0x11u8, 0xA6u8, 0xD9u8,
            0x00u8, 0xAAu8, 0x00u8, 0x62u8, 0xCEu8, 0x6Cu8,
        ];
        assert(weryfikacja::guid_asf() =~= g);
        stoi_znaczy(b, g, 0);
    } else if f is Mp3 {
        let z = seq![0x49u8, 0x44u8, 0x33u8];
        assert(weryfikacja::znak_id3() =~= z);
        stoi_znaczy(b, z, 0);
    } else if f is Tekst {
        if b.contains(0) {
            let i = choose|i: int| 0 <= i < b.len() && b[i] == 0;
            assert(b[i] == 0);
        }
        if exists|i: int| 0 <= i < b.len() && b[i] == 0 {
            assert(b.contains(0));
        }
    }
}

/// A database is accepted if and only if its check answered `ok`.
pub proof fn przyjecie_bazy(plik: Seq<char>, h: Seq<Zdarzenie>)
    requires
        rodzina(plik) is Baza,
        h.len() >= 6,
        h[0] matches Zdarzenie::Rozmiar(Ok(n)) && n > 0,
    ensures
        weryfikacja::weryfikacja_pliku(plik, h) matches Nastepny::Koniec(w) && (w is Ok <==> (h[3]
            matches Zdarzenie::Baza(StanBazy::Odpowiedz(o)) && o@ == "ok"@)),
{
}

/// A database never comes to an acceptance without its check.
pub proof fn baza_bez_sprawdzenia_odpada(plik: Seq<char>, h: Seq<Zdarzenie>, d: Seq<char>)
    requires
        rodzina(plik) is Baza,
        weryfikacja::weryfikacja_pliku(plik, h) == Nastepny::<Werdykt>::Koniec(Ok(d)),
    ensures
        h.len() >= 4,
        h[3] matches Zdarzenie::Baza(StanBazy::Odpowiedz(o)) && o@ == "ok"@,
{
}

/// The check of a database looks for its companions first, then checks that same
/// database.
pub proof fn kroki_sprawdzenia_bazy(plik: Seq<char>, h: Seq<Zdarzenie>)
    requires
        rodzina(plik) is Baza,
        h.len() >= 1,
        h[0] matches Zdarzenie::Rozmiar(Ok(n)) && n > 0,
    ensures
        h.len() == 1 ==> weryfikacja::weryfikacja_pliku(plik, h) == Nastepny::<Werdykt>::Ruch(
            Ruch::SprawdzIstnienie(plik + "-wal"@),
        ),
        h.len() == 2 ==> weryfikacja::weryfikacja_pliku(plik, h) == Nastepny::<Werdykt>::Ruch(
            Ruch::SprawdzIstnienie(plik + "-shm"@),
        ),
        h.len() == 3 ==> weryfikacja::weryfikacja_pliku(plik, h) == Nastepny::<Werdykt>::Ruch(
            Ruch::SprawdzBaze(plik),
        ),
{
}

/// The answers on a video, from position `k` on, say that it is sound: with a
/// decoder on the machine, that every frame decodes; without one, that the boxes of
/// the container hold together.
pub open spec fn wideo_potwierdzone(h: Seq<Zdarzenie>, k: int) -> bool {
    if h[k] == Zdarzenie::Udalo(true) {
        h[k + 1] == Zdarzenie::Udalo(true)
    } else {
        h[k + 1] == Zdarzenie::Trojstan(Some(true))
    }
}

/// A video is accepted if and only if it was proved sound; with a decoder on the
/// machine the structure of its container is not enough.
pub proof fn przyjecie_wideo(plik: Seq<char>, h: Seq<Zdarzenie>, k: int)
    requires
        k >= 0,
    ensures
        h.len() <= k ==> weryfikacja::weryfikacja_wideo(plik, h, k) == Nastepny::<Werdykt>::Ruch(
            Ruch::SprawdzFfmpeg,
        ),
        h.len() == k + 1 && h[k] == Zdarzenie::Udalo(true) ==> weryfikacja::weryfikacja_wideo(
            plik,
            h,
            k,
        ) == Nastepny::<Werdykt>::Ruch(Ruch::DekodujWideo(plik)),
        h.len() == k + 1 && h[k] != Zdarzenie::Udalo(true) ==> weryfikacja::weryfikacja_wideo(
            plik,
            h,
            k,
        ) == Nastepny::<Werdykt>::Ruch(Ruch::SprawdzKontener(plik)),
        h.len() >= k + 2 ==> (weryfikacja::weryfikacja_wideo(plik, h, k) matches Nastepny::Koniec(w)
            && (w is Ok <==> wideo_potwierdzone(h, k)) && (w matches Ok(d) ==> (
        prawa_weryfikacji::mocna(d) <==> h[k] == Zdarzenie::Udalo(true)))),
{
    prawa_weryfikacji::gwarancja_wideo();
    prawa_weryfikacji::gwarancja_kontenera();
    przeciwne();
}

/// A file with the extension of a video is verified as one.
pub proof fn plik_wideo_jako_wideo(plik: Seq<char>, h: Seq<Zdarzenie>)
    requires
        rodzina(plik) is Wideo,
        h.len() >= 1,
        h[0] matches Zdarzenie::Rozmiar(Ok(n)) && n > 0,
    ensures
        weryfikacja::weryfikacja_pliku(plik, h) == weryfikacja::weryfikacja_wideo(plik, h, 1),
{
}

/// A text that names a weak guarantee does not name a strong one.
proof fn przeciwne()
    ensures
        forall|d: Seq<char>|
            #![trigger prawa_weryfikacji::mocna(d)]
            prawa_weryfikacji::slaba(d) ==> !prawa_weryfikacji::mocna(d),
{
    assert forall|d: Seq<char>|
        #![trigger prawa_weryfikacji::mocna(d)]
        prawa_weryfikacji::slaba(d) implies !prawa_weryfikacji::mocna(d) by {
        prawa_weryfikacji::nazwana_raz(d);
        if prawa_weryfikacji::mocna(d) {
            reveal_strlit("gwarancja MOCNA");
            reveal_strlit("MOCNA");
            assert("gwarancja MOCNA"@.subrange(10, 15) =~= "MOCNA"@);
            prawa_weryfikacji::koncowka_wystepuje(d, "gwarancja MOCNA"@, "MOCNA"@, 10);
            assert(tekst::zawiera_tekst(d, "MOCNA"@));
        }
    }
}

/// The proof reaches the content, and not only its frame: entries with their sums,
/// pixels, pages of a database, the characters of a text.
pub open spec fn dowod_tresci(f: Format, h: Seq<Zdarzenie>) -> bool {
    match f {
        Format::Zip | Format::Raw | Format::Obraz | Format::Tekst => true,
        Format::Heic => h[2] == Zdarzenie::Heic(WeryfikacjaHeic::PikseleZdekodowane),
        Format::Matroska => h[3] == Zdarzenie::Trojstan(Some(true)),
        _ => false,
    }
}

/// An acceptance of a file that was read is called strong exactly where the proof
/// reached the content.
pub proof fn mocna_tylko_z_dowodem_tresci(plik: Seq<char>, h: Seq<Zdarzenie>, d: Seq<char>)
    requires
        sadzi_silnik(rodzina(plik)) || sadzi_tresc(rodzina(plik)),
        wczytany(h),
        weryfikacja::weryfikacja_pliku(plik, h) == Nastepny::<Werdykt>::Koniec(Ok(d)),
    ensures
        prawa_weryfikacji::mocna(d) <==> dowod_tresci(rodzina(plik), h),
{
    przeciwne();
    prawa_weryfikacji::kazde_przyjecie_nazywa_gwarancje(plik, h, d);
    prawa_weryfikacji::gwarancje();
}

/// Above 512 MB a file that would have to be read is accepted unread, and the
/// acceptance is called weak.
pub proof fn ponad_limitem_slabo(plik: Seq<char>, h: Seq<Zdarzenie>)
    requires
        sadzi_silnik(rodzina(plik)) || sadzi_tresc(rodzina(plik)),
        h.len() >= 1,
        h[0] matches Zdarzenie::Rozmiar(Ok(n)) && n > 512 * 1024 * 1024,
    ensures
        weryfikacja::weryfikacja_pliku(plik, h) matches Nastepny::Koniec(Ok(d))
            && prawa_weryfikacji::slaba(d),
{
    prawa_weryfikacji::gwarancje();
}

/// What cannot be measured or read is refused.
pub proof fn nieczytelny_odpada(plik: Seq<char>, h: Seq<Zdarzenie>)
    requires
        h.len() >= 1,
        !(h[0] matches Zdarzenie::Rozmiar(Ok(n)) && n > 0) || (h.len() >= 2 && (h[0]
            matches Zdarzenie::Rozmiar(Ok(n)) && n <= 512 * 1024 * 1024) && !(h[1]
            matches Zdarzenie::Bajty(Ok(_))) && (sadzi_silnik(rodzina(plik)) || sadzi_tresc(
            rodzina(plik),
        ))),
    ensures
        weryfikacja::weryfikacja_pliku(plik, h) matches Nastepny::Koniec(w) && w is Err,
{
}

} // verus!
