//! Laws of the steps of a repair: what they are, what they lead to, and what they
//! leave behind.

use vstd::prelude::*;

use crate::phases::repair_modules::praca::{
    Badanie, Kandydat, Naprawa, Nastepny, Ruch, Silnik, Werdykt, Zdarzenie,
};
use crate::bajty;
use crate::phases::repair_modules::dng;
use crate::phases::repair_modules::extension;
use crate::phases::repair_modules::header_jpg;
use crate::phases::repair_modules::header_png;
use crate::phases::repair_modules::prawa_kwalifikacji;
use crate::phases::repair_modules::prawa_napraw;
use crate::phases::repair_modules::weryfikacja;
use crate::phases::repair_modules::{Modul, RepairContext, RepairModule};
use crate::sciezka;
use crate::tekst;

verus! {

/// The work came out as a repair needs it. Renaming has a fallback, and nobody
/// waits for a removal or a description.
pub open spec fn udany(r: Ruch, z: Zdarzenie) -> bool {
    match r {
        Ruch::Zmierz(_) => z matches Zdarzenie::Rozmiar(Ok(n)) && n <= 512 * 1024 * 1024,
        Ruch::Wczytaj(_) => z matches Zdarzenie::Bajty(Ok(_)),
        Ruch::Zloz(_) => z matches Zdarzenie::Zlozone(Some(_)),
        Ruch::Kandydaci(_, _) => z matches Zdarzenie::Kandydaci(Some(_)),
        Ruch::Uruchom(_, _, _, _) => z matches Zdarzenie::Opis(Some(_)),
        Ruch::PorownajMdat(_, _) => z != Zdarzenie::Trojstan(Some(false)),
        Ruch::Autopilot(_) => z matches Zdarzenie::Pliki(Some(_)),
        Ruch::Przenies(_, _) | Ruch::Usun(_) | Ruch::OpiszPrzeszczep(_, _) => true,
        _ => z == Zdarzenie::Udalo(true),
    }
}

/// The beginning of a history holds the same answers.
proof fn poczatek(h: Seq<Zdarzenie>, i: int)
    requires
        0 <= i < h.len(),
    ensures
        h.take(i).len() == i,
        forall|j: int| 0 <= j < i ==> #[trigger] h.take(i)[j] == h[j],
{
}

/// A repair ends in success only where every piece of work it asked for came out:
/// both copies were within 512 MB and read, the engine delivered, and the result was
/// written whole.
#[verifier::spinoff_prover]
#[verifier::rlimit(50)]
pub proof fn udana_naprawa_z_udanych_krokow(
    m: Modul,
    zrodlo: Seq<char>,
    ctx: &RepairContext<'_>,
    dawca: Option<Seq<char>>,
    katalog: Seq<char>,
    h: Seq<Zdarzenie>,
    i: int,
    r: Ruch,
)
    requires
        m.naprawa(zrodlo, ctx, dawca, katalog, h) matches Nastepny::Koniec(Some(_)),
        0 <= i < h.len(),
        m.naprawa(zrodlo, ctx, dawca, katalog, h.take(i)) == Nastepny::<Naprawa>::Ruch(r),
    ensures
        udany(r, h[i]),
{
    poczatek(h, i);
    let g = h.take(i);
    assert(i > 0 ==> g[0] == h[0]);
    assert(i > 1 ==> g[1] == h[1]);
    assert(i > 2 ==> g[2] == h[2]);
    assert(i > 3 ==> g[3] == h[3]);
    assert(i > 4 ==> g[4] == h[4]);
    assert(i > 5 ==> g[5] == h[5]);
    assert(i > 6 ==> g[6] == h[6]);
}

/// The work makes a file at the path.
pub open spec fn tworzy(r: Ruch, c: Seq<char>) -> bool {
    match r {
        Ruch::Zapisz(p, _) => p == c,
        Ruch::Kopiuj(_, q) => q == c,
        Ruch::Przenies(_, q) => q == c,
        Ruch::Uruchom(_, _, _, q) => q == c,
        Ruch::UtworzPlik(p) => p == c,
        _ => false,
    }
}

/// A repair reports only a file that it made: an earlier step made it, and that step
/// came out.
#[verifier::spinoff_prover]
#[verifier::rlimit(50)]
pub proof fn zgloszony_wynik_powstal(
    m: Modul,
    zrodlo: Seq<char>,
    ctx: &RepairContext<'_>,
    dawca: Option<Seq<char>>,
    katalog: Seq<char>,
    h: Seq<Zdarzenie>,
    c: Seq<char>,
    opis: Seq<char>,
) -> (i: int)
    requires
        m.naprawa(zrodlo, ctx, dawca, katalog, h) == Nastepny::<Naprawa>::Koniec(Some((c, opis))),
    ensures
        0 <= i < h.len(),
        m.naprawa(zrodlo, ctx, dawca, katalog, h.take(i)) matches Nastepny::Ruch(r) && tworzy(r, c)
            && (h[i] == Zdarzenie::Udalo(true) || h[i] matches Zdarzenie::Opis(Some(_))),
{
    let z_katalogiem: int = if sciezka::rodzic(c) is Some {
        1
    } else {
        0
    };
    let i: int = if m is HeicClone || m is HeicNative || m is JpegClone || m is PngClone
        || m is PngSanitize || m is Mp4Native || m is Mp4Recontainer || m is Extension {
        0
    } else if m is Mp4Clone || m is Sqlite || m is HeaderJpg || m is HeaderPng || m is HeaderRaster {
        1
    } else if m is DngStructural {
        1 + z_katalogiem
    } else if m is Splice {
        2
    } else if m is Mp4Autopilot {
        if h[1] == Zdarzenie::Udalo(true) {
            1
        } else {
            2
        }
    } else {
        5 + z_katalogiem
    };
    poczatek(h, i);
    let g = h.take(i);
    assert(i > 0 ==> g[0] == h[0]);
    assert(i > 1 ==> g[1] == h[1]);
    assert(i > 2 ==> g[2] == h[2]);
    assert(i > 3 ==> g[3] == h[3]);
    assert(i > 4 ==> g[4] == h[4]);
    assert(i > 5 ==> g[5] == h[5]);
    i
}

/// The engine of a module.
pub open spec fn silnik(m: Modul) -> Option<Silnik> {
    match m {
        Modul::HeicClone(_) => Some(Silnik::HeicClone),
        Modul::HeicNative(_) => Some(Silnik::HeicNative),
        Modul::JpegClone(_) => Some(Silnik::JpegSplice),
        Modul::PngClone(_) => Some(Silnik::PngClone),
        Modul::PngSanitize(_) => Some(Silnik::PngSanitize),
        Modul::ZipSplice(_) => Some(Silnik::ZipSplice),
        Modul::TarSplice(_) => Some(Silnik::TarSplice),
        Modul::MkvClone(_) => Some(Silnik::MkvSplice),
        Modul::AsfClone(_) => Some(Silnik::AsfSplice),
        Modul::RiffClone(_) => Some(Silnik::RiffSplice),
        Modul::Mp3Clone(_) => Some(Silnik::Mp3Splice),
        Modul::Mp4Clone(_) => Some(Silnik::Mp4Clone),
        Modul::Mp4Native(_) => Some(Silnik::Mp4Native),
        Modul::Mp4Recontainer(_) => Some(Silnik::Mp4Recontainer),
        _ => None,
    }
}

/// The module grafts from a donor.
pub open spec fn przeszczepia(m: Modul) -> bool {
    m is HeicClone || m is JpegClone || m is PngClone || m is Mp4Clone
}

/// The work is on the files of the repair and by its own engine.
pub open spec fn swoje(
    m: Modul,
    zrodlo: Seq<char>,
    dawca: Option<Seq<char>>,
    h: Seq<Zdarzenie>,
    r: Ruch,
) -> bool {
    match r {
        Ruch::Uruchom(s, a, d, _) => Some(s) == silnik(m) && a == zrodlo && d == (
        if przeszczepia(m) {
            dawca
        } else {
            None
        }),
        Ruch::Zloz(s) => Some(s) == silnik(m),
        Ruch::Zmierz(p) | Ruch::Wczytaj(p) | Ruch::Otworz(p) => p == (if h.len() % 2 == 0 {
            Some(zrodlo)
        } else {
            dawca
        })->0,
        Ruch::Kandydaci(a, b) | Ruch::PorownajMdat(a, b) | Ruch::OpiszPrzeszczep(a, b) => a
            == zrodlo && Some(b) == dawca,
        Ruch::Autopilot(p) => p == zrodlo,
        Ruch::Kopiuj(a, _) => match m {
            Modul::Extension(_) => a == zrodlo,
            Modul::Sqlite(_) => a == if h.len() == 1 {
                zrodlo
            } else {
                sciezka::przyciety(zrodlo) + "-wal"@
            },
            _ => m is Mp4Autopilot,
        },
        _ => true,
    }
}

/// A repair hands the source, and the donor where it needs one, to the engine of its
/// own module, and reads no other file than these two; a database is folded together
/// with the log that lies beside it.
#[verifier::spinoff_prover]
#[verifier::rlimit(50)]
pub proof fn naprawa_pracuje_na_swoich_plikach(
    m: Modul,
    zrodlo: Seq<char>,
    ctx: &RepairContext<'_>,
    dawca: Option<Seq<char>>,
    katalog: Seq<char>,
    h: Seq<Zdarzenie>,
    r: Ruch,
)
    requires
        m.naprawa(zrodlo, ctx, dawca, katalog, h) == Nastepny::<Naprawa>::Ruch(r),
    ensures
        swoje(m, zrodlo, dawca, h, r),
{
    match m {
        Modul::HeicClone(_) => {
            assert(swoje(m, zrodlo, dawca, h, r));
        },
        Modul::HeicNative(_) => {
            assert(swoje(m, zrodlo, dawca, h, r));
        },
        Modul::JpegClone(_) => {
            assert(swoje(m, zrodlo, dawca, h, r));
        },
        Modul::PngClone(_) => {
            assert(swoje(m, zrodlo, dawca, h, r));
        },
        Modul::PngSanitize(_) => {
            assert(swoje(m, zrodlo, dawca, h, r));
        },
        Modul::DngStructural(_) => {
            assert(swoje(m, zrodlo, dawca, h, r));
        },
        Modul::ZipSplice(_) => {
            assert(swoje(m, zrodlo, dawca, h, r));
        },
        Modul::TarSplice(_) => {
            assert(swoje(m, zrodlo, dawca, h, r));
        },
        Modul::MkvClone(_) => {
            assert(swoje(m, zrodlo, dawca, h, r));
        },
        Modul::AsfClone(_) => {
            assert(swoje(m, zrodlo, dawca, h, r));
        },
        Modul::RiffClone(_) => {
            assert(swoje(m, zrodlo, dawca, h, r));
        },
        Modul::Mp3Clone(_) => {
            assert(swoje(m, zrodlo, dawca, h, r));
        },
        Modul::Mp4Clone(_) => {
            assert(swoje(m, zrodlo, dawca, h, r));
        },
        Modul::Mp4Native(_) => {
            assert(swoje(m, zrodlo, dawca, h, r));
        },
        Modul::Mp4Recontainer(_) => {
            assert(swoje(m, zrodlo, dawca, h, r));
        },
        Modul::Mp4Autopilot(_) => {
            assert(swoje(m, zrodlo, dawca, h, r));
        },
        Modul::Splice(_) => {
            assert(swoje(m, zrodlo, dawca, h, r));
        },
        Modul::Sqlite(_) => {
            assert(swoje(m, zrodlo, dawca, h, r));
        },
        Modul::HeaderJpg(_) => {
            assert(swoje(m, zrodlo, dawca, h, r));
        },
        Modul::HeaderPng(_) => {
            assert(swoje(m, zrodlo, dawca, h, r));
        },
        Modul::HeaderRaster(_) => {
            assert(swoje(m, zrodlo, dawca, h, r));
        },
        Modul::Extension(_) => {
            assert(swoje(m, zrodlo, dawca, h, r));
        },
    }
}

/// The module puts a file together in memory from two copies.
pub open spec fn sklada(m: Modul) -> bool {
    m is ZipSplice || m is TarSplice || m is MkvClone || m is AsfClone || m is RiffClone
        || m is Mp3Clone
}

/// What a module that puts a file together writes is what its engine built, byte for
/// byte.
pub proof fn zapis_tego_co_zlozono(
    m: Modul,
    zrodlo: Seq<char>,
    ctx: &RepairContext<'_>,
    dawca: Option<Seq<char>>,
    katalog: Seq<char>,
    h: Seq<Zdarzenie>,
    c: Seq<char>,
    dane: Seq<u8>,
)
    requires
        sklada(m),
        m.naprawa(zrodlo, ctx, dawca, katalog, h) == Nastepny::<Naprawa>::Ruch(
            Ruch::Zapisz(c, dane),
        ),
    ensures
        h.len() >= 5,
        h[4] matches Zdarzenie::Zlozone(Some(b)) && b@ == dane,
{
}

/// The candidate may be taken: the data moved over look like sensor data, and it
/// decodes.
pub open spec fn wiarygodny(k: Kandydat) -> bool {
    k.plausible && k.decodes
}

/// The choice among candidates falls on the first that may be taken, and on none only
/// where none may.
pub proof fn wybor_kandydata(v: Seq<Kandydat>)
    ensures
        match dng::pierwszy_wiarygodny(v) {
            Some(k) => exists|i: int|
                0 <= i < v.len() && #[trigger] v[i] == k && wiarygodny(v[i]) && forall|j: int|
                    0 <= j < i ==> !wiarygodny(#[trigger] v[j]),
            None => forall|j: int| 0 <= j < v.len() ==> !wiarygodny(#[trigger] v[j]),
        },
    decreases v.len(),
{
    if v.len() > 0 {
        if wiarygodny(v[0]) {
            assert(v[0] == dng::pierwszy_wiarygodny(v)->0);
        } else {
            let w = v.skip(1);
            wybor_kandydata(w);
            match dng::pierwszy_wiarygodny(w) {
                Some(k) => {
                    let i = choose|i: int|
                        0 <= i < w.len() && #[trigger] w[i] == k && wiarygodny(w[i]) && forall|
                            j: int,
                        |
                            0 <= j < i ==> !wiarygodny(#[trigger] w[j]);
                    assert(v[i + 1] == k);
                    assert forall|j: int| 0 <= j < i + 1 implies !wiarygodny(#[trigger] v[j]) by {
                        if j > 0 {
                            assert(w[j - 1] == v[j]);
                        }
                    }
                },
                None => {
                    assert forall|j: int| 0 <= j < v.len() implies !wiarygodny(#[trigger] v[j]) by {
                        if j > 0 {
                            assert(w[j - 1] == v[j]);
                        }
                    }
                },
            }
        }
    }
}

/// A raw image is written from a candidate that may be taken, and no candidate before
/// it might have been.
pub proof fn zapis_wiarygodnego(
    m: Modul,
    zrodlo: Seq<char>,
    ctx: &RepairContext<'_>,
    dawca: Option<Seq<char>>,
    katalog: Seq<char>,
    h: Seq<Zdarzenie>,
    c: Seq<char>,
    dane: Seq<u8>,
)
    requires
        m is DngStructural,
        m.naprawa(zrodlo, ctx, dawca, katalog, h) == Nastepny::<Naprawa>::Ruch(
            Ruch::Zapisz(c, dane),
        ),
    ensures
        h.len() >= 1,
        h[0] matches Zdarzenie::Kandydaci(Some(v)) && exists|i: int|
            0 <= i < v@.len() && (#[trigger] v@[i]).bytes@ == dane && wiarygodny(v@[i]) && forall|
                j: int,
            |
                0 <= j < i ==> !wiarygodny(#[trigger] v@[j]),
{
    wybor_kandydata(h[0]->Kandydaci_0->0@);
}

/// `b` starts with the bytes of `w`.
pub open spec fn ma_na_poczatku(b: Seq<u8>, w: Seq<u8>) -> bool {
    w.len() <= b.len() && forall|k: int| 0 <= k < w.len() ==> b[k] == #[trigger] w[k]
}

/// The first bytes of a JPEG.
pub open spec fn znak_jpeg() -> Seq<u8> {
    seq![0xFFu8, 0xD8u8]
}

/// The head that a JPEG without one is given: its first bytes, the JFIF segment with
/// its length of 16, version 1.1 and 96 dots per inch.
pub open spec fn glowa_jpeg() -> Seq<u8> {
    znak_jpeg() + seq![0xFFu8, 0xE0u8] + seq![0u8, 16u8] + seq![0x4Au8, 0x46u8, 0x49u8, 0x46u8, 0u8]
        + seq![1u8, 1u8] + seq![1u8] + seq![0u8, 96u8] + seq![0u8, 96u8] + seq![0u8, 0u8]
}

/// The signature of a PNG.
pub open spec fn znak_png() -> Seq<u8> {
    seq![137u8, 80u8, 78u8, 71u8, 13u8, 10u8, 26u8, 10u8]
}

/// A lost head is put before the whole content as it was read, and only where the
/// content does not have it.
pub proof fn wstrzykniecie_glowy(
    m: Modul,
    zrodlo: Seq<char>,
    ctx: &RepairContext<'_>,
    dawca: Option<Seq<char>>,
    katalog: Seq<char>,
    h: Seq<Zdarzenie>,
    c: Seq<char>,
    dane: Seq<u8>,
)
    requires
        m is HeaderJpg || m is HeaderPng,
        m.naprawa(zrodlo, ctx, dawca, katalog, h) == Nastepny::<Naprawa>::Ruch(
            Ruch::Zapisz(c, dane),
        ),
    ensures
        h.len() >= 1,
        h[0] matches Zdarzenie::Bajty(Ok(b)) && dane == (if m is HeaderJpg {
            glowa_jpeg()
        } else {
            znak_png()
        }) + b@ && !ma_na_poczatku(
            b@,
            if m is HeaderJpg {
                znak_jpeg()
            } else {
                znak_png()
            },
        ),
{
    let b = h[0]->Bajty_0->Ok_0@;
    assert(header_jpg::naglowek_jfif() =~= glowa_jpeg());
    assert(header_jpg::poczatek_obrazu() =~= znak_jpeg());
    assert(header_png::sygnatura_png() =~= znak_png());
    let w = if m is HeaderJpg {
        znak_jpeg()
    } else {
        znak_png()
    };
    if ma_na_poczatku(b, w) {
        assert(b.subrange(0, w.len() as int) =~= w);
    }
}

/// What has its head already is left alone.
pub proof fn z_glowa_bez_naprawy(
    m: Modul,
    zrodlo: Seq<char>,
    ctx: &RepairContext<'_>,
    dawca: Option<Seq<char>>,
    katalog: Seq<char>,
    h: Seq<Zdarzenie>,
)
    requires
        h.len() >= 1,
        h[0] matches Zdarzenie::Bajty(Ok(b)) && (m is HeaderJpg && ma_na_poczatku(b@, znak_jpeg())
            || m is HeaderPng && ma_na_poczatku(b@, znak_png())),
    ensures
        m.naprawa(zrodlo, ctx, dawca, katalog, h) == Nastepny::<Naprawa>::Koniec(None),
{
    let b = h[0]->Bajty_0->Ok_0@;
    assert(header_jpg::poczatek_obrazu() =~= znak_jpeg());
    assert(header_png::sygnatura_png() =~= znak_png());
    if m is HeaderJpg {
        assert(b.subrange(0, 2) =~= znak_jpeg());
    } else {
        assert(b.subrange(0, 8) =~= znak_png());
    }
}

/// What failed leaves nothing behind: an engine that failed, or a file that was not
/// written or stitched whole, is followed by the removal of the target.
#[verifier::spinoff_prover]
#[verifier::rlimit(50)]
pub proof fn nieudana_praca_posprzatana(
    m: Modul,
    zrodlo: Seq<char>,
    ctx: &RepairContext<'_>,
    dawca: Option<Seq<char>>,
    katalog: Seq<char>,
    h: Seq<Zdarzenie>,
    i: int,
    r: Ruch,
    c: Seq<char>,
)
    requires
        0 <= i < h.len(),
        m.naprawa(zrodlo, ctx, dawca, katalog, h.take(i)) == Nastepny::<Naprawa>::Ruch(r),
        r matches Ruch::Uruchom(_, _, _, q) && q == c || (r matches Ruch::Zapisz(p, _) && p == c && (
        sklada(m) || m is DngStructural)),
        m.naprawa(zrodlo, ctx, dawca, katalog, h) == Nastepny::<Naprawa>::Koniec(None),
    ensures
        i + 1 < h.len(),
        m.naprawa(zrodlo, ctx, dawca, katalog, h.take(i + 1)) == Nastepny::<Naprawa>::Ruch(
            Ruch::Usun(c),
        ),
{
    poczatek(h, i);
    let g = h.take(i);
    let k = h.take(i + 1);
    assert(forall|j: int| 0 <= j < i + 1 && j < h.len() ==> #[trigger] k[j] == h[j]);
    assert(i > 0 ==> g[0] == h[0]);
    assert(i > 1 ==> g[1] == h[1]);
    assert(i > 2 ==> g[2] == h[2]);
    assert(i > 3 ==> g[3] == h[3]);
    assert(i > 4 ==> g[4] == h[4]);
    assert(i > 5 ==> g[5] == h[5]);
}

/// A stitching that failed removes what it made, and so does a folding of a log: the
/// database as well as the copy of its log.
#[verifier::spinoff_prover]
#[verifier::rlimit(50)]
pub proof fn nieudane_zszycie_i_scalenie_posprzatane(
    m: Modul,
    zrodlo: Seq<char>,
    ctx: &RepairContext<'_>,
    dawca: Option<Seq<char>>,
    katalog: Seq<char>,
    h: Seq<Zdarzenie>,
    c: Seq<char>,
    d: Seq<char>,
)
    requires
        m.naprawa(zrodlo, ctx, dawca, katalog, h) == Nastepny::<Naprawa>::Koniec(None),
        h.len() >= 4,
        m is Splice && m.naprawa(zrodlo, ctx, dawca, katalog, h.take(2)) == Nastepny::<
            Naprawa,
        >::Ruch(Ruch::UtworzPlik(c)) && m.naprawa(zrodlo, ctx, dawca, katalog, h.take(3))
            == Nastepny::<Naprawa>::Ruch(Ruch::Zszyj) || m is Sqlite && m.naprawa(
            zrodlo,
            ctx,
            dawca,
            katalog,
            h.take(3),
        ) == Nastepny::<Naprawa>::Ruch(Ruch::ScalWal(c)) && (m.naprawa(
            zrodlo,
            ctx,
            dawca,
            katalog,
            h.take(2),
        ) matches Nastepny::Ruch(Ruch::Kopiuj(_, q)) && q == d),
    ensures
        h.len() >= 5,
        m.naprawa(zrodlo, ctx, dawca, katalog, h.take(4)) == Nastepny::<Naprawa>::Ruch(
            Ruch::Usun(c),
        ),
        m is Sqlite ==> h.len() >= 6 && m.naprawa(zrodlo, ctx, dawca, katalog, h.take(5))
            == Nastepny::<Naprawa>::Ruch(Ruch::Usun(d)),
{
    let (a, b, e, f) = (h.take(2), h.take(3), h.take(4), h.take(5));
    assert(a[0] == h[0] && a[1] == h[1]);
    assert(b[0] == h[0] && b[1] == h[1] && b[2] == h[2]);
    assert(e[0] == h[0] && e[1] == h[1] && e[2] == h[2] && e[3] == h[3]);
    assert(h.len() >= 5 ==> f[0] == h[0] && f[1] == h[1] && f[2] == h[2] && f[3] == h[3]);
}

/// A merged database keeps no copy of its log beside it: it was removed before the
/// result was reported.
pub proof fn kopia_dziennika_znika(
    m: Modul,
    zrodlo: Seq<char>,
    ctx: &RepairContext<'_>,
    dawca: Option<Seq<char>>,
    katalog: Seq<char>,
    h: Seq<Zdarzenie>,
    d: Seq<char>,
)
    requires
        m is Sqlite,
        m.naprawa(zrodlo, ctx, dawca, katalog, h) matches Nastepny::Koniec(Some(_)),
        h.len() >= 3,
        m.naprawa(zrodlo, ctx, dawca, katalog, h.take(2)) matches Nastepny::Ruch(Ruch::Kopiuj(_, q))
            && q == d,
    ensures
        h.len() >= 5,
        m.naprawa(zrodlo, ctx, dawca, katalog, h.take(4)) == Nastepny::<Naprawa>::Ruch(
            Ruch::Usun(d),
        ),
{
    let (a, e) = (h.take(2), h.take(4));
    assert(a[0] == h[0] && a[1] == h[1]);
    assert(e[0] == h[0] && e[1] == h[1] && e[2] == h[2] && e[3] == h[3]);
}

/// The check that a module has of its own.
pub open spec fn wlasne_badanie(m: Modul) -> Option<Badanie> {
    match m {
        Modul::AsfClone(_) => Some(Badanie::AsfObiekty),
        Modul::RiffClone(_) => Some(Badanie::RiffFragmenty),
        Modul::Mp3Clone(_) => Some(Badanie::Mp3Ramki),
        Modul::DngStructural(_) => Some(Badanie::RawObraz),
        _ => None,
    }
}

/// The module works on video containers.
pub open spec fn naprawia_wideo(m: Modul) -> bool {
    m is Mp4Clone || m is Mp4Native || m is Mp4Recontainer || m is Mp4Autopilot
}

/// A module with a check of its own reads the result, hands it to that check, and
/// accepts it if and only if the check found it whole.
pub proof fn przyjecie_z_wlasnym_badaniem(m: Modul, plik: Seq<char>, h: Seq<Zdarzenie>)
    requires
        wlasne_badanie(m) is Some,
    ensures
        h.len() == 0 ==> m.weryfikacja(plik, h) == Nastepny::<Werdykt>::Ruch(Ruch::Wczytaj(plik)),
        h.len() >= 1 && !(h[0] matches Zdarzenie::Bajty(Ok(_))) ==> (m.weryfikacja(plik, h)
            matches Nastepny::Koniec(w) && w is Err),
        h.len() == 1 && (h[0] matches Zdarzenie::Bajty(Ok(_))) ==> m.weryfikacja(plik, h)
            == Nastepny::<Werdykt>::Ruch(Ruch::Zbadaj(wlasne_badanie(m)->0)),
        h.len() >= 2 && (h[0] matches Zdarzenie::Bajty(Ok(_))) ==> (m.weryfikacja(plik, h)
            matches Nastepny::Koniec(w) && (w is Ok <==> match m {
            Modul::Mp3Clone(_) => h[1] matches Zdarzenie::Strumien(Some(s)) && s.0,
            Modul::DngStructural(_) => h[1] == Zdarzenie::Udalo(true),
            _ => h[1] == Zdarzenie::Trojstan(Some(true)),
        })),
{
}

/// Every other module leaves the verification to the rules for its format, a module
/// for video to those for video whatever the extension is.
pub proof fn pozostale_wedlug_formatu(m: Modul, plik: Seq<char>, h: Seq<Zdarzenie>)
    requires
        wlasne_badanie(m) is None,
    ensures
        m.weryfikacja(plik, h) == if naprawia_wideo(m) {
            weryfikacja::weryfikacja_wideo(plik, h, 0)
        } else {
            weryfikacja::weryfikacja_pliku(plik, h)
        },
        m.odmawia_dekoder(plik, h) == (!naprawia_wideo(m) && weryfikacja::odmowa_dekodera(plik, h)),
{
}

/// The answers from position `a` up to position `b` all say that the work came out.
pub open spec fn same_sukcesy(h: Seq<Zdarzenie>, a: int, b: int) -> bool {
    h.len() >= b && forall|i: int| a <= i < b ==> #[trigger] h[i] == Zdarzenie::Udalo(true)
}

/// A copy was measured and is no larger than 512 MB.
pub open spec fn w_granicach(z: Zdarzenie) -> bool {
    z matches Zdarzenie::Rozmiar(Ok(n)) && n <= 512 * 1024 * 1024
}

/// Every piece of work that the module asks for came out, and what it found gives it
/// something to do.
pub open spec fn udana_historia(
    m: Modul,
    zrodlo: Seq<char>,
    ctx: &RepairContext<'_>,
    h: Seq<Zdarzenie>,
) -> bool {
    match m {
        Modul::HeicClone(_) | Modul::HeicNative(_) | Modul::PngClone(_) | Modul::PngSanitize(_)
        | Modul::Mp4Native(_) | Modul::Mp4Recontainer(_) => h.len() >= 1 && (h[0]
            matches Zdarzenie::Opis(Some(_))),
        Modul::JpegClone(_) => h.len() >= 2 && (h[0] matches Zdarzenie::Opis(Some(_))),
        Modul::Mp4Clone(_) => h.len() >= 2 && h[0] != Zdarzenie::Trojstan(Some(false)) && (h[1]
            matches Zdarzenie::Opis(Some(_))),
        Modul::Splice(_) => same_sukcesy(h, 0, 4),
        Modul::Sqlite(_) => same_sukcesy(h, 0, 4) && h.len() >= 5 && sciezka::rozszerzenie(
            zrodlo,
        ) is Some,
        Modul::HeaderJpg(_) => same_sukcesy(h, 1, 2) && (h[0] matches Zdarzenie::Bajty(Ok(b)) && !(
        b@.len() >= 2 && b@[0] == 0xFF && b@[1] == 0xD8)),
        Modul::HeaderPng(_) => same_sukcesy(h, 1, 2) && (h[0] matches Zdarzenie::Bajty(Ok(b)) && !(
        b@.len() >= 8 && b@[0] == 0x89 && b@[1] == 0x50 && b@[2] == 0x4E && b@[3] == 0x47 && b@[4]
            == 0x0D && b@[5] == 0x0A && b@[6] == 0x1A && b@[7] == 0x0A)),
        Modul::HeaderRaster(_) => same_sukcesy(h, 1, 2) && (h[0] matches Zdarzenie::Bajty(Ok(b))
            && prawa_kwalifikacji::do_uzupelnienia(ctx.ext@, b@)),
        Modul::Extension(_) => same_sukcesy(h, 0, 1) && extension::prawdziwe_rozszerzenie(
            ctx,
        ) is Some,
        Modul::DngStructural(_) => same_sukcesy(h, 1, 3) && (h[0] matches Zdarzenie::Kandydaci(
            Some(v),
        ) && exists|i: int| 0 <= i < v@.len() && (#[trigger] v@[i]).plausible && v@[i].decodes),
        Modul::Mp4Autopilot(_) => (same_sukcesy(h, 1, 2) || (h.len() >= 4 && h[2]
            == Zdarzenie::Udalo(true))) && (h[0] matches Zdarzenie::Pliki(Some(p)) && exists|i: int|
            0 <= i < p@.len() && tekst::konczy_sie_tekstem(
                (#[trigger] p@[i]).0@,
                "_"@ + sciezka::nazwa(zrodlo)->0 + ".mp4"@,
            )),
        _ => same_sukcesy(h, 5, 7) && w_granicach(h[0]) && w_granicach(h[1]) && (h[2]
            matches Zdarzenie::Bajty(Ok(_))) && (h[3] matches Zdarzenie::Bajty(Ok(_))) && (h[4]
            matches Zdarzenie::Zlozone(Some(_))),
    }
}

/// A repair whose every piece of work came out ends in success: with a donor where it
/// needs one, it gives nothing up that it could have restored.
#[verifier::spinoff_prover]
#[verifier::rlimit(80)]
pub proof fn udane_kroki_daja_wynik(
    m: Modul,
    zrodlo: Seq<char>,
    ctx: &RepairContext<'_>,
    dawca: Option<Seq<char>>,
    katalog: Seq<char>,
    h: Seq<Zdarzenie>,
)
    requires
        sciezka::rdzen(zrodlo) is Some,
        prawa_napraw::wymaga_dawcy(m) ==> dawca is Some,
        udana_historia(m, zrodlo, ctx, h),
    ensures
        m.naprawa(zrodlo, ctx, dawca, katalog, h) matches Nastepny::Koniec(Some(_)),
{
    match m {
        Modul::HeaderJpg(_) => {
            let b = h[0]->Bajty_0->Ok_0@;
            let p = header_jpg::poczatek_obrazu();
            if bajty::zaczyna_sie(b, p) {
                assert(b.subrange(0, p.len() as int)[0] == b[0]);
                assert(b.subrange(0, p.len() as int)[1] == b[1]);
            }
            assert(h[1] == Zdarzenie::Udalo(true));
        },
        Modul::HeaderPng(_) => {
            let b = h[0]->Bajty_0->Ok_0@;
            let p = header_png::sygnatura_png();
            if bajty::zaczyna_sie(b, p) {
                let t = b.subrange(0, p.len() as int);
                assert(t[0] == b[0] && t[1] == b[1] && t[2] == b[2] && t[3] == b[3] && t[4] == b[4]
                    && t[5] == b[5] && t[6] == b[6] && t[7] == b[7]);
            }
            assert(h[1] == Zdarzenie::Udalo(true));
        },
        Modul::HeaderRaster(_) => {
            prawa_kwalifikacji::uzupelniany(ctx.ext@, h[0]->Bajty_0->Ok_0@);
            assert(h[1] == Zdarzenie::Udalo(true));
        },
        Modul::DngStructural(_) => {
            wybor_kandydata(h[0]->Kandydaci_0->0@);
            assert(h[1] == Zdarzenie::Udalo(true) && h[2] == Zdarzenie::Udalo(true));
        },
        Modul::Mp4Autopilot(_) => {
            prawa_kwalifikacji::wynik_kaskady_jest_pierwszy(
                h[0]->Pliki_0->0@,
                "_"@ + sciezka::nazwa(zrodlo)->0 + ".mp4"@,
            );
            assert(same_sukcesy(h, 1, 2) ==> h[1] == Zdarzenie::Udalo(true));
        },
        Modul::Splice(_) | Modul::Sqlite(_) => {
            assert(h[0] == Zdarzenie::Udalo(true) && h[1] == Zdarzenie::Udalo(true) && h[2]
                == Zdarzenie::Udalo(true) && h[3] == Zdarzenie::Udalo(true));
        },
        Modul::Extension(_) => {
            assert(h[0] == Zdarzenie::Udalo(true));
        },
        Modul::ZipSplice(_) | Modul::TarSplice(_) | Modul::MkvClone(_) | Modul::AsfClone(_)
        | Modul::RiffClone(_) | Modul::Mp3Clone(_) => {
            assert(h[5] == Zdarzenie::Udalo(true) && h[6] == Zdarzenie::Udalo(true));
        },
        _ => {},
    }
}

} // verus!
