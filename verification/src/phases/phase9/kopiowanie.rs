//! Copying of a winner: from where, under what name, in what steps, and with
//! what metadata.

use vstd::prelude::*;

use crate::bajty;
use crate::phases::phase9::decyzja::{MergeCandidate, Strona};
use crate::phases::phase9::sciezki;
use crate::phases::phase9::sciezki::{Dowiazanie, KrokZatwierdzenia, WyborNazwy};
use crate::sciezka;

verus! {

/// What a copy gets from the metadata of its original.
#[derive(Clone, Copy, PartialEq, Eq, Structural)]
pub struct Metadane {
    /// The size that the copy must have, where it is known.
    pub rozmiar: Option<i64>,
    pub uid: Option<u32>,
    pub gid: Option<u32>,
    pub mode: Option<u32>,
    /// Time of modification in nanoseconds.
    pub mtime: Option<i64>,
    pub dowiazanie: bool,
}

/// The first value that is there.
pub open spec fn lub_drugi<T>(a: Option<T>, b: Option<T>) -> Option<T> {
    if a is Some {
        a
    } else {
        b
    }
}

/// The metadata of the winning side. A file put together from both sides takes
/// the script's where there are any, and has no size to be held to.
pub open spec fn metadane(f: MergeCandidate, s: Strona) -> Metadane {
    match s {
        Strona::Splice => Metadane {
            rozmiar: None,
            uid: lub_drugi(f.uid_script, f.uid_ufs),
            gid: lub_drugi(f.gid_script, f.gid_ufs),
            mode: lub_drugi(f.mode_script, f.mode_ufs),
            mtime: lub_drugi(f.mtime_script, f.mtime_ufs),
            dowiazanie: false,
        },
        Strona::Script => Metadane {
            rozmiar: f.size_script,
            uid: f.uid_script,
            gid: f.gid_script,
            mode: f.mode_script,
            mtime: f.mtime_script,
            dowiazanie: f.is_symlink_script == Some(true),
        },
        Strona::Ufs => Metadane {
            rozmiar: f.size_ufs,
            uid: f.uid_ufs,
            gid: f.gid_ufs,
            mode: f.mode_ufs,
            mtime: f.mtime_ufs,
            dowiazanie: f.is_symlink_ufs == Some(true),
        },
    }
}

fn pierwsza_u32(a: Option<u32>, b: Option<u32>) -> (r: Option<u32>)
    ensures
        r == lub_drugi(a, b),
{
    match a {
        Some(x) => Some(x),
        None => b,
    }
}

fn pierwsza_i64(a: Option<i64>, b: Option<i64>) -> (r: Option<i64>)
    ensures
        r == lub_drugi(a, b),
{
    match a {
        Some(x) => Some(x),
        None => b,
    }
}

fn prawda(o: Option<bool>) -> (r: bool)
    ensures
        r == (o == Some(true)),
{
    match o {
        Some(b) => b,
        None => false,
    }
}

/// The metadata of the winning side.
pub fn wybierz_metadane(f: &MergeCandidate, s: Strona) -> (r: Metadane)
    ensures
        r == metadane(*f, s),
{
    match s {
        Strona::Splice => Metadane {
            rozmiar: None,
            uid: pierwsza_u32(f.uid_script, f.uid_ufs),
            gid: pierwsza_u32(f.gid_script, f.gid_ufs),
            mode: pierwsza_u32(f.mode_script, f.mode_ufs),
            mtime: pierwsza_i64(f.mtime_script, f.mtime_ufs),
            dowiazanie: false,
        },
        Strona::Script => Metadane {
            rozmiar: f.size_script,
            uid: f.uid_script,
            gid: f.gid_script,
            mode: f.mode_script,
            mtime: f.mtime_script,
            dowiazanie: prawda(f.is_symlink_script),
        },
        Strona::Ufs => Metadane {
            rozmiar: f.size_ufs,
            uid: f.uid_ufs,
            gid: f.gid_ufs,
            mode: f.mode_ufs,
            mtime: f.mtime_ufs,
            dowiazanie: prawda(f.is_symlink_ufs),
        },
    }
}

/// The winning side has a restored version, which is copied in place of the original.
pub open spec fn naprawiona(f: MergeCandidate, s: Strona) -> bool {
    (s == Strona::Script && f.repaired_path_script is Some) || (s == Strona::Ufs
        && f.repaired_path_ufs is Some)
}

/// Whether the winning side has a restored version.
pub fn uzyto_naprawionej(f: &MergeCandidate, s: Strona) -> (r: bool)
    ensures
        r == naprawiona(*f, s),
{
    match s {
        Strona::Splice => false,
        Strona::Script => f.repaired_path_script.is_some(),
        Strona::Ufs => f.repaired_path_ufs.is_some(),
    }
}

/// The file that is copied: the one put together from both sides, the restored
/// version, or the original.
pub open spec fn zrodlo(f: MergeCandidate, s: Strona, ufs: Seq<char>, script: Seq<char>) -> Seq<
    char,
> {
    match s {
        Strona::Splice => f.smart_splice_path->0@,
        Strona::Script => match f.repaired_path_script {
            Some(p) => sciezka::polaczona(script, p@),
            None => sciezka::polaczona(script, f.rel_path@),
        },
        Strona::Ufs => match f.repaired_path_ufs {
            Some(p) => sciezka::polaczona(ufs, p@),
            None => sciezka::polaczona(ufs, f.rel_path@),
        },
    }
}

/// The file that is copied.
pub fn wybierz_zrodlo(f: &MergeCandidate, s: Strona, ufs_path: &str, script_path: &str) -> (r:
    String)
    requires
        s == Strona::Splice ==> f.smart_splice_path is Some,
    ensures
        r@ == zrodlo(*f, s, ufs_path@, script_path@),
{
    match s {
        Strona::Splice => match &f.smart_splice_path {
            Some(p) => p.clone(),
            None => String::new(),
        },
        Strona::Script => match &f.repaired_path_script {
            Some(p) => sciezki::sciezka_naprawiona(p.as_str(), script_path),
            None => sciezka::polacz(script_path, f.rel_path.as_str()),
        },
        Strona::Ufs => match &f.repaired_path_ufs {
            Some(p) => sciezki::sciezka_naprawiona(p.as_str(), ufs_path),
            None => sciezka::polacz(ufs_path, f.rel_path.as_str()),
        },
    }
}

/// A size as a signed number, wrapped around where it does not fit.
pub open spec fn ze_znakiem(n: u64) -> int {
    if n <= i64::MAX {
        n as int
    } else {
        n - 0x1_0000_0000_0000_0000
    }
}

/// A size as a signed number.
pub fn jako_i64(n: u64) -> (r: i64)
    ensures
        r == ze_znakiem(n),
{
    if n <= 0x7FFF_FFFF_FFFF_FFFF {
        n as i64
    } else {
        let d: i64 = (u64::MAX - n) as i64;
        -1 - d
    }
}

/// A time in nanoseconds as whole seconds and the nanoseconds behind them. Before
/// the epoch too, the seconds are rounded down and the rest counts upwards.
pub open spec fn czas(m: i64) -> (int, int) {
    (m as int / 1_000_000_000, m as int % 1_000_000_000)
}

/// The parts of a time make it up again, and the rest is less than a second.
pub proof fn czas_wraca(m: i64)
    ensures
        czas(m).0 * 1_000_000_000 + czas(m).1 == m,
        0 <= czas(m).1 < 1_000_000_000,
{
}

/// A time in nanoseconds as whole seconds and the nanoseconds behind them.
pub fn rozloz_czas(m: i64) -> (r: (i64, u32))
    ensures
        (r.0 as int, r.1 as int) == czas(m),
{
    if m >= 0 {
        let u: u64 = m as u64;
        ((u / 1_000_000_000) as i64, (u % 1_000_000_000) as u32)
    } else {
        let u: u64 = ((-1 - m) as u64) + 1;
        let reszta: u64 = u % 1_000_000_000;
        let s: i64 = 0 - (u / 1_000_000_000) as i64;
        if reszta == 0 {
            (s, 0)
        } else {
            (s - 1, (1_000_000_000 - reszta) as u32)
        }
    }
}

/// A piece of work on the disk.
pub enum Operacja {
    /// Find whether something exists at the path.
    SprawdzIstnienie(String),
    /// Create a directory with its ancestors; the answer is not looked at.
    UtworzKatalog(String),
    /// Read where a symbolic link points.
    CzytajDowiazanie(String),
    /// Create a symbolic link that points to the bytes at the path; fails where it
    /// exists.
    UtworzDowiazanie(Vec<u8>, String),
    /// Copy the first file to the second path.
    Kopiuj(String, String),
    /// Find the size of a file.
    Zmierz(String),
    /// Link the first file to the second path; fails where it exists.
    Polacz(String, String),
    /// Remove a file; the answer is not looked at.
    Usun(String),
    UstawCzas(String, i64, u32),
    UstawPrawa(String, u32),
    UstawWlasciciela(String, u32, u32),
}

/// An answer of the disk.
pub enum Odpowiedz {
    Istnieje(bool),
    Udalo(bool),
    /// Where a symbolic link points, byte for byte: it need not be text.
    Cel(Option<Vec<u8>>),
    Rozmiar(Option<u64>),
    Polaczenie(Dowiazanie),
}

/// A piece of work over plain values.
pub enum Praca {
    SprawdzIstnienie(Seq<char>),
    UtworzKatalog(Seq<char>),
    CzytajDowiazanie(Seq<char>),
    UtworzDowiazanie(Seq<u8>, Seq<char>),
    Kopiuj(Seq<char>, Seq<char>),
    Zmierz(Seq<char>),
    Polacz(Seq<char>, Seq<char>),
    Usun(Seq<char>),
    UstawCzas(Seq<char>, int, int),
    UstawPrawa(Seq<char>, u32),
    UstawWlasciciela(Seq<char>, u32, u32),
}

impl View for Operacja {
    type V = Praca;

    open spec fn view(&self) -> Praca {
        match *self {
            Operacja::SprawdzIstnienie(p) => Praca::SprawdzIstnienie(p@),
            Operacja::UtworzKatalog(p) => Praca::UtworzKatalog(p@),
            Operacja::CzytajDowiazanie(p) => Praca::CzytajDowiazanie(p@),
            Operacja::UtworzDowiazanie(p, q) => Praca::UtworzDowiazanie(p@, q@),
            Operacja::Kopiuj(p, q) => Praca::Kopiuj(p@, q@),
            Operacja::Zmierz(p) => Praca::Zmierz(p@),
            Operacja::Polacz(p, q) => Praca::Polacz(p@, q@),
            Operacja::Usun(p) => Praca::Usun(p@),
            Operacja::UstawCzas(p, s, n) => Praca::UstawCzas(p@, s as int, n as int),
            Operacja::UstawPrawa(p, m) => Praca::UstawPrawa(p@, m),
            Operacja::UstawWlasciciela(p, u, g) => Praca::UstawWlasciciela(p@, u, g),
        }
    }
}

/// One file to be copied.
pub struct Zlecenie {
    pub zrodlo: String,
    pub baza: String,
    pub rel_path: String,
    pub strona: Strona,
    /// A restored version is copied, which has a size of its own.
    pub naprawiona: bool,
    pub meta: Metadane,
    /// The process and a counter, which make the temporary name unique.
    pub pid: u32,
    pub licznik: u64,
}

/// How a copy ended.
pub struct WynikKopii {
    pub success: bool,
    pub saved_path: String,
    pub source_path: String,
    pub naprawiona: bool,
    pub dowiazanie: bool,
    pub zmieniona_nazwa: bool,
    pub blad_io: bool,
    pub blad_metadanych: bool,
}

/// How a copy ended, over plain values.
pub struct Skutek {
    pub success: bool,
    pub saved_path: Seq<char>,
    pub source_path: Seq<char>,
    pub naprawiona: bool,
    pub dowiazanie: bool,
    pub zmieniona_nazwa: bool,
    pub blad_io: bool,
    pub blad_metadanych: bool,
}

impl View for WynikKopii {
    type V = Skutek;

    open spec fn view(&self) -> Skutek {
        Skutek {
            success: self.success,
            saved_path: self.saved_path@,
            source_path: self.source_path@,
            naprawiona: self.naprawiona,
            dowiazanie: self.dowiazanie,
            zmieniona_nazwa: self.zmieniona_nazwa,
            blad_io: self.blad_io,
            blad_metadanych: self.blad_metadanych,
        }
    }
}

/// A copy either succeeded or met an error of the disk, and only a copy that
/// succeeded made a link, changed its name or failed to get its metadata back.
pub open spec fn spojny(s: Skutek) -> bool {
    &&& s.success == !s.blad_io
    &&& s.dowiazanie || s.zmieniona_nazwa || s.blad_metadanych ==> s.success
}

/// The next step of a copy.
pub enum KrokKopii {
    Wykonaj(Operacja),
    Koniec(WynikKopii),
}

/// The next step of a copy over plain values.
pub enum Dalej {
    Praca(Praca),
    Koniec(Skutek),
}

impl View for KrokKopii {
    type V = Dalej;

    open spec fn view(&self) -> Dalej {
        match *self {
            KrokKopii::Wykonaj(o) => Dalej::Praca(o@),
            KrokKopii::Koniec(w) => Dalej::Koniec(w@),
        }
    }
}

/// The answer says that the work succeeded.
pub open spec fn udalo(o: Odpowiedz) -> bool {
    o matches Odpowiedz::Udalo(true)
}

fn udalo_sie(o: &Odpowiedz) -> (r: bool)
    ensures
        r == udalo(*o),
{
    match o {
        Odpowiedz::Udalo(b) => *b,
        _ => false,
    }
}

/// The answers to the questions whether names are taken, up to the first free
/// one, from position `i` on.
pub open spec fn istnienia(h: Seq<Odpowiedz>, i: int) -> Seq<bool>
    decreases h.len() - i,
{
    if i < 0 || i >= h.len() {
        Seq::empty()
    } else if h[i] matches Odpowiedz::Istnieje(true) {
        seq![true] + istnienia(h, i + 1)
    } else {
        seq![false]
    }
}

fn zbierz_istnienia(h: &Vec<Odpowiedz>) -> (r: Vec<bool>)
    ensures
        r@ == istnienia(h@, 0),
        r@.len() <= h@.len(),
{
    let mut r: Vec<bool> = Vec::new();
    let mut i: usize = 0;
    while i < h.len()
        invariant
            i <= h@.len(),
            r@.len() == i,
            istnienia(h@, 0) == r@ + istnienia(h@, i as int),
        decreases h@.len() - i,
    {
        let zajete = match &h[i] {
            Odpowiedz::Istnieje(b) => *b,
            _ => false,
        };
        let ghost przed = r@;
        r.push(zajete);
        if !zajete {
            assert(r@ =~= przed + istnienia(h@, i as int));
            return r;
        }
        i = i + 1;
        assert(r@ + istnienia(h@, i as int) =~= przed + (seq![true] + istnienia(h@, i as int)));
    }
    assert(r@ + istnienia(h@, i as int) =~= r@);
    r
}

/// How the attempts to link ended, up to the first that met no taken name, from
/// position `i` on.
pub open spec fn polaczenia(h: Seq<Odpowiedz>, i: int) -> Seq<Dowiazanie>
    decreases h.len() - i,
{
    if i < 0 || i >= h.len() {
        Seq::empty()
    } else {
        match h[i] {
            Odpowiedz::Polaczenie(Dowiazanie::Zajete) => seq![Dowiazanie::Zajete] + polaczenia(
                h,
                i + 1,
            ),
            Odpowiedz::Polaczenie(d) => seq![d],
            _ => seq![Dowiazanie::Blad],
        }
    }
}

fn zbierz_polaczenia(h: &Vec<Odpowiedz>, od: usize) -> (r: Vec<Dowiazanie>)
    ensures
        r@ == polaczenia(h@, od as int),
        od <= h@.len() ==> od + r@.len() <= h@.len(),
        od > h@.len() ==> r@.len() == 0,
{
    let mut r: Vec<Dowiazanie> = Vec::new();
    let mut i: usize = od;
    while i < h.len()
        invariant
            od <= i,
            od <= h@.len() ==> i <= h@.len(),
            r@.len() == i - od,
            polaczenia(h@, od as int) == r@ + polaczenia(h@, i as int),
        decreases h@.len() - i,
    {
        let d = match &h[i] {
            Odpowiedz::Polaczenie(d) => *d,
            _ => Dowiazanie::Blad,
        };
        let ghost przed = r@;
        r.push(d);
        if d != Dowiazanie::Zajete {
            assert(r@ =~= przed + polaczenia(h@, i as int));
            return r;
        }
        i = i + 1;
        assert(r@ + polaczenia(h@, i as int) =~= przed + (seq![Dowiazanie::Zajete] + polaczenia(
            h@,
            i as int,
        )));
    }
    assert(r@ + polaczenia(h@, i as int) =~= r@);
    r
}

/// The copy of the order `z` failed, under the name `rel`.
pub open spec fn porazka(z: Zlecenie, rel: Seq<char>) -> Dalej {
    Dalej::Koniec(
        Skutek {
            success: false,
            saved_path: rel,
            source_path: z.zrodlo@,
            naprawiona: z.naprawiona,
            dowiazanie: false,
            zmieniona_nazwa: false,
            blad_io: true,
            blad_metadanych: false,
        },
    )
}

fn zakoncz_porazka(z: &Zlecenie, rel: String) -> (r: KrokKopii)
    ensures
        r@ == porazka(*z, rel@),
{
    KrokKopii::Koniec(
        WynikKopii {
            success: false,
            saved_path: rel,
            source_path: z.zrodlo.clone(),
            naprawiona: z.naprawiona,
            dowiazanie: false,
            zmieniona_nazwa: false,
            blad_io: true,
            blad_metadanych: false,
        },
    )
}

/// Before it fails, a copy removes its temporary file.
pub open spec fn porazka_po_sprzataniu(
    z: Zlecenie,
    rel: Seq<char>,
    tmp: Seq<char>,
    h: Seq<Odpowiedz>,
    i: int,
) -> Dalej {
    if h.len() <= i {
        Dalej::Praca(Praca::Usun(tmp))
    } else {
        porazka(z, rel)
    }
}

fn posprzataj(z: &Zlecenie, rel: String, tmp: String, h: &Vec<Odpowiedz>, i: usize) -> (r:
    KrokKopii)
    ensures
        r@ == porazka_po_sprzataniu(*z, rel@, tmp@, h@, i as int),
{
    if h.len() <= i {
        KrokKopii::Wykonaj(Operacja::Usun(tmp))
    } else {
        zakoncz_porazka(z, rel)
    }
}

/// The metadata that are given back to a copy, in their order.
pub open spec fn odtwarzane(m: Metadane, cel: Seq<char>) -> Seq<Praca> {
    (match m.mtime {
        Some(t) => seq![Praca::UstawCzas(cel, czas(t).0, czas(t).1)],
        None => Seq::empty(),
    }) + (match m.mode {
        Some(p) if !m.dowiazanie => seq![Praca::UstawPrawa(cel, p)],
        _ => Seq::empty(),
    }) + (match (m.uid, m.gid) {
        (Some(u), Some(g)) => seq![Praca::UstawWlasciciela(cel, u, g)],
        _ => Seq::empty(),
    })
}

/// Giving back the metadata, from the answer at position `q` on. A failure is
/// noted but does not undo the copy.
#[verifier::opaque]
pub open spec fn odtworzenie(
    z: Zlecenie,
    cel: Seq<char>,
    rel: Seq<char>,
    zmieniona: bool,
    h: Seq<Odpowiedz>,
    q: int,
) -> Dalej {
    let prace = odtwarzane(z.meta, cel);
    if h.len() - q < prace.len() {
        Dalej::Praca(prace[h.len() - q])
    } else {
        Dalej::Koniec(
            Skutek {
                success: true,
                saved_path: rel,
                source_path: z.zrodlo@,
                naprawiona: z.naprawiona,
                dowiazanie: z.meta.dowiazanie,
                zmieniona_nazwa: zmieniona,
                blad_io: false,
                blad_metadanych: exists|i: int| 0 <= i < prace.len() && !#[trigger] udalo(h[q + i]),
            },
        )
    }
}

fn odtworz(
    z: &Zlecenie,
    cel: String,
    rel: String,
    zmieniona: bool,
    h: &Vec<Odpowiedz>,
    q: usize,
) -> (r: KrokKopii)
    requires
        q <= h@.len(),
    ensures
        r@ == odtworzenie(*z, cel@, rel@, zmieniona, h@, q as int),
{
    proof {
        reveal(odtworzenie);
    }
    let ghost prace = odtwarzane(z.meta, cel@);
    let mut i: usize = q;
    let mut blad = false;
    if let Some(t) = z.meta.mtime {
        if i == h.len() {
            let (s, n) = rozloz_czas(t);
            return KrokKopii::Wykonaj(Operacja::UstawCzas(cel, s, n));
        }
        if !udalo_sie(&h[i]) {
            blad = true;
        }
        i = i + 1;
    }
    let ghost a = i - q;
    assert(blad <==> exists|j: int| 0 <= j < a && !#[trigger] udalo(h@[q + j])) by {
        if a > 0 && !udalo(h@[q as int]) {
            assert(!udalo(h@[q + (a - 1)]));
        }
    }
    if let Some(p) = z.meta.mode {
        if !z.meta.dowiazanie {
            if i == h.len() {
                assert(prace[a] == Praca::UstawPrawa(cel@, p));
                return KrokKopii::Wykonaj(Operacja::UstawPrawa(cel, p));
            }
            if !udalo_sie(&h[i]) {
                blad = true;
            }
            i = i + 1;
        }
    }
    let ghost b = i - q;
    assert(blad <==> exists|j: int| 0 <= j < b && !#[trigger] udalo(h@[q + j])) by {
        if b > a && !udalo(h@[q + a]) {
            assert(!udalo(h@[q + (b - 1)]));
        }
    }
    if let (Some(u), Some(g)) = (z.meta.uid, z.meta.gid) {
        if i == h.len() {
            assert(prace[b] == Praca::UstawWlasciciela(cel@, u, g));
            return KrokKopii::Wykonaj(Operacja::UstawWlasciciela(cel, u, g));
        }
        if !udalo_sie(&h[i]) {
            blad = true;
        }
        i = i + 1;
    }
    let ghost c = i - q;
    assert(blad <==> exists|j: int| 0 <= j < c && !#[trigger] udalo(h@[q + j])) by {
        if c > b && !udalo(h@[q + b]) {
            assert(!udalo(h@[q + (c - 1)]));
        }
    }
    assert(c == prace.len());
    KrokKopii::Koniec(
        WynikKopii {
            success: true,
            saved_path: rel,
            source_path: z.zrodlo.clone(),
            naprawiona: z.naprawiona,
            dowiazanie: z.meta.dowiazanie,
            zmieniona_nazwa: zmieniona,
            blad_io: false,
            blad_metadanych: blad,
        },
    )
}

/// The copy has the size it must have, or none is known.
pub open spec fn rozmiar_zgodny(o: Odpowiedz, oczekiwany: Option<i64>) -> bool {
    o matches Odpowiedz::Rozmiar(Some(n)) && (oczekiwany matches Some(e) ==> ze_znakiem(n) == e)
}

fn zgodny_rozmiar(o: &Odpowiedz, oczekiwany: Option<i64>) -> (r: bool)
    ensures
        r == rozmiar_zgodny(*o, oczekiwany),
{
    match o {
        Odpowiedz::Rozmiar(Some(n)) => match oczekiwany {
            Some(e) => jako_i64(*n) == e,
            None => true,
        },
        _ => false,
    }
}

/// Giving the finished temporary file its name, from the answer at position `q` on.
#[verifier::opaque]
pub open spec fn zatwierdzenie(
    z: Zlecenie,
    rel: Seq<char>,
    tmp: Seq<char>,
    h: Seq<Odpowiedz>,
    q: int,
) -> Dalej {
    let p = polaczenia(h, q);
    let k = sciezki::pierwsze_rozstrzygniete(p);
    if k == p.len() {
        Dalej::Praca(Praca::Polacz(tmp, sciezki::pelna(z.baza@, z.rel_path@, z.strona, k)))
    } else if p[k as int] == Dowiazanie::Utworzone {
        if h.len() <= q + k + 1 {
            Dalej::Praca(Praca::Usun(tmp))
        } else {
            odtworzenie(
                z,
                sciezki::pelna(z.baza@, z.rel_path@, z.strona, k),
                sciezki::kandydat(z.rel_path@, z.strona, k),
                k != 0,
                h,
                q + k + 2,
            )
        }
    } else {
        porazka_po_sprzataniu(z, rel, tmp, h, q + k + 1)
    }
}

proof fn rozstrzygniete_w_zakresie(p: Seq<Dowiazanie>)
    ensures
        sciezki::pierwsze_rozstrzygniete(p) <= p.len(),
    decreases p.len(),
{
    if p.len() > 0 && p[0] == Dowiazanie::Zajete {
        rozstrzygniete_w_zakresie(p.skip(1));
    }
}

pub(crate) proof fn polaczenia_koncza_sie(h: Seq<Odpowiedz>, i: int)
    requires
        0 <= i <= h.len(),
    ensures
        ({
            let p = polaczenia(h, i);
            let k = sciezki::pierwsze_rozstrzygniete(p);
            k <= p.len() && (k < p.len() ==> k + 1 == p.len()) && i + p.len() <= h.len()
        }),
    decreases h.len() - i,
{
    if i < h.len() {
        let p = polaczenia(h, i);
        if h[i] matches Odpowiedz::Polaczenie(Dowiazanie::Zajete) {
            polaczenia_koncza_sie(h, i + 1);
            assert(p.skip(1) =~= polaczenia(h, i + 1));
        }
    }
}

fn zatwierdz(z: &Zlecenie, rel: String, tmp: String, h: &Vec<Odpowiedz>, q: usize) -> (r: KrokKopii)
    requires
        q <= h@.len(),
        h@.len() < usize::MAX,
    ensures
        r@ == zatwierdzenie(*z, rel@, tmp@, h@, q as int),
{
    let p = zbierz_polaczenia(h, q);
    proof {
        reveal(zatwierdzenie);
        polaczenia_koncza_sie(h@, q as int);
    }
    let ile: usize = p.len();
    match sciezki::commit_bez_nadpisania(z.baza.as_str(), z.rel_path.as_str(), z.strona, &p) {
        KrokZatwierdzenia::Polacz(c) => KrokKopii::Wykonaj(Operacja::Polacz(tmp, c)),
        KrokZatwierdzenia::Gotowe(c, finalna, zmieniona) => {
            if h.len() <= q + ile {
                KrokKopii::Wykonaj(Operacja::Usun(tmp))
            } else {
                odtworz(z, c, finalna, zmieniona, h, q + ile + 1)
            }
        },
        KrokZatwierdzenia::Odmowa => posprzataj(z, rel, tmp, h, q + ile),
    }
}

/// The temporary file of a copy that is meant for `cel`.
pub open spec fn tymczasowy(z: Zlecenie, cel: Seq<char>) -> Seq<char> {
    sciezka::z_nazwa(
        cel,
        sciezki::nazwa_tymczasowa(
            sciezki::nazwa_lub_plik(cel),
            z.pid as nat,
            z.licznik as nat,
        ),
    )
}

/// The work on a file whose first free name is the candidate `k`, from the
/// answer at position `p` on: a symbolic link is made anew; any other file goes
/// to a temporary file first, is checked for its size unless it was restored,
/// and then gets its name without overwriting anything.
#[verifier::opaque]
pub open spec fn przeniesienie(z: Zlecenie, k: nat, h: Seq<Odpowiedz>, p: int) -> Dalej {
    let cel = sciezki::pelna(z.baza@, z.rel_path@, z.strona, k);
    let rel = sciezki::kandydat(z.rel_path@, z.strona, k);
    let tmp = tymczasowy(z, cel);
    if z.meta.dowiazanie {
        if h.len() <= p {
            Dalej::Praca(Praca::CzytajDowiazanie(z.zrodlo@))
        } else {
            match h[p] {
                Odpowiedz::Cel(Some(l)) => if h.len() <= p + 1 {
                    Dalej::Praca(Praca::UtworzDowiazanie(l@, cel))
                } else if udalo(h[p + 1]) {
                    odtworzenie(z, cel, rel, k != 0, h, p + 2)
                } else {
                    porazka(z, rel)
                },
                _ => porazka(z, rel),
            }
        }
    } else if h.len() <= p {
        Dalej::Praca(Praca::Kopiuj(z.zrodlo@, tmp))
    } else if !udalo(h[p]) {
        porazka_po_sprzataniu(z, rel, tmp, h, p + 1)
    } else if z.naprawiona {
        zatwierdzenie(z, rel, tmp, h, p + 1)
    } else if h.len() <= p + 1 {
        Dalej::Praca(Praca::Zmierz(tmp))
    } else if rozmiar_zgodny(h[p + 1], z.meta.rozmiar) {
        zatwierdzenie(z, rel, tmp, h, p + 2)
    } else {
        porazka_po_sprzataniu(z, rel, tmp, h, p + 2)
    }
}

fn przenies(z: &Zlecenie, cel: String, rel: String, zmieniona: bool, h: &Vec<Odpowiedz>, p: usize, Ghost(
    k,
): Ghost<nat>) -> (r: KrokKopii)
    requires
        p <= h@.len(),
        h@.len() < usize::MAX,
        cel@ == sciezki::pelna(z.baza@, z.rel_path@, z.strona, k),
        rel@ == sciezki::kandydat(z.rel_path@, z.strona, k),
        zmieniona == (k != 0),
    ensures
        r@ == przeniesienie(*z, k, h@, p as int),
{
    proof {
        reveal(przeniesienie);
    }
    if z.meta.dowiazanie {
        if h.len() <= p {
            return KrokKopii::Wykonaj(Operacja::CzytajDowiazanie(z.zrodlo.clone()));
        }
        return match &h[p] {
            Odpowiedz::Cel(Some(l)) => {
                if h.len() <= p + 1 {
                    KrokKopii::Wykonaj(Operacja::UtworzDowiazanie(bajty::kopia(l), cel))
                } else if udalo_sie(&h[p + 1]) {
                    odtworz(z, cel, rel, zmieniona, h, p + 2)
                } else {
                    zakoncz_porazka(z, rel)
                }
            },
            _ => zakoncz_porazka(z, rel),
        };
    }
    let tmp = sciezki::sciezka_tymczasowa(cel.as_str(), z.pid, z.licznik);
    if h.len() <= p {
        return KrokKopii::Wykonaj(Operacja::Kopiuj(z.zrodlo.clone(), tmp));
    }
    if !udalo_sie(&h[p]) {
        return posprzataj(z, rel, tmp, h, p + 1);
    }
    if z.naprawiona {
        return zatwierdz(z, rel, tmp, h, p + 1);
    }
    if h.len() <= p + 1 {
        return KrokKopii::Wykonaj(Operacja::Zmierz(tmp));
    }
    if zgodny_rozmiar(&h[p + 1], z.meta.rozmiar) {
        zatwierdz(z, rel, tmp, h, p + 2)
    } else {
        posprzataj(z, rel, tmp, h, p + 2)
    }
}

/// The copy of one file: look for a free name, create its directory, and move
/// the file there. `h` holds the answers so far.
pub open spec fn kopia(z: Zlecenie, h: Seq<Odpowiedz>) -> Dalej {
    let zajete = istnienia(h, 0);
    let k = sciezki::pierwsza_wolna(zajete);
    let cel = sciezki::pelna(z.baza@, z.rel_path@, z.strona, k);
    if k == zajete.len() {
        Dalej::Praca(Praca::SprawdzIstnienie(cel))
    } else {
        match sciezka::rodzic(cel) {
            Some(d) => if h.len() <= k + 1 {
                Dalej::Praca(Praca::UtworzKatalog(d))
            } else {
                przeniesienie(z, k, h, k as int + 2)
            },
            None => przeniesienie(z, k, h, k as int + 1),
        }
    }
}

pub(crate) proof fn istnienia_koncza_sie(h: Seq<Odpowiedz>, i: int)
    requires
        0 <= i <= h.len(),
    ensures
        ({
            let z = istnienia(h, i);
            let k = sciezki::pierwsza_wolna(z);
            k <= z.len() && (k < z.len() ==> k + 1 == z.len()) && i + z.len() <= h.len()
        }),
    decreases h.len() - i,
{
    if i < h.len() {
        let z = istnienia(h, i);
        if h[i] matches Odpowiedz::Istnieje(true) {
            istnienia_koncza_sie(h, i + 1);
            assert(z.skip(1) =~= istnienia(h, i + 1));
        }
    }
}

/// What a step of a copy may be: work on the temporary file, a link, metadata,
/// or an end that is told truly.
spec fn dopuszczalny(z: Zlecenie, tmp: Seq<char>, d: Dalej) -> bool {
    match d {
        Dalej::Praca(Praca::Kopiuj(a, b)) => a == z.zrodlo@ && b == tmp,
        Dalej::Praca(Praca::Usun(p)) => p == tmp,
        Dalej::Praca(Praca::Polacz(a, _)) => a == tmp,
        Dalej::Praca(_) => true,
        Dalej::Koniec(s) => spojny(s) && s.source_path == z.zrodlo@ && (s.success
            ==> pod_nazwa_kandydata(z, s)),
    }
}

/// The copy lies under one of the candidate names, the first of them where the
/// name was not changed.
pub open spec fn pod_nazwa_kandydata(z: Zlecenie, s: Skutek) -> bool {
    exists|k: nat|
        s.saved_path == #[trigger] sciezki::kandydat(z.rel_path@, z.strona, k) && s.zmieniona_nazwa
            == (k != 0)
}

proof fn odtworzenie_dopuszczalne(
    z: Zlecenie,
    tmp: Seq<char>,
    cel: Seq<char>,
    k: nat,
    h: Seq<Odpowiedz>,
    q: int,
)
    requires
        q <= h.len(),
    ensures
        ({
            let rel = sciezki::kandydat(z.rel_path@, z.strona, k);
            dopuszczalny(z, tmp, odtworzenie(z, cel, rel, k != 0, h, q))
        }),
{
    reveal(odtworzenie);
    let prace = odtwarzane(z.meta, cel);
    let i = h.len() - q;
    if i < prace.len() {
        assert(prace[i] is UstawCzas || prace[i] is UstawPrawa || prace[i] is UstawWlasciciela);
    }
}

proof fn zatwierdzenie_dopuszczalne(
    z: Zlecenie,
    rel: Seq<char>,
    tmp: Seq<char>,
    h: Seq<Odpowiedz>,
    q: int,
)
    requires
        0 <= q <= h.len(),
    ensures
        dopuszczalny(z, tmp, zatwierdzenie(z, rel, tmp, h, q)),
{
    reveal(zatwierdzenie);
    let p = polaczenia(h, q);
    let k = sciezki::pierwsze_rozstrzygniete(p);
    polaczenia_koncza_sie(h, q);
    if h.len() >= q + k + 2 {
        odtworzenie_dopuszczalne(
            z,
            tmp,
            sciezki::pelna(z.baza@, z.rel_path@, z.strona, k),
            k,
            h,
            q + k + 2,
        );
    }
}

proof fn przeniesienie_dopuszczalne(z: Zlecenie, k: nat, h: Seq<Odpowiedz>, p: int)
    requires
        0 <= p <= h.len(),
    ensures
        dopuszczalny(
            z,
            tymczasowy(z, sciezki::pelna(z.baza@, z.rel_path@, z.strona, k)),
            przeniesienie(z, k, h, p),
        ),
{
    reveal(przeniesienie);
    let cel = sciezki::pelna(z.baza@, z.rel_path@, z.strona, k);
    let rel = sciezki::kandydat(z.rel_path@, z.strona, k);
    let tmp = tymczasowy(z, cel);
    if h.len() >= p + 1 {
        zatwierdzenie_dopuszczalne(z, rel, tmp, h, p + 1);
    }
    if h.len() >= p + 2 {
        zatwierdzenie_dopuszczalne(z, rel, tmp, h, p + 2);
        odtworzenie_dopuszczalne(z, tmp, cel, k, h, p + 2);
    }
}

proof fn kopia_dopuszczalna(z: Zlecenie, h: Seq<Odpowiedz>)
    ensures
        dopuszczalny(
            z,
            tymczasowy(
                z,
                sciezki::pelna(
                    z.baza@,
                    z.rel_path@,
                    z.strona,
                    sciezki::pierwsza_wolna(istnienia(h, 0)),
                ),
            ),
            kopia(z, h),
        ),
{
    istnienia_koncza_sie(h, 0);
    let k = sciezki::pierwsza_wolna(istnienia(h, 0));
    if h.len() >= k + 1 {
        przeniesienie_dopuszczalne(z, k, h, k as int + 1);
    }
    if h.len() >= k + 2 {
        przeniesienie_dopuszczalne(z, k, h, k as int + 2);
    }
}

/// Copies the winner, or makes its symbolic link anew, and gives back its
/// metadata: the next piece of work, or how it ended.
pub fn copy_file_and_meta(z: &Zlecenie, h: &Vec<Odpowiedz>) -> (r: KrokKopii)
    requires
        h@.len() < usize::MAX,
    ensures
        r@ == kopia(*z, h@),
        r matches KrokKopii::Koniec(w) ==> spojny(w@) && w.source_path@ == z.zrodlo@,
{
    let zajete = zbierz_istnienia(h);
    proof {
        istnienia_koncza_sie(h@, 0);
        kopia_dopuszczalna(*z, h@);
    }
    let ghost k = sciezki::pierwsza_wolna(zajete@);
    let ile: usize = zajete.len();
    match sciezki::get_safe_target_path(z.baza.as_str(), z.rel_path.as_str(), z.strona, &zajete) {
        WyborNazwy::Sprawdz(p) => KrokKopii::Wykonaj(Operacja::SprawdzIstnienie(p)),
        WyborNazwy::Wybrano(cel, rel, zmieniona) => match sciezka::katalog(cel.as_str()) {
            Some(d) => {
                if h.len() <= ile {
                    KrokKopii::Wykonaj(Operacja::UtworzKatalog(d))
                } else {
                    przenies(z, cel, rel, zmieniona, h, ile + 1, Ghost(k))
                }
            },
            None => przenies(z, cel, rel, zmieniona, h, ile, Ghost(k)),
        },
    }
}

/// The order to copy the winner of a file.
pub fn zlec_kopie(
    f: &MergeCandidate,
    winner: Strona,
    ufs_path: &str,
    script_path: &str,
    target_base: &str,
    pid: u32,
    licznik: u64,
) -> (r: Zlecenie)
    requires
        winner == Strona::Splice ==> f.smart_splice_path is Some,
    ensures
        r.zrodlo@ == zrodlo(*f, winner, ufs_path@, script_path@),
        r.baza@ == target_base@,
        r.rel_path@ == f.rel_path@,
        r.strona == winner,
        r.naprawiona == naprawiona(*f, winner),
        r.meta == metadane(*f, winner),
        r.pid == pid,
        r.licznik == licznik,
{
    Zlecenie {
        zrodlo: wybierz_zrodlo(f, winner, ufs_path, script_path),
        baza: target_base.to_owned(),
        rel_path: f.rel_path.clone(),
        strona: winner,
        naprawiona: uzyto_naprawionej(f, winner),
        meta: wybierz_metadane(f, winner),
        pid,
        licznik,
    }
}

/// Nothing that exists is ever overwritten or removed: data are copied to the
/// temporary file alone, that file alone is removed, and names are given only by
/// links, which fail where the name is taken.
pub proof fn kopia_niczego_nie_nadpisuje(z: Zlecenie, h: Seq<Odpowiedz>, w: Praca)
    requires
        kopia(z, h) == Dalej::Praca(w),
    ensures
        ({
            let k = sciezki::pierwsza_wolna(istnienia(h, 0));
            let tmp = tymczasowy(z, sciezki::pelna(z.baza@, z.rel_path@, z.strona, k));
            match w {
                Praca::Kopiuj(a, b) => a == z.zrodlo@ && b == tmp,
                Praca::Usun(p) => p == tmp,
                Praca::Polacz(a, _) => a == tmp,
                _ => true,
            }
        }),
{
    kopia_dopuszczalna(z, h);
}

/// The size of the temporary file was found right.
pub open spec fn sprawdzony(z: Zlecenie, h: Seq<Odpowiedz>) -> bool {
    exists|i: int| 0 <= i < h.len() && #[trigger] rozmiar_zgodny(h[i], z.meta.rozmiar)
}

/// A copy of an original gets a name only after its size was found right: one of
/// a wrong size leaves nothing under a final name.
pub proof fn zly_rozmiar_nie_dostaje_nazwy(z: Zlecenie, h: Seq<Odpowiedz>)
    requires
        !z.meta.dowiazanie,
        !z.naprawiona,
        kopia(z, h) matches Dalej::Praca(Praca::Polacz(_, _)) || (kopia(z, h) matches Dalej::Koniec(
            s,
        ) && s.success),
    ensures
        sprawdzony(z, h),
{
    reveal(przeniesienie);
    istnienia_koncza_sie(h, 0);
    let k = sciezki::pierwsza_wolna(istnienia(h, 0)) as int;
    let p = if sciezka::rodzic(
        sciezki::pelna(z.baza@, z.rel_path@, z.strona, k as nat),
    ) is Some {
        k + 2
    } else {
        k + 1
    };
    assert(rozmiar_zgodny(h[p + 1], z.meta.rozmiar));
}

/// Answers that come behind the first free name do not change the search for it.
proof fn istnienia_ustalone(h: Seq<Odpowiedz>, m: int, i: int)
    requires
        0 <= i <= m <= h.len(),
        ({
            let z = istnienia(h.take(m), i);
            sciezki::pierwsza_wolna(z) < z.len()
        }),
    ensures
        istnienia(h, i) == istnienia(h.take(m), i),
    decreases m - i,
{
    let g = h.take(m);
    if i < m {
        assert(g[i] == h[i]);
        if h[i] matches Odpowiedz::Istnieje(true) {
            assert(istnienia(g, i).skip(1) =~= istnienia(g, i + 1));
            istnienia_ustalone(h, m, i + 1);
        }
    }
}

/// Answers that come behind the attempt that decided do not change the attempts.
pub(crate) proof fn polaczenia_ustalone(h: Seq<Odpowiedz>, m: int, i: int)
    requires
        0 <= i <= m <= h.len(),
        i + polaczenia(h, i).len() <= m,
        sciezki::pierwsze_rozstrzygniete(polaczenia(h, i)) < polaczenia(h, i).len(),
    ensures
        polaczenia(h.take(m), i) == polaczenia(h, i),
    decreases m - i,
{
    let g = h.take(m);
    let p = polaczenia(h, i);
    assert(p.len() > 0);
    assert(g[i] == h[i]);
    if h[i] matches Odpowiedz::Polaczenie(Dowiazanie::Zajete) {
        assert(p.skip(1) =~= polaczenia(h, i + 1));
        polaczenia_ustalone(h, m, i + 1);
    }
}

/// A commitment that has ended ordered the temporary file removed: this answer was
/// to that order.
proof fn zatwierdzenie_sprzata(
    z: Zlecenie,
    rel: Seq<char>,
    tmp: Seq<char>,
    h: Seq<Odpowiedz>,
    q: int,
) -> (j: int)
    requires
        0 <= q <= h.len(),
        zatwierdzenie(z, rel, tmp, h, q) is Koniec,
    ensures
        q <= j < h.len(),
        zatwierdzenie(z, rel, tmp, h.take(j), q) == Dalej::Praca(Praca::Usun(tmp)),
{
    reveal(zatwierdzenie);
    let k: nat = sciezki::pierwsze_rozstrzygniete(polaczenia(h, q));
    polaczenia_koncza_sie(h, q);
    let j: int = q + k + 1;
    polaczenia_ustalone(h, j, q);
    j
}

/// Work on a file that has ended after its copy was ordered has ordered the
/// temporary file removed: this answer was to that order.
proof fn przeniesienie_sprzata(z: Zlecenie, k: nat, h: Seq<Odpowiedz>, p: int) -> (j: int)
    requires
        0 <= p < h.len(),
        !z.meta.dowiazanie,
        przeniesienie(z, k, h, p) is Koniec,
    ensures
        p < j < h.len(),
        przeniesienie(z, k, h.take(j), p) == Dalej::Praca(
            Praca::Usun(tymczasowy(z, sciezki::pelna(z.baza@, z.rel_path@, z.strona, k))),
        ),
{
    reveal(przeniesienie);
    let cel = sciezki::pelna(z.baza@, z.rel_path@, z.strona, k);
    let rel = sciezki::kandydat(z.rel_path@, z.strona, k);
    let tmp = tymczasowy(z, cel);
    if !udalo(h[p]) {
        assert(h.take(p + 1)[p] == h[p]);
        p + 1
    } else if z.naprawiona {
        let j: int = zatwierdzenie_sprzata(z, rel, tmp, h, p + 1);
        assert(h.take(j)[p] == h[p]);
        j
    } else if rozmiar_zgodny(h[p + 1], z.meta.rozmiar) {
        let j: int = zatwierdzenie_sprzata(z, rel, tmp, h, p + 2);
        assert(h.take(j)[p] == h[p] && h.take(j)[p + 1] == h[p + 1]);
        j
    } else {
        assert(h.take(p + 2)[p] == h[p] && h.take(p + 2)[p + 1] == h[p + 1]);
        p + 2
    }
}

/// The position of the answer with which the work on a file starts whose first
/// free name is the candidate `k`.
spec fn kopia_od(z: Zlecenie, k: nat) -> int {
    if sciezka::rodzic(sciezki::pelna(z.baza@, z.rel_path@, z.strona, k)) is Some {
        k as int + 2
    } else {
        k as int + 1
    }
}

/// Data are ordered to a temporary file only as the first step of the work on it.
proof fn zlecenie_kopii(z: Zlecenie, k: nat, g: Seq<Odpowiedz>, p: int)
    requires
        0 <= p <= g.len(),
        przeniesienie(z, k, g, p) matches Dalej::Praca(Praca::Kopiuj(_, _)),
    ensures
        !z.meta.dowiazanie,
        g.len() == p,
        przeniesienie(z, k, g, p) == Dalej::Praca(
            Praca::Kopiuj(
                z.zrodlo@,
                tymczasowy(z, sciezki::pelna(z.baza@, z.rel_path@, z.strona, k)),
            ),
        ),
{
    reveal(przeniesienie);
    reveal(zatwierdzenie);
    reveal(odtworzenie);
}

/// However a copy ended, it asked for no temporary file to stay behind: where data
/// were ordered to a temporary file, a later step ordered that file removed.
pub proof fn kopia_nie_zostawia_pliku_tymczasowego(
    z: Zlecenie,
    h: Seq<Odpowiedz>,
    i: int,
    a: Seq<char>,
    tmp: Seq<char>,
)
    requires
        kopia(z, h) is Koniec,
        0 <= i < h.len(),
        kopia(z, h.take(i)) == Dalej::Praca(Praca::Kopiuj(a, tmp)),
    ensures
        exists|j: int|
            i < j < h.len() && kopia(z, #[trigger] h.take(j)) == Dalej::Praca(Praca::Usun(tmp)),
{
    let g = h.take(i);
    let k: nat = sciezki::pierwsza_wolna(istnienia(g, 0));
    istnienia_koncza_sie(g, 0);
    istnienia_ustalone(h, i, 0);
    assert(!z.meta.dowiazanie && i == kopia_od(z, k) && tmp == tymczasowy(
        z,
        sciezki::pelna(z.baza@, z.rel_path@, z.strona, k),
    )) by {
        zlecenie_kopii(z, k, g, kopia_od(z, k));
    }
    let j: int = przeniesienie_sprzata(z, k, h, i);
    assert(h.take(j).take(i) =~= g);
    istnienia_ustalone(h.take(j), i, 0);
}

/// A copy that succeeded lies under one of the candidate names, the first of
/// them where the name was not changed.
pub proof fn udana_kopia_pod_nazwa_kandydata(z: Zlecenie, h: Seq<Odpowiedz>, s: Skutek)
    requires
        kopia(z, h) == Dalej::Koniec(s),
        s.success,
    ensures
        pod_nazwa_kandydata(z, s),
{
    kopia_dopuszczalna(z, h);
}

} // verus!
