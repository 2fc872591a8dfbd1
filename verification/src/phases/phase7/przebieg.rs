//! The scan of one side: which files are read, what is counted, what is reported.

use vstd::prelude::*;

use crate::binary64::Binary64;
use crate::licznik;
use crate::licznik::Licznik;
use crate::phases::phase7::entropia;
use crate::phases::phase7::entropia::KategoriaEntropii;
use crate::tekst;

verus! {

/// Files handed to one worker at a time.
pub const CHUNK_SIZE: usize = 100;

/// A file whose entropy is wanted on one side.
pub struct Task {
    pub id: i32,
    pub rel_path: String,
    pub is_common: bool,
}

/// What becomes of one file on one side.
#[derive(Clone, Copy, Debug, PartialEq, Eq, Structural)]
pub struct SideEntropyResult {
    pub id: i32,
    pub entropy: Option<Binary64>,
    pub io_error: Option<bool>,
}

/// How the reading of one file ended.
pub enum WynikEntropii {
    Entropia(Binary64),
    Przerwano,
    Blad(String),
}

/// One row of the register, as far as this scan looks at it.
pub struct Wiersz {
    pub id: i32,
    pub relative_path: String,
    pub found_in_ufs: bool,
    pub found_in_script: bool,
    pub entropy_ufs: Option<Binary64>,
    pub entropy_script: Option<Binary64>,
    pub io_error_ufs: Option<bool>,
    pub io_error_script: Option<bool>,
}

/// The files to read on each side, and how many were left out.
pub struct Plan {
    pub ufs: Vec<Task>,
    pub script: Vec<Task>,
    pub pominiete_ufs: usize,
    pub pominiete_script: usize,
}

/// A row has a file on the given side.
pub open spec fn obecny(w: Wiersz, ufs: bool) -> bool {
    if ufs {
        w.found_in_ufs
    } else {
        w.found_in_script
    }
}

/// Neither an entropy nor a read error is on record for the given side.
pub open spec fn nieznany(w: Wiersz, ufs: bool) -> bool {
    if ufs {
        w.entropy_ufs is None && w.io_error_ufs != Some(true)
    } else {
        w.entropy_script is None && w.io_error_script != Some(true)
    }
}

/// A file of the given side that still has to be read.
pub open spec fn w_kolejce(w: Wiersz, ufs: bool) -> bool {
    obecny(w, ufs) && nieznany(w, ufs)
}

/// The queue of one side, in the order of the rows: identifier, path, and
/// whether both sides hold the file.
pub open spec fn kolejka(s: Seq<Wiersz>, ufs: bool) -> Seq<(i32, Seq<char>, bool)>
    decreases s.len(),
{
    if s.len() == 0 {
        Seq::empty()
    } else {
        let w = s.last();
        let k = kolejka(s.drop_last(), ufs);
        if w_kolejce(w, ufs) {
            k.push((w.id, w.relative_path@, w.found_in_ufs && w.found_in_script))
        } else {
            k
        }
    }
}

/// How many rows have a file on the given side.
pub open spec fn obecne(s: Seq<Wiersz>, ufs: bool) -> nat
    decreases s.len(),
{
    if s.len() == 0 {
        0
    } else {
        obecne(s.drop_last(), ufs) + if obecny(s.last(), ufs) {
            1nat
        } else {
            0
        }
    }
}

/// How many files of one side are left out because they are known already.
pub open spec fn pominiete(s: Seq<Wiersz>, ufs: bool) -> nat
    decreases s.len(),
{
    if s.len() == 0 {
        0
    } else {
        pominiete(s.drop_last(), ufs) + if obecny(s.last(), ufs) && !nieznany(s.last(), ufs) {
            1nat
        } else {
            0
        }
    }
}

/// What a queue of tasks holds.
pub open spec fn zadania(v: Seq<Task>) -> Seq<(i32, Seq<char>, bool)> {
    v.map_values(|t: Task| (t.id, t.rel_path@, t.is_common))
}

/// Every file of a side is either queued or left out, never both.
pub proof fn kazdy_plik_raz(s: Seq<Wiersz>, ufs: bool)
    ensures
        kolejka(s, ufs).len() + pominiete(s, ufs) == obecne(s, ufs),
        obecne(s, ufs) <= s.len(),
    decreases s.len(),
{
    if s.len() > 0 {
        kazdy_plik_raz(s.drop_last(), ufs);
    }
}

/// Whether an optional read error is on record.
fn ma_blad(o: Option<bool>) -> (r: bool)
    ensures
        r == (o == Some(true)),
{
    match o {
        Some(b) => b,
        None => false,
    }
}

/// Sorts the rows of the register into the queues of the two sides.
pub fn zaplanuj(wiersze: &Vec<Wiersz>) -> (r: Plan)
    ensures
        zadania(r.ufs@) == kolejka(wiersze@, true),
        zadania(r.script@) == kolejka(wiersze@, false),
        r.pominiete_ufs == pominiete(wiersze@, true),
        r.pominiete_script == pominiete(wiersze@, false),
{
    let mut plan = Plan {
        ufs: Vec::new(),
        script: Vec::new(),
        pominiete_ufs: 0,
        pominiete_script: 0,
    };
    let mut i: usize = 0;
    assert(zadania(plan.ufs@) =~= Seq::empty());
    assert(zadania(plan.script@) =~= Seq::empty());
    while i < wiersze.len()
        invariant
            i <= wiersze.len(),
            zadania(plan.ufs@) == kolejka(wiersze@.take(i as int), true),
            zadania(plan.script@) == kolejka(wiersze@.take(i as int), false),
            plan.pominiete_ufs == pominiete(wiersze@.take(i as int), true),
            plan.pominiete_script == pominiete(wiersze@.take(i as int), false),
        decreases wiersze.len() - i,
    {
        let w = &wiersze[i];
        let ghost t = wiersze@.take(i as int);
        let ghost u = plan.ufs@;
        let ghost v = plan.script@;
        proof {
            assert(wiersze@.take(i + 1).drop_last() =~= t);
            kazdy_plik_raz(t, true);
            kazdy_plik_raz(t, false);
        }
        let wspolny = w.found_in_ufs && w.found_in_script;
        if w.found_in_ufs {
            if w.entropy_ufs.is_none() && !ma_blad(w.io_error_ufs) {
                plan.ufs.push(
                    Task { id: w.id, rel_path: w.relative_path.clone(), is_common: wspolny },
                );
            } else {
                plan.pominiete_ufs = plan.pominiete_ufs + 1;
            }
        }
        if w.found_in_script {
            if w.entropy_script.is_none() && !ma_blad(w.io_error_script) {
                plan.script.push(
                    Task { id: w.id, rel_path: w.relative_path.clone(), is_common: wspolny },
                );
            } else {
                plan.pominiete_script = plan.pominiete_script + 1;
            }
        }
        assert(zadania(plan.ufs@) =~= kolejka(wiersze@.take(i + 1), true));
        assert(zadania(plan.script@) =~= kolejka(wiersze@.take(i + 1), false));
        i = i + 1;
    }
    assert(wiersze@.take(wiersze@.len() as int) =~= wiersze@);
    plan
}

/// What is announced where files were left out; nothing where none was.
pub fn komunikat_pominietych(ufs: usize, script: usize) -> (r: Option<String>)
    ensures
        r is Some <==> ufs > 0 || script > 0,
        r matches Some(t) ==> t@ == "Pominięto pliki z wyliczoną już entropią. UFS Explorer: "@
            + tekst::dziesietny(ufs as nat) + ", Skrypt Autorski: "@ + tekst::dziesietny(
            script as nat,
        ),
{
    if ufs == 0 && script == 0 {
        return None;
    }
    let mut s = "Pominięto pliki z wyliczoną już entropią. UFS Explorer: ".to_owned();
    tekst::dopisz_liczbe(&mut s, ufs as u64);
    s.append(", Skrypt Autorski: ");
    tekst::dopisz_liczbe(&mut s, script as u64);
    Some(s)
}

/// Whether a result is worth writing down: a measured entropy or a read error.
/// A reading that was cut short is neither.
pub open spec fn zapisywany(r: SideEntropyResult) -> bool {
    r.entropy is Some || r.io_error == Some(true)
}

/// Whether a result is written to the register.
pub fn czy_zapisac(r: &SideEntropyResult) -> (b: bool)
    ensures
        b == zapisywany(*r),
{
    r.entropy.is_some() || ma_blad(r.io_error)
}

/// What stands on record for a side after a result was written over it: a
/// missing value leaves the old one.
pub open spec fn po_zapisie(
    stara: (Option<Binary64>, Option<bool>),
    r: SideEntropyResult,
) -> (Option<Binary64>, Option<bool>) {
    if zapisywany(r) {
        (
            if r.entropy is Some {
                r.entropy
            } else {
                stara.0
            },
            if r.io_error is Some {
                r.io_error
            } else {
                stara.1
            },
        )
    } else {
        stara
    }
}

/// What one reading comes to, for the file with the identifier `id`.
pub open spec fn wynik_pliku(id: i32, w: WynikEntropii) -> SideEntropyResult {
    match w {
        WynikEntropii::Entropia(e) => SideEntropyResult {
            id,
            entropy: Some(e),
            io_error: Some(false),
        },
        WynikEntropii::Przerwano => SideEntropyResult { id, entropy: None, io_error: None },
        WynikEntropii::Blad(_) => SideEntropyResult { id, entropy: None, io_error: Some(true) },
    }
}

/// A queued file leaves the queue exactly when its reading came to an end: one
/// that was cut short is read again in the next run, never taken for damaged.
pub proof fn przerwany_wraca_do_kolejki(
    stara: (Option<Binary64>, Option<bool>),
    id: i32,
    w: WynikEntropii,
)
    requires
        stara.0 is None && stara.1 != Some(true),
    ensures
        ({
            let nowa = po_zapisie(stara, wynik_pliku(id, w));
            (nowa.0 is None && nowa.1 != Some(true)) <==> w is Przerwano
        }),
        w is Przerwano ==> po_zapisie(stara, wynik_pliku(id, w)) == stara,
{
}

/// The threads in use: the configured number, or the given one where that is zero.
pub fn liczba_watkow(max_threads: usize, biezace: usize) -> (r: usize)
    ensures
        r == if max_threads > 0 {
            max_threads
        } else {
            biezace
        },
{
    if max_threads > 0 {
        max_threads
    } else {
        biezace
    }
}

/// The threads of one side where both sides run at once: half, at least one.
pub fn polowa_watkow(n: usize) -> (r: usize)
    ensures
        r == if n / 2 >= 1 {
            n / 2
        } else {
            1
        },
{
    if n / 2 >= 1 {
        n / 2
    } else {
        1
    }
}

/// How many worker slots are watched in the given mode.
pub fn compute_activity_slots(io_mode: &str, actual_threads: usize, half_threads: usize) -> (r:
    usize)
    ensures
        r == if io_mode@ == "CONCURRENT"@ {
            half_threads
        } else {
            actual_threads
        },
{
    if tekst::rowne(io_mode, "CONCURRENT") {
        half_threads
    } else {
        actual_threads
    }
}

/// What is announced when the scan starts: the mode and the threads.
pub fn powitanie(io_mode: &str, watki: usize) -> (r: (String, String))
    ensures
        r.0@ == "Uruchomiono Fazę 7. Metodyka szyny dyskowej: "@ + if io_mode@ == "CONCURRENT"@ {
            "RÓWNOLEGŁE (SSD/NVMe)"@
        } else {
            "SEKWENCYJNIE (HDD)"@
        },
        r.1@ == "Aktywne wątki procesora (Rayon): "@ + tekst::dziesietny(watki as nat),
{
    let mut a = "Uruchomiono Fazę 7. Metodyka szyny dyskowej: ".to_owned();
    if tekst::rowne(io_mode, "CONCURRENT") {
        a.append("RÓWNOLEGŁE (SSD/NVMe)");
    } else {
        a.append("SEKWENCYJNIE (HDD)");
    }
    let mut b = "Aktywne wątki procesora (Rayon): ".to_owned();
    tekst::dopisz_liczbe(&mut b, watki as u64);
    (a, b)
}

/// Whether the display is refreshed: every two hundred files, or when more than
/// a quarter of a second has passed.
pub fn czy_odswiezyc(current: usize, minelo_ms: u64) -> (r: bool)
    ensures
        r == (current % 200 == 0 || minelo_ms > 250),
{
    current % 200 == 0 || minelo_ms > 250
}

/// One class of anomaly: files that both sides hold, files of one side alone,
/// and the formats that they have.
pub struct Grupa {
    pub common: usize,
    pub unique: usize,
    pub ext: Licznik,
}

impl Grupa {
    /// The formats add up to the files, each format once.
    pub open spec fn zgodna(&self) -> bool {
        &&& licznik::suma(self.ext@) == self.common + self.unique
        &&& licznik::bez_powtorzen(self.ext@)
    }

    /// `self` is `przed` with one file more where `trafiona` holds.
    pub open spec fn po_pliku(
        &self,
        przed: Grupa,
        trafiona: bool,
        ext: Seq<char>,
        wspolny: bool,
    ) -> bool {
        &&& self.common == przed.common + if trafiona && wspolny {
            1int
        } else {
            0
        }
        &&& self.unique == przed.unique + if trafiona && !wspolny {
            1int
        } else {
            0
        }
        &&& self.ext@ == if trafiona {
            licznik::zwiekszony(przed.ext@, ext, 1)
        } else {
            przed.ext@
        }
    }

    /// Nothing counted.
    pub fn new() -> (r: Self)
        ensures
            r.zgodna(),
            r.common == 0,
            r.unique == 0,
            r.ext@ == Seq::<(Seq<char>, nat)>::empty(),
    {
        Grupa { common: 0, unique: 0, ext: Licznik::new() }
    }

    /// Counts one file.
    pub fn dolicz(&mut self, ext: &str, wspolny: bool)
        requires
            old(self).zgodna(),
            old(self).common + old(self).unique < usize::MAX,
        ensures
            final(self).zgodna(),
            final(self).po_pliku(*old(self), true, ext@, wspolny),
    {
        proof {
            licznik::ile_w_sumie(self.ext@, ext@);
            licznik::zwiekszony_sumuje(self.ext@, ext@, 1);
            licznik::zwiekszony_bez_powtorzen(self.ext@, ext@, 1);
        }
        self.ext.zwieksz(ext, 1);
        if wspolny {
            self.common = self.common + 1;
        } else {
            self.unique = self.unique + 1;
        }
    }

    /// The class as the panel shows it.
    fn opis(&self) -> (r: String)
        ensures
            r@ == opis_grupy(*self),
    {
        let mut s = tekst::liczba(self.common as u64);
        s.append(" wspólne / ");
        tekst::dopisz_liczbe(&mut s, self.unique as u64);
        s.append(" unikalne | top: ");
        let t = opisz_najczestsze(&self.ext);
        s.append(t.as_str());
        s
    }
}

/// A format as it is shown: with its dot, unless it has none.
pub open spec fn pokazany(ext: Seq<char>) -> Seq<char> {
    if ext == "brak"@ {
        "brak"@
    } else {
        "."@ + ext
    }
}

/// A format as it is shown.
fn pokaz(ext: &str) -> (r: String)
    ensures
        r@ == pokazany(ext@),
{
    if tekst::rowne(ext, "brak") {
        "brak".to_owned()
    } else {
        let mut s = ".".to_owned();
        s.append(ext);
        s
    }
}

/// The most frequent format with its count, or a dash.
pub open spec fn najczestsze(s: Seq<(Seq<char>, nat)>) -> Seq<char> {
    if s.len() == 0 {
        "-"@
    } else {
        let e = licznik::malejaco(s)[0];
        licznik::pozycja((pokazany(e.0), e.1))
    }
}

/// The most frequent format with its count, or a dash.
fn opisz_najczestsze(l: &Licznik) -> (r: String)
    ensures
        r@ == najczestsze(l@),
{
    if l.is_empty() {
        return "-".to_owned();
    }
    let m = l.malejaco();
    proof {
        licznik::malejaco_porzadkuje(l@);
        assert(m@[0] == m.wpisy@[0]@);
    }
    let w = licznik::Wpis { nazwa: pokaz(m.wpisy[0].nazwa.as_str()), ile: m.wpisy[0].ile };
    w.opis()
}

/// One class of anomaly on the panel.
pub open spec fn opis_grupy(g: Grupa) -> Seq<char> {
    tekst::dziesietny(g.common as nat) + " wspólne / "@ + tekst::dziesietny(g.unique as nat)
        + " unikalne | top: "@ + najczestsze(g.ext@)
}

/// The first `k` formats with their sizes, separated by commas.
pub open spec fn wyliczenie_wag(s: Seq<(String, String)>, k: nat) -> Seq<char>
    decreases k,
{
    if k == 0 {
        Seq::empty()
    } else {
        (if k == 1 {
            Seq::empty()
        } else {
            wyliczenie_wag(s, (k - 1) as nat) + ", "@
        }) + s[k - 1].0@ + " ("@ + s[k - 1].1@ + ")"@
    }
}

/// The heaviest formats on the panel.
pub open spec fn wagi_panelu(s: Seq<(String, String)>) -> Seq<char> {
    if s.len() == 0 {
        "Analiza danych..."@
    } else {
        wyliczenie_wag(s, s.len())
    }
}

/// The heaviest formats on the panel.
fn opisz_wagi(v: &Vec<(String, String)>) -> (r: String)
    ensures
        r@ == wagi_panelu(v@),
{
    if v.len() == 0 {
        return "Analiza danych...".to_owned();
    }
    let mut s = String::new();
    let mut i: usize = 0;
    while i < v.len()
        invariant
            i <= v.len(),
            s@ == wyliczenie_wag(v@, i as nat),
        decreases v.len() - i,
    {
        if i > 0 {
            s.append(", ");
        }
        s.append(v[i].0.as_str());
        s.append(" (");
        s.append(v[i].1.as_str());
        s.append(")");
        i = i + 1;
    }
    s
}

/// The `n` heaviest formats, from the heaviest down, as they are shown.
pub open spec fn czolowka(s: Seq<(Seq<char>, nat)>, n: nat) -> Seq<(Seq<char>, nat)> {
    licznik::malejaco(s).take(
        if n < s.len() {
            n as int
        } else {
            s.len() as int
        },
    ).map_values(|e: (Seq<char>, nat)| (pokazany(e.0), e.1))
}

/// The block of one source on the side panel; `top` holds the heaviest formats
/// with their sizes as texts.
pub open spec fn panel(
    label: Seq<char>,
    s: LiveStats,
    predkosc: Binary64,
    top: Seq<(String, String)>,
    watki: Seq<char>,
) -> Seq<char> {
    "["@
        + label
        + "]\nPrędkość: "@
        + predkosc.zapis(2)
        + " MB/s\nTop format: "@
        + wagi_panelu(top)
        + "\nSzum/Śmieci (H>7.99): "@
        + opis_grupy(s.noise)
        + "\nSzyfrowanie (H>7.5): "@
        + opis_grupy(s.crypto)
        + "\nZepsuta kompresja (H<6.0): "@
        + opis_grupy(s.broken)
        + "\nWydmuszki (H<1.0): "@
        + opis_grupy(s.low)
        + "\nWątki entropii (Wariant A): "@
        + watki
        + "\nBłędy I/O: "@
        + tekst::dziesietny(s.errors as nat)
}

/// `Wspólne` for a file that both sides hold, `Unikalne` otherwise.
pub open spec fn pula(wspolny: bool) -> Seq<char> {
    if wspolny {
        "Wspólne"@
    } else {
        "Unikalne"@
    }
}

/// `Wspólne` for a file that both sides hold, `Unikalne` otherwise.
fn nazwij_pule(wspolny: bool) -> (r: &'static str)
    ensures
        r@ == pula(wspolny),
{
    if wspolny {
        "Wspólne"
    } else {
        "Unikalne"
    }
}

/// A line of the operational report.
pub open spec fn wpis(
    strona: Seq<char>,
    wspolny: bool,
    opis: Seq<char>,
    ext: Seq<char>,
    pelna: Seq<char>,
) -> Seq<char> {
    "["@
        + tekst::dopelniony(strona, 15)
        + "] ["@
        + tekst::dopelniony(pula(wspolny), 8)
        + "] ["@
        + opis
        + "] Format: ."@
        + tekst::dopelniony(ext, 5)
        + " | Ścieżka: \""@
        + pelna
        + "\""@
}

/// A line of the operational report.
fn opisz_wpis(strona: &str, wspolny: bool, opis: &str, ext: &str, pelna: &str) -> (r: String)
    ensures
        r@ == wpis(strona@, wspolny, opis@, ext@, pelna@),
{
    let mut s = "[".to_owned();
    let t1 = tekst::dopelnij(strona, 15);
    s.append(t1.as_str());
    s.append("] [");
    let t2 = tekst::dopelnij(nazwij_pule(wspolny), 8);
    s.append(t2.as_str());
    s.append("] [");
    s.append(opis);
    s.append("] Format: .");
    let t3 = tekst::dopelnij(ext, 5);
    s.append(t3.as_str());
    s.append(" | Ścieżka: \"");
    s.append(pelna);
    s.append("\"");
    s
}

/// What the report says of a class of anomaly.
pub open spec fn nazwa_anomalii(k: KategoriaEntropii) -> Seq<char> {
    match k {
        KategoriaEntropii::Szum => "Biały Szum / Śmieci (H="@,
        KategoriaEntropii::Zaszyfrowany => "Zaszyfrowany / Nadpisany (H="@,
        KategoriaEntropii::ZepsutaKompresja => "Zepsuta Kompresja (H="@,
        KategoriaEntropii::Wydmuszka => "Wydmuszka / Pusty blok (H="@,
    }
}

/// A class of anomaly with the entropy that betrayed it.
pub open spec fn opis_anomalii(k: KategoriaEntropii, e: Binary64) -> Seq<char> {
    nazwa_anomalii(k) + e.zapis(3) + ")"@
}

/// A class of anomaly with the entropy that betrayed it.
fn opisz_anomalie(k: KategoriaEntropii, e: Binary64) -> (r: String)
    ensures
        r@ == opis_anomalii(k, e),
{
    let mut s = match k {
        KategoriaEntropii::Szum => "Biały Szum / Śmieci (H=".to_owned(),
        KategoriaEntropii::Zaszyfrowany => "Zaszyfrowany / Nadpisany (H=".to_owned(),
        KategoriaEntropii::ZepsutaKompresja => "Zepsuta Kompresja (H=".to_owned(),
        KategoriaEntropii::Wydmuszka => "Wydmuszka / Pusty blok (H=".to_owned(),
    };
    let t = e.zapisz(3);
    s.append(t.as_str());
    s.append(")");
    s
}

/// The class of a file, where its entropy was measured and betrays one.
pub open spec fn klasa_wyniku(ext: Seq<char>, w: WynikEntropii) -> Option<KategoriaEntropii> {
    match w {
        WynikEntropii::Entropia(e) => entropia::klasa(e, entropia::skompresowany(ext)),
        _ => None,
    }
}

/// What the operational report says of one file; nothing of an ordinary one.
pub open spec fn uwaga(
    strona: Seq<char>,
    wspolny: bool,
    ext: Seq<char>,
    pelna: Seq<char>,
    w: WynikEntropii,
) -> Option<Seq<char>> {
    match w {
        WynikEntropii::Entropia(e) => match klasa_wyniku(ext, w) {
            Some(k) => Some(wpis(strona, wspolny, opis_anomalii(k, e), ext, pelna)),
            None => None,
        },
        WynikEntropii::Przerwano => None,
        WynikEntropii::Blad(b) => Some(wpis(strona, wspolny, "Błąd I/O: "@ + b@, ext, pelna)),
    }
}

/// The counters of one side.
pub struct LiveStats {
    pub processed_files: usize,
    pub processed_bytes: u64,
    pub errors: usize,
    pub ext_weights: Licznik,
    pub noise: Grupa,
    pub crypto: Grupa,
    pub broken: Grupa,
    pub low: Grupa,
}

impl LiveStats {
    /// The weights add up to the bytes, the formats of each class to its files,
    /// and no file is counted as more than one thing.
    pub open spec fn zgodne(&self) -> bool {
        &&& licznik::suma(self.ext_weights@) == self.processed_bytes
        &&& licznik::bez_powtorzen(self.ext_weights@)
        &&& self.noise.zgodna()
        &&& self.crypto.zgodna()
        &&& self.broken.zgodna()
        &&& self.low.zgodna()
        &&& self.noise.common + self.noise.unique + self.crypto.common + self.crypto.unique
            + self.broken.common + self.broken.unique + self.low.common + self.low.unique
            + self.errors <= self.processed_files
    }

    /// `self` is `przed` with one file more, of `rozmiar` bytes, whose reading
    /// ended as `w` says.
    pub open spec fn po_pliku(
        &self,
        przed: LiveStats,
        ext: Seq<char>,
        wspolny: bool,
        rozmiar: u64,
        w: WynikEntropii,
    ) -> bool {
        let k = klasa_wyniku(ext, w);
        &&& self.processed_files == przed.processed_files + 1
        &&& self.processed_bytes == przed.processed_bytes + rozmiar
        &&& self.errors == przed.errors + if w is Blad {
            1int
        } else {
            0
        }
        &&& self.ext_weights@ == licznik::zwiekszony(przed.ext_weights@, ext, rozmiar as nat)
        &&& self.noise.po_pliku(przed.noise, k == Some(KategoriaEntropii::Szum), ext, wspolny)
        &&& self.crypto.po_pliku(
            przed.crypto,
            k == Some(KategoriaEntropii::Zaszyfrowany),
            ext,
            wspolny,
        )
        &&& self.broken.po_pliku(
            przed.broken,
            k == Some(KategoriaEntropii::ZepsutaKompresja),
            ext,
            wspolny,
        )
        &&& self.low.po_pliku(przed.low, k == Some(KategoriaEntropii::Wydmuszka), ext, wspolny)
    }

    /// Nothing counted.
    pub fn new() -> (r: Self)
        ensures
            r.zgodne(),
            r.processed_files == 0,
            r.processed_bytes == 0,
            r.errors == 0,
            r.ext_weights@.len() == 0,
            r.noise.ext@.len() == 0,
            r.crypto.ext@.len() == 0,
            r.broken.ext@.len() == 0,
            r.low.ext@.len() == 0,
    {
        LiveStats {
            processed_files: 0,
            processed_bytes: 0,
            errors: 0,
            ext_weights: Licznik::new(),
            noise: Grupa::new(),
            crypto: Grupa::new(),
            broken: Grupa::new(),
            low: Grupa::new(),
        }
    }

    /// Counts one file of `rozmiar` bytes whose reading ended as `wynik` says:
    /// what is written to the register, and what the report says of the file.
    pub fn rozlicz(
        &mut self,
        task: &Task,
        rozmiar: u64,
        wynik: &WynikEntropii,
        strona: &str,
        pelna: &str,
    ) -> (r: (SideEntropyResult, Option<String>))
        requires
            old(self).zgodne(),
            old(self).processed_files < usize::MAX,
            old(self).processed_bytes + rozmiar <= u64::MAX,
        ensures
            final(self).zgodne(),
            final(self).po_pliku(
                *old(self),
                entropia::format_pliku(task.rel_path@),
                task.is_common,
                rozmiar,
                *wynik,
            ),
            r.0 == wynik_pliku(task.id, *wynik),
            tekst::widok(r.1) == uwaga(
                strona@,
                task.is_common,
                entropia::format_pliku(task.rel_path@),
                pelna@,
                *wynik,
            ),
    {
        let ext = entropia::wyznacz_format(task.rel_path.as_str());
        let e = ext.as_str();
        proof {
            licznik::ile_w_sumie(self.ext_weights@, e@);
            licznik::zwiekszony_sumuje(self.ext_weights@, e@, rozmiar as nat);
            licznik::zwiekszony_bez_powtorzen(self.ext_weights@, e@, rozmiar as nat);
        }
        self.ext_weights.zwieksz(e, rozmiar);
        self.processed_files = self.processed_files + 1;
        self.processed_bytes = self.processed_bytes + rozmiar;
        match wynik {
            WynikEntropii::Entropia(h) => {
                let k = entropia::klasyfikuj_entropie(*h, entropia::jest_skompresowany(e));
                let wynik_zapisu = SideEntropyResult {
                    id: task.id,
                    entropy: Some(*h),
                    io_error: Some(false),
                };
                match k {
                    Some(k) => {
                        match k {
                            KategoriaEntropii::Szum => self.noise.dolicz(e, task.is_common),
                            KategoriaEntropii::Zaszyfrowany => self.crypto.dolicz(
                                e,
                                task.is_common,
                            ),
                            KategoriaEntropii::ZepsutaKompresja => self.broken.dolicz(
                                e,
                                task.is_common,
                            ),
                            KategoriaEntropii::Wydmuszka => self.low.dolicz(e, task.is_common),
                        }
                        let opis = opisz_anomalie(k, *h);
                        let linia = opisz_wpis(strona, task.is_common, opis.as_str(), e, pelna);
                        (wynik_zapisu, Some(linia))
                    },
                    None => (wynik_zapisu, None),
                }
            },
            WynikEntropii::Przerwano => (
                SideEntropyResult { id: task.id, entropy: None, io_error: None },
                None,
            ),
            WynikEntropii::Blad(b) => {
                self.errors = self.errors + 1;
                let mut opis = "Błąd I/O: ".to_owned();
                opis.append(b.as_str());
                let linia = opisz_wpis(strona, task.is_common, opis.as_str(), e, pelna);
                (
                    SideEntropyResult { id: task.id, entropy: None, io_error: Some(true) },
                    Some(linia),
                )
            },
        }
    }

    /// The `n` heaviest formats, from the heaviest down, as they are shown.
    pub fn najciezsze(&self, n: usize) -> (r: Licznik)
        ensures
            r@ == czolowka(self.ext_weights@, n as nat),
    {
        let m = self.ext_weights.malejaco();
        proof {
            licznik::malejaco_porzadkuje(self.ext_weights@);
        }
        let k: usize = if n < m.wpisy.len() {
            n
        } else {
            m.wpisy.len()
        };
        let mut r = Licznik::new();
        let mut i: usize = 0;
        while i < k
            invariant
                i <= k <= m.wpisy.len(),
                r@.len() == i,
                forall|j: int|
                    0 <= j < i ==> #[trigger] r@[j] == (pokazany(m@[j].0), m@[j].1),
            decreases k - i,
        {
            let ghost przed = r@;
            assert(m@[i as int] == m.wpisy@[i as int]@);
            r.wpisy.push(
                licznik::Wpis { nazwa: pokaz(m.wpisy[i].nazwa.as_str()), ile: m.wpisy[i].ile },
            );
            assert(r@ =~= przed.push((pokazany(m@[i as int].0), m@[i as int].1)));
            i = i + 1;
        }
        assert(r@ =~= czolowka(self.ext_weights@, n as nat));
        r
    }

    /// The block of one source on the side panel; `top` holds the heaviest
    /// formats with their sizes as texts.
    pub fn build_source_block(
        &self,
        label: &str,
        predkosc: Binary64,
        top: &Vec<(String, String)>,
        watki: &str,
    ) -> (r: String)
        ensures
            r@ == panel(label@, *self, predkosc, top@, watki@),
    {
        let mut s = "[".to_owned();
        s.append(label);
        s.append("]\nPrędkość: ");
        let t1 = predkosc.zapisz(2);
        s.append(t1.as_str());
        s.append(" MB/s\nTop format: ");
        let t2 = opisz_wagi(top);
        s.append(t2.as_str());
        s.append("\nSzum/Śmieci (H>7.99): ");
        let t3 = self.noise.opis();
        s.append(t3.as_str());
        s.append("\nSzyfrowanie (H>7.5): ");
        let t4 = self.crypto.opis();
        s.append(t4.as_str());
        s.append("\nZepsuta kompresja (H<6.0): ");
        let t5 = self.broken.opis();
        s.append(t5.as_str());
        s.append("\nWydmuszki (H<1.0): ");
        let t6 = self.low.opis();
        s.append(t6.as_str());
        s.append("\nWątki entropii (Wariant A): ");
        s.append(watki);
        s.append("\nBłędy I/O: ");
        tekst::dopisz_liczbe(&mut s, self.errors as u64);
        s
    }
}

} // verus!
