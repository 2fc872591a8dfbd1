//! The hierarchical report: classes of anomaly, by pool and by source.

use vstd::prelude::*;

use crate::binary64::Binary64;
use crate::licznik;
use crate::licznik::Licznik;
use crate::phases::phase7::entropia;
use crate::phases::phase7::entropia::KategoriaEntropii;
use crate::phases::phase7::przebieg;
use crate::phases::phase7::przebieg::WynikEntropii;
use crate::tekst;

verus! {

/// The formats of one source in one class: how many files each has and the
/// path of the first one.
pub struct Formaty {
    pub liczby: Licznik,
    pub przyklady: Vec<String>,
    pub razem: u64,
}

/// The formats and the first paths, in the order in which they came up, and how
/// many files there are.
pub struct Zestawienie {
    pub liczby: Seq<(Seq<char>, nat)>,
    pub przyklady: Seq<Seq<char>>,
    pub razem: nat,
}

impl View for Formaty {
    type V = Zestawienie;

    open spec fn view(&self) -> Zestawienie {
        Zestawienie {
            liczby: self.liczby@,
            przyklady: tekst::widoki(self.przyklady@),
            razem: self.razem as nat,
        }
    }
}

/// `z` with one file more: a format that is new keeps the path as its example.
pub open spec fn dopisany(z: Zestawienie, ext: Seq<char>, sciezka: Seq<char>) -> Zestawienie {
    Zestawienie {
        liczby: licznik::zwiekszony(z.liczby, ext, 1),
        przyklady: if licznik::pierwszy(z.liczby, ext) < z.liczby.len() {
            z.przyklady
        } else {
            z.przyklady.push(sciezka)
        },
        razem: z.razem + 1,
    }
}

/// The path shown for a format.
pub open spec fn przyklad(z: Zestawienie, ext: Seq<char>) -> Seq<char> {
    z.przyklady[licznik::pierwszy(z.liczby, ext)]
}

/// The first `k` entries of `m`, one per line, with their examples from `z`.
pub open spec fn linie_formatow(z: Zestawienie, m: Seq<(Seq<char>, nat)>, k: nat) -> Seq<char>
    decreases k,
{
    if k == 0 {
        Seq::empty()
    } else {
        linie_formatow(z, m, (k - 1) as nat) + "         ."@ + tekst::dopelniony(m[k - 1].0, 5)
            + " : "@ + tekst::dziesietny(m[k - 1].1) + " plików (Przykł: "@ + przyklad(
            z,
            m[k - 1].0,
        ) + ")\n"@
    }
}

/// The three most frequent formats of one source; nothing where there is none.
pub open spec fn rozklad(f: Formaty, label: Seq<char>) -> Seq<char> {
    let z = f@;
    if z.liczby.len() == 0 {
        Seq::empty()
    } else {
        "      "@ + label + " - Rozkład formatów:\n"@ + linie_formatow(
            z,
            licznik::malejaco(z.liczby),
            if 3 < z.liczby.len() {
                3
            } else {
                z.liczby.len()
            },
        )
    }
}

/// An entry of the ordered tally is an entry of the tally.
proof fn malejaco_z_tych_samych(s: Seq<(Seq<char>, nat)>, i: int)
    requires
        0 <= i < licznik::malejaco(s).len(),
    ensures
        licznik::pierwszy(s, licznik::malejaco(s)[i].0) < s.len(),
{
    let m = licznik::malejaco(s);
    licznik::malejaco_porzadkuje(s);
    broadcast use vstd::seq_lib::group_to_multiset_ensures;

    assert(m.contains(m[i]));
    assert(m.to_multiset().count(m[i]) > 0);
    assert(s.contains(m[i]));
    let j = choose|j: int| 0 <= j < s.len() && s[j] == m[i];
    licznik::pierwszy_trafia(s, m[i].0);
}

impl Formaty {
    /// Each format has an example and the counts add up to the files.
    pub open spec fn zgodne(&self) -> bool {
        &&& self.przyklady@.len() == self.liczby@.len()
        &&& licznik::suma(self.liczby@) == self.razem
        &&& licznik::bez_powtorzen(self.liczby@)
    }

    /// No file.
    pub fn new() -> (r: Self)
        ensures
            r.zgodne(),
            r.razem == 0,
            r@.liczby.len() == 0,
            r@.przyklady.len() == 0,
    {
        Formaty { liczby: Licznik::new(), przyklady: Vec::new(), razem: 0 }
    }

    /// Counts one file.
    pub fn dodaj(&mut self, ext: &str, sciezka: &str)
        requires
            old(self).zgodne(),
            old(self).razem < u64::MAX,
        ensures
            final(self).zgodne(),
            final(self).razem == old(self).razem + 1,
            final(self)@ == dopisany(old(self)@, ext@, sciezka@),
    {
        proof {
            licznik::ile_w_sumie(self.liczby@, ext@);
            licznik::zwiekszony_sumuje(self.liczby@, ext@, 1);
            licznik::zwiekszony_bez_powtorzen(self.liczby@, ext@, 1);
            licznik::pierwszy_trafia(self.liczby@, ext@);
        }
        if self.liczby.get(ext).is_none() {
            self.przyklady.push(sciezka.to_owned());
        }
        self.liczby.zwieksz(ext, 1);
        self.razem = self.razem + 1;
        assert(self@.przyklady =~= dopisany(old(self)@, ext@, sciezka@).przyklady);
    }

    /// The three most frequent formats; nothing where there is none.
    fn opisz_rozklad(&self, label: &str) -> (r: String)
        requires
            self.zgodne(),
        ensures
            r@ == rozklad(*self, label@),
    {
        if self.liczby.is_empty() {
            return String::new();
        }
        let mut s = "      ".to_owned();
        s.append(label);
        s.append(" - Rozkład formatów:\n");
        let ghost wstep = s@;
        let m = self.liczby.malejaco();
        proof {
            licznik::malejaco_porzadkuje(self.liczby@);
        }
        let k: usize = if 3 < m.wpisy.len() {
            3
        } else {
            m.wpisy.len()
        };
        let mut t = String::new();
        let mut i: usize = 0;
        while i < k
            invariant
                i <= k <= m.wpisy.len(),
                self.zgodne(),
                m@ == licznik::malejaco(self.liczby@),
                t@ == linie_formatow(self@, m@, i as nat),
            decreases k - i,
        {
            assert(m@[i as int] == m.wpisy@[i as int]@);
            proof {
                malejaco_z_tych_samych(self.liczby@, i as int);
                licznik::pierwszy_trafia(self.liczby@, m@[i as int].0);
            }
            let nazwa = m.wpisy[i].nazwa.as_str();
            let j: usize = self.liczby.znajdz(nazwa);
            let d = tekst::dopelnij(nazwa, 5);
            t.append("         .");
            t.append(d.as_str());
            t.append(" : ");
            tekst::dopisz_liczbe(&mut t, m.wpisy[i].ile);
            t.append(" plików (Przykł: ");
            t.append(self.przyklady[j].as_str());
            t.append(")\n");
            i = i + 1;
        }
        s.append(t.as_str());
        s
    }
}

/// One class of anomaly: two pools (files of both sides, files of one alone),
/// each by the source whose copy is anomalous.
pub struct AnomalyCategory {
    pub common_ufs: Formaty,
    pub common_script: Formaty,
    pub unique_ufs: Formaty,
    pub unique_script: Formaty,
}

impl AnomalyCategory {
    /// The formats of one pool and one source.
    pub open spec fn komorka(&self, wspolne: bool, ufs: bool) -> Formaty {
        if wspolne {
            if ufs {
                self.common_ufs
            } else {
                self.common_script
            }
        } else if ufs {
            self.unique_ufs
        } else {
            self.unique_script
        }
    }

    /// Every cell is consistent.
    pub open spec fn zgodna(&self) -> bool {
        forall|wspolne: bool, ufs: bool|
            (#[trigger] self.komorka(wspolne, ufs)).zgodne()
    }

    /// No file.
    pub fn new() -> (r: Self)
        ensures
            r.zgodna(),
            forall|wspolne: bool, ufs: bool| (#[trigger] r.komorka(wspolne, ufs)).razem == 0,
            forall|wspolne: bool, ufs: bool|
                (#[trigger] r.komorka(wspolne, ufs))@.liczby.len() == 0,
            forall|wspolne: bool, ufs: bool|
                (#[trigger] r.komorka(wspolne, ufs))@.przyklady.len() == 0,
    {
        AnomalyCategory {
            common_ufs: Formaty::new(),
            common_script: Formaty::new(),
            unique_ufs: Formaty::new(),
            unique_script: Formaty::new(),
        }
    }

    /// Counts one file in one cell.
    fn dodaj(&mut self, wspolne: bool, ufs: bool, ext: &str, sciezka: &str)
        requires
            old(self).zgodna(),
            old(self).komorka(wspolne, ufs).razem < u64::MAX,
        ensures
            final(self).zgodna(),
            final(self).komorka(wspolne, ufs).razem == old(self).komorka(wspolne, ufs).razem + 1,
            final(self).komorka(wspolne, ufs)@ == dopisany(
                old(self).komorka(wspolne, ufs)@,
                ext@,
                sciezka@,
            ),
            forall|c: bool, u: bool|
                c != wspolne || u != ufs ==> #[trigger] final(self).komorka(c, u) == old(
                    self,
                ).komorka(c, u),
    {
        let ghost przed = *self;
        assert(przed.komorka(wspolne, ufs).zgodne());
        if wspolne {
            if ufs {
                self.common_ufs.dodaj(ext, sciezka);
            } else {
                self.common_script.dodaj(ext, sciezka);
            }
        } else if ufs {
            self.unique_ufs.dodaj(ext, sciezka);
        } else {
            self.unique_script.dodaj(ext, sciezka);
        }
        assert forall|c: bool, u: bool| (#[trigger] self.komorka(c, u)).zgodne() by {
            assert(przed.komorka(c, u).zgodne());
        }
    }

    /// Whether one pool has no file on either side.
    fn pusta(&self, wspolne: bool) -> (r: bool)
        ensures
            r == (self.komorka(wspolne, true).razem == 0 && self.komorka(wspolne, false).razem
                == 0),
    {
        if wspolne {
            self.common_ufs.razem == 0 && self.common_script.razem == 0
        } else {
            self.unique_ufs.razem == 0 && self.unique_script.razem == 0
        }
    }

    /// One pool of a class as the journal shows it; nothing where it is empty.
    fn opisz_blok(&self, k: KategoriaEntropii, wspolne: bool) -> (r: String)
        requires
            self.komorka(wspolne, true).zgodne(),
            self.komorka(wspolne, false).zgodne(),
        ensures
            r@ == blok(k, self.komorka(wspolne, true), self.komorka(wspolne, false)),
    {
        let u = if wspolne {
            &self.common_ufs
        } else {
            &self.unique_ufs
        };
        let s = if wspolne {
            &self.common_script
        } else {
            &self.unique_script
        };
        if u.razem == 0 && s.razem == 0 {
            return String::new();
        }
        let mut o = "   ".to_owned();
        o.append(ikona_kategorii(k));
        o.append(" Typ anomalii: ");
        o.append(nazwa_kategorii(k));
        o.append(" (UFS: ");
        tekst::dopisz_liczbe(&mut o, u.razem);
        o.append(", Skrypt: ");
        tekst::dopisz_liczbe(&mut o, s.razem);
        o.append(")\n      [ ZNACZENIE ]: Wartość entropii wskazuje na matematyczny chaos lub brak spójności danych.\n");
        let t1 = u.opisz_rozklad("UFS Explorer");
        o.append(t1.as_str());
        let t2 = s.opisz_rozklad("Skrypt Autorski");
        o.append(t2.as_str());
        o.append("\n");
        o
    }
}

/// The sign of a class.
pub open spec fn ikona(k: KategoriaEntropii) -> Seq<char> {
    match k {
        KategoriaEntropii::Szum => "💥"@,
        KategoriaEntropii::Zaszyfrowany => "🔒"@,
        KategoriaEntropii::ZepsutaKompresja => "📉"@,
        KategoriaEntropii::Wydmuszka => "🧊"@,
    }
}

/// The name of a class in the journal.
pub open spec fn nazwa(k: KategoriaEntropii) -> Seq<char> {
    match k {
        KategoriaEntropii::Szum => "Biały Szum / Śmieci (H>7.99)"@,
        KategoriaEntropii::Zaszyfrowany => "Podejrzanie wysoka entropia (H>7.5)"@,
        KategoriaEntropii::ZepsutaKompresja => "Zepsuta Kompresja (H<6.0 dla archiwów)"@,
        KategoriaEntropii::Wydmuszka => "Wydmuszki / Puste bloki (H<1.0)"@,
    }
}

/// The sign of a class.
fn ikona_kategorii(k: KategoriaEntropii) -> (r: &'static str)
    ensures
        r@ == ikona(k),
{
    match k {
        KategoriaEntropii::Szum => "💥",
        KategoriaEntropii::Zaszyfrowany => "🔒",
        KategoriaEntropii::ZepsutaKompresja => "📉",
        KategoriaEntropii::Wydmuszka => "🧊",
    }
}

/// The name of a class in the journal.
fn nazwa_kategorii(k: KategoriaEntropii) -> (r: &'static str)
    ensures
        r@ == nazwa(k),
{
    match k {
        KategoriaEntropii::Szum => "Biały Szum / Śmieci (H>7.99)",
        KategoriaEntropii::Zaszyfrowany => "Podejrzanie wysoka entropia (H>7.5)",
        KategoriaEntropii::ZepsutaKompresja => "Zepsuta Kompresja (H<6.0 dla archiwów)",
        KategoriaEntropii::Wydmuszka => "Wydmuszki / Puste bloki (H<1.0)",
    }
}

/// One pool of a class as the journal shows it: `u` and `s` are its formats on
/// the two sides. Nothing where both are empty.
pub open spec fn blok(k: KategoriaEntropii, u: Formaty, s: Formaty) -> Seq<char> {
    if u.razem == 0 && s.razem == 0 {
        Seq::empty()
    } else {
        "   "@
            + ikona(k)
            + " Typ anomalii: "@
            + nazwa(k)
            + " (UFS: "@
            + tekst::dziesietny(u.razem as nat)
            + ", Skrypt: "@
            + tekst::dziesietny(s.razem as nat)
            + ")\n      [ ZNACZENIE ]: Wartość entropii wskazuje na matematyczny chaos lub brak spójności danych.\n"@
            + rozklad(u, "UFS Explorer"@)
            + rozklad(s, "Skrypt Autorski"@)
            + "\n"@
    }
}

/// Both sides of one pool of a class are empty.
pub open spec fn pusta(r: Raport, k: KategoriaEntropii, wspolne: bool) -> bool {
    r.komorka(k, wspolne, true).razem == 0 && r.komorka(k, wspolne, false).razem == 0
}

/// One pool of a class as the journal shows it.
pub open spec fn blok_klasy(r: Raport, k: KategoriaEntropii, wspolne: bool) -> Seq<char> {
    blok(k, r.komorka(k, wspolne, true), r.komorka(k, wspolne, false))
}

/// One pool of the journal: every class that has files in it.
pub open spec fn sekcja(r: Raport, tytul: Seq<char>, wspolne: bool) -> Seq<char> {
    "[ "@ + tytul + " ]\n"@ + blok_klasy(r, KategoriaEntropii::Szum, wspolne) + blok_klasy(
        r,
        KategoriaEntropii::Zaszyfrowany,
        wspolne,
    ) + blok_klasy(r, KategoriaEntropii::ZepsutaKompresja, wspolne) + blok_klasy(
        r,
        KategoriaEntropii::Wydmuszka,
        wspolne,
    ) + if pusta(r, KategoriaEntropii::Szum, wspolne) && pusta(
        r,
        KategoriaEntropii::Zaszyfrowany,
        wspolne,
    ) && pusta(r, KategoriaEntropii::ZepsutaKompresja, wspolne) && pusta(
        r,
        KategoriaEntropii::Wydmuszka,
        wspolne,
    ) {
        "   ✔ Brak anomalii w tej puli.\n\n"@
    } else {
        Seq::empty()
    }
}

/// The first `k` formats with their sizes, one per line.
pub open spec fn linie_wag(s: Seq<(String, String)>, k: nat) -> Seq<char>
    decreases k,
{
    if k == 0 {
        Seq::empty()
    } else {
        linie_wag(s, (k - 1) as nat) + "      - "@ + tekst::dopelniony(s[k - 1].0@, 8) + " : "@
            + s[k - 1].1@ + "\n"@
    }
}

/// The heaviest formats of one source.
pub open spec fn wagi_zrodla(label: Seq<char>, s: Seq<(String, String)>) -> Seq<char> {
    "   "@ + label + "\n"@ + if s.len() == 0 {
        "      Brak plików.\n"@
    } else {
        linie_wag(s, s.len())
    }
}

/// The heaviest formats of one source.
fn opisz_wagi_zrodla(label: &str, v: &Vec<(String, String)>) -> (r: String)
    ensures
        r@ == wagi_zrodla(label@, v@),
{
    let mut s = "   ".to_owned();
    s.append(label);
    s.append("\n");
    if v.len() == 0 {
        s.append("      Brak plików.\n");
        return s;
    }
    let mut t = String::new();
    let mut i: usize = 0;
    while i < v.len()
        invariant
            i <= v.len(),
            t@ == linie_wag(v@, i as nat),
        decreases v.len() - i,
    {
        let d = tekst::dopelnij(v[i].0.as_str(), 8);
        t.append("      - ");
        t.append(d.as_str());
        t.append(" : ");
        t.append(v[i].1.as_str());
        t.append("\n");
        i = i + 1;
    }
    s.append(t.as_str());
    s
}

/// The read errors; nothing where there was none.
pub open spec fn bledy_fizyczne(n: nat) -> Seq<char> {
    if n == 0 {
        Seq::empty()
    } else {
        "[ 🚨 BŁĘDY FIZYCZNE I/O ]\n   -> Błędy odczytu (I/O): "@ + tekst::dziesietny(n) + "\n"@
    }
}

/// The read errors; nothing where there was none.
fn opisz_bledy(n: u64) -> (r: String)
    ensures
        r@ == bledy_fizyczne(n as nat),
{
    if n == 0 {
        return String::new();
    }
    let mut s = "[ 🚨 BŁĘDY FIZYCZNE I/O ]\n   -> Błędy odczytu (I/O): ".to_owned();
    tekst::dopisz_liczbe(&mut s, n);
    s.append("\n");
    s
}

/// One judged row of the register.
pub struct Pomiar {
    pub relative_path: String,
    pub found_in_ufs: bool,
    pub found_in_script: bool,
    pub entropy_ufs: Option<Binary64>,
    pub entropy_script: Option<Binary64>,
}

/// The class of the copy of one source, where that source holds one, its
/// entropy was measured and betrays a class.
pub open spec fn klasa_kopii(p: Pomiar, ufs: bool) -> Option<KategoriaEntropii> {
    let jest = if ufs {
        p.found_in_ufs
    } else {
        p.found_in_script
    };
    let e = if ufs {
        p.entropy_ufs
    } else {
        p.entropy_script
    };
    match e {
        Some(h) => if jest {
            entropia::klasa(
                h,
                entropia::skompresowany(entropia::format_pliku(p.relative_path@)),
            )
        } else {
            None
        },
        None => None,
    }
}

/// The cell in which a row is counted for one source: its class, and the pool
/// of files of both sides where both hold it.
pub open spec fn trafia(p: Pomiar, k: KategoriaEntropii, wspolne: bool, ufs: bool) -> bool {
    klasa_kopii(p, ufs) == Some(k) && wspolne == (p.found_in_ufs && p.found_in_script)
}

/// The copy of one source is counted in at most one cell.
pub proof fn kopia_w_jednej_komorce(
    p: Pomiar,
    ufs: bool,
    k: KategoriaEntropii,
    wspolne: bool,
    l: KategoriaEntropii,
    inne: bool,
)
    requires
        trafia(p, k, wspolne, ufs),
        trafia(p, l, inne, ufs),
    ensures
        k == l,
        wspolne == inne,
{
}

/// The journal puts a copy into the class in which the scan counted it.
pub proof fn dziennik_zgodny_z_panelem(p: Pomiar, h: Binary64, ufs: bool)
    requires
        ufs ==> p.found_in_ufs && p.entropy_ufs == Some(h),
        !ufs ==> p.found_in_script && p.entropy_script == Some(h),
    ensures
        klasa_kopii(p, ufs) == przebieg::klasa_wyniku(
            entropia::format_pliku(p.relative_path@),
            WynikEntropii::Entropia(h),
        ),
{
}

/// What the journal needs beside the anomalies: texts and the heaviest formats
/// with their sizes.
pub struct DaneDziennika {
    pub czas: String,
    pub transfer: String,
    pub predkosc: Binary64,
    pub wagi_ufs: Vec<(String, String)>,
    pub wagi_script: Vec<(String, String)>,
    pub bledy: u64,
}

/// The closing journal.
pub open spec fn dziennik(r: Raport, d: DaneDziennika) -> Seq<char> {
    "==========================================================================\nDZIENNIK KOŃCOWY - FAZA 7 (MATEMATYCZNA ANALIZA ENTROPII SHANNONA)\nCzas trwania: "@
        + d.czas@
        + "\nSumaryczny transfer I/O: "@
        + d.transfer@
        + " (Średnia prędkość: "@
        + d.predkosc.zapis(2)
        + " MB/s)\n==========================================================================\n\n"@
        + sekcja(r, "CZĘŚĆ WSPÓLNA (Odnalezione przez oba programy)"@, true)
        + sekcja(r, "OSOBNE ŚCIEŻKI (Unikalne dla jednego źródła)"@, false)
        + "[ PODSUMOWANIE WAGOWE FORMATÓW ]\n"@
        + wagi_zrodla("UFS Explorer"@, d.wagi_ufs@)
        + wagi_zrodla("Skrypt Autorski"@, d.wagi_script@)
        + "\n"@
        + bledy_fizyczne(d.bledy as nat)
}

/// The anomalies of the whole register.
pub struct Raport {
    pub noise: AnomalyCategory,
    pub crypto: AnomalyCategory,
    pub broken: AnomalyCategory,
    pub low: AnomalyCategory,
    pub wierszy: u64,
}

impl Raport {
    /// The formats of one class, one pool and one source.
    pub open spec fn komorka(&self, k: KategoriaEntropii, wspolne: bool, ufs: bool) -> Formaty {
        match k {
            KategoriaEntropii::Szum => self.noise.komorka(wspolne, ufs),
            KategoriaEntropii::Zaszyfrowany => self.crypto.komorka(wspolne, ufs),
            KategoriaEntropii::ZepsutaKompresja => self.broken.komorka(wspolne, ufs),
            KategoriaEntropii::Wydmuszka => self.low.komorka(wspolne, ufs),
        }
    }

    /// Every cell is consistent and holds no more files than there were rows.
    pub open spec fn zgodny(&self) -> bool {
        forall|k: KategoriaEntropii, wspolne: bool, ufs: bool|
            #![trigger self.komorka(k, wspolne, ufs)]
            self.komorka(k, wspolne, ufs).zgodne() && self.komorka(k, wspolne, ufs).razem
                <= self.wierszy
    }

    /// No row was judged.
    pub fn new() -> (r: Self)
        ensures
            r.zgodny(),
            r.wierszy == 0,
            forall|k: KategoriaEntropii, wspolne: bool, ufs: bool|
                (#[trigger] r.komorka(k, wspolne, ufs)).razem == 0,
            forall|k: KategoriaEntropii, wspolne: bool, ufs: bool|
                (#[trigger] r.komorka(k, wspolne, ufs))@.liczby.len() == 0,
            forall|k: KategoriaEntropii, wspolne: bool, ufs: bool|
                (#[trigger] r.komorka(k, wspolne, ufs))@.przyklady.len() == 0,
    {
        Raport {
            noise: AnomalyCategory::new(),
            crypto: AnomalyCategory::new(),
            broken: AnomalyCategory::new(),
            low: AnomalyCategory::new(),
            wierszy: 0,
        }
    }

    /// Counts the copy of one source in its cell, where its class is `k`.
    fn dodaj_kopie(
        &mut self,
        k: Option<KategoriaEntropii>,
        wspolne: bool,
        ufs: bool,
        ext: &str,
        sciezka: &str,
    )
        requires
            old(self).zgodny(),
            forall|c: KategoriaEntropii, w: bool|
                (#[trigger] old(self).komorka(c, w, ufs)).razem < u64::MAX,
        ensures
            final(self).wierszy == old(self).wierszy,
            forall|c: KategoriaEntropii, w: bool, u: bool|
                (#[trigger] final(self).komorka(c, w, u)).zgodne(),
            forall|c: KategoriaEntropii, w: bool, u: bool|
                (#[trigger] final(self).komorka(c, w, u)).razem == old(self).komorka(c, w, u).razem
                    + if k == Some(c) && w == wspolne && u == ufs {
                    1int
                } else {
                    0
                },
            forall|c: KategoriaEntropii, w: bool, u: bool|
                (#[trigger] final(self).komorka(c, w, u))@ == if k == Some(c) && w == wspolne && u
                    == ufs {
                    dopisany(old(self).komorka(c, w, u)@, ext@, sciezka@)
                } else {
                    old(self).komorka(c, w, u)@
                },
    {
        if let Some(c) = k {
            let ghost przed = *self;
            proof {
                assert(self.komorka(c, wspolne, ufs).razem < u64::MAX);
                przed.komorki_zgodne();
            }
            match c {
                KategoriaEntropii::Szum => self.noise.dodaj(wspolne, ufs, ext, sciezka),
                KategoriaEntropii::Zaszyfrowany => self.crypto.dodaj(wspolne, ufs, ext, sciezka),
                KategoriaEntropii::ZepsutaKompresja => self.broken.dodaj(
                    wspolne,
                    ufs,
                    ext,
                    sciezka,
                ),
                KategoriaEntropii::Wydmuszka => self.low.dodaj(wspolne, ufs, ext, sciezka),
            }
            assert forall|d: KategoriaEntropii, w: bool, u: bool|
                (#[trigger] self.komorka(d, w, u)).zgodne() by {
                assert(przed.komorka(d, w, u).zgodne());
            }
        }
    }

    /// Every class is consistent by itself.
    proof fn komorki_zgodne(&self)
        requires
            self.zgodny(),
        ensures
            self.noise.zgodna(),
            self.crypto.zgodna(),
            self.broken.zgodna(),
            self.low.zgodna(),
    {
        assert forall|w: bool, u: bool| (#[trigger] self.noise.komorka(w, u)).zgodne() by {
            assert(self.komorka(KategoriaEntropii::Szum, w, u).zgodne());
        }
        assert forall|w: bool, u: bool| (#[trigger] self.crypto.komorka(w, u)).zgodne() by {
            assert(self.komorka(KategoriaEntropii::Zaszyfrowany, w, u).zgodne());
        }
        assert forall|w: bool, u: bool| (#[trigger] self.broken.komorka(w, u)).zgodne() by {
            assert(self.komorka(KategoriaEntropii::ZepsutaKompresja, w, u).zgodne());
        }
        assert forall|w: bool, u: bool| (#[trigger] self.low.komorka(w, u)).zgodne() by {
            assert(self.komorka(KategoriaEntropii::Wydmuszka, w, u).zgodne());
        }
    }

    /// Counts one row: each copy in the cell of its class, pool and source.
    pub fn dodaj(&mut self, p: &Pomiar)
        requires
            old(self).zgodny(),
            old(self).wierszy < u64::MAX,
        ensures
            final(self).zgodny(),
            final(self).wierszy == old(self).wierszy + 1,
            forall|k: KategoriaEntropii, wspolne: bool, ufs: bool|
                (#[trigger] final(self).komorka(k, wspolne, ufs))@ == if trafia(
                    *p,
                    k,
                    wspolne,
                    ufs,
                ) {
                    dopisany(
                        old(self).komorka(k, wspolne, ufs)@,
                        entropia::format_pliku(p.relative_path@),
                        p.relative_path@,
                    )
                } else {
                    old(self).komorka(k, wspolne, ufs)@
                },
            forall|k: KategoriaEntropii, wspolne: bool, ufs: bool|
                (#[trigger] final(self).komorka(k, wspolne, ufs)).razem == old(self).komorka(
                    k,
                    wspolne,
                    ufs,
                ).razem + if trafia(*p, k, wspolne, ufs) {
                    1int
                } else {
                    0
                },
    {
        let ext = entropia::wyznacz_format(p.relative_path.as_str());
        let e = ext.as_str();
        let spakowany = entropia::jest_skompresowany(e);
        let wspolne = p.found_in_ufs && p.found_in_script;
        let ghost przed = *self;
        let ku = match p.entropy_ufs {
            Some(h) => if p.found_in_ufs {
                entropia::klasyfikuj_entropie(h, spakowany)
            } else {
                None
            },
            None => None,
        };
        let ks = match p.entropy_script {
            Some(h) => if p.found_in_script {
                entropia::klasyfikuj_entropie(h, spakowany)
            } else {
                None
            },
            None => None,
        };
        self.wierszy = self.wierszy + 1;
        assert forall|k: KategoriaEntropii, w: bool, u: bool|
            #![trigger self.komorka(k, w, u)]
            self.komorka(k, w, u).zgodne() && self.komorka(k, w, u).razem < self.wierszy by {
            assert(przed.komorka(k, w, u) == self.komorka(k, w, u));
        }
        self.dodaj_kopie(ku, wspolne, true, e, p.relative_path.as_str());
        let ghost posrodku = *self;
        assert forall|k: KategoriaEntropii, w: bool, u: bool|
            #![trigger self.komorka(k, w, u)]
            self.komorka(k, w, u).razem <= self.wierszy by {
            assert(przed.komorka(k, w, u).razem <= przed.wierszy);
        }
        assert forall|k: KategoriaEntropii, w: bool|
            (#[trigger] self.komorka(k, w, false)).razem < self.wierszy by {
            assert(przed.komorka(k, w, false).razem <= przed.wierszy);
        }
        self.dodaj_kopie(ks, wspolne, false, e, p.relative_path.as_str());
        assert forall|k: KategoriaEntropii, w: bool, u: bool|
            #![trigger self.komorka(k, w, u)]
            self.komorka(k, w, u).razem == przed.komorka(k, w, u).razem + if trafia(*p, k, w, u) {
                1int
            } else {
                0
            } && self.komorka(k, w, u).razem <= self.wierszy by {
            assert(posrodku.komorka(k, w, u).zgodne());
            assert(przed.komorka(k, w, u).razem <= przed.wierszy);
        }
        assert forall|k: KategoriaEntropii, w: bool, u: bool|
            (#[trigger] self.komorka(k, w, u))@ == if trafia(*p, k, w, u) {
                dopisany(przed.komorka(k, w, u)@, e@, p.relative_path@)
            } else {
                przed.komorka(k, w, u)@
            } by {
            assert(posrodku.komorka(k, w, u).zgodne());
        }
    }

    /// One pool of the journal.
    fn opisz_sekcje(&self, tytul: &str, wspolne: bool) -> (r: String)
        requires
            self.zgodny(),
        ensures
            r@ == sekcja(*self, tytul@, wspolne),
    {
        let mut s = "[ ".to_owned();
        s.append(tytul);
        s.append(" ]\n");
        proof {
            self.komorki_zgodne();
            assert(self.noise.komorka(wspolne, true).zgodne());
            assert(self.noise.komorka(wspolne, false).zgodne());
            assert(self.crypto.komorka(wspolne, true).zgodne());
            assert(self.crypto.komorka(wspolne, false).zgodne());
            assert(self.broken.komorka(wspolne, true).zgodne());
            assert(self.broken.komorka(wspolne, false).zgodne());
            assert(self.low.komorka(wspolne, true).zgodne());
            assert(self.low.komorka(wspolne, false).zgodne());
        }
        let a = self.noise.opisz_blok(KategoriaEntropii::Szum, wspolne);
        let b = self.crypto.opisz_blok(KategoriaEntropii::Zaszyfrowany, wspolne);
        let c = self.broken.opisz_blok(KategoriaEntropii::ZepsutaKompresja, wspolne);
        let d = self.low.opisz_blok(KategoriaEntropii::Wydmuszka, wspolne);
        s.append(a.as_str());
        s.append(b.as_str());
        s.append(c.as_str());
        s.append(d.as_str());
        if self.noise.pusta(wspolne) && self.crypto.pusta(wspolne) && self.broken.pusta(wspolne)
            && self.low.pusta(wspolne) {
            s.append("   ✔ Brak anomalii w tej puli.\n\n");
        } else {
            assert(s@ + Seq::<char>::empty() =~= s@);
        }
        s
    }

    /// The closing journal.
    pub fn dziennik_koncowy(&self, d: &DaneDziennika) -> (r: String)
        requires
            self.zgodny(),
        ensures
            r@ == dziennik(*self, *d),
    {
        let mut s = "==========================================================================\nDZIENNIK KOŃCOWY - FAZA 7 (MATEMATYCZNA ANALIZA ENTROPII SHANNONA)\nCzas trwania: ".to_owned();
        s.append(d.czas.as_str());
        s.append("\nSumaryczny transfer I/O: ");
        s.append(d.transfer.as_str());
        s.append(" (Średnia prędkość: ");
        let t1 = d.predkosc.zapisz(2);
        s.append(t1.as_str());
        s.append(" MB/s)\n==========================================================================\n\n");
        let t2 = self.opisz_sekcje("CZĘŚĆ WSPÓLNA (Odnalezione przez oba programy)", true);
        s.append(t2.as_str());
        let t3 = self.opisz_sekcje("OSOBNE ŚCIEŻKI (Unikalne dla jednego źródła)", false);
        s.append(t3.as_str());
        s.append("[ PODSUMOWANIE WAGOWE FORMATÓW ]\n");
        let t4 = opisz_wagi_zrodla("UFS Explorer", &d.wagi_ufs);
        s.append(t4.as_str());
        let t5 = opisz_wagi_zrodla("Skrypt Autorski", &d.wagi_script);
        s.append(t5.as_str());
        s.append("\n");
        let t6 = opisz_bledy(d.bledy);
        s.append(t6.as_str());
        s
    }
}

} // verus!
