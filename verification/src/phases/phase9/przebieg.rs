//! Accounts, pages and reports of a run of the merge.

use vstd::prelude::*;

use crate::binary64::Binary64;
use crate::licznik;
use crate::licznik::Licznik;
use crate::phases::phase9::decyzja;
use crate::phases::phase9::decyzja::{MergeCandidate, Strona};
use crate::phases::phase9::kopiowanie;
use crate::phases::phase9::kopiowanie::{Skutek, WynikKopii};
use crate::tekst;

verus! {

/// How many files one worker takes at a time.
pub const CHUNK_SIZE: usize = 100;

/// After how many records a transaction is committed, whatever the time.
pub const PROG_COMMITU: usize = 5000;

/// How many candidates are read into memory at once.
pub const ROZMIAR_STRONY: usize = 10000;

/// The accounts of a run. The sides here are the winners, not the sources.
pub struct LiveStats {
    pub processed_files: usize,
    pub processed_bytes: u64,
    /// Common files taken from UFS.
    pub copied_ufs_common: usize,
    /// Common files taken from the script.
    pub copied_script_common: usize,
    /// Files only UFS had.
    pub copied_ufs_unique: usize,
    /// Files only the script had.
    pub copied_script_unique: usize,
    /// Files put together from both sides.
    pub copied_splice: usize,
    pub symlinks_recreated: usize,
    /// Copies under a changed name.
    pub renamed_files: usize,
    /// Files that could not be copied.
    pub io_errors: usize,
    /// Copies whose metadata could not be given back in full.
    pub meta_errors: usize,
    /// Winners with a restored version.
    pub repaired_used: usize,
    /// How often each reason decided.
    pub reasons: Licznik,
}

/// What is written to the database of one file.
pub struct CopyResult {
    pub id: i32,
    pub winner: &'static str,
    pub reason: String,
    pub success: bool,
    pub saved_path: String,
    /// Where the bytes came from.
    pub source_path: String,
}

/// The size that counts towards the transfer: that of the winning side, or of
/// the file put together once it was copied.
pub open spec fn policzony_rozmiar(
    f: MergeCandidate,
    s: Strona,
    success: bool,
    zlozenie: Option<i64>,
) -> Option<i64> {
    match s {
        Strona::Splice => if success {
            zlozenie
        } else {
            None
        },
        Strona::Script => f.size_script,
        Strona::Ufs => f.size_ufs,
    }
}

/// A signed number as a count of bytes, wrapped around where it is negative.
pub open spec fn jako_bajty(n: i64) -> int {
    if n >= 0 {
        n as int
    } else {
        n + 0x1_0000_0000_0000_0000
    }
}

fn bajty(n: i64) -> (r: u64)
    ensures
        r == jako_bajty(n),
{
    if n >= 0 {
        n as u64
    } else {
        u64::MAX - ((-1 - n) as u64)
    }
}

/// The reason with which a file goes to the database.
pub open spec fn powod_koncowy(powod: Seq<char>, success: bool) -> Seq<char> {
    if success {
        powod
    } else {
        powod + " | BŁĄD KOPIOWANIA (Odmowa I/O)"@
    }
}

/// The line of a file in the operational report.
pub open spec fn wpis_operacyjny(powod: Seq<char>, success: bool, zapisana: Seq<char>) -> Seq<char> {
    (if success {
        "[SUKCES] "@
    } else {
        "[BŁĄD I/O] "@
    }) + powod + " -> "@ + zapisana
}

/// The line of a file in the operational report.
pub fn linia_operacyjna(powod: &str, success: bool, zapisana: &str) -> (r: String)
    ensures
        r@ == wpis_operacyjny(powod@, success, zapisana@),
{
    let mut s = if success {
        "[SUKCES] ".to_owned()
    } else {
        "[BŁĄD I/O] ".to_owned()
    };
    s.append(powod);
    s.append(" -> ");
    s.append(zapisana);
    s
}

/// The live side panel: the speed, the accounts, and the three most frequent
/// reasons. `watki` is how the activity of the threads is shown.
pub open spec fn panel(s: LiveStats, predkosc: Binary64, watki: Seq<char>) -> Seq<char> {
    "[Podsumowanie]\nPrędkość: "@
        + predkosc.zapis(2)
        + " MB/s\nWspólne — UFS: "@
        + tekst::dziesietny(s.copied_ufs_common as nat)
        + " | Skrypt: "@
        + tekst::dziesietny(s.copied_script_common as nat)
        + " | Złożone (Faza 18): "@
        + tekst::dziesietny(s.copied_splice as nat)
        + "\nUnikalne skopiowane: "@
        + tekst::dziesietny((s.copied_ufs_unique + s.copied_script_unique) as nat)
        + "\nDowiązania odtworzone: "@
        + tekst::dziesietny(s.symlinks_recreated as nat)
        + "\nUżyto wersji naprawionej: "@
        + tekst::dziesietny(s.repaired_used as nat)
        + "\nPrzemianowane (kolizja nazw): "@
        + tekst::dziesietny(s.renamed_files as nat)
        + "\nWątki kopiowania (Wariant A): "@
        + watki
        + "\nBłędy I/O: "@
        + tekst::dziesietny(s.io_errors as nat)
        + "\nBłędy metadanych: "@
        + tekst::dziesietny(s.meta_errors as nat)
        + "\nTop powody decyzji: "@
        + licznik::najwieksze(s.reasons@, 3)
}

/// The section of the journal on errors and changed names, where there are any.
pub open spec fn zmiany_systemowe(s: LiveStats) -> Seq<char> {
    if s.io_errors > 0 || s.meta_errors > 0 || s.renamed_files > 0 {
        "\n[ 3 ] BŁĘDY I ZMIANY SYSTEMOWE:\n"@ + pozycja(
            "   -> Zmieniono nazwę (Ochrona przed nadpisaniem): "@,
            s.renamed_files as nat,
        ) + pozycja("   -> Odtworzono symlinki: "@, s.symlinks_recreated as nat) + pozycja(
            "   -> Błędy I/O zapisu: "@,
            s.io_errors as nat,
        )
    } else {
        Seq::empty()
    }
}

/// A line with a count, where it is not zero.
pub open spec fn pozycja(opis: Seq<char>, n: nat) -> Seq<char> {
    if n > 0 {
        opis + tekst::dziesietny(n) + "\n"@
    } else {
        Seq::empty()
    }
}

fn opisz_pozycje(opis: &str, n: usize) -> (r: String)
    ensures
        r@ == pozycja(opis@, n as nat),
{
    if n == 0 {
        return String::new();
    }
    let mut s = opis.to_owned();
    tekst::dopisz_liczbe(&mut s, n as u64);
    s.append("\n");
    s
}

/// The final journal of a run. `czas` is how long it took, `transfer` how much
/// was written.
pub open spec fn dziennik(
    s: LiveStats,
    czas: Seq<char>,
    transfer: Seq<char>,
    predkosc: Binary64,
) -> Seq<char> {
    "==========================================================================\nDZIENNIK KOŃCOWY - FAZA 9 (ZŁOTA KOPIA I SMART MERGE)\nCzas trwania: "@
        + czas
        + "\nSumaryczny transfer zapisu: "@
        + transfer
        + " (Średnia prędkość: "@
        + predkosc.zapis(2)
        + " MB/s)\n==========================================================================\n\n[ 1 ] STATYSTYKI FUZJI:\n   -> Uratowano z puli wspólnej: UFS ("@
        + tekst::dziesietny(s.copied_ufs_common as nat)
        + "), Skrypt ("@
        + tekst::dziesietny(s.copied_script_common as nat)
        + ")\n   -> Skopiowano pliki unikalne: UFS ("@
        + tekst::dziesietny(s.copied_ufs_unique as nat)
        + "), Skrypt ("@
        + tekst::dziesietny(s.copied_script_unique as nat)
        + ")\n   -> Wykorzystano Aktywnie Zrekonstruowane Wersje (Faza 17): "@
        + tekst::dziesietny(s.repaired_used as nat)
        + " plików\n\n[ 2 ] ŚLAD REWIZYJNY (Dlaczego algorytm odrzucał/wybierał poszczególne pliki):\n"@
        + licznik::wykaz(
            licznik::malejaco(s.reasons@),
            s.reasons@.len(),
            "   -> "@,
            " (Ilość: "@,
            ")\n"@,
        )
        + zmiany_systemowe(s)
}

/// One more where the condition holds.
pub open spec fn plus(a: usize, b: bool) -> int {
    a + if b {
        1int
    } else {
        0
    }
}

impl LiveStats {
    /// Every file handled is accounted for once: as copied from one of the
    /// sides, or as an error. Every copy has its reason counted.
    pub open spec fn zgodne(&self) -> bool {
        let skopiowane = self.copied_ufs_common + self.copied_script_common + self.copied_ufs_unique
            + self.copied_script_unique + self.copied_splice;
        &&& self.processed_files == skopiowane + self.io_errors
        &&& licznik::suma(self.reasons@) == skopiowane
        &&& licznik::bez_powtorzen(self.reasons@)
        &&& self.symlinks_recreated <= skopiowane
        &&& self.renamed_files <= skopiowane
        &&& self.meta_errors <= skopiowane
        &&& self.repaired_used <= self.processed_files
    }

    /// `self` is `p` with one more file accounted for.
    pub open spec fn po_pliku(
        &self,
        p: LiveStats,
        f: MergeCandidate,
        d: (Strona, Seq<char>),
        w: Skutek,
        zlozenie: Option<i64>,
    ) -> bool {
        let wspolny = f.in_ufs && f.in_script;
        &&& self.processed_files == p.processed_files + 1
        &&& self.processed_bytes == match policzony_rozmiar(f, d.0, w.success, zlozenie) {
            Some(n) => (p.processed_bytes + jako_bajty(n)) % 0x1_0000_0000_0000_0000,
            None => p.processed_bytes as int,
        }
        &&& self.copied_splice == plus(p.copied_splice, w.success && d.0 == Strona::Splice)
        &&& self.copied_script_common == plus(
            p.copied_script_common,
            w.success && d.0 == Strona::Script && wspolny,
        )
        &&& self.copied_script_unique == plus(
            p.copied_script_unique,
            w.success && d.0 == Strona::Script && !wspolny,
        )
        &&& self.copied_ufs_common == plus(
            p.copied_ufs_common,
            w.success && d.0 == Strona::Ufs && wspolny,
        )
        &&& self.copied_ufs_unique == plus(
            p.copied_ufs_unique,
            w.success && d.0 == Strona::Ufs && !wspolny,
        )
        &&& self.symlinks_recreated == plus(p.symlinks_recreated, w.dowiazanie)
        &&& self.renamed_files == plus(p.renamed_files, w.zmieniona_nazwa)
        &&& self.io_errors == plus(p.io_errors, w.blad_io)
        &&& self.meta_errors == plus(p.meta_errors, w.blad_metadanych)
        &&& self.repaired_used == plus(p.repaired_used, w.naprawiona)
        &&& self.reasons@ == if w.success {
            licznik::zwiekszony(p.reasons@, d.1, 1)
        } else {
            p.reasons@
        }
    }

    /// Empty accounts.
    pub fn new() -> (r: Self)
        ensures
            r.zgodne(),
            r.processed_files == 0,
            r.processed_bytes == 0,
            r.reasons@ == Seq::<(Seq<char>, nat)>::empty(),
    {
        LiveStats {
            processed_files: 0,
            processed_bytes: 0,
            copied_ufs_common: 0,
            copied_script_common: 0,
            copied_ufs_unique: 0,
            copied_script_unique: 0,
            copied_splice: 0,
            symlinks_recreated: 0,
            renamed_files: 0,
            io_errors: 0,
            meta_errors: 0,
            repaired_used: 0,
            reasons: Licznik::new(),
        }
    }

    /// Accounts for one file of which `winner` was decided for the reason `powod`.
    #[verifier::spinoff_prover]
    #[verifier::rlimit(60)]
    fn dolicz(
        &mut self,
        file: &MergeCandidate,
        winner: Strona,
        powod: &str,
        wynik: &WynikKopii,
        zlozenie: Option<i64>,
    )
        requires
            old(self).zgodne(),
            old(self).processed_files < usize::MAX,
            kopiowanie::spojny(wynik@),
        ensures
            final(self).zgodne(),
            final(self).po_pliku(*old(self), *file, (winner, powod@), wynik@, zlozenie),
    {
        proof {
            licznik::ile_w_sumie(self.reasons@, powod@);
            licznik::zwiekszony_sumuje(self.reasons@, powod@, 1);
            licznik::zwiekszony_bez_powtorzen(self.reasons@, powod@, 1);
        }
        let wspolny = file.in_ufs && file.in_script;
        if wynik.success {
            match winner {
                Strona::Splice => {
                    self.copied_splice = self.copied_splice + 1;
                },
                Strona::Script => {
                    if wspolny {
                        self.copied_script_common = self.copied_script_common + 1;
                    } else {
                        self.copied_script_unique = self.copied_script_unique + 1;
                    }
                },
                Strona::Ufs => {
                    if wspolny {
                        self.copied_ufs_common = self.copied_ufs_common + 1;
                    } else {
                        self.copied_ufs_unique = self.copied_ufs_unique + 1;
                    }
                },
            }
            self.reasons.zwieksz(powod, 1);
        }
        if wynik.dowiazanie {
            self.symlinks_recreated = self.symlinks_recreated + 1;
        }
        if wynik.zmieniona_nazwa {
            self.renamed_files = self.renamed_files + 1;
        }
        if wynik.blad_io {
            self.io_errors = self.io_errors + 1;
        }
        if wynik.blad_metadanych {
            self.meta_errors = self.meta_errors + 1;
        }
        if wynik.naprawiona {
            self.repaired_used = self.repaired_used + 1;
        }
        let rozmiar = match winner {
            Strona::Splice => {
                if wynik.success {
                    zlozenie
                } else {
                    None
                }
            },
            Strona::Script => file.size_script,
            Strona::Ufs => file.size_ufs,
        };
        if let Some(n) = rozmiar {
            self.processed_bytes = self.processed_bytes.wrapping_add(bajty(n));
        }
        self.processed_files = self.processed_files + 1;
    }

    /// Accounts for one file: the decision and how its copy ended. `zlozenie` is
    /// the size of the file put together from both sides, where it is known.
    /// Returns what goes to the database.
    pub fn rozlicz(
        &mut self,
        file: &MergeCandidate,
        wynik: &WynikKopii,
        zlozenie: Option<i64>,
    ) -> (r: CopyResult)
        requires
            old(self).zgodne(),
            old(self).processed_files < usize::MAX,
            kopiowanie::spojny(wynik@),
        ensures
            final(self).zgodne(),
            final(self).po_pliku(*old(self), *file, decyzja::decyzja(*file), wynik@, zlozenie),
            r.id == file.id,
            r.winner@ == decyzja::decyzja(*file).0.oznaczenie(),
            r.reason@ == powod_koncowy(decyzja::decyzja(*file).1, wynik.success),
            r.success == wynik.success,
            r.saved_path@ == wynik.saved_path@,
            r.source_path@ == wynik.source_path@,
    {
        let (winner, powod) = decyzja::wybierz_strone(file);
        self.dolicz(file, winner, powod, wynik, zlozenie);
        let mut reason = powod.to_owned();
        if !wynik.success {
            reason.append(" | BŁĄD KOPIOWANIA (Odmowa I/O)");
        }
        CopyResult {
            id: file.id,
            winner: winner.nazwa(),
            reason,
            success: wynik.success,
            saved_path: wynik.saved_path.clone(),
            source_path: wynik.source_path.clone(),
        }
    }

    /// The live side panel.
    pub fn build_summary_block(&self, predkosc: Binary64, watki: &str) -> (r: String)
        requires
            self.zgodne(),
        ensures
            r@ == panel(*self, predkosc, watki@),
    {
        let mut s = "[Podsumowanie]\nPrędkość: ".to_owned();
        let t1 = predkosc.zapisz(2);
        s.append(t1.as_str());
        s.append(" MB/s\nWspólne — UFS: ");
        tekst::dopisz_liczbe(&mut s, self.copied_ufs_common as u64);
        s.append(" | Skrypt: ");
        tekst::dopisz_liczbe(&mut s, self.copied_script_common as u64);
        s.append(" | Złożone (Faza 18): ");
        tekst::dopisz_liczbe(&mut s, self.copied_splice as u64);
        s.append("\nUnikalne skopiowane: ");
        tekst::dopisz_liczbe(&mut s, (self.copied_ufs_unique + self.copied_script_unique) as u64);
        s.append("\nDowiązania odtworzone: ");
        tekst::dopisz_liczbe(&mut s, self.symlinks_recreated as u64);
        s.append("\nUżyto wersji naprawionej: ");
        tekst::dopisz_liczbe(&mut s, self.repaired_used as u64);
        s.append("\nPrzemianowane (kolizja nazw): ");
        tekst::dopisz_liczbe(&mut s, self.renamed_files as u64);
        s.append("\nWątki kopiowania (Wariant A): ");
        s.append(watki);
        s.append("\nBłędy I/O: ");
        tekst::dopisz_liczbe(&mut s, self.io_errors as u64);
        s.append("\nBłędy metadanych: ");
        tekst::dopisz_liczbe(&mut s, self.meta_errors as u64);
        s.append("\nTop powody decyzji: ");
        let t2 = self.reasons.najwieksze(3);
        s.append(t2.as_str());
        s
    }

    fn opisz_zmiany(&self) -> (r: String)
        ensures
            r@ == zmiany_systemowe(*self),
    {
        if self.io_errors == 0 && self.meta_errors == 0 && self.renamed_files == 0 {
            return String::new();
        }
        let mut s = "\n[ 3 ] BŁĘDY I ZMIANY SYSTEMOWE:\n".to_owned();
        let a = opisz_pozycje(
            "   -> Zmieniono nazwę (Ochrona przed nadpisaniem): ",
            self.renamed_files,
        );
        s.append(a.as_str());
        let b = opisz_pozycje("   -> Odtworzono symlinki: ", self.symlinks_recreated);
        s.append(b.as_str());
        let c = opisz_pozycje("   -> Błędy I/O zapisu: ", self.io_errors);
        s.append(c.as_str());
        s
    }

    /// The final journal.
    pub fn dziennik_koncowy(&self, czas: &str, transfer: &str, predkosc: Binary64) -> (r: String)
        ensures
            r@ == dziennik(*self, czas@, transfer@, predkosc),
    {
        let mut s = "==========================================================================\nDZIENNIK KOŃCOWY - FAZA 9 (ZŁOTA KOPIA I SMART MERGE)\nCzas trwania: ".to_owned();
        s.append(czas);
        s.append("\nSumaryczny transfer zapisu: ");
        s.append(transfer);
        s.append(" (Średnia prędkość: ");
        let t1 = predkosc.zapisz(2);
        s.append(t1.as_str());
        s.append(" MB/s)\n==========================================================================\n\n[ 1 ] STATYSTYKI FUZJI:\n   -> Uratowano z puli wspólnej: UFS (");
        tekst::dopisz_liczbe(&mut s, self.copied_ufs_common as u64);
        s.append("), Skrypt (");
        tekst::dopisz_liczbe(&mut s, self.copied_script_common as u64);
        s.append(")\n   -> Skopiowano pliki unikalne: UFS (");
        tekst::dopisz_liczbe(&mut s, self.copied_ufs_unique as u64);
        s.append("), Skrypt (");
        tekst::dopisz_liczbe(&mut s, self.copied_script_unique as u64);
        s.append(")\n   -> Wykorzystano Aktywnie Zrekonstruowane Wersje (Faza 17): ");
        tekst::dopisz_liczbe(&mut s, self.repaired_used as u64);
        s.append(" plików\n\n[ 2 ] ŚLAD REWIZYJNY (Dlaczego algorytm odrzucał/wybierał poszczególne pliki):\n");
        let t2 = self.reasons.wykaz("   -> ", " (Ilość: ", ")\n");
        s.append(t2.as_str());
        let t3 = self.opisz_zmiany();
        s.append(t3.as_str());
        s
    }
}

/// What may stop a run before the first copy.
pub enum Etap {
    /// The target was checked against the sources.
    Sciezki(Result<(), String>),
    /// The target directory is there, or was created.
    Katalog(Result<(), String>),
    /// The files still to be merged were counted.
    Kandydaci(i64),
}

/// Why a run stops at a stage, where it does.
pub open spec fn powod_zatrzymania(e: Etap) -> Option<Seq<char>> {
    match e {
        Etap::Sciezki(Err(p)) => Some("BŁĄD KRYTYCZNY: "@ + p@),
        Etap::Katalog(Err(b)) => Some(
            "BŁĄD KRYTYCZNY: Nie udało się utworzyć katalogu docelowego ("@ + b@
                + "). Sprawdź uprawnienia!"@,
        ),
        Etap::Kandydaci(n) => if n == 0 {
            Some(
                "✔ Kopiowanie SMART MERGE zostało w pełni ukończone podczas poprzednich uruchomień."@,
            )
        } else {
            None
        },
        _ => None,
    }
}

/// Why a run stops at a stage, where it does.
pub fn zatrzymanie(e: &Etap) -> (r: Option<String>)
    ensures
        tekst::widok(r) == powod_zatrzymania(*e),
{
    match e {
        Etap::Sciezki(Err(p)) => {
            let mut s = "BŁĄD KRYTYCZNY: ".to_owned();
            s.append(p.as_str());
            Some(s)
        },
        Etap::Katalog(Err(b)) => {
            let mut s = "BŁĄD KRYTYCZNY: Nie udało się utworzyć katalogu docelowego (".to_owned();
            s.append(b.as_str());
            s.append("). Sprawdź uprawnienia!");
            Some(s)
        },
        Etap::Kandydaci(n) => {
            if *n == 0 {
                Some(
                    "✔ Kopiowanie SMART MERGE zostało w pełni ukończone podczas poprzednich uruchomień.".to_owned(),
                )
            } else {
                None
            }
        },
        _ => None,
    }
}

/// What the log says of the way a run works: whether it copies in parallel, and
/// with how many threads.
pub fn opis_pracy(io_mode: &str, watki: usize) -> (r: (String, String))
    ensures
        r.0@ == "Metodyka pracy szyny dyskowej: "@ + if io_mode@ == "CONCURRENT"@ {
            "RÓWNOLEGŁE"@
        } else {
            "SEKWENCYJNIE"@
        },
        r.1@ == "Aktywne wątki procesora (Rayon): "@ + tekst::dziesietny(watki as nat),
{
    let mut a = "Metodyka pracy szyny dyskowej: ".to_owned();
    if tekst::rowne(io_mode, "CONCURRENT") {
        a.append("RÓWNOLEGŁE");
    } else {
        a.append("SEKWENCYJNIE");
    }
    let mut b = "Aktywne wątki procesora (Rayon): ".to_owned();
    tekst::dopisz_liczbe(&mut b, watki as u64);
    (a, b)
}

/// Whether the screen is refreshed: at every two hundredth file, or when a
/// quarter of a second has passed.
pub fn czy_odswiezyc(current: usize, minelo_ms: u64) -> (r: bool)
    ensures
        r == (current % 200 == 0 || minelo_ms > 250),
{
    current % 200 == 0 || minelo_ms > 250
}

/// Whether the open transaction is committed: only with something in it, and
/// then by the number of records or after half a second.
pub fn czy_zatwierdzic(oczekujace: usize, minelo_ms: u64) -> (r: bool)
    ensures
        r == (oczekujace > 0 && (oczekujace >= PROG_COMMITU || minelo_ms > 500)),
{
    oczekujace > 0 && (oczekujace >= PROG_COMMITU || minelo_ms > 500)
}

/// What the log says at the end of the records written.
pub fn komunikat_zapisu(n: usize) -> (r: String)
    ensures
        r@ == "✔ Zapisano w bazie stan "@ + tekst::dziesietny(n as nat) + " scalonych rekordów."@,
{
    let mut s = "✔ Zapisano w bazie stan ".to_owned();
    tekst::dopisz_liczbe(&mut s, n as u64);
    s.append(" scalonych rekordów.");
    s
}

// ---------------------------------------------------------------------------
// Pages of candidates
// ---------------------------------------------------------------------------

/// The key behind which the next page starts: the last one of this page. An
/// empty page ends the run.
pub fn nastepny_klucz(strona: &Vec<MergeCandidate>) -> (r: Option<i32>)
    ensures
        r == if strona@.len() == 0 {
            None
        } else {
            Some(strona@.last().id)
        },
{
    if strona.len() == 0 {
        None
    } else {
        Some(strona[strona.len() - 1].id)
    }
}

/// The columns of a candidate, in the order of its fields.
pub const KOLUMNY_KANDYDATA: &'static str =
    "id, relative_path, found_in_ufs, found_in_script, hash_match, size_ufs, size_script,
     uid_ufs, uid_script, gid_ufs, gid_script, mode_ufs, mode_script, mtime_ufs, mtime_script,
     is_symlink_ufs, is_symlink_script, zeros_pct_ufs, zeros_pct_script, eof_ok_ufs, eof_ok_script,
     entropy_ufs, entropy_script, utf8_ok_ufs, utf8_ok_script, structure_ok_ufs, structure_ok_script,
     exif_ok_ufs, exif_ok_script, media_decoded_ufs, media_decoded_script, has_xattr_ufs, has_xattr_script,
     io_error_ufs, io_error_script, yara_match_ufs, yara_match_script,
     repaired_path_ufs, repaired_path_script, smart_splice_path";

/// The condition for files not merged yet.
pub const WARUNEK_NIESCALONE: &'static str = "(phase9_done = 0 OR phase9_done IS NULL)";

/// The query for one page: the first records behind a key, in the order of the keys.
pub fn zapytanie_strony() -> (r: String)
    ensures
        r@ == "SELECT "@ + KOLUMNY_KANDYDATA@ + " FROM files WHERE "@ + WARUNEK_NIESCALONE@
            + " AND id > ?1 ORDER BY id LIMIT ?2"@,
{
    let mut s = "SELECT ".to_owned();
    s.append(KOLUMNY_KANDYDATA);
    s.append(" FROM files WHERE ");
    s.append(WARUNEK_NIESCALONE);
    s.append(" AND id > ?1 ORDER BY id LIMIT ?2");
    s
}

/// Keys in growing order.
pub open spec fn rosnace(k: Seq<int>) -> bool {
    forall|i: int, j: int| 0 <= i < j < k.len() ==> k[i] < k[j]
}

/// The keys behind `po`.
pub open spec fn za_kluczem(k: Seq<int>, po: int) -> Seq<int>
    decreases k.len(),
{
    if k.len() == 0 {
        Seq::empty()
    } else if k[0] > po {
        k
    } else {
        za_kluczem(k.skip(1), po)
    }
}

/// The page behind `po` of a table with the keys `k`: at most `n` of them.
pub open spec fn strona_za(k: Seq<int>, po: int, n: nat) -> Seq<int> {
    let z = za_kluczem(k, po);
    if z.len() > n {
        z.take(n as int)
    } else {
        z
    }
}

/// The keys that paging visits, one page after the other.
pub open spec fn odwiedzone(k: Seq<int>, po: int, n: nat) -> Seq<int>
    decreases za_kluczem(k, po).len(),
{
    let s = strona_za(k, po, n);
    if s.len() == 0 || n == 0 || za_kluczem(k, s.last()).len() >= za_kluczem(k, po).len() {
        s
    } else {
        s + odwiedzone(k, s.last(), n)
    }
}

proof fn za_kluczem_dalej(k: Seq<int>, po: int, i: int)
    requires
        rosnace(k),
        0 <= i < k.len(),
        k[i] >= po,
        i > 0 ==> k[i - 1] <= po || k[i] > po,
    ensures
        za_kluczem(k, k[i]) == k.skip(i + 1),
    decreases k.len(),
{
    if i == 0 {
        assert(k.skip(1) =~= za_kluczem(k.skip(1), k[0])) by {
            if k.len() > 1 {
                assert(k.skip(1)[0] > k[0]);
            }
        }
    } else {
        let t = k.skip(1);
        assert(rosnace(t)) by {
            assert forall|a: int, b: int| 0 <= a < b < t.len() implies t[a] < t[b] by {
                assert(k[a + 1] < k[b + 1]);
            }
        }
        assert(t[i - 1] == k[i]);
        assert(k[0] < k[i]);
        za_kluczem_dalej(t, t[i - 1], i - 1);
        assert(t.skip(i) =~= k.skip(i + 1));
    }
}

proof fn za_kluczem_to_koncowka(k: Seq<int>, po: int)
    requires
        rosnace(k),
    ensures
        ({
            let z = za_kluczem(k, po);
            let d = k.len() - z.len();
            &&& 0 <= d
            &&& z == k.skip(d)
            &&& forall|i: int| 0 <= i < d ==> k[i] <= po
            &&& forall|i: int| d <= i < k.len() ==> k[i] > po
        }),
    decreases k.len(),
{
    if k.len() > 0 {
        if k[0] > po {
            assert(k.skip(0) =~= k);
            assert forall|i: int| 0 <= i < k.len() implies k[i] > po by {
                if i > 0 {
                    assert(k[0] < k[i]);
                }
            }
        } else {
            let t = k.skip(1);
            assert(rosnace(t)) by {
                assert forall|a: int, b: int| 0 <= a < b < t.len() implies t[a] < t[b] by {
                    assert(k[a + 1] < k[b + 1]);
                }
            }
            za_kluczem_to_koncowka(t, po);
            let z = za_kluczem(k, po);
            let d = t.len() - z.len();
            assert(t.skip(d) =~= k.skip(d + 1));
            assert forall|i: int| 0 <= i < d + 1 implies k[i] <= po by {
                if i > 0 {
                    assert(t[i - 1] == k[i]);
                }
            }
            assert forall|i: int| d + 1 <= i < k.len() implies k[i] > po by {
                assert(t[i - 1] == k[i]);
            }
        }
    }
}

/// Where a page behind `po` is not empty, it and the keys behind its last one are
/// all the keys behind `po`.
proof fn strona_i_reszta(k: Seq<int>, po: int, n: nat)
    requires
        rosnace(k),
        strona_za(k, po, n).len() > 0,
    ensures
        ({
            let s = strona_za(k, po, n);
            &&& za_kluczem(k, po) == s + za_kluczem(k, s.last())
            &&& za_kluczem(k, s.last()).len() < za_kluczem(k, po).len()
        }),
{
    let z = za_kluczem(k, po);
    let s = strona_za(k, po, n);
    za_kluczem_to_koncowka(k, po);
    let i = k.len() - z.len() + s.len() - 1;
    assert(s.last() == k[i]);
    za_kluczem_dalej(k, k[i], i);
    assert(s + k.skip(i + 1) =~= z);
}

/// Paging by key visits every file behind the key once, in order, and ends: no
/// file is skipped and none comes twice, however the pages fall.
#[verifier::spinoff_prover]
pub proof fn stronicowanie_odwiedza_kazdy_raz(k: Seq<int>, po: int, n: nat)
    requires
        rosnace(k),
        n > 0,
    ensures
        odwiedzone(k, po, n) == za_kluczem(k, po),
    decreases za_kluczem(k, po).len(),
{
    let s = strona_za(k, po, n);
    if s.len() > 0 {
        strona_i_reszta(k, po, n);
        stronicowanie_odwiedza_kazdy_raz(k, s.last(), n);
    }
}

proof fn rosnace_o_tych_samych_kluczach(k: Seq<int>, m: Seq<int>)
    requires
        rosnace(k),
        rosnace(m),
        forall|x: int| k.contains(x) <==> m.contains(x),
    ensures
        k == m,
    decreases k.len(),
{
    if k.len() == 0 {
        if m.len() > 0 {
            assert(m.contains(m[0]));
        }
        assert(k =~= m);
    } else {
        assert(k.contains(k[0]));
        assert(m.len() > 0);
        assert(m.contains(m[0]));
        let a = m.index_of(k[0]);
        let b = k.index_of(m[0]);
        if a > 0 {
            assert(m[0] < m[a]);
        }
        if b > 0 {
            assert(k[0] < k[b]);
        }
        assert(k[0] == m[0]);
        let (s, t) = (k.skip(1), m.skip(1));
        assert forall|x: int, y: int| 0 <= x < y < s.len() implies s[x] < s[y] by {
            assert(k[x + 1] < k[y + 1]);
        }
        assert forall|x: int, y: int| 0 <= x < y < t.len() implies t[x] < t[y] by {
            assert(m[x + 1] < m[y + 1]);
        }
        assert forall|x: int| s.contains(x) <==> t.contains(x) by {
            if s.contains(x) {
                let i = s.index_of(x);
                assert(k[i + 1] == x && k[0] < x);
                assert(k.contains(x));
                let q = m.index_of(x);
                assert(q > 0);
                assert(t[q - 1] == x);
            }
            if t.contains(x) {
                let i = t.index_of(x);
                assert(m[i + 1] == x && m[0] < x);
                assert(m.contains(x));
                let q = k.index_of(x);
                assert(q > 0);
                assert(s[q - 1] == x);
            }
        }
        rosnace_o_tych_samych_kluczach(s, t);
        assert(k =~= seq![k[0]] + s);
        assert(m =~= seq![m[0]] + t);
    }
}

proof fn za_kluczem_zawiera(k: Seq<int>, po: int, x: int)
    requires
        rosnace(k),
    ensures
        za_kluczem(k, po).contains(x) <==> k.contains(x) && x > po,
{
    za_kluczem_to_koncowka(k, po);
    let z = za_kluczem(k, po);
    let d = k.len() - z.len();
    if z.contains(x) {
        let i = z.index_of(x);
        assert(k[d + i] == x);
    }
    if k.contains(x) && x > po {
        let i = k.index_of(x);
        assert(z[i - d] == x);
    }
}

/// Marking files of the pages already handled as merged does not move the pages
/// to come: a page depends on the keys behind it alone.
pub proof fn oznaczanie_nie_przesuwa_stron(k: Seq<int>, m: Seq<int>, po: int, n: nat)
    requires
        rosnace(k),
        rosnace(m),
        forall|x: int| x > po ==> (k.contains(x) <==> m.contains(x)),
    ensures
        strona_za(k, po, n) == strona_za(m, po, n),
{
    let (a, b) = (za_kluczem(k, po), za_kluczem(m, po));
    za_kluczem_to_koncowka(k, po);
    za_kluczem_to_koncowka(m, po);
    assert(rosnace(a)) by {
        let d = k.len() - a.len();
        assert forall|x: int, y: int| 0 <= x < y < a.len() implies a[x] < a[y] by {
            assert(k[d + x] < k[d + y]);
        }
    }
    assert(rosnace(b)) by {
        let d = m.len() - b.len();
        assert forall|x: int, y: int| 0 <= x < y < b.len() implies b[x] < b[y] by {
            assert(m[d + x] < m[d + y]);
        }
    }
    assert forall|x: int| a.contains(x) <==> b.contains(x) by {
        za_kluczem_zawiera(k, po, x);
        za_kluczem_zawiera(m, po, x);
    }
    rosnace_o_tych_samych_kluczach(a, b);
}

} // verus!
