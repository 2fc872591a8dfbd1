use std::collections::{HashMap, HashSet};

use recovery_core::binary64::Binary64;
use recovery_core::phases::phase9::decyzja::{decide_winner, wybierz_strone, MergeCandidate, Strona};
use recovery_core::phases::phase9::kopiowanie::{
    copy_file_and_meta, jako_i64, rozloz_czas, zlec_kopie, KrokKopii, Odpowiedz, Operacja,
    WynikKopii,
};
use recovery_core::phases::phase9::przebieg::{
    czy_odswiezyc, czy_zatwierdzic, KOLUMNY_KANDYDATA, komunikat_zapisu, linia_operacyjna,
    nastepny_klucz, opis_pracy, WARUNEK_NIESCALONE, zapytanie_strony, zatrzymanie, Etap, LiveStats,
    CHUNK_SIZE, PROG_COMMITU, ROZMIAR_STRONY,
};
use recovery_core::phases::phase9::sciezki::{
    commit_bez_nadpisania, etykieta_zwyciezcy, get_safe_target_path, kanon, nazwa_kandydata,
    obetnij_do_granicy_utf8, sciezka_naprawiona, sciezka_tymczasowa, sciezki_bezpieczne,
    wyznacz_kandydata, Dowiazanie, KrokKanonu, KrokZatwierdzenia, WyborNazwy,
};
use recovery_core::sciezka;

fn f(x: f64) -> Binary64 {
    Binary64 { bits: x.to_bits() }
}

fn base_candidate() -> MergeCandidate {
    MergeCandidate {
        id: 1, rel_path: "test.dat".to_string(), in_ufs: true, in_script: true,
        hash_match: Some(true), size_ufs: Some(100), size_script: Some(100),
        uid_ufs: None, uid_script: None, gid_ufs: None, gid_script: None,
        mode_ufs: None, mode_script: None, mtime_ufs: None, mtime_script: None,
        is_symlink_ufs: None, is_symlink_script: None,
        zeros_pct_ufs: None, zeros_pct_script: None, eof_ok_ufs: None, eof_ok_script: None,
        entropy_ufs: None, entropy_script: None, utf8_ok_ufs: None, utf8_ok_script: None,
        structure_ok_ufs: None, structure_ok_script: None, exif_ok_ufs: None, exif_ok_script: None,
        media_decoded_ufs: None, media_decoded_script: None, has_xattr_ufs: None, has_xattr_script: None,
        io_error_ufs: None, io_error_script: None, yara_match_ufs: None, yara_match_script: None,
        repaired_path_ufs: None, repaired_path_script: None,
        smart_splice_path: None,
    }
}

#[test]
fn test_decide_yara_ufs_infected_script_wins() {
    let c = MergeCandidate { yara_match_ufs: Some("Trojan".to_string()), ..base_candidate() };
    let (winner, reason) = decide_winner(&c);
    assert_eq!(winner, "script");
    assert!(reason.contains("Zainfekowany"));
}

#[test]
fn test_decide_yara_script_infected_ufs_wins() {
    let c = MergeCandidate { yara_match_script: Some("Trojan".to_string()), ..base_candidate() };
    assert_eq!(decide_winner(&c).0, "ufs");
}

#[test]
fn test_decide_yara_wins_over_repair() {
    let c = MergeCandidate {
        yara_match_ufs: Some("Malware".to_string()),
        repaired_path_ufs: Some("test.repaired".to_string()),
        ..base_candidate()
    };
    let (winner, reason) = decide_winner(&c);
    assert_eq!(winner, "script");
    assert!(reason.contains("Zainfekowany"), "YARA musi wygrać nad rekonstrukcją: {}", reason);
}

#[test]
fn test_decide_smart_splice_wins_when_present() {
    let c = MergeCandidate { smart_splice_path: Some("/tmp/x_smartsplice.png".to_string()), ..base_candidate() };
    let (winner, reason) = decide_winner(&c);
    assert_eq!(winner, "splice");
    assert!(reason.contains("Faza 18"));
}

#[test]
fn test_decide_smart_splice_wins_over_physical_repair() {
    let c = MergeCandidate {
        smart_splice_path: Some("/tmp/x_smartsplice.jpg".to_string()),
        repaired_path_ufs: Some("x.repaired".to_string()),
        ..base_candidate()
    };
    assert_eq!(decide_winner(&c).0, "splice");
}

#[test]
fn test_decide_yara_wins_over_smart_splice() {
    let c = MergeCandidate {
        yara_match_ufs: Some("Malware".to_string()),
        smart_splice_path: Some("/tmp/x_smartsplice.png".to_string()),
        ..base_candidate()
    };
    let (winner, reason) = decide_winner(&c);
    assert_eq!(winner, "script");
    assert!(reason.contains("Zainfekowany"), "YARA musi wygrać nad Smart Splice: {}", reason);
}

#[test]
fn test_decide_no_smart_splice_falls_through_to_normal_logic() {
    let c = MergeCandidate { hash_match: Some(true), ..base_candidate() };
    assert_eq!(decide_winner(&c).0, "script");
}

#[test]
fn test_decide_repaired_ufs_only() {
    let c = MergeCandidate { repaired_path_ufs: Some("x.repaired".to_string()), ..base_candidate() };
    let (winner, reason) = decide_winner(&c);
    assert_eq!(winner, "ufs");
    assert!(reason.contains("zrekonstruowanej"));
}

#[test]
fn test_decide_repaired_script_only() {
    let c = MergeCandidate { repaired_path_script: Some("x.repaired".to_string()), ..base_candidate() };
    assert_eq!(decide_winner(&c).0, "script");
}

#[test]
fn test_decide_repaired_both_defaults_to_script() {
    let c = MergeCandidate {
        repaired_path_ufs: Some("a.repaired".to_string()),
        repaired_path_script: Some("b.repaired".to_string()),
        ..base_candidate()
    };
    let (winner, reason) = decide_winner(&c);
    assert_eq!(winner, "script");
    assert!(reason.contains("Priorytet domyślny"));
}

#[test]
fn test_decide_io_error_ufs_only_script_wins() {
    let c = MergeCandidate { io_error_ufs: Some(true), ..base_candidate() };
    let (winner, reason) = decide_winner(&c);
    assert_eq!(winner, "script");
    assert!(reason.contains("Błąd I/O"));
}

#[test]
fn test_decide_io_error_script_only_ufs_wins() {
    let c = MergeCandidate { io_error_script: Some(true), ..base_candidate() };
    assert_eq!(decide_winner(&c).0, "ufs");
}

#[test]
fn test_decide_io_error_both_sides_falls_through_to_default() {
    let c = MergeCandidate { io_error_ufs: Some(true), io_error_script: Some(true), ..base_candidate() };
    let (winner, reason) = decide_winner(&c);
    assert_eq!(winner, "script");
    assert!(!reason.contains("Błąd I/O"));
}

#[test]
fn test_decide_media_decode_failure_ufs() {
    let c = MergeCandidate { media_decoded_ufs: Some(false), ..base_candidate() };
    assert_eq!(decide_winner(&c).0, "script");
}

#[test]
fn test_decide_structure_failure_script() {
    let c = MergeCandidate { structure_ok_script: Some(false), ..base_candidate() };
    assert_eq!(decide_winner(&c).0, "ufs");
}

#[test]
fn test_decide_utf8_failure_ufs() {
    let c = MergeCandidate { utf8_ok_ufs: Some(false), ..base_candidate() };
    assert_eq!(decide_winner(&c).0, "script");
}

#[test]
fn test_decide_exif_failure_script() {
    let c = MergeCandidate { exif_ok_script: Some(false), ..base_candidate() };
    assert_eq!(decide_winner(&c).0, "ufs");
}

#[test]
fn test_decide_eof_failure_ufs() {
    let c = MergeCandidate { eof_ok_ufs: Some(false), ..base_candidate() };
    assert_eq!(decide_winner(&c).0, "script");
}

#[test]
fn test_decide_wydmuszka_ufs() {
    let c = MergeCandidate { zeros_pct_ufs: Some(f(99.5)), zeros_pct_script: Some(f(10.0)), ..base_candidate() };
    let (winner, reason) = decide_winner(&c);
    assert_eq!(winner, "script");
    assert!(reason.contains("Wydmuszka"));
}

#[test]
fn test_decide_wydmuszka_threshold_exactly_99_not_triggered() {
    let c = MergeCandidate { zeros_pct_ufs: Some(f(99.0)), ..base_candidate() };
    let (_, reason) = decide_winner(&c);
    assert!(!reason.contains("Wydmuszka"));
}

#[test]
fn test_decide_high_entropy_ufs() {
    let c = MergeCandidate { entropy_ufs: Some(f(8.0)), entropy_script: Some(f(4.0)), ..base_candidate() };
    let (winner, reason) = decide_winner(&c);
    assert_eq!(winner, "script");
    assert!(reason.contains("entropia"));
}

#[test]
fn test_decide_entropy_threshold_exactly_7995_not_triggered() {
    let c = MergeCandidate { entropy_ufs: Some(f(7.995)), ..base_candidate() };
    let (_, reason) = decide_winner(&c);
    assert!(!reason.contains("entropia"));
}

#[test]
fn test_decide_xattr_preserved_only_ufs_wins() {
    let c = MergeCandidate { has_xattr_ufs: Some(true), ..base_candidate() };
    let (winner, reason) = decide_winner(&c);
    assert_eq!(winner, "ufs");
    assert!(reason.contains("xattr"));
}

#[test]
fn test_decide_larger_size_wins() {
    let c = MergeCandidate { size_ufs: Some(500), size_script: Some(100), ..base_candidate() };
    let (winner, reason) = decide_winner(&c);
    assert_eq!(winner, "ufs");
    assert!(reason.contains("Większy rozmiar"));
}

#[test]
fn test_decide_identical_hash_defaults_to_script() {
    let c = base_candidate();
    let (winner, reason) = decide_winner(&c);
    assert_eq!(winner, "script");
    assert!(reason.contains("Zgodne bit-do-bitu"));
}

#[test]
fn test_decide_total_tie_defaults_to_script() {
    let c = MergeCandidate { hash_match: Some(false), ..base_candidate() };
    let (winner, reason) = decide_winner(&c);
    assert_eq!(winner, "script");
    assert!(reason.contains("Remis heurystyczny"));
}

#[test]
fn test_decide_unique_ufs_only() {
    let c = MergeCandidate { in_ufs: true, in_script: false, ..base_candidate() };
    let (winner, reason) = decide_winner(&c);
    assert_eq!(winner, "ufs");
    assert!(reason.contains("unikalny"));
}

#[test]
fn test_decide_unique_script_only() {
    let c = MergeCandidate { in_ufs: false, in_script: true, ..base_candidate() };
    assert_eq!(decide_winner(&c).0, "script");
}

#[test]
fn unikalny_plik_nie_przechodzi_przez_hierarchie() {
    let c = MergeCandidate {
        in_ufs: true,
        in_script: false,
        yara_match_ufs: Some("Regula".to_string()),
        repaired_path_script: Some("/naprawiony".to_string()),
        ..base_candidate()
    };
    assert_eq!(decide_winner(&c), ("ufs", "Plik unikalny (Tylko UFS Explorer)"));
    let c = MergeCandidate {
        in_ufs: false,
        in_script: true,
        yara_match_script: Some("Regula".to_string()),
        ..base_candidate()
    };
    assert_eq!(decide_winner(&c), ("script", "Plik unikalny (Tylko Skrypt Autorski)"));
}

#[test]
fn prog_wydmuszki_nie_obejmuje_dokladnie_99_procent() {
    let c = MergeCandidate {
        zeros_pct_ufs: Some(f(99.0)),
        zeros_pct_script: Some(f(99.5)),
        ..base_candidate()
    };
    assert_eq!(decide_winner(&c), ("ufs", "Skrypt odrzucony (Wydmuszka wypełniona zerami)"));
    let c = MergeCandidate {
        zeros_pct_ufs: Some(f(99.5)),
        zeros_pct_script: Some(f(99.5)),
        ..base_candidate()
    };
    assert_eq!(decide_winner(&c).1, "Zgodne bit-do-bitu (Priorytet domyślny: Skrypt Autorski)");
}

/// A disk in memory.
#[derive(Default)]
struct Dysk {
    pliki: HashMap<String, Vec<u8>>,
    dowiazania: HashMap<String, Vec<u8>>,
    katalogi: HashSet<String>,
    czasy: HashMap<String, (i64, u32)>,
    prawa: HashMap<String, u32>,
    wlasciciele: HashMap<String, (u32, u32)>,
    bez_praw: bool,
}

impl Dysk {
    fn z(pary: &[(&str, &[u8])]) -> Dysk {
        let mut d = Dysk::default();
        for (p, t) in pary {
            d.pliki.insert(p.to_string(), t.to_vec());
        }
        d
    }

    fn istnieje(&self, p: &str) -> bool {
        self.pliki.contains_key(p) || self.dowiazania.contains_key(p) || self.katalogi.contains(p)
    }

    fn wykonaj(&mut self, o: Operacja) -> Odpowiedz {
        match o {
            Operacja::SprawdzIstnienie(p) => Odpowiedz::Istnieje(self.istnieje(&p)),
            Operacja::UtworzKatalog(p) => {
                self.katalogi.insert(p);
                Odpowiedz::Udalo(true)
            }
            Operacja::CzytajDowiazanie(p) => Odpowiedz::Cel(self.dowiazania.get(&p).cloned()),
            Operacja::UtworzDowiazanie(cel, p) => {
                if self.istnieje(&p) {
                    Odpowiedz::Udalo(false)
                } else {
                    self.dowiazania.insert(p, cel);
                    Odpowiedz::Udalo(true)
                }
            }
            Operacja::Kopiuj(a, b) => match self.pliki.get(&a).cloned() {
                Some(t) => {
                    self.pliki.insert(b, t);
                    Odpowiedz::Udalo(true)
                }
                None => Odpowiedz::Udalo(false),
            },
            Operacja::Zmierz(p) => Odpowiedz::Rozmiar(self.pliki.get(&p).map(|t| t.len() as u64)),
            Operacja::Polacz(a, b) => {
                if self.istnieje(&b) {
                    Odpowiedz::Polaczenie(Dowiazanie::Zajete)
                } else {
                    match self.pliki.get(&a).cloned() {
                        Some(t) => {
                            self.pliki.insert(b, t);
                            Odpowiedz::Polaczenie(Dowiazanie::Utworzone)
                        }
                        None => Odpowiedz::Polaczenie(Dowiazanie::Blad),
                    }
                }
            }
            Operacja::Usun(p) => Odpowiedz::Udalo(self.pliki.remove(&p).is_some()),
            Operacja::UstawCzas(p, s, n) => {
                self.czasy.insert(p, (s, n));
                Odpowiedz::Udalo(!self.bez_praw)
            }
            Operacja::UstawPrawa(p, m) => {
                self.prawa.insert(p, m);
                Odpowiedz::Udalo(!self.bez_praw)
            }
            Operacja::UstawWlasciciela(p, u, g) => {
                self.wlasciciele.insert(p, (u, g));
                Odpowiedz::Udalo(!self.bez_praw)
            }
        }
    }

    fn kopiuj(&mut self, c: &MergeCandidate, winner: Strona) -> WynikKopii {
        let z = zlec_kopie(c, winner, "/ufs", "/script", "/target", 77, 1);
        let mut h = Vec::new();
        loop {
            match copy_file_and_meta(&z, &h) {
                KrokKopii::Wykonaj(o) => {
                    let odp = self.wykonaj(o);
                    h.push(odp);
                    assert!(h.len() < 100);
                }
                KrokKopii::Koniec(w) => return w,
            }
        }
    }

    fn pod(&self, katalog: &str) -> Vec<String> {
        let mut v: Vec<String> =
            self.pliki.keys().filter(|p| p.starts_with(katalog)).cloned().collect();
        v.sort();
        v
    }

    fn bezpieczna(&self, base: &str, rel: &str, winner: Strona) -> (String, String, bool) {
        let mut zajete = Vec::new();
        loop {
            match get_safe_target_path(base, rel, winner, &zajete) {
                WyborNazwy::Sprawdz(p) => {
                    let jest = self.istnieje(&p);
                    zajete.push(jest);
                }
                WyborNazwy::Wybrano(p, r, n) => return (p, r, n),
            }
        }
    }

    fn zatwierdz(&mut self, tmp: &str, rel: &str, winner: Strona) -> Option<(String, String, bool)> {
        let mut proby = Vec::new();
        loop {
            match commit_bez_nadpisania("/target", rel, winner, &proby) {
                KrokZatwierdzenia::Polacz(p) => {
                    match self.wykonaj(Operacja::Polacz(tmp.to_string(), p)) {
                        Odpowiedz::Polaczenie(d) => proby.push(d),
                        _ => unreachable!(),
                    }
                }
                KrokZatwierdzenia::Gotowe(p, r, n) => {
                    self.pliki.remove(tmp);
                    return Some((p, r, n));
                }
                KrokZatwierdzenia::Odmowa => return None,
            }
        }
    }

    /// The real path, with `/praca` as the working directory.
    fn rzeczywista(&self, p: &str) -> Option<String> {
        if p == "." {
            return Some("/praca".to_string());
        }
        let pelna = if p.starts_with('/') { p.to_string() } else { format!("/praca/{}", p) };
        if pelna == "/" || self.katalogi.contains(&pelna) {
            Some(pelna)
        } else {
            None
        }
    }

    fn kanon(&self, p: &str) -> String {
        let mut h = Vec::new();
        loop {
            match kanon(p, &h) {
                KrokKanonu::Sprobuj(q) => h.push(self.rzeczywista(&q)),
                KrokKanonu::Gotowe(w) => return w,
            }
        }
    }

    fn bezpieczne(&self, target: &str, ufs: &str, script: &str) -> Result<(), String> {
        sciezki_bezpieczne(target, &self.kanon(target), &self.kanon(ufs), &self.kanon(script))
    }
}

fn katalogi(v: &[&str]) -> Dysk {
    let mut d = Dysk::default();
    for k in v {
        d.katalogi.insert(k.to_string());
    }
    d
}

#[test]
fn test_safe_path_no_collision() {
    let d = Dysk::default();
    let (path, rel, renamed) = d.bezpieczna("/target", "plik.txt", Strona::Script);
    assert!(!renamed);
    assert_eq!(rel, "plik.txt");
    assert_eq!(path, "/target/plik.txt");
}

#[test]
fn test_safe_path_single_collision_gets_source_tag() {
    let d = Dysk::z(&[("/target/plik.txt", b"istniejacy")]);
    let (_, rel, renamed) = d.bezpieczna("/target", "plik.txt", Strona::Script);
    assert!(renamed);
    assert_eq!(rel, "plik_[SKRYPT].txt");
}

#[test]
fn test_safe_path_ufs_tag_when_winner_is_ufs() {
    let d = Dysk::z(&[("/target/plik.txt", b"istniejacy")]);
    let (_, rel, _) = d.bezpieczna("/target", "plik.txt", Strona::Ufs);
    assert_eq!(rel, "plik_[UFS].txt");
}

#[test]
fn test_safe_path_zlozony_tag_when_winner_is_splice() {
    let d = Dysk::z(&[("/target/plik.txt", b"istniejacy")]);
    let (_, rel, _) = d.bezpieczna("/target", "plik.txt", Strona::Splice);
    assert_eq!(rel, "plik_[ZLOZONY].txt");
}

#[test]
fn test_safe_path_double_collision_gets_version_suffix() {
    let d = Dysk::z(&[("/target/plik.txt", b"a"), ("/target/plik_[SKRYPT].txt", b"b")]);
    let (_, rel, renamed) = d.bezpieczna("/target", "plik.txt", Strona::Script);
    assert!(renamed);
    assert_eq!(rel, "plik_[SKRYPT]_v2.txt");
}

#[test]
fn test_safe_path_file_without_extension() {
    let d = Dysk::z(&[("/target/README", b"a")]);
    let (_, rel, _) = d.bezpieczna("/target", "README", Strona::Ufs);
    assert_eq!(rel, "README_[UFS]");
}

#[test]
fn test_safe_path_preserves_subdirectory_structure() {
    let d = Dysk::default();
    let (path, rel, renamed) = d.bezpieczna("/target", "sub/dir/plik.txt", Strona::Script);
    assert!(!renamed);
    assert_eq!(rel, "sub/dir/plik.txt");
    assert_eq!(path, "/target/sub/dir/plik.txt");
}

#[test]
fn test_commit_bez_nadpisania_drugi_watek_nie_nadpisuje_pierwszego() {
    let mut d = Dysk::z(&[
        ("/target/.tmp1", b"TRESC_WATKU_A"),
        ("/target/.tmp2", b"TRESC_WATKU_B"),
    ]);
    let (path1, rel1, renamed1) = d.zatwierdz("/target/.tmp1", "plik.txt", Strona::Script).unwrap();
    let (path2, rel2, renamed2) = d.zatwierdz("/target/.tmp2", "plik.txt", Strona::Script).unwrap();
    assert!(!renamed1);
    assert!(renamed2);
    assert_ne!(path1, path2);
    assert_eq!(d.pliki[&path1], b"TRESC_WATKU_A");
    assert_eq!(d.pliki[&path2], b"TRESC_WATKU_B");
    assert_eq!(rel1, "plik.txt");
    assert_eq!(rel2, "plik_[SKRYPT].txt");
    assert!(!d.istnieje("/target/.tmp1"));
    assert!(!d.istnieje("/target/.tmp2"));
}

#[test]
fn test_commit_bez_nadpisania_trzecia_kolizja_dostaje_wersje_v2() {
    let mut d = Dysk::z(&[
        ("/target/.tmp1", b"A"),
        ("/target/.tmp2", b"B"),
        ("/target/.tmp3", b"C"),
    ]);
    let (_, rel1, _) = d.zatwierdz("/target/.tmp1", "plik.txt", Strona::Ufs).unwrap();
    let (_, rel2, _) = d.zatwierdz("/target/.tmp2", "plik.txt", Strona::Ufs).unwrap();
    let (path3, rel3, renamed3) = d.zatwierdz("/target/.tmp3", "plik.txt", Strona::Ufs).unwrap();
    assert_eq!(rel1, "plik.txt");
    assert_eq!(rel2, "plik_[UFS].txt");
    assert!(renamed3);
    assert_eq!(rel3, "plik_[UFS]_v2.txt");
    assert_eq!(d.pliki[&path3], b"C");
}

#[test]
fn test_commit_bez_nadpisania_bez_kolizji_zachowuje_oryginalna_nazwe() {
    let mut d = Dysk::z(&[("/target/.tmp", b"tresc")]);
    let (path, rel, renamed) = d.zatwierdz("/target/.tmp", "sub/plik.txt", Strona::Script).unwrap();
    assert!(!renamed);
    assert_eq!(rel, "sub/plik.txt");
    assert_eq!(path, "/target/sub/plik.txt");
    assert_eq!(d.pliki[&path], b"tresc");
    assert!(!d.istnieje("/target/.tmp"));
}

#[test]
fn zatwierdzenie_odmawia_przy_bledzie_dysku() {
    let mut d = Dysk::default();
    assert!(d.zatwierdz("/target/.nie_ma", "plik.txt", Strona::Script).is_none());
}

#[test]
fn test_copy_regular_file_success() {
    let mut d = Dysk::z(&[("/ufs/plik.txt", b"zawartosc testowa")]);
    let candidate =
        MergeCandidate { rel_path: "plik.txt".to_string(), size_ufs: Some(17), ..base_candidate() };
    let w = d.kopiuj(&candidate, Strona::Ufs);
    assert!(w.success);
    assert_eq!(w.saved_path, "plik.txt");
    assert_eq!(d.pliki["/target/plik.txt"], b"zawartosc testowa");
    assert!(!w.blad_io);
    let pozostale: Vec<String> =
        d.pod("/target").into_iter().filter(|p| p.contains(".tmp-")).collect();
    assert!(pozostale.is_empty(), "plik tymczasowy nie został posprzątany: {:?}", pozostale);
}

#[test]
fn test_copy_bledny_rozmiar_nie_zostawia_zadnego_pliku_pod_finalna_nazwa() {
    let mut d = Dysk::z(&[("/ufs/plik.txt", b"tresc o innej dlugosci niz oczekiwana")]);
    let candidate = MergeCandidate {
        rel_path: "plik.txt".to_string(),
        size_ufs: Some(999_999),
        ..base_candidate()
    };
    let w = d.kopiuj(&candidate, Strona::Ufs);
    assert!(!w.success);
    assert!(!d.istnieje("/target/plik.txt"));
    assert!(d.pod("/target").is_empty(), "{:?}", d.pod("/target"));
}

/// Runs a copy whose data, size and linking are answered as given: whether it
/// succeeded, the temporary paths that were written and those that were removed.
fn slady_kopii(
    naprawiony: Option<&str>,
    kopia: bool,
    rozmiar: Option<u64>,
    laczenie: Dowiazanie,
) -> (bool, Vec<String>, Vec<String>) {
    let c = MergeCandidate {
        rel_path: "plik.txt".to_string(),
        size_ufs: Some(17),
        repaired_path_ufs: naprawiony.map(|p| p.to_string()),
        ..base_candidate()
    };
    let z = zlec_kopie(&c, Strona::Ufs, "/ufs", "/script", "/target", 77, 1);
    let (mut h, mut zapisane, mut usuniete) = (Vec::new(), Vec::new(), Vec::new());
    loop {
        assert!(h.len() < 100);
        match copy_file_and_meta(&z, &h) {
            KrokKopii::Wykonaj(o) => h.push(match o {
                Operacja::SprawdzIstnienie(_) => Odpowiedz::Istnieje(false),
                Operacja::Kopiuj(_, b) => {
                    zapisane.push(b);
                    Odpowiedz::Udalo(kopia)
                }
                Operacja::Zmierz(_) => Odpowiedz::Rozmiar(rozmiar),
                Operacja::Polacz(_, _) => Odpowiedz::Polaczenie(laczenie),
                Operacja::Usun(p) => {
                    usuniete.push(p);
                    Odpowiedz::Udalo(true)
                }
                _ => Odpowiedz::Udalo(true),
            }),
            KrokKopii::Koniec(w) => return (w.success, zapisane, usuniete),
        }
    }
}

#[test]
fn zakonczona_kopia_usuwa_plik_tymczasowy() {
    let naprawa = Some("/praca/plik_repaired.txt");
    for (naprawiony, kopia, rozmiar, laczenie, sukces) in [
        (None, true, Some(17), Dowiazanie::Utworzone, true),
        (None, false, Some(17), Dowiazanie::Utworzone, false),
        (None, true, Some(16), Dowiazanie::Utworzone, false),
        (None, true, None, Dowiazanie::Utworzone, false),
        (None, true, Some(17), Dowiazanie::Blad, false),
        (naprawa, true, None, Dowiazanie::Utworzone, true),
        (naprawa, false, None, Dowiazanie::Utworzone, false),
        (naprawa, true, None, Dowiazanie::Blad, false),
    ] {
        let (wynik, zapisane, usuniete) = slady_kopii(naprawiony, kopia, rozmiar, laczenie);
        assert_eq!(wynik, sukces);
        assert_eq!(zapisane.len(), 1);
        assert_eq!(usuniete, zapisane);
    }
}

#[test]
fn test_sciezki_bezpieczne_akceptuje_rozlaczne_katalogi() {
    let d = katalogi(&["/a/ufs", "/a/script", "/a/target"]);
    assert!(d.bezpieczne("/a/target", "/a/ufs", "/a/script").is_ok());
}

#[test]
fn test_sciezki_bezpieczne_odrzuca_identyczna_sciezke_z_ufs() {
    let d = katalogi(&["/a/ufs", "/a/script"]);
    assert!(d.bezpieczne("/a/ufs", "/a/ufs", "/a/script").is_err());
}

#[test]
fn test_sciezki_bezpieczne_odrzuca_identyczna_sciezke_z_script() {
    let d = katalogi(&["/a/ufs", "/a/script"]);
    assert!(d.bezpieczne("/a/script", "/a/ufs", "/a/script").is_err());
}

#[test]
fn test_sciezki_bezpieczne_odrzuca_target_wewnatrz_ufs() {
    let d = katalogi(&["/a/ufs", "/a/script", "/a/ufs/podkatalog_docelowy"]);
    assert!(d.bezpieczne("/a/ufs/podkatalog_docelowy", "/a/ufs", "/a/script").is_err());
}

#[test]
fn test_sciezki_bezpieczne_odrzuca_ufs_wewnatrz_target() {
    let d = katalogi(&["/a/script", "/a/target", "/a/target/podkatalog_zrodlowy"]);
    assert!(d.bezpieczne("/a/target", "/a/target/podkatalog_zrodlowy", "/a/script").is_err());
}

#[test]
fn test_kanon_wzgledna_jednoskladnikowa_bez_istniejacego_przodka_rozwiazuje_wzgledem_cwd() {
    let nazwa = "___test_kanon_jednoskladnikowa_nieistniejaca___";
    let wynik = Dysk::default().kanon(nazwa);
    assert_eq!(wynik, format!("/praca/{}", nazwa));
    assert!(sciezka::jest_bezwzgledna(&wynik));
}

#[test]
fn test_kanon_wzgledna_wieloskladnikowa_bez_istniejacego_przodka_rozwiazuje_wzgledem_cwd() {
    let wynik = Dysk::default().kanon("___test_kanon_a___/___test_kanon_b___/___test_kanon_c___");
    assert_eq!(wynik, "/praca/___test_kanon_a___/___test_kanon_b___/___test_kanon_c___");
}

#[test]
fn test_kanon_katalog_istniejacy_zwraca_kanoniczna_sciezke() {
    let d = katalogi(&["/a/b"]);
    assert_eq!(d.kanon("/a/b"), "/a/b");
}

#[test]
fn test_kanon_lisc_nieistniejacy_pod_istniejacym_rodzicem() {
    let d = katalogi(&["/a/b"]);
    assert_eq!(d.kanon("/a/b/jeszcze_nieutworzony_lisc"), "/a/b/jeszcze_nieutworzony_lisc");
}

#[test]
fn test_kanon_dwie_wzgledne_sciezki_do_tego_samego_miejsca_sa_rowne() {
    let d = Dysk::default();
    assert_eq!(d.kanon("___test_kanon_wspolny___"), d.kanon("./___test_kanon_wspolny___"));
}

#[test]
fn kanon_rozwiazuje_wyjscie_w_gore_w_brakujacej_czesci() {
    let d = katalogi(&["/a/b"]);
    assert_eq!(d.kanon("brak/../x"), "/praca/x");
    assert_eq!(d.kanon("/a/b/brak/../x"), "/a/b/x");
    assert_eq!(d.kanon("/a/b/brak/../../x"), "/a/x");
    assert_eq!(d.kanon("/brak/../../x"), "/x");
    assert_eq!(d.kanon("brak/.."), "/praca");
    assert_eq!(d.kanon(""), "/praca");
}

#[test]
fn cel_z_wyjsciem_w_gore_nie_omija_kontroli() {
    let d = katalogi(&["/praca/ufs", "/praca/script"]);
    assert!(d.bezpieczne("brak/../ufs/wynik", "ufs", "script").is_err());
    assert!(d.bezpieczne("brak/../wynik", "ufs", "script").is_ok());
}

#[test]
fn kanon_poddaje_sie_gdy_nic_nie_istnieje() {
    let mut h: Vec<Option<String>> = Vec::new();
    loop {
        match kanon("/a/b", &h) {
            KrokKanonu::Sprobuj(_) => h.push(None),
            KrokKanonu::Gotowe(w) => {
                assert_eq!(w, "/a/b");
                break;
            }
        }
        assert!(h.len() < 10);
    }
}

#[test]
fn test_sciezka_tymczasowa_nie_przekracza_name_max_dla_dlugiej_nazwy() {
    let dlugie_imie = "a".repeat(250);
    let tmp = sciezka_tymczasowa(&format!("/tmp/{}.jpg", dlugie_imie), u32::MAX, u64::MAX);
    let tmp_nazwa = sciezka::nazwa_pliku(&tmp).unwrap();
    assert!(tmp_nazwa.len() <= 255, "{} bajtów: {:?}", tmp_nazwa.len(), tmp_nazwa);
}

#[test]
fn test_sciezka_tymczasowa_krotka_nazwa_pozostaje_nietknieta() {
    let tmp = sciezka_tymczasowa("/tmp/plik.jpg", 12, 3);
    let tmp_nazwa = sciezka::nazwa_pliku(&tmp).unwrap();
    assert!(tmp_nazwa.contains("plik.jpg"), "{:?}", tmp_nazwa);
    assert_eq!(tmp, "/tmp/.plik.jpg.tmp-12-3");
}

#[test]
fn test_sciezka_tymczasowa_dwa_wywolania_daja_rozne_nazwy() {
    assert_ne!(sciezka_tymczasowa("/tmp/plik.jpg", 12, 0), sciezka_tymczasowa("/tmp/plik.jpg", 12, 1));
}

#[test]
fn test_obetnij_do_granicy_utf8_nie_tnie_w_srodku_wielobajtowego_znaku() {
    let s = "zdjęcie_wakacje_nad_jeziorem_długi_tytuł_pliku";
    for limit in 0..=s.len() {
        let wynik = obetnij_do_granicy_utf8(s, limit);
        assert!(std::str::from_utf8(wynik.as_bytes()).is_ok());
        assert!(wynik.len() <= limit);
        assert!(s.starts_with(wynik.as_str()));
        assert!(limit - wynik.len() < 4);
    }
}

#[test]
fn test_obetnij_do_granicy_utf8_krotszy_niz_limit_nie_jest_zmieniany() {
    assert_eq!(obetnij_do_granicy_utf8("krotka", 200), "krotka");
}

#[test]
fn test_sciezki_bezpieczne_wykrywa_zagniezdzenie_gdy_target_jeszcze_nie_istnieje() {
    let d = katalogi(&["/a/ufs", "/a/script"]);
    let wynik = d.bezpieczne("/a/ufs/jeszcze_nieutworzony_katalog_docelowy", "/a/ufs", "/a/script");
    assert!(wynik.is_err());
}

#[test]
fn test_sciezki_bezpieczne_akceptuje_rozlaczny_target_ktory_jeszcze_nie_istnieje() {
    let d = katalogi(&["/a/ufs", "/a/script", "/a/rodzic"]);
    assert!(d.bezpieczne("/a/rodzic/nowy_katalog_docelowy", "/a/ufs", "/a/script").is_ok());
}

#[test]
fn wspolny_przedrostek_nazwy_to_nie_zagniezdzenie() {
    let d = katalogi(&["/a/ufs", "/a/script", "/a/ufs_kopia"]);
    assert!(d.bezpieczne("/a/ufs_kopia", "/a/ufs", "/a/script").is_ok());
}

#[test]
fn test_copy_splice_reads_from_smart_splice_path_not_ufs_or_script() {
    let mut d = Dysk::z(&[
        ("/ufs/obraz.png", b"UFS - uszkodzona wersja"),
        ("/script/obraz.png", b"SKRYPT - inna uszkodzona wersja"),
        ("/splice/obraz_smartsplice.png", b"ZLOZONY - zweryfikowana wersja"),
    ]);
    let candidate = MergeCandidate {
        rel_path: "obraz.png".to_string(),
        smart_splice_path: Some("/splice/obraz_smartsplice.png".to_string()),
        ..base_candidate()
    };
    let w = d.kopiuj(&candidate, Strona::Splice);
    assert!(w.success);
    assert_eq!(d.pliki["/target/obraz.png"], b"ZLOZONY - zweryfikowana wersja");
}

#[test]
fn test_copy_missing_source_is_io_error() {
    let mut d = Dysk::default();
    let candidate =
        MergeCandidate { rel_path: "nieistniejacy.txt".to_string(), ..base_candidate() };
    let w = d.kopiuj(&candidate, Strona::Ufs);
    let mut stats = LiveStats::new();
    assert!(!w.success);
    stats.rozlicz(&candidate, &w, None);
    assert_eq!(stats.io_errors, 1);
}

#[test]
fn test_copy_symlink_recreation() {
    let mut d = Dysk::z(&[("/ufs/cel.txt", b"dane")]);
    d.dowiazania.insert("/ufs/link.txt".to_string(), b"cel.txt".to_vec());
    let candidate = MergeCandidate {
        rel_path: "link.txt".to_string(),
        is_symlink_ufs: Some(true),
        ..base_candidate()
    };
    let w = d.kopiuj(&candidate, Strona::Ufs);
    let mut stats = LiveStats::new();
    assert!(w.success);
    stats.rozlicz(&candidate, &w, None);
    assert_eq!(stats.symlinks_recreated, 1);
    assert_eq!(d.dowiazania["/target/link.txt"], b"cel.txt");
}

#[test]
fn dowiazanie_zachowuje_cel_bajt_w_bajt() {
    let mut d = Dysk::default();
    d.dowiazania.insert("/ufs/link.txt".to_string(), vec![0x61, 0xFF, 0xFE, 0x2F]);
    let candidate = MergeCandidate {
        rel_path: "link.txt".to_string(),
        is_symlink_ufs: Some(true),
        ..base_candidate()
    };
    assert!(d.kopiuj(&candidate, Strona::Ufs).success);
    assert_eq!(d.dowiazania["/target/link.txt"], [0x61, 0xFF, 0xFE, 0x2F]);
}

#[test]
fn kopia_przywraca_metadane() {
    let mut d = Dysk::z(&[("/script/a.txt", b"12345")]);
    let candidate = MergeCandidate {
        rel_path: "a.txt".to_string(),
        size_script: Some(5),
        uid_script: Some(1000),
        gid_script: Some(100),
        mode_script: Some(0o644),
        mtime_script: Some(1_500_000_000_123_456_789),
        ..base_candidate()
    };
    let w = d.kopiuj(&candidate, Strona::Script);
    assert!(w.success && !w.blad_metadanych);
    assert_eq!(d.czasy["/target/a.txt"], (1_500_000_000, 123_456_789));
    assert_eq!(d.prawa["/target/a.txt"], 0o644);
    assert_eq!(d.wlasciciele["/target/a.txt"], (1000, 100));
    let mut d = Dysk::z(&[("/script/a.txt", b"12345")]);
    d.bez_praw = true;
    let w = d.kopiuj(&candidate, Strona::Script);
    assert!(w.success && w.blad_metadanych);
}

#[test]
fn kopia_pod_zajeta_nazwa_dostaje_inna() {
    let mut d = Dysk::z(&[("/ufs/a.txt", b"nowa"), ("/target/a.txt", b"stara")]);
    let candidate =
        MergeCandidate { rel_path: "a.txt".to_string(), size_ufs: Some(4), ..base_candidate() };
    let w = d.kopiuj(&candidate, Strona::Ufs);
    assert!(w.success && w.zmieniona_nazwa);
    assert_eq!(w.saved_path, "a_[UFS].txt");
    assert_eq!(d.pliki["/target/a.txt"], b"stara");
    assert_eq!(d.pliki["/target/a_[UFS].txt"], b"nowa");
}

#[test]
fn phase9_test_build_summary_block_reports_counts() {
    let mut stats = LiveStats::new();
    stats.copied_ufs_common = 3;
    stats.copied_script_common = 7;
    stats.copied_ufs_unique = 2;
    stats.io_errors = 1;
    let block = stats.build_summary_block(f(0.0), "");
    assert!(block.contains("Wspólne — UFS: 3 | Skrypt: 7"));
    assert!(block.contains("Unikalne skopiowane: 2"));
    assert!(block.contains("Błędy I/O: 1"));
}

#[test]
fn phase9_test_build_summary_block_placeholder_when_no_reasons() {
    let stats = LiveStats::new();
    let block = stats.build_summary_block(f(0.0), "");
    assert!(block.contains("Top powody decyzji: -"));
}

#[test]
fn test_blok_zawiera_znacznik_aktywnosci_watkow() {
    let stats = LiveStats::new();
    let block = stats.build_summary_block(f(0.0), "{R:1} {G:2}");
    let line = block.lines().map(str::trim).find(|l| l.starts_with("Wątki kopiowania")).unwrap();
    assert_eq!(line, "Wątki kopiowania (Wariant A): {R:1} {G:2}");
}

#[test]
fn test_sciezka_naprawiona_absolutna_jest_uzywana_wprost() {
    let zapisana = "/praca/zlota_kopia/_phase17_repaired/ufs/foto/a_repaired.jpg";
    let wynik = sciezka_naprawiona(zapisana, "/mnt/zrodlo");
    assert_eq!(wynik, zapisana);
    assert!(!wynik.starts_with("/mnt/zrodlo"));
}

#[test]
fn test_sciezka_naprawiona_wzgledna_jest_doklejana_do_bazy_zgodnosc_wstecz() {
    let wynik = sciezka_naprawiona("foto/a_repaired.jpg", "/mnt/zrodlo");
    assert_eq!(wynik, "/mnt/zrodlo/foto/a_repaired.jpg");
}

#[test]
fn test_sciezka_naprawiona_czyta_realny_plik_z_przestrzeni_roboczej() {
    let d = Dysk::z(&[("/przestrzen/a_repaired.txt", b"tresc naprawiona")]);
    let rozwiazana = sciezka_naprawiona("/przestrzen/a_repaired.txt", "/zrodlo");
    assert_eq!(d.pliki[&rozwiazana], b"tresc naprawiona");
}

#[test]
fn test_prog_commitu_jest_zgodny_z_faza3() {
    assert_eq!(PROG_COMMITU, 5_000);
}

#[test]
fn test_zwraca_sciezke_zrodlowa_oryginalu_z_korpusu() {
    let mut d = Dysk::z(&[("/ufs/plik.txt", b"tresc")]);
    let candidate =
        MergeCandidate { rel_path: "plik.txt".to_string(), size_ufs: Some(5), ..base_candidate() };
    let w = d.kopiuj(&candidate, Strona::Ufs);
    assert!(w.success);
    assert_eq!(w.source_path, "/ufs/plik.txt");
}

#[test]
fn test_zwraca_sciezke_zrodlowa_naprawy_z_fazy17() {
    let naprawiony = "/praca/_phase17_repaired/ufs/obraz_repaired.png";
    let mut d = Dysk::z(&[("/ufs/obraz.png", b"ORYGINAL uszkodzony"), (naprawiony, b"NAPRAWIONY")]);
    let candidate = MergeCandidate {
        rel_path: "obraz.png".to_string(),
        repaired_path_ufs: Some(naprawiony.to_string()),
        ..base_candidate()
    };
    let w = d.kopiuj(&candidate, Strona::Ufs);
    assert!(w.success);
    assert_eq!(w.source_path, naprawiony);
    assert!(w.source_path.contains("_phase17_repaired"));
    assert_eq!(d.pliki["/target/obraz.png"], b"NAPRAWIONY");
}

#[test]
fn test_zwraca_sciezke_zrodlowa_zlozenia_z_fazy18() {
    let zlozony = "/praca/_smart_splice_repaired/obraz_smartsplice.png";
    let mut d = Dysk::z(&[
        ("/ufs/obraz.png", b"UFS"),
        ("/script/obraz.png", b"SKRYPT"),
        (zlozony, b"ZLOZONY"),
    ]);
    let candidate = MergeCandidate {
        rel_path: "obraz.png".to_string(),
        smart_splice_path: Some(zlozony.to_string()),
        ..base_candidate()
    };
    let w = d.kopiuj(&candidate, Strona::Splice);
    assert!(w.success);
    assert!(w.source_path.contains("_smart_splice_repaired"));
}

#[test]
fn test_sciezka_zrodlowa_jest_zwracana_takze_przy_bledzie_kopiowania() {
    let mut d = Dysk::default();
    let candidate = MergeCandidate { rel_path: "nie_ma.txt".to_string(), ..base_candidate() };
    let w = d.kopiuj(&candidate, Strona::Ufs);
    assert!(!w.success);
    assert_eq!(w.source_path, "/ufs/nie_ma.txt");
}

fn baza_z_plikami(ile: usize) -> rusqlite::Connection {
    let conn = rusqlite::Connection::open_in_memory().unwrap();
    let kolumny: Vec<String> = KOLUMNY_KANDYDATA
        .split(',')
        .map(|k| k.trim().to_string())
        .filter(|k| k != "id")
        .collect();
    conn.execute_batch(&format!(
        "CREATE TABLE files (id INTEGER PRIMARY KEY, {}, phase9_done INTEGER)",
        kolumny.join(", ")
    ))
    .unwrap();
    for i in 1..=ile {
        conn.execute(
            "INSERT INTO files (relative_path, found_in_ufs, found_in_script, size_ufs) VALUES (?1, 1, 0, 10)",
            [format!("plik{:03}.dat", i)],
        )
        .unwrap();
    }
    conn
}

fn wczytaj_strone(conn: &rusqlite::Connection, po_id: i32, limit: i32) -> Vec<MergeCandidate> {
    let mut stmt = conn.prepare(&zapytanie_strony()).unwrap();
    let rows = stmt
        .query_map([po_id, limit], |row| {
            Ok(MergeCandidate {
                id: row.get(0)?,
                rel_path: row.get(1)?,
                in_ufs: row.get(2)?,
                in_script: row.get(3)?,
                hash_match: row.get(4)?,
                size_ufs: row.get(5)?,
                ..base_candidate()
            })
        })
        .unwrap();
    rows.map(|r| r.unwrap()).collect()
}

fn klucze(strona: &[MergeCandidate]) -> Vec<i32> {
    strona.iter().map(|k| k.id).collect()
}

#[test]
fn test_wczytaj_strone_respektuje_limit_i_kolejnosc() {
    let conn = baza_z_plikami(7);
    let strona = wczytaj_strone(&conn, 0, 3);
    assert_eq!(strona.len(), 3);
    assert_eq!(klucze(&strona), vec![1, 2, 3]);
}

#[test]
fn test_wczytaj_strone_pomija_juz_scalone() {
    let conn = baza_z_plikami(5);
    conn.execute("UPDATE files SET phase9_done = 1 WHERE id IN (1, 2)", []).unwrap();
    let strona = wczytaj_strone(&conn, 0, 10);
    assert_eq!(klucze(&strona), vec![3, 4, 5]);
}

#[test]
fn test_stronicowanie_kluczem_nie_przeskakuje_rekordow() {
    let conn = baza_z_plikami(10);
    let mut zebrane: Vec<i32> = Vec::new();
    let mut ostatni_id = 0;
    loop {
        let strona = wczytaj_strone(&conn, ostatni_id, 3);
        let Some(klucz) = nastepny_klucz(&strona) else {
            break;
        };
        ostatni_id = klucz;
        for id in klucze(&strona) {
            conn.execute("UPDATE files SET phase9_done = 1 WHERE id = ?1", [id]).unwrap();
            zebrane.push(id);
        }
    }
    assert_eq!(zebrane, (1..=10).collect::<Vec<i32>>());
}

#[test]
fn test_wczytaj_strone_konczy_sie_na_pustej_stronie() {
    let conn = baza_z_plikami(2);
    assert!(wczytaj_strone(&conn, 2, 10).is_empty());
    assert_eq!(nastepny_klucz(&wczytaj_strone(&conn, 2, 10)), None);
}

#[test]
fn test_stronicowanie_posuwa_sie_takze_gdy_rekord_nie_zostal_oznaczony() {
    let conn = baza_z_plikami(4);
    let pierwsza = wczytaj_strone(&conn, 0, 2);
    let druga = wczytaj_strone(&conn, nastepny_klucz(&pierwsza).unwrap(), 2);
    assert_eq!(klucze(&druga), vec![3, 4]);
}

#[test]
fn test_kolumny_kandydata_zgadzaja_sie_z_mapowaniem() {
    assert_eq!(KOLUMNY_KANDYDATA.split(',').count(), 40);
    let conn = baza_z_plikami(1);
    let strona = wczytaj_strone(&conn, 0, 1);
    assert_eq!(strona.len(), 1);
    assert_eq!(strona[0].rel_path, "plik001.dat");
}

#[test]
fn test_rozmiar_strony_jest_sensowny() {
    assert!(ROZMIAR_STRONY >= 1_000 && ROZMIAR_STRONY <= 100_000);
    assert_eq!(CHUNK_SIZE, 100);
}

#[test]
fn test_przebieg_kopiuje_wszystko_i_konczy_petle_stron() {
    let tresc: &[u8] = b"zawartosc pliku";
    let mut d = Dysk::default();
    let conn = baza_z_plikami(5);
    for i in 1..=5 {
        d.pliki.insert(format!("/ufs/dane/plik{}.dat", i), tresc.to_vec());
        conn.execute(
            "UPDATE files SET relative_path = ?1, size_ufs = 15 WHERE id = ?2",
            (format!("dane/plik{}.dat", i), i),
        )
        .unwrap();
    }
    let mut stats = LiveStats::new();
    let mut ostatni = 0;
    loop {
        let strona = wczytaj_strone(&conn, ostatni, 2);
        let Some(klucz) = nastepny_klucz(&strona) else {
            break;
        };
        ostatni = klucz;
        for c in &strona {
            let w = d.kopiuj(c, wybierz_strone(c).0);
            let r = stats.rozlicz(c, &w, None);
            assert_eq!(r.winner, "ufs");
            assert!(r.source_path.starts_with("/ufs"), "{}", r.source_path);
            conn.execute("UPDATE files SET phase9_done = 1 WHERE id = ?1", [r.id]).unwrap();
        }
    }
    let niescalone: i64 = conn
        .query_row(
            &format!("SELECT COUNT(*) FROM files WHERE {}", WARUNEK_NIESCALONE),
            [],
            |r| r.get(0),
        )
        .unwrap();
    assert_eq!(niescalone, 0);
    for i in 1..=5 {
        assert_eq!(d.pliki[&format!("/target/dane/plik{}.dat", i)], tresc);
    }
    assert_eq!(stats.processed_files, 5);
    assert_eq!(stats.copied_ufs_unique, 5);
    assert_eq!(stats.processed_bytes, 75);
}

#[test]
fn test_przebieg_na_bazie_bez_kandydatow_konczy_sie_od_razu() {
    assert_eq!(
        zatrzymanie(&Etap::Kandydaci(0)).unwrap(),
        "✔ Kopiowanie SMART MERGE zostało w pełni ukończone podczas poprzednich uruchomień."
    );
    assert!(zatrzymanie(&Etap::Kandydaci(3)).is_none());
}

#[test]
fn przebieg_staje_na_niebezpiecznych_sciezkach() {
    let d = katalogi(&["/a/ufs", "/a/script"]);
    let r = d.bezpieczne("/a/ufs", "/a/ufs", "/a/script");
    let powod = zatrzymanie(&Etap::Sciezki(r)).unwrap();
    assert!(powod.starts_with("BŁĄD KRYTYCZNY: "), "{}", powod);
    assert!(powod.contains("UFS"), "{}", powod);
    assert!(zatrzymanie(&Etap::Sciezki(Ok(()))).is_none());
    assert!(zatrzymanie(&Etap::Katalog(Ok(()))).is_none());
    assert_eq!(
        zatrzymanie(&Etap::Katalog(Err("brak".to_string()))).unwrap(),
        "BŁĄD KRYTYCZNY: Nie udało się utworzyć katalogu docelowego (brak). Sprawdź uprawnienia!"
    );
}

#[test]
fn nazwy_kandydatow_wypisane() {
    assert_eq!(nazwa_kandydata("plik", "UFS", ".txt", 1), "plik_[UFS].txt");
    assert_eq!(nazwa_kandydata("plik", "UFS", ".txt", 7), "plik_[UFS]_v7.txt");
    assert_eq!(etykieta_zwyciezcy(Strona::Splice), "ZLOZONY");
    assert_eq!(wyznacz_kandydata("a/b.c/d.tar.gz", Strona::Script, 0), "a/b.c/d.tar.gz");
    assert_eq!(wyznacz_kandydata("a/b.c/d.tar.gz", Strona::Script, 2), "a/b.c/d.tar_[SKRYPT]_v2.gz");
}

#[test]
fn czas_rozlozony_na_sekundy_i_reszte() {
    assert_eq!(rozloz_czas(1_500_000_000), (1, 500_000_000));
    assert_eq!(rozloz_czas(-1_500_000_000), (-2, 500_000_000));
    assert_eq!(rozloz_czas(-1_000_000_000), (-1, 0));
    assert_eq!(rozloz_czas(-1), (-1, 999_999_999));
    for m in [0i64, 1, 999_999_999, 1_000_000_000, -1, -1_500_000_000, i64::MIN, i64::MAX] {
        let (s, n) = rozloz_czas(m);
        assert_eq!(s, m.div_euclid(1_000_000_000));
        assert_eq!(n as i64, m.rem_euclid(1_000_000_000), "{}", m);
    }
}

#[test]
fn rozmiar_jako_liczba_ze_znakiem() {
    for n in [0u64, 1, i64::MAX as u64, i64::MAX as u64 + 1, u64::MAX] {
        assert_eq!(jako_i64(n), n as i64);
    }
}

#[test]
fn progi_odswiezania_i_zatwierdzania() {
    assert!(czy_odswiezyc(200, 0) && czy_odswiezyc(0, 0) && czy_odswiezyc(1, 251));
    assert!(!czy_odswiezyc(199, 250));
    assert!(!czy_zatwierdzic(0, 10_000));
    assert!(czy_zatwierdzic(1, 501) && czy_zatwierdzic(5_000, 0));
    assert!(!czy_zatwierdzic(4_999, 500));
    assert_eq!(komunikat_zapisu(12), "✔ Zapisano w bazie stan 12 scalonych rekordów.");
    let (a, b) = opis_pracy("CONCURRENT", 8);
    assert_eq!(a, "Metodyka pracy szyny dyskowej: RÓWNOLEGŁE");
    assert_eq!(b, "Aktywne wątki procesora (Rayon): 8");
    assert_eq!(opis_pracy("SEQUENTIAL", 8).0, "Metodyka pracy szyny dyskowej: SEKWENCYJNIE");
}

#[test]
fn rozliczenie_i_dziennik() {
    let mut stats = LiveStats::new();
    let c = MergeCandidate { size_script: Some(40), size_ufs: Some(40), ..base_candidate() };
    let w = WynikKopii {
        success: true,
        saved_path: "test.dat".to_string(),
        source_path: "/script/test.dat".to_string(),
        naprawiona: false,
        dowiazanie: false,
        zmieniona_nazwa: true,
        blad_io: false,
        blad_metadanych: false,
    };
    let r = stats.rozlicz(&c, &w, None);
    assert_eq!((r.id, r.winner, r.success), (1, "script", true));
    assert_eq!(r.reason, decide_winner(&c).1);
    assert_eq!(stats.copied_script_common, 1);
    assert_eq!(stats.processed_bytes, 40);
    assert_eq!(stats.renamed_files, 1);
    let dz = stats.dziennik_koncowy("1.00s", "40 B", f(0.5));
    assert!(dz.contains("   -> Uratowano z puli wspólnej: UFS (0), Skrypt (1)"), "{}", dz);
    assert!(dz.contains("   -> Zmieniono nazwę (Ochrona przed nadpisaniem): 1"), "{}", dz);
    assert!(dz.contains(&format!("   -> {} (Ilość: 1)\n", r.reason)), "{}", dz);
    let linia = linia_operacyjna(&r.reason, true, "test.dat");
    assert!(linia.contains("test.dat"), "{}", linia);
}

#[test]
fn symetria_decyzji() {
    let c = MergeCandidate { io_error_ufs: Some(true), ..base_candidate() };
    let d = MergeCandidate { io_error_script: Some(true), ..base_candidate() };
    assert!(wybierz_strone(&c).0 == Strona::Script);
    assert!(wybierz_strone(&d).0 == Strona::Ufs);
}
