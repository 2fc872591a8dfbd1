use recovery_core::binary64::Binary64;
use recovery_core::phases::phase7::entropia::{
    jest_skompresowany, klasyfikuj_entropie, wyznacz_format, Histogram, KategoriaEntropii,
};
use recovery_core::phases::phase7::przebieg::{
    compute_activity_slots, czy_odswiezyc, czy_zapisac, komunikat_pominietych, liczba_watkow,
    polowa_watkow, powitanie, zaplanuj, LiveStats, SideEntropyResult, Task, Wiersz, WynikEntropii,
};
use recovery_core::phases::phase7::raport::{DaneDziennika, Pomiar, Raport};

fn f(x: f64) -> Binary64 {
    Binary64 { bits: x.to_bits() }
}

#[test]
fn test_compute_activity_slots_concurrent_uses_half_threads() {
    assert_eq!(compute_activity_slots("CONCURRENT", 4, 2), 2);
}

#[test]
fn test_compute_activity_slots_sequential_uses_full_actual_threads() {
    assert_eq!(compute_activity_slots("SEQUENTIAL", 4, 2), 4);
}

const EPS: f64 = 1e-9;

/// The Shannon entropy over the byte counts of the library.
fn entropia(tresc: &[u8]) -> f64 {
    let mut h = Histogram::new();
    for porcja in tresc.chunks(131_072) {
        h.dodaj(&porcja.to_vec());
    }
    if h.razem == 0 {
        return 0.0;
    }
    let mut e = 0.0;
    for &n in &h.liczby {
        if n > 0 {
            let p = n as f64 / h.razem as f64;
            e -= p * p.log2();
        }
    }
    e
}

#[test]
fn test_entropy_all_zeros_is_zero() {
    assert!(entropia(&vec![0x00u8; 1000]).abs() < EPS);
}

#[test]
fn test_entropy_single_repeated_nonzero_byte_is_zero() {
    assert!(entropia(&vec![0x41u8; 500]).abs() < EPS);
}

#[test]
fn test_entropy_two_symbols_50_50_is_one_bit() {
    let content: Vec<u8> = (0..1000).map(|i| if i % 2 == 0 { 0x00 } else { 0xFF }).collect();
    let h = entropia(&content);
    assert!((h - 1.0).abs() < EPS, "Oczekiwano H=1.0, otrzymano {}", h);
}

#[test]
fn test_entropy_all_256_values_equal_is_maximal() {
    let mut content = Vec::with_capacity(256 * 10);
    for _ in 0..10 {
        for b in 0..=255u8 {
            content.push(b);
        }
    }
    let h = entropia(&content);
    assert!((h - 8.0).abs() < EPS, "Oczekiwano H=8.0 (maksimum), otrzymano {}", h);
}

#[test]
fn test_entropy_empty_file_is_zero_not_error() {
    assert_eq!(entropia(b""), 0.0);
}

#[test]
fn histogram_liczy_kazdy_bajt() {
    let mut h = Histogram::new();
    h.dodaj(&b"abca".to_vec());
    h.dodaj(&b"a\xff".to_vec());
    assert_eq!(h.razem, 6);
    assert_eq!(h.liczby[b'a' as usize], 3);
    assert_eq!(h.liczby[0xff], 1);
    assert_eq!(h.liczby.iter().sum::<u64>(), h.razem);
}

#[test]
fn test_klasyfikuj_entropie_zero_jest_wydmuszka_nie_brakiem_kategorii() {
    assert_eq!(klasyfikuj_entropie(f(0.0), false), Some(KategoriaEntropii::Wydmuszka));
}

#[test]
fn test_klasyfikuj_entropie_zero_dla_pliku_skompresowanego_jest_zepsuta_kompresja() {
    assert_eq!(klasyfikuj_entropie(f(0.0), true), Some(KategoriaEntropii::ZepsutaKompresja));
}

#[test]
fn test_klasyfikuj_entropie_granice_pozostalych_kategorii_niezmienione() {
    assert_eq!(klasyfikuj_entropie(f(8.0), false), Some(KategoriaEntropii::Szum));
    assert_eq!(klasyfikuj_entropie(f(7.8), false), Some(KategoriaEntropii::Zaszyfrowany));
    assert_eq!(klasyfikuj_entropie(f(0.5), false), Some(KategoriaEntropii::Wydmuszka));
    assert_eq!(klasyfikuj_entropie(f(4.0), false), None);
}

#[test]
fn klasyfikacja_na_progach() {
    assert_eq!(klasyfikuj_entropie(f(7.995), true), None);
    assert_eq!(klasyfikuj_entropie(f(7.5), false), None);
    assert_eq!(klasyfikuj_entropie(f(7.8), true), None);
    assert_eq!(klasyfikuj_entropie(f(6.0), true), None);
    assert_eq!(klasyfikuj_entropie(f(1.0), false), None);
    assert_eq!(klasyfikuj_entropie(f(-0.0), false), Some(KategoriaEntropii::Wydmuszka));
    assert_eq!(klasyfikuj_entropie(f(f64::NAN), false), None);
    assert_eq!(klasyfikuj_entropie(f(f64::NAN), true), None);
}

#[test]
fn test_build_source_block_reports_all_four_categories() {
    let mut stats = LiveStats::new();
    stats.noise.common = 1;
    stats.noise.unique = 2;
    stats.crypto.common = 3;
    stats.crypto.unique = 4;
    stats.broken.common = 5;
    stats.broken.unique = 6;
    stats.low.common = 7;
    stats.low.unique = 8;
    stats.errors = 9;
    let block = stats.build_source_block("UFS Explorer", f(0.0), &Vec::new(), "");
    assert!(block.starts_with("[UFS Explorer]"));
    assert!(block.contains("Szum/Śmieci (H>7.99): 1 wspólne / 2 unikalne"));
    assert!(block.contains("Szyfrowanie (H>7.5): 3 wspólne / 4 unikalne"));
    assert!(block.contains("Zepsuta kompresja (H<6.0): 5 wspólne / 6 unikalne"));
    assert!(block.contains("Wydmuszki (H<1.0): 7 wspólne / 8 unikalne"));
    assert!(block.contains("Błędy I/O: 9"));
}

#[test]
fn test_build_source_block_shows_thread_activity_markup() {
    let stats = LiveStats::new();
    let block =
        stats.build_source_block("UFS Explorer", f(0.0), &Vec::new(), "{G:1} {R:2} {R:3} {G:4}");
    let line = block.lines().find(|l| l.starts_with("Wątki entropii")).unwrap();
    assert_eq!(line, "Wątki entropii (Wariant A): {G:1} {R:2} {R:3} {G:4}");
}

#[test]
fn test_build_source_block_top_one_placeholder_when_empty() {
    let stats = LiveStats::new();
    let block = stats.build_source_block("Skrypt Autorski", f(0.0), &Vec::new(), "");
    assert!(block.contains("top: -"));
    assert!(block.contains("Top format: Analiza danych..."));
}

#[test]
fn test_build_source_block_top_one_picks_highest_count_extension() {
    let mut stats = LiveStats::new();
    stats.crypto.ext.zwieksz("zip", 2);
    stats.crypto.ext.zwieksz("jpg", 9);
    let block = stats.build_source_block("UFS Explorer", f(0.0), &Vec::new(), "");
    let crypto_line = block.lines().find(|l| l.starts_with("Szyfrowanie")).unwrap();
    assert!(crypto_line.contains(".jpg (9)"), "Linia: {}", crypto_line);
}

#[test]
fn test_build_source_block_does_not_leak_other_side_data() {
    let mut stats = LiveStats::new();
    stats.noise.unique = 77;
    let block = stats.build_source_block("Skrypt Autorski", f(0.0), &Vec::new(), "");
    assert!(block.contains("Szum/Śmieci (H>7.99): 0 wspólne / 77 unikalne"));
}

#[test]
fn panel_z_wagami_formatow() {
    let mut stats = LiveStats::new();
    stats.ext_weights.zwieksz("jpg", 10);
    stats.ext_weights.zwieksz("brak", 30);
    stats.ext_weights.zwieksz("mp4", 20);
    stats.ext_weights.zwieksz("txt", 1);
    let top: Vec<(String, String)> = stats
        .najciezsze(3)
        .wpisy
        .iter()
        .map(|w| (w.nazwa.clone(), format!("{} B", w.ile)))
        .collect();
    let block = stats.build_source_block("UFS Explorer", f(1.25), &top, "");
    assert!(block.contains("Prędkość: 1.25 MB/s\n"), "{}", block);
    assert!(block.contains("Top format: brak (30 B), .mp4 (20 B), .jpg (10 B)\n"), "{}", block);
}

#[test]
fn format_pliku_i_kompresja() {
    assert_eq!(wyznacz_format("a/b.JPG"), "jpg");
    assert_eq!(wyznacz_format("a.d/b"), "brak");
    assert_eq!(wyznacz_format(".ukryty"), "brak");
    assert_eq!(wyznacz_format("x.ŻÓŁĆ"), "żółć");
    for e in [
        "zip", "rar", "7z", "jpg", "jpeg", "png", "mp4", "mkv", "pdf", "apk", "gz", "docx", "xlsx",
    ] {
        assert!(jest_skompresowany(e), "{}", e);
    }
    assert!(!jest_skompresowany("txt"));
    assert!(!jest_skompresowany("ZIP"));
}

fn wiersz(id: i32, ufs: bool, script: bool) -> Wiersz {
    Wiersz {
        id,
        relative_path: format!("p{}.txt", id),
        found_in_ufs: ufs,
        found_in_script: script,
        entropy_ufs: None,
        entropy_script: None,
        io_error_ufs: None,
        io_error_script: None,
    }
}

#[test]
fn plan_dzieli_pliki_na_kolejki_i_pominiete() {
    let wiersze = vec![
        wiersz(1, true, true),
        Wiersz { entropy_ufs: Some(f(3.0)), ..wiersz(2, true, true) },
        Wiersz { io_error_script: Some(true), ..wiersz(3, false, true) },
        Wiersz { io_error_ufs: Some(false), ..wiersz(4, true, false) },
    ];
    let plan = zaplanuj(&wiersze);
    let ufs: Vec<(i32, bool)> = plan.ufs.iter().map(|t| (t.id, t.is_common)).collect();
    let script: Vec<(i32, bool)> = plan.script.iter().map(|t| (t.id, t.is_common)).collect();
    assert_eq!(ufs, vec![(1, true), (4, false)]);
    assert_eq!(script, vec![(1, true), (2, true)]);
    assert_eq!((plan.pominiete_ufs, plan.pominiete_script), (1, 1));
    assert_eq!(
        komunikat_pominietych(1, 1).unwrap(),
        "Pominięto pliki z wyliczoną już entropią. UFS Explorer: 1, Skrypt Autorski: 1"
    );
    assert!(komunikat_pominietych(0, 0).is_none());
}

fn zadanie(rel: &str, is_common: bool) -> Task {
    Task { id: 7, rel_path: rel.to_string(), is_common }
}

#[test]
fn rozliczenie_liczy_klasy_i_wagi() {
    let mut stats = LiveStats::new();
    let (r, linia) = stats.rozlicz(
        &zadanie("a/x.TXT", true),
        100,
        &WynikEntropii::Entropia(f(7.75)),
        "UFS Explorer",
        "/ufs/a/x.TXT",
    );
    assert_eq!(r, SideEntropyResult { id: 7, entropy: Some(f(7.75)), io_error: Some(false) });
    assert_eq!(
        linia.unwrap(),
        "[UFS Explorer   ] [Wspólne ] [Zaszyfrowany / Nadpisany (H=7.750)] Format: .txt   | Ścieżka: \"/ufs/a/x.TXT\""
    );
    assert!(czy_zapisac(&r));
    let (r, linia) = stats.rozlicz(
        &zadanie("b.bin", false),
        5,
        &WynikEntropii::Entropia(f(5.0)),
        "UFS Explorer",
        "/ufs/b.bin",
    );
    assert!(linia.is_none());
    assert_eq!(r.io_error, Some(false));
    assert_eq!(stats.processed_files, 2);
    assert_eq!(stats.processed_bytes, 105);
    assert_eq!((stats.crypto.common, stats.crypto.unique), (1, 0));
    assert_eq!(stats.crypto.ext.get("txt"), Some(1));
    assert_eq!(stats.ext_weights.get("txt"), Some(100));
}

#[test]
fn przerwany_plik_nie_jest_uszkodzony() {
    let mut stats = LiveStats::new();
    let (r, linia) =
        stats.rozlicz(&zadanie("a", false), 9, &WynikEntropii::Przerwano, "UFS Explorer", "/ufs/a");
    assert_eq!(r, SideEntropyResult { id: 7, entropy: None, io_error: None });
    assert!(linia.is_none());
    assert!(!czy_zapisac(&r));
    assert_eq!(stats.errors, 0);
    let (r, linia) = stats.rozlicz(
        &zadanie("a", false),
        9,
        &WynikEntropii::Blad("brak pliku".to_string()),
        "Skrypt Autorski",
        "/s/a",
    );
    assert_eq!(r, SideEntropyResult { id: 7, entropy: None, io_error: Some(true) });
    assert!(czy_zapisac(&r));
    assert_eq!(stats.errors, 1);
    assert_eq!(
        linia.unwrap(),
        "[Skrypt Autorski] [Unikalne] [Błąd I/O: brak pliku] Format: .brak  | Ścieżka: \"/s/a\""
    );
}

#[test]
fn watki_i_powitanie() {
    assert_eq!(liczba_watkow(0, 12), 12);
    assert_eq!(liczba_watkow(3, 12), 3);
    assert_eq!(polowa_watkow(1), 1);
    assert_eq!(polowa_watkow(9), 4);
    let (a, b) = powitanie("CONCURRENT", 4);
    assert_eq!(a, "Uruchomiono Fazę 7. Metodyka szyny dyskowej: RÓWNOLEGŁE (SSD/NVMe)");
    assert_eq!(b, "Aktywne wątki procesora (Rayon): 4");
    assert!(czy_odswiezyc(400, 0) && czy_odswiezyc(1, 300) && !czy_odswiezyc(1, 250));
}

fn pomiar(rel: &str, ufs: Option<f64>, script: Option<f64>) -> Pomiar {
    Pomiar {
        relative_path: rel.to_string(),
        found_in_ufs: ufs.is_some(),
        found_in_script: script.is_some(),
        entropy_ufs: ufs.map(f),
        entropy_script: script.map(f),
    }
}

fn dane(bledy: u64) -> DaneDziennika {
    DaneDziennika {
        czas: "1.50s".to_string(),
        transfer: "10 B".to_string(),
        predkosc: f(2.0),
        wagi_ufs: vec![(".jpg".to_string(), "10 B".to_string())],
        wagi_script: Vec::new(),
        bledy,
    }
}

#[test]
fn dziennik_entropii_wypisany_w_calosci() {
    let mut r = Raport::new();
    r.dodaj(&pomiar("a.txt", Some(8.0), Some(4.0)));
    r.dodaj(&pomiar("b.txt", Some(7.999), Some(8.0)));
    r.dodaj(&pomiar("c.bin", Some(0.0), None));
    let l = "=".repeat(74);
    let oczekiwany = format!(
        "{l}\nDZIENNIK KOŃCOWY - FAZA 7 (MATEMATYCZNA ANALIZA ENTROPII SHANNONA)\nCzas trwania: 1.50s\nSumaryczny transfer I/O: 10 B (Średnia prędkość: 2.00 MB/s)\n{l}\n\n[ CZĘŚĆ WSPÓLNA (Odnalezione przez oba programy) ]\n   💥 Typ anomalii: Biały Szum / Śmieci (H>7.99) (UFS: 2, Skrypt: 1)\n      [ ZNACZENIE ]: Wartość entropii wskazuje na matematyczny chaos lub brak spójności danych.\n      UFS Explorer - Rozkład formatów:\n         .txt   : 2 plików (Przykł: a.txt)\n      Skrypt Autorski - Rozkład formatów:\n         .txt   : 1 plików (Przykł: b.txt)\n\n[ OSOBNE ŚCIEŻKI (Unikalne dla jednego źródła) ]\n   🧊 Typ anomalii: Wydmuszki / Puste bloki (H<1.0) (UFS: 1, Skrypt: 0)\n      [ ZNACZENIE ]: Wartość entropii wskazuje na matematyczny chaos lub brak spójności danych.\n      UFS Explorer - Rozkład formatów:\n         .bin   : 1 plików (Przykł: c.bin)\n\n[ PODSUMOWANIE WAGOWE FORMATÓW ]\n   UFS Explorer\n      - .jpg     : 10 B\n   Skrypt Autorski\n      Brak plików.\n\n[ 🚨 BŁĘDY FIZYCZNE I/O ]\n   -> Błędy odczytu (I/O): 3\n",
        l = l
    );
    assert_eq!(r.dziennik_koncowy(&dane(3)), oczekiwany);
}

#[test]
fn dziennik_bez_anomalii() {
    let t = Raport::new().dziennik_koncowy(&dane(0));
    assert_eq!(t.matches("   ✔ Brak anomalii w tej puli.\n\n").count(), 2);
    assert!(!t.contains("BŁĘDY FIZYCZNE"));
}

#[test]
fn dziennik_podaje_trzy_najczestsze_formaty() {
    let mut r = Raport::new();
    for (ext, n) in [("a", 1), ("b", 4), ("c", 2), ("d", 3)] {
        for i in 0..n {
            r.dodaj(&pomiar(&format!("{}{}.{}", ext, i, ext), Some(7.6), None));
        }
    }
    let t = r.dziennik_koncowy(&dane(0));
    let b = t.find("         .b     : 4 plików (Przykł: b0.b)").unwrap();
    let d = t.find("         .d     : 3 plików (Przykł: d0.d)").unwrap();
    let c = t.find("         .c     : 2 plików (Przykł: c0.c)").unwrap();
    assert!(b < d && d < c);
    assert!(!t.contains("(Przykł: a0.a)"));
    assert!(t.contains("🔒 Typ anomalii: Podejrzanie wysoka entropia (H>7.5) (UFS: 10, Skrypt: 0)"));
}
