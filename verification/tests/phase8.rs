use recovery_core::binary64::{procent, Binary64};
use recovery_core::euro_csv::{
    escape_csv, fmt_opt_bool, fmt_opt_f64, fmt_opt_i64, fmt_opt_str, zlacz_pola,
};
use recovery_core::phases::phase8::{
    dziennik_koncowy, evaluate_file, naglowek_csv, rozpoznaj, Evaluation, FileRecord, Kategoria,
    Przebieg, Stats,
};

fn f(x: f64) -> Binary64 {
    Binary64 { bits: x.to_bits() }
}

fn base_clean_record() -> FileRecord {
    FileRecord {
        relative_path: "test/plik.dat".to_string(),
        found_in_ufs: true,
        found_in_script: true,
        size_ufs: Some(1024),
        size_script: Some(1024),
        size_match: Some(true),
        hash_ufs: Some("aaaa".to_string()),
        hash_script: Some("aaaa".to_string()),
        hash_match: Some(true),
        fuzzy_match_pct: None,
        zeros_pct_ufs: None,
        zeros_pct_script: None,
        eof_ok_ufs: None,
        eof_ok_script: None,
        entropy_ufs: None,
        entropy_script: None,
        utf8_ok_ufs: None,
        utf8_ok_script: None,
        structure_ok_ufs: None,
        structure_ok_script: None,
        exif_ok_ufs: None,
        exif_ok_script: None,
        media_decoded_ufs: None,
        media_decoded_script: None,
        has_xattr_ufs: None,
        has_xattr_script: None,
        io_error_ufs: None,
        io_error_script: None,
        yara_match_ufs: None,
        yara_match_script: None,
        repaired_path_ufs: None,
        repaired_path_script: None,
        repair_log_ufs: None,
        repair_log_script: None,
        smart_splice_path: None,
        video_ok_ufs: None,
        video_ok_script: None,
        video_reason_ufs: None,
        video_reason_script: None,
    }
}

#[test]
fn test_evaluate_yara_match_ufs_is_infected() {
    let r = FileRecord {
        yara_match_ufs: Some("EICAR_Test".to_string()),
        ..base_clean_record()
    };
    let eval = evaluate_file(&r);
    assert_eq!(eval.status, "ZAINFEKOWANY (MALWARE)");
    assert_eq!(eval.yara_rule, "EICAR_Test");
}

#[test]
fn test_evaluate_yara_match_script_is_infected() {
    let r = FileRecord {
        yara_match_script: Some("Trojan.Generic".to_string()),
        ..base_clean_record()
    };
    let eval = evaluate_file(&r);
    assert_eq!(eval.status, "ZAINFEKOWANY (MALWARE)");
    assert_eq!(eval.yara_rule, "Trojan.Generic");
}

#[test]
fn test_evaluate_yara_prefers_ufs_rule_when_both_match() {
    let r = FileRecord {
        yara_match_ufs: Some("RuleA".to_string()),
        yara_match_script: Some("RuleB".to_string()),
        ..base_clean_record()
    };
    let eval = evaluate_file(&r);
    assert_eq!(eval.yara_rule, "RuleA");
}

#[test]
fn test_evaluate_yara_wins_over_io_error() {
    let r = FileRecord {
        yara_match_ufs: Some("Malware.X".to_string()),
        io_error_ufs: Some(true),
        io_error_script: Some(true),
        ..base_clean_record()
    };
    let eval = evaluate_file(&r);
    assert_eq!(
        eval.status, "ZAINFEKOWANY (MALWARE)",
        "YARA musi wygrać nawet przy błędzie I/O na obu stronach"
    );
}

#[test]
fn test_evaluate_yara_wins_over_repair() {
    let r = FileRecord {
        yara_match_ufs: Some("Malware.Y".to_string()),
        repaired_path_ufs: Some("plik.repaired".to_string()),
        ..base_clean_record()
    };
    let eval = evaluate_file(&r);
    assert_eq!(
        eval.status, "ZAINFEKOWANY (MALWARE)",
        "YARA musi wygrać nawet nad rekonstrukcją Fazy 17"
    );
}

#[test]
fn test_evaluate_repaired_wins_over_wydmuszka() {
    let r = FileRecord {
        repaired_path_ufs: Some("plik.repaired".to_string()),
        repair_log_ufs: Some("Naprawiono nagłówek JPEG".to_string()),
        zeros_pct_ufs: Some(f(100.0)),
        ..base_clean_record()
    };
    let eval = evaluate_file(&r);
    assert_eq!(eval.status, "ZREKONSTRUOWANY (NAPRAWIONY)");
    assert!(eval.recommendation.contains("Naprawiono nagłówek JPEG"));
}

#[test]
fn test_evaluate_repaired_script_side() {
    let r = FileRecord {
        repaired_path_script: Some("x.repaired".to_string()),
        ..base_clean_record()
    };
    assert_eq!(evaluate_file(&r).status, "ZREKONSTRUOWANY (NAPRAWIONY)");
}

#[test]
fn test_evaluate_io_error_both_sides_rejected() {
    let r = FileRecord {
        io_error_ufs: Some(true),
        io_error_script: Some(true),
        ..base_clean_record()
    };
    assert_eq!(evaluate_file(&r).status, "BŁĄD ODCZYTU (I/O)");
}

#[test]
fn test_evaluate_io_error_only_one_side_does_not_trigger_rejection() {
    let r = FileRecord {
        io_error_ufs: Some(true),
        ..base_clean_record()
    };
    assert_ne!(evaluate_file(&r).status, "BŁĄD ODCZYTU (I/O)");
}

#[test]
fn test_evaluate_wydmuszka_ufs() {
    let r = FileRecord {
        zeros_pct_ufs: Some(f(99.5)),
        ..base_clean_record()
    };
    assert_eq!(evaluate_file(&r).status, "USZKODZONY (WYDMUSZKA)");
}

#[test]
fn test_evaluate_wydmuszka_script() {
    let r = FileRecord {
        zeros_pct_script: Some(f(100.0)),
        ..base_clean_record()
    };
    assert_eq!(evaluate_file(&r).status, "USZKODZONY (WYDMUSZKA)");
}

#[test]
fn test_evaluate_zeros_exactly_99_percent_not_wydmuszka() {
    let r = FileRecord {
        zeros_pct_ufs: Some(f(99.0)),
        ..base_clean_record()
    };
    assert_ne!(evaluate_file(&r).status, "USZKODZONY (WYDMUSZKA)");
}

#[test]
fn test_evaluate_media_decode_failure() {
    let r = FileRecord {
        media_decoded_ufs: Some(false),
        ..base_clean_record()
    };
    assert_eq!(evaluate_file(&r).status, "USZKODZONY (UCIĘTY OBRAZ)");
}

#[test]
fn test_evaluate_utf8_failure() {
    let r = FileRecord {
        utf8_ok_script: Some(false),
        ..base_clean_record()
    };
    assert_eq!(evaluate_file(&r).status, "USZKODZONY (BINARNY ŚMIEĆ)");
}

#[test]
fn test_evaluate_structure_failure() {
    let r = FileRecord {
        structure_ok_ufs: Some(false),
        ..base_clean_record()
    };
    assert_eq!(evaluate_file(&r).status, "USZKODZONY (ZŁA STRUKTURA)");
}

#[test]
fn test_evaluate_exif_failure() {
    let r = FileRecord {
        exif_ok_script: Some(false),
        ..base_clean_record()
    };
    assert_eq!(evaluate_file(&r).status, "USZKODZONY (BŁĘDNY EXIF)");
}

#[test]
fn test_evaluate_eof_failure() {
    let r = FileRecord {
        eof_ok_ufs: Some(false),
        ..base_clean_record()
    };
    assert_eq!(evaluate_file(&r).status, "USZKODZONY (BRAK EOF)");
}

#[test]
fn test_evaluate_high_entropy_is_suspect() {
    let r = FileRecord {
        entropy_ufs: Some(f(7.999)),
        ..base_clean_record()
    };
    assert_eq!(evaluate_file(&r).status, "PODEJRZANY (WYSOKA ENTROPIA)");
}

#[test]
fn test_evaluate_entropy_exactly_threshold_not_suspect() {
    let r = FileRecord {
        entropy_ufs: Some(f(7.995)),
        ..base_clean_record()
    };
    assert_ne!(evaluate_file(&r).status, "PODEJRZANY (WYSOKA ENTROPIA)");
}

#[test]
fn test_evaluate_low_entropy_is_suspect() {
    let r = FileRecord {
        entropy_script: Some(f(0.5)),
        ..base_clean_record()
    };
    assert_eq!(evaluate_file(&r).status, "PODEJRZANY (NISKA ENTROPIA)");
}

#[test]
fn test_evaluate_entropy_exactly_zero_not_suspect() {
    let r = FileRecord {
        entropy_ufs: Some(f(0.0)),
        ..base_clean_record()
    };
    assert_ne!(evaluate_file(&r).status, "PODEJRZANY (NISKA ENTROPIA)");
}

#[test]
fn test_evaluate_entropy_exactly_one_not_suspect() {
    let r = FileRecord {
        entropy_ufs: Some(f(1.0)),
        ..base_clean_record()
    };
    assert_ne!(evaluate_file(&r).status, "PODEJRZANY (NISKA ENTROPIA)");
}

#[test]
fn test_evaluate_identical_versions_is_zgodny() {
    let r = base_clean_record();
    assert_eq!(evaluate_file(&r).status, "ZGODNY");
}

#[test]
fn test_evaluate_different_hash_high_fuzzy_match() {
    let r = FileRecord {
        hash_match: Some(false),
        fuzzy_match_pct: Some(f(95.0)),
        ..base_clean_record()
    };
    let eval = evaluate_file(&r);
    assert!(eval.status.starts_with("RÓŻNY HASH (PODOBNE W"));
    assert!(eval.status.contains("95"));
}

#[test]
fn test_evaluate_different_hash_partial_fuzzy_match() {
    let r = FileRecord {
        hash_match: Some(false),
        fuzzy_match_pct: Some(f(40.0)),
        ..base_clean_record()
    };
    let eval = evaluate_file(&r);
    assert!(eval.status.starts_with("RÓŻNY HASH (PODOBNE W"));
    assert!(eval.recommendation.contains("tylko część wspólną"));
}

#[test]
fn test_evaluate_different_hash_zero_fuzzy_is_frankenstein() {
    let r = FileRecord {
        hash_match: Some(false),
        fuzzy_match_pct: Some(f(0.0)),
        ..base_clean_record()
    };
    assert_eq!(evaluate_file(&r).status, "RÓŻNY HASH (FRANKENSTEIN)");
}

#[test]
fn test_evaluate_different_hash_no_fuzzy_data() {
    let r = FileRecord {
        hash_match: Some(false),
        fuzzy_match_pct: None,
        ..base_clean_record()
    };
    assert_eq!(evaluate_file(&r).status, "RÓŻNY HASH");
}

#[test]
fn test_evaluate_different_size_overrides_hash_result() {
    let r = FileRecord {
        size_match: Some(false),
        hash_match: Some(true),
        ..base_clean_record()
    };
    assert_eq!(evaluate_file(&r).status, "RÓŻNY ROZMIAR");
}

#[test]
fn test_evaluate_missing_comparison_data() {
    let r = FileRecord {
        size_match: None,
        hash_match: None,
        ..base_clean_record()
    };
    assert_eq!(evaluate_file(&r).status, "BRAK DANYCH");
}

#[test]
fn test_evaluate_only_in_ufs() {
    let r = FileRecord {
        found_in_ufs: true,
        found_in_script: false,
        ..base_clean_record()
    };
    assert_eq!(evaluate_file(&r).status, "TYLKO UFS");
}

#[test]
fn test_evaluate_only_in_script() {
    let r = FileRecord {
        found_in_ufs: false,
        found_in_script: true,
        ..base_clean_record()
    };
    assert_eq!(evaluate_file(&r).status, "TYLKO SKRYPT");
}

#[test]
fn test_evaluate_ghost_file_found_nowhere() {
    let r = FileRecord {
        found_in_ufs: false,
        found_in_script: false,
        ..base_clean_record()
    };
    assert_eq!(evaluate_file(&r).status, "BŁĄD KRYTYCZNY");
}

#[test]
fn test_escape_csv_plain_text_unchanged() {
    assert_eq!(escape_csv("zwykly_tekst.txt"), "zwykly_tekst.txt");
}

#[test]
fn test_escape_csv_semicolon_gets_quoted() {
    assert_eq!(escape_csv("a;b"), "\"a;b\"");
}

#[test]
fn test_escape_csv_quote_gets_doubled_and_quoted() {
    assert_eq!(
        escape_csv("powiedział \"cześć\""),
        "\"powiedział \"\"cześć\"\"\""
    );
}

#[test]
fn test_escape_csv_newline_gets_quoted() {
    assert_eq!(escape_csv("linia1\nlinia2"), "\"linia1\nlinia2\"");
}

#[test]
fn test_fmt_opt_bool_variants() {
    assert_eq!(fmt_opt_bool(Some(true)), "Tak");
    assert_eq!(fmt_opt_bool(Some(false)), "Nie");
    assert_eq!(fmt_opt_bool(None), "Brak");
}

#[test]
fn test_fmt_opt_f64_uses_comma_decimal() {
    assert_eq!(fmt_opt_f64(Some(f(7.5))), "7,50");
    assert_eq!(fmt_opt_f64(None), "Brak");
}

#[test]
fn test_fmt_opt_i64_variants() {
    assert_eq!(fmt_opt_i64(Some(42)), "42");
    assert_eq!(fmt_opt_i64(None), "Brak");
}

#[test]
fn test_fmt_opt_str_variants() {
    assert_eq!(fmt_opt_str(Some("wartość".to_string())), "wartość");
    assert_eq!(fmt_opt_str(None), "Brak");
}

fn eval_with(status: &str, yara: &str) -> Evaluation {
    Evaluation {
        status: status.to_string(),
        recommendation: "rekomendacja testowa".to_string(),
        yara_rule: yara.to_string(),
    }
}

#[test]
fn test_zakwalifikuj_infected_increments_infected_and_yara_map() {
    let mut stats = Stats::default();
    stats.zakwalifikuj(&eval_with("ZAINFEKOWANY (MALWARE)", "EICAR_Test"));
    assert_eq!(stats.infected, 1);
    assert_eq!(stats.ok, 0);
    assert_eq!(stats.yara_rule_counts.get("EICAR_Test"), Some(1));
}

#[test]
fn test_zakwalifikuj_smart_splice_splits_repaired_counter() {
    let mut stats = Stats::default();
    stats.zakwalifikuj(&eval_with("ZREKONSTRUOWANY (SMART SPLICE)", "Brak"));
    assert_eq!(stats.repaired, 1);
    assert_eq!(stats.smart_splice, 1);
    assert_eq!(stats.naprawiony, 0);
}

#[test]
fn test_zakwalifikuj_naprawiony_splits_repaired_counter() {
    let mut stats = Stats::default();
    stats.zakwalifikuj(&eval_with("ZREKONSTRUOWANY (NAPRAWIONY)", "Brak"));
    assert_eq!(stats.repaired, 1);
    assert_eq!(stats.smart_splice, 0);
    assert_eq!(stats.naprawiony, 1);
}

#[test]
fn test_zakwalifikuj_reject_matches_uszkodzony_and_blad() {
    let mut stats = Stats::default();
    stats.zakwalifikuj(&eval_with("USZKODZONY (WYDMUSZKA)", "Brak"));
    stats.zakwalifikuj(&eval_with("BŁĄD ODCZYTU (I/O)", "Brak"));
    assert_eq!(stats.reject, 2);
    assert_eq!(stats.reject_reasons.get("USZKODZONY (WYDMUSZKA)"), Some(1));
    assert_eq!(stats.reject_reasons.get("BŁĄD ODCZYTU (I/O)"), Some(1));
}

#[test]
fn test_zakwalifikuj_suspect_matches_podejrzany_and_rozny() {
    let mut stats = Stats::default();
    stats.zakwalifikuj(&eval_with("PODEJRZANY (WYSOKA ENTROPIA)", "Brak"));
    stats.zakwalifikuj(&eval_with("RÓŻNY HASH (FRANKENSTEIN)", "Brak"));
    assert_eq!(stats.suspect, 2);
}

#[test]
fn test_zakwalifikuj_zgodny_is_ok() {
    let mut stats = Stats::default();
    stats.zakwalifikuj(&eval_with("ZGODNY", "Brak"));
    assert_eq!(stats.ok, 1);
    assert_eq!(stats.reject, 0);
    assert_eq!(stats.suspect, 0);
}

#[test]
fn test_zakwalifikuj_infected_beats_reject_when_both_keywords_present() {
    let mut stats = Stats::default();
    stats.zakwalifikuj(&eval_with("ZAINFEKOWANY (MALWARE) - USZKODZONY", "Test"));
    assert_eq!(stats.infected, 1);
    assert_eq!(stats.reject, 0);
}

#[test]
fn test_zakwalifikuj_accumulates_across_calls() {
    let mut stats = Stats::default();
    stats.zakwalifikuj(&eval_with("ZGODNY", "Brak"));
    stats.zakwalifikuj(&eval_with("ZGODNY", "Brak"));
    stats.zakwalifikuj(&eval_with("ZAINFEKOWANY (MALWARE)", "R1"));
    stats.zakwalifikuj(&eval_with("ZAINFEKOWANY (MALWARE)", "R1"));
    stats.zakwalifikuj(&eval_with("ZAINFEKOWANY (MALWARE)", "R2"));
    assert_eq!(stats.ok, 2);
    assert_eq!(stats.infected, 3);
    assert_eq!(stats.yara_rule_counts.get("R1"), Some(2));
    assert_eq!(stats.yara_rule_counts.get("R2"), Some(1));
}

#[test]
fn phase8_test_build_summary_block_reports_counts() {
    let stats = Stats {
        ok: 10,
        suspect: 4,
        reject: 3,
        smart_splice: 1,
        naprawiony: 2,
        infected: 5,
        ..Default::default()
    };
    let block = stats.build_summary_block(20);
    assert!(block.contains("Zdrowe: 10"));
    assert!(block.contains("Podejrzane: 4"));
    assert!(block.contains("Odrzucone: 3"));
    assert!(block.contains("Naprawione (Smart Splice): 1"));
    assert!(block.contains("Naprawione (Silnik Fazy 17): 2"));
    assert!(block.contains("Wirusy: 5"));
    assert!(
        block.contains("Wskaźnik zaufania: 50.0%"),
        "10 zdrowych z 20 ocenionych = 50.0%: {}",
        block
    );
}

#[test]
fn test_build_summary_block_confidence_is_zero_when_nothing_processed() {
    let block = Stats::default().build_summary_block(0);
    assert!(
        block.contains("Wskaźnik zaufania: 0.0%"),
        "dzielenie przez zero musi dać 0.0, nie NaN/panikę: {}",
        block
    );
}

#[test]
fn test_build_summary_block_top_reasons_sorted_by_frequency() {
    let mut stats = Stats {
        reject: 25,
        ..Default::default()
    };
    stats
        .reject_reasons
        .zwieksz("USZKODZONY (WYDMUSZKA)", 5);
    stats
        .reject_reasons
        .zwieksz("USZKODZONY (BRAK EOF)", 20);

    let block = stats.build_summary_block(25);
    let line = block
        .lines()
        .find(|l| l.starts_with("Top powody odrzuceń:"))
        .expect("Szukany element powinien znajdować się w kolekcji");
    let pos_eof = line
        .find("USZKODZONY (BRAK EOF) (20)")
        .expect("powinien zawierać powód EOF");
    let pos_wydmuszka = line
        .find("USZKODZONY (WYDMUSZKA) (5)")
        .expect("powinien zawierać powód wydmuszki");
    assert!(
        pos_eof < pos_wydmuszka,
        "Częstszy powód powinien być wymieniony pierwszy"
    );
}

#[test]
fn test_build_summary_block_top_yara_rules_sorted_by_frequency() {
    let mut stats = Stats {
        infected: 11,
        ..Default::default()
    };
    stats
        .yara_rule_counts
        .zwieksz("Ransomware_Generic", 2);
    stats
        .yara_rule_counts
        .zwieksz("Trojan_Downloader", 9);

    let block = stats.build_summary_block(11);
    let line = block
        .lines()
        .find(|l| l.starts_with("Top reguły YARA:"))
        .expect("Szukany element powinien znajdować się w kolekcji");
    let pos_trojan = line
        .find("Trojan_Downloader (9)")
        .expect("powinien zawierać regułę Trojan_Downloader");
    let pos_ransom = line
        .find("Ransomware_Generic (2)")
        .expect("powinien zawierać regułę Ransomware_Generic");
    assert!(
        pos_trojan < pos_ransom,
        "Częściej dopasowana reguła powinna być wymieniona pierwsza"
    );
}

#[test]
fn phase8_test_build_summary_block_placeholder_when_no_reasons() {
    let stats = Stats {
        ok: 5,
        ..Default::default()
    };
    let block = stats.build_summary_block(5);
    assert!(block.contains("Top powody odrzuceń: -"));
    assert!(block.contains("Top powody podejrzeń: -"));
    assert!(block.contains("Top reguły YARA: -"));
}

#[test]
fn test_evaluate_smart_splice_path_present_is_reconstructed_not_rejected() {
    let r = FileRecord {
        smart_splice_path: Some("_smart_splice_repaired/plik.jpg".to_string()),
        structure_ok_ufs: Some(false),
        media_decoded_ufs: Some(false),
        ..base_clean_record()
    };
    let eval = evaluate_file(&r);
    assert_eq!(eval.status, "ZREKONSTRUOWANY (SMART SPLICE)");
    assert!(!eval.status.contains("USZKODZONY"));
    assert!(!eval.recommendation.to_lowercase().contains("odrzucić"));
}

#[test]
fn test_evaluate_smart_splice_wins_over_repaired_path() {
    let r = FileRecord {
        smart_splice_path: Some("x".to_string()),
        repaired_path_ufs: Some("y".to_string()),
        ..base_clean_record()
    };
    assert_eq!(evaluate_file(&r).status, "ZREKONSTRUOWANY (SMART SPLICE)");
}

#[test]
fn test_evaluate_yara_wins_over_smart_splice() {
    let r = FileRecord {
        smart_splice_path: Some("x".to_string()),
        yara_match_ufs: Some("EICAR".to_string()),
        ..base_clean_record()
    };
    assert_eq!(evaluate_file(&r).status, "ZAINFEKOWANY (MALWARE)");
}

#[test]
fn test_evaluate_video_ok_false_ufs_is_rejected() {
    let r = FileRecord {
        video_ok_ufs: Some(false),
        video_reason_ufs: Some("Brak tablic indeksowych (moov)".to_string()),
        ..base_clean_record()
    };
    let eval = evaluate_file(&r);
    assert_eq!(eval.status, "USZKODZONY (KONTENER WIDEO)");
    assert!(
        eval.recommendation
            .contains("Brak tablic indeksowych (moov)")
    );
}

#[test]
fn test_evaluate_video_ok_false_script_is_rejected() {
    let r = FileRecord {
        video_ok_script: Some(false),
        ..base_clean_record()
    };
    assert_eq!(evaluate_file(&r).status, "USZKODZONY (KONTENER WIDEO)");
}

#[test]
fn test_evaluate_video_ok_true_is_not_rejected() {
    let r = FileRecord {
        video_ok_ufs: Some(true),
        video_ok_script: Some(true),
        ..base_clean_record()
    };
    assert_eq!(evaluate_file(&r).status, "ZGODNY");
}

#[test]
fn test_escape_csv_lone_carriage_return_gets_quoted() {
    let out = escape_csv("linia1\rlinia2");
    assert!(
        out.starts_with('"') && out.ends_with('"'),
        "samotny CR musi wymusić cudzysłów: {}",
        out
    );
}

fn parse_csv_row(row: &str) -> Vec<String> {
    let mut fields = Vec::new();
    let mut current = String::new();
    let mut in_quotes = false;
    let mut chars = row.chars().peekable();
    while let Some(c) = chars.next() {
        match c {
            '"' if in_quotes && chars.peek() == Some(&'"') => {
                current.push('"');
                chars.next();
            }
            '"' => in_quotes = !in_quotes,
            ';' if !in_quotes => {
                fields.push(std::mem::take(&mut current));
            }
            other => current.push(other),
        }
    }
    fields.push(current);
    fields
}

#[test]
fn test_escape_csv_repair_log_with_semicolon_and_quote_roundtrips_without_column_shift() {
    let log = r#"donor;"plik z cudzysłowem".jpg"#;
    let escaped = escape_csv(log);
    let row = format!("PRZED;{};PO", escaped);
    let fields = parse_csv_row(&row);
    assert_eq!(fields.len(), 3, "{:?}", fields);
    assert_eq!(fields[0], "PRZED");
    assert_eq!(fields[1], log);
    assert_eq!(fields[2], "PO");
}

#[test]
fn test_etykiety_maja_zarejestrowane_wyjasnienia() {
    let block = Stats::default().build_summary_block(0);
    let mut sprawdzonych = 0;
    for line in block.lines() {
        if line.starts_with('[') {
            continue;
        }
        let Some((etykieta, _)) = line.split_once(": ") else {
            continue;
        };
        assert!(!etykieta.is_empty());
        sprawdzonych += 1;
    }
    assert_eq!(
        sprawdzonych, 10,
        "panel powinien mieć dokładnie 10 etykiet wymagających wyjaśnienia"
    );
}

fn clean_record(path: &str) -> FileRecord {
    FileRecord {
        relative_path: path.to_string(),
        ..base_clean_record()
    }
}

/// The sheet and the journal of a run over the given records.
fn run(records: &[FileRecord]) -> (String, Vec<String>, String) {
    let mut przebieg = Przebieg::new();
    let mut rows = Vec::new();
    for r in records {
        let wiersz = przebieg.krok(r);
        assert!(wiersz.ends_with('\n'));
        rows.push(wiersz[..wiersz.len() - 1].to_string());
    }
    let dz = dziennik_koncowy(&przebieg.stats, przebieg.ocenione, "1.00s");
    (naglowek_csv().trim_end_matches('\n').to_string(), rows, dz)
}

#[test]
fn test_run_generates_csv_with_header_and_data_rows() {
    let (header, rows, _) = run(&[clean_record("a.txt"), clean_record("b.txt")]);
    assert_eq!(rows.len(), 2, "2 rekordy w bazie = 2 wiersze danych");
    assert_eq!(header.split(';').count(), 34);
    let cols_0 = parse_csv_row(&rows[0]);
    assert_eq!(cols_0.len(), 34);
    assert_eq!(cols_0[0], "a.txt", "pierwsza kolumna = relative_path");
    assert_eq!(cols_0[1], "Oba");
    assert_eq!(cols_0[32], "ZGODNY");
}

#[test]
fn test_run_empty_db_creates_csv_with_header_only() {
    let (header, rows, _) = run(&[]);
    assert_eq!(rows.len(), 0);
    assert_eq!(header.split(';').count(), 34);
}

#[test]
fn test_run_counts_reflect_record_statuses_in_final_report() {
    let mut infected = clean_record("wirus.exe");
    infected.yara_match_ufs = Some("EICAR_Test".to_string());
    let mut rejected = clean_record("smiec.bin");
    rejected.zeros_pct_ufs = Some(f(100.0));
    let mut suspect = clean_record("podejrzany.bin");
    suspect.entropy_ufs = Some(f(7.999));
    let (_, _, dz) = run(&[clean_record("zdrowy.txt"), infected, rejected, suspect]);
    assert!(dz.contains("Pliki Zainfekowane (Malware/Ransomware): 1"), "{}", dz);
    assert!(dz.contains("Pliki w 100% Zdrowe (Zgodne lub Unikalne): 1"), "{}", dz);
    assert!(dz.contains("Pliki Podejrzane (Częściowe anomalie):     1"), "{}", dz);
    assert!(dz.contains("Pliki Odrzucone (Bezużyteczne Śmieci):     1"), "{}", dz);
    assert!(dz.contains("USZKODZONY (WYDMUSZKA): 1"), "brak rozbicia odrzuceń");
    assert!(dz.contains("PODEJRZANY (WYSOKA ENTROPIA): 1"), "brak rozbicia podejrzeń");
    assert!(dz.contains("DOPASOWANE REGUŁY YARA:"), "brak sekcji YARA");
    assert!(dz.contains("EICAR_Test: 1"), "brak konkretnej reguły YARA");
}

#[test]
fn test_run_report_contains_reconstruction_breakdown() {
    let mut smart = clean_record("smart.bin");
    smart.smart_splice_path = Some("out/smart.bin".to_string());
    let mut repaired = clean_record("rep.bin");
    repaired.repaired_path_ufs = Some("out/rep.bin".to_string());
    repaired.repair_log_ufs = Some("naprawiono nagłówek".to_string());
    let (_, _, dz) = run(&[smart, repaired]);
    assert!(dz.contains("ROZBICIE REKONSTRUKCJI (2 łącznie):"), "{}", dz);
    assert!(dz.contains("Smart Splice (Faza 18, składanie z OBU kopii): 1"), "{}", dz);
    assert!(dz.contains("Silnik naprawczy (Faza 17, pojedyncze moduły): 1"), "{}", dz);
}

#[test]
fn test_run_writes_csv_in_same_field_order_as_header() {
    let mut r = clean_record("order_test.dat");
    r.size_ufs = Some(111);
    r.size_script = Some(222);
    r.hash_ufs = Some("hashA".to_string());
    r.hash_script = Some("hashB".to_string());
    r.fuzzy_match_pct = Some(f(77.5));
    r.entropy_ufs = Some(f(3.25));
    r.utf8_ok_ufs = Some(true);
    r.media_decoded_script = Some(false);
    let (_, rows, _) = run(&[r]);
    assert_eq!(rows.len(), 1);
    let cols = parse_csv_row(&rows[0]);
    assert_eq!(cols[0], "order_test.dat");
    assert_eq!(cols[1], "Oba");
    assert_eq!(cols[2], "111");
    assert_eq!(cols[3], "222");
    assert_eq!(cols[5], "hashA");
    assert_eq!(cols[6], "hashB");
    assert_eq!(cols[8], "77,50");
    assert_eq!(cols[13], "3,25");
    assert_eq!(cols[22], "Nie");
    assert_eq!(cols[32], "USZKODZONY (UCIĘTY OBRAZ)");
}

#[test]
fn test_run_csv_escapes_semicolon_and_quote_in_path() {
    let mut r = clean_record("katalog;zły/plik\"x\".txt");
    r.hash_ufs = Some("h1".to_string());
    let (_, rows, _) = run(&[r]);
    let cols = parse_csv_row(&rows[0]);
    assert_eq!(cols.len(), 34, "escapowanie nie może rozjechać kolumn");
    assert_eq!(cols[0], "katalog;zły/plik\"x\".txt");
}

#[test]
fn test_run_creates_final_report_file_even_with_no_data() {
    let (_, _, dz) = run(&[]);
    assert!(dz.contains("DZIENNIK KOŃCOWY - FAZA 8"));
    assert!(dz.contains("Pomyślnie oceniono plików łącznie: 0"));
}

#[test]
fn test_run_without_cancel_processes_all_records() {
    let rekordy: Vec<FileRecord> =
        (0..50).map(|n| clean_record(&format!("plik_{:04}.bin", n))).collect();
    let (_, rows, dz) = run(&rekordy);
    assert_eq!(rows.len(), 50);
    assert!(dz.contains("Pomyślnie oceniono plików łącznie: 50"));
}

#[test]
fn przerwany_przebieg_podaje_ile_oceniono() {
    let mut przebieg = Przebieg::new();
    przebieg.krok(&clean_record("a"));
    przebieg.krok(&clean_record("b"));
    let (n, t) = przebieg.stan_koncowy(true, 5);
    assert_eq!(n, 2);
    assert_eq!(t, "🛑 Przerwano — przetworzono 2 z 5 plików.");
    let (n, t) = przebieg.stan_koncowy(false, 5);
    assert_eq!(n, 5);
    assert_eq!(t, "Ewaluacja CSV w 100% zakończona.");
}

#[test]
fn kazdy_werdykt_trafia_na_jeden_kopiec() {
    let mut przebieg = Przebieg::new();
    let mut chory = clean_record("c");
    chory.eof_ok_ufs = Some(false);
    let mut dziwny = clean_record("d");
    dziwny.hash_match = Some(false);
    for r in [&clean_record("a"), &clean_record("b"), &chory, &dziwny] {
        przebieg.krok(r);
    }
    let s = &przebieg.stats;
    assert_eq!(s.ok + s.suspect + s.reject + s.infected + s.repaired, przebieg.ocenione);
    assert_eq!((s.ok, s.reject, s.suspect), (2, 1, 1));
    assert!(rozpoznaj("RÓŻNY ROZMIAR") == Kategoria::Podejrzany);
    assert!(rozpoznaj("USZKODZONY (BRAK EOF)") == Kategoria::Odrzucony);
    assert!(rozpoznaj("ZREKONSTRUOWANY (SMART SPLICE)") == Kategoria::SmartSplice);
    assert!(rozpoznaj("ZREKONSTRUOWANY (NAPRAWIONY)") == Kategoria::Naprawiony);
    assert!(rozpoznaj("ZAINFEKOWANY (MALWARE)") == Kategoria::Zainfekowany);
    assert!(rozpoznaj("TYLKO UFS") == Kategoria::Zdrowy);
}

#[test]
fn dziennik_wypisany_w_calosci() {
    let mut przebieg = Przebieg::new();
    przebieg.krok(&clean_record("a"));
    let linia = "=".repeat(74);
    let oczekiwany = format!(
        "{l}\nDZIENNIK KOŃCOWY - FAZA 8 (PODSUMOWANIE HEURYSTYKI I DECYZJE)\nCzas trwania: 2.50s\n{l}\n\nPomyślnie oceniono plików łącznie: 1\n\n[ 🦠 ] Pliki Zainfekowane (Malware/Ransomware): 0\n[ 🛠️ ] Pliki Zrekonstruowane (Aktywna Naprawa): 0\n[ ✔ ] Pliki w 100% Zdrowe (Zgodne lub Unikalne): 1\n[ ⚠ ] Pliki Podejrzane (Częściowe anomalie):     0\n[ ✖ ] Pliki Odrzucone (Bezużyteczne Śmieci):     0\n\n",
        l = linia
    );
    assert_eq!(dziennik_koncowy(&przebieg.stats, 1, "2.50s"), oczekiwany);
}

#[test]
fn wiersz_wraca_po_rozlozeniu() {
    let pola = vec![
        "a;b".to_string(),
        "\"".to_string(),
        String::new(),
        "x\ny".to_string(),
        "\r".to_string(),
        "zwykłe".to_string(),
    ];
    assert_eq!(zlacz_pola(&pola), "\"a;b\";\"\"\"\";;\"x\ny\";\"\r\";zwykłe");
    assert_eq!(parse_csv_row(&zlacz_pola(&pola)), pola);
}

#[test]
fn zapis_liczb_zgodny_z_formatowaniem() {
    for x in [
        0.0, -0.0, 0.5, 1.5, 2.5, 0.125, 0.375, 7.995, 7.994999999, 99.995, 1e-9, 1e21, 123456789.125,
        -3.005, 0.045, 0.055, f64::MAX, f64::MIN_POSITIVE, 5e-324,
    ] {
        assert_eq!(f(x).zapisz(2), format!("{:.2}", x), "{:e}", x);
        assert_eq!(f(x).zapisz(0), format!("{:.0}", x), "{:e}", x);
        assert_eq!(f(x).zapisz(3), format!("{:.3}", x), "{:e}", x);
        assert_eq!(f(x).zapisz(1), format!("{:.1}", x), "{:e}", x);
    }
    assert_eq!(f(f64::NAN).zapisz(2), format!("{:.2}", f64::NAN));
    assert_eq!(f(f64::INFINITY).zapisz(2), format!("{:.2}", f64::INFINITY));
    assert_eq!(f(f64::NEG_INFINITY).zapisz(2), format!("{:.2}", f64::NEG_INFINITY));
}

#[test]
fn porzadek_liczb_zgodny_z_ieee() {
    let v = [
        f64::NEG_INFINITY, -2.0, -1.0, -5e-324, -0.0, 0.0, 5e-324, 0.5, 1.0, 7.995, 8.0, f64::MAX,
        f64::INFINITY, f64::NAN,
    ];
    for a in v {
        for b in v {
            assert_eq!(f(a).mniejsza(f(b)), a < b, "{} < {}", a, b);
            assert_eq!(f(a).co_najwyzej(f(b)), a <= b, "{} <= {}", a, b);
        }
    }
}

#[test]
fn procent_zgodny_z_dzieleniem() {
    for (czesc, calosc) in [
        (0u64, 1u64), (1, 1), (1, 3), (2, 3), (10, 20), (1, 7), (999_999, 1_000_000), (123, 457),
        (4_503_599, 9_007_199),
    ] {
        let oczekiwany = czesc as f64 / calosc as f64 * 100.0;
        assert_eq!(procent(czesc, calosc).bits, oczekiwany.to_bits(), "{}/{}", czesc, calosc);
    }
}
