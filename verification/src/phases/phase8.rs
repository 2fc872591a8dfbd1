//! Phase 8: one verdict per file, and the report that lists them.
//!
//! Every record holds what the earlier phases measured on both recovered
//! copies of a file. [`evaluate_file`] turns it into a verdict, [`Stats`]
//! tallies the verdicts, and the functions below write the Euro-CSV sheet
//! (semicolons, decimal commas) and the closing journal.

use vstd::prelude::*;

use crate::binary64;
use crate::binary64::Binary64;
use crate::euro_csv;
use crate::licznik;
use crate::licznik::Licznik;
use crate::tekst;

verus! {

// ---------------------------------------------------------------------------
// Records and verdicts
// ---------------------------------------------------------------------------

/// Everything known about one file, from both recovery runs.
///
/// A field with the suffix `_ufs` or `_script` was measured on that side's
/// copy; `None` means that the measurement was not made or does not apply.
pub struct FileRecord {
    pub relative_path: String,
    pub found_in_ufs: bool,
    pub found_in_script: bool,
    pub size_ufs: Option<i64>,
    pub size_script: Option<i64>,
    pub size_match: Option<bool>,
    pub hash_ufs: Option<String>,
    pub hash_script: Option<String>,
    pub hash_match: Option<bool>,
    /// Fuzzy similarity of the two copies, in percent.
    pub fuzzy_match_pct: Option<Binary64>,
    pub zeros_pct_ufs: Option<Binary64>,
    pub zeros_pct_script: Option<Binary64>,
    pub eof_ok_ufs: Option<bool>,
    pub eof_ok_script: Option<bool>,
    pub entropy_ufs: Option<Binary64>,
    pub entropy_script: Option<Binary64>,
    pub utf8_ok_ufs: Option<bool>,
    pub utf8_ok_script: Option<bool>,
    pub structure_ok_ufs: Option<bool>,
    pub structure_ok_script: Option<bool>,
    pub exif_ok_ufs: Option<bool>,
    pub exif_ok_script: Option<bool>,
    pub media_decoded_ufs: Option<bool>,
    pub media_decoded_script: Option<bool>,
    pub has_xattr_ufs: Option<bool>,
    pub has_xattr_script: Option<bool>,
    pub io_error_ufs: Option<bool>,
    pub io_error_script: Option<bool>,
    pub yara_match_ufs: Option<String>,
    pub yara_match_script: Option<String>,
    /// Where a repaired version of this side's copy lies.
    pub repaired_path_ufs: Option<String>,
    pub repaired_path_script: Option<String>,
    pub repair_log_ufs: Option<String>,
    pub repair_log_script: Option<String>,
    /// Where a version assembled from both copies lies.
    pub smart_splice_path: Option<String>,
    pub video_ok_ufs: Option<bool>,
    pub video_ok_script: Option<bool>,
    pub video_reason_ufs: Option<String>,
    pub video_reason_script: Option<String>,
}

/// The verdict on one file: a category, advice for the operator, and the
/// malware rule that matched (`Brak` where none did).
pub struct Evaluation {
    pub status: String,
    pub recommendation: String,
    pub yara_rule: String,
}

impl View for Evaluation {
    type V = (Seq<char>, Seq<char>, Seq<char>);

    open spec fn view(&self) -> (Seq<char>, Seq<char>, Seq<char>) {
        (self.status@, self.recommendation@, self.yara_rule@)
    }
}

/// 99.0: the share of zero bytes, in percent, above which a file is hollow.
pub const PROG_ZER: u64 = 0x4058_C000_0000_0000;

/// 7.995 bits per byte: entropy above this is noise.
pub const PROG_SZUMU: u64 = 0x401F_FAE1_47AE_147B;

/// 1.0 bit per byte: entropy below this is nearly empty memory.
pub const PROG_PUSTKI: u64 = 0x3FF0_0000_0000_0000;

/// 90.0: the similarity, in percent, from which two copies are nearly alike.
pub const PROG_PODOBIENSTWA: u64 = 0x4056_8000_0000_0000;

/// 4.0 bits per byte: stands in for an entropy that was not measured.
pub const ENTROPIA_NIEZNANA: u64 = 0x4010_0000_0000_0000;

/// The measurement `o`, or the number with the bits `d` where there is none.
pub open spec fn pomiar(o: Option<Binary64>, d: u64) -> Binary64 {
    match o {
        Some(x) => x,
        None => Binary64 { bits: d },
    }
}

/// `x` exceeds the number with the bits `prog`.
pub open spec fn powyzej(x: Binary64, prog: u64) -> bool {
    Binary64 { bits: prog }.mniejsza_niz(x)
}

/// `x` is at least the number with the bits `prog`.
pub open spec fn osiaga(x: Binary64, prog: u64) -> bool {
    Binary64 { bits: prog }.najwyzej(x)
}

/// `x` is less than the number with the bits `prog`.
pub open spec fn ponizej(x: Binary64, prog: u64) -> bool {
    x.mniejsza_niz(Binary64 { bits: prog })
}

/// The first text that is there, or `d`.
pub open spec fn pierwszy_z(a: Option<String>, b: Option<String>, d: Seq<char>) -> Seq<char> {
    match a {
        Some(t) => t@,
        None => match b {
            Some(t) => t@,
            None => d,
        },
    }
}

/// Entropy strictly between zero and one bit per byte.
pub open spec fn niemal_pusty(e: Binary64) -> bool {
    ponizej(e, PROG_PUSTKI) && powyzej(e, 0)
}

/// The verdict on a file present on both sides with nothing wrong on either.
pub open spec fn porownanie(r: FileRecord) -> (Seq<char>, Seq<char>, Seq<char>) {
    if r.size_match == Some(true) && r.hash_match == Some(true) {
        ("ZGODNY"@, "Zachować - obydwa programy odzyskały w 100% identyczny plik"@, "Brak"@)
    } else if r.size_match == Some(true) && r.hash_match == Some(false) {
        match r.fuzzy_match_pct {
            Some(p) => if osiaga(p, PROG_PODOBIENSTWA) {
                (
                    "RÓŻNY HASH (PODOBNE W "@ + p.zapis(0) + "%)"@,
                    "Zachować. Ostrzeżenie: Pliki bardzo podobne"@,
                    "Brak"@,
                )
            } else if powyzej(p, 0) {
                (
                    "RÓŻNY HASH (PODOBNE W "@ + p.zapis(0) + "%)"@,
                    "Ostrzeżenie - Pliki mają tylko część wspólną"@,
                    "Brak"@,
                )
            } else {
                ("RÓŻNY HASH (FRANKENSTEIN)"@, "Krytyczne Ostrzeżenie - Zlepek MFT."@, "Brak"@)
            },
            None => (
                "RÓŻNY HASH"@,
                "Różne kryptograficznie pliki o tej samej wielkości"@,
                "Brak"@,
            ),
        }
    } else if r.size_match == Some(false) {
        ("RÓŻNY ROZMIAR"@, "Zachować większy plik. Mniejszy plik został ucięty."@, "Brak"@)
    } else {
        ("BRAK DANYCH"@, "Brak wystarczających wskaźników"@, "Brak"@)
    }
}

/// The verdict on a file: the first finding in the order of priority decides.
pub open spec fn ocena(r: FileRecord) -> (Seq<char>, Seq<char>, Seq<char>) {
    if r.yara_match_ufs is Some || r.yara_match_script is Some {
        (
            "ZAINFEKOWANY (MALWARE)"@,
            "KWARANTANNA - Plik zawiera złośliwy kod lub notatkę hakerską!"@,
            pierwszy_z(r.yara_match_ufs, r.yara_match_script, "Nieznana Reguła"@),
        )
    } else if r.smart_splice_path is Some {
        (
            "ZREKONSTRUOWANY (SMART SPLICE)"@,
            "Użyć wersji złożonej (Smart Splice) - plik zrekonstruowany z fragmentów obu kopii"@,
            "Brak"@,
        )
    } else if r.repaired_path_ufs is Some || r.repaired_path_script is Some {
        (
            "ZREKONSTRUOWANY (NAPRAWIONY)"@,
            "Użyć wersji zrekonstruowanej (.repaired) - "@ + pierwszy_z(
                r.repair_log_ufs,
                r.repair_log_script,
                "Zrekonstruowano plik"@,
            ),
            "Brak"@,
        )
    } else if r.io_error_ufs == Some(true) && r.io_error_script == Some(true) {
        (
            "BŁĄD ODCZYTU (I/O)"@,
            "Odrzucić - Plik widmo. Fizyczne uszkodzenie sektorów."@,
            "Brak"@,
        )
    } else if powyzej(pomiar(r.zeros_pct_ufs, 0), PROG_ZER) || powyzej(
        pomiar(r.zeros_pct_script, 0),
        PROG_ZER,
    ) {
        (
            "USZKODZONY (WYDMUSZKA)"@,
            "Odrzucić - plik wypełniony w >99% pustymi blokami"@,
            "Brak"@,
        )
    } else if r.media_decoded_ufs == Some(false) || r.media_decoded_script == Some(false) {
        (
            "USZKODZONY (UCIĘTY OBRAZ)"@,
            "Odrzucić - niedekodowalny obraz / wideo (Gray Banding)"@,
            "Brak"@,
        )
    } else if r.video_ok_ufs == Some(false) || r.video_ok_script == Some(false) {
        (
            "USZKODZONY (KONTENER WIDEO)"@,
            "Odrzucić - "@ + pierwszy_z(
                r.video_reason_ufs,
                r.video_reason_script,
                "uszkodzona struktura kontenera wideo"@,
            ),
            "Brak"@,
        )
    } else if r.utf8_ok_ufs == Some(false) || r.utf8_ok_script == Some(false) {
        (
            "USZKODZONY (BINARNY ŚMIEĆ)"@,
            "Odrzucić - plik rzekomo tekstowy zawiera niedozwolone znaki binarne"@,
            "Brak"@,
        )
    } else if r.structure_ok_ufs == Some(false) || r.structure_ok_script == Some(false) {
        (
            "USZKODZONY (ZŁA STRUKTURA)"@,
            "Odrzucić - dokument/archiwum nie posiada kluczowej tablicy EOCD"@,
            "Brak"@,
        )
    } else if r.exif_ok_ufs == Some(false) || r.exif_ok_script == Some(false) {
        (
            "USZKODZONY (BŁĘDNY EXIF)"@,
            "Odrzucić - zdjęcie/wideo posiada zepsutą strukturę EXIF"@,
            "Brak"@,
        )
    } else if r.eof_ok_ufs == Some(false) || r.eof_ok_script == Some(false) {
        (
            "USZKODZONY (BRAK EOF)"@,
            "Sprawdzić ręcznie - marker końca pliku zaginął. Ucięcie."@,
            "Brak"@,
        )
    } else if powyzej(pomiar(r.entropy_ufs, ENTROPIA_NIEZNANA), PROG_SZUMU) || powyzej(
        pomiar(r.entropy_script, ENTROPIA_NIEZNANA),
        PROG_SZUMU,
    ) {
        (
            "PODEJRZANY (WYSOKA ENTROPIA)"@,
            "Ostrzeżenie - skrajny stopień chaosu (Biały Szum)"@,
            "Brak"@,
        )
    } else if niemal_pusty(pomiar(r.entropy_ufs, ENTROPIA_NIEZNANA)) || niemal_pusty(
        pomiar(r.entropy_script, ENTROPIA_NIEZNANA),
    ) {
        (
            "PODEJRZANY (NISKA ENTROPIA)"@,
            "Ostrzeżenie - nienaturalnie niska złożoność (Pusta Pamięć)"@,
            "Brak"@,
        )
    } else if r.found_in_ufs && r.found_in_script {
        porownanie(r)
    } else if r.found_in_ufs {
        ("TYLKO UFS"@, "Skopiować z UFS Explorer - Plik unikalny"@, "Brak"@)
    } else if r.found_in_script {
        ("TYLKO SKRYPT"@, "Skopiować ze Skryptu Autorskiego - Plik unikalny"@, "Brak"@)
    } else {
        ("BŁĄD KRYTYCZNY"@, "Plik widmo (Ghost) - brak dostępu fizycznego"@, "Brak"@)
    }
}

/// Whether `o` says no.
pub(crate) fn nie(o: Option<bool>) -> (r: bool)
    ensures
        r == (o == Some(false)),
{
    match o {
        Some(b) => !b,
        None => false,
    }
}

/// Whether `o` says yes.
pub(crate) fn tak(o: Option<bool>) -> (r: bool)
    ensures
        r == (o == Some(true)),
{
    match o {
        Some(b) => b,
        None => false,
    }
}

/// The measurement `o`, or the number with the bits `d` where there is none.
pub(crate) fn zmierzone(o: Option<Binary64>, d: u64) -> (r: Binary64)
    ensures
        r == pomiar(o, d),
{
    match o {
        Some(x) => x,
        None => Binary64 { bits: d },
    }
}

/// Whether `x` exceeds the number with the bits `prog`.
pub(crate) fn przekracza(x: Binary64, prog: u64) -> (r: bool)
    ensures
        r == powyzej(x, prog),
{
    Binary64 { bits: prog }.mniejsza(x)
}

/// The first text that is there, or `d`.
fn wybierz(a: &Option<String>, b: &Option<String>, d: &str) -> (r: String)
    ensures
        r@ == pierwszy_z(*a, *b, d@),
{
    match a {
        Some(t) => t.clone(),
        None => match b {
            Some(t) => t.clone(),
            None => d.to_owned(),
        },
    }
}

/// A verdict without a malware rule.
fn werdykt(status: &str, recommendation: &str) -> (r: Evaluation)
    ensures
        r@ == (status@, recommendation@, "Brak"@),
{
    Evaluation {
        status: status.to_owned(),
        recommendation: recommendation.to_owned(),
        yara_rule: "Brak".to_owned(),
    }
}

/// The verdict on a file present on both sides with nothing wrong on either.
fn porownaj(record: &FileRecord) -> (r: Evaluation)
    ensures
        r@ == porownanie(*record),
{
    if tak(record.size_match) && tak(record.hash_match) {
        werdykt("ZGODNY", "Zachować - obydwa programy odzyskały w 100% identyczny plik")
    } else if tak(record.size_match) && nie(record.hash_match) {
        match record.fuzzy_match_pct {
            Some(p) => {
                let bardzo: bool = Binary64 { bits: PROG_PODOBIENSTWA }.co_najwyzej(p);
                if bardzo || przekracza(p, 0) {
                    let mut status = "RÓŻNY HASH (PODOBNE W ".to_owned();
                    let procenty = p.zapisz(0);
                    status.append(procenty.as_str());
                    status.append("%)");
                    if bardzo {
                        werdykt(status.as_str(), "Zachować. Ostrzeżenie: Pliki bardzo podobne")
                    } else {
                        werdykt(status.as_str(), "Ostrzeżenie - Pliki mają tylko część wspólną")
                    }
                } else {
                    werdykt("RÓŻNY HASH (FRANKENSTEIN)", "Krytyczne Ostrzeżenie - Zlepek MFT.")
                }
            },
            None => werdykt("RÓŻNY HASH", "Różne kryptograficznie pliki o tej samej wielkości"),
        }
    } else if nie(record.size_match) {
        werdykt("RÓŻNY ROZMIAR", "Zachować większy plik. Mniejszy plik został ucięty.")
    } else {
        werdykt("BRAK DANYCH", "Brak wystarczających wskaźników")
    }
}

/// The verdict on one file. Checks run in a fixed order of priority and the
/// first finding decides: malware, then a version assembled from both copies,
/// then a repaired version, then the defects from unreadable sectors down to
/// odd entropy, and only then the comparison of the two copies.
pub fn evaluate_file(record: &FileRecord) -> (r: Evaluation)
    ensures
        r@ == ocena(*record),
{
    if record.yara_match_ufs.is_some() || record.yara_match_script.is_some() {
        return Evaluation {
            status: "ZAINFEKOWANY (MALWARE)".to_owned(),
            recommendation: "KWARANTANNA - Plik zawiera złośliwy kod lub notatkę hakerską!".to_owned(),
            yara_rule: wybierz(&record.yara_match_ufs, &record.yara_match_script, "Nieznana Reguła"),
        };
    }
    if record.smart_splice_path.is_some() {
        return werdykt(
            "ZREKONSTRUOWANY (SMART SPLICE)",
            "Użyć wersji złożonej (Smart Splice) - plik zrekonstruowany z fragmentów obu kopii",
        );
    }
    if record.repaired_path_ufs.is_some() || record.repaired_path_script.is_some() {
        let akcja = wybierz(
            &record.repair_log_ufs,
            &record.repair_log_script,
            "Zrekonstruowano plik",
        );
        let mut rada = "Użyć wersji zrekonstruowanej (.repaired) - ".to_owned();
        rada.append(akcja.as_str());
        return werdykt("ZREKONSTRUOWANY (NAPRAWIONY)", rada.as_str());
    }
    if tak(record.io_error_ufs) && tak(record.io_error_script) {
        return werdykt(
            "BŁĄD ODCZYTU (I/O)",
            "Odrzucić - Plik widmo. Fizyczne uszkodzenie sektorów.",
        );
    }
    if przekracza(zmierzone(record.zeros_pct_ufs, 0), PROG_ZER) || przekracza(
        zmierzone(record.zeros_pct_script, 0),
        PROG_ZER,
    ) {
        return werdykt(
            "USZKODZONY (WYDMUSZKA)",
            "Odrzucić - plik wypełniony w >99% pustymi blokami",
        );
    }
    if nie(record.media_decoded_ufs) || nie(record.media_decoded_script) {
        return werdykt(
            "USZKODZONY (UCIĘTY OBRAZ)",
            "Odrzucić - niedekodowalny obraz / wideo (Gray Banding)",
        );
    }
    if nie(record.video_ok_ufs) || nie(record.video_ok_script) {
        let powod = wybierz(
            &record.video_reason_ufs,
            &record.video_reason_script,
            "uszkodzona struktura kontenera wideo",
        );
        let mut rada = "Odrzucić - ".to_owned();
        rada.append(powod.as_str());
        return werdykt("USZKODZONY (KONTENER WIDEO)", rada.as_str());
    }
    if nie(record.utf8_ok_ufs) || nie(record.utf8_ok_script) {
        return werdykt(
            "USZKODZONY (BINARNY ŚMIEĆ)",
            "Odrzucić - plik rzekomo tekstowy zawiera niedozwolone znaki binarne",
        );
    }
    if nie(record.structure_ok_ufs) || nie(record.structure_ok_script) {
        return werdykt(
            "USZKODZONY (ZŁA STRUKTURA)",
            "Odrzucić - dokument/archiwum nie posiada kluczowej tablicy EOCD",
        );
    }
    if nie(record.exif_ok_ufs) || nie(record.exif_ok_script) {
        return werdykt(
            "USZKODZONY (BŁĘDNY EXIF)",
            "Odrzucić - zdjęcie/wideo posiada zepsutą strukturę EXIF",
        );
    }
    if nie(record.eof_ok_ufs) || nie(record.eof_ok_script) {
        return werdykt(
            "USZKODZONY (BRAK EOF)",
            "Sprawdzić ręcznie - marker końca pliku zaginął. Ucięcie.",
        );
    }
    let eu = zmierzone(record.entropy_ufs, ENTROPIA_NIEZNANA);
    let es = zmierzone(record.entropy_script, ENTROPIA_NIEZNANA);
    if przekracza(eu, PROG_SZUMU) || przekracza(es, PROG_SZUMU) {
        return werdykt(
            "PODEJRZANY (WYSOKA ENTROPIA)",
            "Ostrzeżenie - skrajny stopień chaosu (Biały Szum)",
        );
    }
    let jeden = Binary64 { bits: PROG_PUSTKI };
    if (eu.mniejsza(jeden) && przekracza(eu, 0)) || (es.mniejsza(jeden) && przekracza(es, 0)) {
        return werdykt(
            "PODEJRZANY (NISKA ENTROPIA)",
            "Ostrzeżenie - nienaturalnie niska złożoność (Pusta Pamięć)",
        );
    }
    if record.found_in_ufs && record.found_in_script {
        porownaj(record)
    } else if record.found_in_ufs {
        werdykt("TYLKO UFS", "Skopiować z UFS Explorer - Plik unikalny")
    } else if record.found_in_script {
        werdykt("TYLKO SKRYPT", "Skopiować ze Skryptu Autorskiego - Plik unikalny")
    } else {
        werdykt("BŁĄD KRYTYCZNY", "Plik widmo (Ghost) - brak dostępu fizycznego")
    }
}

// ---------------------------------------------------------------------------
// Tallies
// ---------------------------------------------------------------------------

/// Counts of the verdicts given so far, with the reasons behind them.
pub struct Stats {
    pub ok: usize,
    pub suspect: usize,
    pub reject: usize,
    pub infected: usize,
    /// Files restored in either way.
    pub repaired: usize,
    /// Of these, files assembled from both copies.
    pub smart_splice: usize,
    /// Of these, files restored by a single repair module.
    pub naprawiony: usize,
    pub reject_reasons: Licznik,
    pub suspect_reasons: Licznik,
    pub yara_rule_counts: Licznik,
}

/// The heap into which a verdict falls.
#[derive(Clone, Copy, Debug, PartialEq, Eq, Structural)]
pub enum Kategoria {
    Zainfekowany,
    SmartSplice,
    Naprawiony,
    Odrzucony,
    Podejrzany,
    Zdrowy,
}

/// The heap of a status, by the keywords that it holds: malware before
/// restored, restored before rejected, rejected before suspect.
pub open spec fn kategoria(status: Seq<char>) -> Kategoria {
    if tekst::zawiera_tekst(status, "ZAINFEKOWANY"@) {
        Kategoria::Zainfekowany
    } else if tekst::zawiera_tekst(status, "ZREKONSTRUOWANY"@) {
        if tekst::zawiera_tekst(status, "SMART SPLICE"@) {
            Kategoria::SmartSplice
        } else {
            Kategoria::Naprawiony
        }
    } else if tekst::zawiera_tekst(status, "USZKODZONY"@) || tekst::zawiera_tekst(status, "BŁĄD"@) {
        Kategoria::Odrzucony
    } else if tekst::zawiera_tekst(status, "PODEJRZANY"@) || tekst::zawiera_tekst(status, "RÓŻNY"@) {
        Kategoria::Podejrzany
    } else {
        Kategoria::Zdrowy
    }
}

/// The heap of a status, by the keywords that it holds.
pub fn rozpoznaj(status: &str) -> (r: Kategoria)
    ensures
        r == kategoria(status@),
{
    if tekst::zawiera(status, "ZAINFEKOWANY") {
        Kategoria::Zainfekowany
    } else if tekst::zawiera(status, "ZREKONSTRUOWANY") {
        if tekst::zawiera(status, "SMART SPLICE") {
            Kategoria::SmartSplice
        } else {
            Kategoria::Naprawiony
        }
    } else if tekst::zawiera(status, "USZKODZONY") || tekst::zawiera(status, "BŁĄD") {
        Kategoria::Odrzucony
    } else if tekst::zawiera(status, "PODEJRZANY") || tekst::zawiera(status, "RÓŻNY") {
        Kategoria::Podejrzany
    } else {
        Kategoria::Zdrowy
    }
}

/// One where `b` holds, zero otherwise.
pub open spec fn jeden_gdy(b: bool) -> nat {
    if b {
        1
    } else {
        0
    }
}

/// The side panel, given its numbers and lists.
pub open spec fn panel(
    ok: nat,
    suspect: nat,
    reject: nat,
    smart_splice: nat,
    naprawiony: nat,
    infected: nat,
    zaufanie: Binary64,
    odrzucenia: Seq<char>,
    podejrzenia: Seq<char>,
    reguly: Seq<char>,
) -> Seq<char> {
    "[Podsumowanie]\nZdrowe: "@ + tekst::dziesietny(ok) + "\nPodejrzane: "@ + tekst::dziesietny(suspect)
        + "\nOdrzucone: "@ + tekst::dziesietny(reject) + "\nNaprawione (Smart Splice): "@
        + tekst::dziesietny(smart_splice) + "\nNaprawione (Silnik Fazy 17): "@ + tekst::dziesietny(
        naprawiony,
    ) + "\nWirusy: "@ + tekst::dziesietny(infected) + "\nWskaźnik zaufania: "@ + zaufanie.zapis(1)
        + "%\nTop powody odrzuceń: "@ + odrzucenia + "\nTop powody podejrzeń: "@ + podejrzenia
        + "\nTop reguły YARA: "@ + reguly
}

impl Default for Stats {
    /// Nothing counted yet.
    fn default() -> (r: Stats)
        ensures
            r.ok == 0 && r.suspect == 0 && r.reject == 0 && r.infected == 0,
            r.repaired == 0 && r.smart_splice == 0 && r.naprawiony == 0,
            r.reject_reasons@ == Seq::<(Seq<char>, nat)>::empty(),
            r.suspect_reasons@ == Seq::<(Seq<char>, nat)>::empty(),
            r.yara_rule_counts@ == Seq::<(Seq<char>, nat)>::empty(),
    {
        Stats {
            ok: 0,
            suspect: 0,
            reject: 0,
            infected: 0,
            repaired: 0,
            smart_splice: 0,
            naprawiony: 0,
            reject_reasons: Licznik::new(),
            suspect_reasons: Licznik::new(),
            yara_rule_counts: Licznik::new(),
        }
    }
}

impl Stats {
    /// No counter is full yet.
    pub open spec fn ma_miejsce(&self, e: (Seq<char>, Seq<char>, Seq<char>)) -> bool {
        &&& self.ok < usize::MAX
        &&& self.suspect < usize::MAX
        &&& self.reject < usize::MAX
        &&& self.infected < usize::MAX
        &&& self.repaired < usize::MAX
        &&& self.smart_splice < usize::MAX
        &&& self.naprawiony < usize::MAX
        &&& licznik::ile(self.reject_reasons@, e.0) < u64::MAX
        &&& licznik::ile(self.suspect_reasons@, e.0) < u64::MAX
        &&& licznik::ile(self.yara_rule_counts@, e.2) < u64::MAX
    }

    /// `self` is `s` with one more verdict `e` counted.
    pub open spec fn po_werdykcie(
        &self,
        s: Stats,
        e: (Seq<char>, Seq<char>, Seq<char>),
    ) -> bool {
        let k = kategoria(e.0);
        &&& self.ok == s.ok + jeden_gdy(k == Kategoria::Zdrowy)
        &&& self.suspect == s.suspect + jeden_gdy(k == Kategoria::Podejrzany)
        &&& self.reject == s.reject + jeden_gdy(k == Kategoria::Odrzucony)
        &&& self.infected == s.infected + jeden_gdy(k == Kategoria::Zainfekowany)
        &&& self.repaired == s.repaired + jeden_gdy(
            k == Kategoria::SmartSplice || k == Kategoria::Naprawiony,
        )
        &&& self.smart_splice == s.smart_splice + jeden_gdy(k == Kategoria::SmartSplice)
        &&& self.naprawiony == s.naprawiony + jeden_gdy(k == Kategoria::Naprawiony)
        &&& self.reject_reasons@ == (if k == Kategoria::Odrzucony {
            licznik::zwiekszony(s.reject_reasons@, e.0, 1)
        } else {
            s.reject_reasons@
        })
        &&& self.suspect_reasons@ == (if k == Kategoria::Podejrzany {
            licznik::zwiekszony(s.suspect_reasons@, e.0, 1)
        } else {
            s.suspect_reasons@
        })
        &&& self.yara_rule_counts@ == (if k == Kategoria::Zainfekowany {
            licznik::zwiekszony(s.yara_rule_counts@, e.2, 1)
        } else {
            s.yara_rule_counts@
        })
    }

    /// Counts one judged file in its heap, with the status or rule behind it.
    pub fn zakwalifikuj(&mut self, eval: &Evaluation)
        requires
            old(self).ma_miejsce(eval@),
        ensures
            final(self).po_werdykcie(*old(self), eval@),
    {
        match rozpoznaj(eval.status.as_str()) {
            Kategoria::Zainfekowany => {
                self.infected += 1;
                self.yara_rule_counts.zwieksz(eval.yara_rule.as_str(), 1);
            },
            Kategoria::SmartSplice => {
                self.repaired += 1;
                self.smart_splice += 1;
            },
            Kategoria::Naprawiony => {
                self.repaired += 1;
                self.naprawiony += 1;
            },
            Kategoria::Odrzucony => {
                self.reject += 1;
                self.reject_reasons.zwieksz(eval.status.as_str(), 1);
            },
            Kategoria::Podejrzany => {
                self.suspect += 1;
                self.suspect_reasons.zwieksz(eval.status.as_str(), 1);
            },
            Kategoria::Zdrowy => {
                self.ok += 1;
            },
        }
    }

    /// The live side panel: the counts, the share of healthy files among those
    /// judged so far, and the three most frequent reasons of each kind.
    pub fn build_summary_block(&self, processed_so_far: usize) -> (r: String)
        ensures
            r@ == panel(
                self.ok as nat,
                self.suspect as nat,
                self.reject as nat,
                self.smart_splice as nat,
                self.naprawiony as nat,
                self.infected as nat,
                binary64::procent_z(self.ok as nat, processed_so_far as nat),
                licznik::najwieksze(self.reject_reasons@, 3),
                licznik::najwieksze(self.suspect_reasons@, 3),
                licznik::najwieksze(self.yara_rule_counts@, 3),
            ),
    {
        let mut s = "[Podsumowanie]\nZdrowe: ".to_owned();
        tekst::dopisz_liczbe(&mut s, self.ok as u64);
        s.append("\nPodejrzane: ");
        tekst::dopisz_liczbe(&mut s, self.suspect as u64);
        s.append("\nOdrzucone: ");
        tekst::dopisz_liczbe(&mut s, self.reject as u64);
        s.append("\nNaprawione (Smart Splice): ");
        tekst::dopisz_liczbe(&mut s, self.smart_splice as u64);
        s.append("\nNaprawione (Silnik Fazy 17): ");
        tekst::dopisz_liczbe(&mut s, self.naprawiony as u64);
        s.append("\nWirusy: ");
        tekst::dopisz_liczbe(&mut s, self.infected as u64);
        s.append("\nWskaźnik zaufania: ");
        let zaufanie = binary64::procent(self.ok as u64, processed_so_far as u64).zapisz(1);
        s.append(zaufanie.as_str());
        s.append("%\nTop powody odrzuceń: ");
        let odrzucenia = self.reject_reasons.najwieksze(3);
        s.append(odrzucenia.as_str());
        s.append("\nTop powody podejrzeń: ");
        let podejrzenia = self.suspect_reasons.najwieksze(3);
        s.append(podejrzenia.as_str());
        s.append("\nTop reguły YARA: ");
        let reguly = self.yara_rule_counts.najwieksze(3);
        s.append(reguly.as_str());
        s
    }
}

// ---------------------------------------------------------------------------
// The sheet
// ---------------------------------------------------------------------------

/// On which sides a file was found.
pub open spec fn lokacja(r: FileRecord) -> Seq<char> {
    if r.found_in_ufs && r.found_in_script {
        "Oba"@
    } else if r.found_in_ufs {
        "UFS"@
    } else if r.found_in_script {
        "Skrypt"@
    } else {
        "Brak"@
    }
}

/// The names of the columns.
pub open spec fn kolumny() -> Seq<Seq<char>> {
    seq![
        "Sciezka"@,
        "Lokacja"@,
        "Rozmiar_UFS"@,
        "Rozmiar_Skrypt"@,
        "Zgodnosc_Rozmiaru"@,
        "Hash_UFS"@,
        "Hash_Skrypt"@,
        "Zgodnosc_Hash"@,
        "Podobienstwo_Fuzzy_Pct"@,
        "Zera_UFS_Pct"@,
        "Zera_Skrypt_Pct"@,
        "EOF_UFS"@,
        "EOF_Skrypt"@,
        "Entropia_UFS"@,
        "Entropia_Skrypt"@,
        "UTF8_UFS"@,
        "UTF8_Skrypt"@,
        "Struktura_UFS"@,
        "Struktura_Skrypt"@,
        "EXIF_UFS"@,
        "EXIF_Skrypt"@,
        "Obraz_UFS"@,
        "Obraz_Skrypt"@,
        "Xattr_UFS"@,
        "Xattr_Skrypt"@,
        "Blad_IO_UFS"@,
        "Blad_IO_Skrypt"@,
        "Regula_YARA"@,
        "Sciezka_Naprawiona_UFS"@,
        "Sciezka_Naprawiona_Skrypt"@,
        "Log_Naprawy_UFS"@,
        "Log_Naprawy_Skrypt"@,
        "Status_Decyzyjny"@,
        "Rekomendacja_Silnika"@,
    ]
}

/// The values of one file, in the order of the columns.
pub open spec fn pola(r: FileRecord, e: (Seq<char>, Seq<char>, Seq<char>)) -> Seq<Seq<char>> {
    seq![
        r.relative_path@,
        lokacja(r),
        euro_csv::tekst_i64(r.size_ufs),
        euro_csv::tekst_i64(r.size_script),
        euro_csv::tekst_bool(r.size_match),
        euro_csv::tekst_str(r.hash_ufs),
        euro_csv::tekst_str(r.hash_script),
        euro_csv::tekst_bool(r.hash_match),
        euro_csv::tekst_f64(r.fuzzy_match_pct),
        euro_csv::tekst_f64(r.zeros_pct_ufs),
        euro_csv::tekst_f64(r.zeros_pct_script),
        euro_csv::tekst_bool(r.eof_ok_ufs),
        euro_csv::tekst_bool(r.eof_ok_script),
        euro_csv::tekst_f64(r.entropy_ufs),
        euro_csv::tekst_f64(r.entropy_script),
        euro_csv::tekst_bool(r.utf8_ok_ufs),
        euro_csv::tekst_bool(r.utf8_ok_script),
        euro_csv::tekst_bool(r.structure_ok_ufs),
        euro_csv::tekst_bool(r.structure_ok_script),
        euro_csv::tekst_bool(r.exif_ok_ufs),
        euro_csv::tekst_bool(r.exif_ok_script),
        euro_csv::tekst_bool(r.media_decoded_ufs),
        euro_csv::tekst_bool(r.media_decoded_script),
        euro_csv::tekst_bool(r.has_xattr_ufs),
        euro_csv::tekst_bool(r.has_xattr_script),
        euro_csv::tekst_bool(r.io_error_ufs),
        euro_csv::tekst_bool(r.io_error_script),
        e.2,
        euro_csv::tekst_str(r.repaired_path_ufs),
        euro_csv::tekst_str(r.repaired_path_script),
        euro_csv::tekst_str(r.repair_log_ufs),
        euro_csv::tekst_str(r.repair_log_script),
        e.0,
        e.1,
    ]
}

/// The sheet has as many values in a row as it has columns.
pub proof fn kazda_kolumna_ma_wartosc(r: FileRecord, e: (Seq<char>, Seq<char>, Seq<char>))
    ensures
        kolumny().len() == 34,
        pola(r, e).len() == kolumny().len(),
{
}

/// Whatever a record holds, its row reads back as its values, each in its column.
pub proof fn wiersz_rekordu_wraca(r: FileRecord)
    ensures
        euro_csv::pola_wiersza(euro_csv::wiersz(pola(r, ocena(r)))) == pola(r, ocena(r)),
        pola(r, ocena(r)).len() == kolumny().len(),
{
    euro_csv::wiersz_wraca_bez_strat(pola(r, ocena(r)));
}

/// On which sides a file was found.
fn polozenie(rec: &FileRecord) -> (r: String)
    ensures
        r@ == lokacja(*rec),
{
    if rec.found_in_ufs {
        if rec.found_in_script {
            "Oba".to_owned()
        } else {
            "UFS".to_owned()
        }
    } else if rec.found_in_script {
        "Skrypt".to_owned()
    } else {
        "Brak".to_owned()
    }
}

/// A copy of an optional text.
fn kopia(o: &Option<String>) -> (r: Option<String>)
    ensures
        r == *o,
{
    match o {
        Some(t) => Some(t.clone()),
        None => None,
    }
}

/// The head of the sheet: the names of the columns and a line break.
pub fn naglowek_csv() -> (r: String)
    ensures
        r@ == euro_csv::wiersz(kolumny()).push('\n'),
{
    let mut v: Vec<String> = Vec::new();
    v.push("Sciezka".to_owned());
    v.push("Lokacja".to_owned());
    v.push("Rozmiar_UFS".to_owned());
    v.push("Rozmiar_Skrypt".to_owned());
    v.push("Zgodnosc_Rozmiaru".to_owned());
    v.push("Hash_UFS".to_owned());
    v.push("Hash_Skrypt".to_owned());
    v.push("Zgodnosc_Hash".to_owned());
    v.push("Podobienstwo_Fuzzy_Pct".to_owned());
    v.push("Zera_UFS_Pct".to_owned());
    v.push("Zera_Skrypt_Pct".to_owned());
    v.push("EOF_UFS".to_owned());
    v.push("EOF_Skrypt".to_owned());
    v.push("Entropia_UFS".to_owned());
    v.push("Entropia_Skrypt".to_owned());
    v.push("UTF8_UFS".to_owned());
    v.push("UTF8_Skrypt".to_owned());
    v.push("Struktura_UFS".to_owned());
    v.push("Struktura_Skrypt".to_owned());
    v.push("EXIF_UFS".to_owned());
    v.push("EXIF_Skrypt".to_owned());
    v.push("Obraz_UFS".to_owned());
    v.push("Obraz_Skrypt".to_owned());
    v.push("Xattr_UFS".to_owned());
    v.push("Xattr_Skrypt".to_owned());
    v.push("Blad_IO_UFS".to_owned());
    v.push("Blad_IO_Skrypt".to_owned());
    v.push("Regula_YARA".to_owned());
    v.push("Sciezka_Naprawiona_UFS".to_owned());
    v.push("Sciezka_Naprawiona_Skrypt".to_owned());
    v.push("Log_Naprawy_UFS".to_owned());
    v.push("Log_Naprawy_Skrypt".to_owned());
    v.push("Status_Decyzyjny".to_owned());
    v.push("Rekomendacja_Silnika".to_owned());
    assert(tekst::widoki(v@) =~= kolumny());
    let mut s = euro_csv::zlacz_pola(&v);
    s.push('\n');
    s
}

/// The row of one file: its values and a line break.
pub fn wiersz_csv(rec: &FileRecord, eval: &Evaluation) -> (r: String)
    ensures
        r@ == euro_csv::wiersz(pola(*rec, eval@)).push('\n'),
{
    let mut v: Vec<String> = Vec::new();
    v.push(rec.relative_path.clone());
    v.push(polozenie(rec));
    v.push(euro_csv::fmt_opt_i64(rec.size_ufs));
    v.push(euro_csv::fmt_opt_i64(rec.size_script));
    v.push(euro_csv::fmt_opt_bool(rec.size_match));
    v.push(euro_csv::fmt_opt_str(kopia(&rec.hash_ufs)));
    v.push(euro_csv::fmt_opt_str(kopia(&rec.hash_script)));
    v.push(euro_csv::fmt_opt_bool(rec.hash_match));
    v.push(euro_csv::fmt_opt_f64(rec.fuzzy_match_pct));
    v.push(euro_csv::fmt_opt_f64(rec.zeros_pct_ufs));
    v.push(euro_csv::fmt_opt_f64(rec.zeros_pct_script));
    v.push(euro_csv::fmt_opt_bool(rec.eof_ok_ufs));
    v.push(euro_csv::fmt_opt_bool(rec.eof_ok_script));
    v.push(euro_csv::fmt_opt_f64(rec.entropy_ufs));
    v.push(euro_csv::fmt_opt_f64(rec.entropy_script));
    v.push(euro_csv::fmt_opt_bool(rec.utf8_ok_ufs));
    v.push(euro_csv::fmt_opt_bool(rec.utf8_ok_script));
    v.push(euro_csv::fmt_opt_bool(rec.structure_ok_ufs));
    v.push(euro_csv::fmt_opt_bool(rec.structure_ok_script));
    v.push(euro_csv::fmt_opt_bool(rec.exif_ok_ufs));
    v.push(euro_csv::fmt_opt_bool(rec.exif_ok_script));
    v.push(euro_csv::fmt_opt_bool(rec.media_decoded_ufs));
    v.push(euro_csv::fmt_opt_bool(rec.media_decoded_script));
    v.push(euro_csv::fmt_opt_bool(rec.has_xattr_ufs));
    v.push(euro_csv::fmt_opt_bool(rec.has_xattr_script));
    v.push(euro_csv::fmt_opt_bool(rec.io_error_ufs));
    v.push(euro_csv::fmt_opt_bool(rec.io_error_script));
    v.push(eval.yara_rule.clone());
    v.push(euro_csv::fmt_opt_str(kopia(&rec.repaired_path_ufs)));
    v.push(euro_csv::fmt_opt_str(kopia(&rec.repaired_path_script)));
    v.push(euro_csv::fmt_opt_str(kopia(&rec.repair_log_ufs)));
    v.push(euro_csv::fmt_opt_str(kopia(&rec.repair_log_script)));
    v.push(eval.status.clone());
    v.push(eval.recommendation.clone());
    assert(tekst::widoki(v@) =~= pola(*rec, eval@));
    let mut s = euro_csv::zlacz_pola(&v);
    s.push('\n');
    s
}

// ---------------------------------------------------------------------------
// One run over the records
// ---------------------------------------------------------------------------

/// A run in progress: the tallies and how many files were judged.
pub struct Przebieg {
    pub stats: Stats,
    pub ocenione: usize,
}

impl Przebieg {
    /// Every file judged lies on exactly one heap, every reason was counted with
    /// the file that it belongs to, and none is listed that was not.
    pub open spec fn zgodny(&self) -> bool {
        let s = self.stats;
        &&& self.ocenione == s.ok + s.suspect + s.reject + s.infected + s.repaired
        &&& s.repaired == s.smart_splice + s.naprawiony
        &&& licznik::suma(s.reject_reasons@) == s.reject
        &&& licznik::suma(s.suspect_reasons@) == s.suspect
        &&& licznik::suma(s.yara_rule_counts@) == s.infected
        &&& licznik::bez_powtorzen(s.reject_reasons@)
        &&& licznik::bez_powtorzen(s.suspect_reasons@)
        &&& licznik::bez_powtorzen(s.yara_rule_counts@)
        &&& licznik::dodatnie(s.reject_reasons@)
        &&& licznik::dodatnie(s.suspect_reasons@)
        &&& licznik::dodatnie(s.yara_rule_counts@)
    }

    /// A run that has judged nothing yet: every count is zero, and no reason or
    /// rule is listed.
    pub fn new() -> (r: Przebieg)
        ensures
            r.zgodny(),
            r.ocenione == 0,
            r.stats.ok == 0 && r.stats.suspect == 0 && r.stats.reject == 0,
            r.stats.infected == 0 && r.stats.repaired == 0,
            r.stats.smart_splice == 0 && r.stats.naprawiony == 0,
            r.stats.reject_reasons@ == Seq::<(Seq<char>, nat)>::empty(),
            r.stats.suspect_reasons@ == Seq::<(Seq<char>, nat)>::empty(),
            r.stats.yara_rule_counts@ == Seq::<(Seq<char>, nat)>::empty(),
    {
        Przebieg { stats: Stats::default(), ocenione: 0 }
    }

    /// Judges one file: counts the verdict and returns the file's row.
    pub fn krok(&mut self, rec: &FileRecord) -> (r: String)
        requires
            old(self).zgodny(),
            old(self).ocenione < usize::MAX,
        ensures
            final(self).zgodny(),
            final(self).ocenione == old(self).ocenione + 1,
            final(self).stats.po_werdykcie(old(self).stats, ocena(*rec)),
            r@ == euro_csv::wiersz(pola(*rec, ocena(*rec))).push('\n'),
    {
        let eval = evaluate_file(rec);
        let ghost przed = self.stats;
        proof {
            let e = eval@;
            licznik::ile_w_sumie(przed.reject_reasons@, e.0);
            licznik::ile_w_sumie(przed.suspect_reasons@, e.0);
            licznik::ile_w_sumie(przed.yara_rule_counts@, e.2);
            licznik::zwiekszony_sumuje(przed.reject_reasons@, e.0, 1);
            licznik::zwiekszony_sumuje(przed.suspect_reasons@, e.0, 1);
            licznik::zwiekszony_sumuje(przed.yara_rule_counts@, e.2, 1);
            licznik::zwiekszony_bez_powtorzen(przed.reject_reasons@, e.0, 1);
            licznik::zwiekszony_bez_powtorzen(przed.suspect_reasons@, e.0, 1);
            licznik::zwiekszony_bez_powtorzen(przed.yara_rule_counts@, e.2, 1);
            licznik::zwiekszony_dodatni(przed.reject_reasons@, e.0, 1);
            licznik::zwiekszony_dodatni(przed.suspect_reasons@, e.0, 1);
            licznik::zwiekszony_dodatni(przed.yara_rule_counts@, e.2, 1);
        }
        self.stats.zakwalifikuj(&eval);
        self.ocenione += 1;
        wiersz_csv(rec, &eval)
    }

    /// What the progress bar shows at the end: the files actually judged where
    /// the run was cut short, all of them otherwise.
    pub fn stan_koncowy(&self, przerwany: bool, wszystkich: usize) -> (r: (u64, String))
        ensures
            przerwany ==> r.0 == self.ocenione && r.1@ == "🛑 Przerwano — przetworzono "@
                + tekst::dziesietny(self.ocenione as nat) + " z "@ + tekst::dziesietny(
                wszystkich as nat,
            ) + " plików."@,
            !przerwany ==> r.0 == wszystkich && r.1@ == "Ewaluacja CSV w 100% zakończona."@,
    {
        if przerwany {
            let mut s = "🛑 Przerwano — przetworzono ".to_owned();
            tekst::dopisz_liczbe(&mut s, self.ocenione as u64);
            s.append(" z ");
            tekst::dopisz_liczbe(&mut s, wszystkich as u64);
            s.append(" plików.");
            (self.ocenione as u64, s)
        } else {
            (wszystkich as u64, "Ewaluacja CSV w 100% zakończona.".to_owned())
        }
    }
}

/// A headed list of reasons, most frequent first; nothing where there is none.
pub open spec fn rozbicie(naglowek: Seq<char>, s: Seq<(Seq<char>, nat)>) -> Seq<char> {
    if s.len() == 0 {
        Seq::empty()
    } else {
        naglowek + licznik::wykaz(
            licznik::malejaco(s),
            s.len(),
            "   -> "@,
            ": "@,
            " plików\n"@,
        ) + "\n"@
    }
}

/// How the restored files divide between the two ways of restoring.
pub open spec fn rozbicie_rekonstrukcji(s: Stats) -> Seq<char> {
    if s.repaired == 0 {
        Seq::empty()
    } else {
        "ROZBICIE REKONSTRUKCJI ("@
            + tekst::dziesietny(s.repaired as nat)
            + " łącznie):\n   -> Smart Splice (Faza 18, składanie z OBU kopii): "@
            + tekst::dziesietny(s.smart_splice as nat)
            + "\n   -> Silnik naprawczy (Faza 17, pojedyncze moduły): "@
            + tekst::dziesietny(s.naprawiony as nat)
            + "\n\n"@
    }
}

/// The closing journal of a run that judged `i` files in the time `czas`.
pub open spec fn dziennik(s: Stats, i: nat, czas: Seq<char>) -> Seq<char> {
    "==========================================================================\nDZIENNIK KOŃCOWY - FAZA 8 (PODSUMOWANIE HEURYSTYKI I DECYZJE)\nCzas trwania: "@
        + czas
        + "\n==========================================================================\n\nPomyślnie oceniono plików łącznie: "@
        + tekst::dziesietny(i)
        + "\n\n[ 🦠 ] Pliki Zainfekowane (Malware/Ransomware): "@
        + tekst::dziesietny(s.infected as nat)
        + "\n[ 🛠️ ] Pliki Zrekonstruowane (Aktywna Naprawa): "@
        + tekst::dziesietny(s.repaired as nat)
        + "\n[ ✔ ] Pliki w 100% Zdrowe (Zgodne lub Unikalne): "@
        + tekst::dziesietny(s.ok as nat)
        + "\n[ ⚠ ] Pliki Podejrzane (Częściowe anomalie):     "@
        + tekst::dziesietny(s.suspect as nat)
        + "\n[ ✖ ] Pliki Odrzucone (Bezużyteczne Śmieci):     "@
        + tekst::dziesietny(s.reject as nat)
        + "\n\n"@
        + rozbicie("SZCZEGÓŁOWE ROZBICIE KATEGORII ODRZUTÓW (Pliki Śmieciowe):\n"@, s.reject_reasons@)
        + rozbicie("SZCZEGÓŁOWE ROZBICIE KATEGORII PODEJRZANYCH:\n"@, s.suspect_reasons@)
        + rozbicie_rekonstrukcji(s)
        + rozbicie("DOPASOWANE REGUŁY YARA:\n"@, s.yara_rule_counts@)
}

/// A headed list of reasons, most frequent first; nothing where there is none.
fn rozbij(naglowek: &str, l: &Licznik) -> (r: String)
    ensures
        r@ == rozbicie(naglowek@, l@),
{
    if l.is_empty() {
        return String::new();
    }
    let mut s = naglowek.to_owned();
    let w = l.wykaz("   -> ", ": ", " plików\n");
    s.append(w.as_str());
    s.append("\n");
    s
}

/// How the restored files divide between the two ways of restoring.
fn rozbij_rekonstrukcje(stats: &Stats) -> (r: String)
    ensures
        r@ == rozbicie_rekonstrukcji(*stats),
{
    if stats.repaired == 0 {
        return String::new();
    }
    let mut s = "ROZBICIE REKONSTRUKCJI (".to_owned();
    tekst::dopisz_liczbe(&mut s, stats.repaired as u64);
    s.append(" łącznie):\n   -> Smart Splice (Faza 18, składanie z OBU kopii): ");
    tekst::dopisz_liczbe(&mut s, stats.smart_splice as u64);
    s.append("\n   -> Silnik naprawczy (Faza 17, pojedyncze moduły): ");
    tekst::dopisz_liczbe(&mut s, stats.naprawiony as u64);
    s.append("\n\n");
    s
}

/// The closing journal of a run that judged `i` files in the time `czas`.
pub fn dziennik_koncowy(stats: &Stats, i: usize, czas: &str) -> (r: String)
    ensures
        r@ == dziennik(*stats, i as nat, czas@),
{
    let mut s = "==========================================================================\nDZIENNIK KOŃCOWY - FAZA 8 (PODSUMOWANIE HEURYSTYKI I DECYZJE)\nCzas trwania: ".to_owned();
    s.append(czas);
    s.append("\n==========================================================================\n\nPomyślnie oceniono plików łącznie: ");
    tekst::dopisz_liczbe(&mut s, i as u64);
    s.append("\n\n[ 🦠 ] Pliki Zainfekowane (Malware/Ransomware): ");
    tekst::dopisz_liczbe(&mut s, stats.infected as u64);
    s.append("\n[ 🛠️ ] Pliki Zrekonstruowane (Aktywna Naprawa): ");
    tekst::dopisz_liczbe(&mut s, stats.repaired as u64);
    s.append("\n[ ✔ ] Pliki w 100% Zdrowe (Zgodne lub Unikalne): ");
    tekst::dopisz_liczbe(&mut s, stats.ok as u64);
    s.append("\n[ ⚠ ] Pliki Podejrzane (Częściowe anomalie):     ");
    tekst::dopisz_liczbe(&mut s, stats.suspect as u64);
    s.append("\n[ ✖ ] Pliki Odrzucone (Bezużyteczne Śmieci):     ");
    tekst::dopisz_liczbe(&mut s, stats.reject as u64);
    s.append("\n\n");
    let t1 = rozbij(
        "SZCZEGÓŁOWE ROZBICIE KATEGORII ODRZUTÓW (Pliki Śmieciowe):\n",
        &stats.reject_reasons,
    );
    s.append(t1.as_str());
    let t2 = rozbij("SZCZEGÓŁOWE ROZBICIE KATEGORII PODEJRZANYCH:\n", &stats.suspect_reasons);
    s.append(t2.as_str());
    let t3 = rozbij_rekonstrukcje(stats);
    s.append(t3.as_str());
    let t4 = rozbij("DOPASOWANE REGUŁY YARA:\n", &stats.yara_rule_counts);
    s.append(t4.as_str());
    s
}

} // verus!
