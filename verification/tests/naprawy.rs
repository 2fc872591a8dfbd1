use std::collections::{HashMap, HashSet};
use std::io::Read;

use recovery_core::binary64::Binary64;
use recovery_core::phases::repair_modules::archive::{TarSpliceModule, ZipSpliceModule};
use recovery_core::phases::repair_modules::asf::AsfCloneModule;
use recovery_core::phases::repair_modules::dng::DngStructuralModule;
use recovery_core::phases::repair_modules::extension::ExtensionModule;
use recovery_core::phases::repair_modules::header_jpg::HeaderJpgModule;
use recovery_core::phases::repair_modules::header_png::HeaderPngModule;
use recovery_core::phases::repair_modules::header_raster::{zapisz_szesnastkowo, HeaderRasterModule};
use recovery_core::phases::repair_modules::heic::HeicCloneModule;
use recovery_core::phases::repair_modules::jpeg::JpegCloneModule;
use recovery_core::phases::repair_modules::mkv::MkvCloneModule;
use recovery_core::phases::repair_modules::mp3::Mp3CloneModule;
use recovery_core::phases::repair_modules::mp4::{Mp4CloneModule, Mp4NativeModule, Mp4RecontainerModule};
use recovery_core::phases::repair_modules::mp4_autopilot::{
    nazwa_podkatalogu, skrot_sciezki, unikalny_podkatalog, znajdz_wynik, Mp4AutopilotModule,
};
use recovery_core::phases::repair_modules::png::{PngCloneModule, PngSanitizeModule};
use recovery_core::phases::repair_modules::praca::{
    Badanie, Czynnosc, Kandydat, KrokNaprawy, KrokWeryfikacji, StanBazy, WeryfikacjaHeic, Zdarzenie,
};
use recovery_core::phases::repair_modules::riff::RiffCloneModule;
use recovery_core::phases::repair_modules::skladanie::LIMIT_W_RAM;
use recovery_core::phases::repair_modules::splice::SpliceModule;
use recovery_core::phases::repair_modules::sqlite::SqliteModule;
use recovery_core::phases::repair_modules::weryfikacja::{
    rozpoznaj_format, weryfikuj_wideo, Format, LIMIT_WERYFIKACJI_W_RAM,
};
use recovery_core::phases::repair_modules::zszywanie::{
    zszyj, Bufor, Odczyt, Zadanie, Zszywanie, ROZMIAR_BUFORA,
};
use recovery_core::phases::repair_modules::{
    all_modules, weryfikuj_naprawiony_plik, Modul, RepairContext, RepairModule, WynikWeryfikacji,
};
use recovery_core::sciezka::rozszerzenie_pliku;

fn ctx(ext: &str) -> RepairContext<'_> {
    RepairContext {
        ext,
        media_reason: None,
        utf8_ok: None,
        is_oneliner: None,
        eof_ok: None,
        match_type: None,
        video_ok: None,
        structure_ok: None,
        media_decoded: None,
    }
}

fn czesciowy(ext: &str) -> RepairContext<'_> {
    RepairContext { match_type: Some("PARTIAL"), ..ctx(ext) }
}

/// A disk in memory and engines whose answers the test sets.
#[derive(Default)]
struct Dysk {
    pliki: HashMap<String, Vec<u8>>,
    /// Paths that open but do not read.
    nieczytelne: HashSet<String>,
    rozmiary: HashMap<String, u64>,
    wczytane: Vec<Vec<u8>>,
    otwarte: Vec<String>,
    utworzony: String,
    /// Contents that the engines find sound.
    zdrowe: Vec<Vec<u8>>,
    zlozone: Option<Vec<u8>>,
    silnik: Option<(String, Vec<u8>)>,
    przeszczep: Option<String>,
    kandydaci: Option<Vec<Kandydat>>,
    ten_sam_mdat: Option<bool>,
    autopilot: Option<Vec<(String, String)>>,
    sumy: Option<bool>,
    ffmpeg: bool,
    /// What the machine did.
    slad: Vec<String>,
}

impl Dysk {
    fn z(pary: &[(&str, &[u8])]) -> Dysk {
        let mut d = Dysk::default();
        for (p, t) in pary {
            d.pliki.insert(p.to_string(), t.to_vec());
        }
        d
    }

    fn zdrowy(&self, t: &[u8]) -> bool {
        self.zdrowe.iter().any(|z| z.as_slice() == t)
    }

    fn wykonaj(&mut self, c: Czynnosc) -> Zdarzenie {
        match c {
            Czynnosc::Zmierz(p) => Zdarzenie::Rozmiar(match self.rozmiary.get(&p) {
                Some(n) => Ok(*n),
                None => match self.pliki.get(&p) {
                    Some(t) => Ok(t.len() as u64),
                    None => Err("brak pliku".to_string()),
                },
            }),
            Czynnosc::Wczytaj(p) => {
                self.slad.push(format!("wczytaj {}", p));
                match self.pliki.get(&p) {
                    Some(t) => {
                        self.wczytane.push(t.clone());
                        Zdarzenie::Bajty(Ok(t.clone()))
                    }
                    None => Zdarzenie::Bajty(Err("brak pliku".to_string())),
                }
            }
            Czynnosc::SprawdzIstnienie(p) => Zdarzenie::Udalo(self.pliki.contains_key(&p)),
            Czynnosc::Otworz(p) => {
                let jest = self.pliki.contains_key(&p) || self.nieczytelne.contains(&p);
                self.otwarte.push(p);
                Zdarzenie::Udalo(jest)
            }
            Czynnosc::UtworzKatalog(_) => Zdarzenie::Udalo(true),
            Czynnosc::UtworzPlik(p) => {
                self.pliki.insert(p.clone(), Vec::new());
                self.utworzony = p;
                Zdarzenie::Udalo(true)
            }
            Czynnosc::Zapisz(p, b) => {
                self.pliki.insert(p, b);
                Zdarzenie::Udalo(true)
            }
            Czynnosc::Kopiuj(a, b) => match self.pliki.get(&a).cloned() {
                Some(t) => {
                    self.pliki.insert(b, t);
                    Zdarzenie::Udalo(true)
                }
                None => Zdarzenie::Udalo(false),
            },
            Czynnosc::Przenies(a, b) => match self.pliki.remove(&a) {
                Some(t) => {
                    self.pliki.insert(b, t);
                    Zdarzenie::Udalo(true)
                }
                None => Zdarzenie::Udalo(false),
            },
            Czynnosc::Usun(p) => {
                self.slad.push(format!("usun {}", p));
                Zdarzenie::Udalo(self.pliki.remove(&p).is_some())
            }
            Czynnosc::Zszyj => {
                let a = self.otwarte[0].clone();
                let b = self.otwarte[1].clone();
                if self.nieczytelne.contains(&a) || self.nieczytelne.contains(&b) {
                    return Zdarzenie::Udalo(false);
                }
                let mut x = UrywanyStrumien { dane: self.pliki[&a].clone(), pozycja: 0, porcja: 5 };
                let mut y = UrywanyStrumien { dane: self.pliki[&b].clone(), pozycja: 0, porcja: 9 };
                let mut wyjscie = Vec::new();
                let ok = zszyj_strumienie(&mut x, &mut y, &mut wyjscie).is_some();
                self.pliki.insert(self.utworzony.clone(), wyjscie);
                Zdarzenie::Udalo(ok)
            }
            Czynnosc::ScalWal(p) => {
                let wal = self.pliki.get(&format!("{}-wal", p)).cloned();
                match wal {
                    Some(w) => {
                        self.pliki.get_mut(&p).unwrap().extend(w);
                        Zdarzenie::Udalo(true)
                    }
                    None => Zdarzenie::Udalo(false),
                }
            }
            Czynnosc::SprawdzBaze(p) => {
                self.pliki.insert(format!("{}-shm", p), Vec::new());
                let t = self.pliki[&p].clone();
                Zdarzenie::Baza(if self.zdrowy(&t) {
                    StanBazy::Odpowiedz("ok".to_string())
                } else {
                    StanBazy::Blad("database disk image is malformed".to_string())
                })
            }
            Czynnosc::Zloz(_) => Zdarzenie::Zlozone(self.zlozone.take()),
            Czynnosc::Kandydaci(_, _) => Zdarzenie::Kandydaci(self.kandydaci.take()),
            Czynnosc::Uruchom(_, _, _, cel) => match self.silnik.take() {
                Some((opis, t)) => {
                    self.pliki.insert(cel, t);
                    Zdarzenie::Opis(Some(opis))
                }
                None => {
                    self.pliki.insert(cel, b"niedokonczony".to_vec());
                    Zdarzenie::Opis(None)
                }
            },
            Czynnosc::PorownajMdat(_, _) => Zdarzenie::Trojstan(self.ten_sam_mdat),
            Czynnosc::OpiszPrzeszczep(_, _) => Zdarzenie::Opis(self.przeszczep.take()),
            Czynnosc::Autopilot(_) => Zdarzenie::Pliki(self.autopilot.take()),
            Czynnosc::Zbadaj(b) => {
                let t = self.wczytane.last().unwrap().clone();
                let zdrowy = self.zdrowy(&t);
                match b {
                    Badanie::HeicPiksele => Zdarzenie::Heic(if zdrowy {
                        WeryfikacjaHeic::PikseleZdekodowane
                    } else {
                        WeryfikacjaHeic::Odrzucony
                    }),
                    Badanie::TsPakiety | Badanie::FlvTagi | Badanie::Mp3Ramki => {
                        Zdarzenie::Strumien(if zdrowy {
                            Some((true, String::new()))
                        } else if t.starts_with(b"ucie") {
                            Some((false, "luka".to_string()))
                        } else {
                            None
                        })
                    }
                    Badanie::MkvSumy => Zdarzenie::Trojstan(self.sumy),
                    Badanie::AsfObiekty | Badanie::RiffFragmenty => {
                        Zdarzenie::Trojstan(if zdrowy {
                            Some(true)
                        } else if t.starts_with(b"ucie") {
                            Some(false)
                        } else {
                            None
                        })
                    }
                    _ => Zdarzenie::Udalo(zdrowy),
                }
            }
            Czynnosc::SprawdzFfmpeg => Zdarzenie::Udalo(self.ffmpeg),
            Czynnosc::DekodujWideo(p) => {
                let t = self.pliki.get(&p).cloned().unwrap_or_default();
                Zdarzenie::Udalo(self.zdrowy(&t))
            }
            Czynnosc::SprawdzKontener(p) => Zdarzenie::Trojstan(match self.pliki.get(&p) {
                Some(t) => Some(self.zdrowy(t)),
                None => None,
            }),
        }
    }

    fn napraw<M: RepairModule>(
        &mut self,
        m: &M,
        plik: &str,
        c: &RepairContext<'_>,
        twin: Option<&str>,
        katalog: &str,
    ) -> Option<(String, String)> {
        let mut h = Vec::new();
        self.otwarte.clear();
        loop {
            match m.repair(plik, c, twin, katalog, &h) {
                KrokNaprawy::Wykonaj(x) => {
                    let z = self.wykonaj(x);
                    h.push(z);
                    assert!(h.len() <= 8);
                }
                KrokNaprawy::Koniec(w) => return w,
            }
        }
    }

    fn sprawdz<M: RepairModule>(&mut self, m: &M, plik: &str) -> WynikWeryfikacji {
        let mut h = Vec::new();
        loop {
            match m.verify(plik, &ctx(""), &h) {
                KrokWeryfikacji::Wykonaj(x) => {
                    let z = self.wykonaj(x);
                    h.push(z);
                    assert!(h.len() <= 8);
                }
                KrokWeryfikacji::Werdykt(w) => return w,
            }
        }
    }

    fn weryfikuj(&mut self, plik: &str) -> WynikWeryfikacji {
        let mut h = Vec::new();
        loop {
            match weryfikuj_naprawiony_plik(plik, &h) {
                KrokWeryfikacji::Wykonaj(x) => {
                    let z = self.wykonaj(x);
                    h.push(z);
                    assert!(h.len() <= 8);
                }
                KrokWeryfikacji::Werdykt(w) => return w,
            }
        }
    }

    fn w_katalogu(&self, katalog: &str) -> Vec<String> {
        let mut v: Vec<String> =
            self.pliki.keys().filter(|p| p.starts_with(katalog)).cloned().collect();
        v.sort();
        v
    }
}

fn weryfikuj_tresc(nazwa: &str, t: &[u8]) -> WynikWeryfikacji {
    Dysk::z(&[(nazwa, t)]).weryfikuj(nazwa)
}

fn obraz(w: u32, h: u32, format: image::ImageFormat) -> Vec<u8> {
    let mut o = image::RgbImage::new(w, h);
    for (x, y, p) in o.enumerate_pixels_mut() {
        *p = image::Rgb([(x * 7 % 256) as u8, (y * 11 % 256) as u8, ((x + y) * 3 % 256) as u8]);
    }
    let mut bajty = std::io::Cursor::new(Vec::new());
    image::DynamicImage::ImageRgb8(o).write_to(&mut bajty, format).unwrap();
    bajty.into_inner()
}

fn zdrowy_png(w: u32, h: u32) -> Vec<u8> {
    obraz(w, h, image::ImageFormat::Png)
}

fn zdrowy_jpeg(w: u32, h: u32) -> Vec<u8> {
    obraz(w, h, image::ImageFormat::Jpeg)
}

// ---------------------------------------------------------------------------
// Verification
// ---------------------------------------------------------------------------

#[test]
fn test_weryfikacja_odrzuca_plik_pusty() {
    let wynik = weryfikuj_tresc("pusty.png", b"");
    assert!(wynik.is_err(), "Pusty plik nie może przejść weryfikacji");
    assert!(wynik.unwrap_err().contains("PUSTY"));
}

#[test]
fn mod_test_weryfikacja_odrzuca_plik_nieistniejacy() {
    assert!(Dysk::default().weryfikuj("nie_ma_mnie.png").is_err());
}

#[test]
fn test_weryfikacja_przyjmuje_prawdziwy_png() {
    let wynik = weryfikuj_tresc("ok.png", &zdrowy_png(4, 4));
    assert!(wynik.is_ok(), "Poprawny PNG musi przejść: {:?}", wynik);
    assert!(wynik.unwrap().contains("MOCNA"), "Dekodowanie pikseli to gwarancja mocna");
}

#[test]
fn test_weryfikacja_odrzuca_uciety_png() {
    let pelny = zdrowy_png(4, 4);
    let uciety = &pelny[..pelny.len() / 2];
    assert_eq!(&uciety[1..4], b"PNG", "Test bez sensu: sygnatura musi zostać nietknięta");
    assert!(weryfikuj_tresc("uciety.png", uciety).is_err(), "Ucięty PNG musi zostać odrzucony");
}

#[test]
fn test_weryfikacja_odrzuca_smieci_z_rozszerzeniem_obrazu() {
    assert!(weryfikuj_tresc("smieci.jpg", b"to zupelnie nie jest obraz jpeg").is_err());
}

#[test]
fn test_weryfikacja_tekstu_przyjmuje_czysty_utf8() {
    assert!(weryfikuj_tresc("ok.txt", "zażółć gęślą jaźń\nlinia druga\n".as_bytes()).is_ok());
}

#[test]
fn test_weryfikacja_tekstu_odrzuca_pozostawione_null() {
    let wynik = weryfikuj_tresc("zle.txt", b"tekst\x00z zerem");
    assert!(wynik.is_err());
    assert!(wynik.unwrap_err().contains("NULL"));
}

#[test]
fn test_weryfikacja_tekstu_odrzuca_zly_utf8() {
    let tresc = [0xFF, 0xFE, 0x41, 0x42];
    let wynik = weryfikuj_tresc("zle.csv", &tresc);
    assert!(wynik.is_err());
    let blad = std::str::from_utf8(&tresc).unwrap_err().to_string();
    assert!(wynik.unwrap_err().contains(&blad));
}

#[test]
fn test_weryfikacja_pdf_wymaga_naglowka_i_znacznika_konca() {
    assert!(weryfikuj_tresc("ok.pdf", b"%PDF-1.7\njakas tresc\n%%EOF\n").is_ok());
    assert!(weryfikuj_tresc("bez_nag.pdf", b"tresc\n%%EOF\n").is_err());
    assert!(weryfikuj_tresc("bez_konca.pdf", b"%PDF-1.7\njakas tresc\n").is_err());
}

#[test]
fn znacznik_pdf_liczy_sie_tylko_na_koncu() {
    let mut t = b"%PDF-1.7\n%%EOF\n".to_vec();
    t.extend(vec![b' '; 4096]);
    assert!(weryfikuj_tresc("dlugi.pdf", &t).is_err());
}

#[test]
fn test_weryfikacja_sqlite_przyjmuje_zdrowa_baze() {
    let mut d = Dysk::z(&[("/w/zdrowa.db", b"SQLite format 3\x00 dane")]);
    d.zdrowe.push(b"SQLite format 3\x00 dane".to_vec());
    let wynik = d.weryfikuj("/w/zdrowa.db");
    assert!(wynik.is_ok(), "Zdrowa baza musi przejść quick_check: {:?}", wynik);
}

#[test]
fn test_weryfikacja_sqlite_nie_zostawia_sladow_obok_bazy() {
    let mut d = Dysk::z(&[("/w/wal.db", b"baza")]);
    d.zdrowe.push(b"baza".to_vec());
    let wynik = d.weryfikuj("/w/wal.db");
    assert!(wynik.is_ok(), "Sprawna baza WAL musi przejść: {:?}", wynik);
    assert_eq!(d.w_katalogu("/w"), vec!["/w/wal.db".to_string()]);
}

#[test]
fn weryfikacja_bazy_nie_rusza_plikow_ktore_juz_byly() {
    let mut d = Dysk::z(&[("/w/wal.db", b"baza"), ("/w/wal.db-wal", b"x")]);
    d.zdrowe.push(b"baza".to_vec());
    assert!(d.weryfikuj("/w/wal.db").is_ok());
    assert_eq!(d.w_katalogu("/w"), vec!["/w/wal.db".to_string(), "/w/wal.db-wal".to_string()]);
}

#[test]
fn test_weryfikacja_zip_przyjmuje_zdrowe_i_odrzuca_uszkodzone() {
    let mut d = Dysk::z(&[("ok.zip", b"PK zdrowe archiwum"), ("zle.zip", b"PK zdrowe")]);
    d.zdrowe.push(b"PK zdrowe archiwum".to_vec());
    let wynik = d.weryfikuj("ok.zip");
    assert!(wynik.is_ok(), "Zdrowy ZIP musi przejść: {:?}", wynik);
    assert!(wynik.unwrap().contains("CRC32"));
    assert!(d.weryfikuj("zle.zip").is_err(), "Ucięty ZIP musi zostać odrzucony");
}

#[test]
fn test_weryfikacja_sqlite_odrzuca_smieci() {
    let mut dane = b"SQLite format 3\x00".to_vec();
    dane.extend_from_slice(&[0xAB; 4096]);
    assert!(weryfikuj_tresc("zepsuta.db", &dane).is_err(), "Uszkodzona baza musi zostać odrzucona");
}

#[test]
fn test_weryfikacja_nieznanego_formatu_jest_jawnie_slaba() {
    let wynik = weryfikuj_tresc("cos.xyz", b"dowolna niepusta tresc");
    assert!(wynik.is_ok(), "Nieznany format nie jest sam w sobie błędem");
    assert!(wynik.unwrap().contains("SŁABA"));
}

#[test]
fn test_weryfikacja_odrzuca_plik_z_samych_zer() {
    assert!(weryfikuj_tresc("zera.xyz", &[0u8; 4096]).is_err());
}

#[test]
fn test_domyslna_implementacja_verify_jest_wpieta_w_kazdy_modul() {
    for modul in all_modules(true) {
        let mut d = Dysk::z(&[("smieci.png", b"to nie png")]);
        assert!(d.sprawdz(&modul, "smieci.png").is_err(), "Moduł {} przepuścił niesprawny wynik", modul.id());
    }
}

#[test]
fn test_weryfikacja_odrzuca_smieci_z_rozszerzeniem_m4a() {
    assert!(weryfikuj_tresc("smieci.m4a", b"to zupelnie nie jest kontener isobmff").is_err());
}

#[test]
fn test_rodzina_isobmff_nie_wpada_do_galezi_domyslnej() {
    for ext in ["mp4", "mov", "m4v", "3gp", "3g2", "f4v", "m4a", "m4b"] {
        let p = format!("smieci.{}", ext);
        assert!(
            weryfikuj_tresc(&p, b"dowolna niepusta tresc, nie isobmff").is_err(),
            ".{} wpadło do gałęzi domyślnej - ślepe zszycie by przeszło",
            ext
        );
    }
}

#[test]
fn plik_ponad_limitem_nie_jest_wczytywany() {
    let mut d = Dysk::z(&[("duzy.png", b"x")]);
    d.rozmiary.insert("duzy.png".to_string(), LIMIT_WERYFIKACJI_W_RAM + 1);
    assert!(d.weryfikuj("duzy.png").unwrap().contains("SŁABA"));
    assert!(d.slad.is_empty());
}

#[test]
fn matroska_nazywa_sile_gwarancji() {
    for (sumy, dowod) in [(Some(true), Some("MOCNA")), (None, Some("SŁABA")), (Some(false), None)] {
        let mut d = Dysk::z(&[("f.mkv", b"ebml")]);
        d.zdrowe.push(b"ebml".to_vec());
        d.sumy = sumy;
        let w = d.weryfikuj("f.mkv");
        match dowod {
            Some(t) => assert!(w.unwrap().contains(t)),
            None => assert!(w.is_err()),
        }
    }
}

#[test]
fn rozpoznawanie_formatow() {
    assert!(rozpoznaj_format("docx") == Format::Zip);
    assert!(rozpoznaj_format("jpeg") == Format::Obraz);
    assert!(rozpoznaj_format("sqlite3") == Format::Baza);
    assert!(rozpoznaj_format("") == rozpoznaj_format("xyz"));
}

// ---------------------------------------------------------------------------
// Archives
// ---------------------------------------------------------------------------

#[test]
fn test_bez_dawcy_oba_moduly_zwracaja_none() {
    let mut d = Dysk::z(&[("archiwum.zip", b"PK"), ("archiwum.tar", &[0u8; 1024])]);
    let zle = RepairContext { structure_ok: Some(false), ..ctx("zip") };
    assert!(d.napraw(&ZipSpliceModule, "archiwum.zip", &zle, None, "/w").is_none());
    assert!(d.napraw(&TarSpliceModule, "archiwum.tar", &zle, None, "/w").is_none());
}

#[test]
fn test_zip_sklada_sie_ze_zdrowego_blizniaka() {
    let mut d = Dysk::z(&[("/a/archiwum.zip", b"zepsute"), ("/a/blizniak.zip", b"zdrowe")]);
    d.zlozone = Some(b"zdrowe".to_vec());
    d.zdrowe.push(b"zdrowe".to_vec());
    let kontekst = RepairContext { structure_ok: Some(false), ..ctx("zip") };
    assert!(ZipSpliceModule.applies_to(&kontekst), "plik musi się kwalifikować");
    let (naprawiony, log) = d
        .napraw(&ZipSpliceModule, "/a/archiwum.zip", &kontekst, Some("/a/blizniak.zip"), "/a/wyniki")
        .unwrap();
    assert!(log.contains("CRC32"), "log musi nazwać kryterium wyboru: {}", log);
    let ocena = d.sprawdz(&ZipSpliceModule, &naprawiony).unwrap();
    assert!(ocena.contains("MOCNA"), "ZIP daje gwarancję MOCNĄ (CRC32 danych): {}", ocena);
}

#[test]
fn archive_test_nieudana_naprawa_nie_zostawia_pliku() {
    let mut d = Dysk::z(&[
        ("a.zip", b"to nie jest zip"),
        ("b.zip", b"to tez nie"),
        ("a.tar", b"to nie jest tar"),
        ("b.tar", b"to tez nie"),
    ]);
    let zle = RepairContext { structure_ok: Some(false), ..ctx("zip") };
    assert!(d.napraw(&ZipSpliceModule, "a.zip", &zle, Some("b.zip"), "/wyniki").is_none());
    assert!(d.napraw(&TarSpliceModule, "a.tar", &zle, Some("b.tar"), "/wyniki").is_none());
    assert!(d.w_katalogu("/wyniki").is_empty());
}

#[test]
fn test_nazwa_wyniku_zachowuje_rozszerzenie_rodziny_zip() {
    let mut d = Dysk::z(&[("dokument.docx", b"x"), ("dawca.docx", b"x")]);
    d.zlozone = Some(b"x".to_vec());
    let zle = RepairContext { structure_ok: Some(false), ..ctx("docx") };
    let (cel, _) =
        d.napraw(&ZipSpliceModule, "dokument.docx", &zle, Some("dawca.docx"), "/w").unwrap();
    assert_eq!(rozszerzenie_pliku(&cel).as_deref(), Some("docx"));
}

#[test]
fn test_limit_pamieci_jest_pilnowany() {
    assert_eq!(LIMIT_W_RAM, 512 * 1024 * 1024);
    for duzy in ["maly.zip", "dawca.zip"] {
        let mut d = Dysk::z(&[("maly.zip", b"x"), ("dawca.zip", b"x")]);
        d.zlozone = Some(b"x".to_vec());
        d.rozmiary.insert(duzy.to_string(), LIMIT_W_RAM + 1);
        let zle = RepairContext { structure_ok: Some(false), ..ctx("zip") };
        assert!(d.napraw(&ZipSpliceModule, "maly.zip", &zle, Some("dawca.zip"), "/w").is_none());
        assert!(d.slad.is_empty());
    }
    let mut d = Dysk::z(&[("maly.zip", b"x")]);
    d.zlozone = Some(b"x".to_vec());
    let zle = RepairContext { structure_ok: Some(false), ..ctx("zip") };
    assert!(d.napraw(&ZipSpliceModule, "maly.zip", &zle, Some("maly.zip"), "/w").is_some());
    assert!(d.napraw(&ZipSpliceModule, "/nie/ma/takiego", &zle, Some("maly.zip"), "/w").is_none());
}

// ---------------------------------------------------------------------------
// Containers of pieces: ASF, RIFF, MP3
// ---------------------------------------------------------------------------

fn slaba_nigdy_mocna<M: RepairModule>(m: &M, plik: &str) {
    let mut d = Dysk::z(&[(plik, b"zdrowy"), ("/x/uciety", b"uciety")]);
    d.zdrowe.push(b"zdrowy".to_vec());
    let wynik = d.sprawdz(m, plik).unwrap();
    assert!(wynik.contains("SŁABA"), "{}", wynik);
    assert!(!wynik.contains("MOCNA"), "{}", wynik);
    assert!(d.sprawdz(m, "/x/uciety").is_err());
    assert!(d.sprawdz(m, "/x/nie_ma").is_err());
}

fn odmowa_nie_zostawia_wyniku<M: RepairModule>(m: &M, ext: &str) {
    let a = format!("/a/a.{}", ext);
    let b = format!("/a/b.{}", ext);
    let mut d = Dysk::z(&[(&a, b"to nie jest to"), (&b, b"to tez nie")]);
    assert!(d.napraw(m, &a, &czesciowy(ext), None, "/wyniki").is_none());
    assert!(d.napraw(m, &a, &czesciowy(ext), Some(&b), "/wyniki").is_none());
    assert!(d.w_katalogu("/wyniki").is_empty(), "po odmowie nie może zostać plik");
}

fn zlozenie_odtwarza_oryginal<M: RepairModule>(m: &M, ext: &str, nazwa: &str) {
    let a = format!("/a/a.{}", ext);
    let b = format!("/a/b.{}", ext);
    let mut d = Dysk::z(&[(&a, b"ucie"), (&b, b"caly plik")]);
    d.zdrowe.push(b"caly plik".to_vec());
    d.zlozone = Some(b"caly plik".to_vec());
    assert!(d.sprawdz(m, &a).is_err());
    let (naprawiony, log) = d.napraw(m, &a, &czesciowy(ext), Some(&b), "/wyniki").unwrap();
    assert!(log.contains("wydmuszk") || log.contains(nazwa), "{}", log);
    assert!(d.sprawdz(m, &naprawiony).unwrap().contains("SŁABA"));
    assert_eq!(d.pliki[&naprawiony], b"caly plik");
}

#[test]
fn asf_test_weryfikacja_zdrowego_pliku_jest_zawsze_slaba_nigdy_mocna() {
    slaba_nigdy_mocna(&AsfCloneModule, "zdrowy.wmv");
}

fn odrzuca<M: RepairModule>(m: &M, plik: &str, t: &[u8]) -> String {
    Dysk::z(&[(plik, t)]).sprawdz(m, plik).unwrap_err()
}

#[test]
fn test_weryfikacja_odrzuca_plik_ktory_nie_jest_asf() {
    let obcy = odrzuca(&AsfCloneModule, "smieci.wmv", b"to nie jest ASF, tylko przypadkowe bajty!!");
    assert!(!obcy.is_empty());
}

#[test]
fn asf_test_weryfikacja_odrzuca_uciety_plik() {
    let uciety = odrzuca(&AsfCloneModule, "uciety.wmv", b"uciety");
    assert_ne!(uciety, odrzuca(&AsfCloneModule, "uciety.wmv", b"obcy"));
}

#[test]
fn test_weryfikacja_odrzuca_plik_ktory_nie_jest_riff() {
    assert!(!odrzuca(&RiffCloneModule, "smieci.wav", b"to nie jest RIFF").is_empty());
}

#[test]
fn riff_test_weryfikacja_odrzuca_uciety_plik() {
    let uciety = odrzuca(&RiffCloneModule, "uciety.wav", b"uciety");
    assert_ne!(uciety, odrzuca(&RiffCloneModule, "uciety.wav", b"obcy"));
}

#[test]
fn test_weryfikacja_odrzuca_plik_ktory_nie_jest_mp3() {
    let tresc = b"to nie jest strumien MPEG audio, tylko zwykly tekst";
    assert!(odrzuca(&Mp3CloneModule, "smieci.mp3", tresc).contains("ani jednej"));
}

#[test]
fn test_weryfikacja_odrzuca_uszkodzony_w_srodku_plik() {
    assert!(odrzuca(&Mp3CloneModule, "uszkodzony.mp3", b"ucieta ramka").ends_with("luka"));
}

#[test]
fn asf_test_bez_dawcy_zwraca_none() {
    let mut d = Dysk::z(&[("wideo.wmv", b"cokolwiek")]);
    assert!(d.napraw(&AsfCloneModule, "wideo.wmv", &czesciowy("wmv"), None, "/w").is_none());
}

#[test]
fn asf_test_nieparsowalne_pliki_nie_zostawiaja_wyniku() {
    odmowa_nie_zostawia_wyniku(&AsfCloneModule, "wmv");
}

#[test]
fn test_e2e_uciety_plik_odzyskuje_brakujacy_obiekt() {
    zlozenie_odtwarza_oryginal(&AsfCloneModule, "wmv", "ASF");
}

#[test]
fn riff_test_weryfikacja_zdrowego_pliku_jest_zawsze_slaba_nigdy_mocna() {
    slaba_nigdy_mocna(&RiffCloneModule, "zdrowy.wav");
}

#[test]
fn riff_test_bez_dawcy_zwraca_none() {
    let mut d = Dysk::z(&[("dzwiek.wav", b"cokolwiek")]);
    assert!(d.napraw(&RiffCloneModule, "dzwiek.wav", &czesciowy("wav"), None, "/w").is_none());
}

#[test]
fn riff_test_nieparsowalne_pliki_nie_zostawiaja_wyniku() {
    odmowa_nie_zostawia_wyniku(&RiffCloneModule, "wav");
}

#[test]
fn test_e2e_uciety_plik_odzyskuje_brakujacy_fragment() {
    zlozenie_odtwarza_oryginal(&RiffCloneModule, "wav", "RIFF");
}

#[test]
fn mp3_test_weryfikacja_zdrowego_pliku_jest_zawsze_slaba_nigdy_mocna() {
    slaba_nigdy_mocna(&Mp3CloneModule, "zdrowy.mp3");
}

#[test]
fn mp3_test_bez_dawcy_zwraca_none() {
    let mut d = Dysk::z(&[("dzwiek.mp3", b"cokolwiek")]);
    assert!(d.napraw(&Mp3CloneModule, "dzwiek.mp3", &czesciowy("mp3"), None, "/w").is_none());
}

#[test]
fn mp3_test_nieparsowalne_pliki_nie_zostawiaja_wyniku() {
    odmowa_nie_zostawia_wyniku(&Mp3CloneModule, "mp3");
}

#[test]
fn test_e2e_uszkodzenie_w_srodku_zostaje_naprawione() {
    zlozenie_odtwarza_oryginal(&Mp3CloneModule, "mp3", "MP3");
}

// ---------------------------------------------------------------------------
// DNG, HEIC, JPEG, Matroska, PNG
// ---------------------------------------------------------------------------

#[test]
fn test_weryfikacja_odrzuca_plik_ktory_nie_jest_raw() {
    let mut d = Dysk::z(&[("smieci.dng", b"to nie jest RAW")]);
    assert!(d.sprawdz(&DngStructuralModule, "smieci.dng").is_err());
}

#[test]
fn test_etykieta_gwarancji_jest_slabsza_od_domyslnej() {
    let mut d = Dysk::z(&[("zdrowy.dng", b"raw")]);
    d.zdrowe.push(b"raw".to_vec());
    let domyslna = d.weryfikuj("zdrowy.dng").unwrap();
    let modulowa = d.sprawdz(&DngStructuralModule, "zdrowy.dng").unwrap();
    assert!(domyslna.contains("MOCNA"), "{}", domyslna);
    assert!(modulowa.contains("SŁABA") && !modulowa.contains("MOCNA"), "{}", modulowa);
    assert!(DngStructuralModule.display_name().contains("SŁABA"));
}

#[test]
fn dng_test_bez_dawcy_zwraca_none() {
    let mut d = Dysk::z(&[("obraz.dng", b"nieistotne")]);
    assert!(d.napraw(&DngStructuralModule, "obraz.dng", &ctx("dng"), None, "/w").is_none());
}

#[test]
fn dng_test_nieparsowalne_pliki_nie_zostawiaja_wyniku() {
    let mut d = Dysk::z(&[("a.dng", b"nie TIFF"), ("b.dng", b"tez nie TIFF")]);
    assert!(d.napraw(&DngStructuralModule, "a.dng", &ctx("dng"), Some("b.dng"), "/w").is_none());
    assert!(d.w_katalogu("/w").is_empty());
}

fn kandydat(opis: &str, entropia: f64, plausible: bool, decodes: bool) -> Kandydat {
    Kandydat {
        bytes: opis.as_bytes().to_vec(),
        description: opis.to_string(),
        donated_data_entropy: Binary64 { bits: entropia.to_bits() },
        plausible,
        decodes,
    }
}

#[test]
fn dng_bierze_pierwszego_wiarygodnego_kandydata() {
    let mut d = Dysk::z(&[("a.dng", b"a"), ("b.dng", b"b")]);
    d.kandydaci = Some(vec![
        kandydat("czarna klatka", 0.0, false, true),
        kandydat("nie dekoduje", 7.0, true, false),
        kandydat("dobry", 6.5, true, true),
        kandydat("tez dobry", 6.6, true, true),
    ]);
    let (cel, log) =
        d.napraw(&DngStructuralModule, "a.dng", &ctx("dng"), Some("b.dng"), "/w").unwrap();
    assert_eq!(cel, "/w/a_repaired_dng.dng");
    assert_eq!(d.pliki[&cel], b"dobry");
    assert!(log.contains("dobry"), "{}", log);
    assert!(log.contains("6.5"), "{}", log);
}

#[test]
fn heic_test_bez_dawcy_zwraca_none() {
    let mut d = Dysk::z(&[("zdjecie.heic", b"nieistotne")]);
    assert!(d.napraw(&HeicCloneModule, "zdjecie.heic", &ctx("heic"), None, "/w").is_none());
}

#[test]
fn heic_test_nieudana_naprawa_nie_zostawia_pliku() {
    let mut d = Dysk::z(&[("nie.heic", b"to nie jest heic"), ("tez.heic", b"to tez nie")]);
    assert!(d.napraw(&HeicCloneModule, "nie.heic", &ctx("heic"), Some("tez.heic"), "/w").is_none());
    assert!(d.w_katalogu("/w").is_empty());
}

#[test]
fn heic_test_nazwa_wyniku_zachowuje_rozszerzenie() {
    let mut d = Dysk::z(&[("foto.heif", b"x"), ("dawca.heif", b"x")]);
    d.silnik = Some(("ok".to_string(), b"x".to_vec()));
    let (cel, log) =
        d.napraw(&HeicCloneModule, "foto.heif", &ctx("heif"), Some("dawca.heif"), "/w").unwrap();
    assert_eq!(rozszerzenie_pliku(&cel).as_deref(), Some("heif"));
    assert!(log.contains("meta"), "log musi nazwać wykonaną operację: {}", log);
}

#[test]
fn test_weryfikacja_odrzuca_plik_ktory_nie_jest_heic() {
    let mut d = Dysk::z(&[("smieci.heic", b"to nie jest obraz heic")]);
    assert!(d.sprawdz(&HeicCloneModule, "smieci.heic").is_err());
}

#[test]
fn jpeg_test_bez_dawcy_zwraca_none() {
    let mut d = Dysk::z(&[("zdjecie.jpg", &zdrowy_jpeg(32, 32))]);
    assert!(d.napraw(&JpegCloneModule, "zdjecie.jpg", &ctx("jpg"), None, "/w").is_none());
}

#[test]
fn jpeg_test_nieudana_naprawa_nie_zostawia_pliku() {
    let mut d = Dysk::z(&[("nie.jpg", b"to nie jest jpeg"), ("tez.jpg", b"to tez nie")]);
    assert!(d.napraw(&JpegCloneModule, "nie.jpg", &ctx("jpg"), Some("tez.jpg"), "/w").is_none());
    assert!(d.w_katalogu("/w").is_empty());
}

#[test]
fn jpeg_test_nazwa_wyniku_zachowuje_rozszerzenie() {
    let zdrowy = zdrowy_jpeg(48, 32);
    let mut d = Dysk::z(&[("foto.jpeg", b"zepsuty"), ("dawca.jpeg", &zdrowy)]);
    d.silnik = Some(("ok".to_string(), zdrowy));
    d.przeszczep = Some("Przeniesiono tablice DQT, DHT i SOF".to_string());
    let (cel, log) =
        d.napraw(&JpegCloneModule, "foto.jpeg", &ctx("jpeg"), Some("dawca.jpeg"), "/w").unwrap();
    assert_eq!(rozszerzenie_pliku(&cel).as_deref(), Some("jpeg"));
    assert!(log.contains("DQT"), "log musi nazwać przeniesione tablice: {}", log);
    assert!(log.contains("dawca"), "log musi wskazać dawcę: {}", log);
}

#[test]
fn test_e2e_naprawa_i_weryfikacja() {
    let zdrowy = zdrowy_jpeg(120, 80);
    let mut zepsuty = zdrowy.clone();
    for b in &mut zepsuty[0..200] {
        *b = 0;
    }
    let mut d = Dysk::z(&[("/a/zdjecie.jpg", &zepsuty), ("/a/blizniak.jpg", &zdrowy)]);
    d.silnik = Some(("ok".to_string(), zdrowy));
    let kontekst = RepairContext { eof_ok: Some(false), ..ctx("jpg") };
    assert!(JpegCloneModule.applies_to(&kontekst), "plik musi się kwalifikować");
    assert!(d.sprawdz(&JpegCloneModule, "/a/zdjecie.jpg").is_err());
    let (naprawiony, _) = d
        .napraw(&JpegCloneModule, "/a/zdjecie.jpg", &kontekst, Some("/a/blizniak.jpg"), "/w")
        .unwrap();
    let ocena = d.sprawdz(&JpegCloneModule, &naprawiony).unwrap();
    assert!(ocena.contains("MOCNA"), "{}", ocena);
}

#[test]
fn jpeg_test_weryfikacja_odrzuca_plik_ktory_nie_jest_obrazem() {
    let mut d = Dysk::z(&[("smieci.jpg", b"to nie jest obraz")]);
    assert!(d.sprawdz(&JpegCloneModule, "smieci.jpg").is_err());
}

#[test]
fn mkv_test_bez_dawcy_zwraca_none() {
    let mut d = Dysk::z(&[("film.mkv", b"cokolwiek")]);
    assert!(d.napraw(&MkvCloneModule, "film.mkv", &ctx("mkv"), None, "/w").is_none());
}

#[test]
fn mkv_test_nieudana_naprawa_nie_zostawia_pliku() {
    let mut d = Dysk::z(&[("a.mkv", b"to nie jest matroska"), ("b.mkv", b"to tez nie")]);
    assert!(d.napraw(&MkvCloneModule, "a.mkv", &ctx("mkv"), Some("b.mkv"), "/w").is_none());
    assert!(d.w_katalogu("/w").is_empty());
}

#[test]
fn test_e2e_sanitize_bez_blizniaka() {
    let zdrowy = zdrowy_png(64, 48);
    let mut d = Dysk::z(&[("/a/obraz.png", b"zepsuty")]);
    assert!(d.napraw(&PngCloneModule, "/a/obraz.png", &ctx("png"), None, "/w").is_none());
    d.silnik = Some(("Odrzucono fragmenty: tEXt".to_string(), zdrowy));
    let (naprawiony, log) =
        d.napraw(&PngSanitizeModule, "/a/obraz.png", &ctx("png"), None, "/w").unwrap();
    assert!(log.contains("tEXt"), "log musi nazwać odrzucony fragment: {}", log);
    let ocena = d.sprawdz(&PngSanitizeModule, &naprawiony).unwrap();
    assert!(ocena.contains("MOCNA"), "{}", ocena);
}

#[test]
fn test_sanitize_odmawia_przy_uszkodzeniu_krytycznym() {
    let mut d = Dysk::z(&[("/a/obraz.png", b"zepsuty IDAT")]);
    assert!(d.napraw(&PngSanitizeModule, "/a/obraz.png", &ctx("png"), None, "/w").is_none());
    assert!(d.w_katalogu("/w").is_empty());
}

#[test]
fn test_e2e_clone_ratuje_fragment_krytyczny() {
    let zdrowy = zdrowy_png(80, 60);
    let mut d = Dysk::z(&[("/a/obraz.png", b"a"), ("/a/blizniak.png", b"b")]);
    d.silnik = Some(("ok".to_string(), zdrowy.clone()));
    let (naprawiony, log) =
        d.napraw(&PngCloneModule, "/a/obraz.png", &ctx("png"), Some("/a/blizniak.png"), "/w").unwrap();
    assert!(log.contains("CRC32"), "log musi nazwać kryterium wyboru: {}", log);
    assert!(d.sprawdz(&PngCloneModule, &naprawiony).unwrap().contains("MOCNA"));
    assert_eq!(d.pliki[&naprawiony], zdrowy);
}

#[test]
fn test_clone_odmawia_gdy_ten_sam_fragment_zepsuty_po_obu_stronach() {
    let mut d = Dysk::z(&[("/a/a.png", b"z"), ("/a/b.png", b"z")]);
    assert!(d.napraw(&PngCloneModule, "/a/a.png", &ctx("png"), Some("/a/b.png"), "/w").is_none());
    assert!(d.w_katalogu("/w").is_empty());
}

#[test]
fn png_test_weryfikacja_odrzuca_plik_ktory_nie_jest_obrazem() {
    let mut d = Dysk::z(&[("smieci.png", b"to nie jest obraz")]);
    assert!(d.sprawdz(&PngCloneModule, "smieci.png").is_err());
    assert!(d.sprawdz(&PngSanitizeModule, "smieci.png").is_err());
}

// ---------------------------------------------------------------------------
// MP4
// ---------------------------------------------------------------------------

fn silniki_mp4() -> Vec<Modul> {
    vec![
        Modul::Mp4Native(Mp4NativeModule),
        Modul::Mp4Clone(Mp4CloneModule),
        Modul::Mp4Recontainer(Mp4RecontainerModule { ffmpeg: true }),
    ]
}

#[test]
fn test_lista_rozszerzen_pokrywa_sie_z_weryfikacja() {
    for ext in ["mp4", "mov", "m4v", "3gp", "3g2", "f4v"] {
        let p = format!("smieci.{}", ext);
        assert!(weryfikuj_tresc(&p, b"to zupelnie nie jest kontener isobmff").is_err(), ".{}", ext);
    }
}

#[test]
fn test_clone_bez_dawcy_zwraca_none() {
    let mut d = Dysk::z(&[("film.mp4", b"nieistotne")]);
    assert!(d.napraw(&Mp4CloneModule, "film.mp4", &ctx("mp4"), None, "/w").is_none());
}

#[test]
fn mp4_test_nieudana_naprawa_nie_zostawia_pliku() {
    for m in silniki_mp4() {
        let mut d = Dysk::z(&[("nie.mp4", b"to zupelnie nie jest kontener mp4"), ("d.mp4", b"x")]);
        assert!(d.napraw(&m, "nie.mp4", &ctx("mp4"), Some("d.mp4"), "/w").is_none());
        assert!(d.w_katalogu("/w").is_empty(), "{}", m.id());
    }
}

#[test]
fn przeszczep_odmawia_innego_nagrania() {
    for (mdat, udany) in [(Some(false), false), (Some(true), true), (None, true)] {
        let mut d = Dysk::z(&[("a.mp4", b"x"), ("b.mp4", b"y")]);
        d.ten_sam_mdat = mdat;
        d.silnik = Some(("ok".to_string(), b"film".to_vec()));
        let w = d.napraw(&Mp4CloneModule, "a.mp4", &ctx("mp4"), Some("b.mp4"), "/w");
        assert_eq!(w.is_some(), udany);
    }
}

#[test]
fn test_weryfikacja_odrzuca_plik_ktory_nie_jest_wideo() {
    for ffmpeg in [true, false] {
        for m in silniki_mp4() {
            let mut d = Dysk::z(&[("smieci.mp4", b"to nie jest wideo")]);
            d.ffmpeg = ffmpeg;
            assert!(d.sprawdz(&m, "smieci.mp4").is_err(), "{}", m.id());
        }
    }
}

#[test]
fn mp4_test_weryfikacja_odrzuca_plik_nieistniejacy() {
    assert!(Dysk::default().sprawdz(&Mp4NativeModule, "nie_ma.mp4").is_err());
}

#[test]
fn test_weryfikacja_nazywa_sile_gwarancji() {
    for (ffmpeg, sila) in [(true, "MOCNA"), (false, "SŁABA")] {
        let mut d = Dysk::z(&[("struktura.mp4", b"kontener")]);
        d.zdrowe.push(b"kontener".to_vec());
        d.ffmpeg = ffmpeg;
        let mut h = Vec::new();
        let dowod = loop {
            match weryfikuj_wideo("struktura.mp4", &h, 0) {
                KrokWeryfikacji::Wykonaj(x) => {
                    let z = d.wykonaj(x);
                    h.push(z);
                }
                KrokWeryfikacji::Werdykt(w) => break w.unwrap(),
            }
        };
        assert!(dowod.contains(sila), "{}", dowod);
    }
}

#[test]
fn test_unikalny_podkatalog_rozroznia_pliki_o_tej_samej_nazwie() {
    let a = "/korpus/folder1/IMG_0001.mp4";
    let b = "/korpus/folder2/IMG_0001.mp4";
    assert_ne!(unikalny_podkatalog(a), unikalny_podkatalog(b));
    assert_eq!(unikalny_podkatalog(a), unikalny_podkatalog(a));
}

#[test]
fn podkatalog_to_szesnascie_cyfr() {
    assert_eq!(nazwa_podkatalogu(0), "0000000000000000");
    assert_eq!(nazwa_podkatalogu(0xDEAD_BEEF), "00000000deadbeef");
    assert_eq!(nazwa_podkatalogu(u64::MAX), "ffffffffffffffff");
    assert_ne!(unikalny_podkatalog("/a/b.mp4"), "/a/b.mp4");
    assert_eq!(unikalny_podkatalog("/a/b.mp4"), nazwa_podkatalogu(skrot_sciezki("/a/b.mp4")));
}

#[test]
fn rozne_skroty_daja_rozne_podkatalogi() {
    assert_ne!(nazwa_podkatalogu(1), nazwa_podkatalogu(16));
    assert_ne!(nazwa_podkatalogu(0xAB), nazwa_podkatalogu(0xAB00));
    assert_ne!(skrot_sciezki("/a/b.mp4"), skrot_sciezki("/a/c.mp4"));
}

#[test]
fn test_plik_bez_dna_daje_porazke_bez_paniki() {
    let mut d = Dysk::default();
    assert!(d.napraw(&Mp4AutopilotModule, "nie_ma_takiego.mp4", &ctx("mp4"), None, "/w").is_none());
}

#[test]
fn test_znajdz_wynik_rozpoznaje_kazdy_prefiks_algorytmu() {
    let pliki = vec![(
        "Recontainer_material.mov.mp4".to_string(),
        "/o/Recontainer_material.mov.mp4".to_string(),
    )];
    assert_eq!(
        znajdz_wynik(&pliki, "material.mov").unwrap(),
        "/o/Recontainer_material.mov.mp4"
    );
}

#[test]
fn test_znajdz_wynik_pusty_gdy_nic_nie_pasuje() {
    let pliki = vec![("Clone_inny.mp4.mp4".to_string(), "/o/Clone_inny.mp4.mp4".to_string())];
    assert!(znajdz_wynik(&pliki, "material.mov").is_none());
}

#[test]
fn autopilot_przenosi_wynik_pod_wlasna_nazwe() {
    let mut d = Dysk::z(&[("/k/a.mp4", b"x"), ("/o/Clone_a.mp4.mp4", b"odzyskany")]);
    d.autopilot =
        Some(vec![("Clone_a.mp4.mp4".to_string(), "/o/Clone_a.mp4.mp4".to_string())]);
    let (cel, _) = d.napraw(&Mp4AutopilotModule, "/k/a.mp4", &ctx("mp4"), None, "/w").unwrap();
    assert_eq!(cel, "/w/a_repaired_autopilot.mp4");
    assert_eq!(d.pliki[&cel], b"odzyskany");
    assert!(!d.pliki.contains_key("/o/Clone_a.mp4.mp4"));
}

// ---------------------------------------------------------------------------
// Headers and extensions
// ---------------------------------------------------------------------------

fn powod<'a>(ext: &'a str, p: &'a str) -> RepairContext<'a> {
    RepairContext { media_reason: Some(p), ..ctx(ext) }
}

#[test]
fn test_repair_renames_to_correct_extension() {
    let mut d = Dysk::z(&[("/a/plik.jpg", b"tak naprawde to png")]);
    let c = powod("jpg", "Fałszywe rozszerzenie (Wewnątrz to: image/png)");
    let (target, log) = d.napraw(&ExtensionModule, "/a/plik.jpg", &c, None, "/a").unwrap();
    assert!(target.ends_with("_repaired.png"));
    assert!(log.contains(".png"));
    assert_eq!(d.pliki[&target], b"tak naprawde to png");
}

#[test]
fn test_repair_returns_none_for_unrecognized_mime() {
    let mut d = Dysk::z(&[("/a/plik.dat", b"cokolwiek")]);
    let c = powod("dat", "Fałszywe rozszerzenie (Wewnątrz to: application/octet-stream)");
    assert!(d.napraw(&ExtensionModule, "/a/plik.dat", &c, None, "/a").is_none());
}

#[test]
fn test_repair_returns_none_without_reason() {
    let mut d = Dysk::z(&[("/a/plik.jpg", b"cokolwiek")]);
    assert!(d.napraw(&ExtensionModule, "/a/plik.jpg", &ctx("jpg"), None, "/a").is_none());
}

#[test]
fn test_repair_injects_header_when_missing() {
    let mut d = Dysk::z(&[("/a/uszkodzony.jpg", b"to nie jest prawdziwy naglowek jpg")]);
    let (target, log) =
        d.napraw(&HeaderJpgModule, "/a/uszkodzony.jpg", &ctx("jpg"), None, "/a").unwrap();
    assert!(d.pliki[&target].starts_with(&[0xFF, 0xD8]));
    assert!(log.contains("SOI/JFIF"));
}

#[test]
fn test_repair_returns_none_when_header_already_valid() {
    let mut d = Dysk::z(&[("/a/zdrowy.jpg", &[0xFF, 0xD8, 0xFF, 0xE0])]);
    assert!(d.napraw(&HeaderJpgModule, "/a/zdrowy.jpg", &ctx("jpg"), None, "/a").is_none());
}

const DLUGOSC_SOI_APP0: usize = 20;

#[test]
fn test_e2e_odtwarza_dekodowalny_jpeg() {
    let zdrowy = zdrowy_jpeg(96, 64);
    assert_eq!(&zdrowy[..2], &[0xFF, 0xD8]);
    let bez_naglowka = &zdrowy[DLUGOSC_SOI_APP0..];
    assert!(image::load_from_memory(bez_naglowka).is_err());
    let mut d = Dysk::z(&[("/a/zdjecie.jpg", bez_naglowka)]);
    let (naprawiony, _) =
        d.napraw(&HeaderJpgModule, "/a/zdjecie.jpg", &ctx("jpg"), None, "/w").unwrap();
    let odzyskany = &d.pliki[&naprawiony];
    let o = image::load_from_memory(odzyskany).unwrap();
    assert_eq!((o.width(), o.height()), (96, 64), "wymiary muszą zostać odtworzone");
    assert_eq!(odzyskany.len(), zdrowy.len());
}

#[test]
fn test_naprawiony_jpeg_przechodzi_weryfikacje_z_mocna_gwarancja() {
    let mut d = Dysk::z(&[("/a/zdjecie.jpg", &zdrowy_jpeg(48, 32)[DLUGOSC_SOI_APP0..])]);
    let (naprawiony, _) =
        d.napraw(&HeaderJpgModule, "/a/zdjecie.jpg", &ctx("jpg"), None, "/w").unwrap();
    let ocena = d.sprawdz(&HeaderJpgModule, &naprawiony).unwrap();
    assert!(ocena.contains("MOCNA"), "{}", ocena);
}

const PNG_SIGNATURE: [u8; 8] = [0x89, 0x50, 0x4E, 0x47, 0x0D, 0x0A, 0x1A, 0x0A];

#[test]
fn test_repair_injects_signature_when_missing() {
    let mut d = Dysk::z(&[("/a/uszkodzony.png", b"dane obrazu bez sygnatury")]);
    let (target, log) =
        d.napraw(&HeaderPngModule, "/a/uszkodzony.png", &ctx("png"), None, "/a").unwrap();
    assert!(d.pliki[&target].starts_with(&PNG_SIGNATURE));
    assert!(log.contains("PNG"));
}

#[test]
fn test_repair_returns_none_when_signature_already_valid() {
    let mut content = PNG_SIGNATURE.to_vec();
    content.extend_from_slice(b"reszta danych");
    let mut d = Dysk::z(&[("/a/zdrowy.png", &content)]);
    assert!(d.napraw(&HeaderPngModule, "/a/zdrowy.png", &ctx("png"), None, "/a").is_none());
}

#[test]
fn test_e2e_odtwarza_dekodowalny_png() {
    let zdrowy = zdrowy_png(64, 48);
    let bez_sygnatury = &zdrowy[PNG_SIGNATURE.len()..];
    assert!(image::load_from_memory(bez_sygnatury).is_err());
    let mut d = Dysk::z(&[("/a/obraz.png", bez_sygnatury)]);
    let (naprawiony, _) =
        d.napraw(&HeaderPngModule, "/a/obraz.png", &ctx("png"), None, "/w").unwrap();
    assert_eq!(d.pliki[&naprawiony], zdrowy, "utrata samej sygnatury jest w pełni odwracalna");
    let o = image::load_from_memory(&d.pliki[&naprawiony]).unwrap();
    assert_eq!((o.width(), o.height()), (64, 48));
}

#[test]
fn test_naprawiony_png_przechodzi_weryfikacje_z_mocna_gwarancja() {
    let mut d = Dysk::z(&[("/a/obraz.png", &zdrowy_png(32, 32)[PNG_SIGNATURE.len()..])]);
    let (naprawiony, _) =
        d.napraw(&HeaderPngModule, "/a/obraz.png", &ctx("png"), None, "/w").unwrap();
    let ocena = d.sprawdz(&HeaderPngModule, &naprawiony).unwrap();
    assert!(ocena.contains("MOCNA"), "{}", ocena);
}

#[test]
fn przywraca_dekodowalnosc_formatow_rastrowych() {
    for (ext, dlugosc, format) in [
        ("gif", 6usize, image::ImageFormat::Gif),
        ("bmp", 2, image::ImageFormat::Bmp),
        ("tiff", 4, image::ImageFormat::Tiff),
        ("webp", 4, image::ImageFormat::WebP),
    ] {
        let pelny = obraz(16, 12, format);
        assert!(image::load_from_memory(&pelny).is_ok(), "{}", ext);
        let uszkodzony = &pelny[dlugosc..];
        assert!(image::load_from_memory(uszkodzony).is_err(), "{}", ext);
        let p = format!("/a/bez_sygnatury.{}", ext);
        let mut d = Dysk::z(&[(&p, uszkodzony)]);
        let (wynik, opis) =
            d.napraw(&HeaderRasterModule, &p, &powod(ext, "Nagłówek"), None, "/w").unwrap();
        assert!(opis.contains("sygnaturę"), "{}", opis);
        assert_eq!(d.pliki[&wynik], pelny, "{}", ext);
    }
}

#[test]
fn zdrowy_raster_nie_jest_ruszany() {
    let mut d = Dysk::z(&[("/a/zdrowy.gif", &obraz(4, 4, image::ImageFormat::Gif))]);
    assert!(d
        .napraw(&HeaderRasterModule, "/a/zdrowy.gif", &powod("gif", "Nagłówek"), None, "/w")
        .is_none());
}

#[test]
fn test_smieci_nie_daja_falszywego_sukcesu() {
    let mut d =
        Dysk::z(&[("/a/smieci.gif", b"to zupelnie nie jest obraz, tylko zwykly tekst")]);
    assert!(d
        .napraw(&HeaderRasterModule, "/a/smieci.gif", &powod("gif", "Nagłówek"), None, "/w")
        .is_none());
}

#[test]
fn test_pusty_plik_nie_wywraca_modulu() {
    let mut d = Dysk::z(&[("/a/pusty.bmp", b"")]);
    assert!(d
        .napraw(&HeaderRasterModule, "/a/pusty.bmp", &powod("bmp", "Nagłówek"), None, "/w")
        .is_none());
}

#[test]
fn sygnatura_szesnastkowo() {
    assert_eq!(zapisz_szesnastkowo(&vec![0x49, 0x49, 0x2A, 0x00]), "49 49 2A 00");
    assert_eq!(zapisz_szesnastkowo(&Vec::new()), "");
}

// ---------------------------------------------------------------------------
// Stitching
// ---------------------------------------------------------------------------

struct UrywanyStrumien {
    dane: Vec<u8>,
    pozycja: usize,
    porcja: usize,
}

impl Read for UrywanyStrumien {
    fn read(&mut self, bufor: &mut [u8]) -> std::io::Result<usize> {
        let zostalo = self.dane.len() - self.pozycja;
        if zostalo == 0 {
            return Ok(0);
        }
        let n = self.porcja.min(zostalo).min(bufor.len());
        bufor[..n].copy_from_slice(&self.dane[self.pozycja..self.pozycja + n]);
        self.pozycja += n;
        Ok(n)
    }
}

struct StrumienZBledem {
    przed_bledem: usize,
    oddane: usize,
}

impl Read for StrumienZBledem {
    fn read(&mut self, bufor: &mut [u8]) -> std::io::Result<usize> {
        if self.oddane >= self.przed_bledem {
            return Err(std::io::Error::other("symulowany błąd I/O"));
        }
        let n = bufor.len().min(self.przed_bledem - self.oddane);
        for b in &mut bufor[..n] {
            *b = 0xAA;
        }
        self.oddane += n;
        Ok(n)
    }
}

fn czytaj<R: Read>(r: &mut R, n: usize) -> Odczyt {
    let mut bufor = vec![0u8; n];
    match r.read(&mut bufor) {
        Ok(k) => {
            bufor.truncate(k);
            Odczyt::Dane(bufor)
        }
        Err(e) if e.kind() == std::io::ErrorKind::Interrupted => Odczyt::Przerwany,
        Err(_) => Odczyt::Blad,
    }
}

fn wypelnij_bufor<R: Read>(r: &mut R, rozmiar: usize) -> Option<Vec<u8>> {
    let mut b = Bufor::new(rozmiar);
    while b.brakuje() > 0 {
        let o = czytaj(r, b.brakuje());
        if !b.przyjmij(&o) {
            return None;
        }
    }
    Some(b.dane)
}

fn zszyj_strumienie<A: Read, B: Read>(a: &mut A, b: &mut B, wyjscie: &mut Vec<u8>) -> Option<()> {
    let mut z = Zszywanie::new();
    loop {
        match z.nastepne() {
            Zadanie::CzytajA(n) => {
                let o = czytaj(a, n);
                if !z.a.przyjmij(&o) {
                    return None;
                }
            }
            Zadanie::CzytajB(n) => {
                let o = czytaj(b, n);
                if !z.b.przyjmij(&o) {
                    return None;
                }
            }
            Zadanie::Pisz => {
                wyjscie.extend(z.porcja());
                z.zapisano();
            }
            Zadanie::Koniec => return Some(()),
        }
    }
}

fn dane_testowe(dlugosc: usize) -> (Vec<u8>, Vec<u8>, Vec<u8>) {
    let a: Vec<u8> =
        (0..dlugosc).map(|i| if i % 2 == 0 { 0 } else { ((i % 255) + 1) as u8 }).collect();
    let b: Vec<u8> = (0..dlugosc).map(|i| ((i % 251) + 1) as u8).collect();
    let oczekiwane: Vec<u8> =
        (0..dlugosc).map(|i| if a[i] != 0 { a[i] } else { b[i] }).collect();
    (a, b, oczekiwane)
}

#[test]
fn test_repair_returns_none_without_twin() {
    let mut d = Dysk::z(&[("/a/a.bin", b"dane")]);
    assert!(d.napraw(&SpliceModule, "/a/a.bin", &czesciowy("bin"), None, "/a").is_none());
}

#[test]
fn test_repair_merges_nonzero_bytes_preferring_source() {
    let mut d = Dysk::z(&[
        ("/a/a.bin", &[0x00, 0x00, 0xAA, 0xFF]),
        ("/a/b.bin", &[0xBB, 0xCC, 0x00, 0x11]),
    ]);
    let (target, _) =
        d.napraw(&SpliceModule, "/a/a.bin", &czesciowy("bin"), Some("/a/b.bin"), "/a").unwrap();
    assert_eq!(d.pliki[&target], vec![0xBB, 0xCC, 0xAA, 0xFF]);
    assert_eq!(zszyj(&vec![0, 7], &vec![1, 2, 3]), vec![1, 7, 3]);
}

#[test]
fn test_wypelnij_bufor_sklada_krotkie_odczyty() {
    let mut strumien = UrywanyStrumien { dane: vec![7u8; 1000], pozycja: 0, porcja: 3 };
    let dane = wypelnij_bufor(&mut strumien, 1000).unwrap();
    assert_eq!(dane.len(), 1000, "Bufor musi zostać zapełniony w całości, mimo porcji po 3 bajty");
    assert!(dane.iter().all(|&b| b == 7));
}

#[test]
fn test_wypelnij_bufor_zwraca_none_przy_bledzie_a_nie_zero() {
    let mut strumien = StrumienZBledem { przed_bledem: 10, oddane: 0 };
    assert!(wypelnij_bufor(&mut strumien, 1000).is_none());
}

#[test]
fn przerwany_odczyt_nic_nie_zmienia() {
    let mut b = Bufor::new(4);
    assert!(b.przyjmij(&Odczyt::Dane(vec![1, 2])));
    assert!(b.przyjmij(&Odczyt::Przerwany));
    assert_eq!(b.dane, vec![1, 2]);
    assert_eq!(b.brakuje(), 2);
    assert!(b.przyjmij(&Odczyt::Dane(Vec::new())));
    assert_eq!(b.brakuje(), 0);
}

#[test]
fn test_zszywanie_odporne_na_krotki_odczyt_jednej_strony() {
    let dlugosc = ROZMIAR_BUFORA * 2 + 5_000;
    let (a, b, oczekiwane) = dane_testowe(dlugosc);
    let mut strumien_a = UrywanyStrumien { dane: a, pozycja: 0, porcja: 7 };
    let mut strumien_b = UrywanyStrumien { dane: b, pozycja: 0, porcja: ROZMIAR_BUFORA };
    let mut wyjscie: Vec<u8> = Vec::new();
    zszyj_strumienie(&mut strumien_a, &mut strumien_b, &mut wyjscie).unwrap();
    assert_eq!(wyjscie.len(), dlugosc, "Rozmiar wyniku");
    assert_eq!(wyjscie, oczekiwane);
}

#[test]
fn test_zszywanie_gdy_obie_strony_urywaja_inaczej() {
    let dlugosc = ROZMIAR_BUFORA + 777;
    let (a, b, oczekiwane) = dane_testowe(dlugosc);
    let mut strumien_a = UrywanyStrumien { dane: a, pozycja: 0, porcja: 13 };
    let mut strumien_b = UrywanyStrumien { dane: b, pozycja: 0, porcja: 101 };
    let mut wyjscie: Vec<u8> = Vec::new();
    zszyj_strumienie(&mut strumien_a, &mut strumien_b, &mut wyjscie).unwrap();
    assert_eq!(wyjscie, oczekiwane);
}

#[test]
fn test_zszywanie_stron_o_roznej_dlugosci_ponad_granica_bufora() {
    let dlugosc_a = ROZMIAR_BUFORA * 2 + 100;
    let a: Vec<u8> = (0..dlugosc_a).map(|i| ((i % 255) + 1) as u8).collect();
    let b: Vec<u8> = vec![0xFF; 5_000];
    let oczekiwane = a.clone();
    let mut strumien_a = UrywanyStrumien { dane: a, pozycja: 0, porcja: 9 };
    let mut strumien_b = UrywanyStrumien { dane: b, pozycja: 0, porcja: 4_096 };
    let mut wyjscie: Vec<u8> = Vec::new();
    zszyj_strumienie(&mut strumien_a, &mut strumien_b, &mut wyjscie).unwrap();
    assert_eq!(wyjscie.len(), dlugosc_a);
    assert_eq!(wyjscie, oczekiwane);
}

#[test]
fn test_zszywanie_krotszej_strony_a_niz_b() {
    let dlugosc_b = ROZMIAR_BUFORA + 2_000;
    let a: Vec<u8> = vec![0x00; 3_000];
    let b: Vec<u8> = (0..dlugosc_b).map(|i| ((i % 253) + 1) as u8).collect();
    let oczekiwane = b.clone();
    let mut strumien_a = UrywanyStrumien { dane: a, pozycja: 0, porcja: 11 };
    let mut strumien_b = UrywanyStrumien { dane: b, pozycja: 0, porcja: 6_000 };
    let mut wyjscie: Vec<u8> = Vec::new();
    zszyj_strumienie(&mut strumien_a, &mut strumien_b, &mut wyjscie).unwrap();
    assert_eq!(wyjscie, oczekiwane);
}

#[test]
fn test_zszywanie_zwraca_none_gdy_strona_sypie_bledem() {
    let mut strumien_a = StrumienZBledem { przed_bledem: 100, oddane: 0 };
    let mut strumien_b = UrywanyStrumien { dane: vec![1u8; 5_000], pozycja: 0, porcja: 5_000 };
    let mut wyjscie: Vec<u8> = Vec::new();
    assert!(zszyj_strumienie(&mut strumien_a, &mut strumien_b, &mut wyjscie).is_none());
}

#[test]
fn test_repair_na_duzych_plikach_daje_poprawne_zszycie() {
    let (a, b, oczekiwane) = dane_testowe(ROZMIAR_BUFORA * 2 + 333);
    let mut d = Dysk::z(&[("/a/duzy.bin", &a), ("/a/blizniak.bin", &b)]);
    let (target, _) = d
        .napraw(&SpliceModule, "/a/duzy.bin", &czesciowy("bin"), Some("/a/blizniak.bin"), "/a")
        .unwrap();
    assert_eq!(d.pliki[&target], oczekiwane);
}

#[test]
fn splice_test_zapisuje_do_wskazanego_katalogu_nie_obok_zrodla() {
    let mut d = Dysk::z(&[
        ("/zrodlo/a.bin", &[0x00, 0x00, 0xAA, 0xFF]),
        ("/zrodlo/b.bin", &[0xBB, 0xCC, 0x00, 0x11]),
    ]);
    let (target, _) = d
        .napraw(&SpliceModule, "/zrodlo/a.bin", &czesciowy("bin"), Some("/zrodlo/b.bin"), "/wynik")
        .unwrap();
    assert!(target.starts_with("/wynik"), "{}", target);
    assert_eq!(d.pliki[&target], vec![0xBB, 0xCC, 0xAA, 0xFF]);
    assert_eq!(
        d.w_katalogu("/zrodlo"),
        vec!["/zrodlo/a.bin".to_string(), "/zrodlo/b.bin".to_string()]
    );
}

#[test]
fn test_repair_nie_zostawia_pliku_czesciowego_po_bledzie_io() {
    let mut d = Dysk::z(&[("/a/plik.bin", &vec![1u8; 10_000])]);
    d.nieczytelne.insert("/a/podkatalog".to_string());
    let wynik =
        d.napraw(&SpliceModule, "/a/plik.bin", &czesciowy("bin"), Some("/a/podkatalog"), "/a");
    assert!(wynik.is_none(), "Błąd I/O musi dać None");
    assert!(!d.pliki.contains_key("/a/plik_spliced.bin"));
}

// ---------------------------------------------------------------------------
// Databases
// ---------------------------------------------------------------------------

#[test]
fn test_repair_returns_none_without_wal_file() {
    let mut d = Dysk::z(&[("/a/baza.db", b"baza")]);
    assert!(d.napraw(&SqliteModule, "/a/baza.db", &ctx("db"), None, "/a").is_none());
}

#[test]
fn test_repair_merges_wal_when_present() {
    let mut d = Dysk::z(&[("/a/baza.db", b"baza"), ("/a/baza.db-wal", b"+wal")]);
    let (target, _log) = d.napraw(&SqliteModule, "/a/baza.db", &ctx("db"), None, "/a").unwrap();
    assert_eq!(target, "/a/baza_repaired.db");
    assert_eq!(d.pliki[&target], b"baza+wal");
    assert!(!d.pliki.contains_key("/a/baza_repaired.db-wal"));
}

#[test]
fn sqlite_test_zapisuje_do_wskazanego_katalogu_nie_obok_zrodla() {
    let mut d = Dysk::z(&[("/zrodlo/baza.db", b"baza"), ("/zrodlo/baza.db-wal", b"+wal")]);
    let (target, _) = d.napraw(&SqliteModule, "/zrodlo/baza.db", &ctx("db"), None, "/wynik").unwrap();
    assert!(target.starts_with("/wynik"), "{}", target);
    let w_zrodle = d.w_katalogu("/zrodlo");
    assert!(w_zrodle.iter().all(|n| n.starts_with("/zrodlo/baza.db")), "{:?}", w_zrodle);
    assert!(!w_zrodle.iter().any(|n| n.contains("_repaired")), "{:?}", w_zrodle);
}

#[test]
fn domyslna_weryfikacja_oglada_naglowek_riff() {
    for nazwa in ["a.wav", "a.avi", "a.WAV"] {
        assert!(weryfikuj_tresc(nazwa, b"to nie RIFF!").is_err());
        assert!(weryfikuj_tresc(nazwa, b"RIFF....").is_err());
        assert!(weryfikuj_tresc(nazwa, b"RIFF....WEBP").is_err());
    }
    let w = weryfikuj_tresc("a.wav", b"RIFF....WAVEfmt ").unwrap();
    assert!(w.contains("gwarancja SŁABA") && !w.contains("MOCNA"));
    assert!(weryfikuj_tresc("a.avi", b"RIFF....AVI ").is_ok());
}

#[test]
fn domyslna_weryfikacja_oglada_guid_asf() {
    let guid =
        [0x30, 0x26, 0xB2, 0x75, 0x8E, 0x66, 0xCF, 0x11, 0xA6, 0xD9, 0, 0xAA, 0, 0x62, 0xCE, 0x6C];
    for nazwa in ["a.wmv", "a.wma"] {
        assert!(weryfikuj_tresc(nazwa, b"szesnascie bajtow").is_err());
        assert!(weryfikuj_tresc(nazwa, &guid[..15]).is_err());
        let w = weryfikuj_tresc(nazwa, &guid).unwrap();
        assert!(w.contains("gwarancja SŁABA") && !w.contains("MOCNA"));
    }
}

#[test]
fn domyslna_weryfikacja_oglada_poczatek_mp3() {
    assert!(weryfikuj_tresc("a.mp3", b"ani tag, ani ramka").is_err());
    assert!(weryfikuj_tresc("a.mp3", &[0xFF]).is_err());
    assert!(weryfikuj_tresc("a.mp3", &[0xFF, 0xDF]).is_err());
    assert!(weryfikuj_tresc("a.mp3", &[0xFF, 0xFB, 0x90, 0x00]).is_ok());
    let w = weryfikuj_tresc("a.mp3", b"ID3\x04").unwrap();
    assert!(w.contains("gwarancja SŁABA") && !w.contains("MOCNA"));
}

#[test]
fn odmowa_dekodera_ma_staly_poczatek() {
    let w = weryfikuj_tresc("a.png", b"to nie jest obraz").unwrap_err();
    let poczatek = "obraz nie daje się zdekodować: ";
    assert!(w.starts_with(poczatek) && w.len() > poczatek.len());
}
