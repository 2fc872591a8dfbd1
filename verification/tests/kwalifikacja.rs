use recovery_core::phases::repair_modules::archive::{TarSpliceModule, ZipSpliceModule};
use recovery_core::phases::repair_modules::asf::{jest_asf, AsfCloneModule};
use recovery_core::phases::repair_modules::dng::DngStructuralModule;
use recovery_core::phases::repair_modules::extension::{
    dobierz_rozszerzenie, extract_true_mime, ExtensionModule,
};
use recovery_core::phases::repair_modules::header_jpg::HeaderJpgModule;
use recovery_core::phases::repair_modules::header_png::HeaderPngModule;
use recovery_core::phases::repair_modules::header_raster::{
    ma_juz_sygnature, sygnatury_dla, HeaderRasterModule,
};
use recovery_core::phases::repair_modules::heic::{HeicCloneModule, HeicNativeModule};
use recovery_core::phases::repair_modules::jpeg::JpegCloneModule;
use recovery_core::phases::repair_modules::mkv::MkvCloneModule;
use recovery_core::phases::repair_modules::mp3::Mp3CloneModule;
use recovery_core::phases::repair_modules::mp4::{
    sciezka_wyniku, sciezka_wyniku_z_rozszerzeniem, Mp4CloneModule, Mp4NativeModule,
    Mp4RecontainerModule,
};
use recovery_core::phases::repair_modules::mp4_autopilot::Mp4AutopilotModule;
use recovery_core::phases::repair_modules::png::{PngCloneModule, PngSanitizeModule};
use recovery_core::phases::repair_modules::riff::{jest_riff, RiffCloneModule};
use recovery_core::phases::repair_modules::splice::SpliceModule;
use recovery_core::phases::repair_modules::sqlite::SqliteModule;
use recovery_core::phases::repair_modules::weryfikacja::{jest_heif, jest_matroska, jest_zip};
use recovery_core::phases::repair_modules::{all_modules, Modul, RepairContext, RepairModule};
use recovery_core::sciezka::rozszerzenie_pliku;

fn pusty(ext: &str) -> RepairContext<'_> {
    RepairContext {
        ext,
        media_reason: None,
        utf8_ok: None,
        is_oneliner: None,
        eof_ok: None,
        match_type: None,
        video_ok: None,
        structure_ok: None,
        media_decoded: None,
    }
}

fn ctx_archive(ext: &str, structure_ok: Option<bool>, eof_ok: Option<bool>) -> RepairContext<'_> {
    RepairContext { structure_ok, eof_ok, ..pusty(ext) }
}

fn ctx_asf<'a>(ext: &'a str, match_type: Option<&'a str>) -> RepairContext<'a> {
    RepairContext { match_type, ..pusty(ext) }
}

fn ctx_riff<'a>(ext: &'a str, match_type: Option<&'a str>) -> RepairContext<'a> {
    RepairContext { match_type, ..pusty(ext) }
}

fn ctx_mp3<'a>(ext: &'a str, match_type: Option<&'a str>) -> RepairContext<'a> {
    RepairContext { match_type, ..pusty(ext) }
}

fn ctx_dng<'a>(ext: &'a str, eof_ok: Option<bool>, media_reason: Option<&'a str>) -> RepairContext<'a> {
    RepairContext { eof_ok, media_reason, ..pusty(ext) }
}

fn ctx_heic<'a>(ext: &'a str, eof_ok: Option<bool>, media_reason: Option<&'a str>) -> RepairContext<'a> {
    RepairContext { eof_ok, media_reason, ..pusty(ext) }
}

fn ctx_jpeg<'a>(ext: &'a str, eof_ok: Option<bool>, media_reason: Option<&'a str>) -> RepairContext<'a> {
    RepairContext { eof_ok, media_reason, ..pusty(ext) }
}

fn ctx_png<'a>(ext: &'a str, eof_ok: Option<bool>, media_reason: Option<&'a str>) -> RepairContext<'a> {
    RepairContext { eof_ok, media_reason, ..pusty(ext) }
}

fn ctx_mkv(ext: &str, video_ok: Option<bool>, eof_ok: Option<bool>) -> RepairContext<'_> {
    RepairContext { video_ok, eof_ok, ..pusty(ext) }
}

fn ctx_mp4<'a>(
    ext: &'a str,
    video_ok: Option<bool>,
    eof_ok: Option<bool>,
    media_reason: Option<&'a str>,
) -> RepairContext<'a> {
    RepairContext { video_ok, eof_ok, media_reason, ..pusty(ext) }
}

fn ctx_mp4_autopilot(ext: &str, video_ok: Option<bool>) -> RepairContext<'_> {
    RepairContext { video_ok, ..pusty(ext) }
}

fn ctx_header_raster<'a>(ext: &'a str, media_reason: Option<&'a str>) -> RepairContext<'a> {
    RepairContext { media_reason, ..pusty(ext) }
}

fn dummy_ctx_splice(match_type: Option<&str>) -> RepairContext<'_> {
    RepairContext { match_type, ..pusty("bin") }
}

fn wszystkie() -> Vec<Modul> {
    vec![
        Modul::Mp4Native(Mp4NativeModule),
        Modul::Mp4Clone(Mp4CloneModule),
        Modul::Mp4Recontainer(Mp4RecontainerModule { ffmpeg: true }),
    ]
}

fn pozycja(id: &str) -> usize {
    all_modules(true)
        .iter()
        .position(|m| m.id() == id)
        .unwrap_or_else(|| panic!("moduł {} musi być zarejestrowany", id))
}

const POWOD_FAZY_13: &str =
    "Nie udało się zdekodować pliku RAW/DNG (uszkodzony lub nierozpoznany model aparatu)";

#[test]
fn test_zip_obejmuje_cala_rodzine_formatow() {
    for ext in ["zip", "docx", "xlsx", "pptx", "odt", "ods", "odp", "epub", "jar", "apk"] {
        assert!(
            ZipSpliceModule.applies_to(&ctx_archive(ext, Some(false), None)),
            ".{} jest kontenerem ZIP i musi być objęte", ext
        );
    }
}

#[test]
fn test_kwalifikacja_po_wyniku_fazy_11_i_po_ucieciu() {
    assert!(ZipSpliceModule.applies_to(&ctx_archive("zip", Some(false), None)), "structure_ok = false");
    assert!(ZipSpliceModule.applies_to(&ctx_archive("zip", None, Some(false))), "eof_ok = false (plik ucięty)");
    assert!(TarSpliceModule.applies_to(&ctx_archive("tar", Some(false), None)));
    assert!(TarSpliceModule.applies_to(&ctx_archive("tar", None, Some(false))));
}

#[test]
fn test_zdrowe_archiwa_nie_sa_ruszane() {
    assert!(!ZipSpliceModule.applies_to(&ctx_archive("zip", Some(true), Some(true))));
    assert!(!ZipSpliceModule.applies_to(&ctx_archive("zip", None, None)), "bez przesłanki uszkodzenia nie dotykamy pliku");
    assert!(!TarSpliceModule.applies_to(&ctx_archive("tar", Some(true), Some(true))));
    assert!(!TarSpliceModule.applies_to(&ctx_archive("tar", None, None)));
}

#[test]
fn test_moduly_nie_zachodza_na_siebie_ani_na_inne_formaty() {
    assert!(!TarSpliceModule.applies_to(&ctx_archive("zip", Some(false), None)), "tar nie obsługuje ZIP-a");
    assert!(!ZipSpliceModule.applies_to(&ctx_archive("tar", Some(false), None)), "ZIP nie obsługuje tara");

    for ext in ["jpg", "png", "heic", "mp4", "dng", "txt", "gz", "7z", "rar"] {
        assert!(!ZipSpliceModule.applies_to(&ctx_archive(ext, Some(false), None)), "ext .{}", ext);
        assert!(!TarSpliceModule.applies_to(&ctx_archive(ext, Some(false), None)), "ext .{}", ext);
    }
}

#[test]
fn archive_test_lista_rozszerzen_pochodzi_z_silnika() {
    for ext in ["zip", "docx", "apk", "jpg", "tar", "txt"] {
        assert_eq!(
            ZipSpliceModule.applies_to(&ctx_archive(ext, Some(false), None)),
            jest_zip(ext),
            "rozbieżność dla .{}", ext
        );
    }
}

#[test]
fn test_oba_stoja_przed_splice() {
    let ids: Vec<&str> = all_modules(true).iter().map(|m| m.id()).collect();
    let poz = |id: &str| ids.iter().position(|x| *x == id)
        .unwrap_or_else(|| panic!("moduł {} musi być zarejestrowany (kolejność: {:?})", id, ids));

    assert!(
        poz("zip_splice") < poz("splice"),
        "bajtowe zszycie nie zna struktury archiwum i nie może wyprzedzać składania po wpisach: {:?}", ids
    );
    assert!(poz("tar_splice") < poz("splice"), "kolejność: {:?}", ids);
}

#[test]
fn test_obejmuje_wmv_i_wma() {
    for ext in ["wmv", "wma"] {
        assert!(
            AsfCloneModule.applies_to(&ctx_asf(ext, Some("PARTIAL"))),
            ".{} to kontener ASF i musi być objęte", ext
        );
    }
}

#[test]
fn asf_test_kwalifikacja_wylacznie_po_match_type_partial() {
    assert!(AsfCloneModule.applies_to(&ctx_asf("wmv", Some("PARTIAL"))));
    assert!(!AsfCloneModule.applies_to(&ctx_asf("wmv", Some("FULL"))), "inny match_type nie kwalifikuje");
    assert!(!AsfCloneModule.applies_to(&ctx_asf("wmv", None)), "brak match_type nie kwalifikuje");
}

#[test]
fn asf_test_nie_rusza_innych_formatow() {
    for ext in ["mp3", "mkv", "mp4", "jpg", "png", "zip", "wav", "avi"] {
        assert!(!AsfCloneModule.applies_to(&ctx_asf(ext, Some("PARTIAL"))), "ext .{}", ext);
    }
}

#[test]
fn asf_test_lista_rozszerzen_pochodzi_z_silnika() {
    for ext in ["wmv", "wma", "mp4", "zip"] {
        assert_eq!(
            AsfCloneModule.applies_to(&ctx_asf(ext, Some("PARTIAL"))),
            jest_asf(ext),
            "rozbieżność dla .{}", ext
        );
    }
}

#[test]
fn asf_test_stoi_przed_splice() {
    let ids: Vec<&str> = all_modules(true).iter().map(|m| m.id()).collect();
    let poz = |id: &str| ids.iter().position(|x| *x == id)
        .unwrap_or_else(|| panic!("moduł {} musi być zarejestrowany (kolejność: {:?})", id, ids));

    assert!(
        poz("asf_clone") < poz("splice"),
        "bajtowe zszycie nie zna struktury ASF i nie może wyprzedzać składania po obiektach: {:?}", ids
    );
}

#[test]
fn asf_test_nazwa_modulu_ujawnia_sile_gwarancji() {
    assert!(AsfCloneModule.display_name().contains("SŁABA"), "nazwa: {}", AsfCloneModule.display_name());
}

#[test]
fn test_kwalifikuje_po_powodzie_z_fazy_13() {
    assert!(
        DngStructuralModule.applies_to(&ctx_dng("dng", None, Some(POWOD_FAZY_13))),
        "moduł musi reagować na dokładnie ten komunikat, który zapisuje Faza 13"
    );
}

#[test]
fn test_kwalifikuje_po_braku_znacznika_konca() {
    assert!(DngStructuralModule.applies_to(&ctx_dng("dng", Some(false), None)));
}

#[test]
fn test_kwalifikuje_po_nieudanym_dekodowaniu_z_fazy13() {
    let kontekst = RepairContext {
        ext: "dng", media_reason: None, utf8_ok: None, is_oneliner: None,
        eof_ok: None, match_type: None, video_ok: None, structure_ok: None,
        media_decoded: Some(false),
    };
    assert!(DngStructuralModule.applies_to(&kontekst));
}

#[test]
fn test_nie_rusza_zdrowego_dng() {
    assert!(!DngStructuralModule.applies_to(&ctx_dng("dng", Some(true), None)));
    assert!(!DngStructuralModule.applies_to(&ctx_dng("dng", None, None)), "bez przesłanki uszkodzenia nie dotykamy pliku");
}

#[test]
fn test_obejmuje_tylko_rodzine_tiff() {
    for ext in ["cr3", "raf", "jpg", "png", "heic"] {
        assert!(
            !DngStructuralModule.applies_to(&ctx_dng(ext, Some(false), Some(POWOD_FAZY_13))),
            "ext .{} nie jest RAW-em na kontenerze TIFF - parser IFD nie ma po nim jak chodzić", ext
        );
    }
}

#[test]
fn dng_test_stoi_przed_splice() {
    let ids: Vec<&str> = all_modules(true).iter().map(|m| m.id()).collect();
    let i_dng = ids.iter().position(|id| *id == "dng_structural").expect("dng_structural musi być zarejestrowany");
    let i_splice = ids.iter().position(|id| *id == "splice").expect("splice musi być zarejestrowany");

    assert!(
        i_dng < i_splice,
        "bajtowe zszycie nie zna struktury TIFF/IFD i nie może wyprzedzać składania strukturalnego (kolejność: {:?})",
        ids
    );
}

#[test]
fn dng_test_nazwa_modulu_ujawnia_sile_gwarancji() {
    assert!(
        DngStructuralModule.display_name().contains("SŁABA"),
        "nazwa: {}", DngStructuralModule.display_name()
    );
}

#[test]
fn test_bramka_obejmuje_cala_rodzine_tiff() {
    for ext in ["dng", "nef", "cr2", "arw", "orf", "pef", "srw", "rw2"] {
        let k = RepairContext {
            ext, media_reason: None, utf8_ok: None, is_oneliner: None,
            eof_ok: Some(false), match_type: None, video_ok: None, structure_ok: None, media_decoded: None,
        };
        assert!(
            DngStructuralModule.applies_to(&k),
            ".{} jest RAW-em na kontenerze TIFF i musi być obsługiwany", ext
        );
    }
}

#[test]
fn test_bramka_pomija_formaty_spoza_kontenera_tiff() {
    for ext in ["cr3", "raf", "jpg", "mp4"] {
        let k = RepairContext {
            ext, media_reason: None, utf8_ok: None, is_oneliner: None,
            eof_ok: Some(false), match_type: None, video_ok: None, structure_ok: None, media_decoded: None,
        };
        assert!(!DngStructuralModule.applies_to(&k), ".{} nie powinien być obsługiwany", ext);
    }
}

#[test]
fn test_extract_true_mime_parses_reason_string() {
    assert_eq!(extract_true_mime("Fałszywe rozszerzenie (Wewnątrz to: video/mp4)"), Some("video/mp4".to_string()));
    assert_eq!(extract_true_mime("Fałszywe rozszerzenie (Wewnątrz to: image/png)"), Some("image/png".to_string()));
}

#[test]
fn test_extract_true_mime_returns_none_for_unrelated_text() {
    assert_eq!(extract_true_mime("Zniszczony Nagłówek (Brak Wymiarów X/Y)"), None);
}

#[test]
fn test_applies_to_fake_extension_reason_with_parseable_mime() {
    let m = ExtensionModule;
    let ctx = RepairContext { ext: "jpg", media_reason: Some("Fałszywe rozszerzenie (Wewnątrz to: video/mp4)"), utf8_ok: None, is_oneliner: None, eof_ok: None, match_type: None , video_ok: None, structure_ok: None, media_decoded: None };
    assert!(m.applies_to(&ctx));
}

#[test]
fn test_does_not_apply_without_fake_reason() {
    let m = ExtensionModule;
    let ctx = RepairContext { ext: "jpg", media_reason: Some("Zniszczony Nagłówek"), utf8_ok: None, is_oneliner: None, eof_ok: None, match_type: None , video_ok: None, structure_ok: None, media_decoded: None };
    assert!(!m.applies_to(&ctx));
}

#[test]
fn test_applies_to_jpg_with_header_reason() {
    let m = HeaderJpgModule;
    let ctx = RepairContext { ext: "jpg", media_reason: Some("Zniszczony Nagłówek (Brak Wymiarów X/Y)"), utf8_ok: None, is_oneliner: None, eof_ok: None, match_type: None , video_ok: None, structure_ok: None, media_decoded: None };
    assert!(m.applies_to(&ctx));
}

#[test]
fn test_does_not_apply_to_png() {
    let m = HeaderJpgModule;
    let ctx = RepairContext { ext: "png", media_reason: Some("Zniszczony Nagłówek"), utf8_ok: None, is_oneliner: None, eof_ok: None, match_type: None , video_ok: None, structure_ok: None, media_decoded: None };
    assert!(!m.applies_to(&ctx));
}

#[test]
fn test_does_not_apply_without_header_reason() {
    let m = HeaderJpgModule;
    let ctx = RepairContext { ext: "jpg", media_reason: Some("Fałszywe rozszerzenie"), utf8_ok: None, is_oneliner: None, eof_ok: None, match_type: None , video_ok: None, structure_ok: None, media_decoded: None };
    assert!(!m.applies_to(&ctx));
}

#[test]
fn test_applies_to_png_with_header_reason() {
    let m = HeaderPngModule;
    let ctx = RepairContext { ext: "png", media_reason: Some("Zniszczony Nagłówek (Brak Wymiarów X/Y)"), utf8_ok: None, is_oneliner: None, eof_ok: None, match_type: None , video_ok: None, structure_ok: None, media_decoded: None };
    assert!(m.applies_to(&ctx));
}

#[test]
fn test_does_not_apply_to_jpg() {
    let m = HeaderPngModule;
    let ctx = RepairContext { ext: "jpg", media_reason: Some("Zniszczony Nagłówek"), utf8_ok: None, is_oneliner: None, eof_ok: None, match_type: None , video_ok: None, structure_ok: None, media_decoded: None };
    assert!(!m.applies_to(&ctx));
}

#[test]
fn test_applies_to_png_gdy_faza13_nie_zdekodowala() {
    let m = HeaderPngModule;
    let ctx = RepairContext { ext: "png", media_reason: None, utf8_ok: None, is_oneliner: None, eof_ok: None, match_type: None, video_ok: None, structure_ok: None, media_decoded: Some(false) };
    assert!(m.applies_to(&ctx));
}

#[test]
fn test_stosuje_sie_do_czterech_formatow_przy_powodzie_naglowka() {
    let m = HeaderRasterModule;
    for ext in ["gif", "bmp", "tif", "tiff", "webp"] {
        assert!(
            m.applies_to(&ctx_header_raster(ext, Some("Zniszczony Nagłówek (Brak Wymiarów X/Y)"))),
            ".{} powinien być obsługiwany", ext
        );
    }
}

#[test]
fn test_nie_wchodzi_w_kompetencje_jpg_i_png() {
    let m = HeaderRasterModule;
    for ext in ["jpg", "jpeg", "png"] {
        assert!(!m.applies_to(&ctx_header_raster(ext, Some("Zniszczony Nagłówek"))));
    }
}

#[test]
fn test_stosuje_sie_gdy_faza13_nie_zdekodowala() {
    let m = HeaderRasterModule;
    let kontekst = RepairContext {
        ext: "bmp", media_reason: None, utf8_ok: None, is_oneliner: None,
        eof_ok: None, match_type: None, video_ok: None, structure_ok: None,
        media_decoded: Some(false),
    };
    assert!(m.applies_to(&kontekst));
}

#[test]
fn test_nie_stosuje_sie_bez_powodu_naglowkowego() {
    let m = HeaderRasterModule;
    assert!(!m.applies_to(&ctx_header_raster("gif", None)));
    assert!(
        !m.applies_to(&ctx_header_raster("gif", Some("Ucięty plik"))),
        "Inny rodzaj uszkodzenia nie jest zadaniem tego modułu"
    );
}

#[test]
fn test_rozpoznaje_oba_warianty_gif() {
    let w = sygnatury_dla("gif").unwrap();
    assert!(ma_juz_sygnature(&b"GIF89a reszta".to_vec(), &w));
    assert!(ma_juz_sygnature(&b"GIF87a reszta".to_vec(), &w), "Starszy wariant też jest poprawny");
    assert!(!ma_juz_sygnature(&b"cokolwiek innego".to_vec(), &w));
}

#[test]
fn test_rozpoznaje_oba_porzadki_bajtow_tiff() {
    let w = sygnatury_dla("tiff").unwrap();
    assert!(ma_juz_sygnature(&[0x49, 0x49, 0x2A, 0x00, 0x11].to_vec(), &w), "little-endian");
    assert!(ma_juz_sygnature(&[0x4D, 0x4D, 0x00, 0x2A, 0x11].to_vec(), &w), "big-endian");
}

#[test]
fn test_nieobslugiwane_rozszerzenie_nie_ma_sygnatur() {
    assert!(sygnatury_dla("mp4").is_none());
    assert!(sygnatury_dla("png").is_none());
}

#[test]
fn test_stosuje_sie_do_calej_rodziny_heif() {
    for ext in ["heic", "heif", "avif"] {
        assert!(
            HeicCloneModule.applies_to(&ctx_heic(ext, Some(false), None)),
            "rozszerzenie .{} musi być rozpoznane", ext
        );
    }
}

#[test]
fn heic_test_reaguje_na_powod_z_fazy12() {
    assert!(HeicCloneModule.applies_to(&ctx_heic("heic", None, Some("Zniszczony Nagłówek obrazu"))));
}

#[test]
fn test_reaguje_na_nieudane_dekodowanie_z_fazy13() {
    let kontekst = RepairContext {
        ext: "heic", media_reason: None, utf8_ok: None, is_oneliner: None,
        eof_ok: None, match_type: None, video_ok: None, structure_ok: None,
        media_decoded: Some(false),
    };
    assert!(HeicCloneModule.applies_to(&kontekst));
}

#[test]
fn test_nie_rusza_zdrowego_heic() {
    assert!(!HeicCloneModule.applies_to(&ctx_heic("heic", Some(true), None)));
    assert!(!HeicCloneModule.applies_to(&ctx_heic("heic", None, None)), "bez przesłanki uszkodzenia nie dotykamy pliku");
}

#[test]
fn heic_test_nie_rusza_innych_formatow() {
    for ext in ["jpg", "png", "mp4", "dng", "txt"] {
        assert!(
            !HeicCloneModule.applies_to(&ctx_heic(ext, Some(false), None)),
            "ext .{} nie należy do rodziny HEIF", ext
        );
    }
}

#[test]
fn test_rozpoznawanie_rozszerzen_pochodzi_z_heic_image() {
    for ext in ["heic", "heif", "avif"] {
        assert_eq!(
            jest_heif(ext),
            HeicCloneModule.applies_to(&ctx_heic(ext, Some(false), None)),
            "rozbieżność dla .{}", ext
        );
    }
}

#[test]
fn test_kolejnosc_clone_przed_native_przed_splice() {
    let ids: Vec<&str> = all_modules(true).iter().map(|m| m.id()).collect();
    let poz = |id: &str| ids.iter().position(|x| *x == id)
        .unwrap_or_else(|| panic!("moduł {} musi być zarejestrowany (kolejność: {:?})", id, ids));

    assert!(poz("heic_clone") < poz("heic_native"), "kolejność: {:?}", ids);
    assert!(poz("heic_native") < poz("splice"), "kolejność: {:?}", ids);
}

#[test]
fn test_oba_warianty_kwalifikuja_tak_samo() {
    for kontekst in [ctx_heic("heic", Some(false), None), ctx_heic("heif", None, Some("Nagłówek")), ctx_heic("jpg", Some(false), None)] {
        assert_eq!(
            HeicCloneModule.applies_to(&kontekst),
            HeicNativeModule.applies_to(&kontekst),
            "rozbieżna kwalifikacja dla .{}", kontekst.ext
        );
    }
}

#[test]
fn test_stosuje_sie_do_jpg_i_jpeg() {
    for ext in ["jpg", "jpeg"] {
        assert!(
            JpegCloneModule.applies_to(&ctx_jpeg(ext, Some(false), None)),
            "rozszerzenie .{} musi być rozpoznane", ext
        );
    }
}

#[test]
fn jpeg_test_reaguje_na_powod_z_fazy12() {
    assert!(JpegCloneModule.applies_to(&ctx_jpeg("jpg", None, Some("Zniszczony Nagłówek obrazu"))));
}

#[test]
fn test_nie_rusza_zdrowego_jpeg() {
    assert!(!JpegCloneModule.applies_to(&ctx_jpeg("jpg", Some(true), None)));
    assert!(!JpegCloneModule.applies_to(&ctx_jpeg("jpg", None, None)), "bez przesłanki uszkodzenia nie dotykamy pliku");
}

#[test]
fn jpeg_test_nie_rusza_innych_formatow() {
    for ext in ["png", "heic", "dng", "mp4", "txt"] {
        assert!(
            !JpegCloneModule.applies_to(&ctx_jpeg(ext, Some(false), None)),
            "ext .{} nie należy do tego modułu", ext
        );
    }
}

#[test]
fn test_stoi_przed_header_jpg_w_kolejce() {
    let ids: Vec<&str> = all_modules(true).iter().map(|m| m.id()).collect();
    let i_clone = ids.iter().position(|id| *id == "jpeg_clone").expect("jpeg_clone musi być zarejestrowany");
    let i_header = ids.iter().position(|id| *id == "header_jpg").expect("header_jpg musi być zarejestrowany");

    assert!(
        i_clone < i_header,
        "przeszczep prawdziwych tablic musi być próbowany przed wstrzyknięciem sztucznego nagłówka (kolejność: {:?})",
        ids
    );
}

#[test]
fn jpeg_test_stoi_przed_splice() {
    let ids: Vec<&str> = all_modules(true).iter().map(|m| m.id()).collect();
    let i_clone = ids.iter().position(|id| *id == "jpeg_clone").unwrap();
    let i_splice = ids.iter().position(|id| *id == "splice").expect("splice musi być zarejestrowany");
    assert!(i_clone < i_splice, "kolejność: {:?}", ids);
}

#[test]
fn test_obejmuje_cala_rodzine_matroski() {
    for ext in ["mkv", "webm", "mka"] {
        assert!(
            MkvCloneModule.applies_to(&ctx_mkv(ext, Some(false), None)),
            ".{} to kontener Matroska i musi być objęte", ext
        );
    }
}

#[test]
fn test_kwalifikacja_po_diagnozie_fazy_19_i_po_ucieciu() {
    assert!(MkvCloneModule.applies_to(&ctx_mkv("mkv", Some(false), None)), "video_ok = false");
    assert!(MkvCloneModule.applies_to(&ctx_mkv("mkv", None, Some(false))), "eof_ok = false");
}

#[test]
fn test_zdrowa_matroska_nie_jest_ruszana() {
    assert!(!MkvCloneModule.applies_to(&ctx_mkv("mkv", Some(true), Some(true))));
    assert!(!MkvCloneModule.applies_to(&ctx_mkv("mkv", None, None)), "bez przesłanki uszkodzenia nie dotykamy pliku");
}

#[test]
fn mkv_test_nie_rusza_innych_formatow() {
    for ext in ["mp4", "mov", "ts", "flv", "jpg", "png", "zip"] {
        assert!(!MkvCloneModule.applies_to(&ctx_mkv(ext, Some(false), None)), "ext .{}", ext);
    }
}

#[test]
fn mkv_test_lista_rozszerzen_pochodzi_z_silnika() {
    for ext in ["mkv", "webm", "mka", "mp4", "zip"] {
        assert_eq!(
            MkvCloneModule.applies_to(&ctx_mkv(ext, Some(false), None)),
            jest_matroska(ext),
            "rozbieżność dla .{}", ext
        );
    }
}

#[test]
fn mkv_test_stoi_przed_splice() {
    let ids: Vec<&str> = all_modules(true).iter().map(|m| m.id()).collect();
    let poz = |id: &str| ids.iter().position(|x| *x == id)
        .unwrap_or_else(|| panic!("moduł {} musi być zarejestrowany (kolejność: {:?})", id, ids));

    assert!(
        poz("mkv_clone") < poz("splice"),
        "bajtowe zszycie nie zna struktury EBML i nie może wyprzedzać składania po elementach: {:?}", ids
    );
}

#[test]
fn test_all_modules_nonempty() {
    assert!(!all_modules(true).is_empty());
}

#[test]
fn test_all_modules_have_unique_ids() {
    let modules = all_modules(true);
    let mut ids: Vec<&str> = modules.iter().map(|m| m.id()).collect();
    let original_len = ids.len();
    ids.sort_unstable();
    ids.dedup();
    assert_eq!(ids.len(), original_len, "Znaleziono zduplikowane id() modułów naprawczych");
}

#[test]
fn test_all_modules_have_nonempty_display_names() {
    for module in all_modules(true) {
        assert!(!module.display_name().is_empty(), "Moduł {} ma pusty display_name", module.id());
    }
}

#[test]
fn test_obejmuje_mp3() {
    assert!(Mp3CloneModule.applies_to(&ctx_mp3("mp3", Some("PARTIAL"))));
    assert!(Mp3CloneModule.applies_to(&ctx_mp3("MP3", Some("PARTIAL"))), "rozszerzenie bez rozróżniania wielkości liter");
}

#[test]
fn mp3_test_kwalifikacja_wylacznie_po_match_type_partial() {
    assert!(Mp3CloneModule.applies_to(&ctx_mp3("mp3", Some("PARTIAL"))));
    assert!(!Mp3CloneModule.applies_to(&ctx_mp3("mp3", Some("FULL"))), "inny match_type nie kwalifikuje");
    assert!(!Mp3CloneModule.applies_to(&ctx_mp3("mp3", None)), "brak match_type nie kwalifikuje");
}

#[test]
fn mp3_test_nie_rusza_innych_formatow() {
    for ext in ["wav", "wmv", "mkv", "mp4", "jpg", "png", "zip"] {
        assert!(!Mp3CloneModule.applies_to(&ctx_mp3(ext, Some("PARTIAL"))), "ext .{}", ext);
    }
}

#[test]
fn mp3_test_stoi_przed_splice() {
    let ids: Vec<&str> = all_modules(true).iter().map(|m| m.id()).collect();
    let poz = |id: &str| ids.iter().position(|x| *x == id)
        .unwrap_or_else(|| panic!("moduł {} musi być zarejestrowany (kolejność: {:?})", id, ids));

    assert!(
        poz("mp3_clone") < poz("splice"),
        "bajtowe zszycie nie zna struktury ramek MP3 i nie może wyprzedzać składania po ramkach: {:?}", ids
    );
}

#[test]
fn mp3_test_nazwa_modulu_ujawnia_sile_gwarancji() {
    assert!(Mp3CloneModule.display_name().contains("SŁABA"), "nazwa: {}", Mp3CloneModule.display_name());
}

#[test]
fn test_stosuje_sie_do_uszkodzonego_wideo_z_fazy19() {
    for m in wszystkie() {
        assert!(m.applies_to(&ctx_mp4("mp4", Some(false), None, None)), "{}", m.id());
    }
}

#[test]
fn test_stosuje_sie_do_wszystkich_rozszerzen_isobmff() {
    for ext in ["mp4", "mov", "m4v", "3gp", "3g2", "f4v"] {
        assert!(Mp4NativeModule.applies_to(&ctx_mp4(ext, Some(false), None, None)), "ext {}", ext);
    }
}

#[test]
fn test_kontenery_audio_sa_poza_zakresem() {
    for ext in ["m4a", "m4b"] {
        for m in wszystkie() {
            assert!(
                !m.applies_to(&ctx_mp4(ext, Some(false), Some(false), Some("Nagłówek"))),
                "{} nie może zgłaszać się do .{}", m.id(), ext
            );
        }
    }
}

#[test]
fn test_nie_rusza_zdrowego_wideo() {
    for m in wszystkie() {
        assert!(!m.applies_to(&ctx_mp4("mp4", Some(true), Some(true), None)), "{}", m.id());
        assert!(!m.applies_to(&ctx_mp4("mp4", None, None, None)), "{} bez diagnostyki", m.id());
    }
}

#[test]
fn mp4_test_nie_rusza_innych_formatow() {
    for ext in ["jpg", "mkv", "txt", "zip", "flv"] {
        assert!(!Mp4NativeModule.applies_to(&ctx_mp4(ext, Some(false), None, None)), "ext {}", ext);
    }
}

#[test]
fn test_sygnaly_zastepcze_gdy_faza19_nie_dzialala() {
    assert!(
        Mp4NativeModule.applies_to(&ctx_mp4("mp4", None, Some(false), None)),
        "eof_ok = false z Fazy 6 musi wystarczyć"
    );
    assert!(
        Mp4NativeModule.applies_to(&ctx_mp4("mp4", None, None, Some("Zniszczony Nagłówek obrazu"))),
        "powód z Fazy 12 zawierający Nagłówek musi wystarczyć"
    );
}

#[test]
fn test_identyfikatory_sa_rozne_i_opisowe() {
    let ids: Vec<&str> = wszystkie().iter().map(|m| m.id()).collect();
    assert_eq!(ids, vec!["mp4_native", "mp4_clone", "mp4_recontainer"]);

    for m in wszystkie() {
        assert!(!m.display_name().is_empty(), "{}", m.id());
    }
}

#[test]
fn test_kazdy_silnik_pisze_pod_wlasna_nazwa() {
    let zrodlo = "/korpus/foto/film.mp4";
    let katalog = "/praca/wynik";

    let native = sciezka_wyniku(zrodlo, katalog, "native").unwrap();
    let clone = sciezka_wyniku(zrodlo, katalog, "clone").unwrap();
    let recont = sciezka_wyniku(zrodlo, katalog, "recontainer").unwrap();

    assert_eq!(native, "/praca/wynik/film_repaired_native.mp4");
    assert_ne!(native, clone);
    assert_ne!(clone, recont);
    for p in [&native, &clone, &recont] {
        assert_eq!(rozszerzenie_pliku(p).as_deref(), Some("mp4"));
    }
}

#[test]
fn test_sciezka_wyniku_zachowuje_rozszerzenie_mov() {
    let p = sciezka_wyniku("/a/klip.mov", "/w", "clone").unwrap();
    assert_eq!(p, "/w/klip_repaired_clone.mov");
}

#[test]
fn test_surowy_strumien_kwalifikuje_sie_bez_przeslanki_uszkodzenia() {
    for ext in ["h264", "264", "avc"] {
        assert!(
            Mp4NativeModule.applies_to(&ctx_mp4(ext, None, None, None)),
            "surowy strumień .{} musi się kwalifikować", ext
        );
        assert!(!Mp4CloneModule.applies_to(&ctx_mp4(ext, None, None, None)), "clone/.{}", ext);
        assert!(!Mp4RecontainerModule { ffmpeg: true }.applies_to(&ctx_mp4(ext, None, None, None)), "recontainer/.{}", ext);
    }
}

#[test]
fn test_zero_donor_zawsze_produkuje_mp4() {
    let p = sciezka_wyniku_z_rozszerzeniem(
        "/korpus/wyciety.h264", "/w", "native", "mp4").unwrap();
    assert_eq!(p, "/w/wyciety_repaired_native.mp4");
}

#[test]
fn test_stosuje_sie_do_tej_samej_przeslanki_co_pozostale_silniki_mp4() {
    assert!(Mp4AutopilotModule.applies_to(&ctx_mp4_autopilot("mp4", Some(false))));
    assert!(!Mp4AutopilotModule.applies_to(&ctx_mp4_autopilot("mp4", Some(true))), "zdrowego wideo nie rusza");
    assert!(!Mp4AutopilotModule.applies_to(&ctx_mp4_autopilot("txt", Some(false))), "poza rozszerzeniami MP4 nie działa");
}

#[test]
fn test_identyfikator_i_nazwa_sa_stabilne_i_opisowe() {
    assert_eq!(Mp4AutopilotModule.id(), "mp4_autopilot");
    assert!(Mp4AutopilotModule.display_name().to_lowercase().contains("autopilot"));
}

#[test]
fn test_oba_moduly_kwalifikuja_uszkodzony_png() {
    let kontekst = ctx_png("png", Some(false), None);
    assert!(PngCloneModule.applies_to(&kontekst));
    assert!(PngSanitizeModule.applies_to(&kontekst));
}

#[test]
fn test_reaguja_na_powod_z_fazy12() {
    let kontekst = ctx_png("png", None, Some("Zniszczony Nagłówek obrazu"));
    assert!(PngCloneModule.applies_to(&kontekst));
    assert!(PngSanitizeModule.applies_to(&kontekst));
}

#[test]
fn test_nie_ruszaja_zdrowego_png() {
    assert!(!PngCloneModule.applies_to(&ctx_png("png", Some(true), None)));
    assert!(!PngSanitizeModule.applies_to(&ctx_png("png", None, None)));
}

#[test]
fn test_nie_ruszaja_innych_formatow() {
    for ext in ["jpg", "heic", "dng", "mp4", "txt"] {
        let kontekst = ctx_png(ext, Some(false), None);
        assert!(!PngCloneModule.applies_to(&kontekst), "ext .{}", ext);
        assert!(!PngSanitizeModule.applies_to(&kontekst), "ext .{}", ext);
    }
}

#[test]
fn test_kolejnosc_od_najpelniejszej_naprawy() {
    let ids: Vec<&str> = all_modules(true).iter().map(|m| m.id()).collect();

    assert!(
        pozycja("png_clone") < pozycja("png_sanitize"),
        "naprawa z dwóch kopii ratuje też fragmenty krytyczne, więc musi być próbowana pierwsza (kolejność: {:?})", ids
    );
    assert!(
        pozycja("png_sanitize") < pozycja("header_png"),
        "naprawa po fragmentach jest pełniejsza od wstrzyknięcia samej sygnatury (kolejność: {:?})", ids
    );
    assert!(
        pozycja("png_sanitize") < pozycja("splice"),
        "bajtowe zszycie nie zna struktury PNG i nie może wyprzedzać naprawy świadomej fragmentów (kolejność: {:?})", ids
    );
}

#[test]
fn test_obejmuje_wav_i_avi() {
    for ext in ["wav", "avi"] {
        assert!(
            RiffCloneModule.applies_to(&ctx_riff(ext, Some("PARTIAL"))),
            ".{} to kontener RIFF i musi być objęte", ext
        );
    }
}

#[test]
fn riff_test_kwalifikacja_wylacznie_po_match_type_partial() {
    assert!(RiffCloneModule.applies_to(&ctx_riff("wav", Some("PARTIAL"))));
    assert!(!RiffCloneModule.applies_to(&ctx_riff("wav", Some("FULL"))), "inny match_type nie kwalifikuje");
    assert!(!RiffCloneModule.applies_to(&ctx_riff("wav", None)), "brak match_type nie kwalifikuje");
}

#[test]
fn riff_test_nie_rusza_innych_formatow() {
    for ext in ["mp3", "mkv", "mp4", "jpg", "png", "zip"] {
        assert!(!RiffCloneModule.applies_to(&ctx_riff(ext, Some("PARTIAL"))), "ext .{}", ext);
    }
}

#[test]
fn riff_test_lista_rozszerzen_pochodzi_z_silnika() {
    for ext in ["wav", "avi", "mp4", "zip"] {
        assert_eq!(
            RiffCloneModule.applies_to(&ctx_riff(ext, Some("PARTIAL"))),
            jest_riff(ext),
            "rozbieżność dla .{}", ext
        );
    }
}

#[test]
fn riff_test_stoi_przed_splice() {
    let ids: Vec<&str> = all_modules(true).iter().map(|m| m.id()).collect();
    let poz = |id: &str| ids.iter().position(|x| *x == id)
        .unwrap_or_else(|| panic!("moduł {} musi być zarejestrowany (kolejność: {:?})", id, ids));

    assert!(
        poz("riff_clone") < poz("splice"),
        "bajtowe zszycie nie zna struktury RIFF i nie może wyprzedzać składania po fragmentach: {:?}", ids
    );
}

#[test]
fn riff_test_nazwa_modulu_ujawnia_sile_gwarancji() {
    assert!(RiffCloneModule.display_name().contains("SŁABA"), "nazwa: {}", RiffCloneModule.display_name());
}

#[test]
fn test_applies_to_partial_match() {
    let m = SpliceModule;
    assert!(m.applies_to(&dummy_ctx_splice(Some("PARTIAL"))));
}

#[test]
fn test_does_not_apply_to_other_match_types() {
    let m = SpliceModule;
    assert!(!m.applies_to(&dummy_ctx_splice(Some("TWIN"))));
    assert!(!m.applies_to(&dummy_ctx_splice(None)));
}

#[test]
fn test_applies_to_known_sqlite_extensions() {
    let m = SqliteModule;
    for ext in ["db", "sqlite", "sqlite3"] {
        let ctx = RepairContext { ext, media_reason: None, utf8_ok: None, is_oneliner: None, eof_ok: None, match_type: None , video_ok: None, structure_ok: None, media_decoded: None };
        assert!(m.applies_to(&ctx), "powinno pasować dla .{}", ext);
    }
}

#[test]
fn test_does_not_apply_to_unrelated_extension() {
    let m = SqliteModule;
    let ctx = RepairContext { ext: "txt", media_reason: None, utf8_ok: None, is_oneliner: None, eof_ok: None, match_type: None , video_ok: None, structure_ok: None, media_decoded: None };
    assert!(!m.applies_to(&ctx));
}


#[test]
fn test_recontainer_jest_bramkowany_dostepnoscia_ffmpeg() {
    let uszkodzony = ctx_mp4("mp4", Some(false), None, None);
    for dostepny in [true, false] {
        assert_eq!(Mp4RecontainerModule { ffmpeg: dostepny }.applies_to(&uszkodzony), dostepny);
    }
    assert!(Mp4CloneModule.applies_to(&uszkodzony), "clone nie zależy od ffmpeg");
    assert!(Mp4NativeModule.applies_to(&uszkodzony), "native nie zależy od ffmpeg");
}

#[test]
fn rejestr_w_calosci() {
    let ids: Vec<&str> = all_modules(false).iter().map(|m| m.id()).collect();
    assert_eq!(
        ids,
        vec![
            "heic_clone", "heic_native", "jpeg_clone", "png_clone", "png_sanitize",
            "dng_structural", "zip_splice", "tar_splice", "mkv_clone", "asf_clone", "riff_clone",
            "mp3_clone", "mp4_clone", "mp4_native", "mp4_recontainer", "mp4_autopilot", "splice",
            "sqlite", "header_jpg", "header_png", "header_raster", "extension",
        ]
    );
}

#[test]
fn rozszerzenia_z_typow() {
    for (mime, ext) in [
        ("video/mp4", Some("mp4")),
        ("image/png", Some("png")),
        ("application/zip", Some("zip")),
        ("application/octet-stream", None),
    ] {
        assert_eq!(dobierz_rozszerzenie(mime), ext, "{}", mime);
    }
}
