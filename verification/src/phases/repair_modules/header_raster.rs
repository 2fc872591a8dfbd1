//! GIF, BMP, TIFF and WEBP: injection of a lost signature.

use vstd::prelude::*;

use crate::bajty;
use crate::phases::phase8;
use crate::phases::repair_modules::cel;
use crate::phases::repair_modules::praca;
use crate::phases::repair_modules::praca::{
    Czynnosc, KrokNaprawy, KrokWeryfikacji, Naprawa, Nastepny, Ruch, Werdykt, Zdarzenie,
};
use crate::phases::repair_modules::weryfikacja;
use crate::phases::repair_modules;
use crate::phases::repair_modules::{RepairContext, RepairModule};
use crate::tekst;

verus! {

/// The signatures to try for an extension, the likeliest first. JPEG and PNG
/// have modules of their own.
pub open spec fn sygnatury(ext: Seq<char>) -> Option<Seq<Seq<u8>>> {
    if ext == "gif"@ {
        Some(
            seq![
                seq![0x47u8, 0x49u8, 0x46u8, 0x38u8, 0x39u8, 0x61u8],
                seq![0x47u8, 0x49u8, 0x46u8, 0x38u8, 0x37u8, 0x61u8],
            ],
        )
    } else if ext == "bmp"@ {
        Some(seq![seq![0x42u8, 0x4Du8]])
    } else if ext == "tif"@ || ext == "tiff"@ {
        Some(seq![seq![0x49u8, 0x49u8, 0x2Au8, 0x00u8], seq![0x4Du8, 0x4Du8, 0x00u8, 0x2Au8]])
    } else if ext == "webp"@ {
        Some(seq![seq![0x52u8, 0x49u8, 0x46u8, 0x46u8]])
    } else {
        None
    }
}

/// The bytes of each signature.
pub open spec fn ciagi(w: Seq<Vec<u8>>) -> Seq<Seq<u8>> {
    w.map_values(|v: Vec<u8>| v@)
}

/// A list of one signature.
fn jedna(a: Vec<u8>) -> (r: Vec<Vec<u8>>)
    ensures
        ciagi(r@) == seq![a@],
{
    let mut r: Vec<Vec<u8>> = Vec::new();
    r.push(a);
    assert(ciagi(r@) =~= seq![a@]);
    r
}

/// A list of two signatures.
fn dwie(a: Vec<u8>, b: Vec<u8>) -> (r: Vec<Vec<u8>>)
    ensures
        ciagi(r@) == seq![a@, b@],
{
    let mut r: Vec<Vec<u8>> = Vec::new();
    r.push(a);
    r.push(b);
    assert(ciagi(r@) =~= seq![a@, b@]);
    r
}

/// The signatures to try for an extension, the likeliest first.
pub fn sygnatury_dla(ext: &str) -> (r: Option<Vec<Vec<u8>>>)
    ensures
        match r {
            Some(w) => sygnatury(ext@) == Some(ciagi(w@)),
            None => sygnatury(ext@) is None,
        },
{
    if tekst::rowne(ext, "gif") {
        let a: Vec<u8> = vec![0x47u8, 0x49u8, 0x46u8, 0x38u8, 0x39u8, 0x61u8];
        let b: Vec<u8> = vec![0x47u8, 0x49u8, 0x46u8, 0x38u8, 0x37u8, 0x61u8];
        assert(a@ =~= seq![0x47u8, 0x49u8, 0x46u8, 0x38u8, 0x39u8, 0x61u8]);
        assert(b@ =~= seq![0x47u8, 0x49u8, 0x46u8, 0x38u8, 0x37u8, 0x61u8]);
        Some(dwie(a, b))
    } else if tekst::rowne(ext, "bmp") {
        let a: Vec<u8> = vec![0x42u8, 0x4Du8];
        assert(a@ =~= seq![0x42u8, 0x4Du8]);
        Some(jedna(a))
    } else if tekst::rowne(ext, "tif") || tekst::rowne(ext, "tiff") {
        let a: Vec<u8> = vec![0x49u8, 0x49u8, 0x2Au8, 0x00u8];
        let b: Vec<u8> = vec![0x4Du8, 0x4Du8, 0x00u8, 0x2Au8];
        assert(a@ =~= seq![0x49u8, 0x49u8, 0x2Au8, 0x00u8]);
        assert(b@ =~= seq![0x4Du8, 0x4Du8, 0x00u8, 0x2Au8]);
        Some(dwie(a, b))
    } else if tekst::rowne(ext, "webp") {
        let a: Vec<u8> = vec![0x52u8, 0x49u8, 0x46u8, 0x46u8];
        assert(a@ =~= seq![0x52u8, 0x49u8, 0x46u8, 0x46u8]);
        Some(jedna(a))
    } else {
        None
    }
}

/// The content starts with one of the signatures.
pub open spec fn ma_sygnature(b: Seq<u8>, warianty: Seq<Seq<u8>>) -> bool {
    exists|i: int| 0 <= i < warianty.len() && #[trigger] bajty::zaczyna_sie(b, warianty[i])
}

/// Whether the content starts with one of the signatures.
pub fn ma_juz_sygnature(b: &Vec<u8>, warianty: &Vec<Vec<u8>>) -> (r: bool)
    ensures
        r == ma_sygnature(b@, ciagi(warianty@)),
{
    let mut i: usize = 0;
    while i < warianty.len()
        invariant
            i <= warianty@.len(),
            forall|k: int| 0 <= k < i ==> !#[trigger] bajty::zaczyna_sie(b@, ciagi(warianty@)[k]),
        decreases warianty@.len() - i,
    {
        if bajty::zaczyna(b, &warianty[i]) {
            assert(bajty::zaczyna_sie(b@, ciagi(warianty@)[i as int]));
            return true;
        }
        i = i + 1;
    }
    false
}

/// The first position that holds `true`.
pub open spec fn pierwszy(s: Seq<bool>) -> Option<int>
    decreases s.len(),
{
    if s.len() == 0 {
        None
    } else if s[0] {
        Some(0)
    } else {
        match pierwszy(s.skip(1)) {
            Some(i) => Some(i + 1),
            None => None,
        }
    }
}

proof fn pierwszy_za(s: Seq<bool>, i: int)
    requires
        0 <= i < s.len(),
        s[i],
        forall|k: int| 0 <= k < i ==> !s[k],
    ensures
        pierwszy(s) == Some(i),
    decreases s.len(),
{
    if i > 0 {
        pierwszy_za(s.skip(1), i - 1);
    }
}

proof fn pierwszego_brak(s: Seq<bool>)
    requires
        forall|k: int| 0 <= k < s.len() ==> !s[k],
    ensures
        pierwszy(s) is None,
    decreases s.len(),
{
    if s.len() > 0 {
        pierwszego_brak(s.skip(1));
    }
}

/// The first variant that decodes.
pub fn pierwszy_udany(wyniki: &Vec<bool>) -> (r: Option<usize>)
    ensures
        match r {
            Some(i) => i < wyniki@.len() && pierwszy(wyniki@) == Some(i as int),
            None => pierwszy(wyniki@) is None,
        },
{
    let mut i: usize = 0;
    while i < wyniki.len()
        invariant
            i <= wyniki@.len(),
            forall|k: int| 0 <= k < i ==> !wyniki@[k],
        decreases wyniki@.len() - i,
    {
        if wyniki[i] {
            proof {
                pierwszy_za(wyniki@, i as int);
            }
            return Some(i);
        }
        i = i + 1;
    }
    proof {
        pierwszego_brak(wyniki@);
    }
    None
}

/// For each signature, whether the content decodes once it stands before it.
pub open spec fn dekodowania(warianty: Seq<Seq<u8>>, b: Seq<u8>) -> Seq<bool> {
    warianty.map_values(|w: Seq<u8>| weryfikacja::wymiary_obrazu(w + b) is Some)
}

/// For each signature, whether the content decodes once it stands before it.
pub fn dekoduj_warianty(warianty: &Vec<Vec<u8>>, b: &Vec<u8>) -> (r: Vec<bool>)
    ensures
        r@ == dekodowania(ciagi(warianty@), b@),
{
    let mut r: Vec<bool> = Vec::new();
    let mut i: usize = 0;
    while i < warianty.len()
        invariant
            i <= warianty@.len(),
            r@ == dekodowania(ciagi(warianty@), b@).take(i as int),
        decreases warianty@.len() - i,
    {
        let kandydat = bajty::poprzedzone(&warianty[i], b);
        let dekoduje = match weryfikacja::zdekoduj_obraz(&kandydat) {
            Ok(_) => true,
            Err(_) => false,
        };
        r.push(dekoduje);
        i = i + 1;
        assert(r@ =~= dekodowania(ciagi(warianty@), b@).take(i as int));
    }
    assert(r@ =~= dekodowania(ciagi(warianty@), b@));
    r
}

/// Bytes in upper-case hexadecimal, two digits each, with a space between.
pub open spec fn szesnastkowo(b: Seq<u8>) -> Seq<char>
    decreases b.len(),
{
    if b.len() == 0 {
        Seq::empty()
    } else if b.len() == 1 {
        tekst::szesnastkowy(b[0] as nat, 2, true)
    } else {
        szesnastkowo(b.drop_last()) + " "@ + tekst::szesnastkowy(b.last() as nat, 2, true)
    }
}

/// Bytes in upper-case hexadecimal, two digits each, with a space between.
pub fn zapisz_szesnastkowo(b: &Vec<u8>) -> (r: String)
    ensures
        r@ == szesnastkowo(b@),
{
    let mut s = String::new();
    let mut i: usize = 0;
    while i < b.len()
        invariant
            i <= b@.len(),
            s@ == szesnastkowo(b@.take(i as int)),
        decreases b@.len() - i,
    {
        assert(b@.take(i + 1).drop_last() =~= b@.take(i as int));
        if i > 0 {
            s.append(" ");
        }
        tekst::dopisz_szesnastkowo(&mut s, b[i] as u64, 2, true);
        i = i + 1;
        assert(s@ =~= szesnastkowo(b@.take(i as int)));
    }
    assert(b@.take(b@.len() as int) =~= b@);
    s
}

/// An extension of this module in upper case.
pub open spec fn oznaczenie(ext: Seq<char>) -> Seq<char> {
    if ext == "gif"@ {
        "GIF"@
    } else if ext == "bmp"@ {
        "BMP"@
    } else if ext == "tif"@ {
        "TIF"@
    } else if ext == "tiff"@ {
        "TIFF"@
    } else {
        "WEBP"@
    }
}

/// An extension of this module in upper case.
fn nazwa_formatu(ext: &str) -> (r: &'static str)
    ensures
        r@ == oznaczenie(ext@),
{
    if tekst::rowne(ext, "gif") {
        "GIF"
    } else if tekst::rowne(ext, "bmp") {
        "BMP"
    } else if tekst::rowne(ext, "tif") {
        "TIF"
    } else if tekst::rowne(ext, "tiff") {
        "TIFF"
    } else {
        "WEBP"
    }
}

/// The line for the log: the format and the signature that was put in.
pub open spec fn opis_sygnatury(ext: Seq<char>, s: Seq<u8>) -> Seq<char> {
    "Wstrzyknięto utraconą sygnaturę "@ + oznaczenie(ext) + " ("@ + szesnastkowo(s) + ")."@
}

/// The line for the log: the format and the signature that was put in.
pub fn opisz_sygnature(ext: &str, s: &Vec<u8>) -> (r: String)
    ensures
        r@ == opis_sygnatury(ext@, s@),
{
    let mut t = "Wstrzyknięto utraconą sygnaturę ".to_owned();
    t.append(nazwa_formatu(ext));
    t.append(" (");
    t.append(zapisz_szesnastkowo(s).as_str());
    t.append(").");
    t
}

/// What comes once it is known which variants decode: the first of them is
/// written, or nothing.
pub open spec fn po_dekodowaniu(
    zrodlo: Seq<char>,
    ext: Seq<char>,
    katalog: Seq<char>,
    warianty: Seq<Seq<u8>>,
    b: Seq<u8>,
    udane: Seq<bool>,
    h: Seq<Zdarzenie>,
) -> Nastepny<Naprawa> {
    match (pierwszy(udane), cel::cel(zrodlo, katalog, "_repaired"@, ext)) {
        (Some(i), Some(c)) => if h.len() < 2 {
            Nastepny::Ruch(Ruch::Zapisz(c, warianty[i] + b))
        } else if praca::powiodlo_sie(h[1]) {
            Nastepny::Koniec(Some((c, opis_sygnatury(ext, warianty[i]))))
        } else {
            Nastepny::Koniec(None)
        },
        _ => Nastepny::Koniec(None),
    }
}

/// The step that follows once it is known which variants decode.
pub fn zapisz_pierwszy(
    source: &str,
    ext: &str,
    katalog_wyjsciowy: &str,
    warianty: &Vec<Vec<u8>>,
    b: &Vec<u8>,
    udane: &Vec<bool>,
    h: &Vec<Zdarzenie>,
) -> (r: KrokNaprawy)
    requires
        udane@.len() == warianty@.len(),
    ensures
        r@ == po_dekodowaniu(
            source@,
            ext@,
            katalog_wyjsciowy@,
            ciagi(warianty@),
            b@,
            udane@,
            h@,
        ),
{
    match (
        pierwszy_udany(udane),
        cel::wyznacz_cel(source, katalog_wyjsciowy, "_repaired", ext),
    ) {
        (Some(i), Some(c)) => {
            if h.len() < 2 {
                KrokNaprawy::Wykonaj(Czynnosc::Zapisz(c, bajty::poprzedzone(&warianty[i], b)))
            } else if praca::udane(&h[1]) {
                KrokNaprawy::Koniec(Some((c, opisz_sygnature(ext, &warianty[i]))))
            } else {
                KrokNaprawy::Koniec(None)
            }
        },
        _ => KrokNaprawy::Koniec(None),
    }
}

/// Puts a signature before an image that has lost it, where it then decodes.
pub struct HeaderRasterModule;

impl RepairModule for HeaderRasterModule {
    open spec fn identyfikator(&self) -> Seq<char> {
        "header_raster"@
    }

    open spec fn nazwa(&self) -> Seq<char> {
        "Nagłówek GIF/BMP/TIFF/WEBP (wstrzyknięcie sygnatury)"@
    }

    open spec fn stosuje_sie(&self, ctx: &RepairContext<'_>) -> bool {
        sygnatury(ctx.ext@) is Some && (repair_modules::powod_zawiera(ctx, "Nagłówek"@)
            || ctx.media_decoded == Some(false))
    }

    open spec fn naprawa(
        &self,
        zrodlo: Seq<char>,
        ctx: &RepairContext<'_>,
        dawca: Option<Seq<char>>,
        katalog: Seq<char>,
        h: Seq<Zdarzenie>,
    ) -> Nastepny<Naprawa> {
        match sygnatury(ctx.ext@) {
            None => Nastepny::Koniec(None),
            Some(w) => if h.len() < 1 {
                Nastepny::Ruch(Ruch::Wczytaj(zrodlo))
            } else {
                match h[0] {
                    Zdarzenie::Bajty(Ok(b)) => if ma_sygnature(b@, w) {
                        Nastepny::Koniec(None)
                    } else {
                        po_dekodowaniu(zrodlo, ctx.ext@, katalog, w, b@, dekodowania(w, b@), h)
                    },
                    _ => Nastepny::Koniec(None),
                }
            },
        }
    }

    open spec fn weryfikacja(&self, plik: Seq<char>, h: Seq<Zdarzenie>) -> Nastepny<Werdykt> {
        weryfikacja::weryfikacja_pliku(plik, h)
    }

    open spec fn odmawia_dekoder(&self, plik: Seq<char>, h: Seq<Zdarzenie>) -> bool {
        weryfikacja::odmowa_dekodera(plik, h)
    }

    fn id(&self) -> (r: &'static str) {
        "header_raster"
    }

    fn display_name(&self) -> (r: &'static str) {
        "Nagłówek GIF/BMP/TIFF/WEBP (wstrzyknięcie sygnatury)"
    }

    fn applies_to(&self, ctx: &RepairContext<'_>) -> (r: bool) {
        sygnatury_dla(ctx.ext).is_some() && (repair_modules::powod_ma(ctx, "Nagłówek")
            || phase8::nie(ctx.media_decoded))
    }

    fn repair(
        &self,
        source: &str,
        ctx: &RepairContext<'_>,
        _twin: Option<&str>,
        katalog_wyjsciowy: &str,
        h: &Vec<Zdarzenie>,
    ) -> (r: KrokNaprawy) {
        let w = match sygnatury_dla(ctx.ext) {
            None => {
                return KrokNaprawy::Koniec(None);
            },
            Some(w) => w,
        };
        if h.len() < 1 {
            return KrokNaprawy::Wykonaj(Czynnosc::Wczytaj(source.to_owned()));
        }
        match &h[0] {
            Zdarzenie::Bajty(Ok(b)) => {
                if ma_juz_sygnature(b, &w) {
                    return KrokNaprawy::Koniec(None);
                }
                let udane = dekoduj_warianty(&w, b);
                zapisz_pierwszy(source, ctx.ext, katalog_wyjsciowy, &w, b, &udane, h)
            },
            _ => KrokNaprawy::Koniec(None),
        }
    }

    fn verify(&self, repaired: &str, _ctx: &RepairContext<'_>, h: &Vec<Zdarzenie>) -> (r:
        KrokWeryfikacji) {
        weryfikacja::weryfikuj_naprawiony_plik(repaired, h)
    }
}

} // verus!
