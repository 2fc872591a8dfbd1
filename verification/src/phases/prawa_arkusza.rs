//! Laws of the sheet of phase 8: what stands under each heading.

use vstd::prelude::*;

use crate::binary64::Binary64;
use crate::euro_csv;
use crate::phases::phase8;
use crate::phases::phase8::FileRecord;
use crate::tekst;

verus! {

/// The headings, as a reader finds them in the first line of the sheet.
pub open spec fn naglowki() -> Seq<Seq<char>> {
    euro_csv::pola_wiersza(euro_csv::wiersz(phase8::kolumny()))
}

/// What a reader finds in the row of a record under the heading `n`.
pub open spec fn komorka(r: FileRecord, e: (Seq<char>, Seq<char>, Seq<char>), n: Seq<char>) -> Seq<
    char,
> {
    euro_csv::pola_wiersza(euro_csv::wiersz(phase8::pola(r, e)))[naglowki().index_of(n)]
}

/// A yes or no in words.
pub open spec fn slowo(o: Option<bool>) -> Seq<char> {
    if o == Some(true) {
        "Tak"@
    } else if o == Some(false) {
        "Nie"@
    } else {
        "Brak"@
    }
}

/// A whole number in decimal digits.
pub open spec fn liczba(o: Option<i64>) -> Seq<char> {
    if o is None {
        "Brak"@
    } else if o->0 < 0 {
        seq!['-'] + tekst::dziesietny((-(o->0 as int)) as nat)
    } else {
        tekst::dziesietny(o->0 as nat)
    }
}

/// A text as it is.
pub open spec fn napis(o: Option<String>) -> Seq<char> {
    if o is Some {
        o->0@
    } else {
        "Brak"@
    }
}

/// A number of two decimal places with a comma for its point.
pub open spec fn ulamek(o: Option<Binary64>) -> Seq<char> {
    if o is Some {
        o->0.zapis(2).map_values(|c: char| if c == '.' { ',' } else { c })
    } else {
        "Brak"@
    }
}

/// The programs that brought a file back.
pub open spec fn miejsce(ufs: bool, skrypt: bool) -> Seq<char> {
    match (ufs, skrypt) {
        (true, true) => "Oba"@,
        (true, false) => "UFS"@,
        (false, true) => "Skrypt"@,
        (false, false) => "Brak"@,
    }
}

/// What tells one heading from another: its length and its outer characters.
spec fn cecha(t: Seq<char>) -> int {
    t.len() + 1000 * (t[0] as int) + 10000000 * (t.last() as int)
}

/// Every heading has its own mark.
proof fn cechy()
    ensures
        cecha(phase8::kolumny()[0]) == 970083007,
        cecha(phase8::kolumny()[1]) == 970076007,
        cecha(phase8::kolumny()[2]) == 830082011,
        cecha(phase8::kolumny()[3]) == 1160082014,
        cecha(phase8::kolumny()[4]) == 1170090017,
        cecha(phase8::kolumny()[5]) == 830072008,
        cecha(phase8::kolumny()[6]) == 1160072011,
        cecha(phase8::kolumny()[7]) == 1040090013,
        cecha(phase8::kolumny()[8]) == 1160080022,
        cecha(phase8::kolumny()[9]) == 1160090012,
        cecha(phase8::kolumny()[10]) == 1160090015,
        cecha(phase8::kolumny()[11]) == 830069007,
        cecha(phase8::kolumny()[12]) == 1160069010,
        cecha(phase8::kolumny()[13]) == 830069012,
        cecha(phase8::kolumny()[14]) == 1160069015,
        cecha(phase8::kolumny()[15]) == 830085008,
        cecha(phase8::kolumny()[16]) == 1160085011,
        cecha(phase8::kolumny()[17]) == 830083013,
        cecha(phase8::kolumny()[18]) == 1160083016,
        cecha(phase8::kolumny()[19]) == 830069008,
        cecha(phase8::kolumny()[20]) == 1160069011,
        cecha(phase8::kolumny()[21]) == 830079009,
        cecha(phase8::kolumny()[22]) == 1160079012,
        cecha(phase8::kolumny()[23]) == 830088009,
        cecha(phase8::kolumny()[24]) == 1160088012,
        cecha(phase8::kolumny()[25]) == 830066011,
        cecha(phase8::kolumny()[26]) == 1160066014,
        cecha(phase8::kolumny()[27]) == 650082011,
        cecha(phase8::kolumny()[28]) == 830083022,
        cecha(phase8::kolumny()[29]) == 1160083025,
        cecha(phase8::kolumny()[30]) == 830076015,
        cecha(phase8::kolumny()[31]) == 1160076018,
        cecha(phase8::kolumny()[32]) == 1210083016,
        cecha(phase8::kolumny()[33]) == 970082020,
{
    reveal_strlit("Sciezka");
    reveal_strlit("Lokacja");
    reveal_strlit("Rozmiar_UFS");
    reveal_strlit("Rozmiar_Skrypt");
    reveal_strlit("Zgodnosc_Rozmiaru");
    reveal_strlit("Hash_UFS");
    reveal_strlit("Hash_Skrypt");
    reveal_strlit("Zgodnosc_Hash");
    reveal_strlit("Podobienstwo_Fuzzy_Pct");
    reveal_strlit("Zera_UFS_Pct");
    reveal_strlit("Zera_Skrypt_Pct");
    reveal_strlit("EOF_UFS");
    reveal_strlit("EOF_Skrypt");
    reveal_strlit("Entropia_UFS");
    reveal_strlit("Entropia_Skrypt");
    reveal_strlit("UTF8_UFS");
    reveal_strlit("UTF8_Skrypt");
    reveal_strlit("Struktura_UFS");
    reveal_strlit("Struktura_Skrypt");
    reveal_strlit("EXIF_UFS");
    reveal_strlit("EXIF_Skrypt");
    reveal_strlit("Obraz_UFS");
    reveal_strlit("Obraz_Skrypt");
    reveal_strlit("Xattr_UFS");
    reveal_strlit("Xattr_Skrypt");
    reveal_strlit("Blad_IO_UFS");
    reveal_strlit("Blad_IO_Skrypt");
    reveal_strlit("Regula_YARA");
    reveal_strlit("Sciezka_Naprawiona_UFS");
    reveal_strlit("Sciezka_Naprawiona_Skrypt");
    reveal_strlit("Log_Naprawy_UFS");
    reveal_strlit("Log_Naprawy_Skrypt");
    reveal_strlit("Status_Decyzyjny");
    reveal_strlit("Rekomendacja_Silnika");
}

/// No heading stands twice.
pub proof fn naglowki_sa_rozne(i: int, j: int)
    requires
        0 <= i < j < phase8::kolumny().len(),
    ensures
        phase8::kolumny()[i] != phase8::kolumny()[j],
{
    cechy();
}

/// The value in the row at the place of a heading stands under that heading.
proof fn pod_nazwa(r: FileRecord, e: (Seq<char>, Seq<char>, Seq<char>), i: int)
    requires
        0 <= i < 34,
    ensures
        komorka(r, e, phase8::kolumny()[i]) == phase8::pola(r, e)[i],
{
    euro_csv::wiersz_wraca_bez_strat(phase8::kolumny());
    euro_csv::wiersz_wraca_bez_strat(phase8::pola(r, e));
    let n = phase8::kolumny()[i];
    let j = naglowki().index_of(n);
    assert(naglowki()[i] == n);
    assert(naglowki().contains(n));
    if j < i {
        naglowki_sa_rozne(j, i);
    } else if i < j {
        naglowki_sa_rozne(i, j);
    }
}

/// Under every heading of the sheet a reader finds what the heading says: under
/// `Zera_UFS_Pct` the share of zeros of the UFS copy, under `Zera_Skrypt_Pct` that
/// of the script's, and so on for all of them.
pub proof fn kazda_wartosc_pod_swoja_nazwa(
    r: FileRecord,
    e: (Seq<char>, Seq<char>, Seq<char>),
)
    ensures
        komorka(r, e, "Sciezka"@) == r.relative_path@,
        komorka(r, e, "Lokacja"@) == miejsce(r.found_in_ufs, r.found_in_script),
        komorka(r, e, "Rozmiar_UFS"@) == liczba(r.size_ufs),
        komorka(r, e, "Rozmiar_Skrypt"@) == liczba(r.size_script),
        komorka(r, e, "Zgodnosc_Rozmiaru"@) == slowo(r.size_match),
        komorka(r, e, "Hash_UFS"@) == napis(r.hash_ufs),
        komorka(r, e, "Hash_Skrypt"@) == napis(r.hash_script),
        komorka(r, e, "Zgodnosc_Hash"@) == slowo(r.hash_match),
        komorka(r, e, "Podobienstwo_Fuzzy_Pct"@) == ulamek(r.fuzzy_match_pct),
        komorka(r, e, "Zera_UFS_Pct"@) == ulamek(r.zeros_pct_ufs),
        komorka(r, e, "Zera_Skrypt_Pct"@) == ulamek(r.zeros_pct_script),
        komorka(r, e, "EOF_UFS"@) == slowo(r.eof_ok_ufs),
        komorka(r, e, "EOF_Skrypt"@) == slowo(r.eof_ok_script),
        komorka(r, e, "Entropia_UFS"@) == ulamek(r.entropy_ufs),
        komorka(r, e, "Entropia_Skrypt"@) == ulamek(r.entropy_script),
        komorka(r, e, "UTF8_UFS"@) == slowo(r.utf8_ok_ufs),
        komorka(r, e, "UTF8_Skrypt"@) == slowo(r.utf8_ok_script),
        komorka(r, e, "Struktura_UFS"@) == slowo(r.structure_ok_ufs),
        komorka(r, e, "Struktura_Skrypt"@) == slowo(r.structure_ok_script),
        komorka(r, e, "EXIF_UFS"@) == slowo(r.exif_ok_ufs),
        komorka(r, e, "EXIF_Skrypt"@) == slowo(r.exif_ok_script),
        komorka(r, e, "Obraz_UFS"@) == slowo(r.media_decoded_ufs),
        komorka(r, e, "Obraz_Skrypt"@) == slowo(r.media_decoded_script),
        komorka(r, e, "Xattr_UFS"@) == slowo(r.has_xattr_ufs),
        komorka(r, e, "Xattr_Skrypt"@) == slowo(r.has_xattr_script),
        komorka(r, e, "Blad_IO_UFS"@) == slowo(r.io_error_ufs),
        komorka(r, e, "Blad_IO_Skrypt"@) == slowo(r.io_error_script),
        komorka(r, e, "Regula_YARA"@) == e.2,
        komorka(r, e, "Sciezka_Naprawiona_UFS"@) == napis(r.repaired_path_ufs),
        komorka(r, e, "Sciezka_Naprawiona_Skrypt"@) == napis(r.repaired_path_script),
        komorka(r, e, "Log_Naprawy_UFS"@) == napis(r.repair_log_ufs),
        komorka(r, e, "Log_Naprawy_Skrypt"@) == napis(r.repair_log_script),
        komorka(r, e, "Status_Decyzyjny"@) == e.0,
        komorka(r, e, "Rekomendacja_Silnika"@) == e.1,
{
    pod_nazwa(r, e, 0);
    pod_nazwa(r, e, 1);
    pod_nazwa(r, e, 2);
    pod_nazwa(r, e, 3);
    pod_nazwa(r, e, 4);
    pod_nazwa(r, e, 5);
    pod_nazwa(r, e, 6);
    pod_nazwa(r, e, 7);
    pod_nazwa(r, e, 8);
    pod_nazwa(r, e, 9);
    pod_nazwa(r, e, 10);
    pod_nazwa(r, e, 11);
    pod_nazwa(r, e, 12);
    pod_nazwa(r, e, 13);
    pod_nazwa(r, e, 14);
    pod_nazwa(r, e, 15);
    pod_nazwa(r, e, 16);
    pod_nazwa(r, e, 17);
    pod_nazwa(r, e, 18);
    pod_nazwa(r, e, 19);
    pod_nazwa(r, e, 20);
    pod_nazwa(r, e, 21);
    pod_nazwa(r, e, 22);
    pod_nazwa(r, e, 23);
    pod_nazwa(r, e, 24);
    pod_nazwa(r, e, 25);
    pod_nazwa(r, e, 26);
    pod_nazwa(r, e, 27);
    pod_nazwa(r, e, 28);
    pod_nazwa(r, e, 29);
    pod_nazwa(r, e, 30);
    pod_nazwa(r, e, 31);
    pod_nazwa(r, e, 32);
    pod_nazwa(r, e, 33);
}

} // verus!
