//! Laws of the verdict of phase 8: which finding decides.

use vstd::prelude::*;

use crate::binary64::Binary64;
use crate::phases::phase8;
use crate::phases::phase8::FileRecord;
use crate::phases::prawa_progow;

verus! {

/// What can be found on a file.
pub enum Znalezisko {
    Malware,
    Zlozenie,
    Naprawa,
    BladOdczytu,
    Wydmuszka,
    Obraz,
    Wideo,
    Utf8,
    Struktura,
    Exif,
    Eof,
    Szum,
    Pustka,
}

/// The priority of a finding: the lower number decides.
pub open spec fn pierwszenstwo(z: Znalezisko) -> int {
    match z {
        Znalezisko::Malware => 0,
        Znalezisko::Zlozenie => 1,
        Znalezisko::Naprawa => 2,
        Znalezisko::BladOdczytu => 3,
        Znalezisko::Wydmuszka => 4,
        Znalezisko::Obraz => 5,
        Znalezisko::Wideo => 6,
        Znalezisko::Utf8 => 7,
        Znalezisko::Struktura => 8,
        Znalezisko::Exif => 9,
        Znalezisko::Eof => 10,
        Znalezisko::Szum => 11,
        Znalezisko::Pustka => 12,
    }
}

/// The finding was made on one side at least; an error of reading only counts where
/// both copies have it.
pub open spec fn stwierdzone(r: FileRecord, z: Znalezisko) -> bool {
    match z {
        Znalezisko::Malware => r.yara_match_ufs is Some || r.yara_match_script is Some,
        Znalezisko::Zlozenie => r.smart_splice_path is Some,
        Znalezisko::Naprawa => r.repaired_path_ufs is Some || r.repaired_path_script is Some,
        Znalezisko::BladOdczytu => r.io_error_ufs == Some(true) && r.io_error_script == Some(true),
        Znalezisko::Wydmuszka => pusta(r.zeros_pct_ufs) || pusta(r.zeros_pct_script),
        Znalezisko::Obraz => r.media_decoded_ufs == Some(false) || r.media_decoded_script == Some(
            false,
        ),
        Znalezisko::Wideo => r.video_ok_ufs == Some(false) || r.video_ok_script == Some(false),
        Znalezisko::Utf8 => r.utf8_ok_ufs == Some(false) || r.utf8_ok_script == Some(false),
        Znalezisko::Struktura => r.structure_ok_ufs == Some(false) || r.structure_ok_script == Some(
            false,
        ),
        Znalezisko::Exif => r.exif_ok_ufs == Some(false) || r.exif_ok_script == Some(false),
        Znalezisko::Eof => r.eof_ok_ufs == Some(false) || r.eof_ok_script == Some(false),
        Znalezisko::Szum => zaszumiona(r.entropy_ufs) || zaszumiona(r.entropy_script),
        Znalezisko::Pustka => uboga(r.entropy_ufs) || uboga(r.entropy_script),
    }
}

/// More than 99 percent of a copy are zeros.
pub open spec fn pusta(zera: Option<Binary64>) -> bool {
    zera matches Some(x) && prawa_progow::ponad(x, 99000)
}

/// The entropy of a copy was measured above 7.995.
pub open spec fn zaszumiona(ent: Option<Binary64>) -> bool {
    ent matches Some(x) && prawa_progow::szum(x)
}

/// The entropy of a copy was measured strictly between 0 and 1.
pub open spec fn uboga(ent: Option<Binary64>) -> bool {
    ent matches Some(x) && prawa_progow::ponad(x, 0) && prawa_progow::pod(x, 1000)
}

/// The finding was made, and none that comes before it.
pub open spec fn rozstrzyga(r: FileRecord, z: Znalezisko) -> bool {
    &&& stwierdzone(r, z)
    &&& forall|y: Znalezisko|
        pierwszenstwo(y) < pierwszenstwo(z) ==> !#[trigger] stwierdzone(r, y)
}

/// Nothing was found on either copy.
pub open spec fn bez_znalezisk(r: FileRecord) -> bool {
    forall|y: Znalezisko| !#[trigger] stwierdzone(r, y)
}

/// The status that belongs to a finding.
pub open spec fn status(z: Znalezisko) -> Seq<char> {
    match z {
        Znalezisko::Malware => "ZAINFEKOWANY (MALWARE)"@,
        Znalezisko::Zlozenie => "ZREKONSTRUOWANY (SMART SPLICE)"@,
        Znalezisko::Naprawa => "ZREKONSTRUOWANY (NAPRAWIONY)"@,
        Znalezisko::BladOdczytu => "BŁĄD ODCZYTU (I/O)"@,
        Znalezisko::Wydmuszka => "USZKODZONY (WYDMUSZKA)"@,
        Znalezisko::Obraz => "USZKODZONY (UCIĘTY OBRAZ)"@,
        Znalezisko::Wideo => "USZKODZONY (KONTENER WIDEO)"@,
        Znalezisko::Utf8 => "USZKODZONY (BINARNY ŚMIEĆ)"@,
        Znalezisko::Struktura => "USZKODZONY (ZŁA STRUKTURA)"@,
        Znalezisko::Exif => "USZKODZONY (BŁĘDNY EXIF)"@,
        Znalezisko::Eof => "USZKODZONY (BRAK EOF)"@,
        Znalezisko::Szum => "PODEJRZANY (WYSOKA ENTROPIA)"@,
        Znalezisko::Pustka => "PODEJRZANY (NISKA ENTROPIA)"@,
    }
}

/// The advice that belongs to a finding, up to what the record adds to it.
pub open spec fn rada(z: Znalezisko) -> Seq<char> {
    match z {
        Znalezisko::Malware => "KWARANTANNA - Plik zawiera złośliwy kod lub notatkę hakerską!"@,
        Znalezisko::Zlozenie => "Użyć wersji złożonej (Smart Splice) - plik zrekonstruowany z fragmentów obu kopii"@,
        Znalezisko::Naprawa => "Użyć wersji zrekonstruowanej (.repaired) - "@,
        Znalezisko::BladOdczytu => "Odrzucić - Plik widmo. Fizyczne uszkodzenie sektorów."@,
        Znalezisko::Wydmuszka => "Odrzucić - plik wypełniony w >99% pustymi blokami"@,
        Znalezisko::Obraz => "Odrzucić - niedekodowalny obraz / wideo (Gray Banding)"@,
        Znalezisko::Wideo => "Odrzucić - "@,
        Znalezisko::Utf8 => "Odrzucić - plik rzekomo tekstowy zawiera niedozwolone znaki binarne"@,
        Znalezisko::Struktura => "Odrzucić - dokument/archiwum nie posiada kluczowej tablicy EOCD"@,
        Znalezisko::Exif => "Odrzucić - zdjęcie/wideo posiada zepsutą strukturę EXIF"@,
        Znalezisko::Eof => "Sprawdzić ręcznie - marker końca pliku zaginął. Ucięcie."@,
        Znalezisko::Szum => "Ostrzeżenie - skrajny stopień chaosu (Biały Szum)"@,
        Znalezisko::Pustka => "Ostrzeżenie - nienaturalnie niska złożoność (Pusta Pamięć)"@,
    }
}

/// The text of the UFS side, or else that of the script, or else `d`.
pub open spec fn najpierw_ufs(ufs: Option<String>, skrypt: Option<String>, d: Seq<char>) -> Seq<
    char,
> {
    if ufs is Some {
        ufs->0@
    } else if skrypt is Some {
        skrypt->0@
    } else {
        d
    }
}

/// What the record adds to the advice.
pub open spec fn dopisek(r: FileRecord, z: Znalezisko) -> Seq<char> {
    match z {
        Znalezisko::Naprawa => najpierw_ufs(
            r.repair_log_ufs,
            r.repair_log_script,
            "Zrekonstruowano plik"@,
        ),
        Znalezisko::Wideo => najpierw_ufs(
            r.video_reason_ufs,
            r.video_reason_script,
            "uszkodzona struktura kontenera wideo"@,
        ),
        _ => Seq::empty(),
    }
}

/// What the measurements of one side say, as numbers.
proof fn pomiary(zera: Option<Binary64>, ent: Option<Binary64>)
    ensures
        phase8::powyzej(phase8::pomiar(zera, 0), phase8::PROG_ZER) <==> pusta(zera),
        phase8::powyzej(
            phase8::pomiar(ent, phase8::ENTROPIA_NIEZNANA),
            phase8::PROG_SZUMU,
        ) <==> zaszumiona(ent),
        phase8::niemal_pusty(phase8::pomiar(ent, phase8::ENTROPIA_NIEZNANA)) <==> uboga(ent),
{
    let x = phase8::pomiar(ent, phase8::ENTROPIA_NIEZNANA);
    prawa_progow::progi_maja_swoje_wartosci();
    prawa_progow::zero_jest_zerem();
    vstd::arithmetic::power2::lemma_pow2_pos(1074);
    vstd::arithmetic::power2::lemma_pow2_pos(1023);
    prawa_progow::prog_calkowity(phase8::pomiar(zera, 0), phase8::PROG_ZER, 99);
    prawa_progow::prog_szumu(x);
    prawa_progow::prog_calkowity(x, phase8::PROG_PUSTKI, 1);
    prawa_progow::prog_calkowity(x, 0, 0);
}

/// The findings of a record, one by one.
proof fn po_kolei(r: FileRecord, z: Znalezisko)
    requires
        rozstrzyga(r, z),
    ensures
        pierwszenstwo(z) > 0 ==> !stwierdzone(r, Znalezisko::Malware),
        pierwszenstwo(z) > 1 ==> !stwierdzone(r, Znalezisko::Zlozenie),
        pierwszenstwo(z) > 2 ==> !stwierdzone(r, Znalezisko::Naprawa),
        pierwszenstwo(z) > 3 ==> !stwierdzone(r, Znalezisko::BladOdczytu),
        pierwszenstwo(z) > 4 ==> !stwierdzone(r, Znalezisko::Wydmuszka),
        pierwszenstwo(z) > 5 ==> !stwierdzone(r, Znalezisko::Obraz),
        pierwszenstwo(z) > 6 ==> !stwierdzone(r, Znalezisko::Wideo),
        pierwszenstwo(z) > 7 ==> !stwierdzone(r, Znalezisko::Utf8),
        pierwszenstwo(z) > 8 ==> !stwierdzone(r, Znalezisko::Struktura),
        pierwszenstwo(z) > 9 ==> !stwierdzone(r, Znalezisko::Exif),
        pierwszenstwo(z) > 10 ==> !stwierdzone(r, Znalezisko::Eof),
        pierwszenstwo(z) > 11 ==> !stwierdzone(r, Znalezisko::Szum),
{
}

/// The first finding in the order of priority gives the status and the advice,
/// whatever was found further down. Only malware names a rule.
pub proof fn pierwsze_znalezisko_rozstrzyga(r: FileRecord, z: Znalezisko)
    requires
        rozstrzyga(r, z),
    ensures
        phase8::ocena(r).0 == status(z),
        phase8::ocena(r).1 == rada(z) + dopisek(r, z),
        !(z is Malware) ==> phase8::ocena(r).2 == "Brak"@,
        z is Malware ==> phase8::ocena(r).2 == najpierw_ufs(
            r.yara_match_ufs,
            r.yara_match_script,
            "Brak"@,
        ),
{
    pomiary(r.zeros_pct_ufs, r.entropy_ufs);
    pomiary(r.zeros_pct_script, r.entropy_script);
    po_kolei(r, z);
    assert(rada(z) + Seq::<char>::empty() =~= rada(z));
}

/// Where nothing was found, the copies are compared: two copies agree only in size
/// and hash alike; of the same size but another hash they are graded by likeness
/// (from 90 percent, above 0, or 0); then the sizes differ; and a file of one side
/// alone is to be copied from there.
pub proof fn bez_znalezisk_porownanie(r: FileRecord)
    requires
        bez_znalezisk(r),
    ensures
        ({
            let o = phase8::ocena(r);
            let oba = r.found_in_ufs && r.found_in_script;
            let rozne = oba && r.size_match == Some(true) && r.hash_match == Some(false);
            let podobne = r.fuzzy_match_pct is Some;
            let p = r.fuzzy_match_pct->0;
            &&& o.2 == "Brak"@
            &&& oba && r.size_match == Some(true) && r.hash_match == Some(true) ==> o.0
                == "ZGODNY"@ && o.1
                == "Zachować - obydwa programy odzyskały w 100% identyczny plik"@
            &&& rozne && r.fuzzy_match_pct is None ==> o.0 == "RÓŻNY HASH"@ && o.1
                == "Różne kryptograficznie pliki o tej samej wielkości"@
            &&& rozne && podobne && prawa_progow::co_najmniej(p, 90000) ==> o.0
                == "RÓŻNY HASH (PODOBNE W "@ + p.zapis(0) + "%)"@ && o.1
                == "Zachować. Ostrzeżenie: Pliki bardzo podobne"@
            &&& rozne && podobne && !prawa_progow::co_najmniej(p, 90000) && prawa_progow::ponad(p, 0)
                ==> o.0 == "RÓŻNY HASH (PODOBNE W "@ + p.zapis(0) + "%)"@ && o.1
                == "Ostrzeżenie - Pliki mają tylko część wspólną"@
            &&& rozne && podobne && !prawa_progow::ponad(p, 0) ==> o.0
                == "RÓŻNY HASH (FRANKENSTEIN)"@ && o.1 == "Krytyczne Ostrzeżenie - Zlepek MFT."@
            &&& oba && r.size_match == Some(false) ==> o.0 == "RÓŻNY ROZMIAR"@ && o.1
                == "Zachować większy plik. Mniejszy plik został ucięty."@
            &&& oba && r.size_match != Some(false) && (r.size_match is None || r.hash_match is None)
                ==> o.0 == "BRAK DANYCH"@ && o.1 == "Brak wystarczających wskaźników"@
            &&& r.found_in_ufs && !r.found_in_script ==> o.0 == "TYLKO UFS"@ && o.1
                == "Skopiować z UFS Explorer - Plik unikalny"@
            &&& !r.found_in_ufs && r.found_in_script ==> o.0 == "TYLKO SKRYPT"@ && o.1
                == "Skopiować ze Skryptu Autorskiego - Plik unikalny"@
            &&& !r.found_in_ufs && !r.found_in_script ==> o.0 == "BŁĄD KRYTYCZNY"@ && o.1
                == "Plik widmo (Ghost) - brak dostępu fizycznego"@
        }),
{
    pomiary(r.zeros_pct_ufs, r.entropy_ufs);
    pomiary(r.zeros_pct_script, r.entropy_script);
    zadne(r);
    if let Some(p) = r.fuzzy_match_pct {
        prawa_progow::progi_maja_swoje_wartosci();
        prawa_progow::zero_jest_zerem();
        vstd::arithmetic::power2::lemma_pow2_pos(1074);
        prawa_progow::prog_calkowity(p, phase8::PROG_PODOBIENSTWA, 90);
        prawa_progow::prog_calkowity(p, 0, 0);
    }
}

/// Whatever a record holds, some finding decides or there is none.
proof fn cos_albo_nic(r: FileRecord) -> (z: Option<Znalezisko>)
    ensures
        z matches Some(y) ==> rozstrzyga(r, y),
        z is None ==> bez_znalezisk(r),
{
    let z = if stwierdzone(r, Znalezisko::Malware) {
        Some(Znalezisko::Malware)
    } else if stwierdzone(r, Znalezisko::Zlozenie) {
        Some(Znalezisko::Zlozenie)
    } else if stwierdzone(r, Znalezisko::Naprawa) {
        Some(Znalezisko::Naprawa)
    } else if stwierdzone(r, Znalezisko::BladOdczytu) {
        Some(Znalezisko::BladOdczytu)
    } else if stwierdzone(r, Znalezisko::Wydmuszka) {
        Some(Znalezisko::Wydmuszka)
    } else if stwierdzone(r, Znalezisko::Obraz) {
        Some(Znalezisko::Obraz)
    } else if stwierdzone(r, Znalezisko::Wideo) {
        Some(Znalezisko::Wideo)
    } else if stwierdzone(r, Znalezisko::Utf8) {
        Some(Znalezisko::Utf8)
    } else if stwierdzone(r, Znalezisko::Struktura) {
        Some(Znalezisko::Struktura)
    } else if stwierdzone(r, Znalezisko::Exif) {
        Some(Znalezisko::Exif)
    } else if stwierdzone(r, Znalezisko::Eof) {
        Some(Znalezisko::Eof)
    } else if stwierdzone(r, Znalezisko::Szum) {
        Some(Znalezisko::Szum)
    } else if stwierdzone(r, Znalezisko::Pustka) {
        Some(Znalezisko::Pustka)
    } else {
        None
    };
    z
}

/// What tells one status from another: its length and two of its characters.
spec fn cecha(t: Seq<char>) -> int {
    t.len() + 100 * (t[0] as int) + 1000000 * (t[12] as int)
}

/// Every status of a finding has its own mark.
proof fn cechy()
    ensures
        forall|z: Znalezisko| #![trigger status(z)] status(z).len() >= 18,
        forall|z: Znalezisko, y: Znalezisko|
            #![trigger status(z), status(y)]
            status(z) == status(y) ==> z == y,
        forall|z: Znalezisko| #![trigger status(z)] status(z)[0] != 'R' && status(z)[0] != 'T',
{
    reveal_strlit("ZAINFEKOWANY (MALWARE)");
    reveal_strlit("ZREKONSTRUOWANY (SMART SPLICE)");
    reveal_strlit("ZREKONSTRUOWANY (NAPRAWIONY)");
    reveal_strlit("BŁĄD ODCZYTU (I/O)");
    reveal_strlit("USZKODZONY (WYDMUSZKA)");
    reveal_strlit("USZKODZONY (UCIĘTY OBRAZ)");
    reveal_strlit("USZKODZONY (KONTENER WIDEO)");
    reveal_strlit("USZKODZONY (BINARNY ŚMIEĆ)");
    reveal_strlit("USZKODZONY (ZŁA STRUKTURA)");
    reveal_strlit("USZKODZONY (BŁĘDNY EXIF)");
    reveal_strlit("USZKODZONY (BRAK EOF)");
    reveal_strlit("PODEJRZANY (WYSOKA ENTROPIA)");
    reveal_strlit("PODEJRZANY (NISKA ENTROPIA)");
    assert forall|z: Znalezisko, y: Znalezisko|
        #![trigger status(z), status(y)]
        status(z) == status(y) implies z == y by {
        assert(cecha(status(z)) == cecha(status(y)));
    }
}

/// A status betrays its finding: it is given only where that finding was made and
/// none of those before it, on neither side.
pub proof fn status_zdradza_znalezisko(r: FileRecord, z: Znalezisko)
    requires
        phase8::ocena(r).0 == status(z),
    ensures
        rozstrzyga(r, z),
{
    cechy();
    match cos_albo_nic(r) {
        Some(y) => {
            pierwsze_znalezisko_rozstrzyga(r, y);
        },
        None => {
            bez_znalezisk_porownanie(r);
            reveal_strlit("ZGODNY");
            reveal_strlit("RÓŻNY HASH");
            reveal_strlit("RÓŻNY HASH (FRANKENSTEIN)");
            reveal_strlit("RÓŻNY HASH (PODOBNE W ");
            reveal_strlit("RÓŻNY ROZMIAR");
            reveal_strlit("BRAK DANYCH");
            reveal_strlit("TYLKO UFS");
            reveal_strlit("TYLKO SKRYPT");
            reveal_strlit("BŁĄD KRYTYCZNY");
            assert(status(z).len() >= 18 && status(z)[0] != 'R');
            let t = "RÓŻNY HASH (PODOBNE W "@ + r.fuzzy_match_pct->0.zapis(0) + "%)"@;
            assert(t[0] == 'R');
            assert("RÓŻNY HASH (FRANKENSTEIN)"@[0] == 'R');
            if let Some(a) = r.size_match {
                assert(r.size_match == Some(true) || r.size_match == Some(false));
            }
            if let Some(b) = r.hash_match {
                assert(r.hash_match == Some(true) || r.hash_match == Some(false));
            }
            let o = phase8::ocena(r).0;
            assert(o.len() < 18 || o[0] == 'R');
        },
    }
}

/// No finding, one by one.
proof fn zadne(r: FileRecord)
    requires
        bez_znalezisk(r),
    ensures
        !stwierdzone(r, Znalezisko::Malware),
        !stwierdzone(r, Znalezisko::Zlozenie),
        !stwierdzone(r, Znalezisko::Naprawa),
        !stwierdzone(r, Znalezisko::BladOdczytu),
        !stwierdzone(r, Znalezisko::Wydmuszka),
        !stwierdzone(r, Znalezisko::Obraz),
        !stwierdzone(r, Znalezisko::Wideo),
        !stwierdzone(r, Znalezisko::Utf8),
        !stwierdzone(r, Znalezisko::Struktura),
        !stwierdzone(r, Znalezisko::Exif),
        !stwierdzone(r, Znalezisko::Eof),
        !stwierdzone(r, Znalezisko::Szum),
        !stwierdzone(r, Znalezisko::Pustka),
{
}

} // verus!
