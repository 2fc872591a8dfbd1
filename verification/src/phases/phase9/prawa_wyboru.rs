//! Laws of the choice between two copies of a file.

use vstd::prelude::*;

use crate::binary64::Binary64;
use crate::phases::phase8;
use crate::phases::phase9::decyzja;
use crate::phases::phase9::decyzja::{MergeCandidate, Strona};
use crate::phases::prawa_progow;

verus! {

/// The signs of damage that a copy can bear.
pub enum Oznaka {
    BladOdczytu,
    Dekodowanie,
    Struktura,
    Utf8,
    Exif,
    Eof,
    Zera,
    Szum,
}

/// The place of a sign among the others: the harder ones come first.
pub open spec fn kolejnosc(o: Oznaka) -> int {
    match o {
        Oznaka::BladOdczytu => 0,
        Oznaka::Dekodowanie => 1,
        Oznaka::Struktura => 2,
        Oznaka::Utf8 => 3,
        Oznaka::Exif => 4,
        Oznaka::Eof => 5,
        Oznaka::Zera => 6,
        Oznaka::Szum => 7,
    }
}

/// The UFS copy bears the sign.
pub open spec fn nosi_ufs(f: MergeCandidate, o: Oznaka) -> bool {
    match o {
        Oznaka::BladOdczytu => f.io_error_ufs == Some(true),
        Oznaka::Dekodowanie => f.media_decoded_ufs == Some(false),
        Oznaka::Struktura => f.structure_ok_ufs == Some(false),
        Oznaka::Utf8 => f.utf8_ok_ufs == Some(false),
        Oznaka::Exif => f.exif_ok_ufs == Some(false),
        Oznaka::Eof => f.eof_ok_ufs == Some(false),
        Oznaka::Zera => f.zeros_pct_ufs matches Some(x) && prawa_progow::ponad(x, 99000),
        Oznaka::Szum => f.entropy_ufs matches Some(x) && prawa_progow::szum(x),
    }
}

/// The script's copy bears the sign.
pub open spec fn nosi_skrypt(f: MergeCandidate, o: Oznaka) -> bool {
    match o {
        Oznaka::BladOdczytu => f.io_error_script == Some(true),
        Oznaka::Dekodowanie => f.media_decoded_script == Some(false),
        Oznaka::Struktura => f.structure_ok_script == Some(false),
        Oznaka::Utf8 => f.utf8_ok_script == Some(false),
        Oznaka::Exif => f.exif_ok_script == Some(false),
        Oznaka::Eof => f.eof_ok_script == Some(false),
        Oznaka::Zera => f.zeros_pct_script matches Some(x) && prawa_progow::ponad(x, 99000),
        Oznaka::Szum => f.entropy_script matches Some(x) && prawa_progow::szum(x),
    }
}

/// Both copies bear the sign, or neither does.
pub open spec fn jednakowo(f: MergeCandidate, o: Oznaka) -> bool {
    nosi_ufs(f, o) == nosi_skrypt(f, o)
}

/// No entropy was recorded that is not a number.
pub open spec fn entropie_sa_liczbami(f: MergeCandidate) -> bool {
    &&& (f.entropy_ufs matches Some(x) ==> !x.nie_liczba())
    &&& (f.entropy_script matches Some(x) ==> !x.nie_liczba())
}

/// Two copies of a file, neither cleaner than the other, with nothing restored.
pub open spec fn dwie_surowe_kopie(f: MergeCandidate) -> bool {
    &&& f.in_ufs
    &&& f.in_script
    &&& f.yara_match_ufs is Some == f.yara_match_script is Some
    &&& f.smart_splice_path is None
    &&& f.repaired_path_ufs is None
    &&& f.repaired_path_script is None
}

/// Why the UFS copy loses over the sign.
pub open spec fn wada_ufs(o: Oznaka) -> Seq<char> {
    match o {
        Oznaka::BladOdczytu => "UFS odrzucony (Błąd I/O / Bad Sector)"@,
        Oznaka::Dekodowanie => "UFS odrzucony (Ucięty obraz / Gray Banding)"@,
        Oznaka::Struktura => "UFS odrzucony (Zepsuta struktura ZIP/DOCX)"@,
        Oznaka::Utf8 => "UFS odrzucony (Zupa binarna w pliku tekstowym)"@,
        Oznaka::Exif => "UFS odrzucony (Zepsute offsety EXIF)"@,
        Oznaka::Eof => "UFS odrzucony (Brak znacznika końca pliku EOF)"@,
        Oznaka::Zera => "UFS odrzucony (Wydmuszka wypełniona zerami)"@,
        Oznaka::Szum => "UFS odrzucony (Skrajna entropia / Szum)"@,
    }
}

/// Why the script's copy loses over the sign.
pub open spec fn wada_skryptu(o: Oznaka) -> Seq<char> {
    match o {
        Oznaka::BladOdczytu => "Skrypt odrzucony (Błąd I/O / Bad Sector)"@,
        Oznaka::Dekodowanie => "Skrypt odrzucony (Ucięty obraz / Gray Banding)"@,
        Oznaka::Struktura => "Skrypt odrzucony (Zepsuta struktura ZIP/DOCX)"@,
        Oznaka::Utf8 => "Skrypt odrzucony (Zupa binarna w pliku tekstowym)"@,
        Oznaka::Exif => "Skrypt odrzucony (Zepsute offsety EXIF)"@,
        Oznaka::Eof => "Skrypt odrzucony (Brak znacznika końca pliku EOF)"@,
        Oznaka::Zera => "Skrypt odrzucony (Wydmuszka wypełniona zerami)"@,
        Oznaka::Szum => "Skrypt odrzucony (Skrajna entropia / Szum)"@,
    }
}

/// What the measurements of one side say, as numbers.
proof fn pomiary(zera: Option<Binary64>, ent: Option<Binary64>)
    ensures
        phase8::powyzej(phase8::pomiar(zera, 0), phase8::PROG_ZER) <==> (zera matches Some(x)
            && prawa_progow::ponad(x, 99000)),
        phase8::powyzej(
            phase8::pomiar(ent, phase8::ENTROPIA_NIEZNANA),
            phase8::PROG_SZUMU,
        ) <==> (ent matches Some(x) && prawa_progow::szum(x)),
        decyzja::w_normie(phase8::pomiar(ent, phase8::ENTROPIA_NIEZNANA)) <==> (ent matches Some(x)
            ==> !x.nie_liczba() && !prawa_progow::szum(x)),
{
    prawa_progow::progi_maja_swoje_wartosci();
    prawa_progow::zero_jest_zerem();
    vstd::arithmetic::power2::lemma_pow2_pos(1074);
    vstd::arithmetic::power2::lemma_pow2_pos(1023);
    prawa_progow::prog_calkowity(phase8::pomiar(zera, 0), phase8::PROG_ZER, 99);
    prawa_progow::prog_szumu(phase8::pomiar(ent, phase8::ENTROPIA_NIEZNANA));
}

/// Of two raw copies, the first sign of damage that only one of them bears decides:
/// the other copy wins. Signs further down, attributes, sizes and hashes have no say.
pub proof fn pierwsza_roznica_rozstrzyga(f: MergeCandidate, o: Oznaka)
    requires
        dwie_surowe_kopie(f),
        !jednakowo(f, o),
        forall|p: Oznaka| kolejnosc(p) < kolejnosc(o) ==> #[trigger] jednakowo(f, p),
        o is Szum ==> entropie_sa_liczbami(f),
    ensures
        nosi_ufs(f, o) ==> decyzja::decyzja(f) == (Strona::Script, wada_ufs(o)),
        nosi_skrypt(f, o) ==> decyzja::decyzja(f) == (Strona::Ufs, wada_skryptu(o)),
{
    pomiary(f.zeros_pct_ufs, f.entropy_ufs);
    pomiary(f.zeros_pct_script, f.entropy_script);
    assert(kolejnosc(Oznaka::BladOdczytu) < kolejnosc(o) ==> jednakowo(f, Oznaka::BladOdczytu));
    assert(kolejnosc(Oznaka::Dekodowanie) < kolejnosc(o) ==> jednakowo(f, Oznaka::Dekodowanie));
    assert(kolejnosc(Oznaka::Struktura) < kolejnosc(o) ==> jednakowo(f, Oznaka::Struktura));
    assert(kolejnosc(Oznaka::Utf8) < kolejnosc(o) ==> jednakowo(f, Oznaka::Utf8));
    assert(kolejnosc(Oznaka::Exif) < kolejnosc(o) ==> jednakowo(f, Oznaka::Exif));
    assert(kolejnosc(Oznaka::Eof) < kolejnosc(o) ==> jednakowo(f, Oznaka::Eof));
    assert(kolejnosc(Oznaka::Zera) < kolejnosc(o) ==> jednakowo(f, Oznaka::Zera));
}

/// The two copies bear the same signs of damage; noise decides nothing beside an
/// entropy that is not a number.
pub open spec fn rownie_uszkodzone(f: MergeCandidate) -> bool {
    &&& forall|p: Oznaka| !(p is Szum) ==> #[trigger] jednakowo(f, p)
    &&& jednakowo(f, Oznaka::Szum) || !entropie_sa_liczbami(f)
}

/// Of two raw copies that bear the same signs of damage, the one that alone kept
/// its extended attributes wins; where neither did, the larger one wins; where the
/// sizes say nothing, the script's copy does.
pub proof fn bez_roznicy_w_uszkodzeniach(f: MergeCandidate)
    requires
        dwie_surowe_kopie(f),
        rownie_uszkodzone(f),
    ensures
        ({
            let xu = f.has_xattr_ufs == Some(true);
            let xs = f.has_xattr_script == Some(true);
            let wiekszy_ufs = f.size_ufs matches Some(u) && f.size_script matches Some(s) && u > s;
            let wiekszy_skrypt = f.size_ufs matches Some(u) && f.size_script matches Some(s) && u
                < s;
            let d = decyzja::decyzja(f);
            &&& xu && !xs ==> d == (Strona::Ufs, "Wybrano UFS (Ocalił ukryte atrybuty xattr)"@)
            &&& xs && !xu ==> d == (
                Strona::Script,
                "Wybrano Skrypt (Ocalił ukryte atrybuty xattr)"@,
            )
            &&& xu == xs && wiekszy_ufs ==> d == (
                Strona::Ufs,
                "Wybrano UFS (Większy rozmiar pliku)"@,
            )
            &&& xu == xs && wiekszy_skrypt ==> d == (
                Strona::Script,
                "Wybrano Skrypt (Większy rozmiar pliku)"@,
            )
            &&& xu == xs && !wiekszy_ufs && !wiekszy_skrypt && f.hash_match == Some(true) ==> d == (
                Strona::Script,
                "Zgodne bit-do-bitu (Priorytet domyślny: Skrypt Autorski)"@,
            )
            &&& xu == xs && !wiekszy_ufs && !wiekszy_skrypt && f.hash_match != Some(true) ==> d == (
                Strona::Script,
                "Remis heurystyczny (Priorytet domyślny: Skrypt Autorski)"@,
            )
        }),
{
    pomiary(f.zeros_pct_ufs, f.entropy_ufs);
    pomiary(f.zeros_pct_script, f.entropy_script);
    assert(jednakowo(f, Oznaka::BladOdczytu));
    assert(jednakowo(f, Oznaka::Dekodowanie));
    assert(jednakowo(f, Oznaka::Struktura));
    assert(jednakowo(f, Oznaka::Utf8));
    assert(jednakowo(f, Oznaka::Exif));
    assert(jednakowo(f, Oznaka::Eof));
    assert(jednakowo(f, Oznaka::Zera));
}

/// What stands above the signs of damage, for a file on both sides: malware on one
/// side alone, then a file put together from both, then a restored copy.
pub proof fn przed_uszkodzeniami(f: MergeCandidate)
    requires
        f.in_ufs == f.in_script,
    ensures
        ({
            let zu = f.yara_match_ufs is Some;
            let zs = f.yara_match_script is Some;
            let nu = f.repaired_path_ufs is Some;
            let ns = f.repaired_path_script is Some;
            let d = decyzja::decyzja(f);
            &&& zu && !zs ==> d == (
                Strona::Script,
                "UFS odrzucony (Zainfekowany Malware/YARA)"@,
            )
            &&& zs && !zu ==> d == (
                Strona::Ufs,
                "Skrypt odrzucony (Zainfekowany Malware/YARA)"@,
            )
            &&& zu == zs && f.smart_splice_path is Some ==> d == (
                Strona::Splice,
                "Złożono z dwóch uszkodzonych kopii i zweryfikowano dekodowaniem (Faza 18)"@,
            )
            &&& zu == zs && f.smart_splice_path is None && nu && ns ==> d == (
                Strona::Script,
                "Obydwa zrekonstruowane (Priorytet domyślny: Skrypt)"@,
            )
            &&& zu == zs && f.smart_splice_path is None && nu && !ns ==> d == (
                Strona::Ufs,
                "Wybrano UFS (Użyto wersji fizycznie zrekonstruowanej przez system)"@,
            )
            &&& zu == zs && f.smart_splice_path is None && ns && !nu ==> d == (
                Strona::Script,
                "Wybrano Skrypt (Użyto wersji fizycznie zrekonstruowanej przez system)"@,
            )
        }),
{
}

/// A file of one side alone, with nothing put together, is taken from that side and
/// the reason says so, whatever else is known of it.
pub proof fn powod_pliku_unikalnego(f: MergeCandidate)
    requires
        f.in_ufs != f.in_script,
        f.smart_splice_path is None,
    ensures
        f.in_ufs ==> decyzja::decyzja(f) == (
            Strona::Ufs,
            "Plik unikalny (Tylko UFS Explorer)"@,
        ),
        f.in_script ==> decyzja::decyzja(f) == (
            Strona::Script,
            "Plik unikalny (Tylko Skrypt Autorski)"@,
        ),
{
}

} // verus!
