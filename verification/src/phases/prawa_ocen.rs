//! Laws that tie the verdicts of phase 8 to the heaps on which they are counted.

use vstd::prelude::*;

use crate::binary64::Binary64;
use crate::phases::phase8;
use crate::phases::phase8::{FileRecord, Kategoria};
use crate::tekst;

verus! {

/// Something is plainly wrong with one of the copies.
pub open spec fn wadliwy(r: FileRecord) -> bool {
    ||| r.io_error_ufs == Some(true) && r.io_error_script == Some(true)
    ||| phase8::powyzej(phase8::pomiar(r.zeros_pct_ufs, 0), phase8::PROG_ZER)
    ||| phase8::powyzej(phase8::pomiar(r.zeros_pct_script, 0), phase8::PROG_ZER)
    ||| r.media_decoded_ufs == Some(false)
    ||| r.media_decoded_script == Some(false)
    ||| r.video_ok_ufs == Some(false)
    ||| r.video_ok_script == Some(false)
    ||| r.utf8_ok_ufs == Some(false)
    ||| r.utf8_ok_script == Some(false)
    ||| r.structure_ok_ufs == Some(false)
    ||| r.structure_ok_script == Some(false)
    ||| r.exif_ok_ufs == Some(false)
    ||| r.exif_ok_script == Some(false)
    ||| r.eof_ok_ufs == Some(false)
    ||| r.eof_ok_script == Some(false)
}

/// One of the copies has an entropy that no ordinary content has.
pub open spec fn dziwny(r: FileRecord) -> bool {
    let u = phase8::pomiar(r.entropy_ufs, phase8::ENTROPIA_NIEZNANA);
    let s = phase8::pomiar(r.entropy_script, phase8::ENTROPIA_NIEZNANA);
    ||| phase8::powyzej(u, phase8::PROG_SZUMU)
    ||| phase8::powyzej(s, phase8::PROG_SZUMU)
    ||| phase8::niemal_pusty(u)
    ||| phase8::niemal_pusty(s)
}

/// The heap on which a file belongs.
pub open spec fn kopiec(r: FileRecord) -> Kategoria {
    if r.yara_match_ufs is Some || r.yara_match_script is Some {
        Kategoria::Zainfekowany
    } else if r.smart_splice_path is Some {
        Kategoria::SmartSplice
    } else if r.repaired_path_ufs is Some || r.repaired_path_script is Some {
        Kategoria::Naprawiony
    } else if wadliwy(r) {
        Kategoria::Odrzucony
    } else if dziwny(r) {
        Kategoria::Podejrzany
    } else if r.found_in_ufs && r.found_in_script {
        if r.size_match == Some(false) || (r.size_match == Some(true) && r.hash_match == Some(
            false,
        )) {
            Kategoria::Podejrzany
        } else {
            Kategoria::Zdrowy
        }
    } else if r.found_in_ufs || r.found_in_script {
        Kategoria::Zdrowy
    } else {
        Kategoria::Odrzucony
    }
}

/// The keywords in a verdict's status put it on the heap where the file
/// belongs: malware in quarantine before all else, an assembled or repaired
/// file among the restored ones whatever its copies look like, a defective one
/// among the rejected, and a difference between two sound copies among the
/// suspect.
pub proof fn werdykt_trafia_na_kopiec(r: FileRecord)
    ensures
        phase8::kategoria(phase8::ocena(r).0) == kopiec(r),
{
    kopiec_malware();
    kopiec_zlozony();
    kopiec_naprawiony();
    kopiec_io();
    kopiec_wydmuszka();
    kopiec_obraz();
    kopiec_wideo();
    kopiec_binarny();
    kopiec_struktura();
    kopiec_exif();
    kopiec_eof();
    kopiec_szum();
    kopiec_pustka();
    kopiec_zgodny();
    kopiec_frankenstein();
    kopiec_hash();
    kopiec_rozmiar();
    kopiec_bez_danych();
    kopiec_tylko_ufs();
    kopiec_tylko_skrypt();
    kopiec_widmo();
    if let Some(p) = r.fuzzy_match_pct {
        kopiec_podobne(p);
    }
}

proof fn kopiec_malware()
    ensures
        phase8::kategoria("ZAINFEKOWANY (MALWARE)"@) == Kategoria::Zainfekowany,
{
    let t = "ZAINFEKOWANY (MALWARE)"@;
    reveal_strlit("ZAINFEKOWANY (MALWARE)");
    reveal_strlit("ZAINFEKOWANY");
    assert(t.subrange(0, 12) =~= "ZAINFEKOWANY"@);
    assert(tekst::wystepuje(t, "ZAINFEKOWANY"@, 0));
}

proof fn kopiec_zlozony()
    ensures
        phase8::kategoria("ZREKONSTRUOWANY (SMART SPLICE)"@) == Kategoria::SmartSplice,
{
    let t = "ZREKONSTRUOWANY (SMART SPLICE)"@;
    reveal_strlit("ZREKONSTRUOWANY (SMART SPLICE)");
    reveal_with_fuel(tekst::bez_znaku, 31);
    reveal_strlit("ZAINFEKOWANY");
    tekst::bez_znaku_nie_zawiera(t, "ZAINFEKOWANY"@, 4);
    reveal_strlit("ZREKONSTRUOWANY");
    assert(t.subrange(0, 15) =~= "ZREKONSTRUOWANY"@);
    assert(tekst::wystepuje(t, "ZREKONSTRUOWANY"@, 0));
    reveal_strlit("SMART SPLICE");
    assert(t.subrange(17, 29) =~= "SMART SPLICE"@);
    assert(tekst::wystepuje(t, "SMART SPLICE"@, 17));
}

proof fn kopiec_naprawiony()
    ensures
        phase8::kategoria("ZREKONSTRUOWANY (NAPRAWIONY)"@) == Kategoria::Naprawiony,
{
    let t = "ZREKONSTRUOWANY (NAPRAWIONY)"@;
    reveal_strlit("ZREKONSTRUOWANY (NAPRAWIONY)");
    reveal_with_fuel(tekst::bez_znaku, 29);
    reveal_strlit("ZAINFEKOWANY");
    tekst::bez_znaku_nie_zawiera(t, "ZAINFEKOWANY"@, 4);
    reveal_strlit("ZREKONSTRUOWANY");
    assert(t.subrange(0, 15) =~= "ZREKONSTRUOWANY"@);
    assert(tekst::wystepuje(t, "ZREKONSTRUOWANY"@, 0));
    reveal_strlit("SMART SPLICE");
    tekst::bez_znaku_nie_zawiera(t, "SMART SPLICE"@, 1);
}

proof fn kopiec_io()
    ensures
        phase8::kategoria("BŁĄD ODCZYTU (I/O)"@) == Kategoria::Odrzucony,
{
    let t = "BŁĄD ODCZYTU (I/O)"@;
    reveal_strlit("BŁĄD ODCZYTU (I/O)");
    reveal_with_fuel(tekst::bez_znaku, 19);
    reveal_strlit("ZAINFEKOWANY");
    tekst::bez_znaku_nie_zawiera(t, "ZAINFEKOWANY"@, 1);
    reveal_strlit("ZREKONSTRUOWANY");
    tekst::bez_znaku_nie_zawiera(t, "ZREKONSTRUOWANY"@, 1);
    reveal_strlit("USZKODZONY");
    tekst::bez_znaku_nie_zawiera(t, "USZKODZONY"@, 1);
    reveal_strlit("BŁĄD");
    assert(t.subrange(0, 4) =~= "BŁĄD"@);
    assert(tekst::wystepuje(t, "BŁĄD"@, 0));
}

proof fn kopiec_wydmuszka()
    ensures
        phase8::kategoria("USZKODZONY (WYDMUSZKA)"@) == Kategoria::Odrzucony,
{
    let t = "USZKODZONY (WYDMUSZKA)"@;
    reveal_strlit("USZKODZONY (WYDMUSZKA)");
    reveal_with_fuel(tekst::bez_znaku, 23);
    reveal_strlit("ZAINFEKOWANY");
    tekst::bez_znaku_nie_zawiera(t, "ZAINFEKOWANY"@, 2);
    reveal_strlit("ZREKONSTRUOWANY");
    tekst::bez_znaku_nie_zawiera(t, "ZREKONSTRUOWANY"@, 1);
    reveal_strlit("USZKODZONY");
    assert(t.subrange(0, 10) =~= "USZKODZONY"@);
    assert(tekst::wystepuje(t, "USZKODZONY"@, 0));
}

proof fn kopiec_obraz()
    ensures
        phase8::kategoria("USZKODZONY (UCIĘTY OBRAZ)"@) == Kategoria::Odrzucony,
{
    let t = "USZKODZONY (UCIĘTY OBRAZ)"@;
    reveal_strlit("USZKODZONY (UCIĘTY OBRAZ)");
    reveal_with_fuel(tekst::bez_znaku, 26);
    reveal_strlit("ZAINFEKOWANY");
    tekst::bez_znaku_nie_zawiera(t, "ZAINFEKOWANY"@, 4);
    reveal_strlit("ZREKONSTRUOWANY");
    tekst::bez_znaku_nie_zawiera(t, "ZREKONSTRUOWANY"@, 2);
    reveal_strlit("USZKODZONY");
    assert(t.subrange(0, 10) =~= "USZKODZONY"@);
    assert(tekst::wystepuje(t, "USZKODZONY"@, 0));
}

proof fn kopiec_wideo()
    ensures
        phase8::kategoria("USZKODZONY (KONTENER WIDEO)"@) == Kategoria::Odrzucony,
{
    let t = "USZKODZONY (KONTENER WIDEO)"@;
    reveal_strlit("USZKODZONY (KONTENER WIDEO)");
    reveal_with_fuel(tekst::bez_znaku, 28);
    reveal_strlit("ZAINFEKOWANY");
    tekst::bez_znaku_nie_zawiera(t, "ZAINFEKOWANY"@, 1);
    reveal_strlit("ZREKONSTRUOWANY");
    tekst::bez_znaku_nie_zawiera(t, "ZREKONSTRUOWANY"@, 12);
    reveal_strlit("USZKODZONY");
    assert(t.subrange(0, 10) =~= "USZKODZONY"@);
    assert(tekst::wystepuje(t, "USZKODZONY"@, 0));
}

proof fn kopiec_binarny()
    ensures
        phase8::kategoria("USZKODZONY (BINARNY ŚMIEĆ)"@) == Kategoria::Odrzucony,
{
    let t = "USZKODZONY (BINARNY ŚMIEĆ)"@;
    reveal_strlit("USZKODZONY (BINARNY ŚMIEĆ)");
    reveal_with_fuel(tekst::bez_znaku, 27);
    reveal_strlit("ZAINFEKOWANY");
    tekst::bez_znaku_nie_zawiera(t, "ZAINFEKOWANY"@, 4);
    reveal_strlit("ZREKONSTRUOWANY");
    tekst::bez_znaku_nie_zawiera(t, "ZREKONSTRUOWANY"@, 7);
    reveal_strlit("USZKODZONY");
    assert(t.subrange(0, 10) =~= "USZKODZONY"@);
    assert(tekst::wystepuje(t, "USZKODZONY"@, 0));
}

proof fn kopiec_struktura()
    ensures
        phase8::kategoria("USZKODZONY (ZŁA STRUKTURA)"@) == Kategoria::Odrzucony,
{
    let t = "USZKODZONY (ZŁA STRUKTURA)"@;
    reveal_strlit("USZKODZONY (ZŁA STRUKTURA)");
    reveal_with_fuel(tekst::bez_znaku, 27);
    reveal_strlit("ZAINFEKOWANY");
    tekst::bez_znaku_nie_zawiera(t, "ZAINFEKOWANY"@, 2);
    reveal_strlit("ZREKONSTRUOWANY");
    tekst::bez_znaku_nie_zawiera(t, "ZREKONSTRUOWANY"@, 2);
    reveal_strlit("USZKODZONY");
    assert(t.subrange(0, 10) =~= "USZKODZONY"@);
    assert(tekst::wystepuje(t, "USZKODZONY"@, 0));
}

proof fn kopiec_exif()
    ensures
        phase8::kategoria("USZKODZONY (BŁĘDNY EXIF)"@) == Kategoria::Odrzucony,
{
    let t = "USZKODZONY (BŁĘDNY EXIF)"@;
    reveal_strlit("USZKODZONY (BŁĘDNY EXIF)");
    reveal_with_fuel(tekst::bez_znaku, 25);
    reveal_strlit("ZAINFEKOWANY");
    tekst::bez_znaku_nie_zawiera(t, "ZAINFEKOWANY"@, 1);
    reveal_strlit("ZREKONSTRUOWANY");
    tekst::bez_znaku_nie_zawiera(t, "ZREKONSTRUOWANY"@, 1);
    reveal_strlit("USZKODZONY");
    assert(t.subrange(0, 10) =~= "USZKODZONY"@);
    assert(tekst::wystepuje(t, "USZKODZONY"@, 0));
}

proof fn kopiec_eof()
    ensures
        phase8::kategoria("USZKODZONY (BRAK EOF)"@) == Kategoria::Odrzucony,
{
    let t = "USZKODZONY (BRAK EOF)"@;
    reveal_strlit("USZKODZONY (BRAK EOF)");
    reveal_with_fuel(tekst::bez_znaku, 22);
    reveal_strlit("ZAINFEKOWANY");
    tekst::bez_znaku_nie_zawiera(t, "ZAINFEKOWANY"@, 2);
    reveal_strlit("ZREKONSTRUOWANY");
    tekst::bez_znaku_nie_zawiera(t, "ZREKONSTRUOWANY"@, 7);
    reveal_strlit("USZKODZONY");
    assert(t.subrange(0, 10) =~= "USZKODZONY"@);
    assert(tekst::wystepuje(t, "USZKODZONY"@, 0));
}

proof fn kopiec_szum()
    ensures
        phase8::kategoria("PODEJRZANY (WYSOKA ENTROPIA)"@) == Kategoria::Podejrzany,
{
    let t = "PODEJRZANY (WYSOKA ENTROPIA)"@;
    reveal_strlit("PODEJRZANY (WYSOKA ENTROPIA)");
    reveal_with_fuel(tekst::bez_znaku, 29);
    reveal_strlit("ZAINFEKOWANY");
    tekst::bez_znaku_nie_zawiera(t, "ZAINFEKOWANY"@, 4);
    reveal_strlit("ZREKONSTRUOWANY");
    tekst::bez_znaku_nie_zawiera(t, "ZREKONSTRUOWANY"@, 9);
    reveal_strlit("USZKODZONY");
    tekst::bez_znaku_nie_zawiera(t, "USZKODZONY"@, 0);
    reveal_strlit("BŁĄD");
    tekst::bez_znaku_nie_zawiera(t, "BŁĄD"@, 0);
    reveal_strlit("PODEJRZANY");
    assert(t.subrange(0, 10) =~= "PODEJRZANY"@);
    assert(tekst::wystepuje(t, "PODEJRZANY"@, 0));
}

proof fn kopiec_pustka()
    ensures
        phase8::kategoria("PODEJRZANY (NISKA ENTROPIA)"@) == Kategoria::Podejrzany,
{
    let t = "PODEJRZANY (NISKA ENTROPIA)"@;
    reveal_strlit("PODEJRZANY (NISKA ENTROPIA)");
    reveal_with_fuel(tekst::bez_znaku, 28);
    reveal_strlit("ZAINFEKOWANY");
    tekst::bez_znaku_nie_zawiera(t, "ZAINFEKOWANY"@, 4);
    reveal_strlit("ZREKONSTRUOWANY");
    tekst::bez_znaku_nie_zawiera(t, "ZREKONSTRUOWANY"@, 9);
    reveal_strlit("USZKODZONY");
    tekst::bez_znaku_nie_zawiera(t, "USZKODZONY"@, 0);
    reveal_strlit("BŁĄD");
    tekst::bez_znaku_nie_zawiera(t, "BŁĄD"@, 0);
    reveal_strlit("PODEJRZANY");
    assert(t.subrange(0, 10) =~= "PODEJRZANY"@);
    assert(tekst::wystepuje(t, "PODEJRZANY"@, 0));
}

proof fn kopiec_zgodny()
    ensures
        phase8::kategoria("ZGODNY"@) == Kategoria::Zdrowy,
{
    let t = "ZGODNY"@;
    reveal_strlit("ZGODNY");
    reveal_with_fuel(tekst::bez_znaku, 7);
    reveal_strlit("ZAINFEKOWANY");
    tekst::bez_znaku_nie_zawiera(t, "ZAINFEKOWANY"@, 1);
    reveal_strlit("ZREKONSTRUOWANY");
    tekst::bez_znaku_nie_zawiera(t, "ZREKONSTRUOWANY"@, 1);
    reveal_strlit("USZKODZONY");
    tekst::bez_znaku_nie_zawiera(t, "USZKODZONY"@, 0);
    reveal_strlit("BŁĄD");
    tekst::bez_znaku_nie_zawiera(t, "BŁĄD"@, 0);
    reveal_strlit("PODEJRZANY");
    tekst::bez_znaku_nie_zawiera(t, "PODEJRZANY"@, 0);
    reveal_strlit("RÓŻNY");
    tekst::bez_znaku_nie_zawiera(t, "RÓŻNY"@, 0);
}

proof fn kopiec_frankenstein()
    ensures
        phase8::kategoria("RÓŻNY HASH (FRANKENSTEIN)"@) == Kategoria::Podejrzany,
{
    let t = "RÓŻNY HASH (FRANKENSTEIN)"@;
    reveal_strlit("RÓŻNY HASH (FRANKENSTEIN)");
    reveal_with_fuel(tekst::bez_znaku, 26);
    reveal_strlit("ZAINFEKOWANY");
    tekst::bez_znaku_nie_zawiera(t, "ZAINFEKOWANY"@, 0);
    reveal_strlit("ZREKONSTRUOWANY");
    tekst::bez_znaku_nie_zawiera(t, "ZREKONSTRUOWANY"@, 0);
    reveal_strlit("USZKODZONY");
    tekst::bez_znaku_nie_zawiera(t, "USZKODZONY"@, 0);
    reveal_strlit("BŁĄD");
    tekst::bez_znaku_nie_zawiera(t, "BŁĄD"@, 0);
    reveal_strlit("PODEJRZANY");
    tekst::bez_znaku_nie_zawiera(t, "PODEJRZANY"@, 0);
    reveal_strlit("RÓŻNY");
    assert(t.subrange(0, 5) =~= "RÓŻNY"@);
    assert(tekst::wystepuje(t, "RÓŻNY"@, 0));
}

proof fn kopiec_hash()
    ensures
        phase8::kategoria("RÓŻNY HASH"@) == Kategoria::Podejrzany,
{
    let t = "RÓŻNY HASH"@;
    reveal_strlit("RÓŻNY HASH");
    reveal_with_fuel(tekst::bez_znaku, 11);
    reveal_strlit("ZAINFEKOWANY");
    tekst::bez_znaku_nie_zawiera(t, "ZAINFEKOWANY"@, 0);
    reveal_strlit("ZREKONSTRUOWANY");
    tekst::bez_znaku_nie_zawiera(t, "ZREKONSTRUOWANY"@, 0);
    reveal_strlit("USZKODZONY");
    tekst::bez_znaku_nie_zawiera(t, "USZKODZONY"@, 0);
    reveal_strlit("BŁĄD");
    tekst::bez_znaku_nie_zawiera(t, "BŁĄD"@, 0);
    reveal_strlit("PODEJRZANY");
    tekst::bez_znaku_nie_zawiera(t, "PODEJRZANY"@, 0);
    reveal_strlit("RÓŻNY");
    assert(t.subrange(0, 5) =~= "RÓŻNY"@);
    assert(tekst::wystepuje(t, "RÓŻNY"@, 0));
}

proof fn kopiec_rozmiar()
    ensures
        phase8::kategoria("RÓŻNY ROZMIAR"@) == Kategoria::Podejrzany,
{
    let t = "RÓŻNY ROZMIAR"@;
    reveal_strlit("RÓŻNY ROZMIAR");
    reveal_with_fuel(tekst::bez_znaku, 14);
    reveal_strlit("ZAINFEKOWANY");
    tekst::bez_znaku_nie_zawiera(t, "ZAINFEKOWANY"@, 4);
    reveal_strlit("ZREKONSTRUOWANY");
    tekst::bez_znaku_nie_zawiera(t, "ZREKONSTRUOWANY"@, 2);
    reveal_strlit("USZKODZONY");
    tekst::bez_znaku_nie_zawiera(t, "USZKODZONY"@, 0);
    reveal_strlit("BŁĄD");
    tekst::bez_znaku_nie_zawiera(t, "BŁĄD"@, 0);
    reveal_strlit("PODEJRZANY");
    tekst::bez_znaku_nie_zawiera(t, "PODEJRZANY"@, 0);
    reveal_strlit("RÓŻNY");
    assert(t.subrange(0, 5) =~= "RÓŻNY"@);
    assert(tekst::wystepuje(t, "RÓŻNY"@, 0));
}

proof fn kopiec_bez_danych()
    ensures
        phase8::kategoria("BRAK DANYCH"@) == Kategoria::Zdrowy,
{
    let t = "BRAK DANYCH"@;
    reveal_strlit("BRAK DANYCH");
    reveal_with_fuel(tekst::bez_znaku, 12);
    reveal_strlit("ZAINFEKOWANY");
    tekst::bez_znaku_nie_zawiera(t, "ZAINFEKOWANY"@, 0);
    reveal_strlit("ZREKONSTRUOWANY");
    tekst::bez_znaku_nie_zawiera(t, "ZREKONSTRUOWANY"@, 0);
    reveal_strlit("USZKODZONY");
    tekst::bez_znaku_nie_zawiera(t, "USZKODZONY"@, 0);
    reveal_strlit("BŁĄD");
    tekst::bez_znaku_nie_zawiera(t, "BŁĄD"@, 1);
    reveal_strlit("PODEJRZANY");
    tekst::bez_znaku_nie_zawiera(t, "PODEJRZANY"@, 0);
    reveal_strlit("RÓŻNY");
    tekst::bez_znaku_nie_zawiera(t, "RÓŻNY"@, 1);
}

proof fn kopiec_tylko_ufs()
    ensures
        phase8::kategoria("TYLKO UFS"@) == Kategoria::Zdrowy,
{
    let t = "TYLKO UFS"@;
    reveal_strlit("TYLKO UFS");
    reveal_with_fuel(tekst::bez_znaku, 10);
    reveal_strlit("ZAINFEKOWANY");
    tekst::bez_znaku_nie_zawiera(t, "ZAINFEKOWANY"@, 0);
    reveal_strlit("ZREKONSTRUOWANY");
    tekst::bez_znaku_nie_zawiera(t, "ZREKONSTRUOWANY"@, 0);
    reveal_strlit("USZKODZONY");
    tekst::bez_znaku_nie_zawiera(t, "USZKODZONY"@, 2);
    reveal_strlit("BŁĄD");
    tekst::bez_znaku_nie_zawiera(t, "BŁĄD"@, 0);
    reveal_strlit("PODEJRZANY");
    tekst::bez_znaku_nie_zawiera(t, "PODEJRZANY"@, 0);
    reveal_strlit("RÓŻNY");
    tekst::bez_znaku_nie_zawiera(t, "RÓŻNY"@, 0);
}

proof fn kopiec_tylko_skrypt()
    ensures
        phase8::kategoria("TYLKO SKRYPT"@) == Kategoria::Zdrowy,
{
    let t = "TYLKO SKRYPT"@;
    reveal_strlit("TYLKO SKRYPT");
    reveal_with_fuel(tekst::bez_znaku, 13);
    reveal_strlit("ZAINFEKOWANY");
    tekst::bez_znaku_nie_zawiera(t, "ZAINFEKOWANY"@, 0);
    reveal_strlit("ZREKONSTRUOWANY");
    tekst::bez_znaku_nie_zawiera(t, "ZREKONSTRUOWANY"@, 0);
    reveal_strlit("USZKODZONY");
    tekst::bez_znaku_nie_zawiera(t, "USZKODZONY"@, 0);
    reveal_strlit("BŁĄD");
    tekst::bez_znaku_nie_zawiera(t, "BŁĄD"@, 0);
    reveal_strlit("PODEJRZANY");
    tekst::bez_znaku_nie_zawiera(t, "PODEJRZANY"@, 2);
    reveal_strlit("RÓŻNY");
    tekst::bez_znaku_nie_zawiera(t, "RÓŻNY"@, 1);
}

proof fn kopiec_widmo()
    ensures
        phase8::kategoria("BŁĄD KRYTYCZNY"@) == Kategoria::Odrzucony,
{
    let t = "BŁĄD KRYTYCZNY"@;
    reveal_strlit("BŁĄD KRYTYCZNY");
    reveal_with_fuel(tekst::bez_znaku, 15);
    reveal_strlit("ZAINFEKOWANY");
    tekst::bez_znaku_nie_zawiera(t, "ZAINFEKOWANY"@, 1);
    reveal_strlit("ZREKONSTRUOWANY");
    tekst::bez_znaku_nie_zawiera(t, "ZREKONSTRUOWANY"@, 2);
    reveal_strlit("USZKODZONY");
    tekst::bez_znaku_nie_zawiera(t, "USZKODZONY"@, 0);
    reveal_strlit("BŁĄD");
    assert(t.subrange(0, 4) =~= "BŁĄD"@);
    assert(tekst::wystepuje(t, "BŁĄD"@, 0));
}

proof fn kopiec_podobne(p: Binary64)
    ensures
        phase8::kategoria("RÓŻNY HASH (PODOBNE W "@ + p.zapis(0) + "%)"@) == Kategoria::Podejrzany,
{
    let a = "RÓŻNY HASH (PODOBNE W "@;
    let b = p.zapis(0);
    let c = "%)"@;
    let t = a + b + c;
    reveal_strlit("RÓŻNY HASH (PODOBNE W ");
    reveal_strlit("%)");
    reveal_strlit("RÓŻNY");
    reveal_strlit("ZAINFEKOWANY");
    reveal_strlit("ZREKONSTRUOWANY");
    reveal_strlit("USZKODZONY");
    reveal_strlit("BŁĄD");
    assert forall|z: char| z == 'Z' || z == 'U' || z == 'Ł' implies #[trigger] tekst::bez_znaku(
        t,
        z,
        t.len(),
    ) by {
        reveal_with_fuel(tekst::bez_znaku, 23);
        p.zapis_bez_znaku(0, z);
        tekst::bez_znaku_polaczone(a, b, z, (a + b).len());
        tekst::bez_znaku_polaczone(a + b, c, z, t.len());
    }
    tekst::bez_znaku_nie_zawiera(t, "ZAINFEKOWANY"@, 0);
    tekst::bez_znaku_nie_zawiera(t, "ZREKONSTRUOWANY"@, 0);
    tekst::bez_znaku_nie_zawiera(t, "USZKODZONY"@, 0);
    tekst::bez_znaku_nie_zawiera(t, "BŁĄD"@, 1);
    assert(t.subrange(0, 5) =~= "RÓŻNY"@);
    assert(tekst::wystepuje(t, "RÓŻNY"@, 0));
}

/// The heap of any status goes by its words, and the graver word decides: malware
/// before restored, restored before damaged, damaged before doubtful; a status with
/// none of them is healthy.
pub proof fn kopiec_wedlug_slow(s: Seq<char>)
    ensures
        ({
            let k = phase8::kategoria(s);
            let wirus = tekst::zawiera_tekst(s, "ZAINFEKOWANY"@);
            let odtworzony = tekst::zawiera_tekst(s, "ZREKONSTRUOWANY"@);
            let zlozony = tekst::zawiera_tekst(s, "SMART SPLICE"@);
            let zly = tekst::zawiera_tekst(s, "USZKODZONY"@) || tekst::zawiera_tekst(s, "BŁĄD"@);
            let watpliwy = tekst::zawiera_tekst(s, "PODEJRZANY"@) || tekst::zawiera_tekst(
                s,
                "RÓŻNY"@,
            );
            &&& k == Kategoria::Zainfekowany <==> wirus
            &&& k == Kategoria::SmartSplice <==> !wirus && odtworzony && zlozony
            &&& k == Kategoria::Naprawiony <==> !wirus && odtworzony && !zlozony
            &&& k == Kategoria::Odrzucony <==> !wirus && !odtworzony && zly
            &&& k == Kategoria::Podejrzany <==> !wirus && !odtworzony && !zly && watpliwy
            &&& k == Kategoria::Zdrowy <==> !wirus && !odtworzony && !zly && !watpliwy
        }),
{
}

} // verus!
