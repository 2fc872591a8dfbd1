//! Laws of single calls: what a caller may rely on, whatever a call returned.

use vstd::prelude::*;

use crate::binary64::Binary64;
use crate::euro_csv;
use crate::phases::phase7::entropia;
use crate::phases::phase7::entropia::KategoriaEntropii;
use crate::phases::phase7::przebieg as przebieg7;
use crate::phases::phase8;
use crate::phases::phase8::{Evaluation, FileRecord};
use crate::phases::phase9::decyzja;
use crate::phases::phase9::decyzja::{MergeCandidate, Strona};
use crate::phases::phase9::kopiowanie;
use crate::phases::phase9::kopiowanie::Metadane;
use crate::phases::phase9::prawa_nazw;
use crate::phases::phase9::przebieg as przebieg9;
use crate::phases::phase9::przebieg::Etap;
use crate::phases::phase9::sciezki;
use crate::phases::phase9::sciezki::{Dowiazanie, KrokZatwierdzenia, WyborNazwy};
use crate::phases::repair_modules::praca::{KrokWeryfikacji, Zdarzenie};
use crate::phases::repair_modules::prawa_przyjec;
use crate::phases::repair_modules::weryfikacja;
use crate::phases::repair_modules::zszywanie;
use crate::sciezka;
use crate::tekst;

verus! {

/// The call that decides on a file gives the database the name of the side that wins
/// and the reason why.
pub proof fn zwyciezca_pod_swoja_nazwa(f: MergeCandidate, r: (&'static str, &'static str))
    requires
        call_ensures(decyzja::decide_winner, (&f,), r),
    ensures
        r.1@ == decyzja::decyzja(f).1,
        decyzja::decyzja(f).0 is Ufs <==> r.0@ == "ufs"@,
        decyzja::decyzja(f).0 is Script <==> r.0@ == "script"@,
        decyzja::decyzja(f).0 is Splice <==> r.0@ == "splice"@,
{
    reveal_strlit("ufs");
    reveal_strlit("script");
    reveal_strlit("splice");
    assert("ufs"@.len() == 3);
    assert("script"@[1] == 'c');
    assert("splice"@[1] == 'p');
}

/// The call that judges a record returns the verdict, the advice and the rule.
pub proof fn werdykt_w_swoich_polach(rec: FileRecord, e: Evaluation)
    requires
        call_ensures(phase8::evaluate_file, (&rec,), e),
    ensures
        e.status@ == phase8::ocena(rec).0,
        e.recommendation@ == phase8::ocena(rec).1,
        e.yara_rule@ == phase8::ocena(rec).2,
{
}

/// The call that writes a row ends it with a line break; before that a reader finds
/// the values of the record and of its verdict.
pub proof fn wiersz_do_odczytania(rec: FileRecord, e: Evaluation, t: String)
    requires
        call_ensures(phase8::wiersz_csv, (&rec, &e), t),
    ensures
        t@.len() > 0,
        t@.last() == '\n',
        euro_csv::pola_wiersza(t@.drop_last()) == phase8::pola(
            rec,
            (e.status@, e.recommendation@, e.yara_rule@),
        ),
{
    let p = phase8::pola(rec, e@);
    euro_csv::wiersz_wraca_bez_strat(p);
    assert(t@.drop_last() =~= euro_csv::wiersz(p));
}

/// The call that classifies an entropy returns its class.
pub proof fn klasa_z_wywolania(ent: Binary64, skompresowany: bool, k: Option<KategoriaEntropii>)
    requires
        call_ensures(entropia::klasyfikuj_entropie, (ent, skompresowany), k),
    ensures
        k == entropia::klasa(ent, skompresowany),
{
}

/// The threads: the configured number where it is not zero, and else those in use;
/// one side of two gets half of them, but never none, and both halves together no more
/// than there are, unless there is only one.
pub proof fn podzial_watkow(skonfigurowane: usize, biezace: usize, n: usize, polowa: usize)
    requires
        call_ensures(przebieg7::liczba_watkow, (skonfigurowane, biezace), n),
        call_ensures(przebieg7::polowa_watkow, (n,), polowa),
    ensures
        skonfigurowane > 0 ==> n == skonfigurowane,
        skonfigurowane == 0 ==> n == biezace,
        polowa >= 1,
        n >= 2 ==> n - 1 <= 2 * polowa <= n,
{
}

/// Where both sides run at once, the slots of one side are watched; else all of them.
pub proof fn sloty_wedlug_trybu(tryb: &str, wszystkie: usize, polowa: usize, r: usize)
    requires
        call_ensures(przebieg7::compute_activity_slots, (tryb, wszystkie, polowa), r),
    ensures
        tryb@ == "CONCURRENT"@ ==> r == polowa,
        tryb@ != "CONCURRENT"@ ==> r == wszystkie,
{
}

/// Among two hundred files in a row the display is refreshed at least once, and at
/// once where more than a quarter of a second has passed; a short time between two
/// such files never refreshes it.
pub proof fn odswiezanie(n: usize, k: usize, ms: u64, r7: bool, r9: bool)
    requires
        call_ensures(przebieg7::czy_odswiezyc, (n, ms), r7),
        call_ensures(przebieg9::czy_odswiezyc, (n, ms), r9),
        n == 200 * k,
    ensures
        r7 && r9,
        forall|m: usize, s: bool|
            #![trigger call_ensures(przebieg7::czy_odswiezyc, (m, ms), s)]
            n < m < n + 200 && call_ensures(przebieg7::czy_odswiezyc, (m, ms), s) ==> (s <==> ms
                > 250),
        forall|m: usize, s: bool|
            #![trigger call_ensures(przebieg9::czy_odswiezyc, (m, ms), s)]
            n < m < n + 200 && call_ensures(przebieg9::czy_odswiezyc, (m, ms), s) ==> (s <==> ms
                > 250),
{
}

/// An empty transaction is never committed; one with records is, once there are five
/// thousand of them or half a second has passed.
pub proof fn zatwierdzanie(n: usize, ms: u64, r: bool)
    requires
        call_ensures(przebieg9::czy_zatwierdzic, (n, ms), r),
    ensures
        n == 0 ==> !r,
        n >= 5000 ==> r,
        n > 0 && ms > 500 ==> r,
        n < 5000 && ms <= 500 ==> !r,
{
}

/// The next page starts behind the last record of this one; only an empty page ends
/// the run.
pub proof fn nastepna_strona(s: &Vec<MergeCandidate>, r: Option<i32>)
    requires
        call_ensures(przebieg9::nastepny_klucz, (s,), r),
    ensures
        r is None <==> s@.len() == 0,
        s@.len() > 0 ==> r == Some(s@[s@.len() - 1].id),
{
}

/// A run stops where the target endangers a source, where the target cannot be made
/// or where nothing is left to copy, and nowhere else; it names the cause.
pub proof fn zatrzymanie_z_powodem(e: Etap, r: Option<String>)
    requires
        call_ensures(przebieg9::zatrzymanie, (&e,), r),
    ensures
        match e {
            Etap::Sciezki(Ok(_)) => r is None,
            Etap::Sciezki(Err(p)) => r is Some && r->0@ == "BŁĄD KRYTYCZNY: "@ + p@,
            Etap::Katalog(Ok(_)) => r is None,
            Etap::Katalog(Err(b)) => r is Some && r->0@
                == "BŁĄD KRYTYCZNY: Nie udało się utworzyć katalogu docelowego ("@ + b@
                + "). Sprawdź uprawnienia!"@,
            Etap::Kandydaci(n) => r is Some <==> n == 0,
        },
{
}

/// A name is chosen only once it is known to be free, all names before it being
/// taken; else the next one is asked about.
pub proof fn wybrana_nazwa_jest_wolna(
    baza: &str,
    rel: &str,
    s: Strona,
    zajete: &Vec<bool>,
    r: WyborNazwy,
)
    requires
        call_ensures(sciezki::get_safe_target_path, (baza, rel, s, zajete), r),
    ensures
        match r {
            WyborNazwy::Sprawdz(p) => (forall|i: int| 0 <= i < zajete@.len() ==> zajete@[i]) && p@
                == sciezka::polaczona(baza@, sciezki::kandydat(rel@, s, zajete@.len())),
            WyborNazwy::Wybrano(p, n, zmieniona) => exists|k: int|
                0 <= k < zajete@.len() && !(#[trigger] zajete@[k]) && (forall|i: int|
                    0 <= i < k ==> zajete@[i]) && n@ == sciezki::kandydat(rel@, s, k as nat) && p@
                    == sciezka::polaczona(baza@, n@) && (zmieniona <==> k > 0),
        },
{
    pierwsza_wolna_znaczy(zajete@);
}

proof fn pierwsza_wolna_znaczy(z: Seq<bool>)
    ensures
        0 <= sciezki::pierwsza_wolna(z) <= z.len(),
        forall|i: int| 0 <= i < sciezki::pierwsza_wolna(z) ==> z[i],
        sciezki::pierwsza_wolna(z) < z.len() ==> !z[sciezki::pierwsza_wolna(z) as int],
    decreases z.len(),
{
    if z.len() > 0 && z[0] {
        let t = z.skip(1);
        pierwsza_wolna_znaczy(t);
        assert(forall|i: int| 1 <= i < z.len() ==> z[i] == t[i - 1]);
    }
}

/// A finished file gets the first name that linking it did not find taken; any other
/// failure ends the attempts.
pub proof fn zatwierdzona_nazwa_nie_byla_zajeta(
    baza: &str,
    rel: &str,
    s: Strona,
    proby: &Vec<Dowiazanie>,
    r: KrokZatwierdzenia,
)
    requires
        call_ensures(sciezki::commit_bez_nadpisania, (baza, rel, s, proby), r),
    ensures
        match r {
            KrokZatwierdzenia::Polacz(p) => (forall|i: int|
                0 <= i < proby@.len() ==> proby@[i] == Dowiazanie::Zajete) && p@
                == sciezka::polaczona(baza@, sciezki::kandydat(rel@, s, proby@.len())),
            KrokZatwierdzenia::Gotowe(p, n, zmieniona) => exists|k: int|
                0 <= k < proby@.len() && (#[trigger] proby@[k]) == Dowiazanie::Utworzone && (
                forall|i: int| 0 <= i < k ==> proby@[i] == Dowiazanie::Zajete) && n@
                    == sciezki::kandydat(rel@, s, k as nat) && p@ == sciezka::polaczona(
                    baza@,
                    n@,
                ) && (zmieniona <==> k > 0),
            KrokZatwierdzenia::Odmowa => exists|k: int|
                0 <= k < proby@.len() && (#[trigger] proby@[k]) == Dowiazanie::Blad && forall|
                    i: int,
                |
                    0 <= i < k ==> proby@[i] == Dowiazanie::Zajete,
        },
{
    pierwsze_rozstrzygniete_znaczy(proby@);
}

proof fn pierwsze_rozstrzygniete_znaczy(d: Seq<Dowiazanie>)
    ensures
        0 <= sciezki::pierwsze_rozstrzygniete(d) <= d.len(),
        forall|i: int| 0 <= i < sciezki::pierwsze_rozstrzygniete(d) ==> d[i] == Dowiazanie::Zajete,
        sciezki::pierwsze_rozstrzygniete(d) < d.len() ==> d[sciezki::pierwsze_rozstrzygniete(
            d,
        ) as int] != Dowiazanie::Zajete,
    decreases d.len(),
{
    if d.len() > 0 && d[0] == Dowiazanie::Zajete {
        let t = d.skip(1);
        pierwsze_rozstrzygniete_znaczy(t);
        assert(forall|i: int| 1 <= i < d.len() ==> d[i] == t[i - 1]);
    }
}

/// The path of a restored file: an absolute one stands for itself, any other lies
/// below its source.
pub proof fn naprawiona_pod_zrodlem(zapisana: &str, baza: &str, r: String)
    requires
        call_ensures(sciezki::sciezka_naprawiona, (zapisana, baza), r),
    ensures
        sciezka::bezwzgledna(zapisana@) ==> r@ == zapisana@,
        !sciezka::bezwzgledna(zapisana@) && baza@.len() > 0 && baza@.last() != '/' ==> r@ == baza@
            + seq!['/'] + zapisana@,
{
}

/// What was left out is announced only where something was, each source behind its
/// name.
pub proof fn pominiete_oglaszane(ufs: usize, skrypt: usize, r: Option<String>)
    requires
        call_ensures(przebieg7::komunikat_pominietych, (ufs, skrypt), r),
    ensures
        r is None <==> ufs == 0 && skrypt == 0,
        r is Some ==> r->0@ == "Pominięto pliki z wyliczoną już entropią. UFS Explorer: "@
            + tekst::dziesietny(ufs as nat) + ", Skrypt Autorski: "@ + tekst::dziesietny(
            skrypt as nat,
        ),
{
}

/// The head of the sheet reads back as the names of its columns.
pub proof fn naglowek_do_odczytania(t: String)
    requires
        call_ensures(phase8::naglowek_csv, (), t),
    ensures
        t@.len() > 0,
        t@.last() == '\n',
        euro_csv::pola_wiersza(t@.drop_last()) == phase8::kolumny(),
{
    euro_csv::wiersz_wraca_bez_strat(phase8::kolumny());
    assert(t@.drop_last() =~= euro_csv::wiersz(phase8::kolumny()));
}

/// A value as a field of a row reads back as that value.
pub proof fn pole_do_odczytania(v: &str, t: String)
    requires
        call_ensures(euro_csv::escape_csv, (v,), t),
    ensures
        euro_csv::pola_wiersza(t@) == seq![v@],
{
    euro_csv::wiersz_wraca_bez_strat(seq![v@]);
}

/// What is known is written as `Tak` or `Nie`, what is not as `Brak`.
pub proof fn tak_nie_brak(o: Option<bool>, t: String)
    requires
        call_ensures(euro_csv::fmt_opt_bool, (o,), t),
    ensures
        o == Some(true) ==> t@ == "Tak"@,
        o == Some(false) ==> t@ == "Nie"@,
        o is None ==> t@ == "Brak"@,
{
}

/// A verification hands its verdict over as it was reached: where an engine judges, the
/// call accepts a file that was read if and only if the engine found it sound.
pub proof fn przyjecie_w_wywolaniu(plik: &str, h: &Vec<Zdarzenie>, r: KrokWeryfikacji)
    requires
        call_ensures(weryfikacja::weryfikuj_naprawiony_plik, (plik, h), r),
        prawa_przyjec::sadzi_silnik(prawa_przyjec::rodzina(plik@)),
        prawa_przyjec::wczytany(h@),
        prawa_przyjec::silnik_skonczyl(prawa_przyjec::rodzina(plik@), h@),
    ensures
        r matches KrokWeryfikacji::Werdykt(w) && (w is Ok <==> prawa_przyjec::silnik_potwierdza(
            prawa_przyjec::rodzina(plik@),
            h@,
        )),
{
    prawa_przyjec::przyjecie_z_potwierdzeniem_silnika(plik@, h@);
}

/// A target passes if and only if neither it nor a source lies inside the other.
pub proof fn cel_z_dala_od_zrodel(
    podana: &str,
    cel: &str,
    ufs: &str,
    skrypt: &str,
    r: Result<(), String>,
)
    requires
        call_ensures(sciezki::sciezki_bezpieczne, (podana, cel, ufs, skrypt), r),
    ensures
        r is Ok <==> prawa_nazw::rozne(sciezka::skladniki(cel@), sciezka::skladniki(ufs@))
            && prawa_nazw::rozne(sciezka::skladniki(cel@), sciezka::skladniki(skrypt@)),
{
    prawa_nazw::odmowa_nazywa_zrodlo(podana@, cel@, ufs@, skrypt@);
    sciezki::bezpieczne_to_rozlaczne(podana@, cel@, ufs@, skrypt@);
}

/// Two copies are stitched byte by byte: the first one's byte where it is not zero,
/// and else the second one's, up to the end of the longer copy.
pub proof fn zszyte_bajt_po_bajcie(a: &Vec<u8>, b: &Vec<u8>, r: Vec<u8>, i: int)
    requires
        call_ensures(zszywanie::zszyj, (a, b), r),
        0 <= i < r@.len(),
    ensures
        r@.len() == a@.len() || r@.len() == b@.len(),
        r@.len() >= a@.len() && r@.len() >= b@.len(),
        i < a@.len() && a@[i] != 0 ==> r@[i] == a@[i],
        !(i < a@.len() && a@[i] != 0) ==> i < b@.len() && r@[i] == b@[i] || r@[i] == 0 && i
            >= b@.len(),
{
}

/// A time keeps every nanosecond, before the epoch too.
pub proof fn czas_bez_strat(m: i64, r: (i64, u32))
    requires
        call_ensures(kopiowanie::rozloz_czas, (m,), r),
    ensures
        r.0 * 1_000_000_000 + r.1 == m,
        r.1 < 1_000_000_000,
{
}

/// A cut name is a beginning of the name, fits into the bytes allowed, and is the whole
/// name where that fits.
pub proof fn obciecie_nazwy(t: &str, max: usize, r: String)
    requires
        call_ensures(sciezki::obetnij_do_granicy_utf8, (t, max), r),
    ensures
        r@.len() <= t@.len(),
        r@ == t@.take(r@.len() as int),
        sciezki::rozmiar_utf8(r@) <= max,
        sciezki::rozmiar_utf8(t@) <= max ==> r@ == t@,
{
    sciezki::ile_znakow_w_tekscie(t@, max as int);
    sciezki::obciety_jest_najdluzszy(t@, max as nat);
    if sciezki::rozmiar_utf8(t@) <= max {
        sciezki::krotki_tekst_bez_zmian(t@, max as nat);
    }
    assert(r@ =~= t@.take(r@.len() as int));
}

/// The file to be copied and the metadata for it come from the side that won.
pub proof fn metadane_zwycieskiej_strony(f: MergeCandidate, s: Strona, m: Metadane)
    requires
        call_ensures(kopiowanie::wybierz_metadane, (&f, s), m),
    ensures
        s is Ufs ==> m.rozmiar == f.size_ufs && m.uid == f.uid_ufs && m.gid == f.gid_ufs && m.mode
            == f.mode_ufs && m.mtime == f.mtime_ufs && m.dowiazanie == (f.is_symlink_ufs == Some(
            true,
        )),
        s is Script ==> m.rozmiar == f.size_script && m.uid == f.uid_script && m.gid == f.gid_script
            && m.mode == f.mode_script && m.mtime == f.mtime_script && m.dowiazanie == (
        f.is_symlink_script == Some(true)),
        s is Splice ==> m.rozmiar is None && !m.dowiazanie,
        s is Splice && f.uid_script is Some ==> m.uid == f.uid_script,
        s is Splice && f.uid_script is None ==> m.uid == f.uid_ufs,
        s is Splice && f.gid_script is Some ==> m.gid == f.gid_script,
        s is Splice && f.gid_script is None ==> m.gid == f.gid_ufs,
        s is Splice && f.mode_script is Some ==> m.mode == f.mode_script,
        s is Splice && f.mode_script is None ==> m.mode == f.mode_ufs,
        s is Splice && f.mtime_script is Some ==> m.mtime == f.mtime_script,
        s is Splice && f.mtime_script is None ==> m.mtime == f.mtime_ufs,
{
}

} // verus!
