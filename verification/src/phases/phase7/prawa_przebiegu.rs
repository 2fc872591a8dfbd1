//! Laws of the scan: which files are read, what is kept of a reading and where it is
//! counted.

use vstd::prelude::*;

use crate::binary64::Binary64;
use crate::licznik;
use crate::phases::phase7::entropia;
use crate::phases::phase7::entropia::KategoriaEntropii;
use crate::phases::phase7::prawa_entropii;
use crate::phases::phase7::przebieg;
use crate::phases::phase7::przebieg::{Grupa, LiveStats, SideEntropyResult, Wiersz, WynikEntropii};
use crate::phases::phase7::raport;
use crate::phases::phase7::raport::Pomiar;
use crate::phases::prawa_progow;
use crate::sciezka;
use crate::tekst;

verus! {

/// A file of UFS Explorer is queued exactly when that source holds it and neither an
/// entropy nor a read error of it is on record; what the other source holds changes
/// nothing but the pool.
pub proof fn kolejka_ufs(s: Seq<Wiersz>, i: int)
    requires
        0 <= i < s.len(),
    ensures
        s[i].found_in_ufs && s[i].entropy_ufs is None && s[i].io_error_ufs != Some(true)
            ==> przebieg::kolejka(s, true).contains(
            (s[i].id, s[i].relative_path@, s[i].found_in_ufs && s[i].found_in_script),
        ),
        !(s[i].found_in_ufs && s[i].entropy_ufs is None && s[i].io_error_ufs != Some(true)) && (
        forall|j: int| 0 <= j < s.len() && j != i ==> (#[trigger] s[j]).id != s[i].id)
            ==> forall|k: int|
            0 <= k < przebieg::kolejka(s, true).len() ==> (#[trigger] przebieg::kolejka(
                s,
                true,
            )[k]).0 != s[i].id,
{
    kolejka_strony(s, true, i);
}

/// A file of the author's script is queued by the same rule on its own measurements.
pub proof fn kolejka_skryptu(s: Seq<Wiersz>, i: int)
    requires
        0 <= i < s.len(),
    ensures
        s[i].found_in_script && s[i].entropy_script is None && s[i].io_error_script != Some(true)
            ==> przebieg::kolejka(s, false).contains(
            (s[i].id, s[i].relative_path@, s[i].found_in_ufs && s[i].found_in_script),
        ),
        !(s[i].found_in_script && s[i].entropy_script is None && s[i].io_error_script != Some(true))
            && (forall|j: int| 0 <= j < s.len() && j != i ==> (#[trigger] s[j]).id != s[i].id)
            ==> forall|k: int|
            0 <= k < przebieg::kolejka(s, false).len() ==> (#[trigger] przebieg::kolejka(
                s,
                false,
            )[k]).0 != s[i].id,
{
    kolejka_strony(s, false, i);
}

proof fn kolejka_strony(s: Seq<Wiersz>, ufs: bool, i: int)
    requires
        0 <= i < s.len(),
    ensures
        przebieg::w_kolejce(s[i], ufs) ==> przebieg::kolejka(s, ufs).contains(
            (s[i].id, s[i].relative_path@, s[i].found_in_ufs && s[i].found_in_script),
        ),
        !przebieg::w_kolejce(s[i], ufs) && (forall|j: int|
            0 <= j < s.len() && j != i ==> (#[trigger] s[j]).id != s[i].id) ==> forall|k: int|
            0 <= k < przebieg::kolejka(s, ufs).len() ==> (#[trigger] przebieg::kolejka(
                s,
                ufs,
            )[k]).0 != s[i].id,
    decreases s.len(),
{
    let d = s.drop_last();
    let k = przebieg::kolejka(d, ufs);
    let q = przebieg::kolejka(s, ufs);
    let e = (s[i].id, s[i].relative_path@, s[i].found_in_ufs && s[i].found_in_script);
    if i == s.len() - 1 {
        if przebieg::w_kolejce(s[i], ufs) {
            assert(q[q.len() - 1] == e);
        } else if forall|j: int| 0 <= j < s.len() && j != i ==> (#[trigger] s[j]).id != s[i].id {
            assert forall|n: int| 0 <= n < q.len() implies (#[trigger] q[n]).0 != s[i].id by {
                pochodzi_z_wiersza(d, ufs, n);
                let j = choose|j: int| 0 <= j < d.len() && (#[trigger] d[j]).id == k[n].0;
                assert(s[j] == d[j]);
            }
        }
    } else {
        kolejka_strony(d, ufs, i);
        assert(d[i] == s[i]);
        if przebieg::w_kolejce(s[i], ufs) {
            let n = choose|n: int| 0 <= n < k.len() && k[n] == e;
            assert(q[n] == e);
        } else if forall|j: int| 0 <= j < s.len() && j != i ==> (#[trigger] s[j]).id != s[i].id {
            assert forall|j: int| 0 <= j < d.len() && j != i implies (#[trigger] d[j]).id
                != d[i].id by {
                assert(s[j] == d[j]);
            }
            assert forall|n: int| 0 <= n < q.len() implies (#[trigger] q[n]).0 != s[i].id by {
                if n < k.len() {
                    assert(q[n] == k[n]);
                } else {
                    assert(q[n].0 == s.last().id);
                }
            }
        }
    }
}

proof fn pochodzi_z_wiersza(s: Seq<Wiersz>, ufs: bool, n: int)
    requires
        0 <= n < przebieg::kolejka(s, ufs).len(),
    ensures
        exists|j: int| 0 <= j < s.len() && (#[trigger] s[j]).id == przebieg::kolejka(s, ufs)[n].0,
    decreases s.len(),
{
    let d = s.drop_last();
    let k = przebieg::kolejka(d, ufs);
    if n < k.len() {
        pochodzi_z_wiersza(d, ufs, n);
        let j = choose|j: int| 0 <= j < d.len() && (#[trigger] d[j]).id == k[n].0;
        assert(s[j] == d[j]);
    } else {
        assert(s[s.len() - 1].id == przebieg::kolejka(s, ufs)[n].0);
    }
}

/// A measured entropy is what the register then holds, without a read error; a failed
/// reading leaves a read error and the old entropy; a reading that was cut short
/// changes nothing.
pub proof fn zapis_odczytu(
    stara: (Option<Binary64>, Option<bool>),
    id: i32,
    e: Binary64,
    b: String,
)
    ensures
        przebieg::po_zapisie(stara, przebieg::wynik_pliku(id, WynikEntropii::Entropia(e))) == (
            Some(e),
            Some(false),
        ),
        przebieg::po_zapisie(stara, przebieg::wynik_pliku(id, WynikEntropii::Blad(b))) == (
            stara.0,
            Some(true),
        ),
        przebieg::po_zapisie(stara, przebieg::wynik_pliku(id, WynikEntropii::Przerwano)) == stara,
        przebieg::wynik_pliku(id, WynikEntropii::Entropia(e)).id == id,
        przebieg::wynik_pliku(id, WynikEntropii::Blad(b)).id == id,
{
}

/// A result is written exactly when it holds an entropy or a read error.
pub proof fn zapisuje_sie_wynik(r: SideEntropyResult)
    ensures
        przebieg::zapisywany(r) <==> r.entropy is Some || r.io_error == Some(true),
{
}

/// How many files one class took, of the pool asked for.
pub open spec fn doszlo(po: Grupa, przed: Grupa, wspolny: bool) -> int {
    if wspolny {
        po.common - przed.common
    } else {
        po.unique - przed.unique
    }
}

/// One where the condition holds.
pub open spec fn raz(b: bool) -> int {
    if b {
        1
    } else {
        0
    }
}

/// A measured file is counted by its entropy alone, in its own pool, under its own
/// format: above 7.995 as noise, an uncompressed one above 7.5 as encrypted, a
/// compressed one below 6.0 as broken, an uncompressed one below 1.0 as a husk. It is
/// no read error.
pub proof fn zmierzony_liczony_wedlug_entropii(
    n: LiveStats,
    p: LiveStats,
    ext: Seq<char>,
    wspolny: bool,
    rozmiar: u64,
    e: Binary64,
)
    requires
        n.po_pliku(p, ext, wspolny, rozmiar, WynikEntropii::Entropia(e)),
    ensures
        ({
            let z = entropia::skompresowany(ext);
            let szum = prawa_progow::szum(e);
            let szyfr = !z && prawa_progow::ponad(e, 7500) && !szum;
            let zepsuty = z && prawa_progow::pod(e, 6000);
            let pusty = !z && prawa_progow::co_najmniej(e, 0) && prawa_progow::pod(e, 1000);
            &&& n.errors == p.errors
            &&& n.processed_files == p.processed_files + 1
            &&& n.processed_bytes == p.processed_bytes + rozmiar
            &&& licznik::ile(n.ext_weights@, ext) == licznik::ile(p.ext_weights@, ext) + rozmiar
            &&& doszlo(n.noise, p.noise, wspolny) == raz(szum)
            &&& doszlo(n.crypto, p.crypto, wspolny) == raz(szyfr)
            &&& doszlo(n.broken, p.broken, wspolny) == raz(zepsuty)
            &&& doszlo(n.low, p.low, wspolny) == raz(pusty)
            &&& doszlo(n.noise, p.noise, !wspolny) == 0
            &&& doszlo(n.crypto, p.crypto, !wspolny) == 0
            &&& doszlo(n.broken, p.broken, !wspolny) == 0
            &&& doszlo(n.low, p.low, !wspolny) == 0
            &&& licznik::ile(n.noise.ext@, ext) == licznik::ile(p.noise.ext@, ext) + raz(szum)
            &&& licznik::ile(n.crypto.ext@, ext) == licznik::ile(p.crypto.ext@, ext) + raz(szyfr)
            &&& licznik::ile(n.broken.ext@, ext) == licznik::ile(p.broken.ext@, ext) + raz(zepsuty)
            &&& licznik::ile(n.low.ext@, ext) == licznik::ile(p.low.ext@, ext) + raz(pusty)
        }),
{
    prawa_entropii::granice_klas(e, entropia::skompresowany(ext));
    licznik::zwiekszony_liczy(p.ext_weights@, ext, rozmiar as nat, ext);
    licznik::zwiekszony_liczy(p.noise.ext@, ext, 1, ext);
    licznik::zwiekszony_liczy(p.crypto.ext@, ext, 1, ext);
    licznik::zwiekszony_liczy(p.broken.ext@, ext, 1, ext);
    licznik::zwiekszony_liczy(p.low.ext@, ext, 1, ext);
}

/// A file without a measured entropy is in no class; a failed reading is one read
/// error more, one that was cut short is none.
pub proof fn niezmierzony_poza_klasami(
    n: LiveStats,
    p: LiveStats,
    ext: Seq<char>,
    wspolny: bool,
    rozmiar: u64,
    w: WynikEntropii,
)
    requires
        n.po_pliku(p, ext, wspolny, rozmiar, w),
        w is Blad || w is Przerwano,
    ensures
        n.errors == p.errors + raz(w is Blad),
        n.processed_files == p.processed_files + 1,
        n.processed_bytes == p.processed_bytes + rozmiar,
        n.noise.common == p.noise.common && n.noise.unique == p.noise.unique,
        n.crypto.common == p.crypto.common && n.crypto.unique == p.crypto.unique,
        n.broken.common == p.broken.common && n.broken.unique == p.broken.unique,
        n.low.common == p.low.common && n.low.unique == p.low.unique,
{
}

/// The report has a line for a failed reading and for every anomalous entropy, and
/// for nothing else.
pub proof fn linia_tylko_o_anomalii(
    strona: Seq<char>,
    wspolny: bool,
    ext: Seq<char>,
    pelna: Seq<char>,
    e: Binary64,
    b: String,
)
    ensures
        ({
            let z = entropia::skompresowany(ext);
            let szum = prawa_progow::szum(e);
            let szyfr = !z && prawa_progow::ponad(e, 7500) && !szum;
            let zepsuty = z && prawa_progow::pod(e, 6000);
            let pusty = !z && prawa_progow::co_najmniej(e, 0) && prawa_progow::pod(e, 1000);
            let u = przebieg::uwaga(strona, wspolny, ext, pelna, WynikEntropii::Entropia(e));
            &&& u is Some <==> szum || szyfr || zepsuty || pusty
            &&& szum ==> u == Some(
                linia(strona, wspolny, "Biały Szum / Śmieci (H="@ + e.zapis(3) + ")"@, ext, pelna),
            )
            &&& szyfr ==> u == Some(
                linia(
                    strona,
                    wspolny,
                    "Zaszyfrowany / Nadpisany (H="@ + e.zapis(3) + ")"@,
                    ext,
                    pelna,
                ),
            )
            &&& zepsuty ==> u == Some(
                linia(strona, wspolny, "Zepsuta Kompresja (H="@ + e.zapis(3) + ")"@, ext, pelna),
            )
            &&& pusty ==> u == Some(
                linia(strona, wspolny, "Wydmuszka / Pusty blok (H="@ + e.zapis(3) + ")"@, ext, pelna),
            )
        }),
        przebieg::uwaga(strona, wspolny, ext, pelna, WynikEntropii::Blad(b)) == Some(
            linia(strona, wspolny, "Błąd I/O: "@ + b@, ext, pelna),
        ),
        przebieg::uwaga(strona, wspolny, ext, pelna, WynikEntropii::Przerwano) is None,
{
    prawa_entropii::granice_klas(e, entropia::skompresowany(ext));
}

/// A line of the report: the source, the pool, what was found, the format and the
/// whole path.
pub open spec fn linia(
    strona: Seq<char>,
    wspolny: bool,
    opis: Seq<char>,
    ext: Seq<char>,
    pelna: Seq<char>,
) -> Seq<char> {
    "["@ + tekst::dopelniony(strona, 15) + "] ["@ + tekst::dopelniony(
        if wspolny {
            "Wspólne"@
        } else {
            "Unikalne"@
        },
        8,
    ) + "] ["@ + opis + "] Format: ."@ + tekst::dopelniony(ext, 5) + " | Ścieżka: \""@ + pelna
        + "\""@
}

/// The journal counts the copy of a source under a class by the entropy of that
/// source alone, in the pool of both sources exactly where both hold the file.
pub proof fn komorka_wedlug_wlasnej_entropii(p: Pomiar, wspolne: bool)
    ensures
        ({
            let z = entropia::skompresowany(entropia::format_pliku(p.relative_path@));
            let oba = p.found_in_ufs && p.found_in_script;
            let u = p.found_in_ufs && p.entropy_ufs is Some && wspolne == oba;
            let s = p.found_in_script && p.entropy_script is Some && wspolne == oba;
            let hu = p.entropy_ufs->0;
            let hs = p.entropy_script->0;
            &&& raport::trafia(p, KategoriaEntropii::Szum, wspolne, true) <==> u
                && prawa_progow::szum(hu)
            &&& raport::trafia(p, KategoriaEntropii::Szum, wspolne, false) <==> s
                && prawa_progow::szum(hs)
            &&& raport::trafia(p, KategoriaEntropii::Zaszyfrowany, wspolne, true) <==> u && !z
                && prawa_progow::ponad(hu, 7500) && !prawa_progow::szum(hu)
            &&& raport::trafia(p, KategoriaEntropii::Zaszyfrowany, wspolne, false) <==> s && !z
                && prawa_progow::ponad(hs, 7500) && !prawa_progow::szum(hs)
            &&& raport::trafia(p, KategoriaEntropii::ZepsutaKompresja, wspolne, true) <==> u && z
                && prawa_progow::pod(hu, 6000)
            &&& raport::trafia(p, KategoriaEntropii::ZepsutaKompresja, wspolne, false) <==> s && z
                && prawa_progow::pod(hs, 6000)
            &&& raport::trafia(p, KategoriaEntropii::Wydmuszka, wspolne, true) <==> u && !z
                && prawa_progow::co_najmniej(hu, 0) && prawa_progow::pod(hu, 1000)
            &&& raport::trafia(p, KategoriaEntropii::Wydmuszka, wspolne, false) <==> s && !z
                && prawa_progow::co_najmniej(hs, 0) && prawa_progow::pod(hs, 1000)
        }),
{
    let z = entropia::skompresowany(entropia::format_pliku(p.relative_path@));
    prawa_entropii::granice_klas(p.entropy_ufs->0, z);
    prawa_entropii::granice_klas(p.entropy_script->0, z);
}

/// The numbers of one class on the panel: the files of both sources first, then those
/// of one alone.
pub open spec fn liczby_grupy(g: Grupa) -> Seq<char> {
    tekst::dziesietny(g.common as nat) + " wspólne / "@ + tekst::dziesietny(g.unique as nat)
        + " unikalne | top: "@ + przebieg::najczestsze(g.ext@)
}

/// The panel gives every class behind its name and its bound, and the read errors.
pub proof fn panel_podaje_klasy(
    label: Seq<char>,
    s: LiveStats,
    predkosc: Binary64,
    top: Seq<(String, String)>,
    watki: Seq<char>,
)
    ensures
        ({
            let l = "\nSzum/Śmieci (H>7.99): "@ + liczby_grupy(s.noise)
                + "\nSzyfrowanie (H>7.5): "@ + liczby_grupy(s.crypto)
                + "\nZepsuta kompresja (H<6.0): "@ + liczby_grupy(s.broken)
                + "\nWydmuszki (H<1.0): "@ + liczby_grupy(s.low)
                + "\nWątki entropii (Wariant A): "@ + watki + "\nBłędy I/O: "@
                + tekst::dziesietny(s.errors as nat);
            let t = przebieg::panel(label, s, predkosc, top, watki);
            t.len() >= l.len() && t.skip(t.len() - l.len()) == l
        }),
{
    let l = "\nSzum/Śmieci (H>7.99): "@ + liczby_grupy(s.noise) + "\nSzyfrowanie (H>7.5): "@
        + liczby_grupy(s.crypto) + "\nZepsuta kompresja (H<6.0): "@ + liczby_grupy(s.broken)
        + "\nWydmuszki (H<1.0): "@ + liczby_grupy(s.low) + "\nWątki entropii (Wariant A): "@ + watki
        + "\nBłędy I/O: "@ + tekst::dziesietny(s.errors as nat);
    let a = "["@ + label + "]\nPrędkość: "@ + predkosc.zapis(2) + " MB/s\nTop format: "@
        + przebieg::wagi_panelu(top);
    let t = przebieg::panel(label, s, predkosc, top, watki);
    let r1 = "\nSzum/Śmieci (H>7.99): "@;
    let r2 = r1 + liczby_grupy(s.noise);
    let r3 = r2 + "\nSzyfrowanie (H>7.5): "@;
    let r4 = r3 + liczby_grupy(s.crypto);
    let r5 = r4 + "\nZepsuta kompresja (H<6.0): "@;
    let r6 = r5 + liczby_grupy(s.broken);
    let r7 = r6 + "\nWydmuszki (H<1.0): "@;
    let r8 = r7 + liczby_grupy(s.low);
    let r9 = r8 + "\nWątki entropii (Wariant A): "@;
    let r10 = r9 + watki;
    let r11 = r10 + "\nBłędy I/O: "@;
    laczne(a, r1, liczby_grupy(s.noise));
    laczne(a, r2, "\nSzyfrowanie (H>7.5): "@);
    laczne(a, r3, liczby_grupy(s.crypto));
    laczne(a, r4, "\nZepsuta kompresja (H<6.0): "@);
    laczne(a, r5, liczby_grupy(s.broken));
    laczne(a, r6, "\nWydmuszki (H<1.0): "@);
    laczne(a, r7, liczby_grupy(s.low));
    laczne(a, r8, "\nWątki entropii (Wariant A): "@);
    laczne(a, r9, watki);
    laczne(a, r10, "\nBłędy I/O: "@);
    laczne(a, r11, tekst::dziesietny(s.errors as nat));
    koncowka(a, l, t);
}

proof fn laczne(a: Seq<char>, b: Seq<char>, c: Seq<char>)
    ensures
        (a + b) + c == a + (b + c),
{
    assert((a + b) + c =~= a + (b + c));
}

proof fn koncowka(a: Seq<char>, b: Seq<char>, t: Seq<char>)
    requires
        t == a + b,
    ensures
        t.len() >= b.len() && t.skip(t.len() - b.len()) == b,
{
    assert(t.skip(t.len() - b.len()) =~= b);
}

/// A file is counted under its extension in lower case, and under `brak` where it has
/// none; only that one is shown without a dot.
pub proof fn format_wedlug_rozszerzenia(rel: Seq<char>, ext: Seq<char>)
    ensures
        sciezka::rozszerzenie(rel) is None ==> entropia::format_pliku(rel) == tekst::male_litery(
            "brak"@,
        ),
        sciezka::rozszerzenie(rel) matches Some(e) ==> entropia::format_pliku(rel)
            == tekst::male_litery(e),
        przebieg::pokazany("brak"@) == "brak"@,
        ext != "brak"@ ==> przebieg::pokazany(ext) == seq!['.'] + ext,
{
    reveal_strlit(".");
    assert("."@ =~= seq!['.']);
}

/// The format shown for a class is one of those counted in it, with its count, and no
/// other format counts more.
pub proof fn najczestszy_format(s: Seq<(Seq<char>, nat)>) -> (e: (Seq<char>, nat))
    ensures
        s.len() == 0 ==> przebieg::najczestsze(s) == "-"@,
        s.len() > 0 ==> s.contains(e) && (forall|i: int|
            0 <= i < s.len() ==> (#[trigger] s[i]).1 <= e.1) && przebieg::najczestsze(s)
            == przebieg::pokazany(e.0) + " ("@ + tekst::dziesietny(e.1) + ")"@,
{
    let m = licznik::malejaco(s);
    licznik::malejaco_porzadkuje(s);
    broadcast use vstd::seq_lib::group_to_multiset_ensures;

    let e = m[0];
    if s.len() > 0 {
        assert(m.contains(m[0]));
        assert(m.to_multiset().count(e) > 0);
        assert(s.contains(e));
        assert forall|i: int| 0 <= i < s.len() implies (#[trigger] s[i]).1 <= e.1 by {
            assert(s.contains(s[i]));
            assert(s.to_multiset().count(s[i]) > 0);
            assert(m.contains(s[i]));
            let j = choose|j: int| 0 <= j < m.len() && m[j] == s[i];
            assert(m[0].1 >= m[j].1);
        }
    }
    e
}

} // verus!
