//! Laws of the accounts and of the journals and panels that show them: every number
//! stands behind the words that name it.

use vstd::prelude::*;

use crate::binary64::Binary64;
use crate::licznik;
use crate::phases::phase7::entropia::KategoriaEntropii;
use crate::phases::phase7::raport;
use crate::phases::phase7::raport::{DaneDziennika, Formaty, Raport, Zestawienie};
use crate::phases::phase8;
use crate::phases::phase8::{Kategoria, Stats};
use crate::phases::phase9::decyzja::{MergeCandidate, Strona};
use crate::phases::phase9::kopiowanie::Skutek;
use crate::phases::phase9::przebieg;
use crate::phases::phase9::przebieg::LiveStats;
use crate::tekst;

verus! {

/// What stands between two texts is found in the whole.
proof fn w_srodku(a: Seq<char>, b: Seq<char>, c: Seq<char>)
    ensures
        tekst::zawiera_tekst(a + b + c, b),
{
    let t = a + b + c;
    assert(t.subrange(a.len() as int, (a.len() + b.len()) as int) =~= b);
    assert(tekst::wystepuje(t, b, a.len() as int));
}

/// What is found in a part is found in the whole.
proof fn w_calosci(a: Seq<char>, b: Seq<char>, c: Seq<char>, w: Seq<char>)
    requires
        tekst::zawiera_tekst(b, w),
    ensures
        tekst::zawiera_tekst(a + b + c, w),
{
    let t = a + b + c;
    let i = choose|i: int| tekst::wystepuje(b, w, i);
    assert(t.subrange(a.len() + i, a.len() + i + w.len()) =~= b.subrange(i, i + w.len()));
    assert(tekst::wystepuje(t, w, a.len() + i));
}

proof fn laczne(a: Seq<char>, b: Seq<char>, c: Seq<char>)
    ensures
        (a + b) + c == a + (b + c),
{
    assert((a + b) + c =~= a + (b + c));
}

/// A list names every one of its entries with its count.
pub proof fn wykaz_wymienia_kazdy(
    s: Seq<(Seq<char>, nat)>,
    k: nat,
    a: Seq<char>,
    b: Seq<char>,
    c: Seq<char>,
    i: int,
)
    requires
        0 <= i < k <= s.len(),
    ensures
        tekst::zawiera_tekst(
            licznik::wykaz(s, k, a, b, c),
            a + s[i].0 + b + tekst::dziesietny(s[i].1) + c,
        ),
    decreases k,
{
    let p = licznik::wykaz(s, (k - 1) as nat, a, b, c);
    let l = a + s[k - 1].0 + b + tekst::dziesietny(s[k - 1].1) + c;
    assert(licznik::wykaz(s, k, a, b, c) =~= p + l + Seq::<char>::empty());
    if i == k - 1 {
        w_srodku(p, l, Seq::empty());
    } else {
        wykaz_wymienia_kazdy(s, (k - 1) as nat, a, b, c, i);
        assert(licznik::wykaz(s, k, a, b, c) =~= Seq::<char>::empty() + p + l);
        w_calosci(Seq::empty(), p, l, a + s[i].0 + b + tekst::dziesietny(s[i].1) + c);
    }
}

/// A short list names its first entries with their counts.
pub proof fn czolowka_wymienia(s: Seq<(Seq<char>, nat)>, n: nat, i: int)
    requires
        0 <= i < n,
        i < s.len(),
    ensures
        tekst::zawiera_tekst(
            licznik::najwieksze(s, n),
            licznik::malejaco(s)[i].0 + " ("@ + tekst::dziesietny(licznik::malejaco(s)[i].1)
                + ")"@,
        ),
{
    wyliczenie_wymienia(
        licznik::malejaco(s),
        if n < s.len() {
            n
        } else {
            s.len()
        },
        i,
    );
}

proof fn wyliczenie_wymienia(s: Seq<(Seq<char>, nat)>, k: nat, i: int)
    requires
        0 <= i < k,
    ensures
        tekst::zawiera_tekst(
            licznik::wyliczenie(s, k),
            s[i].0 + " ("@ + tekst::dziesietny(s[i].1) + ")"@,
        ),
    decreases k,
{
    let e = Seq::<char>::empty();
    let l = s[i].0 + " ("@ + tekst::dziesietny(s[i].1) + ")"@;
    let t = licznik::wyliczenie(s, k);
    bez_konca(t);
    if k == 1 {
        assert(e + l =~= l);
        w_srodku(e, l, e);
    } else {
        let p = licznik::wyliczenie(s, (k - 1) as nat);
        if i == k - 1 {
            w_srodku(p + ", "@, l, e);
        } else {
            wyliczenie_wymienia(s, (k - 1) as nat, i);
            let o = licznik::pozycja(s[k - 1]);
            laczne(p, ", "@, o);
            assert(e + p =~= p);
            w_calosci(e, p, ", "@ + o, l);
        }
    }
}

// ---------------------------------------------------------------------------
// Phase 8
// ---------------------------------------------------------------------------

/// The lines of the journal of phase 8 that give the heaps.
pub open spec fn linie_kopcow(s: Stats) -> Seq<char> {
    "\n\n[ 🦠 ] Pliki Zainfekowane (Malware/Ransomware): "@ + tekst::dziesietny(s.infected as nat)
        + "\n[ 🛠️ ] Pliki Zrekonstruowane (Aktywna Naprawa): "@ + tekst::dziesietny(
        s.repaired as nat,
    ) + "\n[ ✔ ] Pliki w 100% Zdrowe (Zgodne lub Unikalne): "@ + tekst::dziesietny(s.ok as nat)
        + "\n[ ⚠ ] Pliki Podejrzane (Częściowe anomalie):     "@ + tekst::dziesietny(
        s.suspect as nat,
    ) + "\n[ ✖ ] Pliki Odrzucone (Bezużyteczne Śmieci):     "@ + tekst::dziesietny(s.reject as nat)
        + "\n\n"@
}

/// The line of a reason in the journal of phase 8.
pub open spec fn linia_powodu(e: (Seq<char>, nat)) -> Seq<char> {
    "   -> "@ + e.0 + ": "@ + tekst::dziesietny(e.1) + " plików\n"@
}

/// The journal of phase 8 gives the size of every heap behind the name of that heap,
/// the number of files judged and the time.
pub proof fn dziennik8_podaje_kopce(s: Stats, i: nat, czas: Seq<char>)
    ensures
        tekst::zawiera_tekst(phase8::dziennik(s, i, czas), linie_kopcow(s)),
        tekst::zawiera_tekst(
            phase8::dziennik(s, i, czas),
            "\n==========================================================================\n\nPomyślnie oceniono plików łącznie: "@
                + tekst::dziesietny(i) + "\n\n[ 🦠 ] Pliki Zainfekowane (Malware/Ransomware): "@,
        ),
        s.repaired > 0 ==> tekst::zawiera_tekst(
            phase8::dziennik(s, i, czas),
            " łącznie):\n   -> Smart Splice (Faza 18, składanie z OBU kopii): "@
                + tekst::dziesietny(s.smart_splice as nat)
                + "\n   -> Silnik naprawczy (Faza 17, pojedyncze moduły): "@ + tekst::dziesietny(
                s.naprawiony as nat,
            ) + "\n\n"@,
        ),
{
    kopce_w_dzienniku(s, i, czas);
    liczba_w_dzienniku(s, i, czas);
    if s.repaired > 0 {
        rozbicie_w_dzienniku(s, i, czas);
    }
}

proof fn kopce_w_dzienniku(s: Stats, i: nat, czas: Seq<char>)
    ensures
        tekst::zawiera_tekst(phase8::dziennik(s, i, czas), linie_kopcow(s)),
{
    let a = "==========================================================================\nDZIENNIK KOŃCOWY - FAZA 8 (PODSUMOWANIE HEURYSTYKI I DECYZJE)\nCzas trwania: "@ + czas + "\n==========================================================================\n\nPomyślnie oceniono plików łącznie: "@
        + tekst::dziesietny(i);
    let r1 = phase8::rozbicie(
        "SZCZEGÓŁOWE ROZBICIE KATEGORII ODRZUTÓW (Pliki Śmieciowe):\n"@,
        s.reject_reasons@,
    );
    let r2 = phase8::rozbicie(
        "SZCZEGÓŁOWE ROZBICIE KATEGORII PODEJRZANYCH:\n"@,
        s.suspect_reasons@,
    );
    let r3 = phase8::rozbicie_rekonstrukcji(s);
    let r4 = phase8::rozbicie("DOPASOWANE REGUŁY YARA:\n"@, s.yara_rule_counts@);
    let k1 = "\n\n[ 🦠 ] Pliki Zainfekowane (Malware/Ransomware): "@;
    let k2 = k1 + tekst::dziesietny(s.infected as nat);
    laczne(a, k1, tekst::dziesietny(s.infected as nat));
    let k3 = k2 + "\n[ 🛠️ ] Pliki Zrekonstruowane (Aktywna Naprawa): "@;
    laczne(a, k2, "\n[ 🛠️ ] Pliki Zrekonstruowane (Aktywna Naprawa): "@);
    let k4 = k3 + tekst::dziesietny(s.repaired as nat);
    laczne(a, k3, tekst::dziesietny(s.repaired as nat));
    let k5 = k4 + "\n[ ✔ ] Pliki w 100% Zdrowe (Zgodne lub Unikalne): "@;
    laczne(a, k4, "\n[ ✔ ] Pliki w 100% Zdrowe (Zgodne lub Unikalne): "@);
    let k6 = k5 + tekst::dziesietny(s.ok as nat);
    laczne(a, k5, tekst::dziesietny(s.ok as nat));
    let k7 = k6 + "\n[ ⚠ ] Pliki Podejrzane (Częściowe anomalie):     "@;
    laczne(a, k6, "\n[ ⚠ ] Pliki Podejrzane (Częściowe anomalie):     "@);
    let k8 = k7 + tekst::dziesietny(s.suspect as nat);
    laczne(a, k7, tekst::dziesietny(s.suspect as nat));
    let k9 = k8 + "\n[ ✖ ] Pliki Odrzucone (Bezużyteczne Śmieci):     "@;
    laczne(a, k8, "\n[ ✖ ] Pliki Odrzucone (Bezużyteczne Śmieci):     "@);
    let k10 = k9 + tekst::dziesietny(s.reject as nat);
    laczne(a, k9, tekst::dziesietny(s.reject as nat));
    let k11 = k10 + "\n\n"@;
    laczne(a, k10, "\n\n"@);
    let o1 = r1;
    let o2 = o1 + r2;
    laczne(a + k11, o1, r2);
    let o3 = o2 + r3;
    laczne(a + k11, o2, r3);
    let o4 = o3 + r4;
    laczne(a + k11, o3, r4);
    w_srodku(a, k11, o4);
}

proof fn liczba_w_dzienniku(s: Stats, i: nat, czas: Seq<char>)
    ensures
        tekst::zawiera_tekst(
            phase8::dziennik(s, i, czas),
            "\n==========================================================================\n\nPomyślnie oceniono plików łącznie: "@
                + tekst::dziesietny(i) + "\n\n[ 🦠 ] Pliki Zainfekowane (Malware/Ransomware): "@,
        ),
{
    let a0 = "==========================================================================\nDZIENNIK KOŃCOWY - FAZA 8 (PODSUMOWANIE HEURYSTYKI I DECYZJE)\nCzas trwania: "@ + czas;
    let e = "\n==========================================================================\n\nPomyślnie oceniono plików łącznie: "@;
    let n = tekst::dziesietny(i);
    let r1 = phase8::rozbicie(
        "SZCZEGÓŁOWE ROZBICIE KATEGORII ODRZUTÓW (Pliki Śmieciowe):\n"@,
        s.reject_reasons@,
    );
    let r2 = phase8::rozbicie(
        "SZCZEGÓŁOWE ROZBICIE KATEGORII PODEJRZANYCH:\n"@,
        s.suspect_reasons@,
    );
    let r3 = phase8::rozbicie_rekonstrukcji(s);
    let r4 = phase8::rozbicie("DOPASOWANE REGUŁY YARA:\n"@, s.yara_rule_counts@);
    let m1 = e;
    let m2 = m1 + n;
    laczne(a0, m1, n);
    let m3 = m2 + "\n\n[ 🦠 ] Pliki Zainfekowane (Malware/Ransomware): "@;
    laczne(a0, m2, "\n\n[ 🦠 ] Pliki Zainfekowane (Malware/Ransomware): "@);
    let q1 = tekst::dziesietny(s.infected as nat);
    let q2 = q1 + "\n[ 🛠️ ] Pliki Zrekonstruowane (Aktywna Naprawa): "@;
    laczne(a0 + m3, q1, "\n[ 🛠️ ] Pliki Zrekonstruowane (Aktywna Naprawa): "@);
    let q3 = q2 + tekst::dziesietny(s.repaired as nat);
    laczne(a0 + m3, q2, tekst::dziesietny(s.repaired as nat));
    let q4 = q3 + "\n[ ✔ ] Pliki w 100% Zdrowe (Zgodne lub Unikalne): "@;
    laczne(a0 + m3, q3, "\n[ ✔ ] Pliki w 100% Zdrowe (Zgodne lub Unikalne): "@);
    let q5 = q4 + tekst::dziesietny(s.ok as nat);
    laczne(a0 + m3, q4, tekst::dziesietny(s.ok as nat));
    let q6 = q5 + "\n[ ⚠ ] Pliki Podejrzane (Częściowe anomalie):     "@;
    laczne(a0 + m3, q5, "\n[ ⚠ ] Pliki Podejrzane (Częściowe anomalie):     "@);
    let q7 = q6 + tekst::dziesietny(s.suspect as nat);
    laczne(a0 + m3, q6, tekst::dziesietny(s.suspect as nat));
    let q8 = q7 + "\n[ ✖ ] Pliki Odrzucone (Bezużyteczne Śmieci):     "@;
    laczne(a0 + m3, q7, "\n[ ✖ ] Pliki Odrzucone (Bezużyteczne Śmieci):     "@);
    let q9 = q8 + tekst::dziesietny(s.reject as nat);
    laczne(a0 + m3, q8, tekst::dziesietny(s.reject as nat));
    let q10 = q9 + "\n\n"@;
    laczne(a0 + m3, q9, "\n\n"@);
    let q11 = q10 + r1;
    laczne(a0 + m3, q10, r1);
    let q12 = q11 + r2;
    laczne(a0 + m3, q11, r2);
    let q13 = q12 + r3;
    laczne(a0 + m3, q12, r3);
    let q14 = q13 + r4;
    laczne(a0 + m3, q13, r4);
    w_srodku(a0, m3, q14);
}

proof fn rozbicie_w_dzienniku(s: Stats, i: nat, czas: Seq<char>)
    requires
        s.repaired > 0,
    ensures
        tekst::zawiera_tekst(
            phase8::dziennik(s, i, czas),
            " łącznie):\n   -> Smart Splice (Faza 18, składanie z OBU kopii): "@ + tekst::dziesietny(s.smart_splice as nat) + "\n   -> Silnik naprawczy (Faza 17, pojedyncze moduły): "@ + tekst::dziesietny(s.naprawiony as nat) + "\n\n"@,
        ),
{
    let g = "==========================================================================\nDZIENNIK KOŃCOWY - FAZA 8 (PODSUMOWANIE HEURYSTYKI I DECYZJE)\nCzas trwania: "@ + czas + "\n==========================================================================\n\nPomyślnie oceniono plików łącznie: "@
        + tekst::dziesietny(i) + "\n\n[ 🦠 ] Pliki Zainfekowane (Malware/Ransomware): "@ + tekst::dziesietny(s.infected as nat) + "\n[ 🛠️ ] Pliki Zrekonstruowane (Aktywna Naprawa): "@ + tekst::dziesietny(s.repaired as nat) + "\n[ ✔ ] Pliki w 100% Zdrowe (Zgodne lub Unikalne): "@ + tekst::dziesietny(s.ok as nat) + "\n[ ⚠ ] Pliki Podejrzane (Częściowe anomalie):     "@ + tekst::dziesietny(s.suspect as nat) + "\n[ ✖ ] Pliki Odrzucone (Bezużyteczne Śmieci):     "@ + tekst::dziesietny(s.reject as nat) + "\n\n"@;
    let r1 = phase8::rozbicie(
        "SZCZEGÓŁOWE ROZBICIE KATEGORII ODRZUTÓW (Pliki Śmieciowe):\n"@,
        s.reject_reasons@,
    );
    let r2 = phase8::rozbicie(
        "SZCZEGÓŁOWE ROZBICIE KATEGORII PODEJRZANYCH:\n"@,
        s.suspect_reasons@,
    );
    let r3 = phase8::rozbicie_rekonstrukcji(s);
    let r4 = phase8::rozbicie("DOPASOWANE REGUŁY YARA:\n"@, s.yara_rule_counts@);
    let p = "ROZBICIE REKONSTRUKCJI ("@ + tekst::dziesietny(s.repaired as nat);
    let d1 = " łącznie):\n   -> Smart Splice (Faza 18, składanie z OBU kopii): "@;
    let d2 = d1 + tekst::dziesietny(s.smart_splice as nat);
    laczne(p, d1, tekst::dziesietny(s.smart_splice as nat));
    let d3 = d2 + "\n   -> Silnik naprawczy (Faza 17, pojedyncze moduły): "@;
    laczne(p, d2, "\n   -> Silnik naprawczy (Faza 17, pojedyncze moduły): "@);
    let d4 = d3 + tekst::dziesietny(s.naprawiony as nat);
    laczne(p, d3, tekst::dziesietny(s.naprawiony as nat));
    let d5 = d4 + "\n\n"@;
    laczne(p, d4, "\n\n"@);
    bez_konca(p + d5);
    w_srodku(p, d5, Seq::empty());
    w_calosci(g + r1 + r2, r3, r4, d5);
}

/// The journal of phase 8 names every reason of a refusal, every reason of a suspicion
/// and every rule that matched, each with its count.
pub proof fn dziennik8_wymienia_powody(s: Stats, i: nat, czas: Seq<char>, e: (Seq<char>, nat))
    requires
        s.reject_reasons@.contains(e) || s.suspect_reasons@.contains(e)
            || s.yara_rule_counts@.contains(e),
    ensures
        tekst::zawiera_tekst(phase8::dziennik(s, i, czas), linia_powodu(e)),
{
    let g = "==========================================================================\nDZIENNIK KOŃCOWY - FAZA 8 (PODSUMOWANIE HEURYSTYKI I DECYZJE)\nCzas trwania: "@
        + czas
        + "\n==========================================================================\n\nPomyślnie oceniono plików łącznie: "@
        + tekst::dziesietny(i) + "\n\n[ 🦠 ] Pliki Zainfekowane (Malware/Ransomware): "@
        + tekst::dziesietny(s.infected as nat)
        + "\n[ 🛠️ ] Pliki Zrekonstruowane (Aktywna Naprawa): "@ + tekst::dziesietny(s.repaired as nat)
        + "\n[ ✔ ] Pliki w 100% Zdrowe (Zgodne lub Unikalne): "@ + tekst::dziesietny(s.ok as nat)
        + "\n[ ⚠ ] Pliki Podejrzane (Częściowe anomalie):     "@ + tekst::dziesietny(
        s.suspect as nat,
    ) + "\n[ ✖ ] Pliki Odrzucone (Bezużyteczne Śmieci):     "@ + tekst::dziesietny(s.reject as nat)
        + "\n\n"@;
    let r1 = phase8::rozbicie(
        "SZCZEGÓŁOWE ROZBICIE KATEGORII ODRZUTÓW (Pliki Śmieciowe):\n"@,
        s.reject_reasons@,
    );
    let r2 = phase8::rozbicie(
        "SZCZEGÓŁOWE ROZBICIE KATEGORII PODEJRZANYCH:\n"@,
        s.suspect_reasons@,
    );
    let r3 = phase8::rozbicie_rekonstrukcji(s);
    let r4 = phase8::rozbicie("DOPASOWANE REGUŁY YARA:\n"@, s.yara_rule_counts@);
    if s.reject_reasons@.contains(e) {
        rozbicie_wymienia(
            "SZCZEGÓŁOWE ROZBICIE KATEGORII ODRZUTÓW (Pliki Śmieciowe):\n"@,
            s.reject_reasons@,
            e,
        );
    } else if s.suspect_reasons@.contains(e) {
        rozbicie_wymienia(
            "SZCZEGÓŁOWE ROZBICIE KATEGORII PODEJRZANYCH:\n"@,
            s.suspect_reasons@,
            e,
        );
    } else {
        rozbicie_wymienia("DOPASOWANE REGUŁY YARA:\n"@, s.yara_rule_counts@, e);
    }
    w_jednej_z_czesci(g, r1, r2, r3, r4, Seq::empty(), linia_powodu(e));
    bez_konca(phase8::dziennik(s, i, czas));
}

proof fn bez_konca(t: Seq<char>)
    ensures
        t + Seq::<char>::empty() == t,
{
    assert(t + Seq::<char>::empty() =~= t);
}

proof fn rozbicie_wymienia(naglowek: Seq<char>, s: Seq<(Seq<char>, nat)>, e: (Seq<char>, nat))
    requires
        s.contains(e),
    ensures
        tekst::zawiera_tekst(phase8::rozbicie(naglowek, s), linia_powodu(e)),
{
    let m = licznik::malejaco(s);
    licznik::malejaco_porzadkuje(s);
    broadcast use vstd::seq_lib::group_to_multiset_ensures;

    assert(s.to_multiset().count(e) > 0);
    assert(m.contains(e));
    let i = choose|i: int| 0 <= i < m.len() && m[i] == e;
    let w = licznik::wykaz(m, s.len(), "   -> "@, ": "@, " plików\n"@);
    wykaz_wymienia_kazdy(m, s.len(), "   -> "@, ": "@, " plików\n"@, i);
    assert(phase8::rozbicie(naglowek, s) =~= naglowek + w + "\n"@);
    w_calosci(naglowek, w, "\n"@, linia_powodu(e));
}

/// The panel of phase 8 gives every number behind its name, in these lines.
pub proof fn panel8_podaje_liczby(
    ok: nat,
    suspect: nat,
    reject: nat,
    splice: nat,
    naprawiony: nat,
    infected: nat,
    z: Binary64,
    a: Seq<char>,
    b: Seq<char>,
    c: Seq<char>,
)
    ensures
        tekst::zawiera_tekst(
            phase8::panel(ok, suspect, reject, splice, naprawiony, infected, z, a, b, c),
            "[Podsumowanie]\nZdrowe: "@ + tekst::dziesietny(ok) + "\nPodejrzane: "@ + tekst::dziesietny(suspect) + "\nOdrzucone: "@ + tekst::dziesietny(
                reject,
            ) + "\nNaprawione (Smart Splice): "@ + tekst::dziesietny(splice)
                + "\nNaprawione (Silnik Fazy 17): "@ + tekst::dziesietny(naprawiony)
                + "\nWirusy: "@ + tekst::dziesietny(infected) + "\nWskaźnik zaufania: "@ + z.zapis(
                1,
            ) + "%\nTop powody odrzuceń: "@ + a + "\nTop powody podejrzeń: "@ + b
                + "\nTop reguły YARA: "@ + c,
        ),
{
    let e = Seq::<char>::empty();
    let l = "[Podsumowanie]\nZdrowe: "@ + tekst::dziesietny(ok) + "\nPodejrzane: "@ + tekst::dziesietny(suspect) + "\nOdrzucone: "@ + tekst::dziesietny(
        reject,
    ) + "\nNaprawione (Smart Splice): "@ + tekst::dziesietny(splice)
        + "\nNaprawione (Silnik Fazy 17): "@ + tekst::dziesietny(naprawiony) + "\nWirusy: "@
        + tekst::dziesietny(infected) + "\nWskaźnik zaufania: "@ + z.zapis(1)
        + "%\nTop powody odrzuceń: "@ + a + "\nTop powody podejrzeń: "@ + b + "\nTop reguły YARA: "@
        + c;
    assert(phase8::panel(ok, suspect, reject, splice, naprawiony, infected, z, a, b, c) =~= e + l
        + e);
    w_srodku(e, l, e);
}

/// The heap that a status goes to takes one file more, with the status or rule that
/// put it there, and nothing else changes.
pub proof fn werdykt_zmienia_jeden_kopiec(
    s: Stats,
    t: Stats,
    e: (Seq<char>, Seq<char>, Seq<char>),
)
    requires
        t.po_werdykcie(s, e),
    ensures
        ({
            let k = phase8::kategoria(e.0);
            &&& k == Kategoria::Zdrowy <==> t.ok == s.ok + 1
            &&& k != Kategoria::Zdrowy <==> t.ok == s.ok
            &&& k == Kategoria::Podejrzany <==> t.suspect == s.suspect + 1
            &&& k != Kategoria::Podejrzany <==> t.suspect == s.suspect
            &&& k == Kategoria::Odrzucony <==> t.reject == s.reject + 1
            &&& k != Kategoria::Odrzucony <==> t.reject == s.reject
            &&& k == Kategoria::Zainfekowany <==> t.infected == s.infected + 1
            &&& k != Kategoria::Zainfekowany <==> t.infected == s.infected
            &&& k == Kategoria::SmartSplice <==> t.smart_splice == s.smart_splice + 1
            &&& k != Kategoria::SmartSplice <==> t.smart_splice == s.smart_splice
            &&& k == Kategoria::Naprawiony <==> t.naprawiony == s.naprawiony + 1
            &&& k != Kategoria::Naprawiony <==> t.naprawiony == s.naprawiony
            &&& t.repaired - s.repaired == (t.smart_splice - s.smart_splice) + (t.naprawiony
                - s.naprawiony)
            &&& licznik::ile(t.reject_reasons@, e.0) == licznik::ile(s.reject_reasons@, e.0) + (
            t.reject - s.reject)
            &&& licznik::ile(t.suspect_reasons@, e.0) == licznik::ile(s.suspect_reasons@, e.0) + (
            t.suspect - s.suspect)
            &&& licznik::ile(t.yara_rule_counts@, e.2) == licznik::ile(s.yara_rule_counts@, e.2) + (
            t.infected - s.infected)
        }),
{
    licznik::zwiekszony_liczy(s.reject_reasons@, e.0, 1, e.0);
    licznik::zwiekszony_liczy(s.suspect_reasons@, e.0, 1, e.0);
    licznik::zwiekszony_liczy(s.yara_rule_counts@, e.2, 1, e.2);
}

// ---------------------------------------------------------------------------
// Phase 9
// ---------------------------------------------------------------------------

/// How much a counter grew.
pub open spec fn przyrost(po: usize, przed: usize) -> int {
    po - przed
}

/// One where the condition holds.
pub open spec fn raz(b: bool) -> int {
    if b {
        1
    } else {
        0
    }
}

/// A file counts once: a copy under the side that won and under its pool, a failure
/// under the errors; the reason counts with the copy, and the bytes are those of the
/// side that won.
pub proof fn plik_liczony_raz(
    n: LiveStats,
    p: LiveStats,
    f: MergeCandidate,
    d: (Strona, Seq<char>),
    w: Skutek,
    zlozenie: Option<i64>,
)
    requires
        n.po_pliku(p, f, d, w, zlozenie),
    ensures
        ({
            let oba = f.in_ufs && f.in_script;
            &&& n.processed_files == p.processed_files + 1
            &&& przyrost(n.copied_splice, p.copied_splice) == raz(w.success && d.0 is Splice)
            &&& przyrost(n.copied_ufs_common, p.copied_ufs_common) == raz(
                w.success && d.0 is Ufs && oba,
            )
            &&& przyrost(n.copied_ufs_unique, p.copied_ufs_unique) == raz(
                w.success && d.0 is Ufs && !oba,
            )
            &&& przyrost(n.copied_script_common, p.copied_script_common) == raz(
                w.success && d.0 is Script && oba,
            )
            &&& przyrost(n.copied_script_unique, p.copied_script_unique) == raz(
                w.success && d.0 is Script && !oba,
            )
            &&& przyrost(n.io_errors, p.io_errors) == raz(w.blad_io)
            &&& przyrost(n.meta_errors, p.meta_errors) == raz(w.blad_metadanych)
            &&& przyrost(n.renamed_files, p.renamed_files) == raz(w.zmieniona_nazwa)
            &&& przyrost(n.symlinks_recreated, p.symlinks_recreated) == raz(w.dowiazanie)
            &&& przyrost(n.repaired_used, p.repaired_used) == raz(w.naprawiona)
            &&& licznik::ile(n.reasons@, d.1) == licznik::ile(p.reasons@, d.1) + raz(w.success)
            &&& d.0 is Ufs && f.size_ufs is None ==> n.processed_bytes == p.processed_bytes
            &&& d.0 is Script && f.size_script is None ==> n.processed_bytes == p.processed_bytes
            &&& d.0 is Splice && (!w.success || zlozenie is None) ==> n.processed_bytes
                == p.processed_bytes
            &&& (d.0 is Ufs && f.size_ufs is Some && f.size_ufs->0 >= 0 && p.processed_bytes
                + f.size_ufs->0 <= u64::MAX ==> n.processed_bytes == p.processed_bytes
                + f.size_ufs->0)
            &&& (d.0 is Script && f.size_script is Some && f.size_script->0 >= 0
                && p.processed_bytes + f.size_script->0 <= u64::MAX ==> n.processed_bytes
                == p.processed_bytes + f.size_script->0)
            &&& (d.0 is Splice && w.success && zlozenie is Some && zlozenie->0 >= 0
                && p.processed_bytes + zlozenie->0 <= u64::MAX ==> n.processed_bytes
                == p.processed_bytes + zlozenie->0)
        }),
{
    licznik::zwiekszony_liczy(p.reasons@, d.1, 1, d.1);
}

/// The journal of phase 9 gives every number behind its name, names every reason with
/// its count, and lists errors and changed names where there were any.
pub proof fn dziennik9_podaje_liczby(
    s: LiveStats,
    czas: Seq<char>,
    transfer: Seq<char>,
    v: Binary64,
)
    ensures
        tekst::zawiera_tekst(
            przebieg::dziennik(s, czas, transfer, v),
            tekst::dziesietny(s.copied_ufs_common as nat) + "), Skrypt ("@ + tekst::dziesietny(
                s.copied_script_common as nat,
            ) + ")\n   -> Skopiowano pliki unikalne: UFS ("@ + tekst::dziesietny(
                s.copied_ufs_unique as nat,
            ) + "), Skrypt ("@ + tekst::dziesietny(s.copied_script_unique as nat)
                + ")\n   -> Wykorzystano Aktywnie Zrekonstruowane Wersje (Faza 17): "@
                + tekst::dziesietny(s.repaired_used as nat)
                + " plików\n\n[ 2 ] ŚLAD REWIZYJNY (Dlaczego algorytm odrzucał/wybierał poszczególne pliki):\n"@,
        ),
        s.renamed_files > 0 ==> tekst::zawiera_tekst(
            przebieg::dziennik(s, czas, transfer, v),
            "   -> Zmieniono nazwę (Ochrona przed nadpisaniem): "@ + tekst::dziesietny(
                s.renamed_files as nat,
            ) + "\n"@,
        ),
        s.io_errors > 0 ==> tekst::zawiera_tekst(
            przebieg::dziennik(s, czas, transfer, v),
            "   -> Błędy I/O zapisu: "@ + tekst::dziesietny(s.io_errors as nat) + "\n"@,
        ),
{
    let a = "==========================================================================\nDZIENNIK KOŃCOWY - FAZA 9 (ZŁOTA KOPIA I SMART MERGE)\nCzas trwania: "@ + czas + "\nSumaryczny transfer zapisu: "@ + transfer + " (Średnia prędkość: "@ + v.zapis(2) + " MB/s)\n==========================================================================\n\n[ 1 ] STATYSTYKI FUZJI:\n   -> Uratowano z puli wspólnej: UFS ("@;
    let w = licznik::wykaz(
        licznik::malejaco(s.reasons@),
        s.reasons@.len(),
        "   -> "@,
        " (Ilość: "@,
        ")\n"@,
    );
    let z = przebieg::zmiany_systemowe(s);
    let k1 = tekst::dziesietny(s.copied_ufs_common as nat);
    let k2 = k1 + "), Skrypt ("@;
    laczne(a, k1, "), Skrypt ("@);
    let k3 = k2 + tekst::dziesietny(s.copied_script_common as nat);
    laczne(a, k2, tekst::dziesietny(s.copied_script_common as nat));
    let k4 = k3 + ")\n   -> Skopiowano pliki unikalne: UFS ("@;
    laczne(a, k3, ")\n   -> Skopiowano pliki unikalne: UFS ("@);
    let k5 = k4 + tekst::dziesietny(s.copied_ufs_unique as nat);
    laczne(a, k4, tekst::dziesietny(s.copied_ufs_unique as nat));
    let k6 = k5 + "), Skrypt ("@;
    laczne(a, k5, "), Skrypt ("@);
    let k7 = k6 + tekst::dziesietny(s.copied_script_unique as nat);
    laczne(a, k6, tekst::dziesietny(s.copied_script_unique as nat));
    let k8 = k7 + ")\n   -> Wykorzystano Aktywnie Zrekonstruowane Wersje (Faza 17): "@;
    laczne(a, k7, ")\n   -> Wykorzystano Aktywnie Zrekonstruowane Wersje (Faza 17): "@);
    let k9 = k8 + tekst::dziesietny(s.repaired_used as nat);
    laczne(a, k8, tekst::dziesietny(s.repaired_used as nat));
    let k10 = k9 + " plików\n\n[ 2 ] ŚLAD REWIZYJNY (Dlaczego algorytm odrzucał/wybierał poszczególne pliki):\n"@;
    laczne(a, k9, " plików\n\n[ 2 ] ŚLAD REWIZYJNY (Dlaczego algorytm odrzucał/wybierał poszczególne pliki):\n"@);
    laczne(a + k10, w, z);
    w_srodku(a, k10, w + z);
    let t = przebieg::dziennik(s, czas, transfer, v);
    let e = Seq::<char>::empty();
    let x = przebieg::pozycja(
        "   -> Zmieniono nazwę (Ochrona przed nadpisaniem): "@,
        s.renamed_files as nat,
    );
    let y = przebieg::pozycja("   -> Odtworzono symlinki: "@, s.symlinks_recreated as nat);
    let b = przebieg::pozycja("   -> Błędy I/O zapisu: "@, s.io_errors as nat);
    let n = "\n[ 3 ] BŁĘDY I ZMIANY SYSTEMOWE:\n"@;
    bez_konca(t);
    if s.renamed_files > 0 {
        laczne(n + x, y, b);
        w_srodku(n, x, y + b);
        w_calosci(a + k10 + w, z, e, x);
    }
    if s.io_errors > 0 {
        bez_konca(z);
        w_srodku(n + x + y, b, e);
        w_calosci(a + k10 + w, z, e, b);
    }
}

/// The journal of phase 9 names every reason with its count.
pub proof fn dziennik9_wymienia_powody(
    s: LiveStats,
    czas: Seq<char>,
    transfer: Seq<char>,
    v: Binary64,
    e: (Seq<char>, nat),
)
    requires
        s.reasons@.contains(e),
    ensures
        tekst::zawiera_tekst(
            przebieg::dziennik(s, czas, transfer, v),
            "   -> "@ + e.0 + " (Ilość: "@ + tekst::dziesietny(e.1) + ")\n"@,
        ),
{
    let t = przebieg::dziennik(s, czas, transfer, v);
    let m = licznik::malejaco(s.reasons@);
    licznik::malejaco_porzadkuje(s.reasons@);
    broadcast use vstd::seq_lib::group_to_multiset_ensures;

    assert(s.reasons@.to_multiset().count(e) > 0);
    assert(m.contains(e));
    let i = choose|i: int| 0 <= i < m.len() && m[i] == e;
    let w = licznik::wykaz(m, s.reasons@.len(), "   -> "@, " (Ilość: "@, ")\n"@);
    wykaz_wymienia_kazdy(m, s.reasons@.len(), "   -> "@, " (Ilość: "@, ")\n"@, i);
    let z = przebieg::zmiany_systemowe(s);
    let a = "==========================================================================\nDZIENNIK KOŃCOWY - FAZA 9 (ZŁOTA KOPIA I SMART MERGE)\nCzas trwania: "@ + czas + "\nSumaryczny transfer zapisu: "@ + transfer + " (Średnia prędkość: "@ + v.zapis(2) + " MB/s)\n==========================================================================\n\n[ 1 ] STATYSTYKI FUZJI:\n   -> Uratowano z puli wspólnej: UFS ("@ + tekst::dziesietny(s.copied_ufs_common as nat) + "), Skrypt ("@ + tekst::dziesietny(s.copied_script_common as nat) + ")\n   -> Skopiowano pliki unikalne: UFS ("@ + tekst::dziesietny(s.copied_ufs_unique as nat) + "), Skrypt ("@ + tekst::dziesietny(s.copied_script_unique as nat) + ")\n   -> Wykorzystano Aktywnie Zrekonstruowane Wersje (Faza 17): "@ + tekst::dziesietny(s.repaired_used as nat) + " plików\n\n[ 2 ] ŚLAD REWIZYJNY (Dlaczego algorytm odrzucał/wybierał poszczególne pliki):\n"@;
    w_calosci(a, w, z, "   -> "@ + e.0 + " (Ilość: "@ + tekst::dziesietny(e.1) + ")\n"@);
}

/// The panel of phase 9 gives every number behind its name.
pub proof fn panel9_podaje_liczby(s: LiveStats, v: Binary64, watki: Seq<char>)
    ensures
        tekst::zawiera_tekst(
            przebieg::panel(s, v, watki),
            " MB/s\nWspólne — UFS: "@ + tekst::dziesietny(s.copied_ufs_common as nat)
                + " | Skrypt: "@ + tekst::dziesietny(s.copied_script_common as nat)
                + " | Złożone (Faza 18): "@ + tekst::dziesietny(s.copied_splice as nat)
                + "\nUnikalne skopiowane: "@ + tekst::dziesietny(
                (s.copied_ufs_unique + s.copied_script_unique) as nat,
            ) + "\nDowiązania odtworzone: "@ + tekst::dziesietny(s.symlinks_recreated as nat)
                + "\nUżyto wersji naprawionej: "@ + tekst::dziesietny(s.repaired_used as nat)
                + "\nPrzemianowane (kolizja nazw): "@ + tekst::dziesietny(s.renamed_files as nat)
                + "\nWątki kopiowania (Wariant A): "@,
        ),
        tekst::zawiera_tekst(
            przebieg::panel(s, v, watki),
            "\nBłędy I/O: "@ + tekst::dziesietny(s.io_errors as nat) + "\nBłędy metadanych: "@
                + tekst::dziesietny(s.meta_errors as nat) + "\nTop powody decyzji: "@,
        ),
{
    let a = "[Podsumowanie]\nPrędkość: "@ + v.zapis(2);
    let c = licznik::najwieksze(s.reasons@, 3);
    let k1 = " MB/s\nWspólne — UFS: "@;
    let k2 = k1 + tekst::dziesietny(s.copied_ufs_common as nat);
    laczne(a, k1, tekst::dziesietny(s.copied_ufs_common as nat));
    let k3 = k2 + " | Skrypt: "@;
    laczne(a, k2, " | Skrypt: "@);
    let k4 = k3 + tekst::dziesietny(s.copied_script_common as nat);
    laczne(a, k3, tekst::dziesietny(s.copied_script_common as nat));
    let k5 = k4 + " | Złożone (Faza 18): "@;
    laczne(a, k4, " | Złożone (Faza 18): "@);
    let k6 = k5 + tekst::dziesietny(s.copied_splice as nat);
    laczne(a, k5, tekst::dziesietny(s.copied_splice as nat));
    let k7 = k6 + "\nUnikalne skopiowane: "@;
    laczne(a, k6, "\nUnikalne skopiowane: "@);
    let k8 = k7 + tekst::dziesietny((s.copied_ufs_unique + s.copied_script_unique) as nat);
    laczne(a, k7, tekst::dziesietny((s.copied_ufs_unique + s.copied_script_unique) as nat));
    let k9 = k8 + "\nDowiązania odtworzone: "@;
    laczne(a, k8, "\nDowiązania odtworzone: "@);
    let k10 = k9 + tekst::dziesietny(s.symlinks_recreated as nat);
    laczne(a, k9, tekst::dziesietny(s.symlinks_recreated as nat));
    let k11 = k10 + "\nUżyto wersji naprawionej: "@;
    laczne(a, k10, "\nUżyto wersji naprawionej: "@);
    let k12 = k11 + tekst::dziesietny(s.repaired_used as nat);
    laczne(a, k11, tekst::dziesietny(s.repaired_used as nat));
    let k13 = k12 + "\nPrzemianowane (kolizja nazw): "@;
    laczne(a, k12, "\nPrzemianowane (kolizja nazw): "@);
    let k14 = k13 + tekst::dziesietny(s.renamed_files as nat);
    laczne(a, k13, tekst::dziesietny(s.renamed_files as nat));
    let k15 = k14 + "\nWątki kopiowania (Wariant A): "@;
    laczne(a, k14, "\nWątki kopiowania (Wariant A): "@);
    let b1 = "\nBłędy I/O: "@;
    let b2 = b1 + tekst::dziesietny(s.io_errors as nat);
    laczne(a + k15 + watki, b1, tekst::dziesietny(s.io_errors as nat));
    let b3 = b2 + "\nBłędy metadanych: "@;
    laczne(a + k15 + watki, b2, "\nBłędy metadanych: "@);
    let b4 = b3 + tekst::dziesietny(s.meta_errors as nat);
    laczne(a + k15 + watki, b3, tekst::dziesietny(s.meta_errors as nat));
    let b5 = b4 + "\nTop powody decyzji: "@;
    laczne(a + k15 + watki, b4, "\nTop powody decyzji: "@);
    w_srodku(a + k15 + watki, b5, c);
    laczne(a + k15, watki, b5);
    laczne(a + k15, watki + b5, c);
    w_srodku(a, k15, watki + b5 + c);
}

/// A line of the report calls a copy a success or an error and names its path; a
/// failure marks the reason that goes to the database.
pub proof fn linia_mowi_prawde(powod: Seq<char>, zapisana: Seq<char>)
    ensures
        przebieg::wpis_operacyjny(powod, true, zapisana) == "[SUKCES] "@ + powod + " -> "@
            + zapisana,
        przebieg::wpis_operacyjny(powod, false, zapisana) == "[BŁĄD I/O] "@ + powod + " -> "@
            + zapisana,
        przebieg::powod_koncowy(powod, true) == powod,
        przebieg::powod_koncowy(powod, false) == powod + " | BŁĄD KOPIOWANIA (Odmowa I/O)"@,
{
}

// ---------------------------------------------------------------------------
// Phase 7
// ---------------------------------------------------------------------------

/// The name of a class in the journal of phase 7.
pub open spec fn nazwa_klasy(k: KategoriaEntropii) -> Seq<char> {
    match k {
        KategoriaEntropii::Szum => "Biały Szum / Śmieci (H>7.99)"@,
        KategoriaEntropii::Zaszyfrowany => "Podejrzanie wysoka entropia (H>7.5)"@,
        KategoriaEntropii::ZepsutaKompresja => "Zepsuta Kompresja (H<6.0 dla archiwów)"@,
        KategoriaEntropii::Wydmuszka => "Wydmuszki / Puste bloki (H<1.0)"@,
    }
}

/// The line of a class in one pool of the journal of phase 7.
pub open spec fn linia_klasy(k: KategoriaEntropii, u: Formaty, s: Formaty) -> Seq<char> {
    " Typ anomalii: "@ + nazwa_klasy(k) + " (UFS: "@ + tekst::dziesietny(u.razem as nat)
        + ", Skrypt: "@ + tekst::dziesietny(s.razem as nat)
        + ")\n      [ ZNACZENIE ]: Wartość entropii wskazuje na matematyczny chaos lub brak spójności danych.\n"@
}

/// The pool of the journal of phase 7.
pub open spec fn pula(r: Raport, wspolne: bool) -> Seq<char> {
    raport::sekcja(
        r,
        if wspolne {
            "CZĘŚĆ WSPÓLNA (Odnalezione przez oba programy)"@
        } else {
            "OSOBNE ŚCIEŻKI (Unikalne dla jednego źródła)"@
        },
        wspolne,
    )
}

proof fn blok_podaje_klase(k: KategoriaEntropii, u: Formaty, s: Formaty)
    requires
        u.razem > 0 || s.razem > 0,
    ensures
        tekst::zawiera_tekst(raport::blok(k, u, s), linia_klasy(k, u, s)),
{
    let l = linia_klasy(k, u, s);
    let p = "   "@ + raport::ikona(k);
    let o = raport::rozklad(u, "UFS Explorer"@) + raport::rozklad(s, "Skrypt Autorski"@) + "\n"@;
    assert(raport::blok(k, u, s) =~= p + l + o);
    w_srodku(p, l, o);
}

proof fn w_jednej_z_czesci(
    g: Seq<char>,
    b1: Seq<char>,
    b2: Seq<char>,
    b3: Seq<char>,
    b4: Seq<char>,
    e: Seq<char>,
    l: Seq<char>,
)
    requires
        tekst::zawiera_tekst(b1, l) || tekst::zawiera_tekst(b2, l) || tekst::zawiera_tekst(b3, l)
            || tekst::zawiera_tekst(b4, l),
    ensures
        tekst::zawiera_tekst(g + b1 + b2 + b3 + b4 + e, l),
{
    let t = g + b1 + b2 + b3 + b4 + e;
    if tekst::zawiera_tekst(b1, l) {
        assert(t =~= g + b1 + (b2 + b3 + b4 + e));
        w_calosci(g, b1, b2 + b3 + b4 + e, l);
    } else if tekst::zawiera_tekst(b2, l) {
        assert(t =~= (g + b1) + b2 + (b3 + b4 + e));
        w_calosci(g + b1, b2, b3 + b4 + e, l);
    } else if tekst::zawiera_tekst(b3, l) {
        assert(t =~= (g + b1 + b2) + b3 + (b4 + e));
        w_calosci(g + b1 + b2, b3, b4 + e, l);
    } else {
        w_calosci(g + b1 + b2 + b3, b4, e, l);
    }
}

/// A class of a pool with a file in it has its line in that pool, with the numbers of
/// the two sources behind their names.
pub proof fn pula_podaje_klasy(r: Raport, k: KategoriaEntropii, wspolne: bool)
    requires
        r.komorka(k, wspolne, true).razem > 0 || r.komorka(k, wspolne, false).razem > 0,
    ensures
        tekst::zawiera_tekst(
            pula(r, wspolne),
            linia_klasy(k, r.komorka(k, wspolne, true), r.komorka(k, wspolne, false)),
        ),
{
    let u = r.komorka(k, wspolne, true);
    let s = r.komorka(k, wspolne, false);
    blok_podaje_klase(k, u, s);
    let t = pula(r, wspolne);
    let tytul = if wspolne {
        "CZĘŚĆ WSPÓLNA (Odnalezione przez oba programy)"@
    } else {
        "OSOBNE ŚCIEŻKI (Unikalne dla jednego źródła)"@
    };
    let g = "[ "@ + tytul + " ]\n"@;
    let b1 = raport::blok_klasy(r, KategoriaEntropii::Szum, wspolne);
    let b2 = raport::blok_klasy(r, KategoriaEntropii::Zaszyfrowany, wspolne);
    let b3 = raport::blok_klasy(r, KategoriaEntropii::ZepsutaKompresja, wspolne);
    let b4 = raport::blok_klasy(r, KategoriaEntropii::Wydmuszka, wspolne);
    let e = t.skip((g + b1 + b2 + b3 + b4).len() as int);
    assert(t =~= g + b1 + b2 + b3 + b4 + e);
    w_jednej_z_czesci(g, b1, b2, b3, b4, e, linia_klasy(k, u, s));
}

/// The journal of phase 7 holds both pools, and the weights of either source behind
/// its name.
pub proof fn dziennik7_podaje_pule(r: Raport, d: DaneDziennika)
    ensures
        tekst::zawiera_tekst(
            raport::dziennik(r, d),
            pula(r, true) + pula(r, false) + "[ PODSUMOWANIE WAGOWE FORMATÓW ]\n"@
                + raport::wagi_zrodla("UFS Explorer"@, d.wagi_ufs@) + raport::wagi_zrodla(
                "Skrypt Autorski"@,
                d.wagi_script@,
            ) + "\n"@,
        ),
        d.bledy > 0 ==> tekst::zawiera_tekst(
            raport::dziennik(r, d),
            "[ 🚨 BŁĘDY FIZYCZNE I/O ]\n   -> Błędy odczytu (I/O): "@ + tekst::dziesietny(
                d.bledy as nat,
            ) + "\n"@,
        ),
{
    let a = "==========================================================================\nDZIENNIK KOŃCOWY - FAZA 7 (MATEMATYCZNA ANALIZA ENTROPII SHANNONA)\nCzas trwania: "@ + d.czas@ + "\nSumaryczny transfer I/O: "@ + d.transfer@ + " (Średnia prędkość: "@ + d.predkosc.zapis(2) + " MB/s)\n==========================================================================\n\n"@;
    let z = raport::bledy_fizyczne(d.bledy as nat);
    let m1 = pula(r, true);
    let m2 = m1 + pula(r, false);
    laczne(a, m1, pula(r, false));
    let m3 = m2 + "[ PODSUMOWANIE WAGOWE FORMATÓW ]\n"@;
    laczne(a, m2, "[ PODSUMOWANIE WAGOWE FORMATÓW ]\n"@);
    let m4 = m3 + raport::wagi_zrodla("UFS Explorer"@, d.wagi_ufs@);
    laczne(a, m3, raport::wagi_zrodla("UFS Explorer"@, d.wagi_ufs@));
    let m5 = m4 + raport::wagi_zrodla("Skrypt Autorski"@, d.wagi_script@);
    laczne(a, m4, raport::wagi_zrodla("Skrypt Autorski"@, d.wagi_script@));
    let m6 = m5 + "\n"@;
    laczne(a, m5, "\n"@);
    w_srodku(a, m6, z);
    if d.bledy > 0 {
        bez_konca(raport::dziennik(r, d));
        w_srodku(a + m6, z, Seq::empty());
    }
}

/// The example of a format is the path of the first file of that format; every file
/// counts once under its own format.
pub proof fn przyklad_to_pierwszy_plik(
    z: Zestawienie,
    ext: Seq<char>,
    sciezka: Seq<char>,
    inny: Seq<char>,
)
    requires
        z.przyklady.len() == z.liczby.len(),
        inny != ext,
    ensures
        ({
            let n = raport::dopisany(z, ext, sciezka);
            &&& n.razem == z.razem + 1
            &&& licznik::ile(n.liczby, ext) == licznik::ile(z.liczby, ext) + 1
            &&& licznik::ile(n.liczby, inny) == licznik::ile(z.liczby, inny)
            &&& n.przyklady.len() == n.liczby.len()
            &&& raport::przyklad(n, ext) == if exists|i: int|
                0 <= i < z.liczby.len() && (#[trigger] z.liczby[i]).0 == ext {
                raport::przyklad(z, ext)
            } else {
                sciezka
            }
            &&& (exists|i: int| 0 <= i < z.liczby.len() && (#[trigger] z.liczby[i]).0 == inny)
                ==> raport::przyklad(n, inny) == raport::przyklad(z, inny)
        }),
{
    let n = raport::dopisany(z, ext, sciezka);
    licznik::zwiekszony_liczy(z.liczby, ext, 1, ext);
    licznik::zwiekszony_liczy(z.liczby, ext, 1, inny);
    licznik::pierwszy_trafia(z.liczby, ext);
    licznik::pierwszy_trafia(z.liczby, inny);
    let k = licznik::pierwszy(z.liczby, ext);
    let j = licznik::pierwszy(z.liczby, inny);
    assert(forall|i: int| 0 <= i < k ==> n.liczby[i] == z.liczby[i]);
    assert forall|i: int| 0 <= i < k implies (#[trigger] n.liczby[i]).0 != ext by {
        wczesniejszy_inny(z.liczby, ext, i);
    }
    licznik::pierwszy_jedyny(n.liczby, ext, k);
    if j < z.liczby.len() {
        assert forall|i: int| 0 <= i < j implies (#[trigger] n.liczby[i]).0 != inny by {
            wczesniejszy_inny(z.liczby, inny, i);
        }
        licznik::pierwszy_jedyny(n.liczby, inny, j);
    } else {
        assert forall|i: int| 0 <= i < z.liczby.len() implies (#[trigger] z.liczby[i]).0
            != inny by {
            wczesniejszy_inny(z.liczby, inny, i);
        }
    }
    if k == z.liczby.len() {
        assert forall|i: int| 0 <= i < z.liczby.len() implies (#[trigger] z.liczby[i]).0 != ext by {
            wczesniejszy_inny(z.liczby, ext, i);
        }
    }
}

/// Before the first entry of a name stand only other names.
proof fn wczesniejszy_inny(s: Seq<(Seq<char>, nat)>, n: Seq<char>, i: int)
    requires
        0 <= i < licznik::pierwszy(s, n),
    ensures
        s[i].0 != n,
{
    licznik::pierwszy_trafia(s, n);
}

} // verus!
