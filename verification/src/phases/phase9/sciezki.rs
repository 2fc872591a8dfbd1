//! Paths of the golden copy: their safety, their names and temporary files.

use vstd::prelude::*;

use crate::phases::phase9::decyzja::Strona;
use crate::sciezka;
use crate::tekst;

verus! {

// ---------------------------------------------------------------------------
// Canonical paths
// ---------------------------------------------------------------------------

/// How far the search for a canonical path has come.
pub enum Kanon {
    /// Ask for the real path of this one next.
    Sprobuj(Seq<char>),
    Jest(Seq<char>),
    /// Neither the root nor the working directory has a real path.
    Brak,
}

/// The nearest path above: the parent, or the working directory above a single
/// relative component.
pub open spec fn wyzej(b: Seq<char>) -> Seq<char> {
    match sciezka::rodzic(b) {
        Some(r) => if r.len() > 0 {
            r
        } else {
            "."@
        },
        None => "."@,
    }
}

/// The directory above a canonical path; the root stays.
pub open spec fn o_jeden_wyzej(r: Seq<char>) -> Seq<char> {
    match sciezka::rodzic(r) {
        Some(q) => q,
        None => r,
    }
}

/// The canonical form of `b`: its real path where it exists, and else the
/// canonical form of the path above with the last name put back. A missing path
/// that ends in `..` comes to the directory above the canonical form of the rest:
/// what is missing is no link. `h` holds the real paths found so far, from
/// position `k` on those of `b` and upwards.
pub open spec fn kanoniczna(b: Seq<char>, h: Seq<Option<Seq<char>>>, k: int) -> Kanon
    decreases h.len() - k,
{
    if k < 0 || k >= h.len() {
        Kanon::Sprobuj(b)
    } else {
        match h[k] {
            Some(p) => Kanon::Jest(p),
            None => match sciezka::nazwa(b) {
                Some(n) => match kanoniczna(wyzej(b), h, k + 1) {
                    Kanon::Jest(r) => Kanon::Jest(sciezka::polaczona(r, n)),
                    inne => inne,
                },
                None => if sciezka::prowadzi_wyzej(b) {
                    match kanoniczna(wyzej(b), h, k + 1) {
                        Kanon::Jest(r) => Kanon::Jest(o_jeden_wyzej(r)),
                        inne => inne,
                    }
                } else if b.len() == 0 {
                    kanoniczna("."@, h, k + 1)
                } else {
                    Kanon::Brak
                },
            },
        }
    }
}

/// The views of the real paths found so far.
pub open spec fn znalezione(h: Seq<Option<String>>) -> Seq<Option<Seq<char>>> {
    h.map_values(|o: Option<String>| tekst::widok(o))
}

/// The next step of the search for a canonical path.
pub enum KrokKanonu {
    Sprobuj(String),
    Gotowe(String),
}

/// What the search for the canonical form of `p` comes to: where not even the
/// root or the working directory has a real path, `p` as it was given.
pub open spec fn kanon_sciezki(p: Seq<char>, h: Seq<Option<Seq<char>>>) -> Kanon {
    match kanoniczna(p, h, 0) {
        Kanon::Brak => Kanon::Jest(p),
        inne => inne,
    }
}

/// Says the same as the search.
pub open spec fn krok_zgodny(k: KrokKanonu, s: Kanon) -> bool {
    match k {
        KrokKanonu::Sprobuj(b) => s == Kanon::Sprobuj(b@),
        KrokKanonu::Gotowe(r) => s == Kanon::Jest(r@),
    }
}

fn powyzej(b: &str) -> (r: String)
    ensures
        r@ == wyzej(b@),
{
    match sciezka::katalog(b) {
        Some(r) => {
            if r.as_str().unicode_len() > 0 {
                r
            } else {
                ".".to_owned()
            }
        },
        None => ".".to_owned(),
    }
}

fn szukaj(b: &str, h: &Vec<Option<String>>, k: usize) -> (r: Option<KrokKanonu>)
    requires
        k <= h@.len(),
    ensures
        match r {
            Some(w) => krok_zgodny(w, kanoniczna(b@, znalezione(h@), k as int)),
            None => kanoniczna(b@, znalezione(h@), k as int) is Brak,
        },
    decreases h@.len() - k,
{
    if k >= h.len() {
        return Some(KrokKanonu::Sprobuj(b.to_owned()));
    }
    match &h[k] {
        Some(p) => Some(KrokKanonu::Gotowe(p.clone())),
        None => match sciezka::nazwa_pliku(b) {
            Some(n) => match szukaj(powyzej(b).as_str(), h, k + 1) {
                Some(KrokKanonu::Gotowe(r)) => Some(
                    KrokKanonu::Gotowe(sciezka::polacz(r.as_str(), n.as_str())),
                ),
                inne => inne,
            },
            None => {
                if sciezka::wychodzi_wyzej(b) {
                    match szukaj(powyzej(b).as_str(), h, k + 1) {
                        Some(KrokKanonu::Gotowe(r)) => Some(
                            KrokKanonu::Gotowe(
                                match sciezka::katalog(r.as_str()) {
                                    Some(q) => q,
                                    None => r,
                                },
                            ),
                        ),
                        inne => inne,
                    }
                } else if b.unicode_len() == 0 {
                    szukaj(".", h, k + 1)
                } else {
                    None
                }
            },
        },
    }
}

/// The canonical form of a path that need not exist yet: which path to ask for
/// next, or the result. `h` holds the real paths of those asked for so far.
pub fn kanon(p: &str, h: &Vec<Option<String>>) -> (r: KrokKanonu)
    ensures
        krok_zgodny(r, kanon_sciezki(p@, znalezione(h@))),
{
    match szukaj(p, h, 0) {
        Some(k) => k,
        None => KrokKanonu::Gotowe(p.to_owned()),
    }
}

proof fn szukanie_konczy_sie(b: Seq<char>, h: Seq<Option<Seq<char>>>, k: int)
    requires
        0 <= k,
        h.len() - k >= b.len() + 2,
    ensures
        kanoniczna(b, h, k) !is Sprobuj,
    decreases b.len(), h.len() - k,
{
    kropka_konczy(h, k + 1);
    if h[k] is None && (sciezka::nazwa(b) is Some || sciezka::prowadzi_wyzej(b)) {
        sciezka::rodzic_krotszy(b);
        if wyzej(b) != "."@ {
            szukanie_konczy_sie(wyzej(b), h, k + 1);
        }
    }
}

/// The search goes no further than the working directory.
proof fn kropka_konczy(h: Seq<Option<Seq<char>>>, k: int)
    requires
        0 <= k < h.len(),
    ensures
        kanoniczna("."@, h, k) !is Sprobuj,
{
    reveal_strlit(".");
    assert("."@ =~= seq!['.']);
    sciezka::nazwa_kropki();
}

/// The search ends: after at most two questions more than the path has
/// characters there is a result.
pub proof fn kanon_konczy_sie(p: Seq<char>, h: Seq<Option<Seq<char>>>)
    requires
        h.len() >= p.len() + 2,
    ensures
        kanon_sciezki(p, h) is Jest,
{
    szukanie_konczy_sie(p, h, 0);
}

/// Every real path that was found is absolute.
pub open spec fn same_bezwzgledne(h: Seq<Option<Seq<char>>>) -> bool {
    forall|i: int| 0 <= i < h.len() ==> (#[trigger] h[i] matches Some(q) ==> sciezka::bezwzgledna(q))
}

proof fn szukanie_bezwzgledne(b: Seq<char>, h: Seq<Option<Seq<char>>>, k: int)
    requires
        0 <= k,
        same_bezwzgledne(h),
    ensures
        kanoniczna(b, h, k) matches Kanon::Jest(r) ==> sciezka::bezwzgledna(r),
    decreases h.len() - k,
{
    if k < h.len() && h[k] is None {
        szukanie_bezwzgledne(wyzej(b), h, k + 1);
        szukanie_bezwzgledne("."@, h, k + 1);
        if let Kanon::Jest(r) = kanoniczna(wyzej(b), h, k + 1) {
            sciezka::rodzic_bezwzglednej(r);
        }
    }
}

/// A canonical path that rests on a real path is absolute, however the path was
/// given.
pub proof fn kanon_jest_bezwzgledny(p: Seq<char>, h: Seq<Option<Seq<char>>>)
    requires
        same_bezwzgledne(h),
        kanoniczna(p, h, 0) is Jest,
    ensures
        kanon_sciezki(p, h) matches Kanon::Jest(r) && sciezka::bezwzgledna(r),
{
    szukanie_bezwzgledne(p, h, 0);
}

/// The path that is asked for in the `j`-th place where none before has a real
/// path.
pub open spec fn pytana(p: Seq<char>, j: nat) -> Seq<char>
    decreases j,
{
    if j == 0 {
        p
    } else {
        wyzej(pytana(p, (j - 1) as nat))
    }
}

/// The root or the working directory.
pub open spec fn ostateczna(b: Seq<char>) -> bool {
    sciezka::przyciety(b) == seq!['/'] || sciezka::przyciety(b) == seq!['.']
}

proof fn szukanie_zawodzi(p: Seq<char>, h: Seq<Option<Seq<char>>>, k: nat) -> (j: nat)
    requires
        kanoniczna(pytana(p, k), h, k as int) is Brak,
    ensures
        k <= j < h.len(),
        h[j as int] is None,
        ostateczna(pytana(p, j)),
    decreases h.len() - k,
{
    let b = pytana(p, k);
    if sciezka::nazwa(b) is Some || sciezka::prowadzi_wyzej(b) || b.len() == 0 {
        if b.len() == 0 {
            assert(sciezka::rodzic(b) is None);
        }
        szukanie_zawodzi(p, h, k + 1)
    } else {
        sciezka::bez_nazwy(b);
        k
    }
}

/// The search fails only where the root or the working directory was asked for
/// and has no real path.
pub proof fn kanon_zawodzi_bez_korzenia(p: Seq<char>, h: Seq<Option<Seq<char>>>)
    requires
        kanoniczna(p, h, 0) is Brak,
    ensures
        exists|j: nat|
            j < h.len() && h[j as int] is None && ostateczna(#[trigger] pytana(p, j)),
{
    let j = szukanie_zawodzi(p, h, 0);
}

// ---------------------------------------------------------------------------
// Safety of the target
// ---------------------------------------------------------------------------

/// One path is the other or lies inside it.
pub open spec fn zawarte(a: Seq<char>, b: Seq<char>) -> bool {
    sciezka::zaczyna_sie_od(sciezka::skladniki(a), sciezka::skladniki(b))
}

/// Why the target endangers a source, where it does.
pub open spec fn zagrozenie(
    podana: Seq<char>,
    cel: Seq<char>,
    nazwa: Seq<char>,
    zrodlo: Seq<char>,
) -> Option<Seq<char>> {
    if sciezka::skladniki(cel) == sciezka::skladniki(zrodlo) {
        Some(
            "Ścieżka docelowa ("@ + podana + ") jest TAKA SAMA jak źródło "@ + nazwa + " ("@ + zrodlo
                + ") — zapis nadpisałby materiał dowodowy."@,
        )
    } else if zawarte(cel, zrodlo) {
        Some(
            "Ścieżka docelowa ("@ + podana + ") leży WEWNĄTRZ źródła "@ + nazwa + " ("@ + zrodlo
                + ") — zapis zaśmieciłby/nadpisałby materiał dowodowy."@,
        )
    } else if zawarte(zrodlo, cel) {
        Some(
            "Źródło "@ + nazwa + " ("@ + zrodlo + ") leży WEWNĄTRZ ścieżki docelowej ("@ + podana
                + ") — zapis nadpisałby materiał dowodowy."@,
        )
    } else {
        None
    }
}

/// Why the target endangers the evidence, where it does: the first source in
/// danger names the reason.
pub open spec fn zagrozenie_dowodow(
    podana: Seq<char>,
    cel: Seq<char>,
    ufs: Seq<char>,
    script: Seq<char>,
) -> Option<Seq<char>> {
    match zagrozenie(podana, cel, "UFS"@, ufs) {
        Some(p) => Some(p),
        None => zagrozenie(podana, cel, "Skrypt"@, script),
    }
}

fn rowne_skladniki(a: &Vec<String>, b: &Vec<String>) -> (r: bool)
    ensures
        r == (tekst::widoki(a@) == tekst::widoki(b@)),
{
    let r = a.len() == b.len() && sciezka::zawiera_sie(a, b);
    proof {
        let x = tekst::widoki(a@);
        let y = tekst::widoki(b@);
        assert(x.len() == a@.len() && y.len() == b@.len());
        if a@.len() == b@.len() {
            assert(x.take(y.len() as int) =~= x);
        }
    }
    r
}

fn zagraza(podana: &str, cel: &str, nazwa: &str, zrodlo: &str) -> (r: Option<String>)
    ensures
        tekst::widok(r) == zagrozenie(podana@, cel@, nazwa@, zrodlo@),
{
    let c = sciezka::rozloz(cel);
    let z = sciezka::rozloz(zrodlo);
    if rowne_skladniki(&c, &z) {
        let mut s = "Ścieżka docelowa (".to_owned();
        s.append(podana);
        s.append(") jest TAKA SAMA jak źródło ");
        s.append(nazwa);
        s.append(" (");
        s.append(zrodlo);
        s.append(") — zapis nadpisałby materiał dowodowy.");
        Some(s)
    } else if sciezka::zawiera_sie(&c, &z) {
        let mut s = "Ścieżka docelowa (".to_owned();
        s.append(podana);
        s.append(") leży WEWNĄTRZ źródła ");
        s.append(nazwa);
        s.append(" (");
        s.append(zrodlo);
        s.append(") — zapis zaśmieciłby/nadpisałby materiał dowodowy.");
        Some(s)
    } else if sciezka::zawiera_sie(&z, &c) {
        let mut s = "Źródło ".to_owned();
        s.append(nazwa);
        s.append(" (");
        s.append(zrodlo);
        s.append(") leży WEWNĄTRZ ścieżki docelowej (");
        s.append(podana);
        s.append(") — zapis nadpisałby materiał dowodowy.");
        Some(s)
    } else {
        None
    }
}

/// Checks that the target lies apart from both sources of evidence: neither is
/// the other, nor inside it. `podana` is the target as it was given; the other
/// paths are canonical.
pub fn sciezki_bezpieczne(podana: &str, target: &str, ufs: &str, script: &str) -> (r: Result<
    (),
    String,
>)
    ensures
        match r {
            Ok(_) => zagrozenie_dowodow(podana@, target@, ufs@, script@) is None,
            Err(p) => zagrozenie_dowodow(podana@, target@, ufs@, script@) == Some(p@),
        },
{
    match zagraza(podana, target, "UFS", ufs) {
        Some(p) => Err(p),
        None => match zagraza(podana, target, "Skrypt", script) {
            Some(p) => Err(p),
            None => Ok(()),
        },
    }
}

/// A target passes exactly where it lies apart from both sources.
pub proof fn bezpieczne_to_rozlaczne(
    podana: Seq<char>,
    cel: Seq<char>,
    ufs: Seq<char>,
    script: Seq<char>,
)
    ensures
        zagrozenie_dowodow(podana, cel, ufs, script) is None <==> {
            &&& !zawarte(cel, ufs)
            &&& !zawarte(ufs, cel)
            &&& !zawarte(cel, script)
            &&& !zawarte(script, cel)
        },
{
    let c = sciezka::skladniki(cel);
    let u = sciezka::skladniki(ufs);
    let s = sciezka::skladniki(script);
    if c == u {
        assert(c.take(u.len() as int) =~= u);
    }
    if c == s {
        assert(c.take(s.len() as int) =~= s);
    }
}

/// Nothing that is written below a target that passed can lie in a source: no
/// path is below both.
pub proof fn zapis_nie_trafia_w_dowody(
    podana: Seq<char>,
    cel: Seq<char>,
    ufs: Seq<char>,
    script: Seq<char>,
    p: Seq<char>,
)
    requires
        zagrozenie_dowodow(podana, cel, ufs, script) is None,
        zawarte(p, cel),
    ensures
        !zawarte(p, ufs),
        !zawarte(p, script),
{
    bezpieczne_to_rozlaczne(podana, cel, ufs, script);
    let x = sciezka::skladniki(p);
    if zawarte(p, ufs) {
        wspolny_przodek(x, sciezka::skladniki(cel), sciezka::skladniki(ufs));
    }
    if zawarte(p, script) {
        wspolny_przodek(x, sciezka::skladniki(cel), sciezka::skladniki(script));
    }
}

/// Of two beginnings of one list, one is the beginning of the other.
proof fn wspolny_przodek(x: Seq<Seq<char>>, a: Seq<Seq<char>>, b: Seq<Seq<char>>)
    requires
        sciezka::zaczyna_sie_od(x, a),
        sciezka::zaczyna_sie_od(x, b),
    ensures
        sciezka::zaczyna_sie_od(a, b) || sciezka::zaczyna_sie_od(b, a),
{
    if a.len() <= b.len() {
        assert(b.take(a.len() as int) =~= a);
    } else {
        assert(a.take(b.len() as int) =~= b);
    }
}

// ---------------------------------------------------------------------------
// Names of the copies
// ---------------------------------------------------------------------------

/// The tag of a side in the name of a copy.
pub open spec fn etykieta(s: Strona) -> Seq<char> {
    match s {
        Strona::Splice => "ZLOZONY"@,
        Strona::Script => "SKRYPT"@,
        Strona::Ufs => "UFS"@,
    }
}

/// The tag of a side in the name of a copy.
pub fn etykieta_zwyciezcy(winner: Strona) -> (r: &'static str)
    ensures
        r@ == etykieta(winner),
{
    match winner {
        Strona::Splice => "ZLOZONY",
        Strona::Script => "SKRYPT",
        Strona::Ufs => "UFS",
    }
}

/// The name for the `n`-th collision: the tag alone at first, then with a version.
pub open spec fn nazwa_wersji(stem: Seq<char>, tag: Seq<char>, ext: Seq<char>, n: nat) -> Seq<char> {
    if n == 1 {
        stem + "_["@ + tag + "]"@ + ext
    } else {
        stem + "_["@ + tag + "]_v"@ + tekst::dziesietny(n) + ext
    }
}

/// The name for the `counter`-th collision.
pub fn nazwa_kandydata(stem: &str, tag: &str, ext: &str, counter: u64) -> (r: String)
    ensures
        r@ == nazwa_wersji(stem@, tag@, ext@, counter as nat),
{
    let mut s = stem.to_owned();
    s.append("_[");
    s.append(tag);
    if counter == 1 {
        s.append("]");
    } else {
        s.append("]_v");
        tekst::dopisz_liczbe(&mut s, counter);
    }
    s.append(ext);
    s
}

/// The stem of a relative path, or a stand-in where it has no name.
pub open spec fn rdzen_lub(rel: Seq<char>) -> Seq<char> {
    match sciezka::rdzen(rel) {
        Some(s) => s,
        None => "file"@,
    }
}

/// The extension of a relative path with its dot, or nothing.
pub open spec fn kropka_i_rozszerzenie(rel: Seq<char>) -> Seq<char> {
    match sciezka::rozszerzenie(rel) {
        Some(e) => "."@ + e,
        None => ""@,
    }
}

/// The `k`-th relative path that is tried for a copy: at first the path itself.
pub open spec fn kandydat(rel: Seq<char>, strona: Strona, k: nat) -> Seq<char> {
    if k == 0 {
        rel
    } else {
        sciezka::polaczona(
            match sciezka::rodzic(rel) {
                Some(r) => r,
                None => ""@,
            },
            nazwa_wersji(rdzen_lub(rel), etykieta(strona), kropka_i_rozszerzenie(rel), k),
        )
    }
}

/// The `k`-th relative path that is tried for a copy.
pub fn wyznacz_kandydata(rel_path: &str, winner: Strona, k: u64) -> (r: String)
    ensures
        r@ == kandydat(rel_path@, winner, k as nat),
{
    if k == 0 {
        return rel_path.to_owned();
    }
    let stem = match sciezka::rdzen_pliku(rel_path) {
        Some(s) => s,
        None => "file".to_owned(),
    };
    let ext = match sciezka::rozszerzenie_pliku(rel_path) {
        Some(e) => {
            let mut s = ".".to_owned();
            s.append(e.as_str());
            s
        },
        None => "".to_owned(),
    };
    let parent = match sciezka::katalog(rel_path) {
        Some(p) => p,
        None => "".to_owned(),
    };
    let n = nazwa_kandydata(stem.as_str(), etykieta_zwyciezcy(winner), ext.as_str(), k);
    sciezka::polacz(parent.as_str(), n.as_str())
}

/// No character is a slash.
pub open spec fn bez_ukosnika(t: Seq<char>) -> bool {
    forall|i: int| 0 <= i < t.len() ==> t[i] != '/'
}

pub(crate) proof fn czesci_bez_ukosnika(rel: Seq<char>)
    ensures
        bez_ukosnika(rdzen_lub(rel)),
        bez_ukosnika(kropka_i_rozszerzenie(rel)),
{
    let stem = rdzen_lub(rel);
    let ext = kropka_i_rozszerzenie(rel);
    reveal_strlit("file");
    reveal_strlit(".");
    reveal_strlit("");
    sciezka::nazwa_bez_ukosnika(rel);
    if let Some(m) = sciezka::nazwa(rel) {
        sciezka::nazwa_z_rdzenia(m);
        assert(stem =~= m.take(stem.len() as int));
        assert(forall|i: int| 0 <= i < stem.len() ==> stem[i] == m[i]);
        if let Some(e) = sciezka::rozszerzenie(rel) {
            assert forall|i: int| 0 <= i < ext.len() implies ext[i] != '/' by {
                assert(m[stem.len() + i] == ext[i]);
            }
        }
    }
}

pub(crate) proof fn wersja_bez_ukosnika(stem: Seq<char>, strona: Strona, ext: Seq<char>, k: nat)
    requires
        bez_ukosnika(stem),
        bez_ukosnika(ext),
    ensures
        bez_ukosnika(nazwa_wersji(stem, etykieta(strona), ext, k)),
        nazwa_wersji(stem, etykieta(strona), ext, k).len() > stem.len() + 2,
        nazwa_wersji(stem, etykieta(strona), ext, k)[stem.len() as int] == '_',
{
    reveal_strlit("_[");
    reveal_strlit("]");
    reveal_strlit("]_v");
    reveal_strlit("ZLOZONY");
    reveal_strlit("SKRYPT");
    reveal_strlit("UFS");
    tekst::dziesietny_niepusty(k);
}

pub(crate) proof fn nazwa_kandydata_k(rel: Seq<char>, strona: Strona, k: nat)
    requires
        k > 0,
    ensures
        sciezka::nazwa(kandydat(rel, strona, k)) == Some(
            nazwa_wersji(rdzen_lub(rel), etykieta(strona), kropka_i_rozszerzenie(rel), k),
        ),
{
    czesci_bez_ukosnika(rel);
    wersja_bez_ukosnika(rdzen_lub(rel), strona, kropka_i_rozszerzenie(rel), k);
    sciezka::nazwa_polaczonej(
        match sciezka::rodzic(rel) {
            Some(r) => r,
            None => ""@,
        },
        nazwa_wersji(rdzen_lub(rel), etykieta(strona), kropka_i_rozszerzenie(rel), k),
    );
}

/// The paths tried for a copy all have different names, so that a collision
/// leads to a name that was not tried yet.
pub proof fn kandydaci_sa_rozni(rel: Seq<char>, strona: Strona, i: nat, j: nat)
    requires
        i < j,
    ensures
        sciezka::nazwa(kandydat(rel, strona, i)) != sciezka::nazwa(kandydat(rel, strona, j)),
{
    let stem = rdzen_lub(rel);
    let tag = etykieta(strona);
    let ext = kropka_i_rozszerzenie(rel);
    reveal_strlit("_[");
    reveal_strlit("]");
    reveal_strlit("]_v");
    reveal_strlit(".");
    reveal_strlit("");
    nazwa_kandydata_k(rel, strona, j);
    let b = nazwa_wersji(stem, tag, ext, j);
    if i == 0 {
        if let Some(m) = sciezka::nazwa(rel) {
            sciezka::nazwa_z_rdzenia(m);
            assert(m.len() == stem.len() + ext.len());
        }
    } else {
        nazwa_kandydata_k(rel, strona, i);
        let a = nazwa_wersji(stem, tag, ext, i);
        tekst::dziesietny_niepusty(j);
        if i == 1 {
            assert(a.len() < b.len());
        } else if a == b {
            let k = stem.len() + 2 + tag.len() + 3;
            let di = tekst::dziesietny(i);
            let dj = tekst::dziesietny(j);
            assert(a.len() == k + di.len() + ext.len());
            assert(a.subrange(k as int, (k + di.len()) as int) =~= di);
            assert(b.subrange(k as int, (k + dj.len()) as int) =~= dj);
            tekst::dziesietny_rozroznia(i, j);
        }
    }
}

/// The first position that holds `false`, or the length.
pub open spec fn pierwsza_wolna(z: Seq<bool>) -> nat
    decreases z.len(),
{
    if z.len() == 0 || !z[0] {
        0
    } else {
        1 + pierwsza_wolna(z.skip(1))
    }
}

fn znajdz_wolna(z: &Vec<bool>) -> (r: usize)
    ensures
        r == pierwsza_wolna(z@),
        r <= z@.len(),
        forall|i: int| 0 <= i < r ==> z@[i],
        r < z@.len() ==> !z@[r as int],
{
    let mut i: usize = 0;
    assert(z@.skip(0) =~= z@);
    while i < z.len()
        invariant
            i <= z@.len(),
            pierwsza_wolna(z@) == i + pierwsza_wolna(z@.skip(i as int)),
            forall|k: int| 0 <= k < i ==> z@[k],
        decreases z@.len() - i,
    {
        assert(z@.skip(i as int)[0] == z@[i as int]);
        assert(z@.skip(i as int).skip(1) =~= z@.skip(i + 1));
        if !z[i] {
            return i;
        }
        i = i + 1;
    }
    i
}

/// The next step of the search for a free name.
pub enum WyborNazwy {
    /// Find whether something exists at this path.
    Sprawdz(String),
    /// The full path, the relative path, and whether the name was changed.
    Wybrano(String, String, bool),
}

/// The full path of the `k`-th candidate.
pub open spec fn pelna(base: Seq<char>, rel: Seq<char>, strona: Strona, k: nat) -> Seq<char> {
    sciezka::polaczona(base, kandydat(rel, strona, k))
}

/// The search for a free name: the first candidate at which nothing exists.
/// `zajete` says of the candidates asked for so far whether they exist. This is
/// a first try only; what decides in the end is the commit.
pub fn get_safe_target_path(
    target_base: &str,
    rel_path: &str,
    winner: Strona,
    zajete: &Vec<bool>,
) -> (r: WyborNazwy)
    ensures
        ({
            let k = pierwsza_wolna(zajete@);
            match r {
                WyborNazwy::Sprawdz(p) => k == zajete@.len() && p@ == pelna(
                    target_base@,
                    rel_path@,
                    winner,
                    k,
                ),
                WyborNazwy::Wybrano(p, rel, zmieniona) => k < zajete@.len() && p@ == pelna(
                    target_base@,
                    rel_path@,
                    winner,
                    k,
                ) && rel@ == kandydat(rel_path@, winner, k) && zmieniona == (k != 0),
            }
        }),
{
    let k: usize = znajdz_wolna(zajete);
    let rel = wyznacz_kandydata(rel_path, winner, k as u64);
    let p = sciezka::polacz(target_base, rel.as_str());
    if k == zajete.len() {
        WyborNazwy::Sprawdz(p)
    } else {
        WyborNazwy::Wybrano(p, rel, k != 0)
    }
}

/// How the attempt to link the finished file to a name ended.
#[derive(Clone, Copy, PartialEq, Eq, Structural)]
pub enum Dowiazanie {
    Utworzone,
    /// The name is taken; nothing was overwritten.
    Zajete,
    Blad,
}

/// The first attempt that did not meet a taken name, or the length.
pub open spec fn pierwsze_rozstrzygniete(d: Seq<Dowiazanie>) -> nat
    decreases d.len(),
{
    if d.len() == 0 || d[0] != Dowiazanie::Zajete {
        0
    } else {
        1 + pierwsze_rozstrzygniete(d.skip(1))
    }
}

/// The next step of committing a finished file.
pub enum KrokZatwierdzenia {
    /// Link the finished file to this path, which never overwrites.
    Polacz(String),
    /// The full path, the relative path, and whether the name was changed.
    Gotowe(String, String, bool),
    Odmowa,
}

/// Gives a finished file its name without ever overwriting one: the candidates
/// are tried in their order by linking, until one is not taken. `proby` says how
/// the attempts so far ended.
pub fn commit_bez_nadpisania(
    target_base: &str,
    rel_path: &str,
    winner: Strona,
    proby: &Vec<Dowiazanie>,
) -> (r: KrokZatwierdzenia)
    ensures
        ({
            let k = pierwsze_rozstrzygniete(proby@);
            match r {
                KrokZatwierdzenia::Polacz(p) => k == proby@.len() && p@ == pelna(
                    target_base@,
                    rel_path@,
                    winner,
                    k,
                ),
                KrokZatwierdzenia::Gotowe(p, rel, zmieniona) => k < proby@.len() && proby@[k as int]
                    == Dowiazanie::Utworzone && p@ == pelna(target_base@, rel_path@, winner, k)
                    && rel@ == kandydat(rel_path@, winner, k) && zmieniona == (k != 0),
                KrokZatwierdzenia::Odmowa => k < proby@.len() && proby@[k as int]
                    == Dowiazanie::Blad,
            }
        }),
{
    let mut i: usize = 0;
    assert(proby@.skip(0) =~= proby@);
    while i < proby.len() && proby[i] == Dowiazanie::Zajete
        invariant
            i <= proby@.len(),
            pierwsze_rozstrzygniete(proby@) == i + pierwsze_rozstrzygniete(proby@.skip(i as int)),
        decreases proby@.len() - i,
    {
        assert(proby@.skip(i as int)[0] == proby@[i as int]);
        assert(proby@.skip(i as int).skip(1) =~= proby@.skip(i + 1));
        i = i + 1;
    }
    proof {
        if i < proby@.len() {
            assert(proby@.skip(i as int)[0] == proby@[i as int]);
        }
    }
    let rel = wyznacz_kandydata(rel_path, winner, i as u64);
    let p = sciezka::polacz(target_base, rel.as_str());
    if i == proby.len() {
        KrokZatwierdzenia::Polacz(p)
    } else if proby[i] == Dowiazanie::Utworzone {
        KrokZatwierdzenia::Gotowe(p, rel, i != 0)
    } else {
        KrokZatwierdzenia::Odmowa
    }
}

/// The path of a restored file: an absolute one stands for itself, and one from
/// an older database is relative to its source.
pub fn sciezka_naprawiona(zapisana: &str, baza_zrodlowa: &str) -> (r: String)
    ensures
        r@ == sciezka::polaczona(baza_zrodlowa@, zapisana@),
        sciezka::bezwzgledna(zapisana@) ==> r@ == zapisana@,
{
    sciezka::polacz(baza_zrodlowa, zapisana)
}

// ---------------------------------------------------------------------------
// Temporary files
// ---------------------------------------------------------------------------

/// The most bytes of the original name that a temporary name takes over.
pub const MAX_OSADZONEJ_NAZWY_BAJTOW: usize = 200;

/// The number of bytes of a character in UTF-8.
pub open spec fn bajty_znaku(c: char) -> nat {
    if (c as u32) < 0x80 {
        1
    } else if (c as u32) < 0x800 {
        2
    } else if (c as u32) < 0x10000 {
        3
    } else {
        4
    }
}

/// The number of bytes of a text in UTF-8.
pub open spec fn rozmiar_utf8(t: Seq<char>) -> nat
    decreases t.len(),
{
    if t.len() == 0 {
        0
    } else {
        rozmiar_utf8(t.drop_last()) + bajty_znaku(t.last())
    }
}

/// How many characters from the start fit into `max` bytes.
pub open spec fn ile_znakow(t: Seq<char>, max: int) -> nat
    decreases t.len(),
{
    if t.len() == 0 || bajty_znaku(t[0]) > max {
        0
    } else {
        1 + ile_znakow(t.skip(1), max - bajty_znaku(t[0]))
    }
}

/// The longest beginning of a text that fits into `max` bytes, cut between
/// characters.
pub open spec fn obciety(t: Seq<char>, max: nat) -> Seq<char> {
    t.take(ile_znakow(t, max as int) as int)
}

pub(crate) proof fn ile_znakow_w_tekscie(t: Seq<char>, max: int)
    ensures
        ile_znakow(t, max) <= t.len(),
    decreases t.len(),
{
    if t.len() > 0 && bajty_znaku(t[0]) <= max {
        ile_znakow_w_tekscie(t.skip(1), max - bajty_znaku(t[0]));
    }
}

/// Cuts a text to at most `max_bajtow` bytes, never inside a character.
pub fn obetnij_do_granicy_utf8(s: &str, max_bajtow: usize) -> (r: String)
    ensures
        r@ == obciety(s@, max_bajtow as nat),
{
    let v = tekst::znaki(s);
    let mut zostalo: usize = max_bajtow;
    let mut i: usize = 0;
    assert(v@.skip(0) =~= v@);
    while i < v.len()
        invariant_except_break
            i <= v@.len(),
            ile_znakow(v@, max_bajtow as int) == i + ile_znakow(v@.skip(i as int), zostalo as int),
        ensures
            i <= v@.len(),
            ile_znakow(v@, max_bajtow as int) == i,
        decreases v@.len() - i,
    {
        let c: u32 = v[i] as u32;
        let b: usize = if c < 0x80 {
            1
        } else if c < 0x800 {
            2
        } else if c < 0x10000 {
            3
        } else {
            4
        };
        assert(v@.skip(i as int)[0] == v@[i as int]);
        assert(v@.skip(i as int).skip(1) =~= v@.skip(i + 1));
        if b > zostalo {
            break;
        }
        zostalo = zostalo - b;
        i = i + 1;
    }
    let r = tekst::wycinek(&v, 0, i);
    assert(r@ =~= obciety(s@, max_bajtow as nat));
    r
}

proof fn rozmiar_sumy(a: Seq<char>, b: Seq<char>)
    ensures
        rozmiar_utf8(a + b) == rozmiar_utf8(a) + rozmiar_utf8(b),
    decreases b.len(),
{
    if b.len() == 0 {
        assert(a + b =~= a);
    } else {
        assert((a + b).drop_last() =~= a + b.drop_last());
        rozmiar_sumy(a, b.drop_last());
    }
}

proof fn rozmiar_od_przodu(t: Seq<char>)
    requires
        t.len() > 0,
    ensures
        rozmiar_utf8(t) == bajty_znaku(t[0]) + rozmiar_utf8(t.skip(1)),
{
    assert(t =~= seq![t[0]] + t.skip(1));
    rozmiar_sumy(seq![t[0]], t.skip(1));
    assert(seq![t[0]].drop_last() =~= Seq::<char>::empty());
    assert(rozmiar_utf8(Seq::<char>::empty()) == 0);
}

/// What is cut fits into the limit, and one more character would not.
pub proof fn obciety_jest_najdluzszy(t: Seq<char>, max: nat)
    ensures
        rozmiar_utf8(obciety(t, max)) <= max,
        obciety(t, max).len() <= t.len(),
        obciety(t, max).len() < t.len() ==> rozmiar_utf8(
            t.take(obciety(t, max).len() as int + 1),
        ) > max,
    decreases t.len(),
{
    ile_znakow_w_tekscie(t, max as int);
    if t.len() > 0 && bajty_znaku(t[0]) <= max {
        let u = t.skip(1);
        let m = (max - bajty_znaku(t[0])) as nat;
        let k = ile_znakow(u, m as int) as int;
        ile_znakow_w_tekscie(u, m as int);
        obciety_jest_najdluzszy(u, m);
        let w = obciety(t, max);
        assert(w.skip(1) =~= obciety(u, m));
        rozmiar_od_przodu(w);
        if w.len() < t.len() {
            let x = t.take(w.len() as int + 1);
            assert(x.skip(1) =~= u.take(k + 1));
            rozmiar_od_przodu(x);
        }
    } else if t.len() > 0 {
        let x = t.take(1);
        rozmiar_od_przodu(x);
    }
}

/// A text within the limit is left as it is.
pub proof fn krotki_tekst_bez_zmian(t: Seq<char>, max: nat)
    requires
        rozmiar_utf8(t) <= max,
    ensures
        obciety(t, max) == t,
{
    obciety_jest_najdluzszy(t, max);
    ile_znakow_w_tekscie(t, max as int);
    let w = obciety(t, max);
    if w.len() < t.len() {
        let x = t.take(w.len() as int + 1);
        assert(t =~= x + t.skip(x.len() as int));
        rozmiar_sumy(x, t.skip(x.len() as int));
    } else {
        assert(w =~= t);
    }
}

/// The file name of a path, or a stand-in.
pub open spec fn nazwa_lub_plik(p: Seq<char>) -> Seq<char> {
    match sciezka::nazwa(p) {
        Some(n) => n,
        None => "plik"@,
    }
}

/// The name of a temporary file: hidden, with what fits of the original name,
/// and unique by the process and a counter.
pub open spec fn nazwa_tymczasowa(nazwa: Seq<char>, pid: nat, licznik: nat) -> Seq<char> {
    "."@ + obciety(nazwa, MAX_OSADZONEJ_NAZWY_BAJTOW as nat) + ".tmp-"@ + tekst::dziesietny(pid)
        + "-"@ + tekst::dziesietny(licznik)
}

/// The path of a temporary file in the directory of the target, so that giving
/// it its final name stays within one file system.
pub fn sciezka_tymczasowa(docelowa: &str, pid: u32, licznik: u64) -> (r: String)
    ensures
        r@ == sciezka::z_nazwa(
            docelowa@,
            nazwa_tymczasowa(nazwa_lub_plik(docelowa@), pid as nat, licznik as nat),
        ),
{
    let nazwa = match sciezka::nazwa_pliku(docelowa) {
        Some(n) => n,
        None => "plik".to_owned(),
    };
    let mut s = ".".to_owned();
    let obcieta = obetnij_do_granicy_utf8(nazwa.as_str(), MAX_OSADZONEJ_NAZWY_BAJTOW);
    s.append(obcieta.as_str());
    s.append(".tmp-");
    tekst::dopisz_liczbe(&mut s, pid as u64);
    s.append("-");
    tekst::dopisz_liczbe(&mut s, licznik);
    sciezka::podmien_nazwe(docelowa, s.as_str())
}

proof fn rozmiar_cyfr(n: nat, k: nat)
    requires
        n < vstd::arithmetic::power::pow(10, k),
        k > 0,
    ensures
        rozmiar_utf8(tekst::dziesietny(n)) <= k,
    decreases k,
{
    vstd::arithmetic::power::lemma_pow1(10);
    if n >= 10 {
        if k == 1 {
            assert(false);
        }
        vstd::arithmetic::power::lemma_pow_adds(10, (k - 1) as nat, 1);
        assert(n / 10 < vstd::arithmetic::power::pow(10, (k - 1) as nat)) by (nonlinear_arith)
            requires
                n < vstd::arithmetic::power::pow(10, (k - 1) as nat) * 10,
        ;
        rozmiar_cyfr(n / 10, (k - 1) as nat);
        let d = tekst::dziesietny(n);
        assert(d.drop_last() =~= tekst::dziesietny(n / 10));
    } else {
        let d = tekst::dziesietny(n);
        assert(d.drop_last() =~= Seq::<char>::empty());
        assert(rozmiar_utf8(Seq::<char>::empty()) == 0);
    }
}

/// However long the original name is, the temporary one stays below the 255
/// bytes that file systems allow.
pub proof fn nazwa_tymczasowa_miesci_sie(nazwa: Seq<char>, pid: u32, licznik: u64)
    ensures
        rozmiar_utf8(nazwa_tymczasowa(nazwa, pid as nat, licznik as nat)) <= 237,
{
    let max = MAX_OSADZONEJ_NAZWY_BAJTOW as nat;
    let o = obciety(nazwa, max);
    let a = tekst::dziesietny(pid as nat);
    let b = tekst::dziesietny(licznik as nat);
    obciety_jest_najdluzszy(nazwa, max);
    assert(vstd::arithmetic::power::pow(10, 10) == 10000000000) by {
        reveal_with_fuel(vstd::arithmetic::power::pow, 11);
    }
    assert(vstd::arithmetic::power::pow(10, 20) == 100000000000000000000) by {
        reveal_with_fuel(vstd::arithmetic::power::pow, 11);
        vstd::arithmetic::power::lemma_pow_adds(10, 10, 10);
    }
    rozmiar_cyfr(pid as nat, 10);
    rozmiar_cyfr(licznik as nat, 20);
    reveal_strlit(".");
    reveal_strlit(".tmp-");
    reveal_strlit("-");
    reveal_with_fuel(rozmiar_utf8, 6);
    rozmiar_sumy("."@, o);
    rozmiar_sumy("."@ + o, ".tmp-"@);
    rozmiar_sumy("."@ + o + ".tmp-"@, a);
    rozmiar_sumy("."@ + o + ".tmp-"@ + a, "-"@);
    rozmiar_sumy("."@ + o + ".tmp-"@ + a + "-"@, b);
}

/// Two files copied by one process never share a temporary name, even where
/// they share their own.
pub proof fn nazwy_tymczasowe_sa_rozne(nazwa: Seq<char>, pid: nat, i: nat, j: nat)
    requires
        i != j,
    ensures
        nazwa_tymczasowa(nazwa, pid, i) != nazwa_tymczasowa(nazwa, pid, j),
{
    let p = "."@ + obciety(nazwa, MAX_OSADZONEJ_NAZWY_BAJTOW as nat) + ".tmp-"@
        + tekst::dziesietny(pid) + "-"@;
    let a = nazwa_tymczasowa(nazwa, pid, i);
    let b = nazwa_tymczasowa(nazwa, pid, j);
    assert(a.skip(p.len() as int) =~= tekst::dziesietny(i));
    assert(b.skip(p.len() as int) =~= tekst::dziesietny(j));
    if a == b {
        tekst::dziesietny_rozroznia(i, j);
    }
}

} // verus!
