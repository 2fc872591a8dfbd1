//! Laws of the paths of the golden copy.

use vstd::prelude::*;

use crate::phases::phase9::decyzja::Strona;
use crate::phases::phase9::sciezki;
use crate::phases::phase9::sciezki::Kanon;
use crate::sciezka;
use crate::tekst;

verus! {

/// The first copy takes the name that the file had.
pub proof fn pierwsza_proba_to_wlasna_nazwa(rel: Seq<char>, s: Strona)
    ensures
        sciezki::kandydat(rel, s, 0) == rel,
{
}

/// A copy that gives way to a taken name stays in its directory and keeps its
/// extension.
pub proof fn kandydat_obok(rel: Seq<char>, s: Strona, k: nat)
    requires
        sciezka::nazwa(rel) is Some,
    ensures
        sciezka::rodzic(sciezki::kandydat(rel, s, k)) == sciezka::rodzic(rel),
        sciezka::rozszerzenie(rel) is Some ==> sciezka::rozszerzenie(sciezki::kandydat(rel, s, k))
            == sciezka::rozszerzenie(rel),
{
    if k > 0 {
        let m = sciezka::nazwa(rel)->0;
        let stem = sciezki::rdzen_lub(rel);
        let ext = sciezki::kropka_i_rozszerzenie(rel);
        let n = sciezki::nazwa_wersji(stem, sciezki::etykieta(s), ext, k);
        sciezki::czesci_bez_ukosnika(rel);
        sciezki::wersja_bez_ukosnika(stem, s, ext, k);
        sciezki::nazwa_kandydata_k(rel, s, k);
        sciezka::nazwany_ma_rodzica(rel);
        sciezka::rodzic_bez_ogona(rel);
        sciezka::rodzic_polaczonej(sciezka::rodzic(rel)->0, n);
        if let Some(e) = sciezka::rozszerzenie(rel) {
            sciezka::ostatnia_kropka_trafia(m);
            reveal_strlit(".");
            let a = n.take(n.len() - ext.len());
            assert(n =~= a + seq!['.'] + e);
            assert(a.len() > 0);
            assert forall|i: int| 0 <= i < e.len() implies e[i] != '.' by {
                assert(e[i] == m[sciezka::ostatnia_kropka(m) + 1 + i]);
            }
            sciezka::rozszerzenie_za_ostatnia_kropka(a, e);
        }
    }
}

/// How the side of a copy is named where its own name was taken.
pub open spec fn znacznik(s: Strona) -> Seq<char> {
    match s {
        Strona::Ufs => "_[UFS]"@,
        Strona::Script => "_[SKRYPT]"@,
        Strona::Splice => "_[ZLOZONY]"@,
    }
}

/// A copy whose name was taken is named after the side that it comes from; from the
/// second collision on, a version number follows.
pub proof fn kandydat_nazywa_strone(rel: Seq<char>, s: Strona, k: nat, stem: Seq<char>)
    requires
        k > 0,
        sciezka::rdzen(rel) == Some(stem),
    ensures
        ({
            let ext = match sciezka::rozszerzenie(rel) {
                Some(e) => seq!['.'] + e,
                None => Seq::empty(),
            };
            sciezka::nazwa(sciezki::kandydat(rel, s, k)) == Some(
                if k == 1 {
                    stem + znacznik(s) + ext
                } else {
                    stem + znacznik(s) + seq!['_', 'v'] + tekst::dziesietny(k) + ext
                },
            )
        }),
{
    reveal_strlit("_[");
    reveal_strlit("]");
    reveal_strlit("]_v");
    reveal_strlit("UFS");
    reveal_strlit("SKRYPT");
    reveal_strlit("ZLOZONY");
    reveal_strlit("_[UFS]");
    reveal_strlit("_[SKRYPT]");
    reveal_strlit("_[ZLOZONY]");
    reveal_strlit(".");
    reveal_strlit("");
    sciezki::nazwa_kandydata_k(rel, s, k);
    let t = sciezki::etykieta(s);
    let z = znacznik(s);
    assert("_["@ + t + "]"@ =~= z);
    assert("_["@ + t + "]_v"@ =~= z + seq!['_', 'v']);
    let ext = match sciezka::rozszerzenie(rel) {
        Some(e) => seq!['.'] + e,
        None => Seq::empty(),
    };
    assert(sciezki::kropka_i_rozszerzenie(rel) =~= ext);
    let n = sciezki::nazwa_wersji(stem, t, ext, k);
    if k == 1 {
        assert(n =~= stem + ("_["@ + t + "]"@) + ext);
    } else {
        assert(n =~= stem + ("_["@ + t + "]_v"@) + tekst::dziesietny(k) + ext);
        assert(n =~= stem + z + seq!['_', 'v'] + tekst::dziesietny(k) + ext);
    }
}

/// What stands at a path decides its canonical form; a missing path is looked for in
/// its directory and keeps its name there.
pub proof fn kanon_pierwszego_istniejacego(
    p: Seq<char>,
    h: Seq<Option<Seq<char>>>,
    r: Seq<char>,
    d: Seq<char>,
    n: Seq<char>,
)
    ensures
        h.len() == 0 ==> sciezki::kanon_sciezki(p, h) == Kanon::Sprobuj(p),
        h.len() > 0 && h[0] == Some(r) ==> sciezki::kanon_sciezki(p, h) == Kanon::Jest(r),
        h.len() > 0 && h[0] is None && sciezka::nazwa(p) == Some(n) && sciezka::rodzic(p) == Some(d)
            && d.len() > 0 && sciezki::kanoniczna(d, h.skip(1), 0) == Kanon::Jest(r)
            ==> sciezki::kanon_sciezki(p, h) == Kanon::Jest(sciezka::polaczona(r, n)),
        h.len() > 0 && h[0] is None && sciezka::nazwa(p) == Some(n) && sciezka::rodzic(p) == Some(d)
            && d.len() == 0 && sciezki::kanoniczna("."@, h.skip(1), 0) == Kanon::Jest(r)
            ==> sciezki::kanon_sciezki(p, h) == Kanon::Jest(sciezka::polaczona(r, n)),
        h.len() > 0 && h[0] is None && sciezka::nazwa(p) == Some(n) && sciezka::rodzic(p) == Some(d)
            && d.len() > 0 && sciezki::kanoniczna(d, h.skip(1), 0) == Kanon::Sprobuj(r)
            ==> sciezki::kanon_sciezki(p, h) == Kanon::Sprobuj(r),
        h.len() == 1 && h[0] is None && sciezka::nazwa(p) == Some(n) && sciezka::rodzic(p) == Some(
            d,
        ) && d.len() > 0 ==> sciezki::kanon_sciezki(p, h) == Kanon::Sprobuj(d),
{
    if h.len() > 0 {
        przesuniety(d, h, 0);
        przesuniety("."@, h, 0);
    }
}

/// A missing path that ends in `..` comes to the directory above the canonical form of
/// the rest; the root stays the root.
pub proof fn kanon_drogi_w_gore(
    p: Seq<char>,
    h: Seq<Option<Seq<char>>>,
    r: Seq<char>,
    d: Seq<char>,
)
    requires
        h.len() > 0,
        h[0] is None,
        sciezka::nazwa(p) is None,
        sciezka::prowadzi_wyzej(p),
        sciezka::rodzic(p) == Some(d),
        d.len() > 0,
        sciezki::kanoniczna(d, h.skip(1), 0) == Kanon::Jest(r),
    ensures
        sciezka::rodzic(r) is Some ==> sciezki::kanon_sciezki(p, h) == Kanon::Jest(
            sciezka::rodzic(r)->0,
        ),
        sciezka::rodzic(r) is None ==> sciezki::kanon_sciezki(p, h) == Kanon::Jest(r),
{
    przesuniety(d, h, 0);
}

proof fn przesuniety(b: Seq<char>, h: Seq<Option<Seq<char>>>, k: int)
    requires
        h.len() > 0,
        0 <= k,
    ensures
        sciezki::kanoniczna(b, h, k + 1) == sciezki::kanoniczna(b, h.skip(1), k),
    decreases h.len() - k,
{
    if k + 1 < h.len() {
        assert(h.skip(1)[k] == h[k + 1]);
        przesuniety(sciezki::wyzej(b), h, k + 1);
        przesuniety("."@, h, k + 1);
    }
}

/// A target is refused with the name of the source that it endangers and the way it
/// does so; the first source is told before the second.
pub proof fn odmowa_nazywa_zrodlo(
    podana: Seq<char>,
    cel: Seq<char>,
    ufs: Seq<char>,
    script: Seq<char>,
)
    ensures
        ({
            let c = sciezka::skladniki(cel);
            let u = sciezka::skladniki(ufs);
            let s = sciezka::skladniki(script);
            let w = sciezki::zagrozenie_dowodow(podana, cel, ufs, script);
            &&& c == u ==> w == Some(
                "Ścieżka docelowa ("@ + podana + ") jest TAKA SAMA jak źródło "@ + "UFS"@ + " ("@
                    + ufs + ") — zapis nadpisałby materiał dowodowy."@,
            )
            &&& c != u && u.len() <= c.len() && c.take(u.len() as int) == u ==> w == Some(
                "Ścieżka docelowa ("@ + podana + ") leży WEWNĄTRZ źródła "@ + "UFS"@ + " ("@ + ufs
                    + ") — zapis zaśmieciłby/nadpisałby materiał dowodowy."@,
            )
            &&& c != u && c.len() <= u.len() && u.take(c.len() as int) == c ==> w == Some(
                "Źródło "@ + "UFS"@ + " ("@ + ufs + ") leży WEWNĄTRZ ścieżki docelowej ("@ + podana
                    + ") — zapis nadpisałby materiał dowodowy."@,
            )
            &&& rozne(c, u) && c == s ==> w == Some(
                "Ścieżka docelowa ("@ + podana + ") jest TAKA SAMA jak źródło "@ + "Skrypt"@ + " ("@
                    + script + ") — zapis nadpisałby materiał dowodowy."@,
            )
            &&& rozne(c, u) && c != s && s.len() <= c.len() && c.take(s.len() as int) == s ==> w
                == Some(
                "Ścieżka docelowa ("@ + podana + ") leży WEWNĄTRZ źródła "@ + "Skrypt"@ + " ("@
                    + script + ") — zapis zaśmieciłby/nadpisałby materiał dowodowy."@,
            )
            &&& rozne(c, u) && c != s && c.len() <= s.len() && s.take(c.len() as int) == c ==> w
                == Some(
                "Źródło "@ + "Skrypt"@ + " ("@ + script + ") leży WEWNĄTRZ ścieżki docelowej ("@
                    + podana + ") — zapis nadpisałby materiał dowodowy."@,
            )
            &&& rozne(c, u) && rozne(c, s) ==> w is None
        }),
{
    let c = sciezka::skladniki(cel);
    let u = sciezka::skladniki(ufs);
    let s = sciezka::skladniki(script);
    if c.len() == u.len() {
        assert(c.take(u.len() as int) =~= c);
        assert(u.take(c.len() as int) =~= u);
    }
    if c.len() == s.len() {
        assert(c.take(s.len() as int) =~= c);
        assert(s.take(c.len() as int) =~= s);
    }
}

/// Neither list is the beginning of the other.
pub open spec fn rozne(a: Seq<Seq<char>>, b: Seq<Seq<char>>) -> bool {
    &&& !(b.len() <= a.len() && a.take(b.len() as int) == b)
    &&& !(a.len() <= b.len() && b.take(a.len() as int) == a)
}

/// A temporary file lies beside its target, hidden, under a name that ends with the
/// process and the counter.
pub proof fn tymczasowy_obok_celu(docelowa: Seq<char>, pid: nat, licznik: nat)
    requires
        sciezka::nazwa(docelowa) is Some,
    ensures
        ({
            let n = sciezki::nazwa_tymczasowa(
                sciezki::nazwa_lub_plik(docelowa),
                pid,
                licznik,
            );
            let k = ".tmp-"@ + tekst::dziesietny(pid) + "-"@ + tekst::dziesietny(licznik);
            let t = sciezka::z_nazwa(docelowa, n);
            &&& sciezka::rodzic(t) == sciezka::rodzic(docelowa)
            &&& sciezka::nazwa(t) == Some(n)
            &&& n[0] == '.'
            &&& n.len() >= k.len() && n.skip(n.len() - k.len()) == k
        }),
{
    let m = sciezka::nazwa(docelowa)->0;
    let o = sciezki::obciety(m, sciezki::MAX_OSADZONEJ_NAZWY_BAJTOW as nat);
    let n = sciezki::nazwa_tymczasowa(m, pid, licznik);
    let k = ".tmp-"@ + tekst::dziesietny(pid) + "-"@ + tekst::dziesietny(licznik);
    reveal_strlit(".");
    reveal_strlit(".tmp-");
    reveal_strlit("-");
    tekst::dziesietny_niepusty(pid);
    tekst::dziesietny_niepusty(licznik);
    sciezka::nazwa_bez_ukosnika(docelowa);
    sciezki::obciety_jest_najdluzszy(m, sciezki::MAX_OSADZONEJ_NAZWY_BAJTOW as nat);
    assert(n =~= "."@ + o + k);
    assert(n.skip(n.len() - k.len()) =~= k);
    sciezki::ile_znakow_w_tekscie(m, sciezki::MAX_OSADZONEJ_NAZWY_BAJTOW as int);
    assert(o =~= m.take(o.len() as int));
    assert forall|i: int| 0 <= i < n.len() implies n[i] != '/' by {
        if 1 <= i < 1 + o.len() {
            assert(n[i] == m[i - 1]);
        }
    }
    sciezka::nazwany_ma_rodzica(docelowa);
    sciezka::rodzic_bez_ogona(docelowa);
    sciezka::rodzic_polaczonej(sciezka::rodzic(docelowa)->0, n);
    sciezka::nazwa_polaczonej(sciezka::rodzic(docelowa)->0, n);
}

/// The size of a text is the number of bytes that its UTF-8 form has.
pub proof fn rozmiar_to_bajty(t: Seq<char>)
    ensures
        sciezki::rozmiar_utf8(t) == vstd::utf8::encode_utf8(t).len(),
    decreases t.len(),
{
    if t.len() > 0 {
        rozmiar_to_bajty(t.drop_first());
        rozmiar_od_poczatku(t);
        let c = t[0] as u32;
        vstd::utf8::char_is_scalar(t[0]);
        assert(vstd::utf8::encode_scalar(c).len() == sciezki::bajty_znaku(t[0]));
    }
}

proof fn rozmiar_od_poczatku(t: Seq<char>)
    requires
        t.len() > 0,
    ensures
        sciezki::rozmiar_utf8(t) == sciezki::bajty_znaku(t[0]) + sciezki::rozmiar_utf8(
            t.drop_first(),
        ),
    decreases t.len(),
{
    if t.len() == 1 {
        assert(t.drop_last() =~= Seq::<char>::empty());
        assert(t.drop_first() =~= Seq::<char>::empty());
    } else {
        rozmiar_od_poczatku(t.drop_last());
        assert(t.drop_last().drop_first() =~= t.drop_first().drop_last());
        assert(t.drop_first().last() == t.last());
    }
}

} // verus!
