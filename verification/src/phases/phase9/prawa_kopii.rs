//! Laws of the copy of a winner: what it is made from, what a success means, and
//! what it is given back.

use vstd::prelude::*;

use crate::phases::phase9::decyzja::{MergeCandidate, Strona};
use crate::phases::phase9::kopiowanie;
use crate::phases::phase9::kopiowanie::{Dalej, Odpowiedz, Praca, Skutek, Zlecenie};
use crate::phases::phase9::sciezki;
use crate::phases::phase9::sciezki::Dowiazanie;
use crate::sciezka;

verus! {

/// The bytes of a copy come from the side that won: from the version put together,
/// from the restored version of that side, or from its original. A restored version
/// with an absolute path lies there; any other lies below its side.
pub proof fn zrodlo_zwyciezcy(f: MergeCandidate, ufs: Seq<char>, script: Seq<char>)
    ensures
        f.smart_splice_path matches Some(p) ==> kopiowanie::zrodlo(f, Strona::Splice, ufs, script)
            == p@,
        f.repaired_path_ufs is None ==> kopiowanie::zrodlo(f, Strona::Ufs, ufs, script)
            == sciezka::polaczona(ufs, f.rel_path@),
        f.repaired_path_script is None ==> kopiowanie::zrodlo(f, Strona::Script, ufs, script)
            == sciezka::polaczona(script, f.rel_path@),
        f.repaired_path_ufs matches Some(p) ==> kopiowanie::zrodlo(f, Strona::Ufs, ufs, script)
            == if sciezka::bezwzgledna(p@) {
            p@
        } else {
            sciezka::polaczona(ufs, p@)
        },
        f.repaired_path_script matches Some(p) ==> kopiowanie::zrodlo(
            f,
            Strona::Script,
            ufs,
            script,
        ) == if sciezka::bezwzgledna(p@) {
            p@
        } else {
            sciezka::polaczona(script, p@)
        },
        kopiowanie::naprawiona(f, Strona::Ufs) <==> f.repaired_path_ufs is Some,
        kopiowanie::naprawiona(f, Strona::Script) <==> f.repaired_path_script is Some,
        !kopiowanie::naprawiona(f, Strona::Splice),
{
}

/// A copy gets the metadata of the side that won and of no other; a file put together
/// from both takes each value from the script where that has one, else from UFS, and
/// is held to no size.
pub proof fn metadane_zwyciezcy(f: MergeCandidate)
    ensures
        ({
            let u = kopiowanie::metadane(f, Strona::Ufs);
            let s = kopiowanie::metadane(f, Strona::Script);
            let z = kopiowanie::metadane(f, Strona::Splice);
            &&& u.rozmiar == f.size_ufs && u.uid == f.uid_ufs && u.gid == f.gid_ufs
            &&& u.mode == f.mode_ufs && u.mtime == f.mtime_ufs
            &&& u.dowiazanie <==> f.is_symlink_ufs == Some(true)
            &&& s.rozmiar == f.size_script && s.uid == f.uid_script && s.gid == f.gid_script
            &&& s.mode == f.mode_script && s.mtime == f.mtime_script
            &&& s.dowiazanie <==> f.is_symlink_script == Some(true)
            &&& z.rozmiar is None && !z.dowiazanie
            &&& z.uid == (if f.uid_script is Some {
                f.uid_script
            } else {
                f.uid_ufs
            })
            &&& z.gid == (if f.gid_script is Some {
                f.gid_script
            } else {
                f.gid_ufs
            })
            &&& z.mode == (if f.mode_script is Some {
                f.mode_script
            } else {
                f.mode_ufs
            })
            &&& z.mtime == (if f.mtime_script is Some {
                f.mtime_script
            } else {
                f.mtime_ufs
            })
        }),
{
}

/// The size that was found is the one that was wanted, or none was wanted. A size
/// beyond the signed range stands for the number that wraps around to it.
pub open spec fn wlasciwy_rozmiar(o: Odpowiedz, chciany: Option<i64>) -> bool {
    o matches Odpowiedz::Rozmiar(Some(n)) && (chciany matches Some(e) ==> n as int == e as int || n
        as int == e + 0x1_0000_0000_0000_0000)
}

/// The positions behind `q` at which metadata are given back: of the time, of the
/// rights, of the owner, and the end.
pub open spec fn miejsca(z: Zlecenie, q: int) -> (int, int, int) {
    let a = if z.meta.mtime is Some {
        q + 1
    } else {
        q
    };
    let b = if z.meta.mode is Some && !z.meta.dowiazanie {
        a + 1
    } else {
        a
    };
    let c = if z.meta.uid is Some && z.meta.gid is Some {
        b + 1
    } else {
        b
    };
    (a, b, c)
}

/// From position `q` on, the copy at `cel` got back its time, its rights unless it is a
/// link, and its owner where both parts of it are known; the end tells truly whether
/// all of that came out.
pub open spec fn metadane_oddane(
    z: Zlecenie,
    h: Seq<Odpowiedz>,
    cel: Seq<char>,
    q: int,
    s: Skutek,
) -> bool {
    let (a, b, c) = miejsca(z, q);
    &&& c <= h.len()
    &&& z.meta.mtime matches Some(t) ==> (kopiowanie::kopia(z, h.take(q)) matches Dalej::Praca(
        Praca::UstawCzas(g, x, y),
    ) && g == cel && x * 1_000_000_000 + y == t && 0 <= y < 1_000_000_000)
    &&& b == a + 1 ==> kopiowanie::kopia(z, h.take(a)) == Dalej::Praca(
        Praca::UstawPrawa(cel, z.meta.mode->0),
    )
    &&& c == b + 1 ==> kopiowanie::kopia(z, h.take(b)) == Dalej::Praca(
        Praca::UstawWlasciciela(cel, z.meta.uid->0, z.meta.gid->0),
    )
    &&& s.blad_metadanych <==> exists|i: int| q <= i < c && #[trigger] h[i] != Odpowiedz::Udalo(
        true,
    )
}

proof fn istnienia_w_poczatku(h: Seq<Odpowiedz>, m: int, i: int)
    requires
        0 <= i <= m <= h.len(),
        i + kopiowanie::istnienia(h, i).len() <= m,
        sciezki::pierwsza_wolna(kopiowanie::istnienia(h, i)) < kopiowanie::istnienia(h, i).len(),
    ensures
        kopiowanie::istnienia(h.take(m), i) == kopiowanie::istnienia(h, i),
    decreases m - i,
{
    let g = h.take(m);
    let z = kopiowanie::istnienia(h, i);
    assert(z.len() > 0);
    assert(g[i] == h[i]);
    if h[i] matches Odpowiedz::Istnieje(true) {
        assert(z.skip(1) =~= kopiowanie::istnienia(h, i + 1));
        istnienia_w_poczatku(h, m, i + 1);
    }
}

proof fn polaczenia_przed(h: Seq<Odpowiedz>, i: int)
    requires
        0 <= i <= h.len(),
        sciezki::pierwsze_rozstrzygniete(kopiowanie::polaczenia(h, i)) < kopiowanie::polaczenia(
            h,
            i,
        ).len(),
    ensures
        ({
            let k = sciezki::pierwsze_rozstrzygniete(kopiowanie::polaczenia(h, i));
            let p = kopiowanie::polaczenia(h.take(i + k), i);
            &&& i + k < h.len()
            &&& p.len() == k
            &&& sciezki::pierwsze_rozstrzygniete(p) == k
            &&& kopiowanie::polaczenia(h, i)[k as int] == (match h[i + k] {
                Odpowiedz::Polaczenie(d) => d,
                _ => Dowiazanie::Blad,
            })
        }),
    decreases h.len() - i,
{
    let p = kopiowanie::polaczenia(h, i);
    if h[i] matches Odpowiedz::Polaczenie(Dowiazanie::Zajete) {
        assert(p.skip(1) =~= kopiowanie::polaczenia(h, i + 1));
        polaczenia_przed(h, i + 1);
        let k = sciezki::pierwsze_rozstrzygniete(p);
        let g = h.take(i + k);
        assert(g[i] == h[i]);
        let r = kopiowanie::polaczenia(g, i);
        assert(r.skip(1) =~= kopiowanie::polaczenia(g, i + 1));
        assert(p[k as int] == p.skip(1)[k - 1]);
    }
}

/// Where the work on a file starts whose first free name is the candidate `k`.
spec fn od(z: Zlecenie, k: nat) -> int {
    if sciezka::rodzic(sciezki::pelna(z.baza@, z.rel_path@, z.strona, k)) is Some {
        k as int + 2
    } else {
        k as int + 1
    }
}

proof fn kopia_w_poczatkach(z: Zlecenie, h: Seq<Odpowiedz>)
    requires
        kopiowanie::kopia(z, h) is Koniec,
    ensures
        ({
            let k = sciezki::pierwsza_wolna(kopiowanie::istnienia(h, 0));
            let p = od(z, k);
            &&& p <= h.len()
            &&& kopiowanie::kopia(z, h) == kopiowanie::przeniesienie(z, k, h, p)
            &&& forall|j: int|
                p <= j <= h.len() ==> #[trigger] kopiowanie::kopia(z, h.take(j))
                    == kopiowanie::przeniesienie(z, k, h.take(j), p)
        }),
{
    kopiowanie::istnienia_koncza_sie(h, 0);
    let k = sciezki::pierwsza_wolna(kopiowanie::istnienia(h, 0));
    let p = od(z, k);
    assert forall|j: int| p <= j <= h.len() implies #[trigger] kopiowanie::kopia(z, h.take(j))
        == kopiowanie::przeniesienie(z, k, h.take(j), p) by {
        istnienia_w_poczatku(h, j, 0);
    }
}

proof fn odtworzenie_w_poczatkach(
    z: Zlecenie,
    cel: Seq<char>,
    rel: Seq<char>,
    zm: bool,
    h: Seq<Odpowiedz>,
    q: int,
    s: Skutek,
)
    requires
        0 <= q <= h.len(),
        kopiowanie::odtworzenie(z, cel, rel, zm, h, q) == Dalej::Koniec(s),
    ensures
        ({
            let (a, b, c) = miejsca(z, q);
            &&& c <= h.len()
            &&& s.success && s.saved_path == rel
            &&& s.dowiazanie == z.meta.dowiazanie && s.zmieniona_nazwa == zm && s.naprawiona
                == z.naprawiona
            &&& z.meta.mtime matches Some(t) ==> kopiowanie::odtworzenie(
                z,
                cel,
                rel,
                zm,
                h.take(q),
                q,
            ) == Dalej::Praca(
                Praca::UstawCzas(cel, kopiowanie::czas(t).0, kopiowanie::czas(t).1),
            )
            &&& b == a + 1 ==> kopiowanie::odtworzenie(z, cel, rel, zm, h.take(a), q)
                == Dalej::Praca(Praca::UstawPrawa(cel, z.meta.mode->0))
            &&& c == b + 1 ==> kopiowanie::odtworzenie(z, cel, rel, zm, h.take(b), q)
                == Dalej::Praca(Praca::UstawWlasciciela(cel, z.meta.uid->0, z.meta.gid->0))
            &&& s.blad_metadanych <==> exists|i: int|
                q <= i < c && #[trigger] h[i] != Odpowiedz::Udalo(true)
        }),
{
    reveal(kopiowanie::odtworzenie);
    let prace = kopiowanie::odtwarzane(z.meta, cel);
    let (a, b, c) = miejsca(z, q);
    assert(prace.len() == c - q);
    assert(z.meta.mtime matches Some(t) ==> prace[0] == Praca::UstawCzas(
        cel,
        kopiowanie::czas(t).0,
        kopiowanie::czas(t).1,
    ));
    assert(b == a + 1 ==> prace[a - q] == Praca::UstawPrawa(cel, z.meta.mode->0));
    assert(c == b + 1 ==> prace[b - q] == Praca::UstawWlasciciela(
        cel,
        z.meta.uid->0,
        z.meta.gid->0,
    ));
    if s.blad_metadanych {
        let i = choose|i: int| 0 <= i < prace.len() && !#[trigger] kopiowanie::udalo(h[q + i]);
        assert(h[q + i] != Odpowiedz::Udalo(true));
    }
    if exists|i: int| q <= i < c && #[trigger] h[i] != Odpowiedz::Udalo(true) {
        let i = choose|i: int| q <= i < c && #[trigger] h[i] != Odpowiedz::Udalo(true);
        assert(!kopiowanie::udalo(h[q + (i - q)]));
    }
}

/// The path of a copy below the target.
pub open spec fn miejsce_kopii(z: Zlecenie, s: Skutek) -> Seq<char> {
    sciezka::polaczona(z.baza@, s.saved_path)
}

proof fn zatwierdzenie_w_poczatkach(
    z: Zlecenie,
    rel: Seq<char>,
    tmp: Seq<char>,
    h: Seq<Odpowiedz>,
    q: int,
    s: Skutek,
) -> (j: int)
    requires
        0 <= q <= h.len(),
        kopiowanie::zatwierdzenie(z, rel, tmp, h, q) == Dalej::Koniec(s),
    ensures
        q <= j < h.len(),
        ({
            let cel = miejsce_kopii(z, s);
            let (a, b, c) = miejsca(z, j + 2);
            if s.success {
                &&& j + 2 <= h.len()
                &&& s.dowiazanie == z.meta.dowiazanie
                &&& kopiowanie::zatwierdzenie(z, rel, tmp, h.take(j), q) == Dalej::Praca(
                    Praca::Polacz(tmp, cel),
                )
                &&& h[j] == Odpowiedz::Polaczenie(Dowiazanie::Utworzone)
                &&& c <= h.len()
                &&& z.meta.mtime matches Some(t) ==> kopiowanie::zatwierdzenie(
                    z,
                    rel,
                    tmp,
                    h.take(j + 2),
                    q,
                ) == Dalej::Praca(
                    Praca::UstawCzas(cel, kopiowanie::czas(t).0, kopiowanie::czas(t).1),
                )
                &&& b == a + 1 ==> kopiowanie::zatwierdzenie(z, rel, tmp, h.take(a), q)
                    == Dalej::Praca(Praca::UstawPrawa(cel, z.meta.mode->0))
                &&& c == b + 1 ==> kopiowanie::zatwierdzenie(z, rel, tmp, h.take(b), q)
                    == Dalej::Praca(
                    Praca::UstawWlasciciela(cel, z.meta.uid->0, z.meta.gid->0),
                )
                &&& s.blad_metadanych <==> exists|i: int|
                    j + 2 <= i < c && #[trigger] h[i] != Odpowiedz::Udalo(true)
            } else {
                &&& kopiowanie::zatwierdzenie(z, rel, tmp, h.take(j), q) matches Dalej::Praca(
                    Praca::Polacz(x, _),
                ) && x == tmp
                &&& h[j] != Odpowiedz::Polaczenie(Dowiazanie::Utworzone)
                &&& h[j] != Odpowiedz::Polaczenie(Dowiazanie::Zajete)
            }
        }),
{
    reveal(kopiowanie::zatwierdzenie);
    let pp = kopiowanie::polaczenia(h, q);
    let k = sciezki::pierwsze_rozstrzygniete(pp);
    kopiowanie::polaczenia_koncza_sie(h, q);
    polaczenia_przed(h, q);
    pierwsze_rozstrzygniete_jest_pierwsze(pp);
    let j: int = q + k;
    let cel = sciezki::pelna(z.baza@, z.rel_path@, z.strona, k);
    let r = sciezki::kandydat(z.rel_path@, z.strona, k);
    if pp[k as int] == Dowiazanie::Utworzone {
        odtworzenie_w_poczatkach(z, cel, r, k != 0, h, j + 2, s);
        let (a, b, c) = miejsca(z, j + 2);
        kopiowanie::polaczenia_ustalone(h, j + 2, q);
        kopiowanie::polaczenia_ustalone(h, a, q);
        kopiowanie::polaczenia_ustalone(h, b, q);
    }
    j
}

proof fn przez_zatwierdzenie(z: Zlecenie, k: nat, h: Seq<Odpowiedz>, p: int, q: int, m: int)
    requires
        0 <= p < q <= m <= h.len(),
        q == (if z.naprawiona {
            p + 1
        } else {
            p + 2
        }),
        !z.meta.dowiazanie,
        kopiowanie::udalo(h[p]),
        !z.naprawiona ==> kopiowanie::rozmiar_zgodny(h[p + 1], z.meta.rozmiar),
    ensures
        ({
            let cel = sciezki::pelna(z.baza@, z.rel_path@, z.strona, k);
            let rel = sciezki::kandydat(z.rel_path@, z.strona, k);
            let tmp = kopiowanie::tymczasowy(z, cel);
            kopiowanie::przeniesienie(z, k, h.take(m), p) == kopiowanie::zatwierdzenie(
                z,
                rel,
                tmp,
                h.take(m),
                q,
            )
        }),
{
    reveal(kopiowanie::przeniesienie);
    assert(h.take(m)[p] == h[p]);
    if !z.naprawiona {
        assert(h.take(m)[p + 1] == h[p + 1]);
    }
}

proof fn przeniesienie_udane(z: Zlecenie, k: nat, h: Seq<Odpowiedz>, p: int, s: Skutek) -> (j: int)
    requires
        0 <= p <= h.len(),
        !z.meta.dowiazanie,
        kopiowanie::przeniesienie(z, k, h, p) == Dalej::Koniec(s),
        s.success,
    ensures
        p < j && j + 2 <= h.len(),
        !s.dowiazanie,
        kopiowanie::udalo(h[p]),
        ({
            let tmp = kopiowanie::tymczasowy(
                z,
                sciezki::pelna(z.baza@, z.rel_path@, z.strona, k),
            );
            let cel = miejsce_kopii(z, s);
            let (a, b, c) = miejsca(z, j + 2);
            &&& kopiowanie::przeniesienie(z, k, h.take(p), p) == Dalej::Praca(
                Praca::Kopiuj(z.zrodlo@, tmp),
            )
            &&& !z.naprawiona ==> p + 1 < j && kopiowanie::rozmiar_zgodny(
                h[p + 1],
                z.meta.rozmiar,
            ) && kopiowanie::przeniesienie(z, k, h.take(p + 1), p) == Dalej::Praca(
                Praca::Zmierz(tmp),
            )
            &&& kopiowanie::przeniesienie(z, k, h.take(j), p) == Dalej::Praca(
                Praca::Polacz(tmp, cel),
            )
            &&& h[j] == Odpowiedz::Polaczenie(Dowiazanie::Utworzone)
            &&& c <= h.len()
            &&& z.meta.mtime matches Some(t) ==> kopiowanie::przeniesienie(z, k, h.take(j + 2), p)
                == Dalej::Praca(
                Praca::UstawCzas(cel, kopiowanie::czas(t).0, kopiowanie::czas(t).1),
            )
            &&& b == a + 1 ==> kopiowanie::przeniesienie(z, k, h.take(a), p) == Dalej::Praca(
                Praca::UstawPrawa(cel, z.meta.mode->0),
            )
            &&& c == b + 1 ==> kopiowanie::przeniesienie(z, k, h.take(b), p) == Dalej::Praca(
                Praca::UstawWlasciciela(cel, z.meta.uid->0, z.meta.gid->0),
            )
            &&& s.blad_metadanych <==> exists|i: int|
                j + 2 <= i < c && #[trigger] h[i] != Odpowiedz::Udalo(true)
        }),
{
    let cel = sciezki::pelna(z.baza@, z.rel_path@, z.strona, k);
    let rel = sciezki::kandydat(z.rel_path@, z.strona, k);
    let tmp = kopiowanie::tymczasowy(z, cel);
    let q: int = if z.naprawiona {
        p + 1
    } else {
        p + 2
    };
    assert(kopiowanie::przeniesienie(z, k, h, p) == kopiowanie::zatwierdzenie(z, rel, tmp, h, q)
        && p < h.len() && q <= h.len() && kopiowanie::udalo(h[p]) && (!z.naprawiona
        ==> kopiowanie::rozmiar_zgodny(h[p + 1], z.meta.rozmiar))) by {
        reveal(kopiowanie::przeniesienie);
    }
    assert(kopiowanie::przeniesienie(z, k, h.take(p), p) == Dalej::Praca(
        Praca::Kopiuj(z.zrodlo@, tmp),
    )) by {
        reveal(kopiowanie::przeniesienie);
    }
    if !z.naprawiona {
        assert(kopiowanie::przeniesienie(z, k, h.take(p + 1), p) == Dalej::Praca(
            Praca::Zmierz(tmp),
        )) by {
            reveal(kopiowanie::przeniesienie);
            assert(h.take(p + 1)[p] == h[p]);
        }
    }
    let j: int = zatwierdzenie_w_poczatkach(z, rel, tmp, h, q, s);
    let (a, b, c) = miejsca(z, j + 2);
    przez_zatwierdzenie(z, k, h, p, q, j);
    przez_zatwierdzenie(z, k, h, p, q, j + 2);
    przez_zatwierdzenie(z, k, h, p, q, a);
    przez_zatwierdzenie(z, k, h, p, q, b);
    j
}

/// A copy of a file that succeeded went through every step: its bytes were copied from
/// the source to a temporary file, that file was found to have the right size unless a
/// restored version was copied, it was linked to the name that is reported, and that
/// name got its metadata back. The result gives the answers to the copy, to the link,
/// and the first to the metadata.
#[verifier::spinoff_prover]
#[verifier::rlimit(50)]
pub proof fn udana_kopia_krok_po_kroku(z: Zlecenie, h: Seq<Odpowiedz>, s: Skutek) -> (w: (
    int,
    int,
    int,
))
    requires
        kopiowanie::kopia(z, h) == Dalej::Koniec(s),
        s.success,
        !z.meta.dowiazanie,
    ensures
        0 <= w.0 < w.1 < w.2 <= h.len(),
        !s.dowiazanie,
        kopiowanie::kopia(z, h.take(w.0)) matches Dalej::Praca(Praca::Kopiuj(x, tmp)) && x
            == z.zrodlo@ && h[w.0] == Odpowiedz::Udalo(true) && (!z.naprawiona ==> w.0 + 1 < w.1
            && kopiowanie::kopia(z, h.take(w.0 + 1)) == Dalej::Praca(Praca::Zmierz(tmp))
            && wlasciwy_rozmiar(h[w.0 + 1], z.meta.rozmiar)) && kopiowanie::kopia(z, h.take(w.1))
            == Dalej::Praca(Praca::Polacz(tmp, miejsce_kopii(z, s))),
        h[w.1] == Odpowiedz::Polaczenie(Dowiazanie::Utworzone),
        metadane_oddane(z, h, miejsce_kopii(z, s), w.2, s),
{
    kopia_w_poczatkach(z, h);
    let k = sciezki::pierwsza_wolna(kopiowanie::istnienia(h, 0));
    let p = od(z, k);
    let j: int = przeniesienie_udane(z, k, h, p, s);
    let (a, b, c) = miejsca(z, j + 2);
    let _ = (
        kopiowanie::kopia(z, h.take(p)),
        kopiowanie::kopia(z, h.take(p + 1)),
        kopiowanie::kopia(z, h.take(j)),
        kopiowanie::kopia(z, h.take(j + 2)),
        kopiowanie::kopia(z, h.take(a)),
        kopiowanie::kopia(z, h.take(b)),
    );
    (p, j, j + 2)
}

/// A symbolic link that was made anew points, byte for byte, to where the original
/// points, lies under the name that is reported, and got its metadata back.
pub proof fn udane_dowiazanie_krok_po_kroku(z: Zlecenie, h: Seq<Odpowiedz>, s: Skutek) -> (i: int)
    requires
        kopiowanie::kopia(z, h) == Dalej::Koniec(s),
        s.success,
        z.meta.dowiazanie,
    ensures
        0 <= i && i + 2 <= h.len(),
        s.dowiazanie,
        kopiowanie::kopia(z, h.take(i)) == Dalej::Praca(Praca::CzytajDowiazanie(z.zrodlo@)),
        h[i] matches Odpowiedz::Cel(Some(l)) && kopiowanie::kopia(z, h.take(i + 1)) == Dalej::Praca(
            Praca::UtworzDowiazanie(l@, miejsce_kopii(z, s)),
        ),
        h[i + 1] == Odpowiedz::Udalo(true),
        metadane_oddane(z, h, miejsce_kopii(z, s), i + 2, s),
{
    kopia_w_poczatkach(z, h);
    reveal(kopiowanie::przeniesienie);
    let k = sciezki::pierwsza_wolna(kopiowanie::istnienia(h, 0));
    let p = od(z, k);
    let cel = sciezki::pelna(z.baza@, z.rel_path@, z.strona, k);
    let rel = sciezki::kandydat(z.rel_path@, z.strona, k);
    odtworzenie_w_poczatkach(z, cel, rel, k != 0, h, p + 2, s);
    let (a, b, c) = miejsca(z, p + 2);
    assert(h.take(p + 1)[p] == h[p]);
    assert(h.take(p + 2)[p] == h[p] && h.take(p + 2)[p + 1] == h[p + 1]);
    assert(h.take(a)[p] == h[p] && h.take(a)[p + 1] == h[p + 1]);
    assert(h.take(b)[p] == h[p] && h.take(b)[p + 1] == h[p + 1]);
    if let Some(t) = z.meta.mtime {
        let x = kopiowanie::czas(t).0;
        let y = kopiowanie::czas(t).1;
        assert(kopiowanie::kopia(z, h.take(p + 2)) == Dalej::Praca(
            Praca::UstawCzas(miejsce_kopii(z, s), x, y),
        ));
    }
    p
}

/// The work did not come out as a copy needs it.
pub open spec fn zawiodla(z: Zlecenie, w: Praca, o: Odpowiedz) -> bool {
    match w {
        Praca::Kopiuj(_, _) | Praca::UtworzDowiazanie(_, _) => o != Odpowiedz::Udalo(true),
        Praca::CzytajDowiazanie(_) => !(o matches Odpowiedz::Cel(Some(_))),
        Praca::Zmierz(_) => !wlasciwy_rozmiar(o, z.meta.rozmiar),
        Praca::Polacz(_, _) => o != Odpowiedz::Polaczenie(Dowiazanie::Utworzone) && o
            != Odpowiedz::Polaczenie(Dowiazanie::Zajete),
        _ => false,
    }
}

/// A copy fails only over a step that did not come out: neither a directory, nor
/// metadata, nor a taken name make it fail.
pub proof fn porazka_ma_przyczyne(z: Zlecenie, h: Seq<Odpowiedz>, s: Skutek) -> (i: int)
    requires
        kopiowanie::kopia(z, h) == Dalej::Koniec(s),
        !s.success,
    ensures
        0 <= i < h.len(),
        kopiowanie::kopia(z, h.take(i)) matches Dalej::Praca(w) && zawiodla(z, w, h[i]),
{
    kopia_w_poczatkach(z, h);
    reveal(kopiowanie::przeniesienie);
    let k = sciezki::pierwsza_wolna(kopiowanie::istnienia(h, 0));
    let p = od(z, k);
    let cel = sciezki::pelna(z.baza@, z.rel_path@, z.strona, k);
    let rel = sciezki::kandydat(z.rel_path@, z.strona, k);
    let tmp = kopiowanie::tymczasowy(z, cel);
    assert(p < h.len());
    assert(h.take(p + 1)[p] == h[p]);
    if z.meta.dowiazanie {
        if h[p] matches Odpowiedz::Cel(Some(_)) {
            if h[p + 1] == Odpowiedz::Udalo(true) {
                odtworzenie_w_poczatkach(z, cel, rel, k != 0, h, p + 2, s);
            }
            p + 1
        } else {
            p
        }
    } else if h[p] != Odpowiedz::Udalo(true) {
        p
    } else if !z.naprawiona && !wlasciwy_rozmiar(h[p + 1], z.meta.rozmiar) {
        p + 1
    } else {
        let q: int = if z.naprawiona {
            p + 1
        } else {
            p + 2
        };
        let j: int = zatwierdzenie_w_poczatkach(z, rel, tmp, h, q, s);
        assert(h.take(j)[p] == h[p]);
        if !z.naprawiona {
            assert(h.take(j)[p + 1] == h[p + 1]);
        }
        j
    }
}

/// The search for a name takes the first candidate that is free.
pub proof fn pierwsza_wolna_jest_pierwsza(zajete: Seq<bool>)
    ensures
        ({
            let k = sciezki::pierwsza_wolna(zajete);
            &&& k <= zajete.len()
            &&& forall|i: int| 0 <= i < k ==> zajete[i]
            &&& k < zajete.len() ==> !zajete[k as int]
        }),
    decreases zajete.len(),
{
    if zajete.len() > 0 && zajete[0] {
        let t = zajete.skip(1);
        pierwsza_wolna_jest_pierwsza(t);
        assert(forall|i: int| 1 <= i < zajete.len() ==> zajete[i] == t[i - 1]);
    }
}

/// The commit goes on from one candidate to the next only where a name was taken.
pub proof fn pierwsze_rozstrzygniete_jest_pierwsze(d: Seq<Dowiazanie>)
    ensures
        ({
            let k = sciezki::pierwsze_rozstrzygniete(d);
            &&& k <= d.len()
            &&& forall|i: int| 0 <= i < k ==> d[i] == Dowiazanie::Zajete
            &&& k < d.len() ==> d[k as int] != Dowiazanie::Zajete
        }),
    decreases d.len(),
{
    if d.len() > 0 && d[0] == Dowiazanie::Zajete {
        let t = d.skip(1);
        pierwsze_rozstrzygniete_jest_pierwsze(t);
        assert(forall|i: int| 1 <= i < d.len() ==> d[i] == t[i - 1]);
    }
}

/// The report of a copy is true of it: it names the source, says whether a restored
/// version was used, and whether the file is a link; a changed name is reported exactly
/// where the copy does not bear its own; a failure reports nothing that was not done.
pub proof fn skutek_mowi_prawde(z: Zlecenie, h: Seq<Odpowiedz>, s: Skutek)
    requires
        kopiowanie::kopia(z, h) == Dalej::Koniec(s),
    ensures
        s.source_path == z.zrodlo@,
        s.naprawiona <==> z.naprawiona,
        s.blad_io <==> !s.success,
        s.success ==> (s.dowiazanie <==> z.meta.dowiazanie),
        s.success && !s.zmieniona_nazwa ==> s.saved_path == z.rel_path@,
        s.success && s.zmieniona_nazwa ==> sciezka::nazwa(s.saved_path) != sciezka::nazwa(
            z.rel_path@,
        ),
        !s.success ==> !s.dowiazanie && !s.zmieniona_nazwa && !s.blad_metadanych,
{
    kopia_w_poczatkach(z, h);
    let k = sciezki::pierwsza_wolna(kopiowanie::istnienia(h, 0));
    let p = od(z, k);
    reveal(kopiowanie::przeniesienie);
    reveal(kopiowanie::zatwierdzenie);
    reveal(kopiowanie::odtworzenie);
    let q: int = if z.naprawiona {
        p + 1
    } else {
        p + 2
    };
    let j = sciezki::pierwsze_rozstrzygniete(kopiowanie::polaczenia(h, q));
    if k > 0 {
        sciezki::kandydaci_sa_rozni(z.rel_path@, z.strona, 0, k);
    }
    if j > 0 {
        sciezki::kandydaci_sa_rozni(z.rel_path@, z.strona, 0, j);
    }
}

} // verus!
