//! Unix paths as text: components, file names, stems, extensions, joining.
//!
//! The rules are those of `std::path` on Unix: repeated separators and inner
//! `.` components do not count, a leading `.` does, and a file name is the
//! last component unless that is `..`, `.` or the root.

use vstd::prelude::*;

use crate::tekst;

verus! {

/// The last position that holds a slash, or -1.
pub open spec fn ostatni_ukosnik(p: Seq<char>) -> int
    decreases p.len(),
{
    if p.len() == 0 {
        -1
    } else if p.last() == '/' {
        p.len() - 1
    } else {
        ostatni_ukosnik(p.drop_last())
    }
}

/// The last position that holds a dot, or -1.
pub open spec fn ostatnia_kropka(p: Seq<char>) -> int
    decreases p.len(),
{
    if p.len() == 0 {
        -1
    } else if p.last() == '.' {
        p.len() - 1
    } else {
        ostatnia_kropka(p.drop_last())
    }
}

/// `p` without what stands behind its last component: trailing slashes and `/.`.
pub open spec fn przyciety(p: Seq<char>) -> Seq<char>
    decreases p.len(),
{
    if p.len() >= 2 && (p.last() == '/' || (p.last() == '.' && p[p.len() - 2] == '/')) {
        przyciety(p.drop_last())
    } else {
        p
    }
}

/// What stands behind the last slash.
pub open spec fn ostatni_czlon(p: Seq<char>) -> Seq<char> {
    p.skip(ostatni_ukosnik(p) + 1)
}

/// The file name of a path.
pub open spec fn nazwa(p: Seq<char>) -> Option<Seq<char>> {
    let c = ostatni_czlon(przyciety(p));
    if c.len() == 0 || c == seq!['.'] || c == seq!['.', '.'] {
        None
    } else {
        Some(c)
    }
}

/// Whether the last component of a path is the one that leads upwards.
pub open spec fn prowadzi_wyzej(p: Seq<char>) -> bool {
    ostatni_czlon(przyciety(p)) == seq!['.', '.']
}

/// A file name without its extension.
pub open spec fn rdzen_nazwy(n: Seq<char>) -> Seq<char> {
    if ostatnia_kropka(n) <= 0 {
        n
    } else {
        n.take(ostatnia_kropka(n))
    }
}

/// The extension of a file name. A name that only starts with a dot has none.
pub open spec fn rozszerzenie_nazwy(n: Seq<char>) -> Option<Seq<char>> {
    if ostatnia_kropka(n) <= 0 {
        None
    } else {
        Some(n.skip(ostatnia_kropka(n) + 1))
    }
}

/// The stem of a path's file name.
pub open spec fn rdzen(p: Seq<char>) -> Option<Seq<char>> {
    match nazwa(p) {
        Some(n) => Some(rdzen_nazwy(n)),
        None => None,
    }
}

/// The extension of a path's file name.
pub open spec fn rozszerzenie(p: Seq<char>) -> Option<Seq<char>> {
    match nazwa(p) {
        Some(n) => rozszerzenie_nazwy(n),
        None => None,
    }
}

/// The path without its last component; none for the root and the empty path.
pub open spec fn rodzic(p: Seq<char>) -> Option<Seq<char>> {
    let q = przyciety(p);
    if q.len() == 0 || q == seq!['/'] {
        None
    } else {
        Some(przyciety(q.take(ostatni_ukosnik(q) + 1)))
    }
}

/// Whether a path starts at the root.
pub open spec fn bezwzgledna(p: Seq<char>) -> bool {
    p.len() > 0 && p[0] == '/'
}

/// `b` taken relative to `a`; an absolute `b` stands for itself.
pub open spec fn polaczona(a: Seq<char>, b: Seq<char>) -> Seq<char> {
    if bezwzgledna(b) {
        b
    } else if a.len() == 0 || a.last() == '/' {
        a + b
    } else {
        a + seq!['/'] + b
    }
}

/// The path with its file name replaced by `n`.
pub open spec fn z_nazwa(p: Seq<char>, n: Seq<char>) -> Seq<char> {
    match (nazwa(p), rodzic(p)) {
        (Some(_), Some(r)) => polaczona(r, n),
        _ => polaczona(p, n),
    }
}

/// The position of the first slash, or the length.
pub open spec fn pierwszy_ukosnik(p: Seq<char>) -> int
    decreases p.len(),
{
    if p.len() == 0 || p[0] == '/' {
        0
    } else {
        1 + pierwszy_ukosnik(p.skip(1))
    }
}

/// `c` as a list of one component, or of none where it is empty or a dot.
pub open spec fn czlon(c: Seq<char>) -> Seq<Seq<char>> {
    if c.len() == 0 || c == seq!['.'] {
        Seq::empty()
    } else {
        seq![c]
    }
}

/// The components between the slashes of `p`.
pub open spec fn czlony(p: Seq<char>) -> Seq<Seq<char>>
    decreases p.len(),
{
    let k = pierwszy_ukosnik(p);
    if k < 0 || k >= p.len() {
        czlon(p)
    } else {
        czlon(p.take(k)) + czlony(p.skip(k + 1))
    }
}

/// The components of a path: the root where it is absolute, a leading dot
/// where it starts with one, and the names between the slashes.
pub open spec fn skladniki(p: Seq<char>) -> Seq<Seq<char>> {
    (if bezwzgledna(p) {
        seq![seq!['/']]
    } else if p.take(pierwszy_ukosnik(p)) == seq!['.'] {
        seq![seq!['.']]
    } else {
        Seq::empty()
    }) + czlony(p)
}

/// Component by component, `a` starts with all of `b`.
pub open spec fn zaczyna_sie_od(a: Seq<Seq<char>>, b: Seq<Seq<char>>) -> bool {
    b.len() <= a.len() && a.take(b.len() as int) == b
}

proof fn ostatni_ukosnik_trafia(p: Seq<char>)
    ensures
        -1 <= ostatni_ukosnik(p) < p.len(),
        ostatni_ukosnik(p) >= 0 ==> p[ostatni_ukosnik(p)] == '/',
        forall|i: int| ostatni_ukosnik(p) < i < p.len() ==> p[i] != '/',
    decreases p.len(),
{
    if p.len() > 0 && p.last() != '/' {
        ostatni_ukosnik_trafia(p.drop_last());
        assert forall|i: int| ostatni_ukosnik(p) < i < p.len() implies p[i] != '/' by {
            if i < p.len() - 1 {
                assert(p.drop_last()[i] == p[i]);
            }
        }
    }
}

pub(crate) proof fn ostatnia_kropka_trafia(p: Seq<char>)
    ensures
        -1 <= ostatnia_kropka(p) < p.len(),
        ostatnia_kropka(p) >= 0 ==> p[ostatnia_kropka(p)] == '.',
        forall|i: int| ostatnia_kropka(p) < i < p.len() ==> p[i] != '.',
    decreases p.len(),
{
    if p.len() > 0 && p.last() != '.' {
        ostatnia_kropka_trafia(p.drop_last());
        assert forall|i: int| ostatnia_kropka(p) < i < p.len() implies p[i] != '.' by {
            if i < p.len() - 1 {
                assert(p.drop_last()[i] == p[i]);
            }
        }
    }
}

proof fn pierwszy_ukosnik_trafia(p: Seq<char>)
    ensures
        0 <= pierwszy_ukosnik(p) <= p.len(),
        pierwszy_ukosnik(p) < p.len() ==> p[pierwszy_ukosnik(p)] == '/',
        forall|i: int| 0 <= i < pierwszy_ukosnik(p) ==> p[i] != '/',
    decreases p.len(),
{
    if p.len() > 0 && p[0] != '/' {
        pierwszy_ukosnik_trafia(p.skip(1));
        assert forall|i: int| 0 <= i < pierwszy_ukosnik(p) implies p[i] != '/' by {
            if i > 0 {
                assert(p.skip(1)[i - 1] == p[i]);
            }
        }
    }
}

/// Length of `v[..n]` without what stands behind its last component.
fn przytnij(v: &Vec<char>, n: usize) -> (r: usize)
    requires
        n <= v.len(),
    ensures
        r <= n,
        v@.take(r as int) == przyciety(v@.take(n as int)),
{
    let mut k: usize = n;
    while k >= 2 && (v[k - 1] == '/' || (v[k - 1] == '.' && v[k - 2] == '/'))
        invariant
            k <= n <= v.len(),
            przyciety(v@.take(k as int)) == przyciety(v@.take(n as int)),
        decreases k,
    {
        assert(v@.take(k as int).drop_last() =~= v@.take(k - 1));
        k -= 1;
    }
    k
}

/// One past the last slash in `v[..n]`, or zero.
fn za_ukosnikiem(v: &Vec<char>, n: usize) -> (r: usize)
    requires
        n <= v.len(),
    ensures
        r == ostatni_ukosnik(v@.take(n as int)) + 1,
        r <= n,
{
    let mut k: usize = n;
    while k > 0 && v[k - 1] != '/'
        invariant
            k <= n <= v.len(),
            ostatni_ukosnik(v@.take(k as int)) == ostatni_ukosnik(v@.take(n as int)),
        decreases k,
    {
        assert(v@.take(k as int).drop_last() =~= v@.take(k - 1));
        k -= 1;
    }
    k
}

/// The file name of a path, with the part of its stem and its extension.
pub fn nazwa_pliku(p: &str) -> (r: Option<String>)
    ensures
        tekst::widok(r) == nazwa(p@),
{
    let v = tekst::znaki(p);
    assert(v@.take(v@.len() as int) =~= v@);
    let k: usize = przytnij(&v, v.len());
    let j: usize = za_ukosnikiem(&v, k);
    let ghost q = przyciety(p@);
    let c = tekst::wycinek(&v, j, k);
    proof {
        assert(c@ =~= ostatni_czlon(q));
    }
    let n: usize = k - j;
    if n == 0 {
        return None;
    }
    if n == 1 && v[j] == '.' {
        assert(c@ =~= seq!['.']);
        return None;
    }
    if n == 2 && v[j] == '.' && v[j + 1] == '.' {
        assert(c@ =~= seq!['.', '.']);
        return None;
    }
    proof {
        if c@ == seq!['.'] {
            assert(c@[0] == v@[j as int]);
        }
        if c@ == seq!['.', '.'] {
            assert(c@[0] == v@[j as int] && c@[1] == v@[j + 1]);
        }
    }
    Some(c)
}

/// Whether the last component of a path is the one that leads upwards.
pub fn wychodzi_wyzej(p: &str) -> (r: bool)
    ensures
        r == prowadzi_wyzej(p@),
{
    let v = tekst::znaki(p);
    assert(v@.take(v@.len() as int) =~= v@);
    let k: usize = przytnij(&v, v.len());
    let j: usize = za_ukosnikiem(&v, k);
    let ghost c = ostatni_czlon(przyciety(p@));
    assert(c =~= v@.subrange(j as int, k as int));
    if k - j == 2 && v[j] == '.' && v[j + 1] == '.' {
        assert(c =~= seq!['.', '.']);
        true
    } else {
        proof {
            if c == seq!['.', '.'] {
                assert(c[0] == v@[j as int] && c[1] == v@[j + 1]);
            }
        }
        false
    }
}

/// One past the last dot of `v`, or zero.
fn za_kropka(v: &Vec<char>) -> (r: usize)
    ensures
        r == ostatnia_kropka(v@) + 1,
        r <= v.len(),
{
    let mut k: usize = v.len();
    assert(v@.take(v@.len() as int) =~= v@);
    while k > 0 && v[k - 1] != '.'
        invariant
            k <= v.len(),
            ostatnia_kropka(v@.take(k as int)) == ostatnia_kropka(v@),
        decreases k,
    {
        assert(v@.take(k as int).drop_last() =~= v@.take(k - 1));
        k -= 1;
    }
    k
}

/// The stem of a path's file name.
pub fn rdzen_pliku(p: &str) -> (r: Option<String>)
    ensures
        tekst::widok(r) == rdzen(p@),
{
    match nazwa_pliku(p) {
        Some(n) => {
            let v = tekst::znaki(n.as_str());
            let k: usize = za_kropka(&v);
            if k <= 1 {
                Some(n)
            } else {
                let s = tekst::wycinek(&v, 0, k - 1);
                assert(s@ =~= rdzen_nazwy(n@));
                Some(s)
            }
        },
        None => None,
    }
}

/// The extension of a path's file name.
pub fn rozszerzenie_pliku(p: &str) -> (r: Option<String>)
    ensures
        tekst::widok(r) == rozszerzenie(p@),
{
    match nazwa_pliku(p) {
        Some(n) => {
            let v = tekst::znaki(n.as_str());
            let k: usize = za_kropka(&v);
            if k <= 1 {
                None
            } else {
                let s = tekst::wycinek(&v, k, v.len());
                assert(s@ =~= n@.skip(k as int));
                Some(s)
            }
        },
        None => None,
    }
}

/// The path without its last component.
pub fn katalog(p: &str) -> (r: Option<String>)
    ensures
        tekst::widok(r) == rodzic(p@),
{
    let v = tekst::znaki(p);
    assert(v@.take(v@.len() as int) =~= v@);
    let k: usize = przytnij(&v, v.len());
    let ghost q = przyciety(p@);
    if k == 0 {
        return None;
    }
    if k == 1 && v[0] == '/' {
        assert(q =~= seq!['/']);
        return None;
    }
    proof {
        if q == seq!['/'] {
            assert(q[0] == v@[0]);
        }
        ostatni_ukosnik_trafia(q);
    }
    let j: usize = za_ukosnikiem(&v, k);
    assert(v@.take(j as int) =~= q.take(ostatni_ukosnik(q) + 1));
    let i: usize = przytnij(&v, j);
    let s = tekst::wycinek(&v, 0, i);
    assert(s@ =~= v@.take(i as int));
    Some(s)
}

/// Whether a path starts at the root.
pub fn jest_bezwzgledna(p: &str) -> (r: bool)
    ensures
        r == bezwzgledna(p@),
{
    p.unicode_len() > 0 && p.get_char(0) == '/'
}

/// `b` taken relative to `a`; an absolute `b` stands for itself.
pub fn polacz(a: &str, b: &str) -> (r: String)
    ensures
        r@ == polaczona(a@, b@),
{
    if jest_bezwzgledna(b) {
        return b.to_owned();
    }
    let n: usize = a.unicode_len();
    let mut s = a.to_owned();
    if n > 0 && a.get_char(n - 1) != '/' {
        s.push('/');
        assert(s@ =~= a@ + seq!['/']);
    }
    s.append(b);
    s
}

/// The path without what stands behind its last component.
pub fn bez_ogona(p: &str) -> (r: String)
    ensures
        r@ == przyciety(p@),
{
    let v = tekst::znaki(p);
    assert(v@.take(v@.len() as int) =~= v@);
    let k: usize = przytnij(&v, v.len());
    let s = tekst::wycinek(&v, 0, k);
    assert(s@ =~= v@.take(k as int));
    s
}

/// The path with its file name replaced by `n`.
pub fn podmien_nazwe(p: &str, n: &str) -> (r: String)
    ensures
        r@ == z_nazwa(p@, n@),
{
    match (nazwa_pliku(p), katalog(p)) {
        (Some(_), Some(k)) => polacz(k.as_str(), n),
        _ => polacz(p, n),
    }
}

/// The components of a path.
pub fn rozloz(p: &str) -> (r: Vec<String>)
    ensures
        tekst::widoki(r@) == skladniki(p@),
{
    let v = tekst::znaki(p);
    let mut r: Vec<String> = Vec::new();
    let mut od: usize = 0;
    let n: usize = v.len();
    if n > 0 && v[0] == '/' {
        let mut s = String::new();
        s.push('/');
        assert(s@ =~= seq!['/']);
        r.push(s);
    } else if n > 0 && v[0] == '.' && (n == 1 || v[1] == '/') {
        let mut s = String::new();
        s.push('.');
        assert(s@ =~= seq!['.']);
        r.push(s);
        proof {
            assert(pierwszy_ukosnik(p@.skip(1)) == 0);
            assert(p@.take(1) =~= seq!['.']);
        }
    } else {
        proof {
            pierwszy_ukosnik_trafia(p@);
            if p@.take(pierwszy_ukosnik(p@)) == seq!['.'] {
                let t = p@.take(pierwszy_ukosnik(p@));
                assert(t.len() == 1);
                assert(t[0] == p@[0]);
            }
        }
    }
    let ghost glowa = tekst::widoki(r@);
    proof {
        assert(glowa + czlony(p@) == skladniki(p@));
        assert(v@.skip(0) =~= v@);
    }
    loop
        invariant_except_break
            od <= n,
            n == v.len(),
            tekst::widoki(r@) + czlony(v@.skip(od as int)) =~= glowa + czlony(v@),
        ensures
            tekst::widoki(r@) =~= glowa + czlony(v@),
        decreases n - od,
    {
        let ghost reszta = v@.skip(od as int);
        let mut k: usize = od;
        while k < n && v[k] != '/'
            invariant
                od <= k <= n,
                n == v.len(),
                pierwszy_ukosnik(v@.skip(od as int)) == (k - od) + pierwszy_ukosnik(v@.skip(k as int)),
            decreases n - k,
        {
            assert(v@.skip(k as int).skip(1) =~= v@.skip(k + 1));
            k += 1;
        }
        proof {
            pierwszy_ukosnik_trafia(reszta);
        }
        let ghost przed = tekst::widoki(r@);
        let c = tekst::wycinek(&v, od, k);
        assert(c@ =~= reszta.take(k - od));
        if k > od && !(k == od + 1 && v[od] == '.') {
            proof {
                if c@ == seq!['.'] {
                    assert(c@[0] == v@[od as int]);
                }
            }
            r.push(c);
        } else {
            proof {
                if k > od {
                    assert(c@ =~= seq!['.']);
                }
            }
        }
        proof {
            assert(tekst::widoki(r@) =~= przed + czlon(reszta.take(k - od)));
            assert(pierwszy_ukosnik(v@.skip(k as int)) == 0);
            assert(pierwszy_ukosnik(reszta) == k - od);
        }
        if k >= n {
            proof {
                assert(reszta.take(k - od) =~= reszta);
            }
            break;
        }
        proof {
            assert(reszta.skip(k - od + 1) =~= v@.skip(k + 1));
            assert(czlony(reszta) == czlon(reszta.take(k - od)) + czlony(v@.skip(k + 1)));
            assert(tekst::widoki(r@) + czlony(v@.skip(k + 1)) =~= przed + czlony(reszta));
        }
        od = k + 1;
    }
    r
}

/// Whether `a` starts with all the components of `b`.
pub fn zawiera_sie(a: &Vec<String>, b: &Vec<String>) -> (r: bool)
    ensures
        r == zaczyna_sie_od(tekst::widoki(a@), tekst::widoki(b@)),
{
    if b.len() > a.len() {
        return false;
    }
    let ghost x = tekst::widoki(a@);
    let ghost y = tekst::widoki(b@);
    let mut i: usize = 0;
    while i < b.len()
        invariant
            i <= b.len() <= a.len(),
            x == tekst::widoki(a@),
            y == tekst::widoki(b@),
            forall|j: int| 0 <= j < i ==> x[j] == y[j],
        decreases b.len() - i,
    {
        if !tekst::rowne(a[i].as_str(), b[i].as_str()) {
            assert(x.take(y.len() as int)[i as int] != y[i as int]);
            return false;
        }
        assert(x[i as int] == y[i as int]);
        i += 1;
    }
    assert(x.take(y.len() as int) =~= y);
    true
}

/// A name with an extension is its stem, a dot and that extension.
pub proof fn nazwa_z_rdzenia(n: Seq<char>)
    ensures
        match rozszerzenie_nazwy(n) {
            Some(e) => n == rdzen_nazwy(n) + seq!['.'] + e,
            None => n == rdzen_nazwy(n),
        },
{
    ostatnia_kropka_trafia(n);
    let k = ostatnia_kropka(n);
    if k > 0 {
        assert(n =~= n.take(k) + seq!['.'] + n.skip(k + 1));
    }
}

/// A file name holds no slash.
pub proof fn nazwa_bez_ukosnika(p: Seq<char>)
    ensures
        nazwa(p) matches Some(n) ==> n.len() > 0 && forall|i: int|
            0 <= i < n.len() ==> n[i] != '/',
{
    let q = przyciety(p);
    ostatni_ukosnik_trafia(q);
    if let Some(n) = nazwa(p) {
        assert forall|i: int| 0 <= i < n.len() implies n[i] != '/' by {
            assert(n[i] == q[ostatni_ukosnik(q) + 1 + i]);
        }
    }
}

/// A plain name put behind a directory is the file name of the path that results.
pub proof fn nazwa_polaczonej(a: Seq<char>, n: Seq<char>)
    requires
        n.len() > 0,
        forall|i: int| 0 <= i < n.len() ==> n[i] != '/',
        n != seq!['.'],
        n != seq!['.', '.'],
    ensures
        nazwa(polaczona(a, n)) == Some(n),
{
    let p = polaczona(a, n);
    let k = p.len() - n.len();
    assert(p.last() == n.last());
    assert(forall|i: int| 0 <= i < n.len() ==> p[k + i] == n[i]);
    if p.len() >= 2 && p.last() == '.' && p[p.len() - 2] == '/' {
        if n.len() >= 2 {
            assert(p[p.len() - 2] == n[n.len() - 2]);
        }
        assert(n =~= seq!['.']);
    }
    assert(przyciety(p) == p);
    ostatni_ukosnik_trafia(p);
    if ostatni_ukosnik(p) >= k {
        assert(p[ostatni_ukosnik(p)] == n[ostatni_ukosnik(p) - k]);
    }
    if k > 0 {
        assert(p[k - 1] == '/');
    }
    assert(ostatni_ukosnik(p) == k - 1);
    assert(p.skip(k) =~= n);
}

/// What stands behind the last dot of a name is its extension.
pub proof fn rozszerzenie_za_ostatnia_kropka(a: Seq<char>, e: Seq<char>)
    requires
        a.len() > 0,
        forall|i: int| 0 <= i < e.len() ==> e[i] != '.',
    ensures
        rozszerzenie_nazwy(a + seq!['.'] + e) == Some(e),
        rdzen_nazwy(a + seq!['.'] + e) == a,
{
    let n = a + seq!['.'] + e;
    ostatnia_kropka_trafia(n);
    let k = ostatnia_kropka(n);
    assert(n[a.len() as int] == '.');
    if k > a.len() {
        assert(n[k] == e[k - a.len() - 1]);
    }
    assert(n.skip(k + 1) =~= e);
    assert(n.take(k) =~= a);
}

/// A parent is shorter than its path.
pub proof fn rodzic_krotszy(p: Seq<char>)
    ensures
        rodzic(p) matches Some(r) ==> r.len() < p.len(),
{
    let q = przyciety(p);
    przyciety_nie_dluzszy(p);
    if let Some(r) = rodzic(p) {
        let a = q.take(ostatni_ukosnik(q) + 1);
        ostatni_ukosnik_trafia(q);
        przyciety_nie_dluzszy(a);
        if ostatni_ukosnik(q) + 1 == q.len() {
            assert(q.last() == '/');
            przyciety_bez_ogona(p);
            assert(q =~= seq!['/']);
        }
    }
}

proof fn przyciety_nie_dluzszy(p: Seq<char>)
    ensures
        przyciety(p).len() <= p.len(),
    decreases p.len(),
{
    if p.len() >= 2 && (p.last() == '/' || (p.last() == '.' && p[p.len() - 2] == '/')) {
        przyciety_nie_dluzszy(p.drop_last());
    }
}

proof fn przyciety_bez_ogona(p: Seq<char>)
    ensures
        przyciety(p).len() >= 2 ==> przyciety(p).last() != '/',
        przyciety(p).len() >= 2 && przyciety(p).last() == '.' ==> przyciety(p)[przyciety(p).len()
            - 2] != '/',
        p.len() > 0 ==> przyciety(p).len() > 0 && przyciety(p)[0] == p[0],
    decreases p.len(),
{
    if p.len() >= 2 && (p.last() == '/' || (p.last() == '.' && p[p.len() - 2] == '/')) {
        przyciety_bez_ogona(p.drop_last());
    }
}

/// A path with neither a name nor a way upwards at its end is empty, the root or
/// the working directory.
pub proof fn bez_nazwy(p: Seq<char>)
    requires
        nazwa(p) is None,
        !prowadzi_wyzej(p),
    ensures
        p.len() == 0 || przyciety(p) == seq!['/'] || przyciety(p) == seq!['.'],
{
    let q = przyciety(p);
    przyciety_bez_ogona(p);
    ostatni_ukosnik_trafia(q);
    let k = ostatni_ukosnik(q);
    let c = ostatni_czlon(q);
    if p.len() > 0 {
        if c.len() == 0 {
            assert(k == q.len() - 1);
            assert(q =~= seq!['/']);
        } else {
            assert(c =~= seq!['.']);
            assert(c[0] == q[k + 1]);
            assert(q.last() == '.');
            assert(q =~= seq!['.']);
        }
    }
}

/// The parent of an absolute path is absolute.
pub proof fn rodzic_bezwzglednej(p: Seq<char>)
    requires
        bezwzgledna(p),
    ensures
        rodzic(p) matches Some(r) ==> bezwzgledna(r),
{
    let q = przyciety(p);
    przyciety_bez_ogona(p);
    if let Some(r) = rodzic(p) {
        ostatni_ukosnik_trafia(q);
        assert(q[0] == '/');
        let a = q.take(ostatni_ukosnik(q) + 1);
        assert(a[0] == '/');
        przyciety_bez_ogona(a);
    }
}

/// What has nothing behind its last component stays as it is when that is cut off.
proof fn przyciety_ustalony(p: Seq<char>)
    ensures
        przyciety(przyciety(p)) == przyciety(p),
{
    przyciety_bez_ogona(p);
}

/// A parent has nothing behind its last component.
pub proof fn rodzic_bez_ogona(p: Seq<char>)
    ensures
        rodzic(p) matches Some(r) ==> przyciety(r) == r,
{
    let q = przyciety(p);
    przyciety_ustalony(q.take(ostatni_ukosnik(q) + 1));
}

/// A path with a file name has a parent.
pub proof fn nazwany_ma_rodzica(p: Seq<char>)
    ensures
        nazwa(p) is Some ==> rodzic(p) is Some,
{
    let q = przyciety(p);
    ostatni_ukosnik_trafia(q);
    if q == seq!['/'] {
        assert(q[0] == '/');
        assert(ostatni_ukosnik(q) == 0);
    }
}

/// The directory behind which a plain name was put is the parent of the path that
/// results.
pub proof fn rodzic_polaczonej(a: Seq<char>, n: Seq<char>)
    requires
        przyciety(a) == a,
        n.len() > 0,
        forall|i: int| 0 <= i < n.len() ==> n[i] != '/',
        n != seq!['.'],
        n != seq!['.', '.'],
    ensures
        rodzic(polaczona(a, n)) == Some(a),
{
    let p = polaczona(a, n);
    let k = p.len() - n.len();
    assert(p.last() == n.last());
    assert(forall|i: int| 0 <= i < n.len() ==> p[k + i] == n[i]);
    if p.len() >= 2 && p.last() == '.' && p[p.len() - 2] == '/' {
        if n.len() >= 2 {
            assert(p[p.len() - 2] == n[n.len() - 2]);
        }
        assert(n =~= seq!['.']);
    }
    assert(przyciety(p) == p);
    ostatni_ukosnik_trafia(p);
    if ostatni_ukosnik(p) >= k {
        assert(p[ostatni_ukosnik(p)] == n[ostatni_ukosnik(p) - k]);
    }
    if k > 0 {
        assert(p[k - 1] == '/');
    }
    assert(ostatni_ukosnik(p) == k - 1);
    let d = p.take(k);
    if p == seq!['/'] {
        assert(n[0] == p[k]);
    }
    if a.len() == 0 || a.last() == '/' {
        assert(d =~= a);
    } else {
        assert(d =~= a + seq!['/']);
        assert(d.drop_last() =~= a);
        assert(d.last() == '/');
    }
}

/// The working directory has no file name and does not lead upwards.
pub proof fn nazwa_kropki()
    ensures
        nazwa(seq!['.']) is None,
        !prowadzi_wyzej(seq!['.']),
{
    let p = seq!['.'];
    ostatni_ukosnik_trafia(p);
    assert(ostatni_ukosnik(p) == -1);
    assert(p.skip(0) =~= p);
}

} // verus!
