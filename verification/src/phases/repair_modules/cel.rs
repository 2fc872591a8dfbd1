//! Where a repair puts its result.

use vstd::prelude::*;

use crate::sciezka;
use crate::tekst;

verus! {

/// The path of a result: the stem of the source, a suffix and an extension,
/// inside the output directory. There is none where the source has no name.
pub open spec fn cel(
    zrodlo: Seq<char>,
    katalog: Seq<char>,
    sufiks: Seq<char>,
    ext: Seq<char>,
) -> Option<Seq<char>> {
    match sciezka::rdzen(zrodlo) {
        Some(stem) => Some(sciezka::polaczona(katalog, stem + sufiks + "."@ + ext)),
        None => None,
    }
}

/// The extension of the source, or another where it has none.
pub open spec fn rozszerzenie_lub(zrodlo: Seq<char>, domyslne: Seq<char>) -> Seq<char> {
    match sciezka::rozszerzenie(zrodlo) {
        Some(e) => e,
        None => domyslne,
    }
}

/// The path of a result with a given extension.
pub fn wyznacz_cel(zrodlo: &str, katalog: &str, sufiks: &str, ext: &str) -> (r: Option<String>)
    ensures
        tekst::widok(r) == cel(zrodlo@, katalog@, sufiks@, ext@),
{
    match sciezka::rdzen_pliku(zrodlo) {
        Some(stem) => {
            let mut n = stem;
            n.append(sufiks);
            n.append(".");
            n.append(ext);
            Some(sciezka::polacz(katalog, n.as_str()))
        },
        None => None,
    }
}

/// The extension of the source, or another where it has none.
pub fn rozszerzenie_zrodla(zrodlo: &str, domyslne: &str) -> (r: String)
    ensures
        r@ == rozszerzenie_lub(zrodlo@, domyslne@),
{
    match sciezka::rozszerzenie_pliku(zrodlo) {
        Some(e) => e,
        None => domyslne.to_owned(),
    }
}

/// A text in which no slash occurs.
pub open spec fn bez_ukosnika(t: Seq<char>) -> bool {
    forall|i: int| 0 <= i < t.len() ==> t[i] != '/'
}

/// A result lies directly in the output directory and never bears the name of
/// its source, not even where the source lies in that directory too.
pub proof fn wynik_nie_zastepuje_zrodla(
    zrodlo: Seq<char>,
    katalog: Seq<char>,
    sufiks: Seq<char>,
    ext: Seq<char>,
)
    requires
        sufiks.len() > 0,
        sufiks[0] == '_',
        bez_ukosnika(sufiks),
        bez_ukosnika(ext),
    ensures
        cel(zrodlo, katalog, sufiks, ext) matches Some(c) ==> {
            &&& sciezka::nazwa(c) is Some
            &&& c == sciezka::polaczona(katalog, sciezka::nazwa(c)->0)
            &&& sciezka::nazwa(c) != sciezka::nazwa(zrodlo)
            &&& c != zrodlo
        },
{
    if let Some(stem) = sciezka::rdzen(zrodlo) {
        let m = sciezka::nazwa(zrodlo)->0;
        let n = stem + sufiks + "."@ + ext;
        reveal_strlit(".");
        sciezka::nazwa_bez_ukosnika(zrodlo);
        sciezka::nazwa_z_rdzenia(m);
        assert(bez_ukosnika(stem)) by {
            assert(stem =~= m.take(stem.len() as int));
        }
        assert(n[stem.len() as int] == '_');
        assert(forall|i: int| 0 <= i < n.len() ==> n[i] != '/');
        sciezka::nazwa_polaczonej(katalog, n);
        if n == m {
            assert(m.len() > stem.len());
            assert(m[stem.len() as int] == '.');
        }
    }
}

/// A result keeps the extension it was given, so that its verification picks
/// the method of that format.
pub proof fn wynik_ma_rozszerzenie(
    zrodlo: Seq<char>,
    katalog: Seq<char>,
    sufiks: Seq<char>,
    ext: Seq<char>,
)
    requires
        sufiks.len() > 0,
        sufiks[0] == '_',
        bez_ukosnika(sufiks),
        bez_ukosnika(ext),
        forall|i: int| 0 <= i < ext.len() ==> ext[i] != '.',
    ensures
        cel(zrodlo, katalog, sufiks, ext) matches Some(c) ==> sciezka::rozszerzenie(c) == Some(ext),
{
    if let Some(stem) = sciezka::rdzen(zrodlo) {
        let m = sciezka::nazwa(zrodlo)->0;
        let n = stem + sufiks + "."@ + ext;
        reveal_strlit(".");
        sciezka::nazwa_bez_ukosnika(zrodlo);
        sciezka::nazwa_z_rdzenia(m);
        assert(bez_ukosnika(stem)) by {
            assert(stem =~= m.take(stem.len() as int));
        }
        assert(n[stem.len() as int] == '_');
        assert(forall|i: int| 0 <= i < n.len() ==> n[i] != '/');
        sciezka::nazwa_polaczonej(katalog, n);
        sciezka::rozszerzenie_za_ostatnia_kropka(stem + sufiks, ext);
        assert(n =~= (stem + sufiks) + seq!['.'] + ext);
    }
}

} // verus!
