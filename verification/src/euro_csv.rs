//! Euro-CSV: semicolon-separated fields, quoted as RFC 4180 quotes them.

use vstd::prelude::*;

use crate::binary64::Binary64;
use crate::tekst;

verus! {

// ---------------------------------------------------------------------------
// Fields and rows
// ---------------------------------------------------------------------------

/// A character that forces a field into quotes.
pub open spec fn specjalny(c: char) -> bool {
    c == ';' || c == '"' || c == '\n' || c == '\r'
}

/// Some character of `v` forces it into quotes.
pub open spec fn wymaga_cudzyslowu(v: Seq<char>) -> bool {
    exists|i: int| 0 <= i < v.len() && specjalny(#[trigger] v[i])
}

/// `v` with every quote doubled.
pub open spec fn podwojone(v: Seq<char>) -> Seq<char>
    decreases v.len(),
{
    if v.len() == 0 {
        Seq::empty()
    } else if v.last() == '"' {
        podwojone(v.drop_last()).push('"').push('"')
    } else {
        podwojone(v.drop_last()).push(v.last())
    }
}

/// `v` as it stands in a row.
pub open spec fn pole(v: Seq<char>) -> Seq<char> {
    if wymaga_cudzyslowu(v) {
        seq!['"'] + podwojone(v) + seq!['"']
    } else {
        v
    }
}

/// The fields joined into one row.
pub open spec fn wiersz(pola: Seq<Seq<char>>) -> Seq<char>
    decreases pola.len(),
{
    if pola.len() == 0 {
        Seq::empty()
    } else if pola.len() == 1 {
        pole(pola[0])
    } else {
        wiersz(pola.drop_last()) + seq![';'] + pole(pola.last())
    }
}

/// A value as a CSV field: in quotes, with inner quotes doubled, where it holds
/// a semicolon, a quote or a line break; unchanged otherwise.
pub fn escape_csv(val: &str) -> (r: String)
    ensures
        r@ == pole(val@),
{
    let v = tekst::znaki(val);
    let mut i: usize = 0;
    let mut trzeba: bool = false;
    while i < v.len() && !trzeba
        invariant
            i <= v.len(),
            v@ == val@,
            trzeba ==> wymaga_cudzyslowu(val@),
            !trzeba ==> forall|j: int| 0 <= j < i ==> !specjalny(#[trigger] val@[j]),
        decreases v.len() - i,
    {
        let c: char = v[i];
        if c == ';' || c == '"' || c == '\n' || c == '\r' {
            assert(specjalny(val@[i as int]));
            trzeba = true;
        }
        i += 1;
    }
    if !trzeba {
        return val.to_owned();
    }
    let mut s = String::new();
    s.push('"');
    let mut k: usize = 0;
    while k < v.len()
        invariant
            k <= v.len(),
            v@ == val@,
            s@ =~= seq!['"'] + podwojone(val@.take(k as int)),
        decreases v.len() - k,
    {
        proof {
            assert(val@.take(k + 1).drop_last() =~= val@.take(k as int));
        }
        if v[k] == '"' {
            s.push('"');
        }
        s.push(v[k]);
        k += 1;
    }
    s.push('"');
    assert(val@.take(val@.len() as int) =~= val@);
    assert(s@ =~= pole(val@));
    s
}

/// The fields joined into one row; every field is escaped on the way.
pub fn zlacz_pola(pola: &Vec<String>) -> (r: String)
    ensures
        r@ == wiersz(tekst::widoki(pola@)),
{
    let ghost w = tekst::widoki(pola@);
    let mut s = String::new();
    let mut i: usize = 0;
    assert(w.take(0) =~= Seq::<Seq<char>>::empty());
    while i < pola.len()
        invariant
            i <= pola.len(),
            w == tekst::widoki(pola@),
            s@ == wiersz(w.take(i as int)),
        decreases pola.len() - i,
    {
        proof {
            assert(w.take(i + 1).drop_last() =~= w.take(i as int));
            assert(w.take(i + 1).last() == pola@[i as int]@);
        }
        if i > 0 {
            s.push(';');
            assert(s@ =~= wiersz(w.take(i as int)) + seq![';']);
        }
        let p = escape_csv(pola[i].as_str());
        s.append(p.as_str());
        proof {
            if i == 0 {
                assert(s@ =~= pole(w[0]));
            }
        }
        i += 1;
    }
    assert(w.take(w.len() as int) =~= w);
    s
}

// ---------------------------------------------------------------------------
// Values
// ---------------------------------------------------------------------------

/// `Tak`, `Nie` or `Brak`.
pub open spec fn tekst_bool(o: Option<bool>) -> Seq<char> {
    match o {
        Some(b) => if b {
            "Tak"@
        } else {
            "Nie"@
        },
        None => "Brak"@,
    }
}

/// An integer, or `Brak`.
pub open spec fn tekst_i64(o: Option<i64>) -> Seq<char> {
    match o {
        Some(i) => tekst::calkowity(i as int),
        None => "Brak"@,
    }
}

/// A text as it is, or `Brak`.
pub open spec fn tekst_str(o: Option<String>) -> Seq<char> {
    match o {
        Some(t) => t@,
        None => "Brak"@,
    }
}

/// `t` with every point turned into a comma.
pub open spec fn z_przecinkiem(t: Seq<char>) -> Seq<char> {
    t.map_values(|c: char| if c == '.' { ',' } else { c })
}

/// A number with two decimal places behind a comma, or `Brak`.
pub open spec fn tekst_f64(o: Option<Binary64>) -> Seq<char> {
    match o {
        Some(x) => z_przecinkiem(x.zapis(2)),
        None => "Brak"@,
    }
}

/// `Some(true)` is `Tak`, `Some(false)` is `Nie`, `None` is `Brak`.
pub fn fmt_opt_bool(o: Option<bool>) -> (r: String)
    ensures
        r@ == tekst_bool(o),
{
    match o {
        Some(b) => if b {
            "Tak".to_owned()
        } else {
            "Nie".to_owned()
        },
        None => "Brak".to_owned(),
    }
}

/// The integer in decimal notation, or `Brak`.
pub fn fmt_opt_i64(o: Option<i64>) -> (r: String)
    ensures
        r@ == tekst_i64(o),
{
    match o {
        Some(i) => tekst::liczba_ze_znakiem(i),
        None => "Brak".to_owned(),
    }
}

/// The text as it is, or `Brak`.
pub fn fmt_opt_str(o: Option<String>) -> (r: String)
    ensures
        r@ == tekst_str(o),
{
    match o {
        Some(t) => t,
        None => "Brak".to_owned(),
    }
}

/// The number with two decimal places and a decimal comma, or `Brak`.
pub fn fmt_opt_f64(o: Option<Binary64>) -> (r: String)
    ensures
        r@ == tekst_f64(o),
{
    match o {
        Some(x) => {
            let t = x.zapisz(2);
            let v = tekst::znaki(t.as_str());
            let mut s = String::new();
            let mut i: usize = 0;
            while i < v.len()
                invariant
                    i <= v.len(),
                    s@ =~= z_przecinkiem(v@).take(i as int),
                decreases v.len() - i,
            {
                if v[i] == '.' {
                    s.push(',');
                } else {
                    s.push(v[i]);
                }
                i += 1;
            }
            assert(s@ =~= z_przecinkiem(v@));
            s
        },
        None => "Brak".to_owned(),
    }
}

// ---------------------------------------------------------------------------
// Reading a row back
// ---------------------------------------------------------------------------

/// The fields of a row as a CSV reader takes them: a doubled quote inside
/// quotes is one quote, any other quote opens or closes a quoted part, and a
/// semicolon outside quotes ends a field. `w` says whether a quoted part is
/// open, `b` is the field so far, `gotowe` are the fields before it.
pub open spec fn rozbior(
    row: Seq<char>,
    w: bool,
    b: Seq<char>,
    gotowe: Seq<Seq<char>>,
) -> Seq<Seq<char>>
    decreases row.len(),
{
    if row.len() == 0 {
        gotowe.push(b)
    } else if row[0] == '"' && w && row.len() > 1 && row[1] == '"' {
        rozbior(row.skip(2), w, b.push('"'), gotowe)
    } else if row[0] == '"' {
        rozbior(row.skip(1), !w, b, gotowe)
    } else if row[0] == ';' && !w {
        rozbior(row.skip(1), w, Seq::empty(), gotowe.push(b))
    } else {
        rozbior(row.skip(1), w, b.push(row[0]), gotowe)
    }
}

/// The fields of a row.
pub open spec fn pola_wiersza(row: Seq<char>) -> Seq<Seq<char>> {
    rozbior(row, false, Seq::empty(), Seq::empty())
}

/// `podwojone` from the front.
proof fn podwojone_od_przodu(v: Seq<char>)
    requires
        v.len() > 0,
    ensures
        podwojone(v) == (if v[0] == '"' {
            seq!['"', '"']
        } else {
            seq![v[0]]
        }) + podwojone(v.skip(1)),
    decreases v.len(),
{
    let p = if v[0] == '"' {
        seq!['"', '"']
    } else {
        seq![v[0]]
    };
    if v.len() == 1 {
        assert(v.drop_last() =~= Seq::<char>::empty());
        assert(v.skip(1) =~= Seq::<char>::empty());
        assert(podwojone(v.drop_last()) =~= Seq::<char>::empty());
        assert(podwojone(v.skip(1)) =~= Seq::<char>::empty());
        assert(podwojone(v) =~= p + podwojone(v.skip(1)));
    } else {
        let a = v.drop_last();
        podwojone_od_przodu(a);
        assert(a.skip(1) =~= v.skip(1).drop_last());
        assert(v.skip(1).last() == v.last());
        assert(podwojone(v) =~= p + podwojone(v.skip(1)));
    }
}

/// Inside quotes, a doubled text followed by the closing quote reads back as
/// that text.
proof fn rozbior_w_cudzyslowie(
    v: Seq<char>,
    reszta: Seq<char>,
    b: Seq<char>,
    gotowe: Seq<Seq<char>>,
)
    requires
        reszta.len() > 0 ==> reszta[0] != '"',
    ensures
        rozbior(podwojone(v) + seq!['"'] + reszta, true, b, gotowe) == rozbior(
            reszta,
            false,
            b + v,
            gotowe,
        ),
    decreases v.len(),
{
    let row = podwojone(v) + seq!['"'] + reszta;
    if v.len() == 0 {
        assert(podwojone(v) =~= Seq::<char>::empty());
        assert(row =~= seq!['"'] + reszta);
        assert(row[0] == '"');
        assert(row.len() > 1 ==> row[1] == reszta[0]);
        assert(row.skip(1) =~= reszta);
        assert(b + v =~= b);
    } else {
        podwojone_od_przodu(v);
        let t = v.skip(1);
        let dalej = podwojone(t) + seq!['"'] + reszta;
        rozbior_w_cudzyslowie(t, reszta, b.push(v[0]), gotowe);
        assert(b.push(v[0]) + t =~= b + v);
        if v[0] == '"' {
            assert(row =~= seq!['"', '"'] + dalej);
            assert(row[0] == '"' && row[1] == '"');
            assert(row.skip(2) =~= dalej);
        } else {
            assert(row =~= seq![v[0]] + dalej);
            assert(row[0] == v[0]);
            assert(row.skip(1) =~= dalej);
        }
    }
}

/// Outside quotes, a text without special characters reads back as itself.
proof fn rozbior_wprost(v: Seq<char>, reszta: Seq<char>, b: Seq<char>, gotowe: Seq<Seq<char>>)
    requires
        !wymaga_cudzyslowu(v),
    ensures
        rozbior(v + reszta, false, b, gotowe) == rozbior(reszta, false, b + v, gotowe),
    decreases v.len(),
{
    if v.len() == 0 {
        assert(v + reszta =~= reszta);
        assert(b + v =~= b);
    } else {
        assert(!specjalny(v[0]));
        let t = v.skip(1);
        assert(!wymaga_cudzyslowu(t)) by {
            if wymaga_cudzyslowu(t) {
                let i = choose|i: int| 0 <= i < t.len() && specjalny(#[trigger] t[i]);
                assert(specjalny(v[i + 1]));
            }
        }
        rozbior_wprost(t, reszta, b.push(v[0]), gotowe);
        assert((v + reszta).skip(1) =~= t + reszta);
        assert(b.push(v[0]) + t =~= b + v);
    }
}

/// An escaped field, at the end of a row or before a semicolon, reads back as
/// the value it was made from.
proof fn rozbior_pola(v: Seq<char>, reszta: Seq<char>, gotowe: Seq<Seq<char>>)
    requires
        reszta.len() > 0 ==> reszta[0] == ';',
    ensures
        rozbior(pole(v) + reszta, false, Seq::empty(), gotowe) == rozbior(reszta, false, v, gotowe),
{
    let e = Seq::<char>::empty();
    assert(e + v =~= v);
    if wymaga_cudzyslowu(v) {
        let srodek = podwojone(v) + seq!['"'] + reszta;
        let row = pole(v) + reszta;
        assert(row =~= seq!['"'] + srodek);
        assert(row.skip(1) =~= srodek);
        rozbior_w_cudzyslowie(v, reszta, e, gotowe);
        assert(rozbior(row, false, e, gotowe) == rozbior(srodek, true, e, gotowe));
    } else {
        rozbior_wprost(v, reszta, e, gotowe);
    }
}

/// A row read up to its end gives its fields; before a further semicolon it
/// leaves the reader with its last field in hand.
proof fn rozbior_wiersza(pola: Seq<Seq<char>>, reszta: Seq<char>)
    requires
        pola.len() > 0,
        reszta.len() > 0 ==> reszta[0] == ';',
    ensures
        rozbior(wiersz(pola) + reszta, false, Seq::empty(), Seq::empty()) == rozbior(
            reszta,
            false,
            pola.last(),
            pola.drop_last(),
        ),
    decreases pola.len(),
{
    let e = Seq::<char>::empty();
    if pola.len() == 1 {
        rozbior_pola(pola[0], reszta, Seq::empty());
        assert(pola.drop_last() =~= Seq::<Seq<char>>::empty());
    } else {
        let a = pola.drop_last();
        let dalej = seq![';'] + pole(pola.last()) + reszta;
        rozbior_wiersza(a, dalej);
        assert(wiersz(pola) + reszta =~= wiersz(a) + dalej);
        assert(dalej[0] == ';');
        assert(dalej.skip(1) =~= pole(pola.last()) + reszta);
        assert(a.drop_last().push(a.last()) =~= a);
        rozbior_pola(pola.last(), reszta, a);
    }
}

/// Whatever the values hold (separators, quotes, line breaks), a row reads
/// back as exactly those values: no character is lost and no column moves.
pub proof fn wiersz_wraca_bez_strat(pola: Seq<Seq<char>>)
    requires
        pola.len() > 0,
    ensures
        pola_wiersza(wiersz(pola)) == pola,
{
    rozbior_wiersza(pola, Seq::empty());
    assert(wiersz(pola) + Seq::<char>::empty() =~= wiersz(pola));
    assert(pola.drop_last().push(pola.last()) =~= pola);
}

/// A value without special characters stands in the row unchanged.
pub proof fn pole_zwykle_bez_zmian(v: Seq<char>)
    requires
        forall|i: int| 0 <= i < v.len() ==> !specjalny(#[trigger] v[i]),
    ensures
        pole(v) == v,
{
}

/// A value with a special character stands between quotes.
pub proof fn pole_w_cudzyslowie(v: Seq<char>)
    ensures
        wymaga_cudzyslowu(v) ==> pole(v).len() >= 2 && pole(v)[0] == '"' && pole(v).last() == '"',
{
}

/// A value stands between quotes exactly where it holds a semicolon, a quote or a
/// character that ends a line.
pub proof fn cudzyslow_gdy_trzeba(v: Seq<char>)
    ensures
        pole(v) != v <==> v.contains(';') || v.contains('"') || v.contains('\n') || v.contains(
            '\r',
        ),
{
    if wymaga_cudzyslowu(v) {
        let i = choose|i: int| 0 <= i < v.len() && specjalny(#[trigger] v[i]);
        assert(v.contains(v[i]));
        podwojone_nie_krotsze(v);
        assert(pole(v).len() >= v.len() + 2);
    } else {
        assert forall|c: char| v.contains(c) implies !specjalny(c) by {
            let i = choose|i: int| 0 <= i < v.len() && v[i] == c;
            assert(!specjalny(v[i]));
        }
    }
}

proof fn podwojone_nie_krotsze(v: Seq<char>)
    ensures
        podwojone(v).len() >= v.len(),
    decreases v.len(),
{
    if v.len() > 0 {
        podwojone_nie_krotsze(v.drop_last());
    }
}

} // verus!
