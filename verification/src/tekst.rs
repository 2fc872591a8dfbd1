//! Text as sequences of characters: equality, search, number formatting.
//!
//! Every function here works on whole characters, so the contracts speak of
//! `Seq<char>` and no byte offset ever appears.

use vstd::prelude::*;

verus! {

/// `String::push` appends one character and leaves the rest of the text as it was.
pub assume_specification[ String::push ](s: &mut String, ch: char)
    ensures
        final(s)@ == old(s)@.push(ch),
;

// ---------------------------------------------------------------------------
// Characters of a text
// ---------------------------------------------------------------------------

/// The characters of an optional text.
pub open spec fn widok(o: Option<String>) -> Option<Seq<char>> {
    match o {
        Some(t) => Some(t@),
        None => None,
    }
}

/// The characters of an optional borrowed text.
pub open spec fn widok_ref(o: Option<&str>) -> Option<Seq<char>> {
    match o {
        Some(t) => Some(t@),
        None => None,
    }
}

/// The characters of each text of a list.
pub open spec fn widoki(s: Seq<String>) -> Seq<Seq<char>> {
    s.map_values(|t: String| t@)
}

/// The characters of `t`, in order.
pub fn znaki(t: &str) -> (r: Vec<char>)
    ensures
        r@ == t@,
{
    let mut v: Vec<char> = Vec::new();
    for c in it: t.chars()
        invariant
            it.seq() == t@,
            v@ =~= t@.take(it.index()),
    {
        v.push(c);
    }
    v
}

/// The part of `v` between two positions, as a text.
pub fn wycinek(v: &Vec<char>, od: usize, do_: usize) -> (r: String)
    requires
        od <= do_ <= v.len(),
    ensures
        r@ == v@.subrange(od as int, do_ as int),
{
    let mut s = String::new();
    let mut i: usize = od;
    while i < do_
        invariant
            od <= i <= do_ <= v.len(),
            s@ =~= v@.subrange(od as int, i as int),
        decreases do_ - i,
    {
        s.push(v[i]);
        i += 1;
    }
    s
}

/// Whether two texts hold the same characters.
pub fn rowne(a: &str, b: &str) -> (r: bool)
    ensures
        r == (a@ == b@),
{
    let x = a.as_bytes();
    let y = b.as_bytes();
    proof {
        vstd::utf8::encode_utf8_decode_utf8(a@);
        vstd::utf8::encode_utf8_decode_utf8(b@);
    }
    if x.len() != y.len() {
        return false;
    }
    let mut i: usize = 0;
    while i < x.len()
        invariant
            i <= x.len(),
            x.len() == y.len(),
            x@ == vstd::utf8::encode_utf8(a@),
            y@ == vstd::utf8::encode_utf8(b@),
            forall|j: int| 0 <= j < i ==> x@[j] == y@[j],
        decreases x.len() - i,
    {
        if x[i] != y[i] {
            return false;
        }
        i += 1;
    }
    assert(x@ =~= y@);
    true
}

/// Whether `o` holds exactly the text `t`.
pub fn jest_tekstem(o: Option<&str>, t: &str) -> (r: bool)
    ensures
        r == (o matches Some(x) && x@ == t@),
{
    match o {
        Some(x) => rowne(x, t),
        None => false,
    }
}

// ---------------------------------------------------------------------------
// Search
// ---------------------------------------------------------------------------

/// `w` stands in `t` at position `i`.
pub open spec fn wystepuje(t: Seq<char>, w: Seq<char>, i: int) -> bool {
    0 <= i && i + w.len() <= t.len() && t.subrange(i, i + w.len()) == w
}

/// `w` stands somewhere in `t`.
pub open spec fn zawiera_tekst(t: Seq<char>, w: Seq<char>) -> bool {
    exists|i: int| wystepuje(t, w, i)
}

/// Whether `w` stands in `t` at position `i`.
fn pasuje(t: &Vec<char>, w: &Vec<char>, i: usize) -> (r: bool)
    ensures
        r == wystepuje(t@, w@, i as int),
{
    if w.len() > t.len() || i > t.len() - w.len() {
        return false;
    }
    let mut j: usize = 0;
    while j < w.len()
        invariant
            j <= w.len(),
            i + w.len() <= t.len(),
            forall|k: int| 0 <= k < j ==> t@[i + k] == w@[k],
        decreases w.len() - j,
    {
        if t[i + j] != w[j] {
            assert(t@.subrange(i as int, i + w@.len())[j as int] == t@[i + j]);
            return false;
        }
        j += 1;
    }
    assert(t@.subrange(i as int, i + w@.len()) =~= w@);
    true
}

/// The first position at or after `od` at which `w` stands in `t`.
pub fn znajdz_od(t: &Vec<char>, w: &Vec<char>, od: usize) -> (r: Option<usize>)
    ensures
        match r {
            Some(i) => od <= i && wystepuje(t@, w@, i as int) && forall|j: int|
                od <= j < i ==> !wystepuje(t@, w@, j),
            None => forall|j: int| od <= j ==> !wystepuje(t@, w@, j),
        },
{
    let mut i: usize = od;
    while i < t.len()
        invariant
            od <= i,
            forall|j: int| od <= j < i ==> !wystepuje(t@, w@, j),
        decreases t.len() - i,
    {
        if pasuje(t, w, i) {
            return Some(i);
        }
        i += 1;
    }
    if pasuje(t, w, i) {
        return Some(i);
    }
    None
}

/// The first position at or after `od` at which `w` stands in `t`.
pub open spec fn pierwsze(t: Seq<char>, w: Seq<char>, od: int) -> Option<int>
    decreases (if od > t.len() {
        0int
    } else {
        t.len() - od + 1
    }),
{
    if od > t.len() {
        None
    } else if wystepuje(t, w, od) {
        Some(od)
    } else {
        pierwsze(t, w, od + 1)
    }
}

proof fn pierwsze_pomija(t: Seq<char>, w: Seq<char>, od: int, i: int)
    requires
        od <= i,
        forall|j: int| od <= j < i ==> !wystepuje(t, w, j),
    ensures
        pierwsze(t, w, od) == pierwsze(t, w, i),
    decreases i - od,
{
    if od < i {
        assert(!wystepuje(t, w, od));
        pierwsze_pomija(t, w, od + 1, i);
    }
}

/// The first position at or after `od` at which `w` stands in `t`.
pub fn pozycja_od(t: &Vec<char>, w: &Vec<char>, od: usize) -> (r: Option<usize>)
    ensures
        match r {
            Some(i) => pierwsze(t@, w@, od as int) == Some(i as int) && wystepuje(
                t@,
                w@,
                i as int,
            ) && od <= i,
            None => pierwsze(t@, w@, od as int) is None,
        },
{
    let r = znajdz_od(t, w, od);
    proof {
        match r {
            Some(i) => {
                pierwsze_pomija(t@, w@, od as int, i as int);
            },
            None => {
                let k: int = if od > t@.len() {
                    od as int
                } else {
                    t@.len() as int + 1
                };
                pierwsze_pomija(t@, w@, od as int, k);
            },
        }
    }
    r
}

/// Whether `w` stands somewhere in `t`.
pub fn zawiera(t: &str, w: &str) -> (r: bool)
    ensures
        r == zawiera_tekst(t@, w@),
{
    let tv = znaki(t);
    let wv = znaki(w);
    match znajdz_od(&tv, &wv, 0) {
        Some(i) => {
            assert(wystepuje(t@, w@, i as int));
            true
        },
        None => false,
    }
}

/// `t` ends with `w`.
pub open spec fn konczy_sie_tekstem(t: Seq<char>, w: Seq<char>) -> bool {
    wystepuje(t, w, t.len() - w.len())
}

/// Whether `t` ends with `w`.
pub fn konczy_sie(t: &str, w: &str) -> (r: bool)
    ensures
        r == konczy_sie_tekstem(t@, w@),
{
    let tv = znaki(t);
    let wv = znaki(w);
    if wv.len() > tv.len() {
        return false;
    }
    pasuje(&tv, &wv, tv.len() - wv.len())
}

// ---------------------------------------------------------------------------
// Numbers as text
// ---------------------------------------------------------------------------

/// The decimal digit `d`.
pub open spec fn cyfra(d: nat) -> char {
    (48 + d) as char
}

/// `n` in decimal notation, without leading zeros.
pub open spec fn dziesietny(n: nat) -> Seq<char>
    decreases n,
{
    if n < 10 {
        seq![cyfra(n)]
    } else {
        dziesietny(n / 10).push(cyfra(n % 10))
    }
}

/// The lowest `szer` decimal digits of `n`, most significant first.
pub open spec fn ostatnie_cyfry(n: nat, szer: nat) -> Seq<char>
    decreases szer,
{
    if szer == 0 {
        Seq::empty()
    } else {
        ostatnie_cyfry(n / 10, (szer - 1) as nat).push(cyfra(n % 10))
    }
}

/// Appends `n` in decimal notation.
pub fn dopisz_liczbe(s: &mut String, n: u64)
    ensures
        final(s)@ == old(s)@ + dziesietny(n as nat),
    decreases n,
{
    if n >= 10 {
        dopisz_liczbe(s, n / 10);
    }
    let d: u8 = (n % 10) as u8;
    s.push((48u8 + d) as char);
    assert(s@ =~= old(s)@ + dziesietny(n as nat));
}

/// `n` in decimal notation.
pub fn liczba(n: u64) -> (r: String)
    ensures
        r@ == dziesietny(n as nat),
{
    let mut s = String::new();
    dopisz_liczbe(&mut s, n);
    assert(Seq::<char>::empty() + dziesietny(n as nat) =~= dziesietny(n as nat));
    s
}

/// `i` in decimal notation, with a minus sign where it is negative.
pub open spec fn calkowity(i: int) -> Seq<char> {
    if i < 0 {
        seq!['-'] + dziesietny((-i) as nat)
    } else {
        dziesietny(i as nat)
    }
}

/// `i` in decimal notation, with a minus sign where it is negative.
pub fn liczba_ze_znakiem(i: i64) -> (r: String)
    ensures
        r@ == calkowity(i as int),
{
    if i >= 0 {
        return liczba(i as u64);
    }
    let mut s = String::new();
    s.push('-');
    let m: u64 = if i == i64::MIN {
        9_223_372_036_854_775_808u64
    } else {
        (-i) as u64
    };
    dopisz_liczbe(&mut s, m);
    assert(Seq::<char>::empty().push('-') =~= seq!['-']);
    s
}

/// The hexadecimal digit `d`, in lower or upper case.
pub open spec fn cyfra_szesnastkowa(d: nat, wielka: bool) -> char {
    if d < 10 {
        (48 + d) as char
    } else if wielka {
        (55 + d) as char
    } else {
        (87 + d) as char
    }
}

/// The lowest `szer` hexadecimal digits of `n`, most significant first.
pub open spec fn szesnastkowy(n: nat, szer: nat, wielka: bool) -> Seq<char>
    decreases szer,
{
    if szer == 0 {
        Seq::empty()
    } else {
        szesnastkowy(n / 16, (szer - 1) as nat, wielka).push(cyfra_szesnastkowa(n % 16, wielka))
    }
}

/// Appends the lowest `szer` hexadecimal digits of `n`.
pub fn dopisz_szesnastkowo(s: &mut String, n: u64, szer: usize, wielka: bool)
    ensures
        final(s)@ == old(s)@ + szesnastkowy(n as nat, szer as nat, wielka),
    decreases szer,
{
    if szer > 0 {
        dopisz_szesnastkowo(s, n / 16, szer - 1, wielka);
        let d: u8 = (n % 16) as u8;
        let c: char = if d < 10 {
            (48u8 + d) as char
        } else if wielka {
            (55u8 + d) as char
        } else {
            (87u8 + d) as char
        };
        s.push(c);
    }
    assert(s@ =~= old(s)@ + szesnastkowy(n as nat, szer as nat, wielka));
}

/// `n` spaces, or none where `n` is not positive.
pub open spec fn odstepy(n: int) -> Seq<char> {
    if n <= 0 {
        Seq::empty()
    } else {
        Seq::new(n as nat, |i: int| ' ')
    }
}

/// `t` followed by as many spaces as it lacks to be `szer` characters long.
pub open spec fn dopelniony(t: Seq<char>, szer: int) -> Seq<char> {
    t + odstepy(szer - t.len())
}

/// `t` aligned to the left in a column `szer` characters wide.
pub fn dopelnij(t: &str, szer: usize) -> (r: String)
    ensures
        r@ == dopelniony(t@, szer as int),
{
    let mut s = t.to_owned();
    let mut n: usize = t.unicode_len();
    while n < szer
        invariant
            s@ =~= t@ + odstepy(n - t@.len()),
            t@.len() <= n,
            n <= szer || n == t@.len(),
        decreases szer - n,
    {
        s.push(' ');
        n += 1;
    }
    assert(s@ =~= dopelniony(t@, szer as int));
    s
}

// ---------------------------------------------------------------------------
// Letter case
// ---------------------------------------------------------------------------

/// `c` with an ASCII capital letter turned into a small one.
pub open spec fn mala_ascii(c: char) -> char {
    if 'A' <= c <= 'Z' {
        ((c as int) + 32) as char
    } else {
        c
    }
}

/// `t` with every ASCII capital letter turned into a small one.
pub open spec fn male_ascii(t: Seq<char>) -> Seq<char> {
    t.map_values(|c: char| mala_ascii(c))
}

/// What `str::to_lowercase` makes of a text.
pub uninterp spec fn male_litery(t: Seq<char>) -> Seq<char>;

/// `str::to_lowercase`: the lowercase form of a text under Unicode's case
/// mapping. On a text of ASCII characters that is the letter-by-letter mapping
/// of `A..Z` to `a..z`.
#[verifier::external_body]
pub(crate) fn na_male_litery(t: &str) -> (r: String)
    ensures
        r@ == male_litery(t@),
        vstd::utf8::is_ascii_chars(t@) ==> r@ == male_ascii(t@),
{
    t.to_lowercase()
}

/// `c` with an ASCII capital letter turned into a small one.
fn mala(c: char) -> (r: char)
    ensures
        r == mala_ascii(c),
{
    if 'A' <= c && c <= 'Z' {
        let k: u8 = c as u8;
        (k + 32u8) as char
    } else {
        c
    }
}

/// Whether two texts are equal up to the case of ASCII letters.
pub fn rowne_bez_wielkosci(a: &str, b: &str) -> (r: bool)
    ensures
        r == (male_ascii(a@) == male_ascii(b@)),
{
    let x = znaki(a);
    let y = znaki(b);
    if x.len() != y.len() {
        assert(male_ascii(a@).len() != male_ascii(b@).len());
        return false;
    }
    let mut i: usize = 0;
    while i < x.len()
        invariant
            i <= x.len(),
            x.len() == y.len(),
            x@ == a@,
            y@ == b@,
            forall|j: int| 0 <= j < i ==> mala_ascii(x@[j]) == mala_ascii(y@[j]),
        decreases x.len() - i,
    {
        if mala(x[i]) != mala(y[i]) {
            assert(male_ascii(x@)[i as int] != male_ascii(y@)[i as int]);
            return false;
        }
        i += 1;
    }
    assert(male_ascii(x@) =~= male_ascii(y@));
    true
}

// ---------------------------------------------------------------------------
// Laws
// ---------------------------------------------------------------------------

/// The first `n` characters of `t` are all different from `c`.
pub open spec fn bez_znaku(t: Seq<char>, c: char, n: nat) -> bool
    decreases n,
{
    n == 0 || (t[n - 1] != c && bez_znaku(t, c, (n - 1) as nat))
}

/// A text that lacks some character of `w` does not hold `w`.
pub proof fn bez_znaku_nie_zawiera(t: Seq<char>, w: Seq<char>, k: int)
    requires
        0 <= k < w.len(),
        bez_znaku(t, w[k], t.len()),
    ensures
        !zawiera_tekst(t, w),
{
    if zawiera_tekst(t, w) {
        let i = choose|i: int| wystepuje(t, w, i);
        assert(t.subrange(i, i + w.len())[k] == t[i + k]);
        bez_znaku_wszedzie(t, w[k], t.len(), i + k);
    }
}

proof fn bez_znaku_wszedzie(t: Seq<char>, c: char, n: nat, i: int)
    requires
        bez_znaku(t, c, n),
        0 <= i < n,
    ensures
        t[i] != c,
    decreases n,
{
    if i < n - 1 {
        bez_znaku_wszedzie(t, c, (n - 1) as nat, i);
    }
}

/// A character missing from both parts is missing from the whole.
pub proof fn bez_znaku_polaczone(a: Seq<char>, b: Seq<char>, c: char, n: nat)
    requires
        bez_znaku(a, c, a.len()),
        bez_znaku(b, c, b.len()),
        n <= a.len() + b.len(),
    ensures
        bez_znaku(a + b, c, n),
    decreases n,
{
    if n > 0 {
        bez_znaku_polaczone(a, b, c, (n - 1) as nat);
        if n <= a.len() {
            bez_znaku_wszedzie(a, c, a.len(), n - 1);
        } else {
            bez_znaku_wszedzie(b, c, b.len(), n - 1 - a.len());
        }
    }
}

/// A character that no position holds is missing.
pub proof fn bez_znaku_gdy_nigdzie(t: Seq<char>, c: char, n: nat)
    requires
        n <= t.len(),
        forall|i: int| 0 <= i < n ==> #[trigger] t[i] != c,
    ensures
        bez_znaku(t, c, n),
    decreases n,
{
    if n > 0 {
        bez_znaku_gdy_nigdzie(t, c, (n - 1) as nat);
    }
}

/// Different numbers have different decimal notations.
pub proof fn dziesietny_rozroznia(a: nat, b: nat)
    ensures
        dziesietny(a) == dziesietny(b) ==> a == b,
    decreases a,
{
    dziesietny_niepusty(a);
    dziesietny_niepusty(b);
    if dziesietny(a) == dziesietny(b) {
        assert(dziesietny(a).last() == cyfra(a % 10));
        assert(dziesietny(b).last() == cyfra(b % 10));
        if a >= 10 && b >= 10 {
            assert(dziesietny(a).drop_last() =~= dziesietny(a / 10));
            assert(dziesietny(b).drop_last() =~= dziesietny(b / 10));
            dziesietny_rozroznia(a / 10, b / 10);
        } else if a >= 10 {
            dziesietny_niepusty(a / 10);
        } else if b >= 10 {
            dziesietny_niepusty(b / 10);
        }
    }
}

/// A decimal notation has at least one digit, and digits only.
pub proof fn dziesietny_niepusty(a: nat)
    ensures
        dziesietny(a).len() >= 1,
        forall|i: int| 0 <= i < dziesietny(a).len() ==> '0' <= #[trigger] dziesietny(a)[i] <= '9',
    decreases a,
{
    if a >= 10 {
        dziesietny_niepusty(a / 10);
    }
}

/// The lowest digits of a number are digits.
pub proof fn ostatnie_cyfry_to_cyfry(n: nat, szer: nat)
    ensures
        ostatnie_cyfry(n, szer).len() == szer,
        forall|i: int|
            0 <= i < szer ==> '0' <= #[trigger] ostatnie_cyfry(n, szer)[i] <= '9',
    decreases szer,
{
    if szer > 0 {
        ostatnie_cyfry_to_cyfry(n / 10, (szer - 1) as nat);
    }
}

/// Numbers that fit in `szer` hexadecimal digits are told apart by them.
pub proof fn szesnastkowy_rozroznia(a: nat, b: nat, szer: nat)
    requires
        a < vstd::arithmetic::power::pow(16, szer),
        b < vstd::arithmetic::power::pow(16, szer),
        szesnastkowy(a, szer, false) == szesnastkowy(b, szer, false),
    ensures
        a == b,
    decreases szer,
{
    reveal(vstd::arithmetic::power::pow);
    if szer > 0 {
        let x = szesnastkowy(a, szer, false);
        let y = szesnastkowy(b, szer, false);
        assert(x.last() == cyfra_szesnastkowa(a % 16, false));
        assert(y.last() == cyfra_szesnastkowa(b % 16, false));
        assert(x.drop_last() =~= szesnastkowy(a / 16, (szer - 1) as nat, false));
        assert(y.drop_last() =~= szesnastkowy(b / 16, (szer - 1) as nat, false));
        szesnastkowy_rozroznia(a / 16, b / 16, (szer - 1) as nat);
    }
}

} // verus!
