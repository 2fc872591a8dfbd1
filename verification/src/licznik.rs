//! Tallies by name, in the order in which the names first came up.

use vstd::prelude::*;

use crate::tekst;

verus! {

/// One name and how much was counted under it.
pub struct Wpis {
    pub nazwa: String,
    pub ile: u64,
}

impl View for Wpis {
    type V = (Seq<char>, nat);

    open spec fn view(&self) -> (Seq<char>, nat) {
        (self.nazwa@, self.ile as nat)
    }
}

/// A tally: names with their counts, each name once.
pub struct Licznik {
    pub wpisy: Vec<Wpis>,
}

impl View for Licznik {
    type V = Seq<(Seq<char>, nat)>;

    open spec fn view(&self) -> Seq<(Seq<char>, nat)> {
        self.wpisy@.map_values(|w: Wpis| w@)
    }
}

/// The first position that holds the name `n`, or the length where none does.
pub open spec fn pierwszy(s: Seq<(Seq<char>, nat)>, n: Seq<char>) -> int
    decreases s.len(),
{
    if s.len() == 0 || s[0].0 == n {
        0
    } else {
        1 + pierwszy(s.skip(1), n)
    }
}

/// What is counted under the name `n`.
pub open spec fn ile(s: Seq<(Seq<char>, nat)>, n: Seq<char>) -> nat {
    if pierwszy(s, n) < s.len() {
        s[pierwszy(s, n)].1
    } else {
        0
    }
}

/// The tally after `o` more were counted under the name `n`.
pub open spec fn zwiekszony(s: Seq<(Seq<char>, nat)>, n: Seq<char>, o: nat) -> Seq<
    (Seq<char>, nat),
> {
    let i = pierwszy(s, n);
    if i < s.len() {
        s.update(i, (n, s[i].1 + o))
    } else {
        s.push((n, o))
    }
}

/// Everything counted, under all names together.
pub open spec fn suma(s: Seq<(Seq<char>, nat)>) -> nat
    decreases s.len(),
{
    if s.len() == 0 {
        0
    } else {
        s[0].1 + suma(s.skip(1))
    }
}

/// No name stands twice.
pub open spec fn bez_powtorzen(s: Seq<(Seq<char>, nat)>) -> bool {
    forall|i: int, j: int| 0 <= i < j < s.len() ==> s[i].0 != s[j].0
}

/// Every name that stands was counted.
pub open spec fn dodatnie(s: Seq<(Seq<char>, nat)>) -> bool {
    forall|i: int| 0 <= i < s.len() ==> (#[trigger] s[i]).1 >= 1
}

/// `s` with `x` put behind the last entry that counts at least as much.
pub open spec fn wstawiony(s: Seq<(Seq<char>, nat)>, x: (Seq<char>, nat)) -> Seq<(Seq<char>, nat)>
    decreases s.len(),
{
    if s.len() == 0 || s.last().1 >= x.1 {
        s.push(x)
    } else {
        wstawiony(s.drop_last(), x).push(s.last())
    }
}

/// The entries from the largest count down; equal counts stay in first-seen order.
pub open spec fn malejaco(s: Seq<(Seq<char>, nat)>) -> Seq<(Seq<char>, nat)>
    decreases s.len(),
{
    if s.len() == 0 {
        s
    } else {
        wstawiony(malejaco(s.drop_last()), s.last())
    }
}

/// One entry as `name (count)`.
pub open spec fn pozycja(e: (Seq<char>, nat)) -> Seq<char> {
    e.0 + " ("@ + tekst::dziesietny(e.1) + ")"@
}

/// The first `k` entries as `name (count)`, separated by commas.
pub open spec fn wyliczenie(s: Seq<(Seq<char>, nat)>, k: nat) -> Seq<char>
    decreases k,
{
    if k == 0 {
        Seq::empty()
    } else if k == 1 {
        pozycja(s[0])
    } else {
        wyliczenie(s, (k - 1) as nat) + ", "@ + pozycja(s[k - 1])
    }
}

/// The `n` largest entries as a list, or a dash where there is none.
pub open spec fn najwieksze(s: Seq<(Seq<char>, nat)>, n: nat) -> Seq<char> {
    if s.len() == 0 {
        "-"@
    } else {
        wyliczenie(malejaco(s), if n < s.len() { n } else { s.len() })
    }
}

/// The first `k` entries, one after another, each with its name and count
/// between the texts `a`, `b` and `c`.
pub open spec fn wykaz(
    s: Seq<(Seq<char>, nat)>,
    k: nat,
    a: Seq<char>,
    b: Seq<char>,
    c: Seq<char>,
) -> Seq<char>
    decreases k,
{
    if k == 0 {
        Seq::empty()
    } else {
        wykaz(s, (k - 1) as nat, a, b, c) + a + s[k - 1].0 + b + tekst::dziesietny(s[k - 1].1) + c
    }
}

/// A position found is one that holds the name.
pub proof fn pierwszy_trafia(s: Seq<(Seq<char>, nat)>, n: Seq<char>)
    ensures
        0 <= pierwszy(s, n) <= s.len(),
        pierwszy(s, n) < s.len() ==> s[pierwszy(s, n)].0 == n,
        forall|i: int| 0 <= i < pierwszy(s, n) ==> s[i].0 != n,
    decreases s.len(),
{
    if s.len() > 0 && s[0].0 != n {
        pierwszy_trafia(s.skip(1), n);
        assert forall|i: int| 0 <= i < pierwszy(s, n) implies s[i].0 != n by {
            if i > 0 {
                assert(s.skip(1)[i - 1] == s[i]);
            }
        }
    }
}

/// The first position of a name is the one before which it does not stand.
pub proof fn pierwszy_jedyny(s: Seq<(Seq<char>, nat)>, n: Seq<char>, k: int)
    requires
        0 <= k <= s.len(),
        forall|i: int| 0 <= i < k ==> s[i].0 != n,
        k < s.len() ==> s[k].0 == n,
    ensures
        pierwszy(s, n) == k,
    decreases s.len(),
{
    if s.len() > 0 && k > 0 {
        assert(s[0].0 != n);
        assert forall|i: int| 0 <= i < k - 1 implies s.skip(1)[i].0 != n by {
            assert(s.skip(1)[i] == s[i + 1]);
        }
        pierwszy_jedyny(s.skip(1), n, k - 1);
    }
}

/// Counting raises the count of its own name by what was counted and leaves
/// every other name's count as it was.
pub proof fn zwiekszony_liczy(s: Seq<(Seq<char>, nat)>, n: Seq<char>, o: nat, m: Seq<char>)
    ensures
        ile(zwiekszony(s, n, o), m) == ile(s, m) + if m == n {
            o
        } else {
            0
        },
{
    pierwszy_trafia(s, n);
    pierwszy_trafia(s, m);
    let t = zwiekszony(s, n, o);
    let k = pierwszy(s, m);
    if m == n {
        pierwszy_jedyny(t, m, k);
    } else if k < s.len() {
        pierwszy_jedyny(t, m, k);
    } else {
        pierwszy_jedyny(t, m, t.len() as int);
    }
}

/// Counting never makes a name stand twice.
pub proof fn zwiekszony_bez_powtorzen(s: Seq<(Seq<char>, nat)>, n: Seq<char>, o: nat)
    requires
        bez_powtorzen(s),
    ensures
        bez_powtorzen(zwiekszony(s, n, o)),
{
    pierwszy_trafia(s, n);
}

/// Counting leaves no name without a count.
pub proof fn zwiekszony_dodatni(s: Seq<(Seq<char>, nat)>, n: Seq<char>, o: nat)
    requires
        dodatnie(s),
        o >= 1,
    ensures
        dodatnie(zwiekszony(s, n, o)),
{
    pierwszy_trafia(s, n);
}

/// Counting raises the total by what was counted.
pub proof fn zwiekszony_sumuje(s: Seq<(Seq<char>, nat)>, n: Seq<char>, o: nat)
    ensures
        suma(zwiekszony(s, n, o)) == suma(s) + o,
    decreases s.len(),
{
    let t = zwiekszony(s, n, o);
    pierwszy_trafia(s, n);
    if s.len() == 0 {
        assert(t.skip(1) =~= Seq::<(Seq<char>, nat)>::empty());
        assert(suma(t.skip(1)) == 0);
    } else if s[0].0 == n {
        assert(t.skip(1) =~= s.skip(1));
    } else {
        pierwszy_trafia(s.skip(1), n);
        zwiekszony_sumuje(s.skip(1), n, o);
        assert(t.skip(1) =~= zwiekszony(s.skip(1), n, o));
    }
}

/// No name counts more than all names together.
pub proof fn ile_w_sumie(s: Seq<(Seq<char>, nat)>, n: Seq<char>)
    ensures
        ile(s, n) <= suma(s),
    decreases s.len(),
{
    pierwszy_trafia(s, n);
    if s.len() > 0 && s[0].0 != n {
        pierwszy_trafia(s.skip(1), n);
        ile_w_sumie(s.skip(1), n);
        if pierwszy(s, n) < s.len() {
            assert(s[pierwszy(s, n)] == s.skip(1)[pierwszy(s.skip(1), n)]);
        }
    }
}

/// `s` is ordered from the largest count down.
pub open spec fn uporzadkowane(s: Seq<(Seq<char>, nat)>) -> bool {
    forall|i: int, j: int| 0 <= i <= j < s.len() ==> s[i].1 >= s[j].1
}

/// Putting an entry in place keeps the order and adds that entry, no other.
proof fn wstawiony_porzadkuje(s: Seq<(Seq<char>, nat)>, x: (Seq<char>, nat))
    requires
        uporzadkowane(s),
    ensures
        uporzadkowane(wstawiony(s, x)),
        wstawiony(s, x).to_multiset() == s.to_multiset().insert(x),
        wstawiony(s, x).len() == s.len() + 1,
        wstawiony(s, x).last().1 <= x.1,
        s.len() > 0 ==> wstawiony(s, x).last().1 <= s.last().1,
    decreases s.len(),
{
    broadcast use vstd::seq_lib::group_to_multiset_ensures;

    if s.len() > 0 && s.last().1 < x.1 {
        let a = s.drop_last();
        let w = wstawiony(a, x);
        wstawiony_porzadkuje(a, x);
        assert(s =~= a.push(s.last()));
        assert(w.push(s.last()).to_multiset() =~= s.to_multiset().insert(x));
        assert forall|i: int, j: int| 0 <= i <= j < w.push(s.last()).len() implies w.push(s.last())[i].1
            >= w.push(s.last())[j].1 by {
            if j == w.len() && i < j {
                assert(w[i].1 >= w[w.len() - 1].1);
                wstawiony_ograniczony(a, x, s.last().1);
            }
        }
    }
}

/// What stands in place is never smaller than everything it was made from.
proof fn wstawiony_ograniczony(s: Seq<(Seq<char>, nat)>, x: (Seq<char>, nat), dol: nat)
    requires
        forall|i: int| 0 <= i < s.len() ==> #[trigger] s[i].1 >= dol,
        x.1 >= dol,
    ensures
        forall|i: int| 0 <= i < wstawiony(s, x).len() ==> #[trigger] wstawiony(s, x)[i].1 >= dol,
    decreases s.len(),
{
    let r = wstawiony(s, x);
    if s.len() > 0 && s.last().1 < x.1 {
        let a = s.drop_last();
        assert forall|i: int| 0 <= i < a.len() implies #[trigger] a[i].1 >= dol by {
            assert(a[i] == s[i]);
        }
        wstawiony_ograniczony(a, x, dol);
        assert forall|i: int| 0 <= i < r.len() implies #[trigger] r[i].1 >= dol by {
            if i < r.len() - 1 {
                assert(r[i] == wstawiony(a, x)[i]);
            } else {
                assert(r[i] == s[s.len() - 1]);
            }
        }
    } else {
        assert forall|i: int| 0 <= i < r.len() implies #[trigger] r[i].1 >= dol by {
            if i < s.len() {
                assert(r[i] == s[i]);
            }
        }
    }
}

/// Ordering a tally keeps its entries and puts larger counts first.
pub proof fn malejaco_porzadkuje(s: Seq<(Seq<char>, nat)>)
    ensures
        uporzadkowane(malejaco(s)),
        malejaco(s).to_multiset() == s.to_multiset(),
        malejaco(s).len() == s.len(),
    decreases s.len(),
{
    broadcast use vstd::seq_lib::group_to_multiset_ensures;

    if s.len() > 0 {
        malejaco_porzadkuje(s.drop_last());
        wstawiony_porzadkuje(malejaco(s.drop_last()), s.last());
        assert(s =~= s.drop_last().push(s.last()));
    }
}

impl Licznik {
    /// A tally with nothing in it.
    pub fn new() -> (r: Licznik)
        ensures
            r@ == Seq::<(Seq<char>, nat)>::empty(),
    {
        let r = Licznik { wpisy: Vec::new() };
        assert(r@ =~= Seq::<(Seq<char>, nat)>::empty());
        r
    }

    /// Whether nothing was counted yet.
    pub fn is_empty(&self) -> (r: bool)
        ensures
            r == (self@.len() == 0),
    {
        self.wpisy.len() == 0
    }

    /// The position of the name `n`, or the length where it has none.
    pub(crate) fn znajdz(&self, n: &str) -> (r: usize)
        ensures
            r == pierwszy(self@, n@),
            r <= self@.len(),
    {
        let mut i: usize = 0;
        while i < self.wpisy.len()
            invariant
                i <= self.wpisy.len(),
                forall|j: int| 0 <= j < i ==> (#[trigger] self@[j]).0 != n@,
            decreases self.wpisy.len() - i,
        {
            if tekst::rowne(self.wpisy[i].nazwa.as_str(), n) {
                assert(self@[i as int].0 == n@);
                proof {
                    pierwszy_jedyny(self@, n@, i as int);
                }
                return i;
            }
            assert(self@[i as int].0 != n@);
            i += 1;
        }
        proof {
            pierwszy_jedyny(self@, n@, i as int);
        }
        i
    }

    /// What is counted under the name `n`; `None` where the name never came up.
    pub fn get(&self, n: &str) -> (r: Option<u64>)
        ensures
            match r {
                Some(x) => pierwszy(self@, n@) < self@.len() && x == ile(self@, n@),
                None => pierwszy(self@, n@) == self@.len(),
            },
    {
        let i: usize = self.znajdz(n);
        if i < self.wpisy.len() {
            assert(self@[i as int] == self.wpisy@[i as int]@);
            Some(self.wpisy[i].ile)
        } else {
            None
        }
    }

    /// Counts `o` more under the name `n`.
    pub fn zwieksz(&mut self, n: &str, o: u64)
        requires
            ile(old(self)@, n@) + o <= u64::MAX,
        ensures
            final(self)@ == zwiekszony(old(self)@, n@, o as nat),
    {
        let i: usize = self.znajdz(n);
        proof {
            pierwszy_trafia(self@, n@);
        }
        if i < self.wpisy.len() {
            assert(self@[i as int] == self.wpisy@[i as int]@);
            let w = Wpis { nazwa: n.to_owned(), ile: self.wpisy[i].ile + o };
            self.wpisy.set(i, w);
        } else {
            self.wpisy.push(Wpis { nazwa: n.to_owned(), ile: o });
        }
        assert(self@ =~= zwiekszony(old(self)@, n@, o as nat));
    }

    /// The entries from the largest count down; equal counts stay in first-seen order.
    pub fn malejaco(&self) -> (r: Licznik)
        ensures
            r@ == malejaco(self@),
    {
        let mut r = Licznik::new();
        let mut i: usize = 0;
        assert(self@.take(0) =~= Seq::<(Seq<char>, nat)>::empty());
        while i < self.wpisy.len()
            invariant
                i <= self.wpisy.len(),
                r@ == malejaco(self@.take(i as int)),
            decreases self.wpisy.len() - i,
        {
            proof {
                assert(self@.take(i + 1).drop_last() =~= self@.take(i as int));
                assert(self@.take(i + 1).last() == self.wpisy@[i as int]@);
            }
            r.wstaw(&self.wpisy[i]);
            i += 1;
        }
        assert(self@.take(self@.len() as int) =~= self@);
        r
    }

    /// Puts a copy of `x` behind the last entry that counts at least as much.
    fn wstaw(&mut self, x: &Wpis)
        ensures
            final(self)@ == wstawiony(old(self)@, x@),
    {
        let mut k: usize = self.wpisy.len();
        let ghost s = self@;
        let ghost mut ogon = Seq::<(Seq<char>, nat)>::empty();
        proof {
            assert(s.take(s.len() as int) =~= s);
            assert(wstawiony(s, x@) + ogon =~= wstawiony(s, x@));
        }
        while k > 0 && self.wpisy[k - 1].ile < x.ile
            invariant
                self@ == s,
                k <= self.wpisy.len(),
                ogon =~= s.skip(k as int),
                wstawiony(s, x@) =~= wstawiony(s.take(k as int), x@) + ogon,
            decreases k,
        {
            proof {
                let t = s.take(k as int);
                assert(t.last() == self.wpisy@[k - 1]@);
                assert(t.drop_last() =~= s.take(k - 1));
                ogon = seq![s[k - 1]] + ogon;
            }
            k -= 1;
        }
        let w = Wpis { nazwa: x.nazwa.clone(), ile: x.ile };
        proof {
            let t = s.take(k as int);
            if k > 0 {
                assert(t.last() == self.wpisy@[k - 1]@);
            }
            assert(wstawiony(t, x@) =~= t.push(x@));
        }
        self.wpisy.insert(k, w);
        assert(self@ =~= wstawiony(s, x@));
    }

    /// The `n` largest entries as `name (count), ...`, or a dash where there is none.
    pub fn najwieksze(&self, n: usize) -> (r: String)
        ensures
            r@ == najwieksze(self@, n as nat),
    {
        if self.wpisy.len() == 0 {
            return "-".to_owned();
        }
        let m = self.malejaco();
        proof {
            malejaco_porzadkuje(self@);
        }
        let k: usize = if n < m.wpisy.len() {
            n
        } else {
            m.wpisy.len()
        };
        let mut s = String::new();
        let mut i: usize = 0;
        while i < k
            invariant
                i <= k <= m.wpisy.len(),
                s@ == wyliczenie(m@, i as nat),
            decreases k - i,
        {
            proof {
                assert(m@[i as int] == m.wpisy@[i as int]@);
            }
            if i > 0 {
                s.append(", ");
            }
            let p = m.wpisy[i].opis();
            s.append(p.as_str());
            proof {
                if i == 0 {
                    assert(s@ =~= pozycja(m@[0]));
                }
            }
            i += 1;
        }
        s
    }
}

impl Licznik {
    /// Every entry, from the largest count down, with its name and count
    /// between the texts `a`, `b` and `c`.
    pub fn wykaz(&self, a: &str, b: &str, c: &str) -> (r: String)
        ensures
            r@ == wykaz(malejaco(self@), self@.len(), a@, b@, c@),
    {
        let m = self.malejaco();
        proof {
            malejaco_porzadkuje(self@);
        }
        let mut s = String::new();
        let mut i: usize = 0;
        while i < m.wpisy.len()
            invariant
                i <= m.wpisy.len(),
                s@ == wykaz(m@, i as nat, a@, b@, c@),
            decreases m.wpisy.len() - i,
        {
            proof {
                assert(m@[i as int] == m.wpisy@[i as int]@);
            }
            s.append(a);
            s.append(m.wpisy[i].nazwa.as_str());
            s.append(b);
            tekst::dopisz_liczbe(&mut s, m.wpisy[i].ile);
            s.append(c);
            i += 1;
        }
        s
    }
}

impl Wpis {
    /// The entry as `name (count)`.
    pub fn opis(&self) -> (r: String)
        ensures
            r@ == pozycja(self@),
    {
        let mut s = self.nazwa.clone();
        s.append(" (");
        tekst::dopisz_liczbe(&mut s, self.ile);
        s.append(")");
        s
    }
}

} // verus!
