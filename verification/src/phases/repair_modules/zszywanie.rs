//! Stitching of two streams, byte by byte, a buffer at a time.

use vstd::prelude::*;

verus! {

/// Size of the buffer of one side: 128 KB, whatever the size of the input.
pub const ROZMIAR_BUFORA: usize = 131072;

/// The byte at position `i`, or zero behind the end.
pub open spec fn bajt(s: Seq<u8>, i: int) -> u8 {
    if 0 <= i < s.len() {
        s[i]
    } else {
        0
    }
}

/// Two sides stitched together: at every position the byte of `a` where it is
/// not zero, and else the byte of `b`.
pub open spec fn zszyte(a: Seq<u8>, b: Seq<u8>) -> Seq<u8> {
    Seq::new(
        if a.len() > b.len() {
            a.len()
        } else {
            b.len()
        },
        |i: int|
            if bajt(a, i) != 0 {
                bajt(a, i)
            } else {
                bajt(b, i)
            },
    )
}

/// What one read of a stream gave. Data of length zero is the end of the stream.
pub enum Odczyt {
    Dane(Vec<u8>),
    /// The read was interrupted by a signal and is to be repeated.
    Przerwany,
    Blad,
}

/// A buffer that is being filled from a stream.
pub struct Bufor {
    pub dane: Vec<u8>,
    pub rozmiar: usize,
    /// The stream has ended.
    pub koniec: bool,
}

impl Bufor {
    /// The buffer holds no more than it is meant to.
    pub open spec fn poprawny(self) -> bool {
        self.dane@.len() <= self.rozmiar
    }

    /// How many bytes are still to be read.
    pub open spec fn brak(self) -> int {
        if self.koniec {
            0
        } else {
            self.rozmiar - self.dane@.len()
        }
    }

    /// An empty buffer of the given size.
    pub fn new(rozmiar: usize) -> (r: Self)
        ensures
            r.poprawny(),
            r.dane@ == Seq::<u8>::empty(),
            r.rozmiar == rozmiar,
            !r.koniec,
    {
        Bufor { dane: Vec::new(), rozmiar, koniec: false }
    }

    /// How many bytes the next read should ask for; zero once the buffer is
    /// full or the stream has ended.
    pub fn brakuje(&self) -> (r: usize)
        requires
            self.poprawny(),
        ensures
            r == self.brak(),
    {
        if self.koniec {
            0
        } else {
            self.rozmiar - self.dane.len()
        }
    }

    /// Takes in what a read gave. A short read is put behind what is there, an
    /// interrupted one changes nothing, and an error is reported as such: it is
    /// never taken for the end of the stream.
    pub fn przyjmij(&mut self, odczyt: &Odczyt) -> (r: bool)
        requires
            old(self).poprawny(),
            odczyt matches Odczyt::Dane(d) ==> d@.len() <= old(self).brak(),
        ensures
            final(self).poprawny(),
            final(self).rozmiar == old(self).rozmiar,
            r == !(odczyt is Blad),
            match *odczyt {
                Odczyt::Dane(d) => final(self).dane@ == old(self).dane@ + d@ && final(self).koniec
                    == (old(self).koniec || d@.len() == 0),
                _ => *final(self) == *old(self),
            },
    {
        match odczyt {
            Odczyt::Dane(d) => {
                if d.len() == 0 {
                    self.koniec = true;
                    assert(self.dane@ =~= old(self).dane@ + d@);
                } else {
                    let mut i: usize = 0;
                    while i < d.len()
                        invariant
                            i <= d@.len(),
                            self.dane@ == old(self).dane@ + d@.take(i as int),
                            self.rozmiar == old(self).rozmiar,
                            self.koniec == old(self).koniec,
                        decreases d@.len() - i,
                    {
                        self.dane.push(d[i]);
                        i = i + 1;
                        assert(self.dane@ =~= old(self).dane@ + d@.take(i as int));
                    }
                    assert(d@.take(d@.len() as int) =~= d@);
                }
                true
            },
            Odczyt::Przerwany => true,
            Odczyt::Blad => false,
        }
    }
}

/// The byte at position `i`, or zero behind the end.
fn bajt_lub_zero(s: &Vec<u8>, i: usize) -> (r: u8)
    ensures
        r == bajt(s@, i as int),
{
    if i < s.len() {
        s[i]
    } else {
        0
    }
}

/// Stitches two buffers together.
pub fn zszyj(a: &Vec<u8>, b: &Vec<u8>) -> (r: Vec<u8>)
    ensures
        r@ == zszyte(a@, b@),
{
    let n: usize = if a.len() > b.len() {
        a.len()
    } else {
        b.len()
    };
    let mut r: Vec<u8> = Vec::new();
    let mut i: usize = 0;
    while i < n
        invariant
            i <= n,
            n == zszyte(a@, b@).len(),
            r@ == zszyte(a@, b@).take(i as int),
        decreases n - i,
    {
        let x: u8 = bajt_lub_zero(a, i);
        let y: u8 = bajt_lub_zero(b, i);
        r.push(if x != 0 { x } else { y });
        i = i + 1;
        assert(r@ =~= zszyte(a@, b@).take(i as int));
    }
    assert(r@ =~= zszyte(a@, b@));
    r
}

/// What the stitching of two streams needs next.
#[derive(Clone, Copy, PartialEq, Eq, Structural)]
pub enum Zadanie {
    /// Read at most this many bytes of the first stream.
    CzytajA(usize),
    /// Read at most this many bytes of the second stream.
    CzytajB(usize),
    /// Write the next portion.
    Pisz,
    /// Both streams have ended.
    Koniec,
}

/// The stitching of two streams: one buffer for each.
pub struct Zszywanie {
    pub a: Bufor,
    pub b: Bufor,
}

impl Zszywanie {
    /// Both buffers are sound and of the same size, so that the two streams
    /// advance by the same step.
    pub open spec fn zgodne(self) -> bool {
        self.a.poprawny() && self.b.poprawny() && self.a.rozmiar == ROZMIAR_BUFORA
            && self.b.rozmiar == ROZMIAR_BUFORA
    }

    /// What comes next: fill the first buffer, then the second, then write.
    pub open spec fn zadanie(self) -> Zadanie {
        if self.a.brak() > 0 {
            Zadanie::CzytajA(self.a.brak() as usize)
        } else if self.b.brak() > 0 {
            Zadanie::CzytajB(self.b.brak() as usize)
        } else if self.a.dane@.len() == 0 && self.b.dane@.len() == 0 {
            Zadanie::Koniec
        } else {
            Zadanie::Pisz
        }
    }

    /// The beginning: nothing was read.
    pub fn new() -> (r: Self)
        ensures
            r.zgodne(),
            r.a.dane@ == Seq::<u8>::empty(),
            r.b.dane@ == Seq::<u8>::empty(),
            !r.a.koniec,
            !r.b.koniec,
    {
        Zszywanie { a: Bufor::new(ROZMIAR_BUFORA), b: Bufor::new(ROZMIAR_BUFORA) }
    }

    /// What comes next.
    pub fn nastepne(&self) -> (r: Zadanie)
        requires
            self.zgodne(),
        ensures
            r == self.zadanie(),
    {
        let x: usize = self.a.brakuje();
        let y: usize = self.b.brakuje();
        if x > 0 {
            Zadanie::CzytajA(x)
        } else if y > 0 {
            Zadanie::CzytajB(y)
        } else if self.a.dane.len() == 0 && self.b.dane.len() == 0 {
            Zadanie::Koniec
        } else {
            Zadanie::Pisz
        }
    }

    /// The portion to write: the two buffers stitched together.
    pub fn porcja(&self) -> (r: Vec<u8>)
        ensures
            r@ == zszyte(self.a.dane@, self.b.dane@),
    {
        zszyj(&self.a.dane, &self.b.dane)
    }

    /// The portion was written: both buffers are empty again.
    pub fn zapisano(&mut self)
        ensures
            final(self).zgodne(),
            final(self).a.dane@ == Seq::<u8>::empty(),
            final(self).b.dane@ == Seq::<u8>::empty(),
            !final(self).a.koniec,
            !final(self).b.koniec,
    {
        self.a = Bufor::new(ROZMIAR_BUFORA);
        self.b = Bufor::new(ROZMIAR_BUFORA);
    }
}

/// A read of a stream that holds `f` and stands at `p`: the next bytes, at most
/// as many as were asked for, and none only at the end.
pub open spec fn kolejne_bajty(f: Seq<u8>, p: int, zadane: int, d: Seq<u8>) -> bool {
    &&& d.len() <= zadane
    &&& 0 <= p && p + d.len() <= f.len()
    &&& d == f.subrange(p, p + d.len())
    &&& d.len() == 0 ==> p == f.len()
}

/// One side after `k` written portions: what was written of it, and the buffer.
pub open spec fn strona(f: Seq<u8>, k: nat, x: Bufor) -> bool {
    let p = pozycja(f, k);
    &&& x.poprawny()
    &&& x.rozmiar == ROZMIAR_BUFORA
    &&& p + x.dane@.len() <= f.len()
    &&& x.dane@ == f.subrange(p, p + x.dane@.len())
    &&& x.koniec ==> p + x.dane@.len() == f.len()
}

/// How much of a side the first `k` portions took.
pub open spec fn pozycja(f: Seq<u8>, k: nat) -> int {
    if k * ROZMIAR_BUFORA > f.len() {
        f.len() as int
    } else {
        k * ROZMIAR_BUFORA
    }
}

/// The stitching of streams that hold `fa` and `fb` stands behind `k` portions,
/// and `w` is what was written so far.
pub open spec fn w_toku(s: Zszywanie, fa: Seq<u8>, fb: Seq<u8>, k: nat, w: Seq<u8>) -> bool {
    &&& strona(fa, k, s.a)
    &&& strona(fb, k, s.b)
    &&& w == zszyte(fa.take(pozycja(fa, k)), fb.take(pozycja(fb, k)))
}

/// A read of either side keeps the two sides in step, however short it is.
pub proof fn odczyt_zachowuje_krok(f: Seq<u8>, k: nat, przed: Bufor, d: Seq<u8>, po: Bufor)
    requires
        strona(f, k, przed),
        przed.brak() > 0,
        kolejne_bajty(f, pozycja(f, k) + przed.dane@.len(), przed.brak(), d),
        po.rozmiar == przed.rozmiar,
        po.dane@ == przed.dane@ + d,
        po.koniec == (przed.koniec || d.len() == 0),
    ensures
        strona(f, k, po),
{
    let p = pozycja(f, k);
    assert(po.dane@ =~= f.subrange(p, p + po.dane@.len()));
}

/// Writing a portion takes the stitching one portion further.
pub proof fn zapis_zachowuje_krok(
    przed: Zszywanie,
    fa: Seq<u8>,
    fb: Seq<u8>,
    k: nat,
    w: Seq<u8>,
    po: Zszywanie,
)
    requires
        w_toku(przed, fa, fb, k, w),
        przed.zadanie() == Zadanie::Pisz,
        po.zgodne(),
        po.a.dane@ == Seq::<u8>::empty() && po.b.dane@ == Seq::<u8>::empty(),
        !po.a.koniec && !po.b.koniec,
    ensures
        w_toku(po, fa, fb, k + 1, w + zszyte(przed.a.dane@, przed.b.dane@)),
{
    let n: int = ROZMIAR_BUFORA as int;
    let (x, y) = (pozycja(fa, k), pozycja(fb, k));
    let (x1, y1) = (pozycja(fa, k + 1), pozycja(fb, k + 1));
    assert((k + 1) * n == k * n + n) by (nonlinear_arith);
    let z = zszyte(przed.a.dane@, przed.b.dane@);
    assert(x1 == x + przed.a.dane@.len());
    assert(y1 == y + przed.b.dane@.len());
    assert(w + z =~= zszyte(fa.take(x1), fb.take(y1)));
    assert(po.a.dane@ =~= fa.subrange(x1, x1));
    assert(po.b.dane@ =~= fb.subrange(y1, y1));
}

/// When the stitching ends, what was written is the two whole contents stitched
/// together: short reads on one side never put the sides out of step.
pub proof fn zszycie_calych_strumieni(
    s: Zszywanie,
    fa: Seq<u8>,
    fb: Seq<u8>,
    k: nat,
    w: Seq<u8>,
)
    requires
        w_toku(s, fa, fb, k, w),
        s.zadanie() == Zadanie::Koniec,
    ensures
        w == zszyte(fa, fb),
{
    assert(fa.take(fa.len() as int) =~= fa);
    assert(fb.take(fb.len() as int) =~= fb);
}

/// The stitching starts in step.
pub proof fn poczatek_zszywania(s: Zszywanie, fa: Seq<u8>, fb: Seq<u8>)
    requires
        s.zgodne(),
        s.a.dane@ == Seq::<u8>::empty() && s.b.dane@ == Seq::<u8>::empty(),
        !s.a.koniec && !s.b.koniec,
    ensures
        w_toku(s, fa, fb, 0, Seq::empty()),
{
    assert(s.a.dane@ =~= fa.subrange(0, 0));
    assert(s.b.dane@ =~= fb.subrange(0, 0));
    assert(zszyte(fa.take(0), fb.take(0)) =~= Seq::<u8>::empty());
}

/// A stitched file is as long as the longer side, and no byte that either side
/// has is lost: the first side stands wherever it has a byte that is not zero, the
/// second one everywhere else.
pub proof fn zszycie_nie_gubi_bajtow(a: Seq<u8>, b: Seq<u8>, i: int)
    requires
        0 <= i < zszyte(a, b).len(),
    ensures
        zszyte(a, b).len() == if a.len() > b.len() {
            a.len()
        } else {
            b.len()
        },
        zszyte(a, b)[i] == 0 <==> bajt(a, i) == 0 && bajt(b, i) == 0,
        i < a.len() && a[i] != 0 ==> zszyte(a, b)[i] == a[i],
        !(i < a.len() && a[i] != 0) && i < b.len() ==> zszyte(a, b)[i] == b[i],
        bajt(a, i) != 0 ==> zszyte(a, b)[i] == bajt(a, i),
{
}

/// A copy stitched with itself is that copy.
pub proof fn zszycie_ze_soba(a: Seq<u8>)
    ensures
        zszyte(a, a) == a,
{
    assert(zszyte(a, a) =~= a);
}

} // verus!
