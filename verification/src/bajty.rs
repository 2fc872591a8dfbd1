//! Bytes: prefixes, occurrences and zeros.

use vstd::prelude::*;

verus! {

/// `b` starts with `w`.
pub open spec fn zaczyna_sie(b: Seq<u8>, w: Seq<u8>) -> bool {
    w.len() <= b.len() && b.subrange(0, w.len() as int) == w
}

/// `w` stands in `b` at position `i`.
pub open spec fn stoi(b: Seq<u8>, w: Seq<u8>, i: int) -> bool {
    0 <= i && i + w.len() <= b.len() && b.subrange(i, i + w.len()) == w
}

/// `w` stands somewhere in `b` at or behind position `od`.
pub open spec fn wystepuje_od(b: Seq<u8>, w: Seq<u8>, od: int) -> bool {
    exists|i: int| od <= i && #[trigger] stoi(b, w, i)
}

/// Every byte is zero.
pub open spec fn same_zera(b: Seq<u8>) -> bool {
    forall|i: int| 0 <= i < b.len() ==> b[i] == 0
}

/// Whether `w` stands in `b` at position `i`.
pub fn pasuje(b: &Vec<u8>, w: &Vec<u8>, i: usize) -> (r: bool)
    requires
        i <= b@.len(),
    ensures
        r == stoi(b@, w@, i as int),
{
    if w.len() > b.len() - i {
        return false;
    }
    let mut j: usize = 0;
    while j < w.len()
        invariant
            j <= w@.len(),
            i + w@.len() <= b.len(),
            forall|k: int| 0 <= k < j ==> b@[i + k] == w@[k],
        decreases w@.len() - j,
    {
        if b[i + j] != w[j] {
            assert(b@.subrange(i as int, i + w@.len())[j as int] != w@[j as int]);
            return false;
        }
        j = j + 1;
    }
    assert(b@.subrange(i as int, i + w@.len()) =~= w@);
    true
}

/// Whether `b` starts with `w`.
pub fn zaczyna(b: &Vec<u8>, w: &Vec<u8>) -> (r: bool)
    ensures
        r == zaczyna_sie(b@, w@),
{
    pasuje(b, w, 0)
}

/// Whether `w` stands in `b` at or behind position `od`.
pub fn zawiera_od(b: &Vec<u8>, w: &Vec<u8>, od: usize) -> (r: bool)
    requires
        od <= b@.len(),
    ensures
        r == wystepuje_od(b@, w@, od as int),
{
    let mut i: usize = od;
    while i < b.len()
        invariant
            od <= i <= b@.len(),
            forall|k: int| od <= k < i ==> !#[trigger] stoi(b@, w@, k),
        decreases b@.len() - i,
    {
        if pasuje(b, w, i) {
            return true;
        }
        i = i + 1;
    }
    pasuje(b, w, i)
}

/// Whether a zero byte occurs.
pub fn zawiera_zero(b: &Vec<u8>) -> (r: bool)
    ensures
        r == b@.contains(0),
{
    let mut i: usize = 0;
    while i < b.len()
        invariant
            i <= b@.len(),
            forall|k: int| 0 <= k < i ==> b@[k] != 0,
        decreases b@.len() - i,
    {
        if b[i] == 0 {
            return true;
        }
        i = i + 1;
    }
    false
}

/// Whether every byte is zero.
pub fn sa_same_zera(b: &Vec<u8>) -> (r: bool)
    ensures
        r == same_zera(b@),
{
    let mut i: usize = 0;
    while i < b.len()
        invariant
            i <= b@.len(),
            forall|k: int| 0 <= k < i ==> b@[k] == 0,
        decreases b@.len() - i,
    {
        if b[i] != 0 {
            return false;
        }
        i = i + 1;
    }
    true
}

/// The bytes of `b` once more.
pub fn kopia(b: &Vec<u8>) -> (r: Vec<u8>)
    ensures
        r@ == b@,
{
    let r = b.clone();
    assert(r@ =~= b@);
    r
}

/// `b` with `w` put before it.
pub fn poprzedzone(w: &Vec<u8>, b: &Vec<u8>) -> (r: Vec<u8>)
    ensures
        r@ == w@ + b@,
{
    let mut r = w.clone();
    assert(r@ =~= w@);
    let mut i: usize = 0;
    while i < b.len()
        invariant
            i <= b@.len(),
            r@ == w@ + b@.take(i as int),
        decreases b@.len() - i,
    {
        r.push(b[i]);
        assert(r@ =~= w@ + b@.take(i + 1));
        i = i + 1;
    }
    assert(b@.take(b@.len() as int) =~= b@);
    r
}

} // verus!
