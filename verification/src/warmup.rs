//! Small vector helpers: elementwise addition and deduplication.

use vstd::prelude::*;

verus! {

/// `s` with every later repetition of a value removed: each value
/// keeps its first occurrence, in order.
pub open spec fn dedup_spec(s: Seq<i32>) -> Seq<i32>
    decreases s.len(),
{
    if s.len() == 0 {
        Seq::empty()
    } else {
        let prefix = dedup_spec(s.drop_last());
        if prefix.contains(s.last()) {
            prefix
        } else {
            prefix.push(s.last())
        }
    }
}

/// A fresh vector holding `v` with `n` added to every element.
pub fn add_n(v: Vec<i32>, n: i32) -> (r: Vec<i32>)
    requires
        forall|i: int| 0 <= i < v@.len() ==> i32::MIN <= #[trigger] v@[i] + n <= i32::MAX,
    ensures
        r@.len() == v@.len(),
        forall|i: int| 0 <= i < v@.len() ==> r@[i] == v@[i] + n,
{
    let mut result: Vec<i32> = Vec::new();
    let mut i: usize = 0;
    while i < v.len()
        invariant
            i <= v@.len(),
            result@.len() == i,
            forall|j: int| 0 <= j < v@.len() ==> i32::MIN <= #[trigger] v@[j] + n <= i32::MAX,
            forall|j: int| 0 <= j < i ==> result@[j] == v@[j] + n,
        decreases v@.len() - i,
    {
        result.push(v[i] + n);
        i += 1;
    }
    result
}

/// Add `n` to every element of `v` in place.
pub fn add_n_inplace(v: &mut Vec<i32>, n: i32)
    requires
        forall|i: int| 0 <= i < old(v)@.len() ==> i32::MIN <= #[trigger] old(v)@[i] + n <= i32::MAX,
    ensures
        final(v)@.len() == old(v)@.len(),
        forall|i: int| 0 <= i < old(v)@.len() ==> final(v)@[i] == old(v)@[i] + n,
{
    let mut i: usize = 0;
    while i < v.len()
        invariant
            i <= v@.len(),
            v@.len() == old(v)@.len(),
            forall|j: int| 0 <= j < v@.len() ==> i32::MIN <= #[trigger] old(v)@[j] + n <= i32::MAX,
            forall|j: int| 0 <= j < i ==> v@[j] == old(v)@[j] + n,
            forall|j: int| i <= j < v@.len() ==> v@[j] == old(v)@[j],
        decreases v@.len() - i,
    {
        let x = v[i];
        v.set(i, x + n);
        i += 1;
    }
}

/// Does `s` hold `x`?
fn vec_contains(s: &Vec<i32>, x: i32) -> (r: bool)
    ensures
        r == s@.contains(x),
{
    let mut i: usize = 0;
    while i < s.len()
        invariant
            i <= s@.len(),
            forall|j: int| 0 <= j < i ==> s@[j] != x,
        decreases s@.len() - i,
    {
        if s[i] == x {
            assert(s@.contains(x));
            return true;
        }
        i += 1;
    }
    assert(!s@.contains(x));
    false
}

/// Remove every later repetition of a value from `v`, keeping each
/// value's first occurrence in order.
pub fn dedup(v: &mut Vec<i32>)
    ensures
        final(v)@ == dedup_spec(old(v)@),
{
    let mut out: Vec<i32> = Vec::new();
    let mut i: usize = 0;
    while i < v.len()
        invariant
            i <= v@.len(),
            v@ == old(v)@,
            out@ == dedup_spec(v@.take(i as int)),
        decreases v@.len() - i,
    {
        proof {
            assert(v@.take(i + 1).drop_last() =~= v@.take(i as int));
        }
        let x = v[i];
        if !vec_contains(&out, x) {
            out.push(x);
        }
        i += 1;
    }
    proof {
        assert(v@.take(v@.len() as int) =~= v@);
    }
    *v = out;
}

} // verus!
