//! Vector arithmetic for place vectors: elementwise sums together with
//! the range checks that the validation algorithm is built on.

use vstd::prelude::*;

verus! {

/// The elementwise sum of two equal-length place vectors, as a sequence
/// of machine integers. Meaningful where `sum_ok` holds, so that every
/// entry is representable.
pub open spec fn sum_of(a: Seq<i64>, b: Seq<i64>) -> Seq<i64> {
    Seq::new(a.len(), |i: int| (a[i] + b[i]) as i64)
}

/// Every elementwise sum of `a` and `b` is non-negative and fits in a
/// machine word. A mathematical sum below zero means a place would be
/// driven negative; one above `i64::MAX` cannot be represented and is
/// treated as out of range as well.
pub open spec fn sum_ok(a: Seq<i64>, b: Seq<i64>) -> bool {
    forall|i: int| #![trigger a[i], b[i]] 0 <= i < a.len() ==> 0 <= a[i] + b[i] <= i64::MAX
}

/// Every place with a positive capacity is at or below that capacity;
/// a capacity of zero means the place is unbounded.
pub open spec fn within_capacity(s: Seq<i64>, cap: Seq<i64>) -> bool {
    forall|i: int| 0 <= i < cap.len() && 0 < #[trigger] cap[i] ==> s[i] <= cap[i]
}

/// Elementwise sum of two equal-length vectors. The flag reports whether
/// every sum is non-negative (and representable); when it is set, the
/// returned vector is exactly the elementwise sum.
pub fn vadd(a: &Vec<i64>, b: &Vec<i64>) -> (r: (Vec<i64>, bool))
    requires
        a@.len() == b@.len(),
    ensures
        r.0@.len() == a@.len(),
        r.1 == sum_ok(a@, b@),
        forall|i: int| #![trigger a@[i], b@[i]]
            0 <= i < a@.len() && i64::MIN <= a@[i] + b@[i] <= i64::MAX ==> r.0@[i] == a@[i] + b@[i],
        r.1 ==> r.0@ == sum_of(a@, b@),
{
    let mut out: Vec<i64> = Vec::new();
    let mut ok: bool = true;
    let mut k: usize = 0;
    while k < a.len()
        invariant
            a@.len() == b@.len(),
            k <= a@.len(),
            out@.len() == k,
            ok == (forall|i: int| #![trigger a@[i], b@[i]]
                0 <= i < k ==> 0 <= a@[i] + b@[i] <= i64::MAX),
            forall|i: int| 0 <= i < k && i64::MIN <= a@[i] + b@[i] <= i64::MAX
                ==> #[trigger] out@[i] == a@[i] + b@[i],
        decreases a@.len() - k,
    {
        match a[k].checked_add(b[k]) {
            Some(x) => {
                if x < 0 {
                    ok = false;
                }
                out.push(x);
            },
            None => {
                ok = false;
                out.push(0);
            },
        }
        k = k + 1;
    }
    if ok {
        proof {
            assert(out@ =~= sum_of(a@, b@));
        }
    }
    (out, ok)
}

} // verus!
