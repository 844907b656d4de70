//! The zero-sized-query lint: which queried types are zero-sized and what the
//! lint suggests instead.

use vstd::prelude::*;
use crate::text::append_str;

verus! {

/// Whether a type is zero-sized, as far as it can be told: `None` when the
/// type cannot be normalized (its layout is then not asked for) or its layout
/// cannot be computed; otherwise whether the layout's size is zero.
pub open spec fn zero_sized_verdict(normalizable: bool, layout_size: Option<u64>) -> Option<bool> {
    if !normalizable {
        None
    } else {
        match layout_size {
            Some(size) => Some(size == 0),
            None => None,
        }
    }
}

/// Decides whether a type is zero-sized. `layout_size` is the size of the
/// type's layout where it could be computed; it is only consulted for a
/// normalizable type.
pub fn zero_sized(normalizable: bool, layout_size: Option<u64>) -> (r: Option<bool>)
    ensures
        r == zero_sized_verdict(normalizable, layout_size),
{
    if !normalizable {
        return None;
    }
    match layout_size {
        Some(size) => Some(size == 0),
        None => None,
    }
}

/// The positions, in order, of the queried types that are reported: those
/// known to be zero-sized (an unknown size is not reported).
pub open spec fn reported_positions(verdicts: Seq<Option<bool>>) -> Seq<usize>
    decreases verdicts.len(),
{
    if verdicts.len() == 0 {
        seq![]
    } else {
        let before = reported_positions(verdicts.drop_last());
        if verdicts.last() == Some(true) {
            before.push((verdicts.len() - 1) as usize)
        } else {
            before
        }
    }
}

/// The positions of the queried types to report.
pub fn zst_positions(verdicts: &Vec<Option<bool>>) -> (r: Vec<usize>)
    ensures
        r@ == reported_positions(verdicts@),
{
    let mut r: Vec<usize> = Vec::new();
    let mut i: usize = 0;
    while i < verdicts.len()
        invariant
            i <= verdicts@.len(),
            r@ == reported_positions(verdicts@.take(i as int)),
        decreases verdicts@.len() - i,
    {
        proof {
            assert(verdicts@.take(i + 1).drop_last() =~= verdicts@.take(i as int));
        }
        let known_zero = match verdicts[i] {
            Some(z) => z,
            None => false,
        };
        if known_zero {
            r.push(i);
        }
        assert(r@ =~= reported_positions(verdicts@.take(i + 1)));
        i = i + 1;
    }
    assert(verdicts@.take(verdicts@.len() as int) =~= verdicts@);
    r
}

/// The help text for a zero-sized queried type.
pub open spec fn filter_help(ty: Seq<char>) -> Seq<char> {
    "consider using a filter instead: `With<"@ + ty + ">`"@
}

/// Suggests a filter in place of querying the zero-sized type `ty` (given by
/// how it displays).
pub fn zst_help(ty: &String) -> (r: String)
    ensures
        r@ == filter_help(ty@),
{
    let mut s = String::from_str("consider using a filter instead: `With<");
    append_str(&mut s, ty.as_str());
    append_str(&mut s, ">`");
    assert(s@ =~= filter_help(ty@));
    s
}

/// Exactly the types known to be zero-sized are reported: every reported
/// position is one of a type known to be zero-sized, every such type's
/// position is reported, and the positions come in increasing order.
pub proof fn reports_exactly_the_zero_sized(v: Seq<Option<bool>>)
    requires
        v.len() <= usize::MAX,
    ensures
        ({
            let r = reported_positions(v);
            &&& forall|k: int| 0 <= k < r.len() ==> (r[k] as int) < v.len() && v[r[k] as int] == Some(true)
            &&& forall|i: int| 0 <= i < v.len() && v[i] == Some(true) ==> exists|k: int|
                0 <= k < r.len() && r[k] as int == i
            &&& forall|a: int, b: int| 0 <= a < b < r.len() ==> r[a] < r[b]
        }),
    decreases v.len(),
{
    if v.len() > 0 {
        let before = v.drop_last();
        reports_exactly_the_zero_sized(before);
        let rb = reported_positions(before);
        let r = reported_positions(v);
        assert forall|k: int| 0 <= k < r.len() implies (r[k] as int) < v.len() && v[r[k] as int] == Some(true) by {
            if k < rb.len() {
                assert(r[k] == rb[k]);
                assert(before[rb[k] as int] == v[rb[k] as int]);
            }
        }
        assert forall|i: int| 0 <= i < v.len() && v[i] == Some(true) implies exists|k: int|
            0 <= k < r.len() && r[k] as int == i by {
            if i < v.len() - 1 {
                assert(before[i] == v[i]);
                let k = choose|k: int| 0 <= k < rb.len() && rb[k] as int == i;
                assert(r[k] == rb[k]);
            } else {
                assert(v.last() == v[i]);
                assert(r[rb.len() as int] as int == i);
            }
        }
    }
}

/// Whether a type is zero-sized is unknown when it cannot be normalized or
/// its layout cannot be computed, and otherwise whether its size is zero.
pub proof fn zero_sized_by_case(normalizable: bool, size: u64)
    ensures
        zero_sized_verdict(false, Some(size)) is None,
        zero_sized_verdict(false, None) is None,
        zero_sized_verdict(true, None) is None,
        zero_sized_verdict(true, Some(size)) == Some(size == 0),
{
}

} // verus!
