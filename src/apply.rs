//! What a list's merge annotation asks of server-side apply, for lists of
//! integers: an atomic list is replaced whole, a set list gains the applied
//! values that it lacks.
use vstd::prelude::*;
use crate::schema::ListType;

verus! {

/// `existing` followed by each value of `applied` that is not yet there, in
/// the order of `applied`.
pub open spec fn union_of(existing: Seq<i64>, applied: Seq<i64>) -> Seq<i64>
    decreases applied.len(),
{
    if applied.len() == 0 {
        existing
    } else {
        let prev = union_of(existing, applied.drop_last());
        if prev.contains(applied.last()) {
            prev
        } else {
            prev.push(applied.last())
        }
    }
}

/// The list after applying `applied` over `existing`. No annotation means
/// atomic.
pub open spec fn applied_list(list_type: Option<ListType>, existing: Seq<i64>, applied: Seq<i64>) -> Seq<i64> {
    match list_type {
        Some(ListType::ValueSet) => union_of(existing, applied),
        _ => applied,
    }
}

fn contains_value(v: &Vec<i64>, x: i64) -> (b: bool)
    ensures
        b == v@.contains(x),
{
    let mut i: usize = 0;
    while i < v.len()
        invariant
            i <= v@.len(),
            forall|j: int| 0 <= j < i ==> v@[j] != x,
        decreases v@.len() - i,
    {
        if v[i] == x {
            assert(v@[i as int] == x);
            return true;
        }
        i = i + 1;
    }
    false
}

/// Applies a list of integers over the stored one as the field's list type
/// asks. A keyed-map list needs struct items, so it is not one of these.
pub fn apply_list(list_type: Option<ListType>, existing: &Vec<i64>, applied: &Vec<i64>) -> (r: Vec<i64>)
    requires
        list_type != Some(ListType::KeyedMap),
    ensures
        r@ == applied_list(list_type, existing@, applied@),
{
    match list_type {
        Some(ListType::ValueSet) => {
            let mut out: Vec<i64> = existing.clone();
            let mut i: usize = 0;
            while i < applied.len()
                invariant
                    i <= applied@.len(),
                    out@ == union_of(existing@, applied@.subrange(0, i as int)),
                decreases applied@.len() - i,
            {
                assert(applied@.subrange(0, i + 1).drop_last() =~= applied@.subrange(0, i as int));
                let x = applied[i];
                if !contains_value(&out, x) {
                    out.push(x);
                }
                i = i + 1;
            }
            assert(applied@.subrange(0, i as int) =~= applied@);
            out
        },
        _ => applied.clone(),
    }
}

} // verus!
