//! Selection of positions by a predicate: the answer lists, in increasing
//! order, exactly the positions whose element satisfies the predicate.
use vstd::prelude::*;

verus! {

/// `r` lists, in strictly increasing order, exactly the positions below `n`
/// that satisfy `pred`.
pub open spec fn selects(r: Seq<usize>, n: nat, pred: spec_fn(int) -> bool) -> bool {
    &&& forall|k: int| 0 <= k < r.len() ==> (#[trigger] r[k]) < n && pred(r[k] as int)
    &&& forall|k: int, l: int| 0 <= k < l < r.len() ==> (#[trigger] r[k]) < (#[trigger] r[l])
    &&& forall|i: int| 0 <= i < n && #[trigger] pred(i) ==> r.contains(i as usize)
}

/// Two answers that both select the positions satisfying one predicate are the
/// same: the selection is determined by the predicate.
pub proof fn law_selection_is_unique(r1: Seq<usize>, r2: Seq<usize>, n: nat, pred: spec_fn(int) -> bool)
    requires
        selects(r1, n, pred),
        selects(r2, n, pred),
    ensures
        r1 == r2,
    decreases r1.len() + r2.len(),
{
    if r1.len() == 0 || r2.len() == 0 {
        if r1.len() > 0 {
            assert(pred(r1[0] as int));
            assert(r2.contains(r1[0]));
        }
        if r2.len() > 0 {
            assert(pred(r2[0] as int));
            assert(r1.contains(r2[0]));
        }
        assert(r1 =~= r2);
    } else {
        let a = r1.last();
        let b = r2.last();
        assert(pred(a as int));
        assert(pred(b as int));
        assert(r2.contains(a));
        assert(r1.contains(b));
        let ia: int = choose|k: int| 0 <= k < r2.len() && r2[k] == a;
        let ib: int = choose|k: int| 0 <= k < r1.len() && r1[k] == b;
        if a < b {
            assert(ib < r1.len() - 1 ==> r1[ib] < r1[r1.len() - 1]);
        }
        if b < a {
            assert(ia < r2.len() - 1 ==> r2[ia] < r2[r2.len() - 1]);
        }
        assert(a == b);
        let pred2 = |i: int| pred(i) && i < a;
        let s1 = r1.drop_last();
        let s2 = r2.drop_last();
        assert forall|i: int| 0 <= i < n && #[trigger] pred2(i) implies s1.contains(i as usize) by {
            assert(r1.contains(i as usize));
            let k: int = choose|k: int| 0 <= k < r1.len() && r1[k] == i as usize;
            if k == r1.len() - 1 {
                assert(false);
            }
            assert(s1[k] == i as usize);
        }
        assert forall|i: int| 0 <= i < n && #[trigger] pred2(i) implies s2.contains(i as usize) by {
            assert(r2.contains(i as usize));
            let k: int = choose|k: int| 0 <= k < r2.len() && r2[k] == i as usize;
            if k == r2.len() - 1 {
                assert(false);
            }
            assert(s2[k] == i as usize);
        }
        assert forall|k: int| 0 <= k < s1.len() implies (#[trigger] s1[k]) < n && pred2(
            s1[k] as int,
        ) by {
            assert(r1[k] < r1[r1.len() - 1]);
        }
        assert forall|k: int| 0 <= k < s2.len() implies (#[trigger] s2[k]) < n && pred2(
            s2[k] as int,
        ) by {
            assert(r2[k] < r2[r2.len() - 1]);
        }
        law_selection_is_unique(s1, s2, n, pred2);
        assert(r1 =~= s1.push(a));
        assert(r2 =~= s2.push(b));
    }
}

} // verus!
