//! Picking the marked places out of a row.

use vstd::prelude::*;

verus! {

/// Whether `places` lists, in rising order, exactly the places of `marks`
/// that are set.
pub open spec fn lists_marked(places: Seq<usize>, marks: Seq<bool>) -> bool {
    &&& forall|k: int|
        0 <= k < places.len() ==> (#[trigger] places[k]) < marks.len() && marks[places[k] as int]
    &&& forall|j: int, k: int| 0 <= j < k < places.len() ==> places[j] < places[k]
    &&& forall|i: int| 0 <= i < marks.len() && #[trigger] marks[i] ==> places.contains(i as usize)
}

/// Whether any mark is set.
pub open spec fn any_marked(marks: Seq<bool>) -> bool {
    exists|i: int| 0 <= i < marks.len() && #[trigger] marks[i]
}

/// The places of `marks` that are set, in rising order.
pub fn marked_places(marks: &Vec<bool>) -> (places: Vec<usize>)
    ensures
        lists_marked(places@, marks@),
{
    let mut places: Vec<usize> = Vec::new();
    let mut i: usize = 0;
    while i < marks.len()
        invariant
            i <= marks.len(),
            forall|k: int|
                0 <= k < places.len() ==> (#[trigger] places[k]) < i && marks[places[k] as int],
            forall|j: int, k: int| 0 <= j < k < places.len() ==> places[j] < places[k],
            forall|n: int| 0 <= n < i && #[trigger] marks[n] ==> places@.contains(n as usize),
        decreases marks.len() - i,
    {
        let ghost before = places@;
        if marks[i] {
            places.push(i);
            proof {
                assert(places@[places.len() - 1] == i);
                assert forall|n: int| 0 <= n < i + 1 && #[trigger] marks[n] implies places@.contains(
                    n as usize,
                ) by {
                    if n < i {
                        let k = choose|k: int| 0 <= k < before.len() && before[k] == n as usize;
                        assert(places@[k] == n as usize);
                    }
                }
            }
        }
        i += 1;
    }
    places
}

/// Whether any of `marks` is set.
pub fn has_marked(marks: &Vec<bool>) -> (found: bool)
    ensures
        found == any_marked(marks@),
{
    let mut i: usize = 0;
    while i < marks.len()
        invariant
            i <= marks.len(),
            forall|n: int| 0 <= n < i ==> !#[trigger] marks[n],
        decreases marks.len() - i,
    {
        if marks[i] {
            return true;
        }
        i += 1;
    }
    false
}

/// Only one list of places fits a row of marks.
pub proof fn lists_marked_unique(first: Seq<usize>, second: Seq<usize>, marks: Seq<bool>)
    requires
        lists_marked(first, marks),
        lists_marked(second, marks),
    ensures
        first == second,
    decreases first.len() + second.len(),
{
    if first.len() == 0 || second.len() == 0 {
        if first.len() > 0 {
            assert(marks[first[0] as int]);
            assert(second.contains(first[0]));
        }
        if second.len() > 0 {
            assert(marks[second[0] as int]);
            assert(first.contains(second[0]));
        }
        assert(first =~= second);
    } else {
        let a = first.last();
        let b = second.last();
        assert(marks[a as int] && marks[b as int]);
        assert(second.contains(a) && first.contains(b));
        let ka = choose|k: int| 0 <= k < second.len() && second[k] == a;
        let kb = choose|k: int| 0 <= k < first.len() && first[k] == b;
        assert(a == b) by {
            if ka < second.len() - 1 {
                assert(second[ka] < second[second.len() - 1]);
            }
            if kb < first.len() - 1 {
                assert(first[kb] < first[first.len() - 1]);
            }
        }
        let marks_below = Seq::new(marks.len(), |i: int| i < a && marks[i]);
        let f = first.drop_last();
        let s = second.drop_last();
        assert(lists_marked(f, marks_below)) by {
            assert forall|k: int| 0 <= k < f.len() implies (#[trigger] f[k]) < marks_below.len()
                && marks_below[f[k] as int] by {
                assert(f[k] == first[k]);
                assert(first[k] < first[first.len() - 1]);
            }
            assert forall|j: int, k: int| 0 <= j < k < f.len() implies f[j] < f[k] by {
                assert(f[j] == first[j] && f[k] == first[k]);
            }
            assert forall|i: int| 0 <= i < marks_below.len() && #[trigger] marks_below[i] implies f.contains(
                i as usize,
            ) by {
                assert(marks[i]);
                let k = choose|k: int| 0 <= k < first.len() && first[k] == i as usize;
                assert(f[k] == i as usize);
            }
        }
        assert(lists_marked(s, marks_below)) by {
            assert forall|k: int| 0 <= k < s.len() implies (#[trigger] s[k]) < marks_below.len()
                && marks_below[s[k] as int] by {
                assert(s[k] == second[k]);
                assert(second[k] < second[second.len() - 1]);
            }
            assert forall|j: int, k: int| 0 <= j < k < s.len() implies s[j] < s[k] by {
                assert(s[j] == second[j] && s[k] == second[k]);
            }
            assert forall|i: int| 0 <= i < marks_below.len() && #[trigger] marks_below[i] implies s.contains(
                i as usize,
            ) by {
                assert(marks[i]);
                let k = choose|k: int| 0 <= k < second.len() && second[k] == i as usize;
                assert(s[k] == i as usize);
            }
        }
        lists_marked_unique(f, s, marks_below);
        assert(first =~= f.push(a));
        assert(second =~= s.push(b));
    }
}

} // verus!
