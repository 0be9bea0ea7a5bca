use vstd::prelude::*;

use crate::strip::{generate_strip_indices, strip_indices, MAX_STRIP_SAMPLES};

verus! {

/// Links of a lane to the lanes before and after it.
#[derive(Clone, Copy, Debug, PartialEq, Eq, Structural)]
pub struct OdrLaneLink {
    pub predecessor: Option<i32>,
    pub successor: Option<i32>,
}

impl OdrLaneLink {
    pub fn new(predecessor: Option<i32>, successor: Option<i32>) -> (r: Self)
        ensures
            r.predecessor == predecessor,
            r.successor == successor,
    {
        OdrLaneLink { predecessor, successor }
    }

    pub fn has_predecessor(&self) -> (r: bool)
        ensures
            r == self.predecessor is Some,
    {
        self.predecessor.is_some()
    }

    pub fn has_successor(&self) -> (r: bool)
        ensures
            r == self.successor is Some,
    {
        self.successor.is_some()
    }

    pub fn is_connected(&self) -> (r: bool)
        ensures
            r == (self.predecessor is Some || self.successor is Some),
    {
        self.has_predecessor() || self.has_successor()
    }
}

/// Lane `other` lies strictly between the reference line and lane `lane_id`,
/// on the same side: its width counts towards the inner offset of `lane_id`.
pub open spec fn is_inner_to(other: i32, lane_id: i32) -> bool {
    (lane_id > 0 && 0 < other && other < lane_id) || (lane_id < 0 && lane_id < other && other < 0)
}

/// The test of `is_inner_to` against lane `lane_id`, as a predicate.
pub open spec fn inner_pred(lane_id: i32) -> spec_fn(i32) -> bool {
    |x: i32| is_inner_to(x, lane_id)
}

/// The ids of `ids` whose lanes lie inside lane `lane_id`, in list order.
pub open spec fn inner_ids(ids: Seq<i32>, lane_id: i32) -> Seq<i32> {
    ids.filter(inner_pred(lane_id))
}

/// Positions, in increasing order, of the lanes of one side of a section
/// (`side_ids` holds their ids in list order) whose widths add up to the
/// inner offset of lane `lane_id`: those strictly between the reference line
/// and that lane. The centre lane has none.
pub fn inner_lane_positions(side_ids: &Vec<i32>, lane_id: i32) -> (r: Vec<usize>)
    ensures
        r@.len() == inner_ids(side_ids@, lane_id).len(),
        forall|k: int| 0 <= k < r@.len() ==> r@[k] < side_ids@.len(),
        forall|k: int|
            0 <= k < r@.len() ==> side_ids@[r@[k] as int] == #[trigger] inner_ids(
                side_ids@,
                lane_id,
            )[k],
        forall|k: int, l: int| 0 <= k < l < r@.len() ==> r@[k] < r@[l],
        forall|p: int|
            0 <= p < side_ids@.len() && is_inner_to(#[trigger] side_ids@[p], lane_id) ==> exists|
                k: int,
            | 0 <= k < r@.len() && r@[k] == p,
{
    let ghost pred = inner_pred(lane_id);
    let mut out: Vec<usize> = Vec::new();
    let mut i: usize = 0;
    while i < side_ids.len()
        invariant
            i <= side_ids@.len(),
            pred == inner_pred(lane_id),
            out@.len() == side_ids@.take(i as int).filter(pred).len(),
            forall|k: int| 0 <= k < out@.len() ==> out@[k] < i,
            forall|k: int|
                0 <= k < out@.len() ==> side_ids@[out@[k] as int] == #[trigger] side_ids@.take(
                    i as int,
                ).filter(pred)[k],
            forall|k: int, l: int| 0 <= k < l < out@.len() ==> out@[k] < out@[l],
            forall|p: int|
                0 <= p < i && is_inner_to(#[trigger] side_ids@[p], lane_id) ==> exists|k: int|
                    0 <= k < out@.len() && out@[k] == p,
        decreases side_ids@.len() - i,
    {
        let ghost s = side_ids@;
        let ghost prev = s.take(i as int).filter(pred);
        proof {
            assert(s.take(i as int + 1) == s.take(i as int).push(s[i as int]));
            s.take(i as int).lemma_filter_push(s[i as int], pred);
        }
        let ghost before = out@;
        let id = side_ids[i];
        assert(pred(id) == is_inner_to(id, lane_id));
        if (lane_id > 0 && 0 < id && id < lane_id) || (lane_id < 0 && lane_id < id && id < 0) {
            out.push(i);
            proof {
                let n = before.len() as int;
                assert(s.take(i as int + 1).filter(pred) == prev.push(id));
                assert(forall|k: int| 0 <= k < n ==> out@[k] == before[k]);
                assert(out@[n] == i);
                assert forall|k: int|
                    0 <= k < out@.len() implies s[out@[k] as int]
                        == #[trigger] s.take(i as int + 1).filter(pred)[k] by {
                    if k < n {
                        assert(out@[k] == before[k]);
                        assert(s[before[k] as int] == prev[k]);
                    }
                }
                assert forall|p: int|
                    0 <= p < i + 1 && is_inner_to(#[trigger] s[p], lane_id) implies exists|k: int|
                        0 <= k < out@.len() && out@[k] == p by {
                    if p == i {
                        assert(out@[n] == p);
                    }
                }
            }
        } else {
            assert(s.take(i as int + 1).filter(pred) == prev);
            assert forall|k: int|
                0 <= k < out@.len() implies s[out@[k] as int]
                    == #[trigger] s.take(i as int + 1).filter(pred)[k] by {
                assert(s[out@[k] as int] == prev[k]);
            }
        }
        i = i + 1;
    }
    assert(side_ids@.take(i as int) == side_ids@);
    assert(inner_ids(side_ids@, lane_id) == side_ids@.take(i as int).filter(pred));
    out
}

/// The inner lanes of lane `lane_id` form the same multiset of ids whatever
/// the order in which the section stores its lanes.
pub proof fn lemma_inner_ids_order_free(a: Seq<i32>, b: Seq<i32>, lane_id: i32)
    requires
        a.to_multiset() == b.to_multiset(),
    ensures
        inner_ids(a, lane_id).to_multiset() == inner_ids(b, lane_id).to_multiset(),
{
    assert forall|x: i32| #[trigger]
        inner_ids(a, lane_id).to_multiset().count(x) == inner_ids(b, lane_id).to_multiset().count(
            x,
        ) by {
        lemma_inner_ids_count(a, lane_id, x);
        lemma_inner_ids_count(b, lane_id, x);
    }
    assert(inner_ids(a, lane_id).to_multiset() =~= inner_ids(b, lane_id).to_multiset());
}

/// How often `x` occurs among the inner ids: as often as in `s` where it is an
/// inner lane, never otherwise.
pub proof fn lemma_inner_ids_count(s: Seq<i32>, lane_id: i32, x: i32)
    ensures
        inner_ids(s, lane_id).to_multiset().count(x) == if is_inner_to(x, lane_id) {
            s.to_multiset().count(x)
        } else {
            0
        },
    decreases s.len(),
{
    broadcast use vstd::seq_lib::group_to_multiset_ensures;

    let pred = inner_pred(lane_id);
    if s.len() == 0 {
        assert(s.filter(pred) =~= Seq::<i32>::empty());
    } else {
        let init = s.drop_last();
        let last = s.last();
        assert(s == init.push(last));
        init.lemma_filter_push(last, pred);
        lemma_inner_ids_count(init, lane_id, x);
    }
}

/// Sign of the side of lane `lane_id`: `1` left of the reference line, `-1`
/// right of it, `0` for the centre lane. The outer boundary of a lane lies
/// its width away from the inner one in this direction.
pub fn lane_side_sign(lane_id: i32) -> (r: i8)
    ensures
        r == (if lane_id > 0 {
            1i8
        } else if lane_id < 0 {
            -1i8
        } else {
            0i8
        }),
{
    if lane_id > 0 {
        1
    } else if lane_id < 0 {
        -1
    } else {
        0
    }
}

/// Sign of the normal along which a road mark of lane `lane_id` is shifted:
/// `1` for left lanes and the centre lane, `-1` for right lanes.
pub fn mark_normal_sign(lane_id: i32) -> (r: i8)
    ensures
        r == (if lane_id >= 0 {
            1i8
        } else {
            -1i8
        }),
{
    if lane_id >= 0 {
        1
    } else {
        -1
    }
}

/// Triangle indices of the surface strip of lane `lane_id` over
/// `num_samples` samples: none for the centre lane, which has no surface.
pub fn lane_strip_indices(lane_id: i32, num_samples: usize) -> (r: Vec<u16>)
    requires
        1 <= num_samples <= MAX_STRIP_SAMPLES,
    ensures
        lane_id == 0 ==> r@.len() == 0,
        lane_id != 0 ==> r@.len() == 6 * (num_samples - 1),
        lane_id != 0 ==> forall|j: int|
            0 <= j < r@.len() ==> r@[j] as int == strip_indices(num_samples as int)[j],
        forall|j: int| 0 <= j < r@.len() ==> r@[j] < 2 * num_samples,
{
    if lane_id == 0 {
        Vec::new()
    } else {
        generate_strip_indices(num_samples)
    }
}

} // verus!
