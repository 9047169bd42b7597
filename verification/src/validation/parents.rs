use vstd::prelude::*;

use crate::error::Error;
use crate::fold::frame_parents_check;
use crate::fold::lemma_visited_init;
use crate::fold::lemma_visited_push;
use crate::fold::parents_walk;
use crate::fold::Fold;
use crate::util::contains_usize;

verus! {

broadcast use vstd::seq::group_seq_axioms, vstd::set::group_set_axioms;

/// Walk the raw parent chain from `frame_index`, whatever the frames'
/// inherit flags say: `MissingParent` when a parent index leaves the
/// document, `InfiniteParents` when the chain revisits a frame.
pub fn validate_frame_parents(fold: &Fold, frame_index: usize) -> (r: Result<(), Error>)
    requires
        frame_index < fold@.frame_count(),
    ensures
        r == frame_parents_check(fold@, frame_index),
{
    let ghost doc = fold@;
    let ghost count = fold@.frame_count();
    let mut cur: &crate::frame::Frame = if frame_index == 0 {
        &fold.key_frame
    } else {
        &fold.frames[frame_index - 1]
    };
    let mut visited: Vec<usize> = Vec::new();
    visited.push(frame_index);
    let ghost mut vs: Set<int> = Set::empty().insert(frame_index as int);
    let ghost mut fuelg: nat = fold@.frame_count();
    proof {
        assert(cur@ == doc.frame_at(frame_index as int));
        lemma_visited_init(frame_index);
        assert(visited@ =~= Seq::<usize>::empty().push(frame_index));
    }
    loop
        invariant
            doc == fold@,
            count == doc.frame_count(),
            frame_index < count,
            vs.finite(),
            vs.subset_of(vstd::set_lib::set_int_range(0, count as int)),
            fuelg + vs.len() == count + 1,
            forall|x: usize| #[trigger] vs.contains(x as int) == visited@.contains(x),
            frame_parents_check(doc, frame_index) == (match parents_walk(
                doc,
                frame_index,
                cur@,
                vs,
                fuelg,
            ) {
                Ok(parents) => Ok::<(), Error>(()),
                Err(e) => Err::<(), Error>(e),
            }),
        decreases fuelg,
    {
        match cur.parent {
            None => {
                return Ok(());
            },
            Some(p) => {
                if p > fold.frames.len() {
                    return Err(Error::MissingParent(frame_index, p));
                }
                if contains_usize(&visited, p) {
                    return Err(Error::InfiniteParents(frame_index));
                }
                proof {
                    vstd::set_lib::lemma_int_range(0, count as int);
                    vstd::set_lib::lemma_len_subset(
                        vs,
                        vstd::set_lib::set_int_range(0, count as int),
                    );
                }
                let ghost visited0 = visited@;
                visited.push(p);
                let parent: &crate::frame::Frame = if p == 0 {
                    &fold.key_frame
                } else {
                    &fold.frames[p - 1]
                };
                proof {
                    lemma_visited_push(visited0, vs, p);
                    vs = vs.insert(p as int);
                    fuelg = (fuelg - 1) as nat;
                }
                cur = parent;
            },
        }
    }
}

} // verus!
