use vstd::prelude::*;

use crate::error::Error;
use crate::frame::Frame;
use crate::frame::FrameView;
use crate::util::contains_usize;
use crate::util::strings_view;
use crate::validation::orchestrator::graph_validate_spec;

verus! {

broadcast use vstd::seq::group_seq_axioms, vstd::set::group_set_axioms;

/// What kind of document this is.
#[derive(Clone, Copy, Debug)]
pub enum FoldClass {
    SingleModel,
    MultiModel,
    Animation,
    Diagrams,
}

/// A whole document: file metadata, the always-present key frame, and any
/// number of subsequent frames. Frame indices count the key frame as 0 and
/// the subsequent frames from 1.
pub struct Fold {
    pub version: String,
    pub creator: String,
    pub author: String,
    pub title: String,
    pub description: String,
    pub classes: Vec<String>,
    pub key_frame: Frame,
    pub frames: Vec<Frame>,
}

/// The mathematical contents of a vector of frames.
pub open spec fn frames_view(s: Seq<Frame>) -> Seq<FrameView> {
    s.map_values(|f: Frame| f@)
}

/// The mathematical content of a [`Fold`] document.
#[verifier::ext_equal]
pub ghost struct FoldView {
    pub version: Seq<char>,
    pub creator: Seq<char>,
    pub author: Seq<char>,
    pub title: Seq<char>,
    pub description: Seq<char>,
    pub classes: Seq<Seq<char>>,
    pub key_frame: FrameView,
    pub frames: Seq<FrameView>,
}

impl View for Fold {
    type V = FoldView;

    open spec fn view(&self) -> FoldView {
        FoldView {
            version: self.version@,
            creator: self.creator@,
            author: self.author@,
            title: self.title@,
            description: self.description@,
            classes: strings_view(self.classes@),
            key_frame: self.key_frame@,
            frames: frames_view(self.frames@),
        }
    }
}

impl FoldView {
    /// How many frames the document has: the key frame plus the subsequent
    /// ones.
    pub open spec fn frame_count(self) -> nat {
        self.frames.len() + 1
    }

    /// The frame at a position: 0 is the key frame.
    pub open spec fn frame_at(self, i: int) -> FrameView {
        if i == 0 {
            self.key_frame
        } else {
            self.frames[i - 1]
        }
    }
}

/// The resolver's walk up the parent chain, from an accumulator `acc` and
/// the current frame `cur`, with `visited` the set of frame indices already
/// seen. A parent index outside the document fails with `MissingParent`; one
/// already seen fails with `InfiniteParents`; otherwise the parent's fields
/// are merged into the accumulator, and the walk continues only while the
/// parent itself opts into inheritance. The fuel bounds the recursion; with
/// fuel at least `frame_count - visited.len() + 1` and every visited index
/// in range it never runs out, since each step visits a fresh index.
pub open spec fn resolve_walk(
    doc: FoldView,
    origin: usize,
    acc: FrameView,
    cur: FrameView,
    visited: Set<int>,
    fuel: nat,
) -> Result<FrameView, Error>
    decreases fuel,
{
    match cur.parent {
        None => Ok(acc),
        Some(p) => {
            if p >= doc.frame_count() {
                Err(Error::MissingParent(origin, p))
            } else if visited.contains(p as int) {
                Err(Error::InfiniteParents(origin))
            } else if fuel == 0 {
                Err(Error::InfiniteParents(origin))
            } else {
                let parent = doc.frame_at(p as int);
                let acc2 = FrameView::merged(acc, parent);
                if !parent.inherit {
                    Ok(acc2)
                } else {
                    resolve_walk(doc, origin, acc2, parent, visited.insert(p as int), (fuel
                        - 1) as nat)
                }
            }
        },
    }
}

/// The effective frame at `frame_index` after inheritance: the frame itself
/// when it does not opt into inheritance, else the result of walking its
/// parent chain and filling each unset field from the nearest ancestor that
/// sets it.
pub open spec fn resolve_spec(doc: FoldView, frame_index: usize) -> Result<FrameView, Error> {
    let frame = doc.frame_at(frame_index as int);
    if !frame.inherit {
        Ok(frame)
    } else {
        resolve_walk(
            doc,
            frame_index,
            frame,
            frame,
            Set::empty().insert(frame_index as int),
            doc.frame_count(),
        )
    }
}

/// The walk up the raw parent chain from `cur`, collecting each parent in
/// order, whatever the frames' inherit flags say: `MissingParent` when a
/// parent index leaves the document, `InfiniteParents` when the chain bites
/// its own tail.
pub open spec fn parents_walk(
    doc: FoldView,
    origin: usize,
    cur: FrameView,
    visited: Set<int>,
    fuel: nat,
) -> Result<Seq<FrameView>, Error>
    decreases fuel,
{
    match cur.parent {
        None => Ok(Seq::empty()),
        Some(p) => {
            if p >= doc.frame_count() {
                Err(Error::MissingParent(origin, p))
            } else if visited.contains(p as int) {
                Err(Error::InfiniteParents(origin))
            } else if fuel == 0 {
                Err(Error::InfiniteParents(origin))
            } else {
                let parent = doc.frame_at(p as int);
                match parents_walk(doc, origin, parent, visited.insert(p as int), (fuel
                    - 1) as nat) {
                    Ok(rest) => Ok(seq![parent] + rest),
                    Err(e) => Err(e),
                }
            }
        },
    }
}

/// Whether the raw parent chain from `frame_index` stays inside the document
/// and never revisits a frame.
pub open spec fn frame_parents_check(doc: FoldView, frame_index: usize) -> Result<(), Error> {
    match parents_walk(
        doc,
        frame_index,
        doc.frame_at(frame_index as int),
        Set::empty().insert(frame_index as int),
        doc.frame_count(),
    ) {
        Ok(parents) => Ok(()),
        Err(e) => Err(e),
    }
}

/// One frame's full validation: resolve inheritance, then run the graph
/// checks on the resolved frame.
pub open spec fn frame_validate_spec(doc: FoldView, frame_index: usize) -> Result<(), Error> {
    match resolve_spec(doc, frame_index) {
        Ok(f) => graph_validate_spec(f.graph),
        Err(e) => Err(e),
    }
}

/// Document validation from frame `i` on: the first frame that fails decides
/// the result.
pub open spec fn fold_validate_from(doc: FoldView, i: int) -> Result<(), Error>
    decreases doc.frame_count() - i,
{
    if i < 0 || i >= doc.frame_count() {
        Ok(())
    } else {
        match frame_validate_spec(doc, i as usize) {
            Err(e) => Err(e),
            Ok(u) => fold_validate_from(doc, i + 1),
        }
    }
}

/// A document is valid when every frame, key frame first, resolves and
/// passes every graph check.
pub open spec fn fold_validate_spec(doc: FoldView) -> Result<(), Error> {
    fold_validate_from(doc, 0)
}



/// The visited list and the visited set track the same frame indices, after
/// seeding them with the origin.
pub(crate) proof fn lemma_visited_init(p: usize)
    ensures
        forall|x: usize| #[trigger]
            Set::empty().insert(p as int).contains(x as int) == Seq::<usize>::empty().push(
                p,
            ).contains(x),
{
    assert forall|x: usize| #[trigger]
        Set::empty().insert(p as int).contains(x as int) == Seq::<usize>::empty().push(p).contains(
            x,
        ) by {
        let s1 = Seq::<usize>::empty().push(p);
        if Set::empty().insert(p as int).contains(x as int) {
            assert(x == p);
            assert(s1[0] == x);
            assert(s1.contains(x));
        } else {
            if s1.contains(x) {
                let i = choose|i: int| 0 <= i < s1.len() && s1[i] == x;
                assert(x == p);
                assert(false);
            }
        }
    }
}

/// The visited list and the visited set still track the same frame indices
/// after recording one more.
pub(crate) proof fn lemma_visited_push(visited0: Seq<usize>, vs0: Set<int>, p: usize)
    requires
        forall|x: usize| #[trigger] vs0.contains(x as int) == visited0.contains(x),
    ensures
        forall|x: usize| #[trigger]
            vs0.insert(p as int).contains(x as int) == visited0.push(p).contains(x),
{
    assert forall|x: usize| #[trigger]
        vs0.insert(p as int).contains(x as int) == visited0.push(p).contains(x) by {
        let s1 = visited0.push(p);
        if vs0.insert(p as int).contains(x as int) {
            if x == p {
                assert(s1[s1.len() - 1] == x);
                assert(s1.contains(x));
            } else {
                assert(vs0.contains(x as int));
                assert(visited0.contains(x));
                let i = choose|i: int| 0 <= i < visited0.len() && visited0[i] == x;
                assert(s1[i] == x);
                assert(s1.contains(x));
            }
        } else {
            if s1.contains(x) {
                let i = choose|i: int| 0 <= i < s1.len() && s1[i] == x;
                if i < visited0.len() {
                    assert(visited0[i] == x);
                    assert(visited0.contains(x));
                } else {
                    assert(x == p);
                }
                assert(false);
            }
        }
    }
}

/// The parent frames collected along the raw chain from `frame_index`.
pub open spec fn frame_parents_spec(doc: FoldView, frame_index: usize) -> Result<
    Seq<FrameView>,
    Error,
> {
    parents_walk(
        doc,
        frame_index,
        doc.frame_at(frame_index as int),
        Set::empty().insert(frame_index as int),
        doc.frame_count(),
    )
}

/// The frame that `frame_index`'s parent link points to, when it exists.
pub open spec fn parent_of(doc: FoldView, frame_index: usize) -> Option<FrameView> {
    if frame_index >= doc.frame_count() {
        None
    } else {
        match doc.frame_at(frame_index as int).parent {
            Some(id) => if id < doc.frame_count() {
                Some(doc.frame_at(id as int))
            } else {
                None
            },
            None => None,
        }
    }
}

/// The mathematical contents of a vector of frame references.
pub open spec fn parent_refs_view(s: Seq<&Frame>) -> Seq<FrameView> {
    s.map_values(|f: &Frame| f@)
}

impl FoldView {
    /// A document holding only the format version and an unset key frame.
    pub open spec fn initial() -> FoldView {
        FoldView {
            version: "1.2"@,
            creator: Seq::empty(),
            author: Seq::empty(),
            title: Seq::empty(),
            description: Seq::empty(),
            classes: Seq::empty(),
            key_frame: FrameView::empty(),
            frames: Seq::empty(),
        }
    }
}

impl Default for Fold {
    fn default() -> (r: Self)
        ensures
            r@ == FoldView::initial(),
    {
        let r = Fold {
            version: "1.2".to_owned(),
            creator: String::new(),
            author: String::new(),
            title: String::new(),
            description: String::new(),
            classes: Vec::new(),
            key_frame: Frame::new(),
            frames: Vec::new(),
        };
        proof {
            assert(r@ =~~= FoldView::initial());
        }
        r
    }
}

impl Fold {
    /// A document holding only the format version and an unset key frame.
    pub fn new() -> (r: Self)
        ensures
            r@ == FoldView::initial(),
    {
        Self::default()
    }

    /// The frame at `frame_index`: 0 names the key frame, higher indices the
    /// subsequent frames in order.
    pub fn get_frame(&self, frame_index: usize) -> (r: Option<&Frame>)
        ensures
            match r {
                Some(f) => frame_index < self@.frame_count() && f@ == self@.frame_at(
                    frame_index as int,
                ),
                None => frame_index >= self@.frame_count(),
            },
    {
        if frame_index == 0 {
            Some(&self.key_frame)
        } else if frame_index - 1 < self.frames.len() {
            Some(&self.frames[frame_index - 1])
        } else {
            None
        }
    }

    /// The frame that `frame_index`'s parent link points to, when both the
    /// frame and its parent exist.
    pub fn get_frame_parent(&self, frame_index: usize) -> (r: Option<&Frame>)
        ensures
            match r {
                Some(f) => parent_of(self@, frame_index) == Some(f@),
                None => parent_of(self@, frame_index) is None,
            },
    {
        match self.get_frame(frame_index) {
            Some(frame) => match frame.parent {
                Some(id) => self.get_frame(id),
                None => None,
            },
            None => None,
        }
    }

    /// Every parent along the raw chain from `frame_index`, nearest first;
    /// nothing when a parent index leaves the document. A chain that bites
    /// its own tail is excluded up front: on it this walk would not end.
    pub fn get_frame_parents(&self, frame_index: usize) -> (r: Option<Vec<&Frame>>)
        requires
            frame_index < self@.frame_count(),
            frame_parents_check(self@, frame_index) != Err::<(), Error>(
                Error::InfiniteParents(frame_index),
            ),
        ensures
            match r {
                Some(v) => frame_parents_spec(self@, frame_index) == Ok::<Seq<FrameView>, Error>(
                    parent_refs_view(v@),
                ),
                None => frame_parents_spec(self@, frame_index) is Err,
            },
    {
        let ghost doc = self@;
        let ghost count = self@.frame_count();
        let mut cur: &Frame = if frame_index == 0 {
            &self.key_frame
        } else {
            &self.frames[frame_index - 1]
        };
        let mut out: Vec<&Frame> = Vec::new();
        let mut visited: Vec<usize> = Vec::new();
        visited.push(frame_index);
        let ghost mut vs: Set<int> = Set::empty().insert(frame_index as int);
        let ghost mut fuelg: nat = self@.frame_count();
        proof {
            assert(cur@ == doc.frame_at(frame_index as int));
            assert(parent_refs_view(out@) =~~= Seq::<FrameView>::empty());
            lemma_visited_init(frame_index);
            assert(visited@ =~= Seq::<usize>::empty().push(frame_index));
        }
        loop
            invariant
                doc == self@,
                count == doc.frame_count(),
                frame_index < count,
                frame_parents_check(doc, frame_index) != Err::<(), Error>(
                    Error::InfiniteParents(frame_index),
                ),
                vs.finite(),
                vs.subset_of(vstd::set_lib::set_int_range(0, count as int)),
                fuelg + vs.len() == count + 1,
                forall|x: usize| #[trigger] vs.contains(x as int) == visited@.contains(x),
                (match parents_walk(doc, frame_index, cur@, vs, fuelg) {
                    Ok(rest) => frame_parents_spec(doc, frame_index) == Ok::<Seq<FrameView>, Error>(
                        parent_refs_view(out@) + rest,
                    ),
                    Err(e) => frame_parents_spec(doc, frame_index) == Err::<Seq<FrameView>, Error>(
                        e,
                    ),
                }),
            decreases fuelg,
        {
            match cur.parent {
                None => {
                    proof {
                        assert(parent_refs_view(out@) + Seq::<FrameView>::empty() =~~=
                        parent_refs_view(out@));
                    }
                    return Some(out);
                },
                Some(p) => {
                    if p > self.frames.len() {
                        return None;
                    }
                    if contains_usize(&visited, p) {
                        proof {
                            assert(frame_parents_check(doc, frame_index) == Err::<(), Error>(
                                Error::InfiniteParents(frame_index),
                            ));
                            assert(false);
                        }
                        return None;
                    }
                    proof {
                        vstd::set_lib::lemma_int_range(0, count as int);
                        vstd::set_lib::lemma_len_subset(
                            vs,
                            vstd::set_lib::set_int_range(0, count as int),
                        );
                    }
                    let ghost visited0 = visited@;
                    visited.push(p);
                    let parent: &Frame = if p == 0 {
                        &self.key_frame
                    } else {
                        &self.frames[p - 1]
                    };
                    let ghost rest0 = parents_walk(
                        doc,
                        frame_index,
                        parent@,
                        vs.insert(p as int),
                        (fuelg - 1) as nat,
                    );
                    let ghost out0 = out@;
                    out.push(parent);
                    proof {
                        lemma_visited_push(visited0, vs, p);
                        vs = vs.insert(p as int);
                        fuelg = (fuelg - 1) as nat;
                        assert(vs.subset_of(vstd::set_lib::set_int_range(0, count as int)));
                        match rest0 {
                            Ok(rest) => {
                                assert(parent_refs_view(out@) =~~= parent_refs_view(out0) + seq![
                                    parent@,
                                ]);
                                assert((parent_refs_view(out0) + seq![parent@]) + rest =~~=
                                parent_refs_view(out0) + (seq![parent@] + rest));
                            },
                            Err(e) => {},
                        }
                    }
                    cur = parent;
                },
            }
        }
    }

    /// The effective frame at `frame_index` once inheritance is applied: the
    /// frame itself when it does not inherit, else the frame with each unset
    /// field filled from the nearest ancestor that sets it. Fails with
    /// `MissingParent` when a parent index leaves the document and with
    /// `InfiniteParents` when the walk revisits a frame.
    pub fn get_inherited_frame(&self, frame_index: usize) -> (r: Result<Frame, Error>)
        requires
            frame_index < self@.frame_count(),
        ensures
            match r {
                Ok(f) => resolve_spec(self@, frame_index) == Ok::<FrameView, Error>(f@),
                Err(e) => resolve_spec(self@, frame_index) == Err::<FrameView, Error>(e),
            },
    {
        let ghost doc = self@;
        let ghost count = self@.frame_count();
        let mut cur: &Frame = if frame_index == 0 {
            &self.key_frame
        } else {
            &self.frames[frame_index - 1]
        };
        proof {
            assert(cur@ == doc.frame_at(frame_index as int));
        }
        if !cur.inherit {
            return Ok(cur.clone());
        }
        let mut acc = cur.clone();
        let mut visited: Vec<usize> = Vec::new();
        visited.push(frame_index);
        let ghost mut vs: Set<int> = Set::empty().insert(frame_index as int);
        let ghost mut fuelg: nat = self@.frame_count();
        proof {
            lemma_visited_init(frame_index);
            assert(visited@ =~= Seq::<usize>::empty().push(frame_index));
        }
        loop
            invariant
                doc == self@,
                count == doc.frame_count(),
                frame_index < count,
                vs.finite(),
                vs.subset_of(vstd::set_lib::set_int_range(0, count as int)),
                fuelg + vs.len() == count + 1,
                forall|x: usize| #[trigger] vs.contains(x as int) == visited@.contains(x),
                resolve_spec(doc, frame_index) == resolve_walk(
                    doc,
                    frame_index,
                    acc@,
                    cur@,
                    vs,
                    fuelg,
                ),
            decreases fuelg,
        {
            match cur.parent {
                None => {
                    return Ok(acc);
                },
                Some(p) => {
                    if p > self.frames.len() {
                        return Err(Error::MissingParent(frame_index, p));
                    }
                    if contains_usize(&visited, p) {
                        return Err(Error::InfiniteParents(frame_index));
                    }
                    proof {
                        vstd::set_lib::lemma_int_range(0, count as int);
                        vstd::set_lib::lemma_len_subset(
                            vs,
                            vstd::set_lib::set_int_range(0, count as int),
                        );
                    }
                    let ghost visited0 = visited@;
                    visited.push(p);
                    let parent: &Frame = if p == 0 {
                        &self.key_frame
                    } else {
                        &self.frames[p - 1]
                    };
                    acc.inherit_properties(parent);
                    if !parent.inherit {
                        return Ok(acc);
                    }
                    proof {
                        lemma_visited_push(visited0, vs, p);
                        vs = vs.insert(p as int);
                        fuelg = (fuelg - 1) as nat;
                    }
                    cur = parent;
                },
            }
        }
    }

    /// The resolved frame, or the failure of the resolver's walk, for every
    /// frame of the document in order.
    pub fn get_inherited_frames(&self) -> (r: Vec<Result<Frame, Error>>)
        ensures
            r@.len() == self@.frame_count(),
            forall|i: int|
                0 <= i < r@.len() ==> (match #[trigger] r@[i] {
                    Ok(f) => resolve_spec(self@, i as usize) == Ok::<FrameView, Error>(f@),
                    Err(e) => resolve_spec(self@, i as usize) == Err::<FrameView, Error>(e),
                }),
    {
        let mut out: Vec<Result<Frame, Error>> = Vec::new();
        out.push(self.get_inherited_frame(0));
        let mut k: usize = 0;
        while k < self.frames.len()
            invariant
                k <= self.frames@.len(),
                out@.len() == k + 1,
                forall|i: int|
                    0 <= i < out@.len() ==> (match #[trigger] out@[i] {
                        Ok(f) => resolve_spec(self@, i as usize) == Ok::<FrameView, Error>(f@),
                        Err(e) => resolve_spec(self@, i as usize) == Err::<FrameView, Error>(e),
                    }),
            decreases self.frames@.len() - k,
        {
            out.push(self.get_inherited_frame(k + 1));
            k += 1;
        }
        out
    }

    /// One frame's validation: resolve inheritance, then check the resolved
    /// frame's graph, reporting the first violated rule.
    pub fn validate_frame(&self, frame_index: usize) -> (r: Result<(), Error>)
        requires
            frame_index < self@.frame_count(),
        ensures
            r == frame_validate_spec(self@, frame_index),
    {
        match self.get_inherited_frame(frame_index) {
            Ok(frame) => frame.validate(),
            Err(e) => Err(e),
        }
    }

    /// Validate the whole document: every frame, key frame first, must
    /// resolve and pass every graph check; the first failure decides.
    pub fn validate(&self) -> (r: Result<(), Error>)
        ensures
            r == fold_validate_spec(self@),
    {
        match self.validate_frame(0) {
            Err(e) => {
                return Err(e);
            },
            Ok(u) => {},
        }
        let mut k: usize = 0;
        while k < self.frames.len()
            invariant
                k <= self.frames@.len(),
                fold_validate_from(self@, 0) == fold_validate_from(self@, k + 1),
            decreases self.frames@.len() - k,
        {
            match self.validate_frame(k + 1) {
                Err(e) => {
                    return Err(e);
                },
                Ok(u) => {},
            }
            k += 1;
        }
        Ok(())
    }
}

} // verus!
