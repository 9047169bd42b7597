use vstd::prelude::*;

verus! {

/// Which optional adjacency array failed the length rule, named by the
/// abbreviation of the (array, owning entity) pair.
#[derive(Clone, Copy, Debug, PartialEq, Eq, Structural)]
pub enum LengthPair {
    VV,
    VE,
    VF,
    EF,
    EA,
    EFA,
    EL,
    FE,
    FF,
}

/// Which array held an index that falls outside its target entity space.
#[derive(Clone, Copy, Debug, PartialEq, Eq, Structural)]
pub enum RefArray {
    VV,
    VE,
    VF,
    EV,
    EF,
    EO,
    FV,
    FE,
    FF,
    FO,
}

/// Which dual-array pair failed the mutual-consistency rule.
#[derive(Clone, Copy, Debug, PartialEq, Eq, Structural)]
pub enum ReflexivePair {
    VVWithVV,
    VEWithEV,
    VFWithFV,
    EFWithFE,
    FFWithFF,
}

/// Which pair of rotational-order arrays disagreed.
#[derive(Clone, Copy, Debug, PartialEq, Eq, Structural)]
pub enum WindingPair {
    VVVE,
    VVVF,
    VEVF,
    FVFE,
    FVFF,
    FEFF,
}

/// Which of the two order-relation lists a faulty triple sits in.
#[derive(Clone, Copy, Debug, PartialEq, Eq, Structural)]
pub enum OrderList {
    Edges,
    Faces,
}

/// Every way a document can fail validation, as one tagged union.
#[derive(Clone, Copy, Debug, PartialEq, Eq, Structural)]
pub enum Error {
    /// A frame's `parent` index points outside the document:
    /// (child frame, missing parent index).
    MissingParent(usize, usize),
    /// Walking a frame's parent chain revisits a frame already seen.
    InfiniteParents(usize),
    /// A vertex's coordinate vector differs in dimension from vertex 0's.
    NonUniformCoordinateDimension(usize),
    /// An edge's length is negative.
    NegativeLength(usize),
    /// An order-relation triple relates an entity to itself, at this position.
    DegenerateOrderPair(OrderList, usize),
    /// An order-relation triple repeats an earlier unordered pair, at this position.
    DuplicateOrderPair(OrderList, usize),
    /// A face has fewer than three vertices.
    DegenerateFace(usize),
    /// A present adjacency array's length differs from its owner's entity count.
    LengthMismatch(LengthPair),
    /// An index stored in an array is not below the count of the entity kind
    /// it targets: (array, offending index, bound).
    OutOfRangeReference(RefArray, usize, usize),
    /// A dual-array pair records a relation in one direction only.
    ReflexiveMismatch(ReflexivePair),
    /// Two arrays that both encode a rotational order around the same entity
    /// disagree at some position.
    WindingMismatch(WindingPair),
    /// An edge's crease assignment disagrees in sign with its fold angle.
    AssignmentAngleMismatch(usize),
}

} // verus!
