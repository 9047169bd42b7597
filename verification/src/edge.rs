use vstd::prelude::*;

verus! {

/// An edge of the mesh: an unordered pair of vertex indices.
#[derive(Clone, Copy, Debug)]
pub struct Edge(pub usize, pub usize);

impl Edge {
    /// The edge joins `a` and `b`, in either orientation.
    pub open spec fn links(self, a: usize, b: usize) -> bool {
        (self.0 == a && self.1 == b) || (self.0 == b && self.1 == a)
    }

    /// The edge has `v` as one of its two endpoints.
    pub open spec fn touches(self, v: usize) -> bool {
        self.0 == v || self.1 == v
    }

    pub fn is_pair(&self, a: usize, b: usize) -> (r: bool)
        ensures
            r == self.links(a, b),
    {
        (self.0 == a && self.1 == b) || (self.0 == b && self.1 == a)
    }

    pub fn has_vertex(&self, v: usize) -> (r: bool)
        ensures
            r == self.touches(v),
    {
        self.0 == v || self.1 == v
    }
}

/// Two edges are equal when they join the same two vertices, whichever way
/// round their endpoints are stored.
impl PartialEq for Edge {
    fn eq(&self, other: &Self) -> (r: bool) {
        (self.0 == other.0 && self.1 == other.1) || (self.0 == other.1 && self.1 == other.0)
    }
}

impl vstd::std_specs::cmp::PartialEqSpecImpl for Edge {
    open spec fn obeys_eq_spec() -> bool {
        true
    }

    open spec fn eq_spec(&self, other: &Edge) -> bool {
        self.links(other.0, other.1)
    }
}

/// Steps through an edge's two endpoints, first one then the other.
pub struct EdgeIterator {
    pub edge: Edge,
    pub index: usize,
}

impl EdgeIterator {
    /// The next endpoint, or nothing once both have been handed out.
    pub fn next(&mut self) -> (r: Option<usize>)
        ensures
            final(self).edge == old(self).edge,
            old(self).index == 0 ==> r == Some(old(self).edge.0) && final(self).index == 1,
            old(self).index == 1 ==> r == Some(old(self).edge.1) && final(self).index == 2,
            old(self).index >= 2 ==> r is None && final(self).index == old(self).index,
    {
        if self.index == 0 {
            self.index = 1;
            Some(self.edge.0)
        } else if self.index == 1 {
            self.index = 2;
            Some(self.edge.1)
        } else {
            None
        }
    }
}

impl Edge {
    /// An iterator over this edge's two endpoints.
    pub fn into_iter(&self) -> (r: EdgeIterator)
        ensures
            r.edge == *self,
            r.index == 0,
    {
        EdgeIterator { edge: *self, index: 0 }
    }
}

/// The fold-type tag carried by an edge's crease assignment.
#[derive(Clone, Copy, Debug)]
pub enum EdgeAssignment {
    Boundary,
    Mountain,
    Valley,
    Flat,
    Unknown,
    Cut,
    Join,
}

} // verus!
