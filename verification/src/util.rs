use vstd::prelude::*;

verus! {

/// The mathematical contents of a vector of vectors: a sequence of sequences.
pub open spec fn rows_view<T>(s: Seq<Vec<T>>) -> Seq<Seq<T>> {
    s.map_values(|row: Vec<T>| row@)
}

/// The mathematical contents of a vector of strings.
pub open spec fn strings_view(s: Seq<String>) -> Seq<Seq<char>> {
    s.map_values(|x: String| x@)
}

/// Copy of a vector of copyable values.
pub fn clone_row<T: Copy>(v: &Vec<T>) -> (r: Vec<T>)
    ensures
        r@ == v@,
{
    vstd::slice::slice_to_vec(v.as_slice())
}

/// Deep copy of a vector of vectors of copyable values.
pub fn clone_rows<T: Copy>(v: &Vec<Vec<T>>) -> (r: Vec<Vec<T>>)
    ensures
        rows_view(r@) == rows_view(v@),
{
    let mut r: Vec<Vec<T>> = Vec::new();
    let mut i: usize = 0;
    while i < v.len()
        invariant
            i <= v.len(),
            r@.len() == i,
            forall|k: int| 0 <= k < i ==> r@[k]@ == v@[k]@,
        decreases v.len() - i,
    {
        r.push(clone_row(&v[i]));
        i += 1;
    }
    proof {
        assert(rows_view(r@) =~= rows_view(v@));
    }
    r
}

/// Copy of a vector of strings.
pub fn clone_strings(v: &Vec<String>) -> (r: Vec<String>)
    ensures
        r@ == v@,
{
    let r = v.clone();
    proof {
        assert(r@ =~= v@);
    }
    r
}

/// Whether `v` holds `x`, by a scan.
pub fn contains_usize(v: &Vec<usize>, x: usize) -> (r: bool)
    ensures
        r == v@.contains(x),
{
    let mut i: usize = 0;
    while i < v.len()
        invariant
            i <= v.len(),
            forall|k: int| 0 <= k < i ==> v@[k] != x,
        decreases v.len() - i,
    {
        if v[i] == x {
            return true;
        }
        i += 1;
    }
    false
}

/// Whether `v` holds `Some(x)`, by a scan.
pub fn contains_some(v: &Vec<Option<usize>>, x: usize) -> (r: bool)
    ensures
        r == v@.contains(Some(x)),
{
    let mut i: usize = 0;
    while i < v.len()
        invariant
            i <= v.len(),
            forall|k: int| 0 <= k < i ==> v@[k] != Some(x),
        decreases v.len() - i,
    {
        match v[i] {
            Some(y) => {
                if y == x {
                    return true;
                }
            },
            None => {},
        }
        i += 1;
    }
    false
}

} // verus!
