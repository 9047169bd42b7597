use vstd::prelude::*;

verus! {

broadcast use vstd::seq::group_seq_axioms;

#[verifier::external_type_specification]
#[verifier::external_body]
pub struct ExValue(serde_json::Value);

/// One format-extension entry of a frame's open key/value bag: a key and its
/// JSON value, which this engine never looks inside.
pub struct CustomEntry {
    pub key: String,
    pub value: serde_json::Value,
}

/// The mathematical content of a custom-data entry.
#[verifier::ext_equal]
pub ghost struct CustomEntryView {
    pub key: Seq<char>,
    pub value: serde_json::Value,
}

impl View for CustomEntry {
    type V = CustomEntryView;

    open spec fn view(&self) -> CustomEntryView {
        CustomEntryView { key: self.key@, value: self.value }
    }
}

/// The mathematical contents of a custom-data bag.
pub open spec fn entries_view(s: Seq<CustomEntry>) -> Seq<CustomEntryView> {
    s.map_values(|e: CustomEntry| e@)
}

/// Relies on serde_json::Value's derived Clone: a structural copy of the
/// value.
#[verifier::external_body]
fn clone_value(v: &serde_json::Value) -> (r: serde_json::Value)
    ensures
        r == *v,
{
    v.clone()
}

impl Clone for CustomEntry {
    fn clone(&self) -> (r: Self)
        ensures
            r@ == self@,
    {
        CustomEntry { key: self.key.clone(), value: clone_value(&self.value) }
    }
}

/// Copy of a custom-data bag.
pub fn clone_entries(v: &Vec<CustomEntry>) -> (r: Vec<CustomEntry>)
    ensures
        entries_view(r@) == entries_view(v@),
{
    let mut r: Vec<CustomEntry> = Vec::new();
    let mut i: usize = 0;
    while i < v.len()
        invariant
            i <= v@.len(),
            r@.len() == i,
            forall|k: int| 0 <= k < i ==> r@[k]@ == v@[k]@,
        decreases v@.len() - i,
    {
        r.push(v[i].clone());
        i += 1;
    }
    proof {
        assert(entries_view(r@) =~~= entries_view(v@));
    }
    r
}

/// Some entry of the bag has this key.
pub open spec fn spec_has_key(entries: Seq<CustomEntryView>, key: Seq<char>) -> bool {
    exists|i: int| 0 <= i < entries.len() && entries[i].key == key
}

/// Keeps the entries whose key the bag `child` does not define.
pub open spec fn absent_in(child: Seq<CustomEntryView>) -> spec_fn(CustomEntryView) -> bool {
    |e: CustomEntryView| !spec_has_key(child, e.key)
}

/// The merged bag: the child's entries, then each parent entry whose key is
/// absent from the child.
pub open spec fn merge_custom(child: Seq<CustomEntryView>, parent: Seq<CustomEntryView>) -> Seq<
    CustomEntryView,
> {
    child + parent.filter(absent_in(child))
}

/// Whether some entry among the first `n` has this key, by a scan.
fn has_key_in_prefix(entries: &Vec<CustomEntry>, n: usize, key: &String) -> (r: bool)
    requires
        n <= entries@.len(),
    ensures
        r == spec_has_key(entries_view(entries@.take(n as int)), key@),
{
    let ghost prefix = entries_view(entries@.take(n as int));
    let mut i: usize = 0;
    while i < n
        invariant
            prefix == entries_view(entries@.take(n as int)),
            n <= entries@.len(),
            i <= n,
            forall|k: int| 0 <= k < i ==> #[trigger] prefix[k].key != key@,
        decreases n - i,
    {
        if entries[i].key == *key {
            proof {
                assert(prefix[i as int].key == key@);
            }
            return true;
        }
        i += 1;
    }
    proof {
        assert(!spec_has_key(prefix, key@));
    }
    false
}

/// Copy into `child` every entry of `parent` whose key `child` lacks; the
/// child's own entries always win.
pub fn inherit_custom(child: &mut Vec<CustomEntry>, parent: &Vec<CustomEntry>)
    ensures
        entries_view(final(child)@) == merge_custom(
            entries_view(old(child)@),
            entries_view(parent@),
        ),
{
    let base = child.len();
    let ghost child0 = entries_view(old(child)@);
    let ghost pv = entries_view(parent@);
    let ghost pred = absent_in(child0);
    proof {
        assert(old(child)@.take(base as int) =~= old(child)@);
        assert(pv.take(0) =~= Seq::<CustomEntryView>::empty());
        assert(pv.take(0).filter(pred) =~= Seq::<CustomEntryView>::empty()) by {
            reveal_with_fuel(Seq::filter, 2);
        }
        assert(entries_view(child@) =~= child0 + pv.take(0).filter(pred));
    }
    let mut i: usize = 0;
    while i < parent.len()
        invariant
            child0 == entries_view(old(child)@),
            pv == entries_view(parent@),
            pred == absent_in(child0),
            base == old(child)@.len(),
            base <= child@.len(),
            i <= pv.len(),
            child@.take(base as int) == old(child)@,
            entries_view(child@) == child0 + pv.take(i as int).filter(pred),
        decreases pv.len() - i,
    {
        proof {
            assert(entries_view(child@.take(base as int)) =~= child0);
        }
        let absent = !has_key_in_prefix(child, base, &parent[i].key);
        proof {
            assert(pv[i as int].key == parent@[i as int]@.key);
            assert(pv.take(i + 1) =~= pv.take(i as int) + seq![pv[i as int]]);
            Seq::filter_distributes_over_add(pv.take(i as int), seq![pv[i as int]], pred);
            assert(seq![pv[i as int]].filter(pred) =~= (if pred(pv[i as int]) {
                seq![pv[i as int]]
            } else {
                Seq::<CustomEntryView>::empty()
            })) by {
                reveal_with_fuel(Seq::filter, 2);
            }
        }
        if absent {
            let ghost before_view = entries_view(child@);
            let entry = parent[i].clone();
            proof {
                assert(entry@ == pv[i as int]);
                assert(pred(pv[i as int]));
                assert(pv.take(i + 1).filter(pred) == pv.take(i as int).filter(pred) + seq![
                    pv[i as int],
                ]);
            }
            child.push(entry);
            proof {
                assert(entries_view(child@) =~~= before_view + seq![pv[i as int]]);
                assert(before_view + seq![pv[i as int]] == (child0 + pv.take(i as int).filter(
                    pred,
                )) + seq![pv[i as int]]);
                assert((child0 + pv.take(i as int).filter(pred)) + seq![pv[i as int]] =~~= child0
                    + (pv.take(i as int).filter(pred) + seq![pv[i as int]]));
                assert(child0 + (pv.take(i as int).filter(pred) + seq![pv[i as int]]) == child0
                    + pv.take(i + 1).filter(pred));
                assert(child@.take(base as int) =~= old(child)@);
            }
        } else {
            proof {
                assert(entries_view(child@) =~~= child0 + pv.take(i + 1).filter(pred));
            }
        }
        i += 1;
    }
    proof {
        assert(pv.take(pv.len() as int) =~= pv);
    }
}

} // verus!
