use crate::vertex::{
    empty_geometry, indices_fit, lemma_fault_stays, lemma_whole_counts_add, merged, rebase,
    whole_triangles, whole_vertices, AssembleError, Geometry,
};
use vstd::prelude::*;

verus! {

/// The vertex components of all the drawables, one drawable after another.
pub open spec fn all_vertices<T>(specs: Seq<Geometry<T>>) -> Seq<T>
    decreases specs.len(),
{
    if specs.len() == 0 {
        Seq::empty()
    } else {
        all_vertices(specs.drop_last()) + specs.last().vertices
    }
}

/// The number of vertex components that the drawables hold together.
pub open spec fn component_total<T>(specs: Seq<Geometry<T>>) -> int
    decreases specs.len(),
{
    if specs.len() == 0 {
        0
    } else {
        component_total(specs.drop_last()) + specs.last().vertices.len()
    }
}

/// The number of indices that the drawables hold together.
pub open spec fn index_total<T>(specs: Seq<Geometry<T>>) -> int
    decreases specs.len(),
{
    if specs.len() == 0 {
        0
    } else {
        index_total(specs.drop_last()) + specs.last().indices.len()
    }
}

/// Every index of the drawable names one of the drawable's own vertices.
pub open spec fn indices_local<T>(g: Geometry<T>, width: int) -> bool {
    forall|i: int|
        0 <= i < g.indices.len() ==> 0 <= #[trigger] g.indices[i] < (g.vertices.len() as int)
            / width
}

/// The merged vertices are the drawables' vertices in input order, so their
/// number is the sum of the drawables' component counts, and they form
/// whole vertices.
pub proof fn lemma_vertices_concatenated<T>(specs: Seq<Geometry<T>>, width: int)
    requires
        merged(specs, width) is Ok,
    ensures
        merged(specs, width).unwrap().vertices == all_vertices(specs),
        merged(specs, width).unwrap().vertices.len() == component_total(specs),
        specs.len() > 0 ==> whole_vertices(merged(specs, width).unwrap(), width),
    decreases specs.len(),
{
    if specs.len() > 0 {
        let earlier = specs.drop_last();
        lemma_vertices_concatenated(earlier, width);
        let before = merged(earlier, width).unwrap();
        assert(before.vertices.len() % (width as nat) == 0nat) by {
            if earlier.len() == 0 {
                assert(before.vertices.len() == 0);
                assert(0int % width == 0);
            }
        }
        lemma_whole_counts_add(
            before.vertices.len() as int,
            specs.last().vertices.len() as int,
            width,
        );
    }
}

/// The merged index count is the sum of the drawables' index counts.
pub proof fn lemma_index_count<T>(specs: Seq<Geometry<T>>, width: int)
    requires
        merged(specs, width) is Ok,
    ensures
        merged(specs, width).unwrap().indices.len() == index_total(specs),
    decreases specs.len(),
{
    if specs.len() > 0 {
        lemma_index_count(specs.drop_last(), width);
    }
}

/// Where every drawable's indices name its own vertices, every merged index
/// names a vertex of the batch: it is at least 0 and below the batch's
/// vertex count.
pub proof fn lemma_indices_in_range<T>(specs: Seq<Geometry<T>>, width: int)
    requires
        merged(specs, width) is Ok,
        forall|k: int| 0 <= k < specs.len() ==> indices_local(#[trigger] specs[k], width),
    ensures
        indices_local(merged(specs, width).unwrap(), width),
    decreases specs.len(),
{
    if specs.len() > 0 {
        let earlier = specs.drop_last();
        let next = specs.last();
        assert forall|k: int| 0 <= k < earlier.len() implies indices_local(
            #[trigger] earlier[k],
            width,
        ) by {
            assert(earlier[k] == specs[k]);
        }
        lemma_indices_in_range(earlier, width);
        lemma_vertices_concatenated(earlier, width);
        let before = merged(earlier, width).unwrap();
        let after = merged(specs, width).unwrap();
        let offset = (before.vertices.len() as int) / width;
        assert(before.vertices.len() % (width as nat) == 0nat) by {
            if earlier.len() == 0 {
                assert(0int % width == 0);
            }
        }
        lemma_whole_counts_add(before.vertices.len() as int, next.vertices.len() as int, width);
        assert(offset >= 0) by (nonlinear_arith)
            requires
                offset == (before.vertices.len() as int) / width,
                width > 0,
        ;
        assert(indices_local(next, width));
        assert forall|i: int| 0 <= i < after.indices.len() implies 0 <= #[trigger] after.indices[i]
            < (after.vertices.len() as int) / width by {
            if i < before.indices.len() {
                assert(after.indices[i] == before.indices[i]);
            } else {
                let local = i - before.indices.len();
                assert(after.indices[i] == rebase(next.indices, offset)[local]);
                assert(0 <= next.indices[local] < (next.vertices.len() as int) / width);
                assert(next.indices[local] + offset <= i32::MAX);
            }
        }
    }
}

/// The number of vertices that the drawables before position `k` hold.
pub open spec fn vertices_before<T>(specs: Seq<Geometry<T>>, width: int, k: int) -> int {
    component_total(specs.take(k)) / width
}

/// The drawable at position `k` can join those before it: it has whole
/// vertices and whole triangles, and its indices fit once rebased.
pub open spec fn sound_at<T>(specs: Seq<Geometry<T>>, width: int, k: int) -> bool {
    &&& whole_vertices(specs[k], width)
    &&& whole_triangles(specs[k])
    &&& indices_fit(specs[k].indices, vertices_before(specs, width, k))
}

/// What is wrong with the drawable at position `k`, the width first, then
/// the triangles, then the range of the indices.
pub open spec fn fault_at<T>(specs: Seq<Geometry<T>>, width: int, k: int) -> AssembleError {
    if !whole_vertices(specs[k], width) {
        AssembleError::WidthMismatch { drawable: k as usize }
    } else if !whole_triangles(specs[k]) {
        AssembleError::MalformedTriangles { drawable: k as usize }
    } else {
        AssembleError::IndexOverflow { drawable: k as usize }
    }
}

/// The first `k` drawables merge if each of them can join those before
/// it, and then their batch holds their vertices.
pub proof fn lemma_sound_prefix_merges<T>(specs: Seq<Geometry<T>>, width: int, k: int)
    requires
        0 <= k <= specs.len(),
        forall|j: int| 0 <= j < k ==> sound_at(specs, width, j),
    ensures
        merged(specs.take(k), width) is Ok,
        merged(specs.take(k), width).unwrap().vertices.len() == component_total(specs.take(k)),
    decreases k,
{
    if k > 0 {
        lemma_sound_prefix_merges(specs, width, k - 1);
        assert(specs.take(k).drop_last() =~= specs.take(k - 1));
        assert(specs.take(k).last() == specs[k - 1]);
        assert(sound_at(specs, width, k - 1));
        lemma_vertices_concatenated(specs.take(k), width);
    } else {
        lemma_vertices_concatenated(specs.take(k), width);
    }
}

/// Drawables merge exactly if each of them can join those before it.
pub proof fn lemma_merges_iff_all_sound<T>(specs: Seq<Geometry<T>>, width: int)
    ensures
        merged(specs, width) is Ok <==> forall|k: int|
            0 <= k < specs.len() ==> sound_at(specs, width, k),
{
    if forall|k: int| 0 <= k < specs.len() ==> sound_at(specs, width, k) {
        lemma_sound_prefix_merges(specs, width, specs.len() as int);
        assert(specs.take(specs.len() as int) =~= specs);
    } else {
        let k = choose|k: int| 0 <= k < specs.len() && !sound_at(specs, width, k);
        lemma_least_fault_exists(specs, width, k);
        let first = choose|first: int|
            0 <= first <= k && !sound_at(specs, width, first) && forall|j: int|
                0 <= j < first ==> sound_at(specs, width, j);
        lemma_first_fault_reported(specs, width, first);
    }
}

/// Below a drawable that cannot join there is a first one that cannot.
pub proof fn lemma_least_fault_exists<T>(specs: Seq<Geometry<T>>, width: int, k: int)
    requires
        0 <= k < specs.len(),
        !sound_at(specs, width, k),
    ensures
        exists|first: int|
            0 <= first <= k && !sound_at(specs, width, first) && forall|j: int|
                0 <= j < first ==> sound_at(specs, width, j),
    decreases k,
{
    if forall|j: int| 0 <= j < k ==> sound_at(specs, width, j) {
    } else {
        let lower = choose|j: int| 0 <= j < k && !sound_at(specs, width, j);
        lemma_least_fault_exists(specs, width, lower);
    }
}

/// The error names the first drawable that cannot join those before it,
/// and says what is wrong with it.
pub proof fn lemma_first_fault_reported<T>(specs: Seq<Geometry<T>>, width: int, k: int)
    requires
        0 <= k < specs.len(),
        forall|j: int| 0 <= j < k ==> sound_at(specs, width, j),
        !sound_at(specs, width, k),
    ensures
        merged(specs, width) == Err::<Geometry<T>, AssembleError>(fault_at(specs, width, k)),
{
    lemma_sound_prefix_merges(specs, width, k);
    assert(specs.take(k + 1).drop_last() =~= specs.take(k));
    assert(specs.take(k + 1).last() == specs[k]);
    assert(merged(specs.take(k + 1), width) == Err::<Geometry<T>, AssembleError>(
        fault_at(specs, width, k),
    ));
    lemma_fault_stays(specs, width, k + 1);
}

/// Index `i` of the drawable at position `k` stands in the batch behind
/// all the indices of the drawables before it, moved up by the number of
/// vertices that those drawables hold.
pub proof fn lemma_index_rebased<T>(specs: Seq<Geometry<T>>, width: int, k: int, i: int)
    requires
        merged(specs, width) is Ok,
        0 <= k < specs.len(),
        0 <= i < specs[k].indices.len(),
    ensures
        index_total(specs.take(k)) >= 0,
        index_total(specs.take(k)) + i < merged(specs, width).unwrap().indices.len(),
        merged(specs, width).unwrap().indices[index_total(specs.take(k)) + i] == specs[k].indices[i]
            + vertices_before(specs, width, k),
    decreases specs.len(),
{
    let earlier = specs.drop_last();
    let before = merged(earlier, width).unwrap();
    lemma_index_count(earlier, width);
    lemma_vertices_concatenated(earlier, width);
    lemma_total_not_negative(specs.take(k));
    if k == specs.len() - 1 {
        assert(specs.take(k) =~= earlier);
        let offset = (before.vertices.len() as int) / width;
        assert(offset >= 0) by (nonlinear_arith)
            requires
                offset == (before.vertices.len() as int) / width,
                width > 0,
        ;
        assert(rebase(specs[k].indices, offset)[i] == specs[k].indices[i] + offset);
    } else {
        assert(earlier[k] == specs[k]);
        assert(earlier.take(k) =~= specs.take(k));
        lemma_index_rebased(earlier, width, k, i);
    }
}

/// Counts of indices are not negative.
pub proof fn lemma_total_not_negative<T>(specs: Seq<Geometry<T>>)
    ensures
        index_total(specs) >= 0,
        component_total(specs) >= 0,
    decreases specs.len(),
{
    if specs.len() > 0 {
        lemma_total_not_negative(specs.drop_last());
    }
}

/// Two drawables merge in the order given: the first one's vertices and
/// indices come first and unchanged, the second one's indices are moved up
/// by the first one's vertex count.
pub proof fn lemma_pair_in_order<T>(a: Geometry<T>, b: Geometry<T>, width: int)
    requires
        merged(seq![a, b], width) is Ok,
    ensures
        merged(seq![a, b], width).unwrap().vertices == a.vertices + b.vertices,
        merged(seq![a, b], width).unwrap().indices == a.indices + rebase(
            b.indices,
            (a.vertices.len() as int) / width,
        ),
{
    let both = seq![a, b];
    let first = both.drop_last();
    assert(first =~= seq![a]);
    assert(first.drop_last() =~= Seq::<Geometry<T>>::empty());
    assert(merged(first.drop_last(), width) == Ok::<Geometry<T>, AssembleError>(empty_geometry()));
    assert(first.last() == a);
    assert(both.last() == b);
    let one = merged(first, width).unwrap();
    assert(one.vertices =~= a.vertices);
    assert(0int / width == 0) by (nonlinear_arith)
        requires
            width > 0,
    ;
    assert(one.indices =~= a.indices) by {
        assert(rebase(a.indices, 0) =~= a.indices);
    }
}

/// Swapping two drawables swaps their vertex segments and changes nothing
/// within a segment.
pub proof fn lemma_swap_swaps_segments<T>(a: Geometry<T>, b: Geometry<T>, width: int)
    requires
        merged(seq![a, b], width) is Ok,
        merged(seq![b, a], width) is Ok,
    ensures
        merged(seq![a, b], width).unwrap().vertices == a.vertices + b.vertices,
        merged(seq![b, a], width).unwrap().vertices == b.vertices + a.vertices,
{
    lemma_pair_in_order(a, b, width);
    lemma_pair_in_order(b, a, width);
}

/// Nothing merges into nothing, whatever the width.
pub proof fn lemma_nothing_merges_into_nothing<T>(width: int)
    ensures
        merged(Seq::<Geometry<T>>::empty(), width) == Ok::<Geometry<T>, AssembleError>(empty_geometry()),
{
}

} // verus!
