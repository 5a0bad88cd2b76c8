use crate::merge_lemmas::{
    component_total, indices_local, lemma_indices_in_range, lemma_merges_iff_all_sound, sound_at,
};
use crate::vertex::{
    drawn, merged, textured_rectangle, Edges, Geometry, VertexSpecable, VertexSpecification,
};
use vstd::prelude::*;

verus! {

/// A rectangle that shows a whole texture, given by its edges.
#[derive(Debug, Clone, Copy, PartialEq, Eq, Structural)]
pub struct TexRect {
    pub lower_x: i32,
    pub upper_x: i32,
    pub lower_y: i32,
    pub upper_y: i32,
}

impl TexRect {
    pub fn new(lower_x: i32, upper_x: i32, lower_y: i32, upper_y: i32) -> (rect: TexRect)
        ensures
            rect == (TexRect { lower_x, upper_x, lower_y, upper_y }),
    {
        TexRect { lower_x, upper_x, lower_y, upper_y }
    }

    /// The four edges as vertex components.
    pub open spec fn edges(self) -> Edges<i64> {
        Edges {
            top: self.upper_y as i64,
            bottom: self.lower_y as i64,
            left: self.lower_x as i64,
            right: self.upper_x as i64,
        }
    }

    /// The rectangle showing the whole texture, whose edges lie at 0 and 1.
    pub open spec fn textured(self) -> Geometry<i64> {
        textured_rectangle(self.edges(), 0, 1)
    }
}

impl VertexSpecable for TexRect {
    type Component = i64;

    open spec fn geometry(&self) -> Geometry<i64> {
        self.textured()
    }

    fn get_vertex_specification(&self) -> (spec: VertexSpecification<i64>) {
        VertexSpecification::textured_rectangle(
            Edges {
                top: self.upper_y as i64,
                bottom: self.lower_y as i64,
                left: self.lower_x as i64,
                right: self.upper_x as i64,
            },
            0,
            1,
        )
    }
}

/// Textured rectangles hold four vertices of four components each.
pub proof fn lemma_textured_count(rects: Seq<TexRect>)
    ensures
        component_total(drawn(rects)) == 16 * rects.len(),
    decreases rects.len(),
{
    let all = drawn(rects);
    if rects.len() > 0 {
        lemma_textured_count(rects.drop_last());
        assert(all.drop_last() =~= drawn(rects.drop_last()));
        assert(all.last() == rects.last().geometry());
        assert(all.last().vertices.len() == 16);
    }
}

/// Textured rectangles always merge at a width of four, as long as their
/// vertices can be counted in an `i32`, and every index of the batch then
/// names a vertex of the batch.
pub proof fn lemma_textured_merge(rects: Seq<TexRect>)
    requires
        4 * rects.len() <= i32::MAX,
    ensures
        merged(drawn(rects), 4) is Ok,
        indices_local(merged(drawn(rects), 4).unwrap(), 4),
{
    let all = drawn(rects);
    assert forall|k: int| 0 <= k < all.len() implies sound_at(all, 4, k) && indices_local(
        #[trigger] all[k],
        4,
    ) by {
        let g = all[k];
        assert(g == rects[k].geometry());
        assert(g.vertices.len() == 16);
        assert(g.indices =~= seq![0i32, 1i32, 2i32, 2i32, 3i32, 0i32]);
        assert(all.take(k) =~= drawn(rects.take(k)));
        lemma_textured_count(rects.take(k));
        assert(component_total(all.take(k)) / 4 == 4 * k);
    }
    lemma_merges_iff_all_sound(all, 4);
    lemma_indices_in_range(all, 4);
}

} // verus!
