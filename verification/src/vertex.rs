use crate::decimal::{digits, digits_text};
use vstd::prelude::*;
use vstd::string::StringExecFns;

verus! {

/// Flat geometry as mathematics: the components of all vertices one after
/// another, and the corners of the triangles as indices into the vertices.
pub struct Geometry<T> {
    pub vertices: Seq<T>,
    pub indices: Seq<i32>,
}

/// What one drawable contributes: its vertex components, laid out vertex by
/// vertex, and its triangles, three indices each, counted from the
/// drawable's own first vertex.
#[derive(Debug, Clone)]
pub struct VertexSpecification<T> {
    pub vertices: Vec<T>,
    pub elements: Vec<i32>,
}

impl<T> View for VertexSpecification<T> {
    type V = Geometry<T>;

    open spec fn view(&self) -> Geometry<T> {
        Geometry { vertices: self.vertices@, indices: self.elements@ }
    }
}

/// The merged vertex and index data of one draw call.
#[derive(Debug, Clone)]
pub struct Batch<T> {
    pub vertices: Vec<T>,
    pub indices: Vec<i32>,
}

impl<T> View for Batch<T> {
    type V = Geometry<T>;

    open spec fn view(&self) -> Geometry<T> {
        Geometry { vertices: self.vertices@, indices: self.indices@ }
    }
}

/// Why a sequence of drawables cannot be merged. Each variant names the
/// position of the first drawable at fault.
#[derive(Debug, Clone, Copy, PartialEq, Eq, Structural)]
pub enum AssembleError {
    /// The drawable's component count is not a whole number of vertices.
    /// At a width of 0 no drawable's is.
    WidthMismatch { drawable: usize },
    /// The drawable's index count is not a whole number of triangles.
    MalformedTriangles { drawable: usize },
    /// One of the drawable's indices, once rebased, exceeds `i32::MAX`.
    IndexOverflow { drawable: usize },
}

impl AssembleError {
    /// The position of the drawable at fault.
    pub open spec fn position(self) -> usize {
        match self {
            AssembleError::WidthMismatch { drawable } => drawable,
            AssembleError::MalformedTriangles { drawable } => drawable,
            AssembleError::IndexOverflow { drawable } => drawable,
        }
    }

    /// What is wrong with the drawable, in words.
    pub open spec fn reason(self) -> Seq<char> {
        match self {
            AssembleError::WidthMismatch { .. } => "its components are no whole number of vertices"@,
            AssembleError::MalformedTriangles { .. } => "its indices are no whole number of triangles"@,
            AssembleError::IndexOverflow { .. } => "one of its indices is too large once rebased"@,
        }
    }

    /// The position of the drawable at fault.
    pub fn drawable(&self) -> (position: usize)
        ensures
            position == self.position(),
    {
        match self {
            AssembleError::WidthMismatch { drawable } => *drawable,
            AssembleError::MalformedTriangles { drawable } => *drawable,
            AssembleError::IndexOverflow { drawable } => *drawable,
        }
    }

    /// The error as one line: `drawable`, the position in decimal, a colon
    /// and what is wrong.
    pub fn message(&self) -> (text: String)
        ensures
            text@ == "drawable "@ + digits(self.position() as nat) + ": "@ + self.reason(),
    {
        let mut text = String::from_str("drawable ");
        let position = digits_text(self.drawable() as u64);
        text.append(position.as_str());
        text.append(": ");
        match self {
            AssembleError::WidthMismatch { .. } => {
                text.append("its components are no whole number of vertices");
            },
            AssembleError::MalformedTriangles { .. } => {
                text.append("its indices are no whole number of triangles");
            },
            AssembleError::IndexOverflow { .. } => {
                text.append("one of its indices is too large once rebased");
            },
        }
        text
    }
}

/// The components form whole vertices of `width` components each.
pub open spec fn whole_vertices<T>(g: Geometry<T>, width: int) -> bool {
    width > 0 && (g.vertices.len() as int) % width == 0
}

/// The indices form whole triangles.
pub open spec fn whole_triangles<T>(g: Geometry<T>) -> bool {
    g.indices.len() % 3 == 0
}

/// Every index still fits the index type once `offset` is added.
pub open spec fn indices_fit(indices: Seq<i32>, offset: int) -> bool {
    forall|i: int| 0 <= i < indices.len() ==> #[trigger] indices[i] + offset <= i32::MAX
}

/// The indices, each moved up by `offset`.
pub open spec fn rebase(indices: Seq<i32>, offset: int) -> Seq<i32> {
    Seq::new(indices.len(), |i: int| (indices[i] + offset) as i32)
}

/// No vertices and no indices.
pub open spec fn empty_geometry<T>() -> Geometry<T> {
    Geometry { vertices: Seq::empty(), indices: Seq::empty() }
}

/// `before` extended by the drawable `next`, which stands at `position`:
/// its vertices are appended, and its indices rebased by the number of
/// vertices that `before` holds.
pub open spec fn joined<T>(before: Geometry<T>, next: Geometry<T>, width: int, position: int) -> Result<
    Geometry<T>,
    AssembleError,
> {
    if !whole_vertices(next, width) {
        Err(AssembleError::WidthMismatch { drawable: position as usize })
    } else if !whole_triangles(next) {
        Err(AssembleError::MalformedTriangles { drawable: position as usize })
    } else if !indices_fit(next.indices, before.vertices.len() as int / width) {
        Err(AssembleError::IndexOverflow { drawable: position as usize })
    } else {
        Ok(
            Geometry {
                vertices: before.vertices + next.vertices,
                indices: before.indices + rebase(
                    next.indices,
                    before.vertices.len() as int / width,
                ),
            },
        )
    }
}

/// The batch that a sequence of drawables merges into, or the first fault.
pub open spec fn merged<T>(specs: Seq<Geometry<T>>, width: int) -> Result<Geometry<T>, AssembleError>
    decreases specs.len(),
{
    if specs.len() == 0 {
        Ok(empty_geometry())
    } else {
        match merged(specs.drop_last(), width) {
            Err(e) => Err(e),
            Ok(before) => joined(before, specs.last(), width, specs.len() - 1),
        }
    }
}

/// The geometries of a sequence of specifications.
pub open spec fn geometries<T>(specs: Seq<VertexSpecification<T>>) -> Seq<Geometry<T>> {
    specs.map_values(|s: VertexSpecification<T>| s@)
}

/// An executable result as mathematics.
pub open spec fn outcome<T>(result: Result<Batch<T>, AssembleError>) -> Result<Geometry<T>, AssembleError> {
    match result {
        Ok(batch) => Ok(batch@),
        Err(e) => Err(e),
    }
}

/// A fault among the first `k` drawables is the fault of the whole sequence.
pub proof fn lemma_fault_stays<T>(specs: Seq<Geometry<T>>, width: int, k: int)
    requires
        0 <= k <= specs.len(),
        merged(specs.take(k), width) is Err,
    ensures
        merged(specs, width) == merged(specs.take(k), width),
    decreases specs.len() - k,
{
    if k == specs.len() {
        assert(specs.take(k) =~= specs);
    } else {
        assert(specs.take(k + 1).drop_last() =~= specs.take(k));
        lemma_fault_stays(specs, width, k + 1);
    }
}

/// `index + offset`, where that fits an `i32`.
pub fn rebased_index(index: i32, offset: usize) -> (moved: Option<i32>)
    ensures
        moved == if index + offset <= i32::MAX {
            Some((index + offset) as i32)
        } else {
            None
        },
{
    if offset > 0xFFFF_FFFF {
        None
    } else {
        let sum: i64 = index as i64 + offset as i64;
        if sum > 0x7FFF_FFFF {
            None
        } else {
            Some(sum as i32)
        }
    }
}

/// Merges the specifications, in their order, into one batch.
///
/// The vertices of each are appended unchanged. Its indices are moved up by
/// the number of vertices that the earlier ones hold together, which is
/// their component count divided by `vertex_width`. The first drawable whose
/// components are no whole number of vertices, whose indices are no whole
/// number of triangles, or whose rebased indices leave the range of `i32`,
/// is reported with its position.
pub fn assemble<T: Copy>(specs: &Vec<VertexSpecification<T>>, vertex_width: u8) -> (result: Result<
    Batch<T>,
    AssembleError,
>)
    ensures
        outcome(result) == merged(geometries(specs@), vertex_width as int),
        specs@.len() == 0 ==> outcome(result) == Ok::<Geometry<T>, AssembleError>(empty_geometry()),
{
    let ghost all = geometries(specs@);
    let ghost w = vertex_width as int;
    let mut vertices: Vec<T> = Vec::new();
    let mut indices: Vec<i32> = Vec::new();
    let mut offset: usize = 0;
    let mut k: usize = 0;
    proof {
        assert(all.take(0) =~= Seq::<Geometry<T>>::empty());
    }
    while k < specs.len()
        invariant
            0 <= k <= specs.len(),
            all == geometries(specs@),
            w == vertex_width as int,
            merged(all.take(k as int), w) == Ok::<Geometry<T>, AssembleError>(
                Geometry { vertices: vertices@, indices: indices@ },
            ),
            k > 0 ==> w > 0,
            w > 0 ==> offset as int == (vertices@.len() as int) / w,
        decreases specs.len() - k,
    {
        let next = &specs[k];
        let ghost before = Geometry { vertices: vertices@, indices: indices@ };
        proof {
            assert(all.take(k + 1).drop_last() =~= all.take(k as int));
            assert(all.take(k + 1).last() == next@);
        }
        if vertex_width == 0 || next.vertices.len() % (vertex_width as usize) != 0 {
            proof {
                lemma_fault_stays(all, w, k + 1);
            }
            return Err(AssembleError::WidthMismatch { drawable: k });
        }
        if next.elements.len() % 3 != 0 {
            proof {
                lemma_fault_stays(all, w, k + 1);
            }
            return Err(AssembleError::MalformedTriangles { drawable: k });
        }
        proof {
            assert(next@.indices == next.elements@);
            assert(next.elements@.take(0) =~= Seq::<i32>::empty());
            assert(rebase(next.elements@.take(0), offset as int) =~= Seq::<i32>::empty());
            assert(before.indices + Seq::<i32>::empty() =~= before.indices);
        }
        let mut j: usize = 0;
        while j < next.elements.len()
            invariant
                0 <= j <= next.elements.len(),
                0 <= k < specs.len(),
                all == geometries(specs@),
                w == vertex_width as int,
                all.take(k + 1).drop_last() == all.take(k as int),
                all.take(k + 1).last() == next@,
                merged(all.take(k as int), w) == Ok::<Geometry<T>, AssembleError>(before),
                before.vertices == vertices@,
                w > 0,
                offset as int == (vertices@.len() as int) / w,
                whole_vertices(next@, w),
                whole_triangles(next@),
                indices_fit(next.elements@.take(j as int), offset as int),
                indices@ == before.indices + rebase(next.elements@.take(j as int), offset as int),
            decreases next.elements.len() - j,
        {
            match rebased_index(next.elements[j], offset) {
                None => {
                    proof {
                        assert(next.elements@[j as int] + offset > i32::MAX);
                        assert(!indices_fit(next.elements@, offset as int));
                        lemma_fault_stays(all, w, k + 1);
                    }
                    return Err(AssembleError::IndexOverflow { drawable: k });
                },
                Some(moved) => {
                    indices.push(moved);
                    proof {
                        let shorter = next.elements@.take(j as int);
                        let longer = next.elements@.take(j + 1);
                        assert(longer =~= shorter.push(next.elements@[j as int]));
                        assert(rebase(longer, offset as int) =~= rebase(shorter, offset as int).push(
                            moved,
                        ));
                    }
                },
            }
            j += 1;
        }
        proof {
            assert(next.elements@.take(next.elements@.len() as int) =~= next.elements@);
        }
        let count = next.vertices.len() / (vertex_width as usize);
        append_all(&mut vertices, &next.vertices);
        proof {
            assert(vertices@.len() == vertices.len() <= usize::MAX);
            lemma_whole_counts_add(before.vertices.len() as int, next.vertices@.len() as int, w);
            assert(offset + count == (vertices@.len() as int) / w);
            assert((vertices@.len() as int) / w <= vertices@.len()) by (nonlinear_arith)
                requires
                    w > 0,
            ;
        }
        offset = offset + count;
        k += 1;
    }
    proof {
        assert(all.take(specs.len() as int) =~= all);
    }
    Ok(Batch { vertices, indices })
}

/// One vertex of a colored shape: where it lies, and its color.
#[derive(Debug, Clone, Copy)]
pub struct Vertex<T> {
    pub x: T,
    pub y: T,
    pub red: T,
    pub green: T,
    pub blue: T,
}

impl<T: Copy> Vertex<T> {
    /// The five components in the order in which they are laid out.
    pub open spec fn components(self) -> Seq<T> {
        seq![self.x, self.y, self.red, self.green, self.blue]
    }

    pub fn get_vec(&self) -> (v: Vec<T>)
        ensures
            v@ == self.components(),
    {
        let mut v: Vec<T> = Vec::new();
        v.push(self.x);
        v.push(self.y);
        v.push(self.red);
        v.push(self.green);
        v.push(self.blue);
        proof {
            assert(v@ =~= self.components());
        }
        v
    }
}

/// One vertex of a textured shape: where it lies, and the point of the
/// texture that it shows.
#[derive(Debug, Clone, Copy)]
pub struct TextureVertex<T> {
    pub x: T,
    pub y: T,
    pub tex_x: T,
    pub tex_y: T,
}

impl<T: Copy> TextureVertex<T> {
    /// The four components in the order in which they are laid out.
    pub open spec fn components(self) -> Seq<T> {
        seq![self.x, self.y, self.tex_x, self.tex_y]
    }

    pub fn get_vec(&self) -> (v: Vec<T>)
        ensures
            v@ == self.components(),
    {
        let mut v: Vec<T> = Vec::new();
        v.push(self.x);
        v.push(self.y);
        v.push(self.tex_x);
        v.push(self.tex_y);
        proof {
            assert(v@ =~= self.components());
        }
        v
    }
}

/// One triangle, as the indices of its three corners.
#[derive(Debug, Clone, Copy, PartialEq, Eq, Structural)]
pub struct ElementTriangle {
    pub p1: i32,
    pub p2: i32,
    pub p3: i32,
}

impl ElementTriangle {
    /// The three corners in their order.
    pub open spec fn corners(self) -> Seq<i32> {
        seq![self.p1, self.p2, self.p3]
    }

    pub fn get_vec(&self) -> (v: Vec<i32>)
        ensures
            v@ == self.corners(),
    {
        let mut v: Vec<i32> = Vec::new();
        v.push(self.p1);
        v.push(self.p2);
        v.push(self.p3);
        proof {
            assert(v@ =~= self.corners());
        }
        v
    }

    /// The triangle with each corner moved up by `vertex_offset`, where all
    /// three still fit.
    pub fn add_vertex_offset(&self, vertex_offset: usize) -> (moved: Option<ElementTriangle>)
        ensures
            indices_fit(self.corners(), vertex_offset as int) ==> moved.is_some()
                && moved.unwrap().corners() == rebase(self.corners(), vertex_offset as int),
            !indices_fit(self.corners(), vertex_offset as int) ==> moved.is_none(),
    {
        let ghost c = self.corners();
        proof {
            assert(c[0] == self.p1 && c[1] == self.p2 && c[2] == self.p3);
        }
        match (
            rebased_index(self.p1, vertex_offset),
            rebased_index(self.p2, vertex_offset),
            rebased_index(self.p3, vertex_offset),
        ) {
            (Some(p1), Some(p2), Some(p3)) => {
                let moved = ElementTriangle { p1, p2, p3 };
                proof {
                    assert(moved.corners() =~= rebase(c, vertex_offset as int));
                }
                Some(moved)
            },
            _ => None,
        }
    }
}

/// Appends every item of `more` to `all`.
pub fn append_all<T: Copy>(all: &mut Vec<T>, more: &Vec<T>)
    ensures
        final(all)@ == old(all)@ + more@,
{
    let ghost before = all@;
    let mut i: usize = 0;
    proof {
        assert(before + more@.take(0) =~= before);
    }
    while i < more.len()
        invariant
            0 <= i <= more.len(),
            all@ == before + more@.take(i as int),
        decreases more.len() - i,
    {
        all.push(more[i]);
        proof {
            assert(more@.take(i + 1) =~= more@.take(i as int).push(more@[i as int]));
        }
        i += 1;
    }
    proof {
        assert(more@.take(more@.len() as int) =~= more@);
    }
}

/// The edges of a rectangle: its top and bottom on the y axis, its left
/// and right on the x axis.
#[derive(Debug, Clone, Copy)]
pub struct Edges<T> {
    pub top: T,
    pub bottom: T,
    pub left: T,
    pub right: T,
}

/// The two triangles that fill a rectangle whose corners are numbered
/// from 0 at the left-top around to 3 at the left-bottom.
pub open spec fn quad_indices() -> Seq<i32> {
    seq![0i32, 1i32, 2i32, 2i32, 3i32, 0i32]
}

/// A bare rectangle: the corners left-top, right-top, right-bottom,
/// left-bottom, each by its place alone, and the two triangles that fill
/// it.
pub open spec fn plain_rectangle<T: Copy>(edges: Edges<T>) -> Geometry<T> {
    Geometry {
        vertices: seq![
            edges.left,
            edges.top,
            edges.right,
            edges.top,
            edges.right,
            edges.bottom,
            edges.left,
            edges.bottom,
        ],
        indices: quad_indices(),
    }
}

/// A rectangle of one color: the corners left-top, right-top,
/// right-bottom, left-bottom, each with the color's three channels, and
/// the two triangles that fill it.
pub open spec fn colored_rectangle<T: Copy>(edges: Edges<T>, red: T, green: T, blue: T) -> Geometry<
    T,
> {
    Geometry {
        vertices: (Vertex { x: edges.left, y: edges.top, red, green, blue }).components() + (Vertex {
            x: edges.right,
            y: edges.top,
            red,
            green,
            blue,
        }).components() + (Vertex { x: edges.right, y: edges.bottom, red, green, blue }).components()
            + (Vertex { x: edges.left, y: edges.bottom, red, green, blue }).components(),
        indices: quad_indices(),
    }
}

/// A triangle of one color within a rectangle: the points middle-top,
/// right-bottom, left-bottom, each with the color's three channels, and the
/// one triangle that they form.
pub open spec fn colored_triangle<T: Copy>(
    edges: Edges<T>,
    middle: T,
    red: T,
    green: T,
    blue: T,
) -> Geometry<T> {
    Geometry {
        vertices: (Vertex { x: middle, y: edges.top, red, green, blue }).components() + (Vertex {
            x: edges.right,
            y: edges.bottom,
            red,
            green,
            blue,
        }).components() + (Vertex { x: edges.left, y: edges.bottom, red, green, blue }).components(),
        indices: seq![0i32, 1i32, 2i32],
    }
}

/// A rectangle that shows a whole texture: the corners left-top,
/// right-top, right-bottom, left-bottom, each with the corner of the
/// texture that it shows, and the two triangles that fill it. `near` and
/// `far` are the texture's coordinates at its two edges; the texture's top
/// is `near`.
pub open spec fn textured_rectangle<T: Copy>(edges: Edges<T>, near: T, far: T) -> Geometry<T> {
    Geometry {
        vertices: (TextureVertex { x: edges.left, y: edges.top, tex_x: near, tex_y: near })
            .components() + (TextureVertex {
            x: edges.right,
            y: edges.top,
            tex_x: far,
            tex_y: near,
        }).components() + (TextureVertex {
            x: edges.right,
            y: edges.bottom,
            tex_x: far,
            tex_y: far,
        }).components() + (TextureVertex {
            x: edges.left,
            y: edges.bottom,
            tex_x: near,
            tex_y: far,
        }).components(),
        indices: quad_indices(),
    }
}

impl<T: Copy> VertexSpecification<T> {
    /// Lays out a bare rectangle, two components a vertex.
    pub fn plain_rectangle(edges: Edges<T>) -> (spec: Self)
        ensures
            spec@ == plain_rectangle(edges),
    {
        let mut vertices: Vec<T> = Vec::new();
        vertices.push(edges.left);
        vertices.push(edges.top);
        vertices.push(edges.right);
        vertices.push(edges.top);
        vertices.push(edges.right);
        vertices.push(edges.bottom);
        vertices.push(edges.left);
        vertices.push(edges.bottom);
        let mut elements = (ElementTriangle { p1: 0, p2: 1, p3: 2 }).get_vec();
        append_all(&mut elements, &(ElementTriangle { p1: 2, p2: 3, p3: 0 }).get_vec());
        proof {
            assert(vertices@ =~= plain_rectangle(edges).vertices);
            assert(elements@ =~= quad_indices());
        }
        VertexSpecification { vertices, elements }
    }

    /// Lays out a rectangle of one color.
    pub fn colored_rectangle(edges: Edges<T>, red: T, green: T, blue: T) -> (spec: Self)
        ensures
            spec@ == colored_rectangle(edges, red, green, blue),
    {
        let mut vertices = (Vertex { x: edges.left, y: edges.top, red, green, blue }).get_vec();
        append_all(
            &mut vertices,
            &(Vertex { x: edges.right, y: edges.top, red, green, blue }).get_vec(),
        );
        append_all(
            &mut vertices,
            &(Vertex { x: edges.right, y: edges.bottom, red, green, blue }).get_vec(),
        );
        append_all(
            &mut vertices,
            &(Vertex { x: edges.left, y: edges.bottom, red, green, blue }).get_vec(),
        );
        let mut elements = (ElementTriangle { p1: 0, p2: 1, p3: 2 }).get_vec();
        append_all(&mut elements, &(ElementTriangle { p1: 2, p2: 3, p3: 0 }).get_vec());
        proof {
            assert(elements@ =~= quad_indices());
        }
        VertexSpecification { vertices, elements }
    }

    /// Lays out a triangle of one color.
    pub fn colored_triangle(edges: Edges<T>, middle: T, red: T, green: T, blue: T) -> (spec: Self)
        ensures
            spec@ == colored_triangle(edges, middle, red, green, blue),
    {
        let mut vertices = (Vertex { x: middle, y: edges.top, red, green, blue }).get_vec();
        append_all(
            &mut vertices,
            &(Vertex { x: edges.right, y: edges.bottom, red, green, blue }).get_vec(),
        );
        append_all(
            &mut vertices,
            &(Vertex { x: edges.left, y: edges.bottom, red, green, blue }).get_vec(),
        );
        let elements = (ElementTriangle { p1: 0, p2: 1, p3: 2 }).get_vec();
        VertexSpecification { vertices, elements }
    }

    /// Lays out a rectangle that shows a whole texture.
    pub fn textured_rectangle(edges: Edges<T>, near: T, far: T) -> (spec: Self)
        ensures
            spec@ == textured_rectangle(edges, near, far),
    {
        let mut vertices = (TextureVertex {
            x: edges.left,
            y: edges.top,
            tex_x: near,
            tex_y: near,
        }).get_vec();
        append_all(
            &mut vertices,
            &(TextureVertex { x: edges.right, y: edges.top, tex_x: far, tex_y: near }).get_vec(),
        );
        append_all(
            &mut vertices,
            &(TextureVertex { x: edges.right, y: edges.bottom, tex_x: far, tex_y: far }).get_vec(),
        );
        append_all(
            &mut vertices,
            &(TextureVertex { x: edges.left, y: edges.bottom, tex_x: near, tex_y: far }).get_vec(),
        );
        let mut elements = (ElementTriangle { p1: 0, p2: 1, p3: 2 }).get_vec();
        append_all(&mut elements, &(ElementTriangle { p1: 2, p2: 3, p3: 0 }).get_vec());
        proof {
            assert(elements@ =~= quad_indices());
        }
        VertexSpecification { vertices, elements }
    }
}

/// Something that can describe its own geometry.
pub trait VertexSpecable {
    /// What one component of a vertex is.
    type Component: Copy;

    /// The geometry that the drawable has in its present state. An
    /// implementation says here what it draws; one that says nothing
    /// leaves it open.
    open spec fn geometry(&self) -> Geometry<Self::Component> {
        arbitrary()
    }

    /// Hands out that geometry. The drawable itself stays as it is.
    fn get_vertex_specification(&self) -> (spec: VertexSpecification<Self::Component>)
        ensures
            spec@ == self.geometry(),
    ;
}

/// The geometries of a sequence of drawables.
pub open spec fn drawn<V: VertexSpecable>(drawables: Seq<V>) -> Seq<Geometry<V::Component>> {
    drawables.map_values(|d: V| d.geometry())
}

/// Asks each drawable for its specification and merges them, in the order
/// of the drawables, as `assemble` does.
pub fn full_vertex_spec<V: VertexSpecable>(rects: &Vec<V>, vertex_width: u8) -> (result: Result<
    Batch<V::Component>,
    AssembleError,
>)
    ensures
        outcome(result) == merged(drawn(rects@), vertex_width as int),
        rects@.len() == 0 ==> outcome(result) == Ok::<Geometry<V::Component>, AssembleError>(
            empty_geometry(),
        ),
{
    let mut specs: Vec<VertexSpecification<V::Component>> = Vec::new();
    let mut k: usize = 0;
    while k < rects.len()
        invariant
            0 <= k <= rects.len(),
            specs@.len() == k,
            geometries(specs@) == drawn(rects@).take(k as int),
        decreases rects.len() - k,
    {
        let spec = rects[k].get_vertex_specification();
        let ghost earlier = specs@;
        specs.push(spec);
        proof {
            assert forall|i: int| 0 <= i < k + 1 implies geometries(specs@)[i] == drawn(
                rects@,
            ).take(k + 1)[i] by {
                if i < k {
                    assert(geometries(earlier)[i] == drawn(rects@).take(k as int)[i]);
                    assert(specs@[i] == earlier[i]);
                }
            }
            assert(geometries(specs@) =~= drawn(rects@).take(k + 1));
        }
        k += 1;
    }
    proof {
        assert(geometries(specs@) =~= drawn(rects@));
    }
    assemble(&specs, vertex_width)
}

/// Whole vertex counts add up: with `a` a multiple of `w`, the quotient of
/// `a + b` is the sum of the quotients.
pub proof fn lemma_whole_counts_add(a: int, b: int, w: int)
    requires
        w > 0,
        a >= 0,
        b >= 0,
        b % w == 0,
    ensures
        (a + b) / w == a / w + b / w,
        (a + b) % w == a % w,
{
    vstd::arithmetic::div_mod::lemma_fundamental_div_mod(b, w);
    let q = b / w;
    assert(b == w * q);
    vstd::arithmetic::div_mod::lemma_div_multiples_vanish_fancy(0, 0, w);
    assert(a + b == w * q + a) by (nonlinear_arith)
        requires
            b == w * q,
    ;
    vstd::arithmetic::div_mod::lemma_hoist_over_denominator(a, q, w as nat);
    vstd::arithmetic::div_mod::lemma_mod_multiples_vanish(q, a, w);
    assert(w * q + a == q * w + a) by (nonlinear_arith);
}

} // verus!
