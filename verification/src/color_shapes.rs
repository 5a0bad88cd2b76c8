use crate::fileformat::ShapeType;
use crate::merge_lemmas::{
    component_total, indices_local, lemma_indices_in_range, lemma_merges_iff_all_sound,
    lemma_total_not_negative, sound_at,
};
use crate::vertex::{
    colored_rectangle, colored_triangle, drawn, merged, Edges, Geometry, VertexSpecable,
    VertexSpecification,
};
use vstd::prelude::*;

verus! {

/// A shape that can be moved about its anchor, the place where it was
/// created.
pub trait Updateable {
    /// The anchor. An implementation says here where it is; one that
    /// says nothing leaves it open.
    open spec fn anchor(&self) -> (int, int) {
        arbitrary()
    }

    /// The place where the shape is now.
    open spec fn place(&self) -> (int, int) {
        arbitrary()
    }

    /// Puts the shape at its anchor plus the given offset. An earlier
    /// offset is forgotten; the anchor never changes.
    fn update_offset(&mut self, x_offset: i32, y_offset: i32)
        ensures
            final(self).anchor() == old(self).anchor(),
            final(self).place() == (
                old(self).anchor().0 + x_offset,
                old(self).anchor().1 + y_offset,
            ),
    ;
}

/// A color of 8 bits a channel.
#[derive(Debug, Clone, Copy, PartialEq, Eq, Structural)]
pub struct Color {
    pub red: u8,
    pub green: u8,
    pub blue: u8,
}

impl Color {
    /// The three channels as vertex components, in 255ths of full
    /// intensity.
    pub fn channels(&self) -> (c: (i64, i64, i64))
        ensures
            c == (self.red as i64, self.green as i64, self.blue as i64),
    {
        (self.red as i64, self.green as i64, self.blue as i64)
    }
}

/// Where a shape was created and where it is now.
#[derive(Debug, Clone, Copy, PartialEq, Eq, Structural)]
pub struct LocInfo {
    pub x: i64,
    pub y: i64,
    pub orig_x: i32,
    pub orig_y: i32,
}

impl LocInfo {
    /// A location at its own anchor.
    pub fn new(xloc: i32, yloc: i32) -> (loc: LocInfo)
        ensures
            loc == (LocInfo { x: xloc as i64, y: yloc as i64, orig_x: xloc, orig_y: yloc }),
            loc.reachable(),
    {
        LocInfo { x: xloc as i64, y: yloc as i64, orig_x: xloc, orig_y: yloc }
    }

    /// The present place lies within an `i32` offset of the anchor.
    pub open spec fn reachable(self) -> bool {
        &&& i32::MIN <= self.x - self.orig_x <= i32::MAX
        &&& i32::MIN <= self.y - self.orig_y <= i32::MAX
    }

    /// The location that an offset from the anchor leads to.
    pub open spec fn moved(self, x_offset: int, y_offset: int) -> LocInfo {
        LocInfo {
            x: (self.orig_x + x_offset) as i64,
            y: (self.orig_y + y_offset) as i64,
            orig_x: self.orig_x,
            orig_y: self.orig_y,
        }
    }

    /// Moves to the anchor plus the given offset.
    pub fn update_offset(&mut self, x_offset: i32, y_offset: i32)
        ensures
            *final(self) == old(self).moved(x_offset as int, y_offset as int),
            final(self).x == old(self).orig_x + x_offset,
            final(self).y == old(self).orig_y + y_offset,
            final(self).reachable(),
    {
        self.x = self.orig_x as i64 + x_offset as i64;
        self.y = self.orig_y as i64 + y_offset as i64;
    }
}

/// Half of an extent, rounded towards zero.
pub open spec fn half_of(extent: int) -> int {
    if extent >= 0 {
        extent / 2
    } else {
        -((-extent) / 2)
    }
}

/// Half of an extent, rounded towards zero.
pub fn half(extent: i32) -> (h: i64)
    ensures
        h == half_of(extent as int),
        -0x4000_0000 <= h <= 0x4000_0000,
{
    if extent >= 0 {
        (extent / 2) as i64
    } else {
        let positive: i64 = -(extent as i64);
        -(positive / 2)
    }
}

/// A colored shape as mathematics: its anchor, its center, its extent and
/// its color.
pub struct ColorShape {
    pub anchor: (int, int),
    pub center: (int, int),
    pub width: int,
    pub height: int,
    pub color: Color,
}

impl ColorShape {
    /// The y of the upper edge: half the height above the center.
    pub open spec fn top(self) -> int {
        self.center.1 + half_of(self.height)
    }

    /// The y of the lower edge: half the height below the center.
    pub open spec fn bottom(self) -> int {
        self.center.1 - half_of(self.height)
    }

    /// The x of the right edge: half the width right of the center.
    pub open spec fn right(self) -> int {
        self.center.0 + half_of(self.width)
    }

    /// The x of the left edge: half the width left of the center.
    pub open spec fn left(self) -> int {
        self.center.0 - half_of(self.width)
    }

    /// The four edges as vertex components.
    pub open spec fn edges(self) -> Edges<i64> {
        Edges {
            top: self.top() as i64,
            bottom: self.bottom() as i64,
            left: self.left() as i64,
            right: self.right() as i64,
        }
    }

    /// The shape as a rectangle: the corners left-top, right-top,
    /// right-bottom, left-bottom, each with the color's channels in 255ths,
    /// and the two triangles that fill it.
    pub open spec fn rectangle(self) -> Geometry<i64> {
        colored_rectangle(
            self.edges(),
            self.color.red as i64,
            self.color.green as i64,
            self.color.blue as i64,
        )
    }

    /// The shape as a triangle: the points middle-top, right-bottom,
    /// left-bottom, each with the color's channels in 255ths, and the one
    /// triangle that they form.
    pub open spec fn triangle(self) -> Geometry<i64> {
        colored_triangle(
            self.edges(),
            self.center.0 as i64,
            self.color.red as i64,
            self.color.green as i64,
            self.color.blue as i64,
        )
    }

    /// The shape at its anchor plus an offset.
    pub open spec fn moved(self, x_offset: int, y_offset: int) -> ColorShape {
        ColorShape { center: (self.anchor.0 + x_offset, self.anchor.1 + y_offset), ..self }
    }
}

/// The mathematical shape that a location, an extent and a color make up.
pub open spec fn shape_of(loc: LocInfo, width: i32, height: i32, color: Color) -> ColorShape {
    ColorShape {
        anchor: (loc.orig_x as int, loc.orig_y as int),
        center: (loc.x as int, loc.y as int),
        width: width as int,
        height: height as int,
        color,
    }
}

/// A filled rectangle of one color, given by its center and its extent.
#[derive(Debug, Clone, Copy)]
pub struct SimpleRect {
    loc: LocInfo,
    width: i32,
    height: i32,
    color: Color,
}

impl View for SimpleRect {
    type V = ColorShape;

    closed spec fn view(&self) -> ColorShape {
        shape_of(self.loc, self.width, self.height, self.color)
    }
}

impl SimpleRect {
    /// The shape never lies farther from its anchor than an `i32` offset.
    #[verifier::type_invariant]
    spec fn reachable(self) -> bool {
        self.loc.reachable()
    }

    pub fn new(
        xloc: i32,
        yloc: i32,
        width: i32,
        height: i32,
        red: u8,
        green: u8,
        blue: u8,
    ) -> (rect: SimpleRect)
        ensures
            rect@ == (ColorShape {
                anchor: (xloc as int, yloc as int),
                center: (xloc as int, yloc as int),
                width: width as int,
                height: height as int,
                color: Color { red, green, blue },
            }),
    {
        SimpleRect { loc: LocInfo::new(xloc, yloc), width, height, color: Color { red, green, blue } }
    }

    /// The edges of the rectangle: top, bottom, left, right.
    pub fn calc_corners(&self) -> (edges: (i64, i64, i64, i64))
        ensures
            edges.0 == self@.top(),
            edges.1 == self@.bottom(),
            edges.2 == self@.left(),
            edges.3 == self@.right(),
    {
        proof {
            use_type_invariant(self);
        }
        let top = self.loc.y + half(self.height);
        let bottom = self.loc.y - half(self.height);
        let right = self.loc.x + half(self.width);
        let left = self.loc.x - half(self.width);
        (top, bottom, left, right)
    }
}

impl Updateable for SimpleRect {
    open spec fn anchor(&self) -> (int, int) {
        self@.anchor
    }

    open spec fn place(&self) -> (int, int) {
        self@.center
    }

    fn update_offset(&mut self, x_offset: i32, y_offset: i32)
        ensures
            final(self)@ == old(self)@.moved(x_offset as int, y_offset as int),
    {
        let mut loc = self.loc;
        loc.update_offset(x_offset, y_offset);
        self.loc = loc;
    }
}

impl VertexSpecable for SimpleRect {
    type Component = i64;

    open spec fn geometry(&self) -> Geometry<i64> {
        self@.rectangle()
    }

    fn get_vertex_specification(&self) -> (spec: VertexSpecification<i64>)
        ensures
            spec@ == self@.rectangle(),
    {
        let (top, bottom, left, right) = self.calc_corners();
        let (red, green, blue) = self.color.channels();
        VertexSpecification::colored_rectangle(Edges { top, bottom, left, right }, red, green, blue)
    }
}

/// A filled triangle of one color, given by the center and the extent of
/// the rectangle that holds it.
#[derive(Debug, Clone, Copy)]
pub struct SimpleTriangle {
    loc: LocInfo,
    width: i32,
    height: i32,
    color: Color,
}

impl View for SimpleTriangle {
    type V = ColorShape;

    closed spec fn view(&self) -> ColorShape {
        shape_of(self.loc, self.width, self.height, self.color)
    }
}

impl SimpleTriangle {
    /// The shape never lies farther from its anchor than an `i32` offset.
    #[verifier::type_invariant]
    spec fn reachable(self) -> bool {
        self.loc.reachable()
    }

    pub fn new(
        xloc: i32,
        yloc: i32,
        width: i32,
        height: i32,
        red: u8,
        green: u8,
        blue: u8,
    ) -> (triangle: SimpleTriangle)
        ensures
            triangle@ == (ColorShape {
                anchor: (xloc as int, yloc as int),
                center: (xloc as int, yloc as int),
                width: width as int,
                height: height as int,
                color: Color { red, green, blue },
            }),
    {
        SimpleTriangle {
            loc: LocInfo::new(xloc, yloc),
            width,
            height,
            color: Color { red, green, blue },
        }
    }

    /// The lines on which the points lie: top, bottom, left, right, middle.
    pub fn calc_points(&self) -> (lines: (i64, i64, i64, i64, i64))
        ensures
            lines.0 == self@.top(),
            lines.1 == self@.bottom(),
            lines.2 == self@.left(),
            lines.3 == self@.right(),
            lines.4 == self@.center.0,
    {
        proof {
            use_type_invariant(self);
        }
        let top = self.loc.y + half(self.height);
        let bottom = self.loc.y - half(self.height);
        let right = self.loc.x + half(self.width);
        let left = self.loc.x - half(self.width);
        let middle = self.loc.x;
        (top, bottom, left, right, middle)
    }
}

impl Updateable for SimpleTriangle {
    open spec fn anchor(&self) -> (int, int) {
        self@.anchor
    }

    open spec fn place(&self) -> (int, int) {
        self@.center
    }

    fn update_offset(&mut self, x_offset: i32, y_offset: i32)
        ensures
            final(self)@ == old(self)@.moved(x_offset as int, y_offset as int),
    {
        let mut loc = self.loc;
        loc.update_offset(x_offset, y_offset);
        self.loc = loc;
    }
}

impl VertexSpecable for SimpleTriangle {
    type Component = i64;

    open spec fn geometry(&self) -> Geometry<i64> {
        self@.triangle()
    }

    fn get_vertex_specification(&self) -> (spec: VertexSpecification<i64>)
        ensures
            spec@ == self@.triangle(),
    {
        let (top, bottom, left, right, middle) = self.calc_points();
        let (red, green, blue) = self.color.channels();
        VertexSpecification::colored_triangle(
            Edges { top, bottom, left, right },
            middle,
            red,
            green,
            blue,
        )
    }
}

/// Either of the colored shapes, so that one list can hold both.
#[derive(Debug, Clone, Copy)]
pub enum Shape {
    Rect(SimpleRect),
    Triangle(SimpleTriangle),
}

impl View for Shape {
    type V = ColorShape;

    open spec fn view(&self) -> ColorShape {
        match self {
            Shape::Rect(rect) => rect@,
            Shape::Triangle(triangle) => triangle@,
        }
    }
}

impl Shape {
    /// The shape of the given kind at its anchor.
    pub fn new(
        kind: ShapeType,
        xloc: i32,
        yloc: i32,
        width: i32,
        height: i32,
        red: u8,
        green: u8,
        blue: u8,
    ) -> (shape: Shape)
        ensures
            shape is Rect <==> kind == ShapeType::Rect,
            shape@ == (ColorShape {
                anchor: (xloc as int, yloc as int),
                center: (xloc as int, yloc as int),
                width: width as int,
                height: height as int,
                color: Color { red, green, blue },
            }),
    {
        match kind {
            ShapeType::Rect => Shape::Rect(
                SimpleRect::new(xloc, yloc, width, height, red, green, blue),
            ),
            ShapeType::Triangle => Shape::Triangle(
                SimpleTriangle::new(xloc, yloc, width, height, red, green, blue),
            ),
        }
    }
}

impl Updateable for Shape {
    open spec fn anchor(&self) -> (int, int) {
        self@.anchor
    }

    open spec fn place(&self) -> (int, int) {
        self@.center
    }

    fn update_offset(&mut self, x_offset: i32, y_offset: i32)
        ensures
            final(self)@ == old(self)@.moved(x_offset as int, y_offset as int),
            (*final(self) is Rect) <==> (*old(self) is Rect),
    {
        match self {
            Shape::Rect(rect) => rect.update_offset(x_offset, y_offset),
            Shape::Triangle(triangle) => triangle.update_offset(x_offset, y_offset),
        }
    }
}

impl VertexSpecable for Shape {
    type Component = i64;

    open spec fn geometry(&self) -> Geometry<i64> {
        match self {
            Shape::Rect(rect) => rect@.rectangle(),
            Shape::Triangle(triangle) => triangle@.triangle(),
        }
    }

    fn get_vertex_specification(&self) -> (spec: VertexSpecification<i64>) {
        match self {
            Shape::Rect(rect) => rect.get_vertex_specification(),
            Shape::Triangle(triangle) => triangle.get_vertex_specification(),
        }
    }
}

/// Colored shapes hold at most four vertices of five components each.
pub proof fn lemma_shapes_are_small(shapes: Seq<Shape>)
    ensures
        0 <= component_total(drawn(shapes)) <= 20 * shapes.len(),
        component_total(drawn(shapes)) % 5 == 0,
    decreases shapes.len(),
{
    let all = drawn(shapes);
    lemma_total_not_negative(all);
    if shapes.len() > 0 {
        lemma_shapes_are_small(shapes.drop_last());
        assert(all.drop_last() =~= drawn(shapes.drop_last()));
        assert(all.last() == shapes.last().geometry());
        assert(all.last().vertices.len() == 20 || all.last().vertices.len() == 15);
    }
}

/// Colored shapes always merge at a width of five, as long as their
/// vertices can be counted in an `i32`, and every index of the batch then
/// names a vertex of the batch.
pub proof fn lemma_shapes_merge(shapes: Seq<Shape>)
    requires
        4 * shapes.len() <= i32::MAX,
    ensures
        merged(drawn(shapes), 5) is Ok,
        indices_local(merged(drawn(shapes), 5).unwrap(), 5),
{
    let all = drawn(shapes);
    assert forall|k: int| 0 <= k < all.len() implies sound_at(all, 5, k) && indices_local(
        #[trigger] all[k],
        5,
    ) by {
        let g = all[k];
        assert(g == shapes[k].geometry());
        assert(g.vertices.len() == 20 || g.vertices.len() == 15);
        assert(g.indices.len() == 6 || g.indices.len() == 3);
        assert(all.take(k) =~= drawn(shapes.take(k)));
        lemma_shapes_are_small(shapes.take(k));
        let before = component_total(all.take(k));
        assert(0 <= before / 5 <= 4 * k);
        assert forall|i: int| 0 <= i < g.indices.len() implies 0 <= #[trigger] g.indices[i] < (
        g.vertices.len() as int) / 5 by {
            if g.indices.len() == 6 {
                assert(g.indices =~= seq![0i32, 1i32, 2i32, 2i32, 3i32, 0i32]);
            } else {
                assert(g.indices =~= seq![0i32, 1i32, 2i32]);
            }
        }
    }
    lemma_merges_iff_all_sound(all, 5);
    lemma_indices_in_range(all, 5);
}

/// An offset counts from the anchor: of two offsets given one after the
/// other only the second shows, and the offset (0, 0) brings the shape
/// back to where it was created.
pub proof fn lemma_offset_counts_from_anchor(shape: ColorShape, first: (int, int), second: (int, int))
    ensures
        shape.moved(first.0, first.1).moved(second.0, second.1) == shape.moved(second.0, second.1),
        shape.moved(first.0, first.1).moved(0, 0).center == shape.anchor,
        shape.moved(first.0, first.1).anchor == shape.anchor,
{
}

} // verus!
