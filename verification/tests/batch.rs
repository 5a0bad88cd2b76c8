use parallax::color_shapes::{half, Color, LocInfo, Shape, SimpleRect, SimpleTriangle, Updateable};
use parallax::fileformat::ShapeType;
use parallax::texture_shapes::TexRect;
use parallax::vertex::{
    append_all, assemble, full_vertex_spec, rebased_index, AssembleError, Edges, ElementTriangle,
    TextureVertex, Vertex, VertexSpecable, VertexSpecification,
};

fn spec(vertices: Vec<i64>, elements: Vec<i32>) -> VertexSpecification<i64> {
    VertexSpecification { vertices, elements }
}

#[test]
fn empty_input_gives_empty_batch() {
    let none: Vec<VertexSpecification<i64>> = Vec::new();
    for width in [0u8, 1, 5, 255] {
        let batch = assemble(&none, width).unwrap();
        assert!(batch.vertices.is_empty());
        assert!(batch.indices.is_empty());
    }
    let no_shapes: Vec<Shape> = Vec::new();
    let batch = full_vertex_spec(&no_shapes, 5).unwrap();
    assert!(batch.vertices.is_empty());
    assert!(batch.indices.is_empty());
}

#[test]
fn second_drawable_is_rebased_by_vertex_count() {
    let shapes = vec![
        Shape::new(ShapeType::Rect, 0, 0, 4, 2, 255, 0, 0),
        Shape::new(ShapeType::Triangle, 10, 10, 2, 2, 0, 255, 0),
    ];
    let batch = full_vertex_spec(&shapes, 5).unwrap();
    assert_eq!(batch.indices, vec![0, 1, 2, 2, 3, 0, 4, 5, 6]);
    assert_eq!(batch.vertices.len(), 35);
}

#[test]
fn rebasing_counts_vertices_not_components() {
    let a = spec(vec![1, 2, 3, 4, 5, 6, 7, 8], vec![0, 1, 2, 2, 3, 0]);
    let b = spec(vec![9, 10, 11, 12, 13, 14], vec![0, 1, 2]);
    let batch = assemble(&vec![a, b], 2).unwrap();
    assert_eq!(batch.indices, vec![0, 1, 2, 2, 3, 0, 4, 5, 6]);
    assert_eq!(batch.vertices, vec![1, 2, 3, 4, 5, 6, 7, 8, 9, 10, 11, 12, 13, 14]);
}

#[test]
fn three_drawables_keep_a_running_offset() {
    let a = spec(vec![1, 1, 1], vec![0, 1, 2]);
    let b = spec(vec![], vec![]);
    let c = spec(vec![2, 2], vec![0, 1, 1]);
    let d = spec(vec![3], vec![0, 0, 0]);
    let batch = assemble(&vec![a, b, c, d], 1).unwrap();
    assert_eq!(batch.vertices, vec![1, 1, 1, 2, 2, 3]);
    assert_eq!(batch.indices, vec![0, 1, 2, 3, 4, 4, 5, 5, 5]);
}

#[test]
fn lengths_are_sums_and_indices_stay_in_range() {
    let shapes = vec![
        Shape::new(ShapeType::Triangle, 1, 1, 2, 2, 1, 2, 3),
        Shape::new(ShapeType::Rect, 0, 0, 4, 2, 4, 5, 6),
        Shape::new(ShapeType::Rect, 5, 5, 6, 6, 7, 8, 9),
    ];
    let mut vertex_total = 0;
    let mut index_total = 0;
    for shape in shapes.iter() {
        let own = shape.get_vertex_specification();
        vertex_total += own.vertices.len();
        index_total += own.elements.len();
    }
    let batch = full_vertex_spec(&shapes, 5).unwrap();
    assert_eq!(batch.vertices.len(), vertex_total);
    assert_eq!(batch.indices.len(), index_total);
    assert_eq!(batch.vertices.len(), 55);
    assert_eq!(batch.indices.len(), 15);
    let vertex_count = (batch.vertices.len() / 5) as i32;
    for index in batch.indices.iter() {
        assert!(0 <= *index && *index < vertex_count);
    }
    assert_eq!(batch.indices, vec![0, 1, 2, 3, 4, 5, 5, 6, 3, 7, 8, 9, 9, 10, 7]);
}

#[test]
fn swapping_drawables_swaps_their_segments() {
    let a = SimpleRect::new(0, 0, 4, 2, 10, 20, 30).get_vertex_specification();
    let b = SimpleTriangle::new(7, 7, 2, 2, 40, 50, 60).get_vertex_specification();
    let ab = assemble(&vec![a.clone(), b.clone()], 5).unwrap();
    let ba = assemble(&vec![b.clone(), a.clone()], 5).unwrap();
    let mut a_then_b = a.vertices.clone();
    a_then_b.extend(b.vertices.iter());
    let mut b_then_a = b.vertices.clone();
    b_then_a.extend(a.vertices.iter());
    assert_eq!(ab.vertices, a_then_b);
    assert_eq!(ba.vertices, b_then_a);
    assert_eq!(&ab.vertices[..20], &ba.vertices[15..]);
    assert_eq!(&ab.vertices[20..], &ba.vertices[..15]);
    assert_eq!(ab.indices, vec![0, 1, 2, 2, 3, 0, 4, 5, 6]);
    assert_eq!(ba.indices, vec![0, 1, 2, 3, 4, 5, 5, 6, 3]);
}

#[test]
fn rectangle_corners_and_triangles() {
    let rect = SimpleRect::new(0, 0, 4, 2, 255, 128, 0);
    assert_eq!(rect.calc_corners(), (1, -1, -2, 2));
    let own = rect.get_vertex_specification();
    assert_eq!(
        own.vertices,
        vec![-2, 1, 255, 128, 0, 2, 1, 255, 128, 0, 2, -1, 255, 128, 0, -2, -1, 255, 128, 0]
    );
    assert_eq!(own.elements, vec![0, 1, 2, 2, 3, 0]);
    let batch = full_vertex_spec(&vec![rect], 5).unwrap();
    assert_eq!(batch.vertices, own.vertices);
    assert_eq!(batch.indices, vec![0, 1, 2, 2, 3, 0]);
}

#[test]
fn triangle_points() {
    let triangle = SimpleTriangle::new(10, 20, 6, 4, 1, 2, 3);
    assert_eq!(triangle.calc_points(), (22, 18, 7, 13, 10));
    let own = triangle.get_vertex_specification();
    assert_eq!(own.vertices, vec![10, 22, 1, 2, 3, 13, 18, 1, 2, 3, 7, 18, 1, 2, 3]);
    assert_eq!(own.elements, vec![0, 1, 2]);
}

#[test]
fn odd_and_negative_extents_halve_towards_zero() {
    let rect = SimpleRect::new(0, 0, 5, -3, 0, 0, 0);
    assert_eq!(rect.calc_corners(), (-1, 1, -2, 2));
    let far = SimpleRect::new(i32::MAX, i32::MIN, i32::MAX, i32::MIN, 0, 0, 0);
    let (top, bottom, left, right) = far.calc_corners();
    assert_eq!(top, i32::MIN as i64 - (1 << 30));
    assert_eq!(bottom, i32::MIN as i64 + (1 << 30));
    assert_eq!(left, i32::MAX as i64 - ((1 << 30) - 1));
    assert_eq!(right, i32::MAX as i64 + ((1 << 30) - 1));
}

#[test]
fn offsets_count_from_the_anchor() {
    let mut rect = SimpleRect::new(2, 3, 4, 2, 9, 9, 9);
    assert_eq!(rect.calc_corners(), (4, 2, 0, 4));
    rect.update_offset(1, 1);
    assert_eq!(rect.calc_corners(), (5, 3, 1, 5));
    rect.update_offset(0, 0);
    assert_eq!(rect.calc_corners(), (4, 2, 0, 4));
    rect.update_offset(5, 5);
    rect.update_offset(-1, 2);
    assert_eq!(rect.calc_corners(), (6, 4, -1, 3));
    let mut edge = SimpleTriangle::new(i32::MAX, i32::MIN, 0, 0, 0, 0, 0);
    edge.update_offset(i32::MAX, i32::MIN);
    assert_eq!(
        edge.calc_points(),
        (
            2 * (i32::MIN as i64),
            2 * (i32::MIN as i64),
            2 * (i32::MAX as i64),
            2 * (i32::MAX as i64),
            2 * (i32::MAX as i64)
        )
    );
}

#[test]
fn shapes_in_one_list_move_alike() {
    let mut shapes = vec![
        Shape::new(ShapeType::Rect, 0, 0, 2, 2, 1, 1, 1),
        Shape::new(ShapeType::Triangle, 0, 0, 2, 2, 2, 2, 2),
    ];
    for shape in shapes.iter_mut() {
        shape.update_offset(10, -10);
    }
    let batch = full_vertex_spec(&shapes, 5).unwrap();
    assert_eq!(
        batch.vertices,
        vec![
            9, -9, 1, 1, 1, 11, -9, 1, 1, 1, 11, -11, 1, 1, 1, 9, -11, 1, 1, 1, 10, -9, 2, 2, 2,
            11, -11, 2, 2, 2, 9, -11, 2, 2, 2
        ]
    );
    assert!(matches!(shapes[0], Shape::Rect(_)));
    assert!(matches!(shapes[1], Shape::Triangle(_)));
}

#[test]
fn textured_rectangle_shows_the_whole_texture() {
    let rect = TexRect::new(-1, 1, -2, 2);
    let own = rect.get_vertex_specification();
    assert_eq!(own.vertices, vec![-1, 2, 0, 0, 1, 2, 1, 0, 1, -2, 1, 1, -1, -2, 0, 1]);
    assert_eq!(own.elements, vec![0, 1, 2, 2, 3, 0]);
    let batch = full_vertex_spec(&vec![rect, TexRect::new(0, 0, 0, 0)], 4).unwrap();
    assert_eq!(batch.indices, vec![0, 1, 2, 2, 3, 0, 4, 5, 6, 6, 7, 4]);
}

#[test]
fn width_mismatch_names_the_drawable() {
    let good = spec(vec![0; 10], vec![0, 1, 1]);
    let bad = spec(vec![0; 7], vec![0, 0, 0]);
    assert_eq!(
        assemble(&vec![good.clone(), bad.clone(), bad.clone()], 5).unwrap_err(),
        AssembleError::WidthMismatch { drawable: 1 }
    );
    assert_eq!(
        assemble(&vec![good.clone()], 0).unwrap_err(),
        AssembleError::WidthMismatch { drawable: 0 }
    );
    assert_eq!(
        assemble(&vec![spec(vec![], vec![])], 0).unwrap_err(),
        AssembleError::WidthMismatch { drawable: 0 }
    );
    let textured = vec![TexRect::new(0, 1, 0, 1)];
    assert_eq!(
        full_vertex_spec(&textured, 5).unwrap_err(),
        AssembleError::WidthMismatch { drawable: 0 }
    );
}

#[test]
fn partial_triangle_names_the_drawable() {
    let good = spec(vec![0; 10], vec![0, 1, 1]);
    let bad = spec(vec![0; 5], vec![0, 0]);
    assert_eq!(
        assemble(&vec![good.clone(), good.clone(), bad], 5).unwrap_err(),
        AssembleError::MalformedTriangles { drawable: 2 }
    );
    let both = spec(vec![0; 4], vec![0]);
    assert_eq!(
        assemble(&vec![both], 5).unwrap_err(),
        AssembleError::WidthMismatch { drawable: 0 }
    );
}

#[test]
fn index_beyond_the_index_type_names_the_drawable() {
    let first = spec(vec![0; 3], vec![0, 1, 2]);
    let second = spec(vec![0; 1], vec![0, i32::MAX - 2, 0]);
    assert_eq!(
        assemble(&vec![first.clone(), second], 1).unwrap_err(),
        AssembleError::IndexOverflow { drawable: 1 }
    );
    let fits = spec(vec![0; 1], vec![0, i32::MAX - 3, -5]);
    let batch = assemble(&vec![first, fits], 1).unwrap();
    assert_eq!(batch.indices, vec![0, 1, 2, 3, i32::MAX, -2]);
}

#[test]
fn rebased_index_adds_or_declines() {
    assert_eq!(rebased_index(5, 4), Some(9));
    assert_eq!(rebased_index(-5, 4), Some(-1));
    assert_eq!(rebased_index(i32::MAX, 0), Some(i32::MAX));
    assert_eq!(rebased_index(i32::MAX, 1), None);
    assert_eq!(rebased_index(i32::MIN, u32::MAX as usize), Some(i32::MAX));
    assert_eq!(rebased_index(i32::MIN, u32::MAX as usize + 1), None);
    assert_eq!(rebased_index(0, usize::MAX), None);
}

#[test]
fn triangle_offsets_move_all_corners() {
    let triangle = ElementTriangle { p1: 2, p2: 3, p3: 0 };
    assert_eq!(triangle.get_vec(), vec![2, 3, 0]);
    assert_eq!(triangle.add_vertex_offset(4), Some(ElementTriangle { p1: 6, p2: 7, p3: 4 }));
    assert_eq!(triangle.add_vertex_offset(i32::MAX as usize - 2), None);
    let vertex = Vertex { x: 1, y: 2, red: 3, green: 4, blue: 5 };
    assert_eq!(vertex.get_vec(), vec![1, 2, 3, 4, 5]);
}

#[test]
fn components_of_any_kind_pass_through_unchanged() {
    let rect = VertexSpecification::colored_rectangle(
        Edges { top: 1.0f32, bottom: -1.0, left: -2.0, right: 2.0 },
        1.0,
        0.5,
        0.0,
    );
    assert_eq!(
        rect.vertices,
        vec![
            -2.0, 1.0, 1.0, 0.5, 0.0, 2.0, 1.0, 1.0, 0.5, 0.0, 2.0, -1.0, 1.0, 0.5, 0.0, -2.0,
            -1.0, 1.0, 0.5, 0.0
        ]
    );
    assert_eq!(rect.elements, vec![0, 1, 2, 2, 3, 0]);
    let triangle = VertexSpecification::colored_triangle(
        Edges { top: 0.75f32, bottom: 0.25, left: -0.5, right: 0.5 },
        0.0,
        0.0,
        0.0,
        1.0,
    );
    assert_eq!(
        triangle.vertices,
        vec![0.0, 0.75, 0.0, 0.0, 1.0, 0.5, 0.25, 0.0, 0.0, 1.0, -0.5, 0.25, 0.0, 0.0, 1.0]
    );
    assert_eq!(triangle.elements, vec![0, 1, 2]);
    let mut both = rect.vertices.clone();
    both.extend(triangle.vertices.iter());
    let batch = assemble(&vec![rect, triangle], 5).unwrap();
    assert_eq!(batch.vertices, both);
    assert_eq!(batch.indices, vec![0, 1, 2, 2, 3, 0, 4, 5, 6]);

    let textured = VertexSpecification::textured_rectangle(
        Edges { top: 1.0f64, bottom: -1.0, left: -0.5, right: 0.5 },
        0.0,
        1.0,
    );
    assert_eq!(
        textured.vertices,
        vec![-0.5, 1.0, 0.0, 0.0, 0.5, 1.0, 1.0, 0.0, 0.5, -1.0, 1.0, 1.0, -0.5, -1.0, 0.0, 1.0]
    );
    assert_eq!(textured.elements, vec![0, 1, 2, 2, 3, 0]);
    assert_eq!(
        assemble(&vec![textured], 3).unwrap_err(),
        AssembleError::WidthMismatch { drawable: 0 }
    );
}

#[test]
fn vertices_list_their_components_in_order() {
    assert_eq!(Vertex { x: 'x', y: 'y', red: 'r', green: 'g', blue: 'b' }.get_vec(), vec![
        'x', 'y', 'r', 'g', 'b'
    ]);
    assert_eq!(TextureVertex { x: 1u8, y: 2, tex_x: 3, tex_y: 4 }.get_vec(), vec![1, 2, 3, 4]);
    let mut all = vec![1, 2];
    append_all(&mut all, &vec![3, 4, 5]);
    append_all(&mut all, &vec![]);
    assert_eq!(all, vec![1, 2, 3, 4, 5]);
}

#[test]
fn errors_say_which_drawable_and_why() {
    let width = AssembleError::WidthMismatch { drawable: 0 };
    assert_eq!(width.drawable(), 0);
    assert_eq!(width.message(), "drawable 0: its components are no whole number of vertices");
    let triangles = AssembleError::MalformedTriangles { drawable: 12 };
    assert_eq!(triangles.drawable(), 12);
    assert_eq!(triangles.message(), "drawable 12: its indices are no whole number of triangles");
    let overflow = AssembleError::IndexOverflow { drawable: 4096 };
    assert_eq!(overflow.drawable(), 4096);
    assert_eq!(overflow.message(), "drawable 4096: one of its indices is too large once rebased");
    let bad = spec(vec![0; 7], vec![0, 0, 0]);
    let good = spec(vec![0; 10], vec![0, 1, 1]);
    assert_eq!(
        assemble(&vec![good, bad], 5).unwrap_err().message(),
        "drawable 1: its components are no whole number of vertices"
    );
}

#[test]
fn bare_rectangle_has_two_components_a_vertex() {
    let rect = VertexSpecification::plain_rectangle(Edges { top: 3, bottom: -3, left: -1, right: 1 });
    assert_eq!(rect.vertices, vec![-1, 3, 1, 3, 1, -3, -1, -3]);
    assert_eq!(rect.elements, vec![0, 1, 2, 2, 3, 0]);
    let other = VertexSpecification::plain_rectangle(Edges { top: 1, bottom: 0, left: 0, right: 1 });
    let batch = assemble(&vec![rect, other], 2).unwrap();
    assert_eq!(batch.vertices, vec![-1, 3, 1, 3, 1, -3, -1, -3, 0, 1, 1, 1, 1, 0, 0, 0]);
    assert_eq!(batch.indices, vec![0, 1, 2, 2, 3, 0, 4, 5, 6, 6, 7, 4]);
}

#[test]
fn extents_halve_towards_zero() {
    assert_eq!(half(0), 0);
    assert_eq!(half(1), 0);
    assert_eq!(half(-1), 0);
    assert_eq!(half(5), 2);
    assert_eq!(half(-5), -2);
    assert_eq!(half(4), 2);
    assert_eq!(half(-4), -2);
    assert_eq!(half(i32::MAX), (1 << 30) - 1);
    assert_eq!(half(i32::MIN), -(1 << 30));
}

#[test]
fn locations_keep_their_anchor() {
    let mut loc = LocInfo::new(2, 3);
    assert_eq!(loc, LocInfo { x: 2, y: 3, orig_x: 2, orig_y: 3 });
    loc.update_offset(1, 1);
    assert_eq!(loc, LocInfo { x: 3, y: 4, orig_x: 2, orig_y: 3 });
    loc.update_offset(0, 0);
    assert_eq!(loc, LocInfo { x: 2, y: 3, orig_x: 2, orig_y: 3 });
    loc.update_offset(i32::MIN, i32::MAX);
    assert_eq!(loc.x, 2 + i32::MIN as i64);
    assert_eq!(loc.y, 3 + i32::MAX as i64);
    assert_eq!(Color { red: 0, green: 128, blue: 255 }.channels(), (0, 128, 255));
}
