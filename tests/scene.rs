use flat_quad::scene::{
    gen_colors, gen_vertices, init_camera, init_square, CameraSpec, ColorRgba, Position,
    SceneState, TexCoord, Transform, Vertex, UNIT,
};

fn v(x: u32, y: u32, u: u32, w: u32) -> Vertex {
    Vertex { position: Position { x, y, z: 0 }, tex_coord: TexCoord { u, v: w } }
}

fn to_f32(x: u32) -> f32 {
    x as f32 / UNIT as f32
}

#[test]
fn scenario_camera_and_square() {
    let mut s = SceneState::new();
    init_camera(&mut s);
    init_square(&mut s);
    assert_eq!(s.camera_count(), 1);
    assert_eq!(s.camera(0), CameraSpec::Standard2d);
    assert_eq!(s.drawable_count(), 1);
    let d = s.drawable(0);
    assert_eq!(d.vertices.len(), 6);
    let c = d.color;
    assert_eq!((to_f32(c.r), to_f32(c.g), to_f32(c.b), to_f32(c.a)), (0.25, 0.25, 0.0, 1.0));
    assert_eq!(d.transform, Transform::Identity);
}

#[test]
fn quad_vertices_exact() {
    let q = 25_000;
    let t = 75_000;
    assert_eq!(
        gen_vertices(),
        vec![
            v(q, q, 0, 0),
            v(t, q, UNIT, 0),
            v(q, t, UNIT, UNIT),
            v(t, t, UNIT, UNIT),
            v(q, t, 0, UNIT),
            v(t, q, 0, 0),
        ]
    );
    assert_eq!(to_f32(gen_vertices()[3].position.x), 0.75);
}

#[test]
fn quad_color_exact() {
    assert_eq!(gen_colors(), ColorRgba { r: 25_000, g: 25_000, b: 0, a: 100_000 });
}

#[test]
fn init_twice_makes_two_cameras() {
    let mut s = SceneState::new();
    init_camera(&mut s);
    init_camera(&mut s);
    assert_eq!(s.camera_count(), 2);
    assert_eq!(s.drawable_count(), 0);
}

#[test]
fn degenerate_geometry_is_accepted() {
    let mut s = SceneState::new();
    s.add_drawable(vec![v(0, 0, 0, 0)], ColorRgba { r: 0, g: 0, b: 0, a: 0 }, Transform::Identity);
    s.add_drawable(Vec::new(), gen_colors(), Transform::Identity);
    assert_eq!(s.drawable_count(), 2);
    assert_eq!(s.drawable(0).vertices.len(), 1);
    assert_eq!(s.drawable(1).vertices.len(), 0);
    assert_eq!(s.camera_count(), 0);
}

#[test]
fn square_appends_after_existing_drawables() {
    let mut s = SceneState::new();
    s.add_drawable(vec![v(1, 2, 3, 4)], gen_colors(), Transform::Identity);
    init_square(&mut s);
    assert_eq!(s.drawable_count(), 2);
    assert_eq!(s.drawable(0).vertices, vec![v(1, 2, 3, 4)]);
    assert_eq!(s.drawable(1).vertices, gen_vertices());
}
