use vstd::prelude::*;

verus! {

/// Scale of the fixed-point numbers used for coordinates and colors:
/// a stored value `v` stands for `v / UNIT`.
pub const UNIT: u32 = 100_000;

/// Selects a camera projection. The only one offered is the standard 2D
/// orthographic projection.
#[derive(Clone, Copy, Debug, PartialEq, Eq, Structural)]
pub enum CameraSpec {
    Standard2d,
}

/// A point in space, in fixed point (see `UNIT`).
#[derive(Clone, Copy, Debug, PartialEq, Eq, Structural)]
pub struct Position {
    pub x: u32,
    pub y: u32,
    pub z: u32,
}

/// A point on a texture, in fixed point (see `UNIT`).
#[derive(Clone, Copy, Debug, PartialEq, Eq, Structural)]
pub struct TexCoord {
    pub u: u32,
    pub v: u32,
}

/// One corner of a triangle: a position in space and a texture coordinate,
/// both in fixed point (see `UNIT`).
#[derive(Clone, Copy, Debug, PartialEq, Eq, Structural)]
pub struct Vertex {
    pub position: Position,
    pub tex_coord: TexCoord,
}

/// A flat red, green, blue, alpha tint in fixed point (see `UNIT`).
#[derive(Clone, Copy, Debug, PartialEq, Eq, Structural)]
pub struct ColorRgba {
    pub r: u32,
    pub g: u32,
    pub b: u32,
    pub a: u32,
}

/// Placement of a drawable in the world; only the identity is used.
#[derive(Clone, Copy, Debug, PartialEq, Eq, Structural)]
pub enum Transform {
    Identity,
}

/// A renderable primitive: a flat triangle list with one tint and a transform.
#[derive(Debug)]
pub struct Drawable {
    pub vertices: Vec<Vertex>,
    pub color: ColorRgba,
    pub transform: Transform,
}

/// What a drawable is, as a value: its vertices, tint and transform.
pub struct DrawableModel {
    pub vertices: Seq<Vertex>,
    pub color: ColorRgba,
    pub transform: Transform,
}

impl View for Drawable {
    type V = DrawableModel;

    open spec fn view(&self) -> DrawableModel {
        DrawableModel { vertices: self.vertices@, color: self.color, transform: self.transform }
    }
}

/// What a scene holds: its cameras and drawables, in the order they were added.
pub struct SceneModel {
    pub cameras: Seq<CameraSpec>,
    pub drawables: Seq<Drawable>,
}

/// The cameras and drawables of a scene. Entries are only ever appended.
pub struct SceneState {
    cameras: Vec<CameraSpec>,
    drawables: Vec<Drawable>,
}

impl View for SceneState {
    type V = SceneModel;

    closed spec fn view(&self) -> SceneModel {
        SceneModel { cameras: self.cameras@, drawables: self.drawables@ }
    }
}

impl SceneState {
    /// An empty scene: no camera, no drawable.
    pub fn new() -> (r: SceneState)
        ensures
            r@.cameras.len() == 0,
            r@.drawables.len() == 0,
    {
        SceneState { cameras: Vec::new(), drawables: Vec::new() }
    }

    /// Registers one more camera; the drawables are left alone.
    pub fn init(&mut self, camera: CameraSpec)
        ensures
            final(self)@.cameras == old(self)@.cameras.push(camera),
            final(self)@.drawables == old(self)@.drawables,
    {
        self.cameras.push(camera);
    }

    /// Appends one drawable. The geometry is taken as it is, however many
    /// vertices it has.
    pub fn add_drawable(&mut self, vertices: Vec<Vertex>, color: ColorRgba, transform: Transform)
        ensures
            final(self)@.cameras == old(self)@.cameras,
            final(self)@.drawables.len() == old(self)@.drawables.len() + 1,
            forall|i: int|
                0 <= i < old(self)@.drawables.len() ==> #[trigger] final(self)@.drawables[i]
                    == old(self)@.drawables[i],
            final(self)@.drawables.last()@ == (DrawableModel {
                vertices: vertices@,
                color,
                transform,
            }),
    {
        self.drawables.push(Drawable { vertices, color, transform });
    }

    pub fn camera_count(&self) -> (r: usize)
        ensures
            r == self@.cameras.len(),
    {
        self.cameras.len()
    }

    pub fn drawable_count(&self) -> (r: usize)
        ensures
            r == self@.drawables.len(),
    {
        self.drawables.len()
    }

    pub fn camera(&self, i: usize) -> (r: CameraSpec)
        requires
            i < self@.cameras.len(),
        ensures
            r == self@.cameras[i as int],
    {
        self.cameras[i]
    }

    pub fn drawable(&self, i: usize) -> (r: &Drawable)
        requires
            i < self@.drawables.len(),
        ensures
            *r == self@.drawables[i as int],
    {
        &self.drawables[i]
    }
}

/// Left edge of the quad: a quarter of the unit.
pub const QUAD_LEFT: u32 = 25_000;

/// Right edge of the quad: three quarters of the unit.
pub const QUAD_RIGHT: u32 = 75_000;

/// Bottom edge of the quad: a quarter of the unit.
pub const QUAD_BOTTOM: u32 = 25_000;

/// Top edge of the quad: three quarters of the unit.
pub const QUAD_UP: u32 = 75_000;

pub open spec fn vertex_at(x: u32, y: u32, u: u32, v: u32) -> Vertex {
    Vertex { position: Position { x, y, z: 0 }, tex_coord: TexCoord { u, v } }
}

/// The quad as two triangles of a flat list. Corners are repeated on purpose,
/// and the texture coordinates are kept as drawn, two corners sharing (1, 1).
pub open spec fn quad_vertices() -> Seq<Vertex> {
    seq![
        vertex_at(QUAD_LEFT, QUAD_BOTTOM, 0, 0),
        vertex_at(QUAD_RIGHT, QUAD_BOTTOM, UNIT, 0),
        vertex_at(QUAD_LEFT, QUAD_UP, UNIT, UNIT),
        vertex_at(QUAD_RIGHT, QUAD_UP, UNIT, UNIT),
        vertex_at(QUAD_LEFT, QUAD_UP, 0, UNIT),
        vertex_at(QUAD_RIGHT, QUAD_BOTTOM, 0, 0),
    ]
}

/// The quad's tint: (0.25, 0.25, 0.0, 1.0).
pub open spec fn quad_color() -> ColorRgba {
    ColorRgba { r: 25_000, g: 25_000, b: 0, a: UNIT }
}

/// The drawable that `init_square` adds.
pub open spec fn quad_drawable() -> DrawableModel {
    DrawableModel { vertices: quad_vertices(), color: quad_color(), transform: Transform::Identity }
}

fn vertex(x: u32, y: u32, u: u32, v: u32) -> (r: Vertex)
    ensures
        r == vertex_at(x, y, u, v),
{
    Vertex { position: Position { x, y, z: 0 }, tex_coord: TexCoord { u, v } }
}

/// The six vertices of the quad.
pub fn gen_vertices() -> (r: Vec<Vertex>)
    ensures
        r@ == quad_vertices(),
{
    let r = vec![
        vertex(QUAD_LEFT, QUAD_BOTTOM, 0, 0),
        vertex(QUAD_RIGHT, QUAD_BOTTOM, UNIT, 0),
        vertex(QUAD_LEFT, QUAD_UP, UNIT, UNIT),
        vertex(QUAD_RIGHT, QUAD_UP, UNIT, UNIT),
        vertex(QUAD_LEFT, QUAD_UP, 0, UNIT),
        vertex(QUAD_RIGHT, QUAD_BOTTOM, 0, 0),
    ];
    assert(r@ =~= quad_vertices());
    r
}

/// The quad's tint.
pub fn gen_colors() -> (r: ColorRgba)
    ensures
        r == quad_color(),
{
    ColorRgba { r: 25_000, g: 25_000, b: 0, a: UNIT }
}

/// Adds the standard 2D camera to the scene.
pub fn init_camera(scene: &mut SceneState)
    ensures
        final(scene)@.cameras == old(scene)@.cameras.push(CameraSpec::Standard2d),
        final(scene)@.drawables == old(scene)@.drawables,
{
    scene.init(CameraSpec::Standard2d);
}

/// Adds the quad, with its tint and the identity transform, to the scene.
pub fn init_square(scene: &mut SceneState)
    ensures
        final(scene)@.cameras == old(scene)@.cameras,
        final(scene)@.drawables.len() == old(scene)@.drawables.len() + 1,
        forall|i: int|
            0 <= i < old(scene)@.drawables.len() ==> #[trigger] final(scene)@.drawables[i]
                == old(scene)@.drawables[i],
        final(scene)@.drawables.last()@ == quad_drawable(),
{
    let vertices = gen_vertices();
    let color = gen_colors();
    scene.add_drawable(vertices, color, Transform::Identity);
}

} // verus!
