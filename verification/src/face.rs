//! One face of the cube, and the table that says what each of the six faces is.
//!
//! The table is given twice. The spec function [`template`] says what a face
//! is, from [`turned`], [`normal_of`], [`atlas_rect`] and [`corner_uv`];
//! [`Face::template`] builds the face, and is proved to build exactly that.

use crate::units::{
    BASIC_FRACTIONS, BASIC_VERTEXES, HALF, QUARTER, THIRD, THREE_QUARTERS, TWO_THIRDS, UNIT,
};
use vstd::prelude::*;

verus! {

/// Faces of a cube.
pub const FACE_COUNT: usize = 6;

/// Vertexes that a face lists: two triangles of three.
pub const VERTEX_COUNT: usize = 6;

/// Index of the face whose normal is `+z`.
pub const POS_Z: usize = 0;

/// Index of the face whose normal is `-z`.
pub const NEG_Z: usize = 1;

/// Index of the face whose normal is `+x`.
pub const POS_X: usize = 2;

/// Index of the face whose normal is `-x`.
pub const NEG_X: usize = 3;

/// Index of the face whose normal is `+y`.
pub const POS_Y: usize = 4;

/// Index of the face whose normal is `-y`.
pub const NEG_Y: usize = 5;

/// One face of a cube: a quad, listed as two triangles without an index buffer.
#[derive(Clone, Copy, Debug, PartialEq, Eq)]
pub struct Face {
    /// Texture coordinate `[u, v]` of each vertex, in steps across the atlas.
    pub uv: [[i32; 2]; 6],
    /// Outward direction: a unit vector along one axis.
    pub normal: [i8; 3],
    /// Position `[x, y, z]` of each vertex, in steps from the cube's centre.
    pub vertexes: [[i32; 3]; 6],
    /// Marks a face that is hidden from view. No face is marked as yet.
    pub obfuscated: bool,
}

/// A face as mathematics: points and vectors of integers.
pub struct FaceView {
    /// Texture coordinate `(u, v)` of each vertex.
    pub uv: Seq<(int, int)>,
    /// Outward direction.
    pub normal: (int, int, int),
    /// Position `(x, y, z)` of each vertex.
    pub vertexes: Seq<(int, int, int)>,
    /// Whether the face is marked as hidden.
    pub obfuscated: bool,
}

impl View for Face {
    type V = FaceView;

    open spec fn view(&self) -> FaceView {
        FaceView {
            uv: Seq::new(VERTEX_COUNT as nat, |i: int| texel(self.uv[i])),
            normal: heading(self.normal),
            vertexes: Seq::new(VERTEX_COUNT as nat, |i: int| point(self.vertexes[i])),
            obfuscated: self.obfuscated,
        }
    }
}

/// The part of the atlas that one face shows, given by the texture coordinate
/// at each edge of its quad.
#[derive(Clone, Copy, Debug, PartialEq, Eq)]
pub struct AtlasRect {
    /// `u` at the vertexes where the basic quad has `x = -1/2`.
    pub left: i32,
    /// `u` at the vertexes where the basic quad has `x = +1/2`.
    pub right: i32,
    /// `v` at the vertexes where the basic quad has `y = -1/2`.
    pub bottom: i32,
    /// `v` at the vertexes where the basic quad has `y = +1/2`.
    pub top: i32,
}

/// A stored position as three integers.
pub open spec fn point(v: [i32; 3]) -> (int, int, int) {
    (v[0] as int, v[1] as int, v[2] as int)
}

/// A stored texture coordinate as two integers.
pub open spec fn texel(t: [i32; 2]) -> (int, int) {
    (t[0] as int, t[1] as int)
}

/// A stored normal as three integers.
pub open spec fn heading(n: [i8; 3]) -> (int, int, int) {
    (n[0] as int, n[1] as int, n[2] as int)
}

/// Whether `n` is one step along one axis, forwards or backwards.
pub open spec fn is_axis(n: (int, int, int)) -> bool {
    let (x, y, z) = n;
    ||| (x == 1 || x == -1) && y == 0 && z == 0
    ||| x == 0 && (y == 1 || y == -1) && z == 0
    ||| x == 0 && y == 0 && (z == 1 || z == -1)
}

/// The vector from `a` to `b`.
pub open spec fn between(a: (int, int, int), b: (int, int, int)) -> (int, int, int) {
    (b.0 - a.0, b.1 - a.1, b.2 - a.2)
}

/// The cross product of `a` and `b`.
pub open spec fn cross(a: (int, int, int), b: (int, int, int)) -> (int, int, int) {
    (a.1 * b.2 - a.2 * b.1, a.2 * b.0 - a.0 * b.2, a.0 * b.1 - a.1 * b.0)
}

/// The dot product of `a` and `b`.
pub open spec fn dot(a: (int, int, int), b: (int, int, int)) -> int {
    a.0 * b.0 + a.1 * b.1 + a.2 * b.2
}

/// Vertex `i` of the basic quad.
pub open spec fn basic_vertex(i: int) -> (int, int, int) {
    point(BASIC_VERTEXES[i])
}

/// Where the point `p` of the basic quad lies on face `d`: the quad is carried
/// onto each face by exchanging two axes, reversing axes, or both.
pub open spec fn turned(d: int, p: (int, int, int)) -> (int, int, int) {
    let (x, y, z) = p;
    if d == POS_Z {
        (-x, y, z)
    } else if d == NEG_Z {
        (x, -z, -y)
    } else if d == POS_X {
        (z, y, x)
    } else if d == NEG_X {
        (-z, y, -x)
    } else if d == POS_Y {
        (x, z, y)
    } else {
        (x, y, -z)
    }
}

/// The normal of face `d`.
pub open spec fn normal_of(d: int) -> (int, int, int) {
    if d == POS_Z {
        (0, 0, 1)
    } else if d == NEG_Z {
        (0, 0, -1)
    } else if d == POS_X {
        (1, 0, 0)
    } else if d == NEG_X {
        (-1, 0, 0)
    } else if d == POS_Y {
        (0, 1, 0)
    } else {
        (0, -1, 0)
    }
}

/// The part of the atlas that face `d` shows. Five faces run from a lower
/// `u` at the left to a higher at the right; face `POS_Z` runs from 3/4 down
/// to 1/2. `v` grows downwards on every face.
pub open spec fn atlas_rect(d: int) -> AtlasRect {
    if d == POS_Z {
        AtlasRect { left: THREE_QUARTERS, right: HALF, bottom: TWO_THIRDS, top: THIRD }
    } else if d == NEG_Z {
        AtlasRect { left: QUARTER, right: HALF, bottom: UNIT, top: TWO_THIRDS }
    } else if d == POS_X {
        AtlasRect { left: HALF, right: THREE_QUARTERS, bottom: TWO_THIRDS, top: THIRD }
    } else if d == NEG_X {
        AtlasRect { left: 0, right: QUARTER, bottom: TWO_THIRDS, top: THIRD }
    } else if d == POS_Y {
        AtlasRect { left: QUARTER, right: HALF, bottom: THIRD, top: 0 }
    } else {
        AtlasRect { left: THREE_QUARTERS, right: UNIT, bottom: TWO_THIRDS, top: THIRD }
    }
}

/// The texture coordinate that goes with vertex `i` of the basic quad: each
/// vertex takes the coordinate of the two edges of `rect` that it lies on.
pub open spec fn corner_uv(rect: AtlasRect, i: int) -> (int, int) {
    let (x, y, _) = basic_vertex(i);
    (
        if x < 0 {
            rect.left as int
        } else {
            rect.right as int
        },
        if y < 0 {
            rect.bottom as int
        } else {
            rect.top as int
        },
    )
}

/// Face `d` of the table.
pub open spec fn template(d: int) -> FaceView {
    FaceView {
        uv: Seq::new(VERTEX_COUNT as nat, |i: int| corner_uv(atlas_rect(d), i)),
        normal: normal_of(d),
        vertexes: Seq::new(VERTEX_COUNT as nat, |i: int| turned(d, basic_vertex(i))),
        obfuscated: false,
    }
}

/// The table: the six faces in the order `+z`, `-z`, `+x`, `-x`, `+y`, `-y`.
pub open spec fn face_table() -> Seq<FaceView> {
    Seq::new(FACE_COUNT as nat, |d: int| template(d))
}

impl FaceView {
    /// The cross product of the two edges that leave vertex `i` of the
    /// triangle whose vertexes are `i`, `i + 1` and `i + 2`.
    pub open spec fn triangle_normal(self, i: int) -> (int, int, int) {
        cross(
            between(self.vertexes[i], self.vertexes[i + 1]),
            between(self.vertexes[i], self.vertexes[i + 2]),
        )
    }
}

impl Face {
    /// Face `d` of the table.
    pub(crate) fn template(d: usize) -> (face: Face)
        requires
            d < FACE_COUNT,
        ensures
            face@ == template(d as int),
    {
        let face = Face {
            uv: quad_uv(rect_for(d)),
            normal: normal_for(d),
            vertexes: quad_on(d),
            obfuscated: false,
        };
        assert(face@.uv =~= template(d as int).uv);
        assert(face@.vertexes =~= template(d as int).vertexes);
        face
    }
}

/// Carries one point of the basic quad onto face `d`.
fn turn(d: usize, v: [i32; 3]) -> (r: [i32; 3])
    requires
        d < FACE_COUNT,
        forall|k: int| 0 <= k < 3 ==> v[k] > i32::MIN,
    ensures
        point(r) == turned(d as int, point(v)),
{
    let x: i32 = v[0];
    let y: i32 = v[1];
    let z: i32 = v[2];
    if d == POS_Z {
        [-x, y, z]
    } else if d == NEG_Z {
        [x, -z, -y]
    } else if d == POS_X {
        [z, y, x]
    } else if d == NEG_X {
        [-z, y, -x]
    } else if d == POS_Y {
        [x, z, y]
    } else {
        [x, y, -z]
    }
}

/// The six vertexes of face `d`.
fn quad_on(d: usize) -> (r: [[i32; 3]; 6])
    requires
        d < FACE_COUNT,
    ensures
        forall|i: int|
            0 <= i < VERTEX_COUNT ==> point(#[trigger] r[i]) == turned(d as int, basic_vertex(i)),
{
    let mut r: [[i32; 3]; 6] = [[0; 3]; 6];
    let mut i: usize = 0;
    while i < VERTEX_COUNT
        invariant
            d < FACE_COUNT,
            i <= VERTEX_COUNT,
            forall|j: int|
                0 <= j < i ==> point(#[trigger] r[j]) == turned(d as int, basic_vertex(j)),
        decreases VERTEX_COUNT - i,
    {
        r[i] = turn(d, BASIC_VERTEXES[i]);
        i += 1;
    }
    r
}

/// The normal of face `d`.
fn normal_for(d: usize) -> (n: [i8; 3])
    requires
        d < FACE_COUNT,
    ensures
        heading(n) == normal_of(d as int),
{
    if d == POS_Z {
        [0, 0, 1]
    } else if d == NEG_Z {
        [0, 0, -1]
    } else if d == POS_X {
        [1, 0, 0]
    } else if d == NEG_X {
        [-1, 0, 0]
    } else if d == POS_Y {
        [0, 1, 0]
    } else {
        [0, -1, 0]
    }
}

/// The part of the atlas that face `d` shows, picked from the atlas boundaries.
fn rect_for(d: usize) -> (rect: AtlasRect)
    requires
        d < FACE_COUNT,
    ensures
        rect == atlas_rect(d as int),
{
    let f: [i32; 5] = BASIC_FRACTIONS;
    if d == POS_Z {
        AtlasRect { left: f[4], right: f[0], bottom: f[2], top: f[1] }
    } else if d == NEG_Z {
        AtlasRect { left: f[3], right: f[0], bottom: UNIT, top: f[2] }
    } else if d == POS_X {
        AtlasRect { left: f[0], right: f[4], bottom: f[2], top: f[1] }
    } else if d == NEG_X {
        AtlasRect { left: 0, right: f[3], bottom: f[2], top: f[1] }
    } else if d == POS_Y {
        AtlasRect { left: f[3], right: f[0], bottom: f[1], top: 0 }
    } else {
        AtlasRect { left: f[4], right: UNIT, bottom: f[2], top: f[1] }
    }
}

/// The texture coordinates of a quad that shows `rect`, vertex for vertex in
/// the order of the basic quad.
fn quad_uv(rect: AtlasRect) -> (uv: [[i32; 2]; 6])
    ensures
        forall|i: int| 0 <= i < VERTEX_COUNT ==> texel(#[trigger] uv[i]) == corner_uv(rect, i),
{
    [
        [rect.left, rect.bottom],
        [rect.left, rect.top],
        [rect.right, rect.top],
        [rect.right, rect.top],
        [rect.right, rect.bottom],
        [rect.left, rect.bottom],
    ]
}

/// Every face lists six vertexes, each with a position and a texture
/// coordinate.
pub proof fn lemma_six_vertexes(face: Face)
    ensures
        face@.vertexes.len() == VERTEX_COUNT,
        face@.uv.len() == VERTEX_COUNT,
        face.vertexes@.len() == VERTEX_COUNT,
        face.uv@.len() == VERTEX_COUNT,
{
}

/// The texture coordinates of every face of the table lie within the atlas.
pub proof fn lemma_uv_within_atlas(d: int, i: int)
    requires
        0 <= d < FACE_COUNT,
        0 <= i < VERTEX_COUNT,
    ensures
        0 <= template(d).uv[i].0 <= UNIT,
        0 <= template(d).uv[i].1 <= UNIT,
{
}

/// On every face of the table the vertexes that are listed twice agree, in
/// position and in texture coordinate.
pub proof fn lemma_shared_vertexes(d: int)
    requires
        0 <= d < FACE_COUNT,
    ensures
        template(d).vertexes[3] == template(d).vertexes[2],
        template(d).vertexes[5] == template(d).vertexes[0],
        template(d).uv[3] == template(d).uv[2],
        template(d).uv[5] == template(d).uv[0],
{
}

/// The two triangles of every face of the table are not degenerate, turn the
/// same way, which is outwards from the centre of the cube, and lie in one
/// plane with all six vertexes.
pub proof fn lemma_triangles(d: int) by (nonlinear_arith)
    requires
        0 <= d < FACE_COUNT,
    ensures
        template(d).triangle_normal(0) != (0int, 0int, 0int),
        template(d).triangle_normal(3) == template(d).triangle_normal(0),
        dot(template(d).triangle_normal(0), template(d).vertexes[0]) > 0,
        forall|i: int|
            0 <= i < VERTEX_COUNT ==> dot(
                template(d).triangle_normal(0),
                between(template(d).vertexes[0], #[trigger] template(d).vertexes[i]),
            ) == 0,
{
    let face = template(d);
    let n = face.triangle_normal(0);
    assert(n != (0int, 0int, 0int) && face.triangle_normal(3) == n && dot(n, face.vertexes[0]) > 0);
    assert forall|i: int| 0 <= i < VERTEX_COUNT implies dot(
        n,
        between(face.vertexes[0], #[trigger] face.vertexes[i]),
    ) == 0 by {
        assert(i == 0 || i == 1 || i == 2 || i == 3 || i == 4 || i == 5);
    }
}

/// Each face of the table lies in one of the six planes that bound the cube,
/// and each of the six planes holds one face. The faces `NEG_Z` and `NEG_Y`
/// lie in the planes `y = -1/2` and `z = -1/2`.
pub proof fn lemma_face_planes(d: int, i: int)
    requires
        0 <= d < FACE_COUNT,
        0 <= i < VERTEX_COUNT,
    ensures
        ({
            let (x, y, z) = template(d).vertexes[i];
            &&& d == POS_Z ==> z == HALF
            &&& d == NEG_Z ==> y == -HALF
            &&& d == POS_X ==> x == HALF
            &&& d == NEG_X ==> x == -HALF
            &&& d == POS_Y ==> y == HALF
            &&& d == NEG_Y ==> z == -HALF
        }),
{
}

} // verus!
