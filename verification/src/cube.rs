//! A cube on the voxel grid, and the vertex buffer that draws it.

use crate::face::{
    face_table, is_axis, point, Face, FaceView, FACE_COUNT, NEG_X, NEG_Y, NEG_Z, POS_X, POS_Y,
    POS_Z, VERTEX_COUNT,
};
use vstd::prelude::*;

verus! {

/// Slots that one vertex takes in the vertex buffer: three of position, two of
/// texture coordinate, three kept free.
pub const VERTEX_STRIDE: usize = 8;

/// Slots that one face takes in the vertex buffer.
pub const FACE_STRIDE: usize = 48;

/// Slots in the vertex buffer of one cube.
pub const BUFFER_LEN: usize = 288;

/// A cube of one whole along each edge, placed on the voxel grid.
#[derive(Clone, Copy, Debug, PartialEq, Eq)]
pub struct Cube {
    /// Place on the grid, in whole cubes. The geometry does not depend on it:
    /// every cube is described about its own centre.
    pub coord: [i32; 3],
    /// The six faces, in the order `+z`, `-z`, `+x`, `-x`, `+y`, `-y`.
    pub faces: [Face; 6],
}

/// A cube as mathematics.
pub struct CubeView {
    /// Place on the grid.
    pub coord: (int, int, int),
    /// The six faces.
    pub faces: Seq<FaceView>,
}

impl View for Cube {
    type V = CubeView;

    open spec fn view(&self) -> CubeView {
        CubeView {
            coord: point(self.coord),
            faces: Seq::new(FACE_COUNT as nat, |d: int| self.faces[d]@),
        }
    }
}

/// What slot `k` of the vertex buffer of `faces` holds. The buffer goes face
/// by face and, within a face, vertex by vertex; for each vertex it holds `x`,
/// `y`, `z`, `u`, `v` and three zeros.
pub open spec fn packed_slot(faces: Seq<FaceView>, k: int) -> int {
    let face = faces[k / (FACE_STRIDE as int)];
    let vertex = (k % (FACE_STRIDE as int)) / (VERTEX_STRIDE as int);
    let part = k % (VERTEX_STRIDE as int);
    if part == 0 {
        face.vertexes[vertex].0
    } else if part == 1 {
        face.vertexes[vertex].1
    } else if part == 2 {
        face.vertexes[vertex].2
    } else if part == 3 {
        face.uv[vertex].0
    } else if part == 4 {
        face.uv[vertex].1
    } else {
        0
    }
}

/// The vertex buffer of `faces`.
pub open spec fn packed(faces: Seq<FaceView>) -> Seq<int> {
    Seq::new(BUFFER_LEN as nat, |k: int| packed_slot(faces, k))
}

/// The values of a stored buffer, as integers.
pub open spec fn steps(buf: Seq<i32>) -> Seq<int> {
    buf.map_values(|s: i32| s as int)
}

impl Cube {
    /// Whether the six faces are those of the table, each in its place.
    pub open spec fn wf(self) -> bool {
        self@.faces == face_table()
    }

    /// A cube at `coord`, with the six faces of the table.
    pub fn new(coord: [i32; 3]) -> (cube: Cube)
        ensures
            cube@ == (CubeView { coord: point(coord), faces: face_table() }),
            cube.coord == coord,
            cube.wf(),
    {
        let faces: [Face; 6] = [
            Face::template(POS_Z),
            Face::template(NEG_Z),
            Face::template(POS_X),
            Face::template(NEG_X),
            Face::template(POS_Y),
            Face::template(NEG_Y),
        ];
        let cube = Cube { coord, faces };
        assert(cube@.faces =~= face_table());
        cube
    }

    /// Packs the six faces into one vertex buffer.
    pub fn to_vertex(&self) -> (buf: [i32; 288])
        ensures
            buf@.len() == BUFFER_LEN,
            steps(buf@) == packed(self@.faces),
    {
        let mut buf: [i32; 288] = [0; 288];
        let mut f: usize = 0;
        while f < FACE_COUNT
            invariant
                f <= FACE_COUNT,
                forall|k: int| 0 <= k < f * FACE_STRIDE ==> buf[k] == packed_slot(self@.faces, k),
                forall|k: int| f * FACE_STRIDE <= k < BUFFER_LEN ==> buf[k] == 0,
            decreases FACE_COUNT - f,
        {
            let mut v: usize = 0;
            while v < VERTEX_COUNT
                invariant
                    f < FACE_COUNT,
                    v <= VERTEX_COUNT,
                    forall|k: int|
                        0 <= k < f * FACE_STRIDE + v * VERTEX_STRIDE ==> buf[k] == packed_slot(
                            self@.faces,
                            k,
                        ),
                    forall|k: int|
                        f * FACE_STRIDE + v * VERTEX_STRIDE <= k < BUFFER_LEN ==> buf[k] == 0,
                decreases VERTEX_COUNT - v,
            {
                let base: usize = f * FACE_STRIDE + v * VERTEX_STRIDE;
                let run: [i32; 5] = combined(&self.faces[f], v);
                let mut s: usize = 0;
                while s < 5
                    invariant
                        f < FACE_COUNT,
                        v < VERTEX_COUNT,
                        s <= 5,
                        base == f * FACE_STRIDE + v * VERTEX_STRIDE,
                        forall|j: int| 0 <= j < 5 ==> run[j] == packed_slot(self@.faces, base + j),
                        forall|k: int| 0 <= k < base + s ==> buf[k] == packed_slot(self@.faces, k),
                        forall|k: int| base + s <= k < BUFFER_LEN ==> buf[k] == 0,
                    decreases 5 - s,
                {
                    buf[base + s] = run[s];
                    s += 1;
                }
                v += 1;
            }
            f += 1;
        }
        assert(steps(buf@) =~= packed(self@.faces));
        buf
    }
}

/// Position and texture coordinate of vertex `v` of a face, in one run.
fn combined(face: &Face, v: usize) -> (run: [i32; 5])
    requires
        v < VERTEX_COUNT,
    ensures
        (run[0] as int, run[1] as int, run[2] as int) == face@.vertexes[v as int],
        (run[3] as int, run[4] as int) == face@.uv[v as int],
{
    let p: [i32; 3] = face.vertexes[v];
    let t: [i32; 2] = face.uv[v];
    [p[0], p[1], p[2], t[0], t[1]]
}

/// The normals of a cube's faces are the six steps along an axis: each is one
/// of them, no two faces share one, and none is left out.
pub proof fn lemma_normals_are_the_six_axes(cube: Cube)
    requires
        cube.wf(),
    ensures
        forall|d: int| 0 <= d < FACE_COUNT ==> is_axis(#[trigger] cube@.faces[d].normal),
        forall|a: int, b: int|
            0 <= a < b < FACE_COUNT ==> #[trigger] cube@.faces[a].normal
                != #[trigger] cube@.faces[b].normal,
        forall|n: (int, int, int)|
            is_axis(n) ==> exists|d: int|
                0 <= d < FACE_COUNT && #[trigger] cube@.faces[d].normal == n,
{
    assert forall|n: (int, int, int)| is_axis(n) implies exists|d: int|
        0 <= d < FACE_COUNT && #[trigger] cube@.faces[d].normal == n by {
        let d: int = if n.2 == 1 {
            0
        } else if n.2 == -1 {
            1
        } else if n.0 == 1 {
            2
        } else if n.0 == -1 {
            3
        } else if n.1 == 1 {
            4
        } else {
            5
        };
        assert(cube@.faces[d].normal == n);
    }
}

/// Every face of a cube lists six vertexes, each with a position and a
/// texture coordinate.
pub proof fn lemma_six_faces_of_six_vertexes(cube: Cube)
    ensures
        cube@.faces.len() == FACE_COUNT,
        forall|d: int|
            0 <= d < FACE_COUNT ==> (#[trigger] cube@.faces[d]).vertexes.len() == VERTEX_COUNT,
        forall|d: int| 0 <= d < FACE_COUNT ==> (#[trigger] cube@.faces[d]).uv.len() == VERTEX_COUNT,
{
}

/// The vertex buffer has the same length whatever the faces are.
pub proof fn lemma_buffer_len(faces: Seq<FaceView>)
    ensures
        packed(faces).len() == BUFFER_LEN,
{
}

/// In the vertex buffer the vertex `v` of face `f` takes the eight slots from
/// `48 * f + 8 * v`: its position, its texture coordinate, and three zeros.
pub proof fn lemma_buffer_layout(faces: Seq<FaceView>, f: int, v: int)
    requires
        0 <= f < FACE_COUNT,
        0 <= v < VERTEX_COUNT,
    ensures
        ({
            let buf = packed(faces);
            let base = FACE_STRIDE * f + VERTEX_STRIDE * v;
            &&& 0 <= base
            &&& base + VERTEX_STRIDE <= buf.len()
            &&& (buf[base], buf[base + 1], buf[base + 2]) == faces[f].vertexes[v]
            &&& (buf[base + 3], buf[base + 4]) == faces[f].uv[v]
            &&& buf[base + 5] == 0
            &&& buf[base + 6] == 0
            &&& buf[base + 7] == 0
        }),
{
}

/// The vertex buffer is made from the positions and texture coordinates
/// alone: where a cube is placed has no part in it, nor have the normals or
/// the marks of hidden faces.
pub proof fn lemma_buffer_made_from_vertexes(a: Cube, b: Cube)
    requires
        forall|d: int|
            0 <= d < FACE_COUNT ==> (#[trigger] a@.faces[d]).vertexes == b@.faces[d].vertexes,
        forall|d: int| 0 <= d < FACE_COUNT ==> (#[trigger] a@.faces[d]).uv == b@.faces[d].uv,
    ensures
        packed(a@.faces) == packed(b@.faces),
{
    assert forall|k: int| 0 <= k < BUFFER_LEN implies packed_slot(a@.faces, k) == packed_slot(
        b@.faces,
        k,
    ) by {
        let f = k / (FACE_STRIDE as int);
        assert(a@.faces[f].vertexes == b@.faces[f].vertexes);
        assert(a@.faces[f].uv == b@.faces[f].uv);
    }
    assert(packed(a@.faces) =~= packed(b@.faces));
}

/// All cubes with the faces of the table have one and the same vertex buffer,
/// wherever they are placed.
pub proof fn lemma_buffer_ignores_coord(a: Cube, b: Cube)
    requires
        a.wf(),
        b.wf(),
    ensures
        packed(a@.faces) == packed(b@.faces),
{
}

} // verus!
