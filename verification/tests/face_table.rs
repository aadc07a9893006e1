use voxel_cube::face::{VERTEX_COUNT, FACE_COUNT, NEG_X, NEG_Y, NEG_Z, POS_X, POS_Y, POS_Z};
use voxel_cube::units::{
    BASIC_FRACTIONS, BASIC_VERTEXES, HALF, QUARTER, THIRD, THREE_QUARTERS, TWO_THIRDS, UNIT,
};
use voxel_cube::{Cube, Face};

fn between(a: [i32; 3], b: [i32; 3]) -> [i32; 3] {
    [b[0] - a[0], b[1] - a[1], b[2] - a[2]]
}

fn cross(a: [i32; 3], b: [i32; 3]) -> [i32; 3] {
    [
        a[1] * b[2] - a[2] * b[1],
        a[2] * b[0] - a[0] * b[2],
        a[0] * b[1] - a[1] * b[0],
    ]
}

fn dot(a: [i32; 3], b: [i32; 3]) -> i32 {
    a[0] * b[0] + a[1] * b[1] + a[2] * b[2]
}

fn faces() -> [Face; 6] {
    Cube::new([0, 0, 0]).faces
}

#[test]
fn named_parts_of_the_unit() {
    assert_eq!(UNIT, 12);
    assert_eq!(2 * HALF, UNIT);
    assert_eq!(3 * THIRD, UNIT);
    assert_eq!(4 * QUARTER, UNIT);
    assert_eq!(TWO_THIRDS, 2 * THIRD);
    assert_eq!(THREE_QUARTERS, 3 * QUARTER);
}

#[test]
fn basic_fractions_are_the_five_boundaries() {
    assert_eq!(BASIC_FRACTIONS, [6, 4, 8, 3, 9]);
    let unit = UNIT as f32;
    assert_eq!(BASIC_FRACTIONS[0] as f32 / unit, 1f32 / 2f32);
    assert_eq!(BASIC_FRACTIONS[1] as f32 / unit, 1f32 / 3f32);
    assert_eq!(BASIC_FRACTIONS[2] as f32 / unit, 2f32 / 3f32);
    assert_eq!(BASIC_FRACTIONS[3] as f32 / unit, 1f32 / 4f32);
    assert_eq!(BASIC_FRACTIONS[4] as f32 / unit, 3f32 / 4f32);
}

#[test]
fn basic_vertexes_are_the_front_quad() {
    assert_eq!(
        BASIC_VERTEXES,
        [
            [-6, -6, 6],
            [-6, 6, 6],
            [6, 6, 6],
            [6, 6, 6],
            [6, -6, 6],
            [-6, -6, 6],
        ]
    );
    let unit = UNIT as f32;
    let floats = BASIC_VERTEXES.map(|v| v.map(|s| s as f32 / unit));
    assert_eq!(
        floats,
        [
            [-0.5, -0.5, 0.5],
            [-0.5, 0.5, 0.5],
            [0.5, 0.5, 0.5],
            [0.5, 0.5, 0.5],
            [0.5, -0.5, 0.5],
            [-0.5, -0.5, 0.5],
        ]
    );
}

#[test]
fn normals_are_distinct_unit_axes() {
    let faces = faces();
    for face in &faces {
        let nonzero = face.normal.iter().filter(|&&n| n != 0).count();
        assert_eq!(nonzero, 1);
        for n in face.normal {
            assert!(n == 0 || n == 1 || n == -1);
        }
    }
    for a in 0..6 {
        for b in 0..6 {
            if a != b {
                assert_ne!(faces[a].normal, faces[b].normal);
            }
        }
    }
}

#[test]
fn normals_in_table_order() {
    assert_eq!(FACE_COUNT, 6);
    assert_eq!(
        [POS_Z, NEG_Z, POS_X, NEG_X, POS_Y, NEG_Y],
        [0, 1, 2, 3, 4, 5]
    );
    let faces = faces();
    assert_eq!(faces[POS_Z].normal, [0, 0, 1]);
    assert_eq!(faces[NEG_Z].normal, [0, 0, -1]);
    assert_eq!(faces[POS_X].normal, [1, 0, 0]);
    assert_eq!(faces[NEG_X].normal, [-1, 0, 0]);
    assert_eq!(faces[POS_Y].normal, [0, 1, 0]);
    assert_eq!(faces[NEG_Y].normal, [0, -1, 0]);
}

#[test]
fn front_and_back_normals_are_opposite() {
    let faces = faces();
    assert_eq!(faces[0].normal, [0, 0, 1]);
    assert_eq!(faces[1].normal, [0, 0, -1]);
    for k in 0..3 {
        assert_eq!(faces[0].normal[k], -faces[1].normal[k]);
    }
}

#[test]
fn every_face_has_six_vertexes_and_six_uv() {
    assert_eq!(VERTEX_COUNT, 6);
    for coord in [[0, 0, 0], [-9, 4, 2]] {
        for face in Cube::new(coord).faces {
            assert_eq!(face.vertexes.len(), 6);
            assert_eq!(face.uv.len(), 6);
            assert_eq!(face.normal.len(), 3);
            for v in face.vertexes {
                assert_eq!(v.len(), 3);
            }
            for t in face.uv {
                assert_eq!(t.len(), 2);
            }
        }
    }
}

#[test]
fn triangles_are_coplanar_and_not_degenerate() {
    for face in faces() {
        let v = face.vertexes;
        let first = cross(between(v[0], v[1]), between(v[0], v[2]));
        let second = cross(between(v[3], v[4]), between(v[3], v[5]));
        assert_ne!(first, [0, 0, 0]);
        assert_ne!(second, [0, 0, 0]);
        assert_eq!(cross(first, second), [0, 0, 0]);
        for p in v {
            assert_eq!(dot(first, between(v[0], p)), 0);
        }
        assert!(dot(first, v[0]) > 0);
        assert!(dot(second, v[3]) > 0);
    }
}

#[test]
fn triangles_are_not_degenerate_in_floating_point() {
    let unit = UNIT as f32;
    for face in faces() {
        let v = face.vertexes.map(|p| p.map(|s| s as f32 / unit));
        for t in [0, 3] {
            let a = [v[t + 1][0] - v[t][0], v[t + 1][1] - v[t][1], v[t + 1][2] - v[t][2]];
            let b = [v[t + 2][0] - v[t][0], v[t + 2][1] - v[t][1], v[t + 2][2] - v[t][2]];
            let n = [
                a[1] * b[2] - a[2] * b[1],
                a[2] * b[0] - a[0] * b[2],
                a[0] * b[1] - a[1] * b[0],
            ];
            assert_eq!(n[0] * n[0] + n[1] * n[1] + n[2] * n[2], 1.0);
        }
    }
}

#[test]
fn vertexes_of_every_face() {
    let expected: [[[i32; 3]; 6]; 6] = [
        [[6, -6, 6], [6, 6, 6], [-6, 6, 6], [-6, 6, 6], [-6, -6, 6], [6, -6, 6]],
        [[-6, -6, 6], [-6, -6, -6], [6, -6, -6], [6, -6, -6], [6, -6, 6], [-6, -6, 6]],
        [[6, -6, -6], [6, 6, -6], [6, 6, 6], [6, 6, 6], [6, -6, 6], [6, -6, -6]],
        [[-6, -6, 6], [-6, 6, 6], [-6, 6, -6], [-6, 6, -6], [-6, -6, -6], [-6, -6, 6]],
        [[-6, 6, -6], [-6, 6, 6], [6, 6, 6], [6, 6, 6], [6, 6, -6], [-6, 6, -6]],
        [[-6, -6, -6], [-6, 6, -6], [6, 6, -6], [6, 6, -6], [6, -6, -6], [-6, -6, -6]],
    ];
    let faces = faces();
    for d in 0..6 {
        assert_eq!(faces[d].vertexes, expected[d]);
    }
}

#[test]
fn each_face_turns_the_basic_quad() {
    let faces = faces();
    for i in 0..6 {
        let [x, y, z] = BASIC_VERTEXES[i];
        assert_eq!(faces[POS_Z].vertexes[i], [-x, y, z]);
        assert_eq!(faces[NEG_Z].vertexes[i], [x, -z, -y]);
        assert_eq!(faces[POS_X].vertexes[i], [z, y, x]);
        assert_eq!(faces[NEG_X].vertexes[i], [-z, y, -x]);
        assert_eq!(faces[POS_Y].vertexes[i], [x, z, y]);
        assert_eq!(faces[NEG_Y].vertexes[i], [x, y, -z]);
    }
}

#[test]
fn uv_of_every_face() {
    let expected: [[[i32; 2]; 6]; 6] = [
        [[9, 8], [9, 4], [6, 4], [6, 4], [6, 8], [9, 8]],
        [[3, 12], [3, 8], [6, 8], [6, 8], [6, 12], [3, 12]],
        [[6, 8], [6, 4], [9, 4], [9, 4], [9, 8], [6, 8]],
        [[0, 8], [0, 4], [3, 4], [3, 4], [3, 8], [0, 8]],
        [[3, 4], [3, 0], [6, 0], [6, 0], [6, 4], [3, 4]],
        [[9, 8], [9, 4], [12, 4], [12, 4], [12, 8], [9, 8]],
    ];
    let faces = faces();
    for d in 0..6 {
        assert_eq!(faces[d].uv, expected[d]);
    }
}

#[test]
fn uv_winds_like_the_basic_quad() {
    for face in faces() {
        let uv = face.uv;
        let (left, bottom) = (uv[0][0], uv[0][1]);
        let (right, top) = (uv[2][0], uv[2][1]);
        assert_ne!(left, right);
        assert_ne!(bottom, top);
        assert_eq!(uv[1], [left, top]);
        assert_eq!(uv[3], [right, top]);
        assert_eq!(uv[4], [right, bottom]);
        assert_eq!(uv[5], [left, bottom]);
    }
}

#[test]
fn uv_lies_within_the_atlas() {
    let bounds = [0, HALF, THIRD, TWO_THIRDS, QUARTER, THREE_QUARTERS, UNIT];
    for face in faces() {
        for [u, v] in face.uv {
            assert!(0 <= u && u <= UNIT);
            assert!(0 <= v && v <= UNIT);
            assert!(bounds.contains(&u));
            assert!(bounds.contains(&v));
            let (fu, fv) = (u as f32 / UNIT as f32, v as f32 / UNIT as f32);
            assert!((0.0..=1.0).contains(&fu));
            assert!((0.0..=1.0).contains(&fv));
        }
    }
}

#[test]
fn shared_corners_agree() {
    for face in faces() {
        assert_eq!(face.vertexes[3], face.vertexes[2]);
        assert_eq!(face.vertexes[5], face.vertexes[0]);
        assert_eq!(face.uv[3], face.uv[2]);
        assert_eq!(face.uv[5], face.uv[0]);
    }
}

#[test]
fn no_face_is_obfuscated() {
    for face in Cube::new([7, 7, 7]).faces {
        assert!(!face.obfuscated);
    }
}

#[test]
fn faces_cover_the_six_planes_of_the_cube() {
    let faces = faces();
    let planes: [(usize, usize, i32); 6] = [
        (POS_Z, 2, HALF),
        (NEG_Z, 1, -HALF),
        (POS_X, 0, HALF),
        (NEG_X, 0, -HALF),
        (POS_Y, 1, HALF),
        (NEG_Y, 2, -HALF),
    ];
    for (d, axis, at) in planes {
        for p in faces[d].vertexes {
            assert_eq!(p[axis], at);
            for k in 0..3 {
                assert!(p[k] == HALF || p[k] == -HALF);
            }
        }
    }
}

#[test]
fn cubes_do_not_share_faces() {
    let mut a = Cube::new([0, 0, 0]);
    let b = Cube::new([0, 0, 0]);
    assert_eq!(a, b);
    a.faces[0].uv[0] = [1, 1];
    assert_ne!(a.faces[0], b.faces[0]);
    assert_eq!(b.faces, Cube::new([5, 5, 5]).faces);
}
