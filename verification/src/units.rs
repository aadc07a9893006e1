//! The grid on which every coordinate of the cube lies.
//!
//! Lengths and texture coordinates are counted in steps of `1 / UNIT`. The cube
//! spans one whole along each axis and is centred on the origin; the texture
//! atlas spans one whole along each side. `UNIT` is the least count of which a
//! half, a third and a quarter are all whole numbers of steps.

use vstd::prelude::*;

verus! {

/// Steps in one whole.
pub const UNIT: i32 = 12;

/// Steps in one half.
pub const HALF: i32 = 6;

/// Steps in one third.
pub const THIRD: i32 = 4;

/// Steps in two thirds.
pub const TWO_THIRDS: i32 = 8;

/// Steps in one quarter.
pub const QUARTER: i32 = 3;

/// Steps in three quarters.
pub const THREE_QUARTERS: i32 = 9;

/// Corners of the quad at `z = 1/2`, as a list of two triangles:
/// bottom-left, top-left, top-right, then top-right, bottom-right, bottom-left.
pub const BASIC_VERTEXES: [[i32; 3]; 6] = [
    [-HALF, -HALF, HALF],
    [-HALF, HALF, HALF],
    [HALF, HALF, HALF],
    [HALF, HALF, HALF],
    [HALF, -HALF, HALF],
    [-HALF, -HALF, HALF],
];

/// Boundaries that slice the texture atlas: 1/2, 1/3, 2/3, 1/4, 3/4.
pub const BASIC_FRACTIONS: [i32; 5] = [HALF, THIRD, TWO_THIRDS, QUARTER, THREE_QUARTERS];

/// The named parts are the parts of one whole that their names say.
pub proof fn lemma_parts_of_unit()
    ensures
        2 * HALF == UNIT,
        3 * THIRD == UNIT,
        4 * QUARTER == UNIT,
        TWO_THIRDS == 2 * THIRD,
        THREE_QUARTERS == 3 * QUARTER,
{
}

/// The quad is the square of side one whole, centred on the axis, in the plane
/// `z = 1/2`: its two triangles share the diagonal from bottom-left to
/// top-right, and every corner is half a whole from the axis along `x` and `y`.
pub proof fn lemma_basic_quad()
    ensures
        BASIC_VERTEXES@.len() == 6,
        BASIC_VERTEXES[3] == BASIC_VERTEXES[2],
        BASIC_VERTEXES[5] == BASIC_VERTEXES[0],
        forall|i: int|
            0 <= i < 6 ==> {
                let v = #[trigger] BASIC_VERTEXES[i];
                &&& v[0] == HALF || v[0] == -HALF
                &&& v[1] == HALF || v[1] == -HALF
                &&& v[2] == HALF
            },
{
}

} // verus!
