use vstd::prelude::*;

verus! {

/// A corner of the unit quad that every segment is expanded from: `x` runs
/// along the segment, `y` across it, each -1 or 1.
#[derive(Clone, Copy, Debug, PartialEq, Eq, Structural)]
pub struct Corner {
    pub x: i8,
    pub y: i8,
}

/// The four corners of the quad, counter-clockwise from the bottom left.
pub open spec fn quad_corner_seq() -> Seq<Corner> {
    seq![
        Corner { x: -1i8, y: -1i8 },
        Corner { x: 1i8, y: -1i8 },
        Corner { x: 1i8, y: 1i8 },
        Corner { x: -1i8, y: 1i8 },
    ]
}

/// The quad as two triangles over its corners, sharing the diagonal from corner 0 to corner 2.
pub open spec fn quad_index_seq() -> Seq<u16> {
    seq![0u16, 1, 2, 2, 3, 0]
}

/// Twice the signed area of the triangle `a b c`: positive when its corners run
/// counter-clockwise (x to the right, y up).
pub open spec fn twice_signed_area(a: Corner, b: Corner, c: Corner) -> int {
    (b.x - a.x) * (c.y - a.y) - (b.y - a.y) * (c.x - a.x)
}

/// Triangle `t` of a triangle list over `corners`.
pub open spec fn triangle_area(corners: Seq<Corner>, indices: Seq<u16>, t: int) -> int {
    twice_signed_area(
        corners[indices[3 * t] as int],
        corners[indices[3 * t + 1] as int],
        corners[indices[3 * t + 2] as int],
    )
}

/// The corners of the quad.
pub fn quad_corners() -> (corners: Vec<Corner>)
    ensures
        corners@ == quad_corner_seq(),
{
    vec![
        Corner { x: -1, y: -1 },
        Corner { x: 1, y: -1 },
        Corner { x: 1, y: 1 },
        Corner { x: -1, y: 1 },
    ]
}

/// The index list the quad is drawn with. Every index names a corner; both
/// triangles run counter-clockwise in corner coordinates; together they cover
/// the square exactly: their areas add up to its area and each corner is used.
pub fn quad_indices() -> (indices: Vec<u16>)
    ensures
        indices@ == quad_index_seq(),
        indices@.len() % 3 == 0,
        forall|i: int| 0 <= i < indices@.len() ==> indices@[i] < quad_corner_seq().len(),
        forall|t: int|
            0 <= t < indices@.len() / 3 ==> #[trigger] triangle_area(quad_corner_seq(), indices@, t)
                > 0,
        triangle_area(quad_corner_seq(), indices@, 0) + triangle_area(quad_corner_seq(), indices@, 1)
            == 2 * (2 * 2),
        forall|c: u16| c < quad_corner_seq().len() ==> #[trigger] indices@.contains(c),
{
    let indices = vec![0u16, 1, 2, 2, 3, 0];
    proof {
        let s = indices@;
        let c = quad_corner_seq();
        assert(s[0] == 0 && s[1] == 1 && s[2] == 2 && s[3] == 2 && s[4] == 3 && s[5] == 0);
        assert(c[0] == Corner { x: -1i8, y: -1i8 } && c[1] == Corner { x: 1i8, y: -1i8 });
        assert(c[2] == Corner { x: 1i8, y: 1i8 } && c[3] == Corner { x: -1i8, y: 1i8 });
        assert(twice_signed_area(c[0], c[1], c[2]) == 4) by (nonlinear_arith)
            requires
                c[0] == (Corner { x: -1i8, y: -1i8 }),
                c[1] == (Corner { x: 1i8, y: -1i8 }),
                c[2] == (Corner { x: 1i8, y: 1i8 }),
        ;
        assert(twice_signed_area(c[2], c[3], c[0]) == 4) by (nonlinear_arith)
            requires
                c[0] == (Corner { x: -1i8, y: -1i8 }),
                c[2] == (Corner { x: 1i8, y: 1i8 }),
                c[3] == (Corner { x: -1i8, y: 1i8 }),
        ;
        assert(triangle_area(quad_corner_seq(), s, 0) == 4);
        assert(triangle_area(quad_corner_seq(), s, 1) == 4);
        assert forall|c: u16| c < quad_corner_seq().len() implies #[trigger] s.contains(c) by {
            if c == 0 {
                assert(s[0] == 0);
            } else if c == 1 {
                assert(s[1] == 1);
            } else if c == 2 {
                assert(s[2] == 2);
            } else {
                assert(s[4] == 3);
            }
        }
    }
    indices
}

/// The bytes of `values`, each lowest byte first.
pub open spec fn u16_le_bytes(values: Seq<u16>) -> Seq<u8> {
    Seq::new(
        2 * values.len(),
        |i: int|
            if i % 2 == 0 {
                (values[i / 2] % 256) as u8
            } else {
                (values[i / 2] / 256) as u8
            },
    )
}

/// The bytes of `values`, each highest byte first.
pub open spec fn u16_be_bytes(values: Seq<u16>) -> Seq<u8> {
    Seq::new(
        2 * values.len(),
        |i: int|
            if i % 2 == 0 {
                (values[i / 2] / 256) as u8
            } else {
                (values[i / 2] % 256) as u8
            },
    )
}

/// Calls `bytemuck::cast_slice` from `u16` to `u8` and copies the result. The
/// bytes are the values as they lie in memory: two per value, in the
/// machine's byte order, which is little- or big-endian; which one is left open.
#[verifier::external_body]
fn cast_u16s_to_bytes(values: &[u16]) -> (bytes: Vec<u8>)
    ensures
        bytes@ == u16_le_bytes(values@) || bytes@ == u16_be_bytes(values@),
{
    bytemuck::cast_slice::<u16, u8>(values).to_vec()
}

/// The contents of the index buffer: the indices in the machine's byte order.
pub fn index_bytes(indices: &Vec<u16>) -> (bytes: Vec<u8>)
    ensures
        bytes@ == u16_le_bytes(indices@) || bytes@ == u16_be_bytes(indices@),
        bytes@.len() == 2 * indices@.len(),
{
    cast_u16s_to_bytes(indices.as_slice())
}

} // verus!
