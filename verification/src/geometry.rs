//! The full-screen quad: six vertices, two triangles, fixed for the life of
//! the program.
use vstd::prelude::*;

verus! {

/// One vertex of the quad.  Both attributes are given in whole units; every
/// coordinate of the quad is -1 or 1, so the conversion to a GPU float is
/// exact.
#[derive(Clone, Copy, Debug, PartialEq, Eq)]
pub struct Vertex {
    pub position: (i8, i8),
    pub uv: (i8, i8),
}

/// The vertex that sits at `(x, y)`: its texture coordinate mirrors its
/// position.
pub open spec fn corner(x: i8, y: i8) -> Vertex {
    Vertex { position: (x, y), uv: (x, y) }
}

/// The quad as a triangle list.  With `A = (-1,-1)`, `B = (-1,1)`,
/// `C = (1,1)` and `D = (1,-1)` the list is `A B C`, `C D A`.
pub open spec fn quad() -> Seq<Vertex> {
    seq![
        corner(-1i8, -1i8),
        corner(-1i8, 1i8),
        corner(1i8, 1i8),
        corner(1i8, 1i8),
        corner(1i8, -1i8),
        corner(-1i8, -1i8),
    ]
}

/// Whether `v` lies on the boundary corners of the square `[-1,1] x [-1,1]`
/// and carries its own position as texture coordinate.
pub open spec fn is_ndc_corner(v: Vertex) -> bool {
    &&& (v.position.0 == -1 || v.position.0 == 1)
    &&& (v.position.1 == -1 || v.position.1 == 1)
    &&& v.uv == v.position
}

/// Builds the vertex at `(x, y)`.
pub fn make_corner(x: i8, y: i8) -> (v: Vertex)
    ensures
        v == corner(x, y),
{
    Vertex { position: (x, y), uv: (x, y) }
}

/// Builds the quad.  The result is the same list on every call.
pub fn make_plane() -> (plane: Vec<Vertex>)
    ensures
        plane@ == quad(),
{
    let vertex1 = make_corner(-1, -1);
    let vertex2 = make_corner(-1, 1);
    let vertex3 = make_corner(1, 1);
    let vertex4 = make_corner(1, -1);
    let mut plane: Vec<Vertex> = Vec::with_capacity(6);
    plane.push(vertex1);
    plane.push(vertex2);
    plane.push(vertex3);
    plane.push(vertex3);
    plane.push(vertex4);
    plane.push(vertex1);
    assert(plane@ =~= quad());
    plane
}

/// The quad has exactly six vertices, each a corner of the square
/// `[-1,1] x [-1,1]` with matching texture coordinate; all four corners of
/// the square occur, so the quad spans it; and the two triangles share the
/// diagonal from `(-1,-1)` to `(1,1)`.
pub proof fn lemma_quad_spans_ndc()
    ensures
        quad().len() == 6,
        forall|i: int| 0 <= i < 6 ==> is_ndc_corner(#[trigger] quad()[i]),
        forall|x: i8, y: i8|
            (x == -1 || x == 1) && (y == -1 || y == 1) ==> quad().contains(#[trigger] corner(x, y)),
        quad()[3] == quad()[2],
        quad()[5] == quad()[0],
{
    let q = quad();
    assert(q[0] == corner(-1i8, -1i8));
    assert(q[1] == corner(-1i8, 1i8));
    assert(q[2] == corner(1i8, 1i8));
    assert(q[4] == corner(1i8, -1i8));
    assert forall|x: i8, y: i8|
        (x == -1 || x == 1) && (y == -1 || y == 1) implies q.contains(#[trigger] corner(x, y)) by {
        if x == -1 && y == -1 {
            assert(q[0] == corner(x, y));
        } else if x == -1 {
            assert(q[1] == corner(x, y));
        } else if y == 1 {
            assert(q[2] == corner(x, y));
        } else {
            assert(q[4] == corner(x, y));
        }
    }
}

} // verus!
