//! Quad geometry for textured sprites. A texture of pixel size `w × h`
//! becomes one rectangle anchored at the origin with its height extending
//! downward (top-left-origin image convention), split into two triangles.

use vstd::prelude::*;

verus! {

/// One quad vertex: a position in pixel units and a sampling coordinate,
/// each component of the coordinate either 0 or 1.
#[derive(Clone, Copy, Debug, PartialEq, Eq, Structural)]
pub struct Vertex {
    pub px: i64,
    pub py: i64,
    pub pz: i64,
    pub u: i64,
    pub v: i64,
}

/// `p` lies on or to the left of the directed edge from `a` to `b`
/// (the cross product of `b - a` with `p - a` is non-negative).
pub open spec fn on_left_of_edge(ax: int, ay: int, bx: int, by: int, px: int, py: int) -> bool {
    (bx - ax) * (py - ay) - (by - ay) * (px - ax) >= 0
}

/// `p` lies inside the counter-clockwise triangle `a, b, c` (on or to the
/// left of each directed edge).
pub open spec fn in_triangle(
    ax: int, ay: int, bx: int, by: int, cx: int, cy: int, px: int, py: int,
) -> bool {
    &&& on_left_of_edge(ax, ay, bx, by, px, py)
    &&& on_left_of_edge(bx, by, cx, cy, px, py)
    &&& on_left_of_edge(cx, cy, ax, ay, px, py)
}

/// The vertices of the quad for a `w × h` texture, as values.
pub open spec fn quad_vertices(w: int, h: int) -> Seq<Vertex> {
    seq![
        Vertex { px: 0, py: (-h) as i64, pz: 0, u: 0, v: 1 },
        Vertex { px: w as i64, py: (-h) as i64, pz: 0, u: 1, v: 1 },
        Vertex { px: w as i64, py: 0, pz: 0, u: 1, v: 0 },
        Vertex { px: 0, py: 0, pz: 0, u: 0, v: 0 },
    ]
}

/// The index list of the quad: two triangles.
pub open spec fn quad_indices() -> Seq<u16> {
    seq![0u16, 1u16, 2u16, 0u16, 2u16, 3u16]
}

/// The quad of a `w × h` texture: four vertices (bottom-left, bottom-right,
/// top-right, top-left, with the height extending downward) and six indices
/// forming the two triangles `0,1,2` and `0,2,3`.
pub fn build_quad(width: u32, height: u32) -> (r: (Vec<Vertex>, Vec<u16>))
    ensures
        r.0@.len() == 4,
        r.0@ == quad_vertices(width as int, height as int),
        r.1@ == quad_indices(),
        r.0@[0] == (Vertex { px: 0, py: (-(height as i64)) as i64, pz: 0, u: 0, v: 1 }),
        r.0@[1] == (Vertex { px: width as i64, py: (-(height as i64)) as i64, pz: 0, u: 1, v: 1 }),
        r.0@[2] == (Vertex { px: width as i64, py: 0, pz: 0, u: 1, v: 0 }),
        r.0@[3] == (Vertex { px: 0, py: 0, pz: 0, u: 0, v: 0 }),
        forall|i: int| 0 <= i < 6 ==> 0 <= #[trigger] r.1@[i] <= 3,
{
    let w: i64 = width as i64;
    let h: i64 = height as i64;
    let mut vertices: Vec<Vertex> = Vec::new();
    vertices.push(Vertex { px: 0, py: -h, pz: 0, u: 0, v: 1 });
    vertices.push(Vertex { px: w, py: -h, pz: 0, u: 1, v: 1 });
    vertices.push(Vertex { px: w, py: 0, pz: 0, u: 1, v: 0 });
    vertices.push(Vertex { px: 0, py: 0, pz: 0, u: 0, v: 0 });
    let mut indices: Vec<u16> = Vec::new();
    indices.push(0);
    indices.push(1);
    indices.push(2);
    indices.push(0);
    indices.push(2);
    indices.push(3);
    proof {
        assert(indices@ =~= quad_indices());
        assert(vertices@ =~= quad_vertices(width as int, height as int));
    }
    (vertices, indices)
}

/// Every point of the rectangle `[0, w] × [-h, 0]` lies in one of the two
/// triangles of the quad built for a `w × h` texture: the pair of triangles
/// covers the whole rectangle.
pub proof fn lemma_quad_covers_rect(w: int, h: int, x: int, y: int)
    requires
        0 <= w,
        0 <= h,
        0 <= x <= w,
        -h <= y <= 0,
    ensures
        in_triangle(0, -h, w, -h, w, 0, x, y) || in_triangle(0, -h, w, 0, 0, 0, x, y),
{
    assert(w * (y + h) >= 0) by (nonlinear_arith)
        requires 0 <= w && 0 <= y + h;
    assert(h * (w - x) >= 0) by (nonlinear_arith)
        requires 0 <= h && 0 <= w - x;
    assert((-w) * y >= 0) by (nonlinear_arith)
        requires 0 <= w && y <= 0;
    assert(h * x >= 0) by (nonlinear_arith)
        requires 0 <= h && 0 <= x;
    if h * (x - w) - w * y >= 0 {
        // On or below the diagonal from the bottom-left to the top-right
        // corner: the point is in the first triangle.
        assert(in_triangle(0, -h, w, -h, w, 0, x, y)) by (nonlinear_arith)
            requires
                w * (y + h) >= 0,
                h * (w - x) >= 0,
                h * (x - w) - w * y >= 0;
    } else {
        assert(in_triangle(0, -h, w, 0, 0, 0, x, y)) by (nonlinear_arith)
            requires
                (-w) * y >= 0,
                h * x >= 0,
                h * (x - w) - w * y < 0;
    }
}

} // verus!
