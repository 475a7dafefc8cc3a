//! Vertex layout and the quad generators: pure functions from draw
//! parameters to vertex lists.
use vstd::prelude::*;

verus! {

/// An RGBA8 color, straight (non-premultiplied) alpha.
pub type ColorAttribute = (u8, u8, u8, u8);

/// One vertex: position `(x, y, z)`, texture coordinate `(u, v)` and color.
pub type Vertex<T> = ((T, T, T), (T, T), ColorAttribute);

/// Two counter-clockwise triangles over the corners TL, TR, BR, BL.
pub type TexQuad<T> = [Vertex<T>; 6];

/// The vertex list of a quad whose corners are `tl`, `tr`, `br`, `bl`, with
/// the texture rectangle `(left, top, right, bottom)` mapped onto them.
pub open spec fn quad_spec<T>(
    tl: (T, T),
    tr: (T, T),
    br: (T, T),
    bl: (T, T),
    texcoords: (T, T, T, T),
    color: ColorAttribute,
    z: T,
) -> Seq<Vertex<T>> {
    let (tx0, ty0, tx1, ty1) = texcoords;
    seq![
        ((tl.0, tl.1, z), (tx0, ty0), color),
        ((tr.0, tr.1, z), (tx1, ty0), color),
        ((br.0, br.1, z), (tx1, ty1), color),
        ((tl.0, tl.1, z), (tx0, ty0), color),
        ((br.0, br.1, z), (tx1, ty1), color),
        ((bl.0, bl.1, z), (tx0, ty1), color),
    ]
}

/// Emits the quad with the given corner positions.
pub fn quad_from_corners<T: Copy>(
    tl: (T, T),
    tr: (T, T),
    br: (T, T),
    bl: (T, T),
    texcoords: (T, T, T, T),
    color: ColorAttribute,
    z: T,
) -> (q: TexQuad<T>)
    ensures
        q@ == quad_spec(tl, tr, br, bl, texcoords, color, z),
{
    let (tx0, ty0, tx1, ty1) = texcoords;
    let q = [
        ((tl.0, tl.1, z), (tx0, ty0), color),
        ((tr.0, tr.1, z), (tx1, ty0), color),
        ((br.0, br.1, z), (tx1, ty1), color),
        ((tl.0, tl.1, z), (tx0, ty0), color),
        ((br.0, br.1, z), (tx1, ty1), color),
        ((bl.0, bl.1, z), (tx0, ty1), color),
    ];
    assert(q@ =~= quad_spec(tl, tr, br, bl, texcoords, color, z));
    q
}

/// The axis-aligned quad over `coords = (left, top, right, bottom)`: corners
/// TL, TR, BR, BL.
pub open spec fn axis_aligned_quad_spec<T>(
    coords: (T, T, T, T),
    texcoords: (T, T, T, T),
    color: ColorAttribute,
    z: T,
) -> Seq<Vertex<T>> {
    let (x0, y0, x1, y1) = coords;
    quad_spec((x0, y0), (x1, y0), (x1, y1), (x0, y1), texcoords, color, z)
}

/// Emits the axis-aligned quad over `coords = (left, top, right, bottom)`,
/// with `texcoords` in the same arrangement.
pub fn axis_aligned_quad<T: Copy>(
    coords: (T, T, T, T),
    texcoords: (T, T, T, T),
    color: ColorAttribute,
    z: T,
) -> (q: TexQuad<T>)
    ensures
        q@ == axis_aligned_quad_spec(coords, texcoords, color, z),
        q@.len() == 6,
        q@[0].0 == (coords.0, coords.1, z) && q@[3].0 == q@[0].0,
        q@[1].0 == (coords.2, coords.1, z),
        q@[2].0 == (coords.2, coords.3, z) && q@[4].0 == q@[2].0,
        q@[5].0 == (coords.0, coords.3, z),
        forall|i: int| 0 <= i < 6 ==> (#[trigger] q@[i]).0.2 == z && q@[i].2 == color,
{
    let (x0, y0, x1, y1) = coords;
    quad_from_corners((x0, y0), (x1, y0), (x1, y1), (x0, y1), texcoords, color, z)
}

/// A quad placed from the corners of `coords` left where they are is the
/// axis-aligned quad over `coords`: placing corners without rotation
/// changes nothing.
pub proof fn lemma_unmoved_corners_give_axis_aligned_quad<T>(
    coords: (T, T, T, T),
    texcoords: (T, T, T, T),
    color: ColorAttribute,
    z: T,
)
    ensures
        quad_spec(
            (coords.0, coords.1),
            (coords.2, coords.1),
            (coords.2, coords.3),
            (coords.0, coords.3),
            texcoords,
            color,
            z,
        ) == axis_aligned_quad_spec(coords, texcoords, color, z),
{
}

/// The lines of a 3x3 grid: column edges `xs`, row edges `ys`, and the
/// matching edges `txs`, `tys` in texture space. Cell `(row, col)` spans
/// `xs[col]..xs[col + 1]` and `ys[row]..ys[row + 1]`.
#[derive(Clone, Copy, Debug)]
pub struct NinePatchGrid<T> {
    pub xs: [T; 4],
    pub ys: [T; 4],
    pub txs: [T; 4],
    pub tys: [T; 4],
}

/// Cell `k` of the grid, counted row by row from the top left.
pub open spec fn nine_patch_cell_spec<T>(
    grid: NinePatchGrid<T>,
    k: int,
    color: ColorAttribute,
    z: T,
) -> Seq<Vertex<T>> {
    let col = k % 3;
    let row = k / 3;
    axis_aligned_quad_spec(
        (grid.xs@[col], grid.ys@[row], grid.xs@[col + 1], grid.ys@[row + 1]),
        (grid.txs@[col], grid.tys@[row], grid.txs@[col + 1], grid.tys@[row + 1]),
        color,
        z,
    )
}

/// Emits the nine cells of the grid as independent axis-aligned quads, row
/// by row from the top left: the corner cells keep their size, the edge
/// cells stretch along one axis and the center cell along both.
pub fn nine_patch_quads<T: Copy>(grid: &NinePatchGrid<T>, color: ColorAttribute, z: T) -> (r: Vec<
    TexQuad<T>,
>)
    ensures
        r@.len() == 9,
        forall|k: int| 0 <= k < 9 ==> (#[trigger] r@[k])@ == nine_patch_cell_spec(*grid, k, color, z),
{
    let mut r: Vec<TexQuad<T>> = Vec::with_capacity(9);
    let mut k: usize = 0;
    while k < 9
        invariant
            k <= 9,
            r@.len() == k,
            forall|m: int| 0 <= m < k ==> (#[trigger] r@[m])@ == nine_patch_cell_spec(*grid, m, color, z),
        decreases 9 - k,
    {
        let col = k % 3;
        let row = k / 3;
        let q = axis_aligned_quad(
            (grid.xs[col], grid.ys[row], grid.xs[col + 1], grid.ys[row + 1]),
            (grid.txs[col], grid.tys[row], grid.txs[col + 1], grid.tys[row + 1]),
            color,
            z,
        );
        r.push(q);
        k = k + 1;
    }
    r
}


/// The rectangle `(left, top, right, bottom)` that a quad covers: its first
/// corner and the corner opposite to it.
pub open spec fn quad_rect(q: Seq<Vertex<int>>) -> (int, int, int, int) {
    (q[0].0.0, q[0].0.1, q[2].0.0, q[2].0.1)
}

/// The point lies in the half-open rectangle.
pub open spec fn in_rect(r: (int, int, int, int), px: int, py: int) -> bool {
    r.0 <= px < r.2 && r.1 <= py < r.3
}

/// Four grid lines in non-decreasing order.
pub open spec fn lines_ordered(lines: Seq<int>) -> bool {
    lines[0] <= lines[1] <= lines[2] <= lines[3]
}

/// The cell of the grid that holds the point, given that the outer
/// rectangle does.
pub open spec fn cell_of(grid: NinePatchGrid<int>, px: int, py: int) -> int {
    let col = if px < grid.xs@[1] { 0int } else if px < grid.xs@[2] { 1int } else { 2int };
    let row = if py < grid.ys@[1] { 0int } else if py < grid.ys@[2] { 1int } else { 2int };
    3 * row + col
}

/// With ordered grid lines (possibly equal, for margins that fill the whole
/// rectangle) the nine cells tile the outer rectangle `xs[0]..xs[3]` by
/// `ys[0]..ys[3]`: a point lies in some cell exactly when it lies in the
/// outer rectangle, and never in two cells.
pub proof fn lemma_nine_patch_tiles(grid: NinePatchGrid<int>, color: ColorAttribute, z: int, px: int, py: int)
    requires
        lines_ordered(grid.xs@),
        lines_ordered(grid.ys@),
    ensures
        in_rect((grid.xs@[0], grid.ys@[0], grid.xs@[3], grid.ys@[3]), px, py) <==> exists|k: int|
            0 <= k < 9 && in_rect(quad_rect(#[trigger] nine_patch_cell_spec(grid, k, color, z)), px, py),
        forall|k1: int, k2: int|
            0 <= k1 < 9 && 0 <= k2 < 9
            && in_rect(quad_rect(#[trigger] nine_patch_cell_spec(grid, k1, color, z)), px, py)
            && in_rect(quad_rect(#[trigger] nine_patch_cell_spec(grid, k2, color, z)), px, py) ==> k1 == k2,
{
    assert forall|k: int| 0 <= k < 9 implies quad_rect(#[trigger] nine_patch_cell_spec(grid, k, color, z))
        == (grid.xs@[k % 3], grid.ys@[k / 3], grid.xs@[k % 3 + 1], grid.ys@[k / 3 + 1]) by {
        let q = nine_patch_cell_spec(grid, k, color, z);
        assert(q[0].0.0 == grid.xs@[k % 3]);
        assert(q[2].0.1 == grid.ys@[k / 3 + 1]);
    }
    if in_rect((grid.xs@[0], grid.ys@[0], grid.xs@[3], grid.ys@[3]), px, py) {
        let k = cell_of(grid, px, py);
        assert(in_rect(quad_rect(nine_patch_cell_spec(grid, k, color, z)), px, py));
    }
    assert forall|k1: int, k2: int|
        0 <= k1 < 9 && 0 <= k2 < 9
        && in_rect(quad_rect(#[trigger] nine_patch_cell_spec(grid, k1, color, z)), px, py)
        && in_rect(quad_rect(#[trigger] nine_patch_cell_spec(grid, k2, color, z)), px, py) implies k1 == k2 by {
        assert(k1 % 3 == k2 % 3);
        assert(k1 / 3 == k2 / 3);
    }
}

} // verus!
