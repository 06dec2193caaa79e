//! The landscape height grid: a 128 x 128 torus of corner heights, its
//! scrolling shift, the triangle layout of its mesh, and the flattening of the
//! ground under a building's footprint with the smoothing around it.
use vstd::prelude::*;

verus! {

/// Cells per side of the landscape.
pub const LAND_SIZE: usize = 128;

/// Vertices of the landscape mesh: six per cell.
pub const LAND_VERTICES: usize = 98304;

/// A building's footprint: its size in cells, the cell it is placed by, and
/// which of its cells (row by row, at most 40) it occupies (bit 0 of each mask byte).
#[derive(Debug, Clone, Copy)]
pub struct Shape {
    pub width: u8,
    pub height: u8,
    pub origin_x: u8,
    pub origin_z: u8,
    pub cell_mask: [u8; 40],
}

/// The heights as rows of plain values.
pub open spec fn grid_of(h: [[u16; 128]; 128]) -> Seq<Seq<u16>> {
    h@.map_values(|r: [u16; 128]| r@)
}

/// A coordinate wrapped onto the torus.
pub open spec fn wrap(v: int) -> int {
    v % 128
}

/// `g` with the height at column `x`, row `y` set to `v`.
pub open spec fn put(g: Seq<Seq<u16>>, x: int, y: int, v: u16) -> Seq<Seq<u16>> {
    g.update(y, g[y].update(x, v))
}

/// Footprint cell `k` (row by row) is occupied.
pub open spec fn occupied(shape: Shape, k: int) -> bool {
    0 <= k < 40 && shape.cell_mask[k] & 1u8 != 0u8
}

/// Column of footprint cell `k` on the grid, the footprint's corner at `cx0`.
pub open spec fn fp_x(shape: Shape, cx0: int, k: int) -> int {
    wrap(cx0 + k % (shape.width as int))
}

/// Row of footprint cell `k` on the grid, the footprint's corner at `cy0`.
pub open spec fn fp_y(shape: Shape, cy0: int, k: int) -> int {
    wrap(cy0 + k / (shape.width as int))
}

/// The four corner heights of the cell at `(x, y)`.
pub open spec fn corners(g: Seq<Seq<u16>>, x: int, y: int) -> (u16, u16, u16, u16) {
    (g[y][x], g[y][wrap(x + 1)], g[wrap(y + 1)][x], g[wrap(y + 1)][wrap(x + 1)])
}

/// Occupied cells among the first `k` footprint cells.
pub open spec fn occupied_count(shape: Shape, k: int) -> int
    decreases k,
{
    if k <= 0 {
        0
    } else {
        occupied_count(shape, k - 1) + if occupied(shape, k - 1) { 1int } else { 0int }
    }
}

/// Sum of the corner heights of the occupied cells among the first `k`.
pub open spec fn corner_sum(g: Seq<Seq<u16>>, shape: Shape, cx0: int, cy0: int, k: int) -> int
    decreases k,
{
    if k <= 0 {
        0
    } else {
        let c = corners(g, fp_x(shape, cx0, k - 1), fp_y(shape, cy0, k - 1));
        corner_sum(g, shape, cx0, cy0, k - 1) + if occupied(shape, k - 1) {
            c.0 + c.1 + c.2 + c.3
        } else {
            0
        }
    }
}

/// The smaller of two integers.
pub open spec fn min_int(a: int, b: int) -> int {
    if a <= b {
        a
    } else {
        b
    }
}

/// Lowest corner height of the occupied cells among the first `k` (65535 when none).
pub open spec fn corner_min(g: Seq<Seq<u16>>, shape: Shape, cx0: int, cy0: int, k: int) -> int
    decreases k,
{
    if k <= 0 {
        u16::MAX as int
    } else {
        let c = corners(g, fp_x(shape, cx0, k - 1), fp_y(shape, cy0, k - 1));
        let m = corner_min(g, shape, cx0, cy0, k - 1);
        if occupied(shape, k - 1) {
            min_int(min_int(min_int(min_int(m, c.0 as int), c.1 as int), c.2 as int), c.3 as int)
        } else {
            m
        }
    }
}

/// `g` with the corners of the occupied cells among the first `k` set to `t`.
pub open spec fn fill_corners(g: Seq<Seq<u16>>, shape: Shape, cx0: int, cy0: int, t: u16, k: int) -> Seq<
    Seq<u16>,
>
    decreases k,
{
    if k <= 0 {
        g
    } else {
        let g1 = fill_corners(g, shape, cx0, cy0, t, k - 1);
        let x = fp_x(shape, cx0, k - 1);
        let y = fp_y(shape, cy0, k - 1);
        if occupied(shape, k - 1) {
            put(put(put(put(g1, x, y, t), wrap(x + 1), y, t), x, wrap(y + 1), t), wrap(x + 1), wrap(y + 1), t)
        } else {
            g1
        }
    }
}

/// The cell at `(x, y)` is an occupied cell of the footprint whose corner is at `(cx0, cy0)`.
pub open spec fn in_footprint(shape: Shape, cx0: int, cy0: int, x: int, y: int) -> bool {
    let rel_x = (x + 128 - cx0) % 128;
    let rel_y = (y + 128 - cy0) % 128;
    rel_x < shape.width && rel_y < shape.height && occupied(shape, rel_y * shape.width + rel_x)
}

/// The smoothed height at `(x, y)`: four times its own plus its four neighbours, over eight.
pub open spec fn smoothed(g: Seq<Seq<u16>>, x: int, y: int) -> u16 {
    ((4 * g[y][x] + g[y][wrap(x + 1)] + g[y][wrap(x + 127)] + g[wrap(y + 1)][x] + g[wrap(y + 127)][x]) / 8) as u16
}

/// `g` after smoothing, in row order, the first `k` cells of the `d` x `d`
/// square whose corner is at `(sx, sy)`, the occupied footprint cells excepted.
pub open spec fn smooth_ring(
    g: Seq<Seq<u16>>,
    shape: Shape,
    cx0: int,
    cy0: int,
    sx: int,
    sy: int,
    d: int,
    k: int,
) -> Seq<Seq<u16>>
    decreases k,
{
    if k <= 0 {
        g
    } else {
        let g1 = smooth_ring(g, shape, cx0, cy0, sx, sy, d, k - 1);
        let x = wrap(sx + (k - 1) % d);
        let y = wrap(sy + (k - 1) / d);
        if in_footprint(shape, cx0, cy0, x, y) {
            g1
        } else {
            put(g1, x, y, smoothed(g1, x, y))
        }
    }
}

/// Half-width of the smoothed square around a footprint, plus one.
pub open spec fn smooth_reach(shape: Shape) -> int {
    let m = if shape.width >= shape.height { shape.width as int } else { shape.height as int };
    m / 2 + 2
}

/// The height the footprint placed at `(cell_x, cell_y)` is flattened to: the
/// average of its occupied cells' corner heights (rounded down), or their
/// lowest when `use_average` is off; at least one.
pub open spec fn flatten_target(g: Seq<Seq<u16>>, cell_x: int, cell_y: int, shape: Shape, use_average: bool) -> u16 {
    let cx0 = wrap(cell_x + 128 - shape.origin_x);
    let cy0 = wrap(cell_y + 128 - shape.origin_z);
    let n = shape.width * shape.height;
    let t0 = if use_average {
        corner_sum(g, shape, cx0, cy0, n) / (4 * occupied_count(shape, n))
    } else {
        corner_min(g, shape, cx0, cy0, n)
    };
    (if t0 < 1 { 1int } else { t0 }) as u16
}

/// The heights after flattening the footprint placed at `(cell_x, cell_y)`:
/// the corners of its occupied cells get their average height (or their lowest
/// when `use_average` is off), at least one; then the square around it is
/// smoothed cell by cell. A footprint without an occupied cell changes nothing.
pub open spec fn flattened(g: Seq<Seq<u16>>, cell_x: int, cell_y: int, shape: Shape, use_average: bool) -> Seq<
    Seq<u16>,
> {
    let w = shape.width as int;
    let h = shape.height as int;
    if w == 0 || h == 0 {
        g
    } else {
        let cx0 = wrap(cell_x + 128 - shape.origin_x);
        let cy0 = wrap(cell_y + 128 - shape.origin_z);
        let n = w * h;
        let count = 4 * occupied_count(shape, n);
        if count == 0 {
            g
        } else {
            let g2 = fill_corners(g, shape, cx0, cy0, flatten_target(g, cell_x, cell_y, shape, use_average), n);
            let r = smooth_reach(shape);
            let d = 2 * r + 1;
            smooth_ring(g2, shape, cx0, cy0, wrap(cell_x + 128 - r), wrap(cell_y + 128 - r), d, d * d)
        }
    }
}

/// Flattening the footprint at `(cell_x, cell_y)` would overflow or underflow
/// the cell arithmetic.
pub open spec fn flatten_overflows(cell_x: usize, cell_y: usize, shape: Shape) -> bool {
    shape.width > 0 && shape.height > 0 && (cell_x + 128 > usize::MAX || cell_y + 128 > usize::MAX
        || shape.origin_x > cell_x + 128 || shape.origin_z > cell_y + 128 || smooth_reach(shape) > cell_x + 128
        || smooth_reach(shape) > cell_y + 128)
}

/// Vertex `k` of the landscape mesh: cell `k / 6` (row `k / 768`, column
/// `(k / 6) % 128`) has two triangles over its corners; the last row and
/// column of cells have none and their vertices stay at the origin.
pub open spec fn mesh_vertex(k: int) -> (u8, u8) {
    let cell = k / 6;
    let i = cell / 128;
    let j = cell % 128;
    let c = k % 6;
    if i >= 127 || j >= 127 {
        (0, 0)
    } else if c == 0 {
        (i as u8, j as u8)
    } else if c == 1 {
        (i as u8, (j + 1) as u8)
    } else if c == 2 {
        ((i + 1) as u8, j as u8)
    } else if c == 3 {
        ((i + 1) as u8, (j + 1) as u8)
    } else if c == 4 {
        (i as u8, (j + 1) as u8)
    } else {
        ((i + 1) as u8, j as u8)
    }
}

/// The landscape mesh's vertices: two triangles per cell, over the cell grid.
pub fn gen_mesh() -> (v: Vec<(u8, u8)>)
    ensures
        v@.len() == LAND_VERTICES,
        forall|k: int| 0 <= k < LAND_VERTICES ==> #[trigger] v@[k] == mesh_vertex(k),
{
    let mut v: Vec<(u8, u8)> = Vec::new();
    let mut k: usize = 0;
    while k < LAND_VERTICES
        invariant
            0 <= k <= LAND_VERTICES,
            v@.len() == k,
            forall|q: int| 0 <= q < k ==> #[trigger] v@[q] == mesh_vertex(q),
        decreases LAND_VERTICES - k,
    {
        let cell = k / 6;
        let i = cell / 128;
        let j = cell % 128;
        let c = k % 6;
        let vert: (u8, u8) = if i >= 127 || j >= 127 {
            (0, 0)
        } else if c == 0 {
            (i as u8, j as u8)
        } else if c == 1 {
            (i as u8, (j + 1) as u8)
        } else if c == 2 {
            ((i + 1) as u8, j as u8)
        } else if c == 3 {
            ((i + 1) as u8, (j + 1) as u8)
        } else if c == 4 {
            (i as u8, (j + 1) as u8)
        } else {
            ((i + 1) as u8, j as u8)
        };
        v.push(vert);
        k = k + 1;
    }
    v
}

/// The landscape: its mesh vertices, its scroll shift and its corner heights.
pub struct LandscapeMesh {
    vertices: Vec<(u8, u8)>,
    shift_x: usize,
    shift_y: usize,
    heights: [[u16; 128]; 128],
}

/// `(n + shift) mod 128`, never negative.
pub open spec fn shifted(n: int, shift: int) -> int {
    (n + shift) % 128
}

/// `n` moved by `shift` around the 128-cell torus.
fn shift_n(n: usize, shift: i32) -> (r: usize)
    requires
        n < 128,
    ensures
        r == shifted(n as int, shift as int),
        r < 128,
{
    let s: i64 = n as i64 + shift as i64;
    if s >= 0 {
        (s % 128) as usize
    } else {
        let m: i64 = (-s) % 128;
        if m == 0 {
            0
        } else {
            (128 - m) as usize
        }
    }
}

impl LandscapeMesh {
    /// The heights as rows of plain values.
    pub closed spec fn grid(&self) -> Seq<Seq<u16>> {
        grid_of(self.heights)
    }

    /// Horizontal scroll shift in cells.
    pub closed spec fn shift_x_view(&self) -> usize {
        self.shift_x
    }

    /// Vertical scroll shift in cells.
    pub closed spec fn shift_y_view(&self) -> usize {
        self.shift_y
    }

    /// The mesh vertices.
    pub closed spec fn vertices_view(&self) -> Seq<(u8, u8)> {
        self.vertices@
    }

    /// The shifts lie on the grid.
    pub closed spec fn wf(&self) -> bool {
        self.shift_x < 128 && self.shift_y < 128
    }

    /// A flat landscape at height zero, unshifted, with its mesh.
    pub fn new() -> (m: Self)
        ensures
            m.wf(),
            m.shift_x_view() == 0,
            m.shift_y_view() == 0,
            forall|x: int, y: int| 0 <= x < 128 && 0 <= y < 128 ==> #[trigger] m.grid()[y][x] == 0,
            m.grid().len() == 128,
            forall|y: int| 0 <= y < 128 ==> (#[trigger] m.grid()[y]).len() == 128,
            m.vertices_view().len() == LAND_VERTICES,
            forall|k: int| 0 <= k < LAND_VERTICES ==> #[trigger] m.vertices_view()[k] == mesh_vertex(k),
    {
        let vertices = gen_mesh();
        LandscapeMesh { vertices, shift_x: 0, shift_y: 0, heights: [[0u16; 128]; 128] }
    }

    /// The mesh vertices, three per triangle.
    pub fn vertices(&self) -> (r: &Vec<(u8, u8)>)
        ensures
            r@ == self.vertices_view(),
    {
        &self.vertices
    }

    /// Cells per side.
    pub fn width(&self) -> (r: usize)
        ensures
            r == LAND_SIZE,
    {
        LAND_SIZE
    }

    /// Replace all heights.
    pub fn set_heights(&mut self, heights: &[[u16; 128]; 128])
        ensures
            final(self).grid() == grid_of(*heights),
            final(self).shift_x_view() == old(self).shift_x_view(),
            final(self).shift_y_view() == old(self).shift_y_view(),
            final(self).vertices_view() == old(self).vertices_view(),
    {
        self.heights = *heights;
    }

    /// The height at a corner, coordinates wrapped onto the torus.
    pub fn height_at(&self, x: usize, y: usize) -> (h: u16)
        ensures
            h == self.grid()[wrap(y as int)][wrap(x as int)],
    {
        self.heights[y % 128][x % 128]
    }

    fn put_height(&mut self, x: usize, y: usize, v: u16)
        requires
            x < 128,
            y < 128,
        ensures
            final(self).grid() == put(old(self).grid(), x as int, y as int, v),
            final(self).shift_x == old(self).shift_x,
            final(self).shift_y == old(self).shift_y,
            final(self).vertices == old(self).vertices,
    {
        let mut row = self.heights[y];
        row.set(x, v);
        self.heights.set(y, row);
        assert(grid_of(self.heights) =~= put(grid_of(old(self).heights), x as int, y as int, v));
    }

    /// Set the height at a corner, coordinates wrapped onto the torus.
    pub fn set_height_at(&mut self, x: usize, y: usize, h: u16)
        ensures
            final(self).grid() == put(old(self).grid(), wrap(x as int), wrap(y as int), h),
            final(self).shift_x_view() == old(self).shift_x_view(),
            final(self).shift_y_view() == old(self).shift_y_view(),
            final(self).vertices_view() == old(self).vertices_view(),
    {
        self.put_height(x % 128, y % 128, h);
    }

    /// All heights.
    pub fn heights(&self) -> (r: &[[u16; 128]; 128])
        ensures
            grid_of(*r) == self.grid(),
    {
        &self.heights
    }

    /// The heights widened to words, row by row.
    pub fn heights_to_gpu_vec(&self) -> (v: Vec<u32>)
        ensures
            v@.len() == 128 * 128,
            forall|i: int, j: int| 0 <= i < 128 && 0 <= j < 128 ==> #[trigger] v@[i * 128 + j] == self.grid()[i][j] as u32,
    {
        let mut v: Vec<u32> = Vec::new();
        let mut k: usize = 0;
        while k < 128 * 128
            invariant
                0 <= k <= 128 * 128,
                v@.len() == k,
                forall|q: int| 0 <= q < k ==> #[trigger] v@[q] == grid_of(self.heights)[q / 128][q % 128] as u32,
            decreases 128 * 128 - k,
        {
            v.push(self.heights[k / 128][k % 128] as u32);
            k = k + 1;
        }
        assert forall|i: int, j: int| 0 <= i < 128 && 0 <= j < 128 implies #[trigger] v@[i * 128 + j]
            == grid_of(self.heights)[i][j] as u32 by {
            assert((i * 128 + j) / 128 == i && (i * 128 + j) % 128 == j) by (nonlinear_arith)
                requires
                    0 <= i < 128,
                    0 <= j < 128,
            ;
        }
        v
    }

    /// Scroll horizontally by `shift` cells around the torus; the new shift.
    pub fn shift_x(&mut self, shift: i32) -> (r: usize)
        requires
            old(self).wf(),
        ensures
            final(self).wf(),
            r == shifted(old(self).shift_x_view() as int, shift as int),
            final(self).shift_x_view() == r,
            final(self).shift_y_view() == old(self).shift_y_view(),
            final(self).grid() == old(self).grid(),
            final(self).vertices_view() == old(self).vertices_view(),
    {
        self.shift_x = shift_n(self.shift_x, shift);
        self.shift_x
    }

    /// Scroll vertically by `shift` cells around the torus; the new shift.
    pub fn shift_y(&mut self, shift: i32) -> (r: usize)
        requires
            old(self).wf(),
        ensures
            final(self).wf(),
            r == shifted(old(self).shift_y_view() as int, shift as int),
            final(self).shift_y_view() == r,
            final(self).shift_x_view() == old(self).shift_x_view(),
            final(self).grid() == old(self).grid(),
            final(self).vertices_view() == old(self).vertices_view(),
    {
        self.shift_y = shift_n(self.shift_y, shift);
        self.shift_y
    }

    /// Set both shifts, wrapped onto the torus.
    pub fn set_shift(&mut self, sx: usize, sy: usize)
        ensures
            final(self).wf(),
            final(self).shift_x_view() == sx % 128,
            final(self).shift_y_view() == sy % 128,
            final(self).grid() == old(self).grid(),
            final(self).vertices_view() == old(self).vertices_view(),
    {
        self.shift_x = sx % 128;
        self.shift_y = sy % 128;
    }

    /// The shift as a four-component vector `(x, y, 0, 0)`.
    pub fn get_shift_vector(&self) -> (r: [i32; 4])
        requires
            self.wf(),
        ensures
            r@ == seq![self.shift_x_view() as i32, self.shift_y_view() as i32, 0i32, 0i32],
    {
        let r = [self.shift_x as i32, self.shift_y as i32, 0, 0];
        assert(r@ =~= seq![self.shift_x as i32, self.shift_y as i32, 0i32, 0i32]);
        r
    }
    /// Smooth, in row order, the cells of the square of side `2 * radius + 3`
    /// centred on `(center_x, center_y)`, except the occupied cells of the
    /// footprint whose corner is at `(corner_x, corner_y)`.
    fn smooth_terrain_area(
        &mut self,
        center_x: usize,
        center_y: usize,
        radius: usize,
        corner_x: usize,
        corner_y: usize,
        fp_w: usize,
        fp_h: usize,
        shape: &Shape,
    )
        requires
            radius + 1 <= center_x + 128,
            radius + 1 <= center_y + 128,
            center_x + 128 <= usize::MAX,
            center_y + 128 <= usize::MAX,
            radius <= 200,
            corner_x < 128,
            corner_y < 128,
            fp_w == shape.width,
            fp_h == shape.height,
        ensures
            final(self).grid() == smooth_ring(
                old(self).grid(),
                *shape,
                corner_x as int,
                corner_y as int,
                wrap(center_x + 128 - (radius + 1)),
                wrap(center_y + 128 - (radius + 1)),
                2 * (radius + 1) + 1,
                (2 * (radius + 1) + 1) * (2 * (radius + 1) + 1),
            ),
            final(self).shift_x == old(self).shift_x,
            final(self).shift_y == old(self).shift_y,
            final(self).vertices == old(self).vertices,
    {
        let r = radius + 1;
        let start_x = (center_x + 128 - r) % 128;
        let start_y = (center_y + 128 - r) % 128;
        let diameter = r * 2 + 1;
        assert(diameter * diameter <= 403 * 403) by (nonlinear_arith)
            requires
                0 < diameter <= 403,
        ;
        let total = diameter * diameter;
        let ghost g = self.grid();
        let mut k: usize = 0;
        while k < total
            invariant
                0 <= k <= total,
                total == diameter * diameter,
                diameter == 2 * r + 1,
                0 < diameter <= 403,
                start_x < 128,
                start_y < 128,
                corner_x < 128,
                corner_y < 128,
                fp_w == shape.width,
                fp_h == shape.height,
                self.shift_x == old(self).shift_x,
                self.shift_y == old(self).shift_y,
                self.vertices == old(self).vertices,
                self.grid() == smooth_ring(
                    g,
                    *shape,
                    corner_x as int,
                    corner_y as int,
                    start_x as int,
                    start_y as int,
                    diameter as int,
                    k as int,
                ),
            decreases total - k,
        {
            let dx = k % diameter;
            let dy = k / diameter;
            assert(dy < diameter) by (nonlinear_arith)
                requires
                    k < diameter * diameter,
                    dy == k / diameter,
                    diameter > 0,
            ;
            let cx = (start_x + dx) % 128;
            let cy = (start_y + dy) % 128;
            let rel_x = (cx + 128 - corner_x) % 128;
            let rel_y = (cy + 128 - corner_y) % 128;
            let mut inside = false;
            if rel_x < fp_w && rel_y < fp_h {
                assert(rel_y * fp_w + rel_x <= 255 * 255 + 255) by (nonlinear_arith)
                    requires
                        rel_y < fp_h <= 255,
                        fp_w <= 255,
                        rel_x < fp_w,
                ;
                let mask_idx = rel_y * fp_w + rel_x;
                if mask_idx < 40 && (shape.cell_mask[mask_idx] & 1u8) != 0 {
                    inside = true;
                }
            }
            assert(inside == in_footprint(*shape, corner_x as int, corner_y as int, cx as int, cy as int));
            if !inside {
                let cx1 = (cx + 1) % 128;
                let cy1 = (cy + 1) % 128;
                let cxm = (cx + 127) % 128;
                let cym = (cy + 127) % 128;
                let h_center = self.heights[cy][cx] as u32;
                let h_right = self.heights[cy][cx1] as u32;
                let h_left = self.heights[cy][cxm] as u32;
                let h_down = self.heights[cy1][cx] as u32;
                let h_up = self.heights[cym][cx] as u32;
                let avg = (h_center * 4 + h_right + h_left + h_down + h_up) / 8;
                assert(avg as u16 == smoothed(self.grid(), cx as int, cy as int));
                self.put_height(cx, cy, avg as u16);
            }
            k = k + 1;
        }
    }

    /// Flatten the ground under a building placed at `(cell_x, cell_y)`: the
    /// corners of the footprint's occupied cells get their average height (or
    /// their lowest), at least one, and the ground around is smoothed.
    pub fn flatten_building_footprint(&mut self, cell_x: usize, cell_y: usize, shape: &Shape, use_average: bool)
        requires
            !flatten_overflows(cell_x, cell_y, *shape),
        ensures
            final(self).grid() == flattened(old(self).grid(), cell_x as int, cell_y as int, *shape, use_average),
            final(self).shift_x_view() == old(self).shift_x_view(),
            final(self).shift_y_view() == old(self).shift_y_view(),
            final(self).vertices_view() == old(self).vertices_view(),
    {
        let w = shape.width as usize;
        let h = shape.height as usize;
        if w == 0 || h == 0 {
            return;
        }
        let corner_x = (cell_x + 128 - shape.origin_x as usize) % 128;
        let corner_y = (cell_y + 128 - shape.origin_z as usize) % 128;
        assert(w * h <= 255 * 255) by (nonlinear_arith)
            requires
                w <= 255,
                h <= 255,
        ;
        let n = w * h;
        let ghost g = self.grid();
        let mut sum: u64 = 0;
        let mut min_h: u16 = u16::MAX;
        let mut count: u32 = 0;
        let mut k: usize = 0;
        while k < n
            invariant
                0 <= k <= n,
                n == w * h,
                n <= 255 * 255,
                w == shape.width,
                0 < w,
                corner_x < 128,
                corner_y < 128,
                self.grid() == g,
                sum == corner_sum(g, *shape, corner_x as int, corner_y as int, k as int),
                min_h == corner_min(g, *shape, corner_x as int, corner_y as int, k as int),
                count == 4 * occupied_count(*shape, k as int),
                count <= 4 * k,
                sum <= 65535 * count,
            decreases n - k,
        {
            if k < 40 && (shape.cell_mask[k] & 1u8) != 0 {
                let dx = k % w;
                let dy = k / w;
                let cx = (corner_x + dx) % 128;
                let cy = (corner_y + dy) % 128;
                let cx1 = (cx + 1) % 128;
                let cy1 = (cy + 1) % 128;
                let h00 = self.heights[cy][cx];
                let h10 = self.heights[cy][cx1];
                let h01 = self.heights[cy1][cx];
                let h11 = self.heights[cy1][cx1];
                sum = sum + h00 as u64 + h10 as u64 + h01 as u64 + h11 as u64;
                let mut m = min_h;
                if h00 < m {
                    m = h00;
                }
                if h10 < m {
                    m = h10;
                }
                if h01 < m {
                    m = h01;
                }
                if h11 < m {
                    m = h11;
                }
                min_h = m;
                count = count + 4;
            }
            k = k + 1;
        }
        if count == 0 {
            return;
        }
        let t0: u16 = if use_average {
            assert(sum / (count as u64) <= 65535) by (nonlinear_arith)
                requires
                    sum <= 65535 * count,
                    count > 0,
            ;
            (sum / (count as u64)) as u16
        } else {
            min_h
        };
        let target: u16 = if t0 < 1 { 1 } else { t0 };
        let ghost g1 = self.grid();
        let mut k: usize = 0;
        while k < n
            invariant
                0 <= k <= n,
                n == w * h,
                w == shape.width,
                0 < w,
                corner_x < 128,
                corner_y < 128,
                self.shift_x == old(self).shift_x,
                self.shift_y == old(self).shift_y,
                self.vertices == old(self).vertices,
                self.grid() == fill_corners(g1, *shape, corner_x as int, corner_y as int, target, k as int),
            decreases n - k,
        {
            if k < 40 && (shape.cell_mask[k] & 1u8) != 0 {
                let dx = k % w;
                let dy = k / w;
                let cx = (corner_x + dx) % 128;
                let cy = (corner_y + dy) % 128;
                let cx1 = (cx + 1) % 128;
                let cy1 = (cy + 1) % 128;
                self.put_height(cx, cy, target);
                self.put_height(cx1, cy, target);
                self.put_height(cx, cy1, target);
                self.put_height(cx1, cy1, target);
            }
            k = k + 1;
        }
        let radius = (if w >= h { w } else { h }) / 2 + 1;
        self.smooth_terrain_area(cell_x, cell_y, radius, corner_x, corner_y, w, h, shape);
    }
}


/// A 128 x 128 grid.
pub open spec fn square(g: Seq<Seq<u16>>) -> bool {
    g.len() == 128 && forall|y: int| 0 <= y < 128 ==> (#[trigger] g[y]).len() == 128
}

proof fn lemma_put(g: Seq<Seq<u16>>, x: int, y: int, v: u16)
    requires
        square(g),
        0 <= x < 128,
        0 <= y < 128,
    ensures
        square(put(g, x, y, v)),
        forall|a: int, b: int|
            0 <= a < 128 && 0 <= b < 128 ==> #[trigger] put(g, x, y, v)[b][a] == if a == x && b == y {
                v
            } else {
                g[b][a]
            },
{
}

proof fn lemma_fill_square(g: Seq<Seq<u16>>, shape: Shape, cx0: int, cy0: int, t: u16, k: int)
    requires
        square(g),
        shape.width > 0,
    ensures
        square(fill_corners(g, shape, cx0, cy0, t, k)),
    decreases k,
{
    if k > 0 {
        lemma_fill_square(g, shape, cx0, cy0, t, k - 1);
        let g1 = fill_corners(g, shape, cx0, cy0, t, k - 1);
        let x = fp_x(shape, cx0, k - 1);
        let y = fp_y(shape, cy0, k - 1);
        if occupied(shape, k - 1) {
            lemma_put(g1, x, y, t);
            lemma_put(put(g1, x, y, t), wrap(x + 1), y, t);
            lemma_put(put(put(g1, x, y, t), wrap(x + 1), y, t), x, wrap(y + 1), t);
            lemma_put(put(put(put(g1, x, y, t), wrap(x + 1), y, t), x, wrap(y + 1), t), wrap(x + 1), wrap(y + 1), t);
        }
    }
}

/// After filling, the corner of each occupied cell among the first `k` holds `t`.
proof fn lemma_fill_sets(g: Seq<Seq<u16>>, shape: Shape, cx0: int, cy0: int, t: u16, k: int, j: int)
    requires
        square(g),
        shape.width > 0,
        0 <= j < k,
        occupied(shape, j),
    ensures
        fill_corners(g, shape, cx0, cy0, t, k)[fp_y(shape, cy0, j)][fp_x(shape, cx0, j)] == t,
    decreases k,
{
    lemma_fill_square(g, shape, cx0, cy0, t, k - 1);
    let g1 = fill_corners(g, shape, cx0, cy0, t, k - 1);
    let x = fp_x(shape, cx0, k - 1);
    let y = fp_y(shape, cy0, k - 1);
    let xj = fp_x(shape, cx0, j);
    let yj = fp_y(shape, cy0, j);
    if j < k - 1 {
        lemma_fill_sets(g, shape, cx0, cy0, t, k - 1, j);
    }
    if occupied(shape, k - 1) {
        let p1 = put(g1, x, y, t);
        let p2 = put(p1, wrap(x + 1), y, t);
        let p3 = put(p2, x, wrap(y + 1), t);
        lemma_put(g1, x, y, t);
        lemma_put(p1, wrap(x + 1), y, t);
        lemma_put(p2, x, wrap(y + 1), t);
        lemma_put(p3, wrap(x + 1), wrap(y + 1), t);
        assert(p1[yj][xj] == t);
        assert(p2[yj][xj] == t);
        assert(p3[yj][xj] == t);
    }
}

/// Smoothing leaves the occupied footprint cells' own corners alone.
proof fn lemma_smooth_keeps(
    g: Seq<Seq<u16>>,
    shape: Shape,
    cx0: int,
    cy0: int,
    sx: int,
    sy: int,
    d: int,
    k: int,
    x: int,
    y: int,
)
    requires
        square(g),
        d > 0,
        0 <= x < 128,
        0 <= y < 128,
        in_footprint(shape, cx0, cy0, x, y),
    ensures
        square(smooth_ring(g, shape, cx0, cy0, sx, sy, d, k)),
        smooth_ring(g, shape, cx0, cy0, sx, sy, d, k)[y][x] == g[y][x],
    decreases k,
{
    if k > 0 {
        lemma_smooth_keeps(g, shape, cx0, cy0, sx, sy, d, k - 1, x, y);
        let g1 = smooth_ring(g, shape, cx0, cy0, sx, sy, d, k - 1);
        let a = wrap(sx + (k - 1) % d);
        let b = wrap(sy + (k - 1) / d);
        if !in_footprint(shape, cx0, cy0, a, b) {
            lemma_put(g1, a, b, smoothed(g1, a, b));
        }
    }
}

/// Flattening levels the footprint: the corner of every occupied cell of the
/// footprint ends at the flattening height, which is at least one.
pub proof fn lemma_flatten_levels_footprint(
    g: Seq<Seq<u16>>,
    cell_x: int,
    cell_y: int,
    shape: Shape,
    use_average: bool,
    j: int,
)
    requires
        square(g),
        0 < shape.width,
        0 < shape.height,
        0 <= j < shape.width * shape.height,
        occupied(shape, j),
    ensures
        flattened(g, cell_x, cell_y, shape, use_average)[fp_y(
            shape,
            wrap(cell_y + 128 - shape.origin_z),
            j,
        )][fp_x(shape, wrap(cell_x + 128 - shape.origin_x), j)] == flatten_target(
            g,
            cell_x,
            cell_y,
            shape,
            use_average,
        ),
        flatten_target(g, cell_x, cell_y, shape, use_average) >= 1 || occupied_count(
            shape,
            shape.width * shape.height,
        ) == 0,
{
    let w = shape.width as int;
    let h = shape.height as int;
    let n = w * h;
    let cx0 = wrap(cell_x + 128 - shape.origin_x);
    let cy0 = wrap(cell_y + 128 - shape.origin_z);
    let t = flatten_target(g, cell_x, cell_y, shape, use_average);
    assert(occupied_count(shape, n) > 0) by {
        lemma_occupied_count_pos(shape, n, j);
    }
    lemma_fill_sets(g, shape, cx0, cy0, t, n, j);
    lemma_fill_square(g, shape, cx0, cy0, t, n);
    let x = fp_x(shape, cx0, j);
    let y = fp_y(shape, cy0, j);
    assert(j % w < 40 && j / w < 40 && j / w < h && (j / w) * w + j % w == j) by (nonlinear_arith)
        requires
            0 <= j < 40,
            0 <= j < w * h,
            w > 0,
    ;
    assert(in_footprint(shape, cx0, cy0, x, y));
    let r = smooth_reach(shape);
    let d = 2 * r + 1;
    lemma_smooth_keeps(
        fill_corners(g, shape, cx0, cy0, t, n),
        shape,
        cx0,
        cy0,
        wrap(cell_x + 128 - r),
        wrap(cell_y + 128 - r),
        d,
        d * d,
        x,
        y,
    );
    lemma_target_positive(g, cell_x, cell_y, shape, use_average);
}

proof fn lemma_occupied_count_pos(shape: Shape, k: int, j: int)
    requires
        0 <= j < k,
        occupied(shape, j),
    ensures
        occupied_count(shape, k) > 0,
    decreases k,
{
    if j < k - 1 {
        lemma_occupied_count_pos(shape, k - 1, j);
        lemma_occupied_count_nonneg(shape, k - 1);
    } else {
        lemma_occupied_count_nonneg(shape, k - 1);
    }
}

proof fn lemma_occupied_count_nonneg(shape: Shape, k: int)
    ensures
        occupied_count(shape, k) >= 0,
    decreases k,
{
    if k > 0 {
        lemma_occupied_count_nonneg(shape, k - 1);
    }
}

proof fn lemma_target_positive(g: Seq<Seq<u16>>, cell_x: int, cell_y: int, shape: Shape, use_average: bool)
    requires
        square(g),
    ensures
        flatten_target(g, cell_x, cell_y, shape, use_average) >= 1 || occupied_count(
            shape,
            shape.width * shape.height,
        ) == 0,
{
    let cx0 = wrap(cell_x + 128 - shape.origin_x);
    let cy0 = wrap(cell_y + 128 - shape.origin_z);
    let n = shape.width * shape.height;
    lemma_corner_bounds(g, shape, cx0, cy0, n);
    lemma_occupied_count_nonneg(shape, n);
    let c = occupied_count(shape, n);
    let sum = corner_sum(g, shape, cx0, cy0, n);
    if c > 0 {
        assert(0 <= sum / (4 * c) <= 65535) by (nonlinear_arith)
            requires
                0 <= sum <= 262140 * c,
                c > 0,
        ;
        let t0 = if use_average { sum / (4 * c) } else { corner_min(g, shape, cx0, cy0, n) };
        assert(0 <= t0 <= 65535);
        let t = if t0 < 1 { 1int } else { t0 };
        assert(1 <= t <= 65535);
        assert(flatten_target(g, cell_x, cell_y, shape, use_average) == t as u16);
        assert(t as u16 >= 1);
    }
}

proof fn lemma_corner_bounds(g: Seq<Seq<u16>>, shape: Shape, cx0: int, cy0: int, k: int)
    ensures
        0 <= corner_sum(g, shape, cx0, cy0, k) <= 262140 * occupied_count(shape, k),
        0 <= corner_min(g, shape, cx0, cy0, k) <= 65535,
    decreases k,
{
    if k > 0 {
        lemma_corner_bounds(g, shape, cx0, cy0, k - 1);
        let c = corners(g, fp_x(shape, cx0, k - 1), fp_y(shape, cy0, k - 1));
        assert(c.0 <= 65535 && c.1 <= 65535 && c.2 <= 65535 && c.3 <= 65535);
        if occupied(shape, k - 1) {
            assert(occupied_count(shape, k) == occupied_count(shape, k - 1) + 1);
            assert(corner_sum(g, shape, cx0, cy0, k) == corner_sum(g, shape, cx0, cy0, k - 1) + c.0 + c.1 + c.2 + c.3);
        } else {
            assert(occupied_count(shape, k) == occupied_count(shape, k - 1));
            assert(corner_sum(g, shape, cx0, cy0, k) == corner_sum(g, shape, cx0, cy0, k - 1));
        }
    }
}


/// Reading a corner after setting it gives the height set, and every other
/// corner keeps its height (coordinates wrapped onto the torus).
pub proof fn lemma_set_then_get(g: Seq<Seq<u16>>, x: int, y: int, h: u16, a: int, b: int)
    requires
        square(g),
    ensures
        put(g, wrap(x), wrap(y), h)[wrap(b)][wrap(a)] == if wrap(a) == wrap(x) && wrap(b) == wrap(y) {
            h
        } else {
            g[wrap(b)][wrap(a)]
        },
{
    lemma_put(g, wrap(x), wrap(y), h);
}

/// Scrolling by `a` then by `b` is scrolling by `a + b`; in particular
/// scrolling back by the same amount returns to the same shift.
pub proof fn lemma_shift_compose(n: int, a: int, b: int)
    requires
        0 <= n < 128,
    ensures
        shifted(shifted(n, a), b) == shifted(n, a + b),
        shifted(shifted(n, a), -a) == n,
{
    assert(((n + a) % 128 + b) % 128 == (n + a + b) % 128) by (nonlinear_arith);
    assert(((n + a) % 128 - a) % 128 == n) by (nonlinear_arith)
        requires
            0 <= n < 128,
    ;
}

} // verus!
