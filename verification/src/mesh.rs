//! Mesh topology for a square grid of quads.
//!
//! The renderer draws `number_of_quads` textured quads laid out on a square
//! grid covering clip space. This module decides which quads exist, in which
//! order their corners are emitted, and which indices form their triangles.
//! Each vertex is described by the grid cell it belongs to and the corner of
//! that cell; the application maps cells to floating-point clip-space and
//! texture coordinates.

use vstd::prelude::*;

verus! {

/// A corner of one grid cell.
#[derive(Clone, Copy, Debug, PartialEq, Eq, Structural)]
pub enum Corner {
    BottomLeft,
    BottomRight,
    TopRight,
    TopLeft,
}

/// One mesh vertex: a corner of the grid cell at column `cell_x`, row
/// `cell_y` (rows count upwards from the bottom of clip space).
#[derive(Clone, Copy, Debug, PartialEq, Eq, Structural)]
pub struct Vertex {
    pub cell_x: u32,
    pub cell_y: u32,
    pub corner: Corner,
}

/// Offset of a corner from its cell's bottom-left lattice point.
pub open spec fn corner_offset(corner: Corner) -> (int, int) {
    match corner {
        Corner::BottomLeft => (0, 0),
        Corner::BottomRight => (1, 0),
        Corner::TopRight => (1, 1),
        Corner::TopLeft => (0, 1),
    }
}

/// The lattice point of a vertex: column and row of grid lines, counted from
/// the bottom-left corner of clip space.
pub open spec fn lattice_point(v: Vertex) -> (int, int) {
    (v.cell_x + corner_offset(v.corner).0, v.cell_y + corner_offset(v.corner).1)
}

/// Formats of vertex attributes that the shader reads.
#[derive(Clone, Copy, Debug, PartialEq, Eq, Structural)]
pub enum VertexFormat {
    /// Two 32-bit floats.
    Float32x2,
    /// Three 32-bit floats.
    Float32x3,
}

/// Size in bytes of one attribute of the given format.
pub open spec fn format_size(format: VertexFormat) -> nat {
    match format {
        VertexFormat::Float32x2 => 8,
        VertexFormat::Float32x3 => 12,
    }
}

impl VertexFormat {
    /// Size in bytes of one attribute of this format.
    pub fn size(&self) -> (s: u64)
        ensures
            s == format_size(*self),
    {
        match self {
            VertexFormat::Float32x2 => 8,
            VertexFormat::Float32x3 => 12,
        }
    }
}

/// How the GPU advances through a vertex buffer.
#[derive(Clone, Copy, Debug, PartialEq, Eq, Structural)]
pub enum VertexStepMode {
    Vertex,
    Instance,
}

/// One attribute of a vertex buffer: its format, byte offset within a vertex,
/// and the shader location that receives it.
#[derive(Clone, Copy, Debug, PartialEq, Eq, Structural)]
pub struct VertexAttribute {
    pub format: VertexFormat,
    pub offset: u64,
    pub shader_location: u32,
}

/// Layout of one vertex buffer as the render pipeline reads it.
#[derive(Debug)]
pub struct VertexBufferLayout {
    pub array_stride: u64,
    pub step_mode: VertexStepMode,
    pub attributes: Vec<VertexAttribute>,
}

/// Byte offset of attribute `i` when the attributes are packed back to back
/// in the order given.
pub open spec fn packed_offset(formats: Seq<(u32, VertexFormat)>, i: int) -> nat
    decreases i,
{
    if i <= 0 {
        0
    } else {
        packed_offset(formats, i - 1) + format_size(formats[i - 1].1)
    }
}

/// Packed offsets never decrease and grow by at most twelve bytes per
/// attribute.
proof fn lemma_packed_offset_bound(formats: Seq<(u32, VertexFormat)>, i: int)
    requires
        0 <= i,
    ensures
        packed_offset(formats, i) <= 12 * i,
    decreases i,
{
    if i > 0 {
        lemma_packed_offset_bound(formats, i - 1);
    }
}

/// Lays attributes out back to back: each `(location, format)` pair becomes
/// an attribute at the sum of the sizes of the attributes before it.
pub fn vertex_attr_array(formats: &[(u32, VertexFormat)]) -> (attributes: Vec<VertexAttribute>)
    requires
        12 * formats@.len() <= u64::MAX,
    ensures
        attributes@.len() == formats@.len(),
        forall|i: int|
            0 <= i < formats@.len() ==> #[trigger] attributes@[i] == (VertexAttribute {
                format: formats@[i].1,
                offset: packed_offset(formats@, i) as u64,
                shader_location: formats@[i].0,
            }),
{
    let mut attributes: Vec<VertexAttribute> = Vec::new();
    let mut offset: u64 = 0;
    let mut i: usize = 0;
    while i < formats.len()
        invariant
            12 * formats@.len() <= u64::MAX,
            i <= formats@.len(),
            offset == packed_offset(formats@, i as int),
            attributes@.len() == i,
            forall|j: int|
                0 <= j < i ==> #[trigger] attributes@[j] == (VertexAttribute {
                    format: formats@[j].1,
                    offset: packed_offset(formats@, j) as u64,
                    shader_location: formats@[j].0,
                }),
        decreases formats@.len() - i,
    {
        let (location, format) = formats[i];
        attributes.push(VertexAttribute { format, offset, shader_location: location });
        proof {
            lemma_packed_offset_bound(formats@, i + 1);
        }
        offset = offset + format.size();
        i = i + 1;
    }
    attributes
}

impl Vertex {
    /// Layout of the vertex buffer the renderer uploads: a position of three
    /// floats at shader location 0, followed by texture coordinates of two
    /// floats at location 1, twenty bytes per vertex.
    pub fn desc() -> (layout: VertexBufferLayout)
        ensures
            layout.array_stride == 20,
            layout.step_mode == VertexStepMode::Vertex,
            layout.attributes@ == seq![
                VertexAttribute { format: VertexFormat::Float32x3, offset: 0, shader_location: 0 },
                VertexAttribute { format: VertexFormat::Float32x2, offset: 12, shader_location: 1 },
            ],
    {
        let formats = [(0u32, VertexFormat::Float32x3), (1u32, VertexFormat::Float32x2)];
        let attributes = vertex_attr_array(formats.as_slice());
        assert(packed_offset(formats@, 1) == 12) by {
            assert(packed_offset(formats@, 0) == 0);
        }
        let stride = VertexFormat::Float32x3.size() + VertexFormat::Float32x2.size();
        assert(attributes@ =~= seq![
            VertexAttribute { format: VertexFormat::Float32x3, offset: 0, shader_location: 0 },
            VertexAttribute { format: VertexFormat::Float32x2, offset: 12, shader_location: 1 },
        ]);
        VertexBufferLayout { array_stride: stride, step_mode: VertexStepMode::Vertex, attributes }
    }
}

/// The order in which a quad emits its corners: counter-clockwise, starting
/// at the bottom-left.
pub open spec fn corner_order(j: int) -> Corner {
    if j == 0 {
        Corner::BottomLeft
    } else if j == 1 {
        Corner::BottomRight
    } else if j == 2 {
        Corner::TopRight
    } else {
        Corner::TopLeft
    }
}

/// Offsets, from a quad's first vertex, of the six indices of its two
/// triangles (bottom-left, bottom-right, top-right) and (bottom-left,
/// top-right, top-left).
pub open spec fn quad_index_offset(j: int) -> int {
    if j == 0 {
        0
    } else if j == 1 {
        1
    } else if j == 2 {
        2
    } else if j == 3 {
        0
    } else if j == 4 {
        2
    } else {
        3
    }
}

/// The `v`-th vertex of a grid with `q` cells per side: cells are listed row
/// by row from the bottom, left to right, four corners each.
pub open spec fn grid_vertex(q: nat, v: int) -> Vertex {
    Vertex {
        cell_x: ((v / 4) % (q as int)) as u32,
        cell_y: ((v / 4) / (q as int)) as u32,
        corner: corner_order(v % 4),
    }
}

/// The `t`-th entry of the index buffer: the vertex number of the quad plus
/// the offset within the quad, truncated to 16 bits.
pub open spec fn grid_index(t: int) -> u16 {
    ((4 * (t / 6) + quad_index_offset(t % 6)) % 65536) as u16
}

/// Whether `r` is the integer square root of the non-negative number `n`.
pub open spec fn is_isqrt(n: int, r: int) -> bool {
    0 <= r && r * r <= n < (r + 1) * (r + 1)
}

/// The integer square root of a non-negative `n`.
pub open spec fn spec_isqrt(n: int) -> nat {
    choose|r: nat| is_isqrt(n, r as int)
}

/// The gap between neighbouring 32-bit floats around the positive integer
/// `n < 2^31`: 1 below 2^24, doubling with every power of two above.
pub open spec fn f32_spacing(n: int) -> int {
    if n < 0x100_0000 {
        1
    } else if n < 0x200_0000 {
        2
    } else if n < 0x400_0000 {
        4
    } else if n < 0x800_0000 {
        8
    } else if n < 0x1000_0000 {
        16
    } else if n < 0x2000_0000 {
        32
    } else if n < 0x4000_0000 {
        64
    } else {
        128
    }
}

/// The positive integer `n < 2^31` converted to a 32-bit float (`n as f32`):
/// rounded to the nearest multiple of the float spacing, ties to the even
/// multiple.
pub open spec fn f32_round(n: int) -> int {
    let u = f32_spacing(n);
    let q = n / u;
    let r = n % u;
    if 2 * r > u || (2 * r == u && q % 2 == 1) {
        (q + 1) * u
    } else {
        q * u
    }
}

/// For an integer `1 <= k <= 2^16`: `2^t`, where `2^-t` is half the gap
/// between the 32-bit floats just below `k`.
pub open spec fn half_gap_below_inverse(k: int) -> int {
    if k <= 1 {
        0x200_0000
    } else if k <= 2 {
        0x100_0000
    } else if k <= 4 {
        0x80_0000
    } else if k <= 8 {
        0x40_0000
    } else if k <= 16 {
        0x20_0000
    } else if k <= 32 {
        0x10_0000
    } else if k <= 64 {
        0x8_0000
    } else if k <= 128 {
        0x4_0000
    } else if k <= 256 {
        0x2_0000
    } else if k <= 512 {
        0x1_0000
    } else if k <= 1024 {
        0x8000
    } else if k <= 2048 {
        0x4000
    } else if k <= 4096 {
        0x2000
    } else if k <= 8192 {
        0x1000
    } else if k <= 16384 {
        0x800
    } else if k <= 32768 {
        0x400
    } else {
        0x200
    }
}

/// Whether the square root of `m`, rounded to the nearest 32-bit float,
/// reaches the integer `k` lying just above it: `sqrt(m) >= k - 2^-t` with
/// `2^-t` half the float gap below `k`. (The square root of an integer never
/// falls exactly half-way between two floats there, so ties do not arise.)
pub open spec fn f32_sqrt_reaches(m: int, k: int) -> bool {
    let s = half_gap_below_inverse(k);
    s * s * m >= (s * k - 1) * (s * k - 1)
}

/// The number of quads along one side of the grid built for `n` quads,
/// modelling `(n as f32).sqrt() as i32` in integers: `n` rounded to a float,
/// its square root rounded to a float, truncated. For `n < 2^24` this is the
/// integer square root of `n`; above, it can be one more (for 16793603 it is
/// 4098, whose square is 16793604). Zero when `n` is not positive.
/// That this model agrees with the float computation rests on IEEE-754
/// rounding, which nothing here proves; the tests compare the two on
/// millions of inputs, including every count near a perfect square.
pub open spec fn spec_quads_per_side(n: int) -> nat {
    if n <= 0 {
        0
    } else {
        let m = f32_round(n);
        let r = spec_isqrt(m);
        if f32_sqrt_reaches(m, (r + 1) as int) {
            (r + 1) as nat
        } else {
            r
        }
    }
}

/// The integer square root is unique, and `spec_isqrt` is it.
pub proof fn lemma_isqrt_unique(n: int, r: int)
    requires
        is_isqrt(n, r),
    ensures
        spec_isqrt(n) == r,
{
    assert(is_isqrt(n, r as nat as int));
    let c = spec_isqrt(n);
    assert(is_isqrt(n, c as int));
    if c < r {
        assert((c + 1) * (c + 1) <= r * r) by (nonlinear_arith)
            requires 0 <= c, c + 1 <= r;
    } else if c > r {
        assert((r + 1) * (r + 1) <= c * c) by (nonlinear_arith)
            requires 0 <= r, r + 1 <= c;
    }
}

/// The float spacing around a positive integer below 2^31.
fn spacing_of(n: u64) -> (u: u64)
    requires
        0 < n < 0x8000_0000,
    ensures
        u == f32_spacing(n as int),
{
    if n < 0x100_0000 {
        1
    } else if n < 0x200_0000 {
        2
    } else if n < 0x400_0000 {
        4
    } else if n < 0x800_0000 {
        8
    } else if n < 0x1000_0000 {
        16
    } else if n < 0x2000_0000 {
        32
    } else if n < 0x4000_0000 {
        64
    } else {
        128
    }
}

/// Rounding a positive integer below 2^31 to a multiple of its float
/// spacing stays positive and never passes 2^31.
proof fn lemma_spacing_rounding_bounds(n: int)
    requires
        0 < n < 0x8000_0000,
    ensures
        ({
            let u = f32_spacing(n);
            &&& 1 <= (n / u) * u <= n
            &&& (n / u + 1) * u <= 0x8000_0000
        }),
{
    let u = f32_spacing(n);
    if u == 1 {
    } else if u == 2 {
    } else if u == 4 {
    } else if u == 8 {
    } else if u == 16 {
    } else if u == 32 {
    } else if u == 64 {
    } else {
    }
}

/// Converts a positive integer below 2^31 to the nearest 32-bit float value,
/// computed exactly in integers.
fn round_to_f32(n: u64) -> (m: u64)
    requires
        0 < n < 0x8000_0000,
    ensures
        m == f32_round(n as int),
        0 < m <= 0x8000_0000,
{
    let u = spacing_of(n);
    proof {
        lemma_spacing_rounding_bounds(n as int);
    }
    let q = n / u;
    let r = n % u;
    if 2 * r > u || (2 * r == u && q % 2 == 1) {
        (q + 1) * u
    } else {
        q * u
    }
}

/// The integer square root of `m`, for `0 < m <= 2^31`.
fn isqrt(m: u64) -> (r: u64)
    requires
        0 < m <= 0x8000_0000,
    ensures
        is_isqrt(m as int, r as int),
        r == spec_isqrt(m as int),
        r <= 46340,
{
    // Bisection: the root stays in `[low, high)`.
    let mut low: u64 = 0;
    let mut high: u64 = 46341;
    assert(46341 * 46341 > 0x8000_0000) by (nonlinear_arith);
    while high - low > 1
        invariant
            0 < m <= 0x8000_0000,
            low < high <= 46341,
            low * low <= m,
            m < high * high,
        decreases high - low,
    {
        let mid: u64 = low + (high - low) / 2;
        assert(mid * mid <= 46341 * 46341) by (nonlinear_arith)
            requires mid <= 46341;
        if mid * mid <= m {
            low = mid;
        } else {
            high = mid;
        }
    }
    let r = low;
    assert(r <= 46340);
    assert(high == r + 1);
    proof {
        lemma_isqrt_unique(m as int, r as int);
    }
    r
}

/// `half_gap_below_inverse(k)` times `k` lies between 1 and 2^26.
proof fn lemma_half_gap_bound(k: int)
    requires
        1 <= k <= 65536,
    ensures
        1 <= half_gap_below_inverse(k) * k <= 0x400_0000,
        half_gap_below_inverse(k) <= 0x200_0000,
{
    if k <= 1 {
    } else if k <= 2 {
    } else if k <= 4 {
    } else if k <= 8 {
    } else if k <= 16 {
    } else if k <= 32 {
    } else if k <= 64 {
    } else if k <= 128 {
    } else if k <= 256 {
    } else if k <= 512 {
    } else if k <= 1024 {
    } else if k <= 2048 {
    } else if k <= 4096 {
    } else if k <= 8192 {
    } else if k <= 16384 {
    } else if k <= 32768 {
    } else {
    }
}

/// `half_gap_below_inverse(k)`, for `1 <= k <= 65536`.
fn half_gap_inverse_of(k: u64) -> (s: u64)
    requires
        1 <= k <= 65536,
    ensures
        s == half_gap_below_inverse(k as int),
        1 <= s * k <= 0x400_0000,
        s <= 0x200_0000,
{
    proof {
        lemma_half_gap_bound(k as int);
    }
    if k <= 1 {
        0x200_0000
    } else if k <= 2 {
        0x100_0000
    } else if k <= 4 {
        0x80_0000
    } else if k <= 8 {
        0x40_0000
    } else if k <= 16 {
        0x20_0000
    } else if k <= 32 {
        0x10_0000
    } else if k <= 64 {
        0x8_0000
    } else if k <= 128 {
        0x4_0000
    } else if k <= 256 {
        0x2_0000
    } else if k <= 512 {
        0x1_0000
    } else if k <= 1024 {
        0x8000
    } else if k <= 2048 {
        0x4000
    } else if k <= 4096 {
        0x2000
    } else if k <= 8192 {
        0x1000
    } else if k <= 16384 {
        0x800
    } else if k <= 32768 {
        0x400
    } else {
        0x200
    }
}

/// Number of quads along one side of the grid, as the renderer computes it
/// from the requested count with 32-bit float arithmetic: the square root of
/// `number_of_quads` as a float, truncated; zero when it is not positive.
pub fn quads_per_side(number_of_quads: i32) -> (r: u32)
    ensures
        r == spec_quads_per_side(number_of_quads as int),
        number_of_quads <= 0 ==> r == 0,
        r <= 46341,
{
    if number_of_quads <= 0 {
        return 0;
    }
    let n: u64 = number_of_quads as u64;
    let m = round_to_f32(n);
    let root = isqrt(m);
    let k: u64 = root + 1;
    let s = half_gap_inverse_of(k);
    let s_wide = s as u128;
    let k_wide = k as u128;
    let m_wide = m as u128;
    assert(s_wide * s_wide * m_wide <= 0x200_0000u128 * 0x200_0000u128 * 0x8000_0000u128)
        by (nonlinear_arith)
        requires
            s_wide <= 0x200_0000,
            m_wide <= 0x8000_0000,
    ;
    assert(s_wide * s_wide <= 0x200_0000u128 * 0x200_0000u128) by (nonlinear_arith)
        requires s_wide <= 0x200_0000;
    let square_s = s_wide * s_wide;
    let lhs = square_s * m_wide;
    let sk = s_wide * k_wide - 1;
    assert(sk * sk <= 0x400_0000u128 * 0x400_0000u128) by (nonlinear_arith)
        requires sk <= 0x400_0000;
    let rhs = sk * sk;
    if lhs >= rhs {
        k as u32
    } else {
        root as u32
    }
}

/// All vertices of a grid with `q` quads per side.
pub open spec fn grid_vertices(q: nat) -> Seq<Vertex> {
    Seq::new(4 * q * q, |v: int| grid_vertex(q, v))
}

/// The whole index buffer of a grid with `q` quads per side.
pub open spec fn grid_indices(q: nat) -> Seq<u16> {
    Seq::new(6 * q * q, |t: int| grid_index(t))
}

/// Twice the signed area of the triangle `a`, `b`, `c`: positive exactly
/// when the corners run counter-clockwise.
pub open spec fn orientation(a: (int, int), b: (int, int), c: (int, int)) -> int {
    (b.0 - a.0) * (c.1 - a.1) - (b.1 - a.1) * (c.0 - a.0)
}

/// Vertex numbers of a quad whose first vertex is number `4 * c`, as 16-bit
/// indices: the quad's base wraps modulo 65536 and never overflows when an
/// offset below four is added.
proof fn lemma_quad_base(c: int, p: int)
    requires
        c >= 0,
        0 <= p < 4,
    ensures
        (4 * c) % 65536 <= 65532,
        ((4 * c) % 65536) % 4 == 0,
        (4 * c) % 65536 + p == (4 * c + p) % 65536,
{
    let k = (4 * c) / 65536;
    let r = (4 * c) % 65536;
    assert(4 * c == 65536 * k + r && 0 <= r < 65536) by (nonlinear_arith)
        requires k == (4 * c) / 65536, r == (4 * c) % 65536;
    let m = c - 16384 * k;
    assert(r == 4 * m);
    assert(r <= 65532);
    vstd::arithmetic::div_mod::lemma_fundamental_div_mod_converse(4 * c + p, 65536, k, r + p);
}

/// Quad number `c` of a grid with `q` cells per side, spelled out: it is the
/// cell in column `c % q`, row `c / q`; its vertices `4c .. 4c + 4` are that
/// cell's bottom-left, bottom-right, top-right and top-left corners; and its
/// indices `6c .. 6c + 6` are the triangles (bottom-left, bottom-right,
/// top-right) and (bottom-left, top-right, top-left), numbered from `4c`
/// modulo 65536.
pub open spec fn quad_laid_out(vertices: Seq<Vertex>, indices: Seq<u16>, q: nat, c: int) -> bool {
    let x = (c % (q as int)) as u32;
    let y = (c / (q as int)) as u32;
    let b = (4 * c) % 65536;
    &&& vertices[4 * c] == Vertex { cell_x: x, cell_y: y, corner: Corner::BottomLeft }
    &&& vertices[4 * c + 1] == Vertex { cell_x: x, cell_y: y, corner: Corner::BottomRight }
    &&& vertices[4 * c + 2] == Vertex { cell_x: x, cell_y: y, corner: Corner::TopRight }
    &&& vertices[4 * c + 3] == Vertex { cell_x: x, cell_y: y, corner: Corner::TopLeft }
    &&& indices[6 * c] as int == b
    &&& indices[6 * c + 1] as int == b + 1
    &&& indices[6 * c + 2] as int == b + 2
    &&& indices[6 * c + 3] as int == b
    &&& indices[6 * c + 4] as int == b + 2
    &&& indices[6 * c + 5] as int == b + 3
}

/// Every quad of a grid is laid out as `quad_laid_out` spells out.
pub proof fn lemma_grid_quad_laid_out(q: nat, c: int)
    requires
        0 <= c < q * q,
    ensures
        quad_laid_out(grid_vertices(q), grid_indices(q), q, c),
{
    assert(4 * q * q == 4 * (q * q) && 6 * q * q == 6 * (q * q)) by (nonlinear_arith);
    assert((4 * c) / 4 == c && (4 * c + 1) / 4 == c && (4 * c + 2) / 4 == c && (4 * c + 3) / 4 == c);
    assert((4 * c) % 4 == 0 && (4 * c + 1) % 4 == 1 && (4 * c + 2) % 4 == 2 && (4 * c + 3) % 4 == 3);
    assert((6 * c) / 6 == c && (6 * c + 1) / 6 == c && (6 * c + 2) / 6 == c);
    assert((6 * c + 3) / 6 == c && (6 * c + 4) / 6 == c && (6 * c + 5) / 6 == c);
    assert((6 * c) % 6 == 0 && (6 * c + 1) % 6 == 1 && (6 * c + 2) % 6 == 2);
    assert((6 * c + 3) % 6 == 3 && (6 * c + 4) % 6 == 4 && (6 * c + 5) % 6 == 5);
    assert(4 * c + 3 < 4 * q * q && 6 * c + 5 < 6 * q * q);
    lemma_quad_base(c, 0);
    lemma_quad_base(c, 1);
    lemma_quad_base(c, 2);
    lemma_quad_base(c, 3);
    let vs = grid_vertices(q);
    let is = grid_indices(q);
    assert(vs[4 * c] == grid_vertex(q, 4 * c));
    assert(vs[4 * c + 1] == grid_vertex(q, 4 * c + 1));
    assert(vs[4 * c + 2] == grid_vertex(q, 4 * c + 2));
    assert(vs[4 * c + 3] == grid_vertex(q, 4 * c + 3));
    assert(is[6 * c] == grid_index(6 * c));
    assert(is[6 * c + 1] == grid_index(6 * c + 1));
    assert(is[6 * c + 2] == grid_index(6 * c + 2));
    assert(is[6 * c + 3] == grid_index(6 * c + 3));
    assert(is[6 * c + 4] == grid_index(6 * c + 4));
    assert(is[6 * c + 5] == grid_index(6 * c + 5));
}

/// Every index of a grid's index buffer names one of its vertices, also when
/// the vertex count exceeds the range of 16-bit indices.
pub proof fn lemma_index_in_range(q: nat, t: int)
    requires
        0 <= t < 6 * q * q,
    ensures
        (grid_index(t) as int) < 4 * q * q,
{
    let c = t / 6;
    let p = quad_index_offset(t % 6);
    lemma_quad_base(c, p);
    if 4 * q * q < 65536 {
        assert(c < q * q) by (nonlinear_arith)
            requires c == t / 6, 0 <= t < 6 * q * q;
        assert(4 * c + p < 4 * q * q) by (nonlinear_arith)
            requires c < q * q, p < 4;
        assert((4 * c + p) % 65536 == 4 * c + p);
    }
}

/// Appends the four corners of cell (`cell_x`, `cell_y`) and the six indices
/// of its two triangles. The indices start at the current vertex count
/// truncated to 16 bits, so an index buffer that named only existing
/// vertices still does.
pub fn push_quad(vertices: &mut Vec<Vertex>, indices: &mut Vec<u16>, cell_x: u32, cell_y: u32)
    requires
        old(vertices)@.len() % 65536 <= 65532,
    ensures
        final(vertices)@ == old(vertices)@ + seq![
            Vertex { cell_x, cell_y, corner: Corner::BottomLeft },
            Vertex { cell_x, cell_y, corner: Corner::BottomRight },
            Vertex { cell_x, cell_y, corner: Corner::TopRight },
            Vertex { cell_x, cell_y, corner: Corner::TopLeft },
        ],
        ({
            let b = (old(vertices)@.len() % 65536) as u16;
            final(indices)@ == old(indices)@ + seq![b, (b + 1) as u16, (b + 2) as u16, b, (b + 2) as u16, (b + 3) as u16]
        }),
        old(vertices)@.len() < 65536 ==> final(indices)@[old(indices)@.len() as int] == old(vertices)@.len(),
        (forall|i: int| 0 <= i < old(indices)@.len() ==> (#[trigger] old(indices)@[i] as int) < old(vertices)@.len())
            ==> (forall|i: int| 0 <= i < final(indices)@.len() ==> (#[trigger] final(indices)@[i] as int) < final(vertices)@.len()),
{
    let base = (vertices.len() % 65536) as u16;
    vertices.push(Vertex { cell_x, cell_y, corner: Corner::BottomLeft });
    vertices.push(Vertex { cell_x, cell_y, corner: Corner::BottomRight });
    vertices.push(Vertex { cell_x, cell_y, corner: Corner::TopRight });
    vertices.push(Vertex { cell_x, cell_y, corner: Corner::TopLeft });
    indices.push(base);
    indices.push(base + 1);
    indices.push(base + 2);
    indices.push(base);
    indices.push(base + 2);
    indices.push(base + 3);
}

/// Builds the vertices and triangle indices of a square grid of
/// `quads_per_side(number_of_quads)` squared quads.
pub fn create_vertices_for_quads(number_of_quads: i32) -> (result: (Vec<Vertex>, Vec<u16>))
    ensures
        result.0@ == grid_vertices(spec_quads_per_side(number_of_quads as int)),
        result.1@ == grid_indices(spec_quads_per_side(number_of_quads as int)),
        forall|t: int| 0 <= t < result.1@.len() ==> (#[trigger] result.1@[t] as int) < result.0@.len(),
        forall|c: int|
            0 <= c < spec_quads_per_side(number_of_quads as int) * spec_quads_per_side(number_of_quads as int)
                ==> #[trigger] quad_laid_out(result.0@, result.1@, spec_quads_per_side(number_of_quads as int), c),
{
    let q = quads_per_side(number_of_quads);
    assert(q * q <= 46341 * 46341) by (nonlinear_arith)
        requires q <= 46341;
    let cells: u32 = q * q;
    let mut vertices: Vec<Vertex> = Vec::new();
    let mut indices: Vec<u16> = Vec::new();
    let mut c: u32 = 0;
    while c < cells
        invariant
            q == spec_quads_per_side(number_of_quads as int),
            cells == q * q,
            c <= cells,
            vertices@.len() == 4 * c,
            forall|v: int| 0 <= v < vertices@.len() ==> #[trigger] vertices@[v] == grid_vertex(q as nat, v),
            indices@.len() == 6 * c,
            forall|t: int| 0 <= t < indices@.len() ==> #[trigger] indices@[t] == grid_index(t),
        decreases cells - c,
    {
        let cell_x = c % q;
        let cell_y = c / q;
        proof {
            lemma_quad_base(c as int, 0);
            lemma_quad_base(c as int, 1);
            lemma_quad_base(c as int, 2);
            lemma_quad_base(c as int, 3);
        }
        let ghost old_vertices = vertices@;
        let ghost old_indices = indices@;
        push_quad(&mut vertices, &mut indices, cell_x, cell_y);
        assert forall|v: int| 0 <= v < vertices@.len() implies #[trigger] vertices@[v] == grid_vertex(q as nat, v) by {
            if v >= 4 * c {
                assert(v / 4 == c as int);
                assert(v % 4 == v - 4 * c);
            } else {
                assert(vertices@[v] == old_vertices[v]);
            }
        }
        assert forall|t: int| 0 <= t < indices@.len() implies #[trigger] indices@[t] == grid_index(t) by {
            if t >= 6 * c {
                assert(t / 6 == c as int);
                assert(t % 6 == t - 6 * c);
            } else {
                assert(indices@[t] == old_indices[t]);
            }
        }
        c = c + 1;
    }
    assert(4 * (q * q) == 4 * q * q && 6 * (q * q) == 6 * q * q) by (nonlinear_arith);
    assert(vertices@ == grid_vertices(q as nat));
    assert(indices@ == grid_indices(q as nat));
    proof {
        assert forall|t: int| 0 <= t < indices@.len() implies (#[trigger] indices@[t] as int) < vertices@.len() by {
            lemma_index_in_range(q as nat, t);
        }
        assert forall|c: int| 0 <= c < q * q implies #[trigger] quad_laid_out(vertices@, indices@, q as nat, c) by {
            lemma_grid_quad_laid_out(q as nat, c);
        }
    }
    (vertices, indices)
}

/// Every triangle of the index buffer runs counter-clockwise in clip space,
/// so none is culled as back-facing. This holds also past 65536 vertices,
/// where the 16-bit indices wrap around to earlier quads.
pub proof fn lemma_triangles_counter_clockwise(q: nat, k: int)
    requires
        0 <= k < 2 * q * q,
    ensures
        ({
            let vs = grid_vertices(q);
            let is = grid_indices(q);
            orientation(
                lattice_point(vs[is[3 * k] as int]),
                lattice_point(vs[is[3 * k + 1] as int]),
                lattice_point(vs[is[3 * k + 2] as int]),
            ) > 0
        }),
{
    let c = k / 2;
    assert(6 * q * q == 6 * (q * q) && 2 * q * q == 2 * (q * q)) by (nonlinear_arith);
    let t = 3 * k;
    assert(t / 6 == c && (t + 1) / 6 == c && (t + 2) / 6 == c);
    assert(t + 2 < 6 * q * q);
    let p0 = quad_index_offset(t % 6);
    let p1 = quad_index_offset((t + 1) % 6);
    let p2 = quad_index_offset((t + 2) % 6);
    lemma_quad_base(c, p0);
    lemma_quad_base(c, p1);
    lemma_quad_base(c, p2);
    lemma_index_in_range(q, t);
    lemma_index_in_range(q, t + 1);
    lemma_index_in_range(q, t + 2);
    // The quad whose vertices the indices actually name.
    let m = ((4 * c) % 65536) / 4;
    assert(4 * m == (4 * c) % 65536);
    let is = grid_indices(q);
    assert(is[t] as int == 4 * m + p0);
    assert(is[t + 1] as int == 4 * m + p1);
    assert(is[t + 2] as int == 4 * m + p2);
    assert((4 * m + p0) / 4 == m && (4 * m + p1) / 4 == m && (4 * m + p2) / 4 == m);
    assert((4 * m + p0) % 4 == p0 && (4 * m + p1) % 4 == p1 && (4 * m + p2) % 4 == p2);
    let vs = grid_vertices(q);
    let a = lattice_point(vs[4 * m + p0]);
    let b = lattice_point(vs[4 * m + p1]);
    let d = lattice_point(vs[4 * m + p2]);
    let x = ((m % (q as int)) as u32) as int;
    let y = ((m / (q as int)) as u32) as int;
    assert(vs[4 * m + p0] == grid_vertex(q, 4 * m + p0));
    assert(vs[4 * m + p1] == grid_vertex(q, 4 * m + p1));
    assert(vs[4 * m + p2] == grid_vertex(q, 4 * m + p2));
    if k % 2 == 0 {
        assert(t % 6 == 0);
        assert(a == (x, y) && b == (x + 1, y) && d == (x + 1, y + 1));
    } else {
        assert(t % 6 == 3);
        assert(a == (x, y) && b == (x + 1, y + 1) && d == (x, y + 1));
    }
    assert(orientation(a, b, d) == 1) by (nonlinear_arith)
        requires
            (a == (x, y) && b == (x + 1, y) && d == (x + 1, y + 1))
                || (a == (x, y) && b == (x + 1, y + 1) && d == (x, y + 1)),
    ;
}

/// The quads tile the grid: corner `j` of the cell in column `x`, row `y`
/// is vertex `4 * (y * q + x) + j`, and every vertex lies in a cell of the
/// grid. With four corners per cell and four vertices per quad, each cell is
/// covered by exactly one quad.
pub proof fn lemma_quads_tile_grid(q: nat, x: int, y: int, j: int, v: int)
    requires
        0 <= x < q,
        0 <= y < q,
        0 <= j < 4,
        0 <= v < 4 * q * q,
    ensures
        0 <= 4 * (y * q + x) + j < 4 * q * q,
        grid_vertices(q)[4 * (y * q + x) + j] == (Vertex {
            cell_x: x as u32,
            cell_y: y as u32,
            corner: corner_order(j),
        }),
        grid_vertices(q)[v].cell_x < q,
        grid_vertices(q)[v].cell_y < q,
{
    let c = y * q + x;
    assert(0 <= c < q * q && 4 * q * q == 4 * (q * q)) by (nonlinear_arith)
        requires c == y * q + x, 0 <= x < q, 0 <= y < q;
    assert((4 * c + j) / 4 == c && (4 * c + j) % 4 == j);
    vstd::arithmetic::div_mod::lemma_fundamental_div_mod_converse(c, q as int, y, x);
    let w = v / 4;
    assert(0 <= w < q * q);
    assert(w / (q as int) < q && w % (q as int) < q) by (nonlinear_arith)
        requires 0 <= w < q * q, q > 0;
}

/// A perfect-square request below 2^24, where float conversion is exact,
/// yields exactly that many quads: four vertices and six indices per quad.
pub proof fn lemma_perfect_square_quad_count(k: nat)
    requires
        k * k < 0x100_0000,
    ensures
        spec_quads_per_side((k * k) as int) == k,
        grid_vertices(spec_quads_per_side((k * k) as int)).len() == 4 * (k * k),
        grid_indices(spec_quads_per_side((k * k) as int)).len() == 6 * (k * k),
{
    if k > 0 {
        let n = (k * k) as int;
        assert(n > 0) by (nonlinear_arith) requires k > 0, n == k * k;
        assert(f32_round(n) == n);
        assert(k * k < (k + 1) * (k + 1)) by (nonlinear_arith);
        lemma_isqrt_unique(n, k as int);
        let s = half_gap_below_inverse((k + 1) as int);
        assert(s >= 2);
        assert(s * s * n < (s * (k + 1) - 1) * (s * (k + 1) - 1)) by (nonlinear_arith)
            requires s >= 2, n == k * k, k >= 0;
    } else {
        assert(k * k == 0);
    }
    assert(4 * k * k == 4 * (k * k) && 6 * k * k == 6 * (k * k)) by (nonlinear_arith);
}

/// `bytes` is `values` with each value in two bytes, least significant first.
pub open spec fn little_endian_u16s(values: Seq<u16>, bytes: Seq<u8>) -> bool {
    &&& bytes.len() == 2 * values.len()
    &&& forall|i: int| 0 <= i < values.len() ==> #[trigger] values[i] == bytes[2 * i] + 256 * bytes[2 * i + 1]
}

/// `bytes` is `values` with each value in two bytes, most significant first.
pub open spec fn big_endian_u16s(values: Seq<u16>, bytes: Seq<u8>) -> bool {
    &&& bytes.len() == 2 * values.len()
    &&& forall|i: int| 0 <= i < values.len() ==> #[trigger] values[i] == 256 * bytes[2 * i] + bytes[2 * i + 1]
}

/// Views 16-bit values as their bytes in memory with `bytemuck::cast_slice`,
/// which for `u16` to `u8` never fails and keeps every byte.
/// Trusted: two bytes per value, in the machine's byte order; which order
/// that is depends on the machine, so only that it is one of the two.
#[verifier::external_body]
fn u16s_as_bytes(values: &[u16]) -> (bytes: &[u8])
    ensures
        little_endian_u16s(values@, bytes@) || big_endian_u16s(values@, bytes@),
{
    bytemuck::cast_slice(values)
}

/// The bytes of an index buffer as the GPU receives them: each 16-bit index
/// in two bytes, in the machine's byte order.
pub fn index_bytes(indices: &[u16]) -> (bytes: &[u8])
    ensures
        bytes@.len() == 2 * indices@.len(),
        little_endian_u16s(indices@, bytes@) || big_endian_u16s(indices@, bytes@),
{
    u16s_as_bytes(indices)
}

} // verus!
