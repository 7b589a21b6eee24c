//! Points, axis-aligned boxes, triangle meshes and the colliders derived from them.
use vstd::prelude::*;

verus! {

/// A point or a vector, in thousandths of a world unit.
#[derive(Clone, Copy, Debug, PartialEq, Eq, Structural)]
pub struct Vec3i {
    pub x: i64,
    pub y: i64,
    pub z: i64,
}

/// The coordinate of `p` along `axis` (0 for x, 1 for y, otherwise z).
pub open spec fn coord(p: Vec3i, axis: u8) -> int {
    if axis == 0 {
        p.x as int
    } else if axis == 1 {
        p.y as int
    } else {
        p.z as int
    }
}

fn coord_of(p: Vec3i, axis: u8) -> (r: i64)
    ensures
        r as int == coord(p, axis),
{
    if axis == 0 {
        p.x
    } else if axis == 1 {
        p.y
    } else {
        p.z
    }
}

/// Whether `lo` and `hi` are the least and the greatest coordinate along `axis`
/// of the points in `s`.
pub open spec fn is_axis_range(s: Seq<Vec3i>, axis: u8, lo: int, hi: int) -> bool {
    &&& forall|i: int| 0 <= i < s.len() ==> lo <= #[trigger] coord(s[i], axis) <= hi
    &&& exists|i: int| 0 <= i < s.len() && #[trigger] coord(s[i], axis) == lo
    &&& exists|i: int| 0 <= i < s.len() && #[trigger] coord(s[i], axis) == hi
}

/// The least and the greatest coordinate along `axis` of a non-empty set of points.
fn axis_range(points: &Vec<Vec3i>, axis: u8) -> (r: (i64, i64))
    requires
        points@.len() > 0,
    ensures
        is_axis_range(points@, axis, r.0 as int, r.1 as int),
{
    let mut lo: i64 = coord_of(points[0], axis);
    let mut hi: i64 = lo;
    let ghost mut lo_at: int = 0;
    let ghost mut hi_at: int = 0;
    let mut i: usize = 1;
    while i < points.len()
        invariant
            1 <= i <= points@.len(),
            0 <= lo_at < i,
            0 <= hi_at < i,
            coord(points@[lo_at], axis) == lo as int,
            coord(points@[hi_at], axis) == hi as int,
            forall|j: int| 0 <= j < i ==> lo <= #[trigger] coord(points@[j], axis) <= hi,
        decreases points@.len() - i,
    {
        let c = coord_of(points[i], axis);
        if c < lo {
            lo = c;
            proof {
                lo_at = i as int;
            }
        }
        if c > hi {
            hi = c;
            proof {
                hi_at = i as int;
            }
        }
        i = i + 1;
    }
    assert(coord(points@[lo_at], axis) == lo as int);
    assert(coord(points@[hi_at], axis) == hi as int);
    (lo, hi)
}

/// An axis-aligned box given by its least and greatest corner.
#[derive(Clone, Copy, Debug, PartialEq, Eq, Structural)]
pub struct Aabb {
    pub min: Vec3i,
    pub max: Vec3i,
}

/// Whether `b` is the tightest axis-aligned box around the points in `s`.
pub open spec fn is_bounds_of(b: Aabb, s: Seq<Vec3i>) -> bool {
    &&& is_axis_range(s, 0, b.min.x as int, b.max.x as int)
    &&& is_axis_range(s, 1, b.min.y as int, b.max.y as int)
    &&& is_axis_range(s, 2, b.min.z as int, b.max.z as int)
}

/// The tightest axis-aligned box around a non-empty set of points.
pub fn bounds_of(points: &Vec<Vec3i>) -> (r: Aabb)
    requires
        points@.len() > 0,
    ensures
        is_bounds_of(r, points@),
{
    let (min_x, max_x) = axis_range(points, 0);
    let (min_y, max_y) = axis_range(points, 1);
    let (min_z, max_z) = axis_range(points, 2);
    Aabb {
        min: Vec3i { x: min_x, y: min_y, z: min_z },
        max: Vec3i { x: max_x, y: max_y, z: max_z },
    }
}

/// An axis-aligned box given by its extent on each axis.
#[derive(Clone, Copy, Debug, PartialEq, Eq, Structural)]
pub struct BoxShape {
    pub min_x: i64,
    pub max_x: i64,
    pub min_y: i64,
    pub max_y: i64,
    pub min_z: i64,
    pub max_z: i64,
}

impl BoxShape {
    /// Each extent is a proper interval.
    pub open spec fn wf(self) -> bool {
        self.min_x <= self.max_x && self.min_y <= self.max_y && self.min_z <= self.max_z
    }

    /// The box's extents as least and greatest corner.
    pub open spec fn extents(self) -> Aabb {
        Aabb {
            min: Vec3i { x: self.min_x, y: self.min_y, z: self.min_z },
            max: Vec3i { x: self.max_x, y: self.max_y, z: self.max_z },
        }
    }

    /// The eight corners, corner `k` taking the greatest x when bit 0 of `k`
    /// is set, the greatest y for bit 1 and the greatest z for bit 2.
    pub open spec fn corners(self) -> Seq<Vec3i> {
        Seq::new(
            8,
            |k: int|
                Vec3i {
                    x: if k % 2 == 1 { self.max_x } else { self.min_x },
                    y: if (k / 2) % 2 == 1 { self.max_y } else { self.min_y },
                    z: if k / 4 == 1 { self.max_z } else { self.min_z },
                },
        )
    }
}

/// The twelve triangles (two per face) over the corners of a box, as indices
/// into [`BoxShape::corners`].
pub open spec fn box_indices() -> Seq<u32> {
    seq![
        0, 2, 1, 1, 2, 3,  // z = min
        4, 5, 6, 5, 7, 6,  // z = max
        0, 1, 4, 1, 5, 4,  // y = min
        2, 6, 3, 3, 6, 7,  // y = max
        0, 4, 2, 2, 4, 6,  // x = min
        1, 3, 5, 3, 7, 5,  // x = max
    ]
}

/// A triangle mesh: vertex positions and a flat list of vertex indices,
/// three per triangle.
#[derive(Debug)]
pub struct Mesh {
    pub positions: Vec<Vec3i>,
    pub indices: Vec<u32>,
}

/// The triangle mesh of a box: its eight corners and twelve triangles.
pub fn box_mesh(b: BoxShape) -> (m: Mesh)
    ensures
        m.positions@ == b.corners(),
        m.indices@ == box_indices(),
{
    let mut positions: Vec<Vec3i> = Vec::new();
    let mut k: u8 = 0;
    while k < 8
        invariant
            k <= 8,
            positions@ == b.corners().take(k as int),
        decreases 8 - k,
    {
        let x = if k % 2 == 1 { b.max_x } else { b.min_x };
        let y = if (k / 2) % 2 == 1 { b.max_y } else { b.min_y };
        let z = if k / 4 == 1 { b.max_z } else { b.min_z };
        positions.push(Vec3i { x, y, z });
        assert(positions@ =~= b.corners().take(k as int + 1));
        k = k + 1;
    }
    assert(positions@ =~= b.corners());
    let indices: Vec<u32> = vec![
        0, 2, 1, 1, 2, 3,
        4, 5, 6, 5, 7, 6,
        0, 1, 4, 1, 5, 4,
        2, 6, 3, 3, 6, 7,
        0, 4, 2, 2, 4, 6,
        1, 3, 5, 3, 7, 5,
    ];
    assert(indices@ =~= box_indices());
    Mesh { positions, indices }
}

/// The tightest box around the corners of a well-formed box is that box's extents.
pub proof fn lemma_box_corner_bounds(b: BoxShape)
    requires
        b.wf(),
    ensures
        is_bounds_of(b.extents(), b.corners()),
{
    let c = b.corners();
    assert(coord(c[0], 0) == b.min_x && coord(c[7], 0) == b.max_x);
    assert(coord(c[0], 1) == b.min_y && coord(c[7], 1) == b.max_y);
    assert(coord(c[0], 2) == b.min_z && coord(c[7], 2) == b.max_z);
}

/// At most one box is the tightest around a set of points.
pub proof fn lemma_bounds_unique(a: Aabb, b: Aabb, s: Seq<Vec3i>)
    requires
        is_bounds_of(a, s),
        is_bounds_of(b, s),
    ensures
        a == b,
{
    let ax = |i: int| s[i];
    assert forall|axis: u8, lo1: int, hi1: int, lo2: int, hi2: int|
        is_axis_range(s, axis, lo1, hi1) && is_axis_range(s, axis, lo2, hi2) implies lo1 == lo2
        && hi1 == hi2 by {
        let i1 = choose|i: int| 0 <= i < s.len() && #[trigger] coord(s[i], axis) == lo1;
        let i2 = choose|i: int| 0 <= i < s.len() && #[trigger] coord(s[i], axis) == lo2;
        let j1 = choose|i: int| 0 <= i < s.len() && #[trigger] coord(s[i], axis) == hi1;
        let j2 = choose|i: int| 0 <= i < s.len() && #[trigger] coord(s[i], axis) == hi2;
        assert(lo1 <= coord(s[i2], axis));
        assert(lo2 <= coord(s[i1], axis));
        assert(coord(s[j2], axis) <= hi1);
        assert(coord(s[j1], axis) <= hi2);
    }
    assert(is_axis_range(s, 0, a.min.x as int, a.max.x as int));
    assert(is_axis_range(s, 1, a.min.y as int, a.max.y as int));
    assert(is_axis_range(s, 2, a.min.z as int, a.max.z as int));
}

/// A collider built from the triangles of a box's mesh is bounded by exactly
/// the box's extents.
pub proof fn lemma_box_mesh_collider_bounds(b: BoxShape, c: Collider)
    requires
        b.wf(),
        c.vertices@ == b.corners(),
        is_bounds_of(c.bounds, c.vertices@),
    ensures
        c.bounds == b.extents(),
{
    lemma_box_corner_bounds(b);
    lemma_bounds_unique(c.bounds, b.extents(), b.corners());
}

/// Why a mesh cannot be turned into a collider.
#[derive(Clone, Copy, Debug, PartialEq, Eq, Structural)]
pub enum ColliderError {
    /// The mesh has no vertex.
    NoVertices,
    /// The index list is empty or its length is not a multiple of three.
    NotTriangles,
    /// An index names no vertex.
    IndexOutOfRange,
}

/// Whether every index of `m` names one of its vertices.
pub open spec fn indices_in_range(m: Mesh) -> bool {
    forall|i: int| 0 <= i < m.indices@.len() ==> (#[trigger] m.indices@[i] as int) < m.positions@.len()
}

/// Whether a triangle-mesh collider can be built from `m`.
pub open spec fn is_collidable(m: Mesh) -> bool {
    &&& m.positions@.len() > 0
    &&& m.indices@.len() > 0
    &&& m.indices@.len() % 3 == 0
    &&& indices_in_range(m)
}

/// The error that building a collider from `m` gives, the first check that
/// fails deciding.
pub open spec fn collider_error(m: Mesh) -> ColliderError {
    if m.positions@.len() == 0 {
        ColliderError::NoVertices
    } else if m.indices@.len() == 0 || m.indices@.len() % 3 != 0 {
        ColliderError::NotTriangles
    } else {
        ColliderError::IndexOutOfRange
    }
}

/// A triangle-mesh collision shape, with the tightest box around its vertices.
#[derive(Debug)]
pub struct Collider {
    pub vertices: Vec<Vec3i>,
    pub indices: Vec<u32>,
    pub bounds: Aabb,
}

/// Whether `c` is the collider built from the triangles of `m`.
pub open spec fn is_collider_of(c: Collider, m: Mesh) -> bool {
    &&& c.vertices@ == m.positions@
    &&& c.indices@ == m.indices@
    &&& is_bounds_of(c.bounds, m.positions@)
}

fn copy_points(v: &Vec<Vec3i>) -> (r: Vec<Vec3i>)
    ensures
        r@ == v@,
{
    let mut r: Vec<Vec3i> = Vec::new();
    let mut i: usize = 0;
    while i < v.len()
        invariant
            i <= v@.len(),
            r@ == v@.take(i as int),
        decreases v@.len() - i,
    {
        r.push(v[i]);
        assert(r@ =~= v@.take(i as int + 1));
        i = i + 1;
    }
    assert(r@ =~= v@);
    r
}

fn copy_indices(v: &Vec<u32>) -> (r: Vec<u32>)
    ensures
        r@ == v@,
{
    let mut r: Vec<u32> = Vec::new();
    let mut i: usize = 0;
    while i < v.len()
        invariant
            i <= v@.len(),
            r@ == v@.take(i as int),
        decreases v@.len() - i,
    {
        r.push(v[i]);
        assert(r@ =~= v@.take(i as int + 1));
        i = i + 1;
    }
    assert(r@ =~= v@);
    r
}

/// Builds a triangle-mesh collider from a mesh's vertices and triangles.
pub fn collider_from_mesh(m: &Mesh) -> (r: Result<Collider, ColliderError>)
    ensures
        r is Ok <==> is_collidable(*m),
        r matches Ok(c) ==> is_collider_of(c, *m),
        r matches Err(e) ==> e == collider_error(*m),
{
    if m.positions.len() == 0 {
        return Err(ColliderError::NoVertices);
    }
    if m.indices.len() == 0 || m.indices.len() % 3 != 0 {
        return Err(ColliderError::NotTriangles);
    }
    let n = m.positions.len();
    let mut i: usize = 0;
    while i < m.indices.len()
        invariant
            i <= m.indices@.len(),
            n == m.positions@.len(),
            n > 0,
            m.indices@.len() > 0,
            m.indices@.len() % 3 == 0,
            forall|j: int| 0 <= j < i ==> (#[trigger] m.indices@[j] as int) < n,
        decreases m.indices@.len() - i,
    {
        if m.indices[i] as usize >= n {
            return Err(ColliderError::IndexOutOfRange);
        }
        i = i + 1;
    }
    let bounds = bounds_of(&m.positions);
    Ok(Collider { vertices: copy_points(&m.positions), indices: copy_indices(&m.indices), bounds })
}

/// The collider of a box's triangle mesh; its bounding box is the box itself.
pub fn box_collider(b: BoxShape) -> (r: Collider)
    requires
        b.wf(),
    ensures
        r.vertices@ == b.corners(),
        r.indices@ == box_indices(),
        r.bounds == b.extents(),
{
    let m = box_mesh(b);
    proof {
        assert(box_indices().len() == 36);
        assert forall|i: int| 0 <= i < m.indices@.len() implies (#[trigger] m.indices@[i] as int)
            < m.positions@.len() by {
            assert(box_indices()[i] < 8);
        }
    }
    match collider_from_mesh(&m) {
        Ok(c) => {
            proof {
                lemma_box_mesh_collider_bounds(b, c);
            }
            c
        },
        Err(_) => vstd::pervasive::unreached(),
    }
}

} // verus!
