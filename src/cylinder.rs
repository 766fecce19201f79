use vstd::prelude::*;

verus! {

/// Number of vertices of a closed cylinder with `resolution` points around
/// each ring and `segments` axial bands: `resolution + 1` points on each of
/// the `segments + 1` rings (the seam point is repeated), plus `resolution`
/// fan vertices for each of the two caps.
pub open spec fn spec_vertex_count(resolution: nat, segments: nat) -> nat {
    (resolution + 1) * (segments + 1) + resolution * 2
}

/// Computes `spec_vertex_count`, or `None` where the count does not fit in a `u32`.
pub fn cylinder_vertex_count(resolution: u32, segments: u32) -> (r: Option<u32>)
    ensures
        spec_vertex_count(resolution as nat, segments as nat) <= u32::MAX ==> r == Some(
            spec_vertex_count(resolution as nat, segments as nat) as u32,
        ),
        spec_vertex_count(resolution as nat, segments as nat) > u32::MAX ==> r is None,
{
    let r1: u64 = resolution as u64 + 1;
    let s1: u64 = segments as u64 + 1;
    assert(r1 * s1 <= 0x1_0000_0000u64 * 0x1_0000_0000u64) by (nonlinear_arith)
        requires
            r1 <= 0x1_0000_0000u64,
            s1 <= 0x1_0000_0000u64,
    ;
    let ring_points: u128 = (r1 as u128) * (s1 as u128);
    let total: u128 = ring_points + (resolution as u128) * 2;
    if total <= u32::MAX as u128 {
        Some(total as u32)
    } else {
        None
    }
}

/// Why a set of cylinder parameters was refused.
#[derive(Debug, Clone, Copy, PartialEq, Eq, Structural)]
pub enum ShapeError {
    /// The radius is zero or negative.
    NonPositiveRadius,
    /// The height is zero or negative.
    NonPositiveHeight,
    /// Fewer than three points around a ring.
    ResolutionTooLow,
    /// No axial segment.
    NoSegments,
    /// The vertex count does not fit in a 32-bit index.
    TooManyVertices,
}

/// The parameters of a closed cylinder standing on the vertical axis.
/// `radius` and `height` are in thousandths of a scene unit.
#[derive(Debug, Clone, Copy, PartialEq, Eq, Structural)]
pub struct CylinderShape {
    pub radius: i64,
    pub height: i64,
    pub resolution: u32,
    pub segments: u32,
}

/// The first rule, in the order listed, that the parameters break; `None`
/// when they describe a proper cylinder.
pub open spec fn spec_shape_error(radius: int, height: int, resolution: nat, segments: nat) -> Option<
    ShapeError,
> {
    if radius <= 0 {
        Some(ShapeError::NonPositiveRadius)
    } else if height <= 0 {
        Some(ShapeError::NonPositiveHeight)
    } else if resolution < 3 {
        Some(ShapeError::ResolutionTooLow)
    } else if segments < 1 {
        Some(ShapeError::NoSegments)
    } else if spec_vertex_count(resolution, segments) > u32::MAX {
        Some(ShapeError::TooManyVertices)
    } else {
        None
    }
}

impl CylinderShape {
    /// A proper cylinder: positive dimensions, at least three points per
    /// ring, at least one segment, and a vertex count that a `u32` indexes.
    pub open spec fn wf(&self) -> bool {
        spec_shape_error(self.radius as int, self.height as int, self.resolution as nat, self.segments as nat) is None
    }

    pub open spec fn spec_vertex_count(&self) -> nat {
        spec_vertex_count(self.resolution as nat, self.segments as nat)
    }

    /// Checks the parameters of a cylinder.
    pub fn new(radius: i64, height: i64, resolution: u32, segments: u32) -> (r: Result<
        CylinderShape,
        ShapeError,
    >)
        ensures
            match spec_shape_error(radius as int, height as int, resolution as nat, segments as nat) {
                Some(e) => r == Err::<CylinderShape, ShapeError>(e),
                None => r == Ok::<CylinderShape, ShapeError>(
                    CylinderShape { radius, height, resolution, segments },
                ),
            },
    {
        if radius <= 0 {
            return Err(ShapeError::NonPositiveRadius);
        }
        if height <= 0 {
            return Err(ShapeError::NonPositiveHeight);
        }
        if resolution < 3 {
            return Err(ShapeError::ResolutionTooLow);
        }
        if segments < 1 {
            return Err(ShapeError::NoSegments);
        }
        match cylinder_vertex_count(resolution, segments) {
            Some(_) => Ok(CylinderShape { radius, height, resolution, segments }),
            None => Err(ShapeError::TooManyVertices),
        }
    }

    /// The number of vertices of the cylinder's mesh.
    pub fn vertex_count(&self) -> (r: u32)
        requires
            self.wf(),
        ensures
            r as nat == self.spec_vertex_count(),
    {
        match cylinder_vertex_count(self.resolution, self.segments) {
            Some(n) => n,
            None => 0,
        }
    }
}

} // verus!
