use crate::cylinder::{spec_shape_error, CylinderShape, ShapeError};
use vstd::prelude::*;

verus! {

/// The strand cylinder of a gene.
pub struct Backbone;

impl Backbone {
    /// The checked shape of a backbone cylinder (lengths in thousandths).
    pub fn new(radius: i64, height: i64, resolution: u32, segments: u32) -> (r: Result<
        CylinderShape,
        ShapeError,
    >)
        ensures
            match spec_shape_error(radius as int, height as int, resolution as nat, segments as nat) {
                Some(e) => r == Err::<CylinderShape, ShapeError>(e),
                None => r == Ok::<CylinderShape, ShapeError>(
                    CylinderShape { radius, height, resolution, segments },
                ),
            },
    {
        CylinderShape::new(radius, height, resolution, segments)
    }
}

} // verus!
