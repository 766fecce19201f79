use crate::cylinder::{cylinder_vertex_count, spec_vertex_count, CylinderShape};
use vstd::prelude::*;

verus! {

/// A point or offset in space, in thousandths of a scene unit.
#[derive(Debug, Clone, Copy, PartialEq, Eq, Structural)]
pub struct Point3 {
    pub x: i64,
    pub y: i64,
    pub z: i64,
}

/// One half-rung of the helix: a backbone strand cylinder and a base rung
/// cylinder, with the twist and placement applied to them.
///
/// Lengths are in thousandths of a scene unit; `twist_degree` (the whole
/// rotation across the backbone height) and `rotate_y_degree` (the turn
/// that tells the two strands of a rung apart) are in thousandths of a degree.
#[derive(Debug, Clone, Copy, PartialEq, Eq, Structural)]
pub struct Gene {
    pub backbone_radius: i64,
    pub backbone_height: i64,
    pub backbone_resolution: u32,
    pub backbone_segments: u32,
    pub backbone_position_len: u32,
    pub base_radius: i64,
    pub base_height: i64,
    pub base_resolution: u32,
    pub base_segments: u32,
    pub twist_degree: i64,
    pub transform: Point3,
    pub rotate_y_degree: i64,
}

/// A turn about the vertical axis by `step * band / divisor` thousandths of
/// a degree: `band` equal steps of `step / divisor` each.
#[derive(Debug, Clone, Copy, PartialEq, Eq, Structural)]
pub struct Turn {
    pub band: i128,
    pub step: i128,
    pub divisor: u32,
}

impl Turn {
    /// The angle of the turn times `divisor`, in thousandths of a degree.
    pub open spec fn scaled_angle(&self) -> int {
        self.step * self.band
    }
}

/// The axial band of height `y` on a height `h` cut into `s` bands:
/// the ceiling of `y * s / h` (for a positive `h`).
pub open spec fn spec_band(y: int, h: int, s: int) -> int {
    -((-(y * s)) / h)
}

/// `c` is the ceiling of `a / h`.
pub open spec fn is_ceil_div(c: int, a: int, h: int) -> bool {
    (c - 1) * h < a && a <= c * h
}

/// The turn that the forward twist applies at height `y`.
pub open spec fn spec_forward_turn(g: Gene, y: int) -> Turn {
    Turn {
        band: spec_band(y, g.backbone_height as int, g.backbone_segments as int) as i128,
        step: g.twist_degree as i128,
        divisor: g.backbone_segments,
    }
}

/// The turn that the reverse twist applies at height `y`.
pub open spec fn spec_reverse_turn(g: Gene, y: int) -> Turn {
    Turn {
        band: spec_band(y, g.backbone_height as int, g.backbone_segments as int) as i128,
        step: (-(g.twist_degree as int)) as i128,
        divisor: g.backbone_segments,
    }
}

proof fn lemma_ceil_div(a: int, h: int)
    requires
        h > 0,
    ensures
        is_ceil_div(-((-a) / h), a, h),
{
    let q = (-a) / h;
    let m = (-a) % h;
    vstd::arithmetic::div_mod::lemma_fundamental_div_mod(-a, h);
    assert(0 <= m < h);
    assert(-a == h * q + m);
    assert((-q - 1) * h < a && a <= -q * h) by (nonlinear_arith)
        requires
            -a == h * q + m,
            0 <= m < h,
    ;
}

/// Ceiling of `a / h` for a positive `h`.
fn ceil_div(a: i128, h: i128) -> (r: i128)
    requires
        h > 0,
        -0x1_0000_0000_0000_0000_0000_0000 < a < 0x1_0000_0000_0000_0000_0000_0000,
    ensures
        r == -((-(a as int)) / (h as int)),
{
    proof {
        lemma_ceil_div(a as int, h as int);
    }
    if a >= 0 {
        let ua: u128 = a as u128;
        let uh: u128 = h as u128;
        let q: u128 = (ua + uh - 1) / uh;
        proof {
            let qq = q as int;
            vstd::arithmetic::div_mod::lemma_fundamental_div_mod((ua + uh - 1) as int, uh as int);
            let m = ((ua + uh - 1) as int) % (uh as int);
            assert(0 <= m < uh);
            assert(is_ceil_div(qq, a as int, h as int)) by (nonlinear_arith)
                requires
                    (ua + uh - 1) as int == uh * qq + m,
                    0 <= m < uh,
                    ua == a,
                    uh == h,
                    h > 0,
            ;
            lemma_ceil_unique(qq, -((-(a as int)) / (h as int)), a as int, h as int);
            assert(qq <= a) by (nonlinear_arith)
                requires
                    (qq - 1) * h < a,
                    h >= 1,
                    a >= 0,
                    qq >= 0,
            ;
        }
        q as i128
    } else {
        let na: u128 = (-a) as u128;
        let uh: u128 = h as u128;
        let q: u128 = na / uh;
        proof {
            let qq = -(q as int);
            vstd::arithmetic::div_mod::lemma_fundamental_div_mod(na as int, uh as int);
            let m = (na as int) % (uh as int);
            assert(is_ceil_div(qq, a as int, h as int)) by (nonlinear_arith)
                requires
                    na as int == uh * (q as int) + m,
                    0 <= m < uh,
                    qq == -(q as int),
                    na == -a,
                    uh == h,
                    h > 0,
            ;
            lemma_ceil_unique(qq, -((-(a as int)) / (h as int)), a as int, h as int);
        }
        -(q as i128)
    }
}

proof fn lemma_ceil_unique(c1: int, c2: int, a: int, h: int)
    requires
        h > 0,
        is_ceil_div(c1, a, h),
        is_ceil_div(c2, a, h),
    ensures
        c1 == c2,
{
    if c1 < c2 {
        assert(c1 * h <= (c2 - 1) * h) by (nonlinear_arith)
            requires
                c1 <= c2 - 1,
                h > 0,
        ;
    } else if c2 < c1 {
        assert(c2 * h <= (c1 - 1) * h) by (nonlinear_arith)
            requires
                c2 <= c1 - 1,
                h > 0,
        ;
    }
}

/// A coordinate axis.
#[derive(Debug, Clone, Copy, PartialEq, Eq, Structural)]
pub enum Axis {
    X,
    Y,
    Z,
}

/// A turn about one coordinate axis, in thousandths of a degree.
#[derive(Debug, Clone, Copy, PartialEq, Eq, Structural)]
pub struct AxisTurn {
    pub axis: Axis,
    pub degree: i128,
}

/// A point or offset in halves of a thousandth of a scene unit.
#[derive(Debug, Clone, Copy, PartialEq, Eq, Structural)]
pub struct HalfPoint3 {
    pub x: i128,
    pub y: i128,
    pub z: i128,
}

/// Where the vertices of a primitive go: each is first moved by `shift`,
/// then turned by each entry of `turns`, from the last entry to the first.
#[derive(Debug)]
pub struct Placement {
    pub shift: HalfPoint3,
    pub turns: Vec<AxisTurn>,
}

/// A quarter revolution, in thousandths of a degree.
pub const QUARTER_TURN_DEGREE: i64 = 90000;

/// Which way a twist turns.
#[derive(Debug, Clone, Copy, PartialEq, Eq, Structural)]
pub enum TwistDirection {
    Forward,
    Reverse,
}

impl Gene {
    /// A gene whose `backbone_position_len` is the vertex count of its
    /// backbone cylinder.
    pub open spec fn wf(&self) -> bool {
        self.backbone_position_len as nat == spec_vertex_count(
            self.backbone_resolution as nat,
            self.backbone_segments as nat,
        )
    }

    /// Builds a gene from its parameters and derives `backbone_position_len`.
    pub fn new(
        backbone_radius: i64,
        backbone_height: i64,
        backbone_resolution: u32,
        backbone_segments: u32,
        base_radius: i64,
        base_height: i64,
        base_resolution: u32,
        base_segments: u32,
        twist_degree: i64,
        transform: Point3,
        rotate_y_degree: i64,
    ) -> (r: Gene)
        requires
            spec_vertex_count(backbone_resolution as nat, backbone_segments as nat) <= u32::MAX,
        ensures
            r.wf(),
            r == (Gene {
                backbone_radius,
                backbone_height,
                backbone_resolution,
                backbone_segments,
                backbone_position_len: r.backbone_position_len,
                base_radius,
                base_height,
                base_resolution,
                base_segments,
                twist_degree,
                transform,
                rotate_y_degree,
            }),
    {
        let backbone_position_len = match cylinder_vertex_count(
            backbone_resolution,
            backbone_segments,
        ) {
            Some(n) => n,
            None => 0,
        };
        Gene {
            backbone_radius,
            backbone_height,
            backbone_resolution,
            backbone_segments,
            backbone_position_len,
            base_radius,
            base_height,
            base_resolution,
            base_segments,
            twist_degree,
            transform,
            rotate_y_degree,
        }
    }

    /// The backbone strand cylinder.
    pub fn backbone_shape(&self) -> (r: CylinderShape)
        ensures
            r == (CylinderShape {
                radius: self.backbone_radius,
                height: self.backbone_height,
                resolution: self.backbone_resolution,
                segments: self.backbone_segments,
            }),
    {
        CylinderShape {
            radius: self.backbone_radius,
            height: self.backbone_height,
            resolution: self.backbone_resolution,
            segments: self.backbone_segments,
        }
    }

    /// The base rung cylinder.
    pub fn base_shape(&self) -> (r: CylinderShape)
        ensures
            r == (CylinderShape {
                radius: self.base_radius,
                height: self.base_height,
                resolution: self.base_resolution,
                segments: self.base_segments,
            }),
    {
        CylinderShape {
            radius: self.base_radius,
            height: self.base_height,
            resolution: self.base_resolution,
            segments: self.base_segments,
        }
    }

    /// The placement of the backbone strand: its local x is pushed out by
    /// the base height, it is moved by `transform`, and it is then turned
    /// about the vertical axis by `rotate_y_degree`.
    pub fn backbone_placement(&self) -> (r: Placement)
        ensures
            r.shift == (HalfPoint3 {
                x: (2 * (self.base_height + self.transform.x)) as i128,
                y: (2 * self.transform.y) as i128,
                z: (2 * self.transform.z) as i128,
            }),
            r.turns@ == seq![AxisTurn { axis: Axis::Y, degree: self.rotate_y_degree as i128 }],
    {
        let shift = HalfPoint3 {
            x: 2 * (self.base_height as i128 + self.transform.x as i128),
            y: 2 * (self.transform.y as i128),
            z: 2 * (self.transform.z as i128),
        };
        let mut turns: Vec<AxisTurn> = Vec::new();
        turns.push(AxisTurn { axis: Axis::Y, degree: self.rotate_y_degree as i128 });
        Placement { shift, turns }
    }

    /// The placement of the base rung: it is moved by
    /// `(-transform.y, base_height / 2 + transform.x, transform.z)`, turned
    /// about the horizontal axis by `-rotate_y_degree`, and then a quarter
    /// revolution backwards about the depth axis, which lays it across the
    /// two strands at the rung's height.
    pub fn base_placement(&self) -> (r: Placement)
        ensures
            r.shift == (HalfPoint3 {
                x: (-2 * self.transform.y) as i128,
                y: (self.base_height + 2 * self.transform.x) as i128,
                z: (2 * self.transform.z) as i128,
            }),
            r.turns@ == seq![
                AxisTurn { axis: Axis::Z, degree: (-QUARTER_TURN_DEGREE) as i128 },
                AxisTurn { axis: Axis::X, degree: (-self.rotate_y_degree) as i128 },
            ],
    {
        let shift = HalfPoint3 {
            x: -2 * (self.transform.y as i128),
            y: self.base_height as i128 + 2 * (self.transform.x as i128),
            z: 2 * (self.transform.z as i128),
        };
        let mut turns: Vec<AxisTurn> = Vec::new();
        turns.push(AxisTurn { axis: Axis::Z, degree: -(QUARTER_TURN_DEGREE as i128) });
        turns.push(AxisTurn { axis: Axis::X, degree: -(self.rotate_y_degree as i128) });
        Placement { shift, turns }
    }

    /// The axial band of a vertex at height `y`: the ceiling of
    /// `y / backbone_height * backbone_segments`. Every vertex of one band
    /// turns by the same angle.
    pub fn band_index(&self, y: i64) -> (r: i128)
        requires
            self.backbone_height > 0,
        ensures
            r == spec_band(y as int, self.backbone_height as int, self.backbone_segments as int),
            is_ceil_div(
                r as int,
                y * self.backbone_segments,
                self.backbone_height as int,
            ),
    {
        let yy: i128 = y as i128;
        let ss: i128 = self.backbone_segments as i128;
        assert(-0x1_0000_0000_0000_0000_0000_0000 < yy * ss < 0x1_0000_0000_0000_0000_0000_0000)
            by (nonlinear_arith)
            requires
                -0x8000_0000_0000_0000 <= yy < 0x8000_0000_0000_0000,
                0 <= ss < 0x1_0000_0000,
        ;
        let a: i128 = yy * ss;
        proof {
            lemma_ceil_div(a as int, self.backbone_height as int);
        }
        ceil_div(a, self.backbone_height as i128)
    }

    /// The turn about the vertical axis that twists a vertex at height `y`
    /// in the given direction: `band_index(y)` steps of
    /// `±twist_degree / backbone_segments`.
    pub fn twist_turn(&self, y: i64, direction: TwistDirection) -> (r: Turn)
        requires
            self.backbone_height > 0,
        ensures
            r == match direction {
                TwistDirection::Forward => spec_forward_turn(*self, y as int),
                TwistDirection::Reverse => spec_reverse_turn(*self, y as int),
            },
    {
        let band = self.band_index(y);
        let step: i128 = match direction {
            TwistDirection::Forward => self.twist_degree as i128,
            TwistDirection::Reverse => -(self.twist_degree as i128),
        };
        Turn { band, step, divisor: self.backbone_segments }
    }

    /// The turns that twist each vertex of a position buffer, given the
    /// vertices' heights in buffer order.
    pub fn twist_turns(&self, heights: &Vec<i64>, direction: TwistDirection) -> (r: Vec<Turn>)
        requires
            self.backbone_height > 0,
        ensures
            r@.len() == heights@.len(),
            forall|i: int|
                0 <= i < heights@.len() ==> #[trigger] r@[i] == match direction {
                    TwistDirection::Forward => spec_forward_turn(*self, heights@[i] as int),
                    TwistDirection::Reverse => spec_reverse_turn(*self, heights@[i] as int),
                },
    {
        let mut turns: Vec<Turn> = Vec::new();
        let mut i: usize = 0;
        while i < heights.len()
            invariant
                self.backbone_height > 0,
                i <= heights@.len(),
                turns@.len() == i,
                forall|k: int|
                    0 <= k < i ==> #[trigger] turns@[k] == match direction {
                        TwistDirection::Forward => spec_forward_turn(*self, heights@[k] as int),
                        TwistDirection::Reverse => spec_reverse_turn(*self, heights@[k] as int),
                    },
            decreases heights@.len() - i,
        {
            let t = self.twist_turn(heights[i], direction);
            turns.push(t);
            i = i + 1;
        }
        turns
    }

    /// The forward twist at height `y`.
    pub fn twist_around_y(&self, y: i64) -> (r: Turn)
        requires
            self.backbone_height > 0,
        ensures
            r == spec_forward_turn(*self, y as int),
    {
        self.twist_turn(y, TwistDirection::Forward)
    }

    /// The reverse twist at height `y`: the forward one with its step negated.
    pub fn reverse_twist_around_y(&self, y: i64) -> (r: Turn)
        requires
            self.backbone_height > 0,
        ensures
            r == spec_reverse_turn(*self, y as int),
    {
        self.twist_turn(y, TwistDirection::Reverse)
    }
}

/// The reverse twist undoes the forward one: a turn about the vertical axis
/// leaves the height of a vertex as it was, so both twists see the same
/// band at that height, and there they turn by opposite angles.
pub proof fn lemma_reverse_cancels_forward(g: Gene, y: int)
    ensures
        spec_forward_turn(g, y).band == spec_reverse_turn(g, y).band,
        spec_forward_turn(g, y).divisor == spec_reverse_turn(g, y).divisor,
        spec_forward_turn(g, y).scaled_angle() + spec_reverse_turn(g, y).scaled_angle() == 0,
{
    let f = spec_forward_turn(g, y);
    let r = spec_reverse_turn(g, y);
    assert(r.step == -f.step);
    assert(f.step * f.band + (-f.step) * f.band == 0) by (nonlinear_arith);
}

} // verus!
