use crate::cylinder::spec_vertex_count;
use crate::gene::{Gene, Point3};
use vstd::prelude::*;

verus! {

/// Number of rungs of the helix.
pub const RUNG_COUNT: usize = 25;

/// Lengths below are in thousandths of a scene unit, angles in thousandths of a degree.
pub const BACKBONE_RADIUS: i64 = 1000;
pub const BACKBONE_HEIGHT: i64 = 10000;
pub const BACKBONE_RESOLUTION: u32 = 20;
pub const BACKBONE_SEGMENTS: u32 = 20;
pub const BASE_RADIUS: i64 = 600;
pub const BASE_HEIGHT: i64 = 10000;
pub const BASE_RESOLUTION: u32 = 10;
pub const BASE_SEGMENTS: u32 = 4;
/// Height of the lowest rung.
pub const LOWEST_RUNG_Y: i64 = -120000;
/// Vertical distance between two rungs.
pub const RUNG_SPACING: i64 = 10000;
/// The turn of the second strand of a rung: half a revolution.
pub const OPPOSITE_STRAND_DEGREE: i64 = 180000;

/// The height of rung `rung`.
pub open spec fn spec_rung_y(rung: int) -> int {
    LOWEST_RUNG_Y + RUNG_SPACING * rung
}

/// Entry `k` of the helix: strand `k % 2` of rung `k / 2`.
pub open spec fn spec_helix_gene(twist_degree: i64, k: int) -> Gene {
    Gene {
        backbone_radius: BACKBONE_RADIUS,
        backbone_height: BACKBONE_HEIGHT,
        backbone_resolution: BACKBONE_RESOLUTION,
        backbone_segments: BACKBONE_SEGMENTS,
        backbone_position_len: spec_vertex_count(
            BACKBONE_RESOLUTION as nat,
            BACKBONE_SEGMENTS as nat,
        ) as u32,
        base_radius: BASE_RADIUS,
        base_height: BASE_HEIGHT,
        base_resolution: BASE_RESOLUTION,
        base_segments: BASE_SEGMENTS,
        twist_degree,
        transform: Point3 { x: 0, y: spec_rung_y(k / 2) as i64, z: 0 },
        rotate_y_degree: if k % 2 == 0 {
            0
        } else {
            OPPOSITE_STRAND_DEGREE
        },
    }
}

proof fn lemma_backbone_vertex_count()
    ensures
        spec_vertex_count(BACKBONE_RESOLUTION as nat, BACKBONE_SEGMENTS as nat) == 481,
{
    assert(BACKBONE_RESOLUTION == 20 && BACKBONE_SEGMENTS == 20);
    assert((20nat + 1) * (20nat + 1) + 20nat * 2 == 481nat) by (nonlinear_arith);
}

/// The assembler of the double helix.
pub struct Dna;

impl Dna {
    /// The genes of the helix, rung by rung from the bottom, each rung as
    /// its unturned strand followed by the strand turned half a revolution.
    pub fn new(twist_degree: i64) -> (r: Vec<Gene>)
        ensures
            r@.len() == 2 * RUNG_COUNT,
            forall|k: int| 0 <= k < r@.len() ==> #[trigger] r@[k] == spec_helix_gene(twist_degree, k),
            forall|k: int| 0 <= k < r@.len() ==> (#[trigger] r@[k]).wf(),
    {
        proof {
            lemma_backbone_vertex_count();
        }
        let mut dna: Vec<Gene> = Vec::new();
        let mut i: usize = 0;
        while i < RUNG_COUNT
            invariant
                i <= RUNG_COUNT,
                spec_vertex_count(BACKBONE_RESOLUTION as nat, BACKBONE_SEGMENTS as nat) == 481,
                dna@.len() == 2 * i,
                forall|k: int|
                    0 <= k < dna@.len() ==> #[trigger] dna@[k] == spec_helix_gene(twist_degree, k),
            decreases RUNG_COUNT - i,
        {
            let y: i64 = LOWEST_RUNG_Y + RUNG_SPACING * (i as i64);
            let placement = Point3 { x: 0, y, z: 0 };
            let g1 = Gene::new(
                BACKBONE_RADIUS,
                BACKBONE_HEIGHT,
                BACKBONE_RESOLUTION,
                BACKBONE_SEGMENTS,
                BASE_RADIUS,
                BASE_HEIGHT,
                BASE_RESOLUTION,
                BASE_SEGMENTS,
                twist_degree,
                placement,
                0,
            );
            let g2 = Gene::new(
                BACKBONE_RADIUS,
                BACKBONE_HEIGHT,
                BACKBONE_RESOLUTION,
                BACKBONE_SEGMENTS,
                BASE_RADIUS,
                BASE_HEIGHT,
                BASE_RESOLUTION,
                BASE_SEGMENTS,
                twist_degree,
                placement,
                OPPOSITE_STRAND_DEGREE,
            );
            proof {
                let k1 = 2 * i as int;
                assert(k1 / 2 == i as int && k1 % 2 == 0);
                assert((k1 + 1) / 2 == i as int && (k1 + 1) % 2 == 1);
            }
            dna.push(g1);
            dna.push(g2);
            i = i + 1;
        }
        proof {
            assert forall|k: int| 0 <= k < dna@.len() implies (#[trigger] dna@[k]).wf() by {
                assert(dna@[k] == spec_helix_gene(twist_degree, k));
                lemma_backbone_vertex_count();
            }
        }
        dna
    }
}

/// The layout of the helix: it has twice as many entries as rungs; the
/// entries alternate between the unturned strand and the strand turned half
/// a revolution; and both entries of rung `i` stand at height
/// `-120 + 10 * i` (in thousandths: `-120000 + 10000 * i`).
pub proof fn lemma_helix_layout(twist_degree: i64, genes: Seq<Gene>, i: int)
    requires
        genes.len() == 2 * RUNG_COUNT,
        forall|k: int| 0 <= k < genes.len() ==> #[trigger] genes[k] == spec_helix_gene(twist_degree, k),
        0 <= i < RUNG_COUNT,
    ensures
        genes.len() == 50,
        genes[2 * i].rotate_y_degree == 0,
        genes[2 * i + 1].rotate_y_degree == 180000,
        genes[2 * i].transform.y == -120000 + 10000 * i,
        genes[2 * i + 1].transform.y == -120000 + 10000 * i,
        genes[2 * i].twist_degree == twist_degree,
        genes[2 * i + 1].twist_degree == twist_degree,
{
    assert(genes[2 * i] == spec_helix_gene(twist_degree, 2 * i));
    assert(genes[2 * i + 1] == spec_helix_gene(twist_degree, 2 * i + 1));
    assert((2 * i) / 2 == i && (2 * i) % 2 == 0);
    assert((2 * i + 1) / 2 == i && (2 * i + 1) % 2 == 1);
}

} // verus!
