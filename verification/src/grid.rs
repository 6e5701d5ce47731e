//! The decorative instance grid: an n-by-n layout of cube instances with a
//! fixed spacing, centered at the origin, built once at startup.
//!
//! A grid coordinate is `spacing * (index - n/2)`, which is a whole multiple
//! of half the spacing; the library stores twice that value so every
//! coordinate is an exact integer even for an odd side length. The instance
//! whose position is the origin keeps the identity rotation (tilting it
//! would need the normal of a zero-length axis); every other instance is
//! tilted by a fixed angle about its own normalized position vector. The
//! shell turns each record into the GPU model and normal matrices.

use vstd::arithmetic::div_mod::lemma_fundamental_div_mod_converse;
use vstd::prelude::*;

verus! {

/// The fixed tilt, in degrees, of every off-origin instance about its
/// normalized position vector.
pub const INSTANCE_TILT_DEGREES: u32 = 45;

/// How an instance is rotated.
#[derive(Clone, Copy, PartialEq, Eq, Structural, Debug)]
pub enum RotationKind {
    /// The instance at the origin: no rotation, avoiding the degenerate
    /// normalization of a zero-length axis.
    Identity,
    /// Tilted by [`INSTANCE_TILT_DEGREES`] about the instance's own
    /// normalized position vector.
    AboutPosition,
}

/// One instance of the grid. `x_twice` and `z_twice` are twice the
/// world-space x and z coordinates (the y coordinate is always zero), so the
/// world position is `(x_twice / 2, 0, z_twice / 2)`.
#[derive(Clone, Copy, PartialEq, Eq, Structural, Debug)]
pub struct GridInstance {
    pub x_twice: i64,
    pub z_twice: i64,
    pub rotation: RotationKind,
}

/// Twice the world coordinate of grid index `idx` on one axis:
/// `2 * spacing * (idx - n/2) == spacing * (2*idx - n)`.
pub open spec fn grid_coord_twice(spacing: u32, n: u32, idx: int) -> int {
    spacing * (2 * idx - n)
}

/// What the grid's element at flat index `k` holds: row-major placement
/// (`x` runs fastest), and the identity rotation exactly at the origin.
pub open spec fn grid_instance_correct(spacing: u32, n: u32, k: int, inst: GridInstance) -> bool {
    &&& inst.x_twice == grid_coord_twice(spacing, n, k % (n as int))
    &&& inst.z_twice == grid_coord_twice(spacing, n, k / (n as int))
    &&& (inst.rotation is Identity <==> (inst.x_twice == 0 && inst.z_twice == 0))
}

/// Builds the n-by-n instance grid with the given spacing: `n * n` records
/// in row-major order, each at its exact (doubled) world coordinates, the
/// one at the origin — and only it — unrotated.
pub fn build_instance_grid(spacing: u32, n: u32) -> (grid: Vec<GridInstance>)
    requires
        n <= 0xFFFF,
    ensures
        grid@.len() == n * n,
        forall|k: int| 0 <= k < n * n ==> grid_instance_correct(spacing, n, k, #[trigger] grid@[k]),
{
    let mut grid: Vec<GridInstance> = Vec::new();
    let mut z: u32 = 0;
    while z < n
        invariant
            n <= 0xFFFF,
            z <= n,
            grid@.len() == z * n,
            forall|k: int| 0 <= k < z * n ==> grid_instance_correct(spacing, n, k, #[trigger] grid@[k]),
        decreases n - z,
    {
        let mut x: u32 = 0;
        while x < n
            invariant
                n <= 0xFFFF,
                z < n,
                x <= n,
                grid@.len() == z * n + x,
                forall|k: int| 0 <= k < z * n + x ==> grid_instance_correct(spacing, n, k, #[trigger] grid@[k]),
            decreases n - x,
        {
            proof {
                assert(z * n + x < n * n) by (nonlinear_arith)
                    requires z < n && x < n;
            }
            let cx: i64 = 2 * (x as i64) - (n as i64);
            let cz: i64 = 2 * (z as i64) - (n as i64);
            proof {
                assert((spacing as int) * (cx as int) <= 0xFFFF_FFFF * 0x2_0000
                    && (spacing as int) * (cx as int) >= -(0xFFFF_FFFF * 0x2_0000)
                    && (spacing as int) * (cz as int) <= 0xFFFF_FFFF * 0x2_0000
                    && (spacing as int) * (cz as int) >= -(0xFFFF_FFFF * 0x2_0000)) by (nonlinear_arith)
                    requires
                        -0x2_0000 <= cx as int && cx as int <= 0x2_0000,
                        -0x2_0000 <= cz as int && cz as int <= 0x2_0000,
                        0 <= spacing as int && (spacing as int) < 0x1_0000_0000;
            }
            let x_twice: i64 = (spacing as i64) * cx;
            let z_twice: i64 = (spacing as i64) * cz;
            let rotation = if x_twice == 0 && z_twice == 0 {
                RotationKind::Identity
            } else {
                RotationKind::AboutPosition
            };
            grid.push(GridInstance { x_twice, z_twice, rotation });
            proof {
                let k0: int = z * n + x;
                lemma_fundamental_div_mod_converse(k0, n as int, z as int, x as int);
                assert(grid_instance_correct(spacing, n, k0, grid@[k0]));
            }
            x = x + 1;
        }
        proof {
            assert(z * n + n == (z + 1) * n) by (nonlinear_arith);
        }
        z = z + 1;
    }
    grid
}

} // verus!
