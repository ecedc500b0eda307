//! Coordinates, the logical-to-physical scale conversion, and the platform
//! context threaded into every dispatch routine.
//!
//! The host reports positions in logical pixels; consumers want physical
//! (device) pixels. The scale factor and physical coordinates are held in
//! fixed-point thousandths of a pixel, so the conversion is an exact integer
//! multiplication: a scale of `2_000` per-mille doubles every coordinate.

use vstd::prelude::*;

verus! {

/// Coordinates stay within this bound (well-formedness), so that the
/// surface-relative mapping's subtraction cannot overflow an `i32`.
pub const COORD_BOUND: i32 = 0x3fff_ffff;

/// A 2D point or motion delta in logical pixels, as the host reports it.
#[derive(Clone, Copy, Debug, PartialEq, Eq, Structural)]
pub struct LogicalPosition {
    pub x: i32,
    pub y: i32,
}

/// A 2D point or motion delta in thousandths of a physical pixel, after the
/// scale factor has been applied. `x == 20_000` means 20 physical pixels.
#[derive(Clone, Copy, Debug, PartialEq, Eq, Structural)]
pub struct PhysicalPosition {
    pub x: i64,
    pub y: i64,
}

/// The logical-to-physical pixel ratio, in thousandths: `per_mille == 2_000`
/// means one logical pixel spans two physical pixels.
#[derive(Clone, Copy, Debug, PartialEq, Eq, Structural)]
pub struct ScaleFactor {
    pub per_mille: u32,
}

/// The surface (canvas) that owns device coordinates: touch contacts are
/// reported viewport-relative and must be mapped to surface-relative
/// coordinates by subtracting the surface's origin.
#[derive(Clone, Copy, Debug, PartialEq, Eq, Structural)]
pub struct Surface {
    pub origin: LogicalPosition,
}

/// The ambient platform queries a dispatch routine needs: the current scale
/// factor and the owning surface. Threaded into each routine explicitly
/// instead of living in hidden global state.
#[derive(Clone, Copy, Debug, PartialEq, Eq, Structural)]
pub struct PlatformContext {
    pub scale: ScaleFactor,
    pub surface: Surface,
}

impl LogicalPosition {
    /// Both coordinates lie within `COORD_BOUND`.
    pub open spec fn wf(self) -> bool {
        &&& -COORD_BOUND <= self.x <= COORD_BOUND
        &&& -COORD_BOUND <= self.y <= COORD_BOUND
    }
}

impl PlatformContext {
    pub open spec fn wf(self) -> bool {
        self.surface.origin.wf()
    }
}

/// What `to_physical` returns: each logical coordinate times the per-mille
/// scale, exactly.
pub open spec fn spec_to_physical(p: LogicalPosition, s: ScaleFactor) -> PhysicalPosition {
    PhysicalPosition { x: (p.x * s.per_mille) as i64, y: (p.y * s.per_mille) as i64 }
}

/// What `surface_relative` returns: the viewport-relative point translated by
/// the surface's origin.
pub open spec fn spec_surface_relative(p: LogicalPosition, surface: Surface) -> LogicalPosition {
    LogicalPosition { x: (p.x - surface.origin.x) as i32, y: (p.y - surface.origin.y) as i32 }
}

/// Multiplies one logical coordinate by the per-mille scale factor. The
/// product of an `i32` and a `u32` always fits an `i64`.
fn scale_coord(v: i32, per_mille: u32) -> (r: i64)
    ensures
        r == v * per_mille,
{
    proof {
        assert((v as int) * (per_mille as int) <= 0x7fff_ffff * 0xffff_ffff
            && (v as int) * (per_mille as int) >= (-0x8000_0000) * 0xffff_ffff)
            by (nonlinear_arith)
            requires
                -0x8000_0000 <= v <= 0x7fff_ffff,
                0 <= per_mille <= 0xffff_ffff,
        ;
    }
    (v as i64) * (per_mille as i64)
}

/// Converts a logical point (or delta) to physical fixed-point coordinates by
/// applying the scale factor.
pub fn to_physical(p: LogicalPosition, s: ScaleFactor) -> (r: PhysicalPosition)
    ensures
        r == spec_to_physical(p, s),
{
    PhysicalPosition { x: scale_coord(p.x, s.per_mille), y: scale_coord(p.y, s.per_mille) }
}

/// Maps a viewport-relative logical point to surface-relative coordinates.
pub fn surface_relative(p: LogicalPosition, surface: &Surface) -> (r: LogicalPosition)
    requires
        p.wf(),
        surface.origin.wf(),
    ensures
        r == spec_surface_relative(p, *surface),
{
    LogicalPosition { x: p.x - surface.origin.x, y: p.y - surface.origin.y }
}

} // verus!
