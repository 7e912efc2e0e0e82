//! Pixel geometry of an edge reservation: the monitor that hosts the caller's
//! window, the rectangle asked of the shell, and the re-snap rule that
//! restores the requested thickness after arbitration.

use vstd::prelude::*;

verus! {

/// Which display edge a reservation claims.
#[derive(Clone, Copy, PartialEq, Eq, Structural, Debug)]
pub enum Edge {
    Top,
    Bottom,
}

/// Pixel-space description of the monitor hosting the caller's window:
/// desktop origin and size.
#[derive(Clone, Copy, PartialEq, Eq, Structural, Debug)]
pub struct MonitorGeometry {
    pub origin_x: i32,
    pub origin_y: i32,
    pub width: u32,
    pub height: u32,
}

/// A reserved strip in screen coordinates.
#[derive(Clone, Copy, PartialEq, Eq, Structural, Debug)]
pub struct ReservedRect {
    pub left: i32,
    pub top: i32,
    pub right: i32,
    pub bottom: i32,
}

/// The geometry assumed when the hosting monitor cannot be determined:
/// a full-HD display at the desktop origin.
pub open spec fn fallback_geometry() -> MonitorGeometry {
    MonitorGeometry { origin_x: 0, origin_y: 0, width: 1920, height: 1080 }
}

/// Extent of a rect along the vertical axis, the axis on which top and
/// bottom reservations are measured.
pub open spec fn vertical_span(r: ReservedRect) -> int {
    r.bottom - r.top
}

/// The monitor's far corner still lies in the 32-bit screen coordinate space.
pub open spec fn geometry_fits(g: MonitorGeometry) -> bool {
    &&& g.origin_x as int + g.width as int <= i32::MAX as int
    &&& g.origin_y as int + g.height as int <= i32::MAX as int
}

/// Both boundaries of the desired rect for this request lie in the 32-bit
/// screen coordinate space.
pub open spec fn request_fits(g: MonitorGeometry, edge: Edge, thickness: u32) -> bool {
    &&& geometry_fits(g)
    &&& match edge {
        Edge::Top => g.origin_y as int + thickness as int <= i32::MAX as int,
        Edge::Bottom => i32::MIN as int <= g.origin_y as int + g.height as int
            - thickness as int,
    }
}

/// The rect first asked of the shell: the monitor's full width, anchored at
/// the requested edge, extending inward by the requested thickness.
pub open spec fn desired_rect_spec(g: MonitorGeometry, edge: Edge, thickness: u32) -> ReservedRect {
    let right = (g.origin_x as int + g.width as int) as i32;
    match edge {
        Edge::Top => ReservedRect {
            left: g.origin_x,
            top: g.origin_y,
            right,
            bottom: (g.origin_y as int + thickness as int) as i32,
        },
        Edge::Bottom => ReservedRect {
            left: g.origin_x,
            top: (g.origin_y as int + g.height as int - thickness as int) as i32,
            right,
            bottom: (g.origin_y as int + g.height as int) as i32,
        },
    }
}

/// The non-anchored boundary of the arbitrated rect can be moved back to the
/// requested thickness without leaving the 32-bit coordinate space.
pub open spec fn resnap_fits(q: ReservedRect, edge: Edge, thickness: u32) -> bool {
    match edge {
        Edge::Top => q.top as int + thickness as int <= i32::MAX as int,
        Edge::Bottom => i32::MIN as int <= q.bottom as int - thickness as int,
    }
}

/// After arbitration, keep the anchored boundary the shell granted and force
/// the opposite boundary back so the strip is exactly `thickness` tall.
pub open spec fn resnap_rect_spec(q: ReservedRect, edge: Edge, thickness: u32) -> ReservedRect {
    match edge {
        Edge::Top => ReservedRect {
            left: q.left,
            top: q.top,
            right: q.right,
            bottom: (q.top as int + thickness as int) as i32,
        },
        Edge::Bottom => ReservedRect {
            left: q.left,
            top: (q.bottom as int - thickness as int) as i32,
            right: q.right,
            bottom: q.bottom,
        },
    }
}

/// The monitor a reservation is computed against: the one the windowing
/// system reported, or the fallback geometry when it reported none.
pub open spec fn resolve_spec(found: Option<MonitorGeometry>) -> MonitorGeometry {
    match found {
        Some(m) => m,
        None => fallback_geometry(),
    }
}

/// Picks the monitor the windowing system reported, or the fallback geometry
/// when it reported none. Degraded, never failing.
pub fn resolve_monitor(found: Option<MonitorGeometry>) -> (g: MonitorGeometry)
    ensures
        g == resolve_spec(found),
        found matches Some(m) ==> g == m,
        found is None ==> g == fallback_geometry(),
{
    match found {
        Some(m) => m,
        None => MonitorGeometry { origin_x: 0, origin_y: 0, width: 1920, height: 1080 },
    }
}

/// Runtime check for `request_fits`, so an unverified caller can test a
/// monitor handed to it by the windowing system before asking for a rect.
pub fn request_fits_now(g: &MonitorGeometry, edge: Edge, thickness: u32) -> (b: bool)
    ensures
        b == request_fits(*g, edge, thickness),
{
    let x_ok: bool = g.origin_x as i64 + g.width as i64 <= i32::MAX as i64;
    let y_ok: bool = g.origin_y as i64 + g.height as i64 <= i32::MAX as i64;
    let edge_ok: bool = match edge {
        Edge::Top => g.origin_y as i64 + thickness as i64 <= i32::MAX as i64,
        Edge::Bottom => i32::MIN as i64 <= g.origin_y as i64 + g.height as i64 - thickness as i64,
    };
    x_ok && y_ok && edge_ok
}

/// Runtime check for `resnap_fits`, on the rect the shell's arbitration
/// returned.
pub fn resnap_fits_now(q: &ReservedRect, edge: Edge, thickness: u32) -> (b: bool)
    ensures
        b == resnap_fits(*q, edge, thickness),
{
    match edge {
        Edge::Top => q.top as i64 + thickness as i64 <= i32::MAX as i64,
        Edge::Bottom => i32::MIN as i64 <= q.bottom as i64 - thickness as i64,
    }
}

/// Computes the desired rect for a request, anchored at the requested edge.
pub fn desired_rect(g: &MonitorGeometry, edge: Edge, thickness: u32) -> (r: ReservedRect)
    requires
        request_fits(*g, edge, thickness),
    ensures
        r == desired_rect_spec(*g, edge, thickness),
{
    let right: i32 = (g.origin_x as i64 + g.width as i64) as i32;
    match edge {
        Edge::Top => {
            let bottom: i32 = (g.origin_y as i64 + thickness as i64) as i32;
            ReservedRect { left: g.origin_x, top: g.origin_y, right, bottom }
        }
        Edge::Bottom => {
            let top: i32 = (g.origin_y as i64 + g.height as i64 - thickness as i64) as i32;
            let bottom: i32 = (g.origin_y as i64 + g.height as i64) as i32;
            ReservedRect { left: g.origin_x, top, right, bottom }
        }
    }
}

/// Applies the re-snap rule to the rect arbitration returned.
pub fn resnap_rect(q: &ReservedRect, edge: Edge, thickness: u32) -> (r: ReservedRect)
    requires
        resnap_fits(*q, edge, thickness),
    ensures
        r == resnap_rect_spec(*q, edge, thickness),
{
    match edge {
        Edge::Top => {
            let bottom: i32 = (q.top as i64 + thickness as i64) as i32;
            ReservedRect { left: q.left, top: q.top, right: q.right, bottom }
        }
        Edge::Bottom => {
            let top: i32 = (q.bottom as i64 - thickness as i64) as i32;
            ReservedRect { left: q.left, top, right: q.right, bottom: q.bottom }
        }
    }
}

/// A monitor whose height covers the requested thickness admits the request:
/// the monitor's own extent already bounds both boundaries of the strip.
pub proof fn lemma_dimension_covers_request(g: MonitorGeometry, edge: Edge, thickness: u32)
    requires
        geometry_fits(g),
        thickness <= g.height,
    ensures
        request_fits(g, edge, thickness),
{
}

/// The desired rect is exactly as thick as requested.
pub proof fn lemma_desired_span(g: MonitorGeometry, edge: Edge, thickness: u32)
    requires
        request_fits(g, edge, thickness),
    ensures
        vertical_span(desired_rect_spec(g, edge, thickness)) == thickness,
{
}

/// Re-snapping restores the requested thickness exactly, whatever rect the
/// shell's arbitration returned.
pub proof fn lemma_resnap_span(q: ReservedRect, edge: Edge, thickness: u32)
    requires
        resnap_fits(q, edge, thickness),
    ensures
        vertical_span(resnap_rect_spec(q, edge, thickness)) == thickness,
{
}

} // verus!
