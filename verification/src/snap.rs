use vstd::prelude::*;

verus! {

/// The monitor edge a window snapped against.
#[derive(Clone, Copy, Debug, PartialEq, Eq, Structural)]
pub enum SnapEdge {
    Top,
    Bottom,
    Left,
    Right,
}

impl SnapEdge {
    /// The name of each edge as it is emitted to the frontend.
    pub open spec fn as_str_spec(self) -> Seq<char> {
        match self {
            SnapEdge::Top => "top"@,
            SnapEdge::Bottom => "bottom"@,
            SnapEdge::Left => "left"@,
            SnapEdge::Right => "right"@,
        }
    }

    /// Name of the edge, used as the payload of the window-hide event.
    pub fn as_str(&self) -> (r: &'static str)
        ensures
            r@ == self.as_str_spec(),
    {
        match self {
            SnapEdge::Top => "top",
            SnapEdge::Bottom => "bottom",
            SnapEdge::Left => "left",
            SnapEdge::Right => "right",
        }
    }
}

/// Pixel distance from a monitor edge within which a window counts as
/// dragged against that edge.
pub const SNAP_THRESHOLD: i32 = 10;

/// Width of the strip that stays visible when a window hides at an edge.
pub const SNAP_MARGIN: i32 = 50;

/// Which monitor edge, if any, a window whose top-left corner sits at
/// `(x, y)` on a `width x height` monitor has been dragged against.  The
/// edges are tried in the order top, bottom, left, right; the first match
/// wins.
pub open spec fn snap_edge_at(x: int, y: int, width: int, height: int) -> Option<SnapEdge> {
    if y <= SNAP_THRESHOLD as int {
        Some(SnapEdge::Top)
    } else if height - y - SNAP_MARGIN as int <= SNAP_THRESHOLD as int {
        Some(SnapEdge::Bottom)
    } else if x <= SNAP_THRESHOLD as int {
        Some(SnapEdge::Left)
    } else if width - x - SNAP_MARGIN as int <= SNAP_THRESHOLD as int {
        Some(SnapEdge::Right)
    } else {
        None
    }
}

/// Decides, from window-move events, when the window has been dragged
/// against a monitor edge.
pub struct SnapHandler;

impl SnapHandler {
    /// The decision inside the window-move handler: given the window
    /// position and the monitor size, the edge the window snapped against,
    /// if any.
    pub fn detect_edge(&self, x: i32, y: i32, width: i32, height: i32) -> (r: Option<SnapEdge>)
        ensures
            r == snap_edge_at(x as int, y as int, width as int, height as int),
    {
        let xl: i64 = x as i64;
        let yl: i64 = y as i64;
        let wl: i64 = width as i64;
        let hl: i64 = height as i64;
        let threshold: i64 = SNAP_THRESHOLD as i64;
        let margin: i64 = SNAP_MARGIN as i64;
        if yl <= threshold {
            Some(SnapEdge::Top)
        } else if hl - yl - margin <= threshold {
            Some(SnapEdge::Bottom)
        } else if xl <= threshold {
            Some(SnapEdge::Left)
        } else if wl - xl - margin <= threshold {
            Some(SnapEdge::Right)
        } else {
            None
        }
    }
}

} // verus!
