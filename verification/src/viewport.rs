//! Snapshots of the rendering surface and the arithmetic on scroll offsets.

use vstd::prelude::*;

verus! {

/// A point-in-time reading of the scroll container, along the scroll axis.
///
/// The surface may report stale or zero values while layout is in flight, so no
/// relation between the three fields is assumed anywhere.
#[derive(Clone, Copy, Debug, PartialEq, Eq, Structural)]
pub struct ViewportMeasurement {
    /// Distance from the top of the content to the top of the viewport.
    pub scroll_offset: i64,
    /// Total scrollable size of the content.
    pub content_extent: i64,
    /// Size of the visible viewport.
    pub visible_extent: i64,
}

/// Where a measured scroll offset lies with respect to the two guard bands.
#[derive(Clone, Copy, Debug, PartialEq, Eq, Structural)]
pub enum EdgeZone {
    /// At or inside the guard band at the top of the content.
    Top,
    /// At or inside the guard band at the bottom of the content, and not at the top.
    Bottom,
    /// Strictly between the two guard bands.
    Steady,
}

/// The offset is at or inside the top guard band.
pub open spec fn at_top_edge(m: ViewportMeasurement, edge_margin: i64) -> bool {
    m.scroll_offset <= edge_margin
}

/// The offset is at or inside the bottom guard band.
pub open spec fn at_bottom_edge(m: ViewportMeasurement, edge_margin: i64) -> bool {
    m.scroll_offset >= m.content_extent - m.visible_extent - edge_margin
}

/// The zone of a measurement. The top is tested before the bottom, so a
/// measurement inside both bands counts as `Top`.
pub open spec fn edge_zone(m: ViewportMeasurement, edge_margin: i64) -> EdgeZone {
    if at_top_edge(m, edge_margin) {
        EdgeZone::Top
    } else if at_bottom_edge(m, edge_margin) {
        EdgeZone::Bottom
    } else {
        EdgeZone::Steady
    }
}

/// The nearest value to `x` that an `i64` can hold.
pub open spec fn saturate(x: int) -> int {
    if x < i64::MIN {
        i64::MIN as int
    } else if x > i64::MAX {
        i64::MAX as int
    } else {
        x
    }
}

/// Half of `x`, rounded toward zero.
pub open spec fn half_toward_zero(x: int) -> int {
    if x >= 0 {
        x / 2
    } else {
        -((-x) / 2)
    }
}

/// The offset that puts the middle of the content in the middle of the viewport.
pub open spec fn centered_offset(m: ViewportMeasurement) -> int {
    half_toward_zero(m.content_extent - m.visible_extent)
}

/// `anchor` moved by the change of the content extent from `before` to `after`,
/// saturated to the range of `i64`.
pub open spec fn shifted_offset(anchor: int, before: i64, after: i64) -> int {
    saturate(anchor + (after - before))
}

/// `candidate` if it lies above the guard band, otherwise the first offset above it.
pub open spec fn clear_of_margin(candidate: int, edge_margin: i64) -> int {
    if candidate <= edge_margin {
        edge_margin + 1
    } else {
        candidate
    }
}

impl ViewportMeasurement {
    /// Classifies this measurement against the guard bands of width `edge_margin`.
    pub fn zone(&self, edge_margin: i64) -> (zone: EdgeZone)
        ensures
            zone == edge_zone(*self, edge_margin),
    {
        if self.scroll_offset <= edge_margin {
            EdgeZone::Top
        } else {
            let floor: i128 = self.content_extent as i128 - self.visible_extent as i128
                - edge_margin as i128;
            if self.scroll_offset as i128 >= floor {
                EdgeZone::Bottom
            } else {
                EdgeZone::Steady
            }
        }
    }

    /// The offset that centres the content in the viewport.
    pub fn centered(&self) -> (offset: i64)
        ensures
            offset == centered_offset(*self),
    {
        let slack: i128 = self.content_extent as i128 - self.visible_extent as i128;
        if slack >= 0 {
            let half: i128 = slack / 2;
            half as i64
        } else {
            let magnitude: i128 = -slack;
            let half: i128 = magnitude / 2;
            (-half) as i64
        }
    }
}

/// Moves `anchor` by the growth of the content from `before` to `after`.
pub fn shift_offset(anchor: i64, before: i64, after: i64) -> (offset: i64)
    ensures
        offset == shifted_offset(anchor as int, before, after),
{
    let wide: i128 = anchor as i128 + (after as i128 - before as i128);
    if wide < i64::MIN as i128 {
        i64::MIN
    } else if wide > i64::MAX as i128 {
        i64::MAX
    } else {
        wide as i64
    }
}

/// Lifts `candidate` out of the top guard band.
pub fn lift_above_margin(candidate: i64, edge_margin: i64) -> (offset: i64)
    requires
        edge_margin < i64::MAX,
    ensures
        offset == clear_of_margin(candidate as int, edge_margin),
        offset > edge_margin,
{
    if candidate <= edge_margin {
        edge_margin + 1
    } else {
        candidate
    }
}

} // verus!
