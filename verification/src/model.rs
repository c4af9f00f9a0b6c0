//! The controller as a transition system over plain values.
//!
//! Every method of the controller is specified by one of the step functions
//! here, and the laws of the controller are stated over them.

use vstd::prelude::*;
use crate::config::Config;
use crate::item::Item;
use crate::viewport::{
    centered_offset, clear_of_margin, edge_zone, saturate, shifted_offset, EdgeZone,
    ViewportMeasurement,
};
use crate::window::{without_prefix, without_suffix};

verus! {

/// The structural change that is in flight, with the baseline that its
/// correction needs. There is one per list instance; a new one replaces it.
#[derive(Clone, Copy, Debug, PartialEq, Eq, Structural)]
pub enum PendingMutation {
    /// Nothing has changed yet: the state at mount.
    Initial,
    /// Items were prepended; holds the content extent measured before that.
    TopGrow(i64),
    /// Items were appended. Growth at the bottom moves nothing above it.
    BottomGrow,
    /// A prefix was removed; holds the content extent measured before that.
    TopShrink(i64),
    /// A suffix was removed.
    BottomShrink,
}

impl PendingMutation {
    /// Items were added at either end.
    pub open spec fn is_grow(self) -> bool {
        self is TopGrow || self is BottomGrow
    }
}

/// What a scroll event did.
#[derive(Clone, Copy, Debug, PartialEq, Eq, Structural)]
pub enum ScrollOutcome {
    /// A correction was outstanding: the event was dropped and nothing changed.
    Dropped,
    /// The offset was in the top guard band: a batch was prepended.
    GrewTop,
    /// The offset was in the bottom guard band: a batch was appended.
    GrewBottom,
    /// The offset was between the bands: only the anchor was committed.
    Steady,
}

/// What a correction step committed.
#[derive(Clone, Copy, Debug, PartialEq, Eq, Structural)]
pub enum Correction {
    /// No correction was outstanding: nothing changed.
    Skipped,
    /// The logical anchor was set to this offset, the far end was trimmed, and
    /// the correction of that trim is now outstanding.
    Anchored(i64),
    /// The host must write this offset to the surface.
    ScrollTo(i64),
}

/// Everything that one list instance holds.
#[verifier::ext_equal]
pub struct ControllerState {
    pub config: Config,
    /// The materialised items, topmost first.
    pub window: Seq<Item>,
    /// The committed scroll offset.
    pub anchor: int,
    /// The mutation that was recorded last.
    pub pending: PendingMutation,
    /// Whether `pending` still waits for its correction.
    pub outstanding: bool,
}

/// What the host may report to a controller.
pub enum Event {
    /// The surface was scrolled; `batch` holds the items made for a grow.
    Scroll { measurement: ViewportMeasurement, batch: Seq<Item> },
    /// The surface shows the last mutation and was measured again.
    Settled { measurement: ViewportMeasurement },
    /// The user asked for more items at the top.
    ForceTopGrow { content_extent: i64, batch: Seq<Item> },
    /// The user asked for more items at the bottom.
    ForceBottomGrow { batch: Seq<Item> },
}

impl ControllerState {
    /// The invariant of a controller: the first offset above the guard band
    /// fits an `i64`, the anchor does too, and a grow is still outstanding
    /// while it is the pending mutation.
    pub open spec fn well_formed(self) -> bool {
        &&& self.config.valid()
        &&& i64::MIN <= self.anchor <= i64::MAX
        &&& self.pending.is_grow() ==> self.outstanding
    }
}

/// The state at mount: the first fill, the anchor at the top, and the first
/// correction, which centres the window, outstanding.
pub open spec fn mounted(config: Config, items: Seq<Item>) -> ControllerState {
    ControllerState {
        config,
        window: items,
        anchor: 0,
        pending: PendingMutation::Initial,
        outstanding: true,
    }
}

/// What a scroll event does in state `s`.
pub open spec fn scroll_outcome(s: ControllerState, m: ViewportMeasurement) -> ScrollOutcome {
    if s.outstanding {
        ScrollOutcome::Dropped
    } else {
        match edge_zone(m, s.config.edge_margin) {
            EdgeZone::Top => ScrollOutcome::GrewTop,
            EdgeZone::Bottom => ScrollOutcome::GrewBottom,
            EdgeZone::Steady => ScrollOutcome::Steady,
        }
    }
}

/// The state after a scroll event. The measured offset becomes the anchor. In
/// a guard band, `batch` enters the window at that end and the grow is
/// recorded, with the content extent as baseline at the top.
pub open spec fn scroll_step(
    s: ControllerState,
    m: ViewportMeasurement,
    batch: Seq<Item>,
) -> ControllerState {
    match scroll_outcome(s, m) {
        ScrollOutcome::Dropped => s,
        ScrollOutcome::GrewTop => ControllerState {
            window: batch + s.window,
            anchor: m.scroll_offset as int,
            pending: PendingMutation::TopGrow(m.content_extent),
            outstanding: true,
            ..s
        },
        ScrollOutcome::GrewBottom => ControllerState {
            window: s.window + batch,
            anchor: m.scroll_offset as int,
            pending: PendingMutation::BottomGrow,
            outstanding: true,
            ..s
        },
        ScrollOutcome::Steady => ControllerState { anchor: m.scroll_offset as int, ..s },
    }
}

/// The state after the user asked for items at the top: as at a top-edge
/// crossing, but the anchor stays. Dropped while a correction is outstanding.
pub open spec fn force_top_step(
    s: ControllerState,
    content_extent: i64,
    batch: Seq<Item>,
) -> ControllerState {
    if s.outstanding {
        s
    } else {
        ControllerState {
            window: batch + s.window,
            pending: PendingMutation::TopGrow(content_extent),
            outstanding: true,
            ..s
        }
    }
}

/// The state after the user asked for items at the bottom.
pub open spec fn force_bottom_step(s: ControllerState, batch: Seq<Item>) -> ControllerState {
    if s.outstanding {
        s
    } else {
        ControllerState {
            window: s.window + batch,
            pending: PendingMutation::BottomGrow,
            outstanding: true,
            ..s
        }
    }
}

/// The offset that keeps the content in place once `pending` shows on the
/// surface, before it is held against the guard band.
///
/// A change at the top moves the anchor by the change of the content extent,
/// saturated to the range of `i64`; a change at the bottom leaves it; at mount
/// the window is centred.
pub open spec fn candidate_offset(
    pending: PendingMutation,
    anchor: int,
    m: ViewportMeasurement,
) -> int {
    match pending {
        PendingMutation::TopGrow(before) => shifted_offset(anchor, before, m.content_extent),
        PendingMutation::TopShrink(before) => saturate(anchor - (before - m.content_extent)),
        PendingMutation::BottomGrow | PendingMutation::BottomShrink => anchor,
        PendingMutation::Initial => centered_offset(m),
    }
}

/// The offset that the correction of `s.pending` commits: the candidate,
/// lifted out of the top guard band if it fell into it.
pub open spec fn corrected_offset(s: ControllerState, m: ViewportMeasurement) -> int {
    clear_of_margin(candidate_offset(s.pending, s.anchor, m), s.config.edge_margin)
}

/// What the correction step tells the host in state `s`.
pub open spec fn settle_action(s: ControllerState, m: ViewportMeasurement) -> Correction {
    if !s.outstanding {
        Correction::Skipped
    } else if s.pending.is_grow() {
        Correction::Anchored(corrected_offset(s, m) as i64)
    } else {
        Correction::ScrollTo(corrected_offset(s, m) as i64)
    }
}

/// The state after the correction step.
///
/// After a grow the anchor takes the corrected offset, the far end of the
/// window is trimmed by the eviction count, and that trim becomes the pending
/// mutation, still outstanding. Any other mutation is consumed: the offset goes
/// to the surface and the state keeps its anchor.
pub open spec fn settle_step(s: ControllerState, m: ViewportMeasurement) -> ControllerState {
    if !s.outstanding {
        s
    } else {
        match s.pending {
            PendingMutation::TopGrow(_) => ControllerState {
                window: without_suffix(s.window, s.config.eviction_count as nat),
                anchor: corrected_offset(s, m),
                pending: PendingMutation::BottomShrink,
                ..s
            },
            PendingMutation::BottomGrow => ControllerState {
                window: without_prefix(s.window, s.config.eviction_count as nat),
                anchor: corrected_offset(s, m),
                pending: PendingMutation::TopShrink(m.content_extent),
                ..s
            },
            _ => ControllerState { outstanding: false, ..s },
        }
    }
}

/// The state after one event.
pub open spec fn step(s: ControllerState, event: Event) -> ControllerState {
    match event {
        Event::Scroll { measurement, batch } => scroll_step(s, measurement, batch),
        Event::Settled { measurement } => settle_step(s, measurement),
        Event::ForceTopGrow { content_extent, batch } => force_top_step(s, content_extent, batch),
        Event::ForceBottomGrow { batch } => force_bottom_step(s, batch),
    }
}

/// The state after a sequence of events, the first of them first.
pub open spec fn run(s: ControllerState, events: Seq<Event>) -> ControllerState
    decreases events.len(),
{
    if events.len() == 0 {
        s
    } else {
        step(run(s, events.drop_last()), events.last())
    }
}

} // verus!
