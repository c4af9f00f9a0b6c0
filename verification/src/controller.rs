//! The controller: one list instance and the two steps that the host drives.
//!
//! The host calls `apply_scroll_event` on every scroll event, and
//! `apply_mutation_settled` once the surface shows the mutation that a call
//! left outstanding. Between the two it measures the surface and performs the
//! scroll write that a correction asks for. While a correction is outstanding,
//! new triggers are dropped.

use vstd::prelude::*;
use crate::config::Config;
use crate::item::{generate_batch, is_message_batch, Item};
use crate::model::{
    corrected_offset, force_bottom_step, force_top_step, mounted, scroll_outcome, scroll_step,
    settle_action, settle_step, ControllerState, Correction, PendingMutation, ScrollOutcome,
};
use crate::viewport::{lift_above_margin, shift_offset, EdgeZone, ViewportMeasurement};
use crate::window::ItemWindow;

verus! {

/// How long the host waits at mount before it measures for the first
/// correction, in milliseconds. Layout is not ready on the first paint.
pub const SETTLE_DELAY_MS: u64 = 100;

/// The offset that a jump to the top scrolls to: one unit, the smallest offset
/// whose write is tried again when the surface does not take it.
pub const TOP_OFFSET: i64 = 1;

/// The state of one list instance: window, anchor and pending mutation.
#[derive(Debug)]
pub struct ScrollAnchorController {
    config: Config,
    window: ItemWindow,
    anchor: i64,
    pending: PendingMutation,
    outstanding: bool,
}

impl View for ScrollAnchorController {
    type V = ControllerState;

    closed spec fn view(&self) -> ControllerState {
        ControllerState {
            config: self.config,
            window: self.window@,
            anchor: self.anchor as int,
            pending: self.pending,
            outstanding: self.outstanding,
        }
    }
}

impl ScrollAnchorController {
    /// The invariant that every constructor establishes and every method keeps.
    pub open spec fn wf(&self) -> bool {
        self@.well_formed()
    }

    /// Mounts a list on the given first fill.
    pub fn with_items(config: Config, items: Vec<Item>) -> (controller: Self)
        requires
            config.valid(),
        ensures
            controller.wf(),
            controller@ == mounted(config, items@),
    {
        ScrollAnchorController {
            config,
            window: ItemWindow::from_items(items),
            anchor: 0,
            pending: PendingMutation::Initial,
            outstanding: true,
        }
    }

    /// Mounts a list and fills it with `config.initial_fill_size` new messages.
    pub fn new(config: Config) -> (controller: Self)
        requires
            config.valid(),
        ensures
            controller.wf(),
            controller@ == mounted(config, controller@.window),
            is_message_batch(controller@.window, config.initial_fill_size as nat),
    {
        let items = generate_batch(config.initial_fill_size);
        Self::with_items(config, items)
    }

    /// The settings of this list.
    pub fn config(&self) -> (config: Config)
        ensures
            config == self@.config,
    {
        self.config
    }

    /// The materialised items.
    pub fn window(&self) -> (window: &ItemWindow)
        ensures
            window@ == self@.window,
    {
        &self.window
    }

    /// The committed scroll offset.
    pub fn anchor(&self) -> (anchor: i64)
        ensures
            anchor == self@.anchor,
    {
        self.anchor
    }

    /// The mutation that was recorded last.
    pub fn pending(&self) -> (pending: PendingMutation)
        ensures
            pending == self@.pending,
    {
        self.pending
    }

    /// Whether the pending mutation still waits for its correction.
    pub fn correction_outstanding(&self) -> (outstanding: bool)
        ensures
            outstanding == self@.outstanding,
    {
        self.outstanding
    }

    /// How long the host must wait before it takes the measurement for the
    /// next correction: the settle delay for the correction at mount, no time
    /// for any other.
    pub fn settle_delay_ms(&self) -> (delay: Option<u64>)
        ensures
            delay == if self@.outstanding && self@.pending is Initial {
                Some(SETTLE_DELAY_MS)
            } else {
                None::<u64>
            },
    {
        if !self.outstanding {
            return None;
        }
        match self.pending {
            PendingMutation::Initial => Some(SETTLE_DELAY_MS),
            _ => None,
        }
    }

    /// The offset of a jump to the top, for the host to write to the surface.
    pub fn jump_to_top(&self) -> (offset: i64)
        ensures
            offset == TOP_OFFSET,
    {
        TOP_OFFSET
    }

    /// The edge-detection step on the measurement `m`, with `batch` as the
    /// items to add if `m` lies in a guard band.
    pub fn apply_scroll_event_with(&mut self, m: ViewportMeasurement, batch: Vec<Item>) -> (outcome:
        ScrollOutcome)
        requires
            old(self).wf(),
        ensures
            final(self).wf(),
            outcome == scroll_outcome(old(self)@, m),
            final(self)@ == scroll_step(old(self)@, m, batch@),
    {
        if self.outstanding {
            return ScrollOutcome::Dropped;
        }
        match m.zone(self.config.edge_margin) {
            EdgeZone::Top => {
                self.window.prepend(batch);
                self.anchor = m.scroll_offset;
                self.pending = PendingMutation::TopGrow(m.content_extent);
                self.outstanding = true;
                ScrollOutcome::GrewTop
            },
            EdgeZone::Bottom => {
                self.window.append(batch);
                self.anchor = m.scroll_offset;
                self.pending = PendingMutation::BottomGrow;
                self.outstanding = true;
                ScrollOutcome::GrewBottom
            },
            EdgeZone::Steady => {
                self.anchor = m.scroll_offset;
                ScrollOutcome::Steady
            },
        }
    }

    /// The edge-detection step on the measurement `m`. In a guard band it
    /// makes `config.paging_batch_size` new messages and adds them at that end.
    pub fn apply_scroll_event(&mut self, m: ViewportMeasurement) -> (outcome: ScrollOutcome)
        requires
            old(self).wf(),
        ensures
            final(self).wf(),
            outcome == scroll_outcome(old(self)@, m),
            outcome is Dropped || outcome is Steady ==> final(self)@ == scroll_step(
                old(self)@,
                m,
                Seq::empty(),
            ),
            outcome is GrewTop || outcome is GrewBottom ==> exists|batch: Seq<Item>|
                is_message_batch(batch, old(self)@.config.paging_batch_size as nat)
                    && final(self)@ == #[trigger] scroll_step(old(self)@, m, batch),
    {
        let grows = !self.outstanding && match m.zone(self.config.edge_margin) {
            EdgeZone::Steady => false,
            _ => true,
        };
        let batch = if grows {
            generate_batch(self.config.paging_batch_size)
        } else {
            Vec::new()
        };
        self.apply_scroll_event_with(m, batch)
    }

    /// Adds `batch` at the top on the user's request. `content_extent` is the
    /// content extent measured before. Returns whether the request was taken;
    /// it is dropped while a correction is outstanding.
    pub fn force_top_grow_with(&mut self, content_extent: i64, batch: Vec<Item>) -> (taken: bool)
        requires
            old(self).wf(),
        ensures
            final(self).wf(),
            taken == !old(self)@.outstanding,
            final(self)@ == force_top_step(old(self)@, content_extent, batch@),
    {
        if self.outstanding {
            return false;
        }
        self.window.prepend(batch);
        self.pending = PendingMutation::TopGrow(content_extent);
        self.outstanding = true;
        true
    }

    /// Adds `config.paging_batch_size` new messages at the top on the user's
    /// request. `content_extent` is the content extent measured before.
    pub fn force_top_grow(&mut self, content_extent: i64) -> (taken: bool)
        requires
            old(self).wf(),
        ensures
            final(self).wf(),
            taken == !old(self)@.outstanding,
            !taken ==> final(self)@ == old(self)@,
            taken ==> exists|batch: Seq<Item>|
                is_message_batch(batch, old(self)@.config.paging_batch_size as nat)
                    && final(self)@ == #[trigger] force_top_step(old(self)@, content_extent, batch),
    {
        if self.outstanding {
            return false;
        }
        let batch = generate_batch(self.config.paging_batch_size);
        self.force_top_grow_with(content_extent, batch)
    }

    /// Adds `batch` at the bottom on the user's request. Returns whether the
    /// request was taken; it is dropped while a correction is outstanding.
    pub fn force_bottom_grow_with(&mut self, batch: Vec<Item>) -> (taken: bool)
        requires
            old(self).wf(),
        ensures
            final(self).wf(),
            taken == !old(self)@.outstanding,
            final(self)@ == force_bottom_step(old(self)@, batch@),
    {
        if self.outstanding {
            return false;
        }
        self.window.append(batch);
        self.pending = PendingMutation::BottomGrow;
        self.outstanding = true;
        true
    }

    /// Adds `config.paging_batch_size` new messages at the bottom on the
    /// user's request.
    pub fn force_bottom_grow(&mut self) -> (taken: bool)
        requires
            old(self).wf(),
        ensures
            final(self).wf(),
            taken == !old(self)@.outstanding,
            !taken ==> final(self)@ == old(self)@,
            taken ==> exists|batch: Seq<Item>|
                is_message_batch(batch, old(self)@.config.paging_batch_size as nat)
                    && final(self)@ == #[trigger] force_bottom_step(old(self)@, batch),
    {
        if self.outstanding {
            return false;
        }
        let batch = generate_batch(self.config.paging_batch_size);
        self.force_bottom_grow_with(batch)
    }

    /// The correction step on `m`, the measurement taken once the surface
    /// shows the pending mutation (at mount: after the settle delay).
    ///
    /// Computes the offset that compensates the pending mutation and lifts it
    /// out of the top guard band. After a grow it commits the offset as the
    /// anchor, evicts at the far end and leaves that trim outstanding. After a
    /// trim, and at mount, it hands the offset to the host to write.
    pub fn apply_mutation_settled(&mut self, m: ViewportMeasurement) -> (correction: Correction)
        requires
            old(self).wf(),
        ensures
            final(self).wf(),
            correction == settle_action(old(self)@, m),
            final(self)@ == settle_step(old(self)@, m),
            correction matches Correction::Anchored(offset) ==> offset > old(self)@.config.edge_margin
                && offset == corrected_offset(old(self)@, m),
            correction matches Correction::ScrollTo(offset) ==> offset > old(self)@.config.edge_margin
                && offset == corrected_offset(old(self)@, m),
    {
        if !self.outstanding {
            return Correction::Skipped;
        }
        let pending = self.pending;
        let candidate = match pending {
            PendingMutation::TopGrow(before) => shift_offset(self.anchor, before, m.content_extent),
            PendingMutation::TopShrink(before) => shift_offset(
                self.anchor,
                before,
                m.content_extent,
            ),
            PendingMutation::BottomGrow | PendingMutation::BottomShrink => self.anchor,
            PendingMutation::Initial => m.centered(),
        };
        let offset = lift_above_margin(candidate, self.config.edge_margin);
        match pending {
            PendingMutation::TopGrow(_) => {
                self.window.trim_suffix(self.config.eviction_count);
                self.pending = PendingMutation::BottomShrink;
                self.anchor = offset;
                Correction::Anchored(offset)
            },
            PendingMutation::BottomGrow => {
                self.window.trim_prefix(self.config.eviction_count);
                self.pending = PendingMutation::TopShrink(m.content_extent);
                self.anchor = offset;
                Correction::Anchored(offset)
            },
            _ => {
                self.outstanding = false;
                Correction::ScrollTo(offset)
            },
        }
    }
}

} // verus!
