//! What holds of every run of a controller, and of every scroll write.

use vstd::prelude::*;
use crate::bridge::{after_polls, ScrollWrite, WriteStatus, POLL_INTERVAL_MS, POLL_TIMEOUT_MS};
use crate::config::Config;
use crate::item::Item;
use crate::model::{
    corrected_offset, mounted, run, settle_action, settle_step, step, ControllerState, Correction,
    Event, PendingMutation,
};
use crate::viewport::{edge_zone, saturate, ViewportMeasurement};

verus! {

/// The event brings as many items as one page holds, if it brings any.
pub open spec fn sized_for(event: Event, config: Config) -> bool {
    match event {
        Event::Scroll { batch, .. } => batch.len() == config.paging_batch_size,
        Event::Settled { .. } => true,
        Event::ForceTopGrow { batch, .. } => batch.len() == config.paging_batch_size,
        Event::ForceBottomGrow { batch } => batch.len() == config.paging_batch_size,
    }
}

/// The window holds no more than the first fill, and one page more while a
/// grow waits for its trim.
pub open spec fn within_bound(s: ControllerState) -> bool {
    s.window.len() <= s.config.initial_fill_size + if s.pending.is_grow() {
        s.config.paging_batch_size as int
    } else {
        0
    }
}

/// The offset lies strictly between the two guard bands.
pub open spec fn in_steady_band(m: ViewportMeasurement, edge_margin: i64) -> bool {
    edge_margin < m.scroll_offset < m.content_extent - m.visible_extent - edge_margin
}

/// The content position `position` shows in a viewport of `visible_extent`
/// units that is scrolled to `offset`.
pub open spec fn in_visible_range(position: int, offset: int, visible_extent: int) -> bool {
    offset <= position < offset + visible_extent
}

/// The state after `count + 1` events comes from the state after `count` of
/// them by the next event.
pub proof fn lemma_run_unfolds(s: ControllerState, events: Seq<Event>, count: int)
    requires
        0 <= count < events.len(),
    ensures
        run(s, events.take(count + 1)) == step(run(s, events.take(count)), events[count]),
{
    let longer = events.take(count + 1);
    assert(longer.drop_last() =~= events.take(count));
    assert(longer.last() == events[count]);
}

/// Every step keeps a controller well formed and leaves its settings alone.
pub proof fn lemma_step_keeps_well_formed(s: ControllerState, event: Event)
    requires
        s.well_formed(),
    ensures
        step(s, event).well_formed(),
        step(s, event).config == s.config,
{
}

/// Every run keeps a controller well formed and leaves its settings alone.
pub proof fn lemma_run_keeps_well_formed(s: ControllerState, events: Seq<Event>)
    requires
        s.well_formed(),
    ensures
        run(s, events).well_formed(),
        run(s, events).config == s.config,
    decreases events.len(),
{
    if events.len() > 0 {
        lemma_run_keeps_well_formed(s, events.drop_last());
        lemma_step_keeps_well_formed(run(s, events.drop_last()), events.last());
    }
}

/// Where an eviction removes at least a page, a step by an event that brings
/// one page keeps the window within its bound.
pub proof fn lemma_step_keeps_bound(s: ControllerState, event: Event)
    requires
        s.well_formed(),
        s.config.evicts_whole_batches(),
        within_bound(s),
        sized_for(event, s.config),
    ensures
        within_bound(step(s, event)),
{
}

/// Window bound. Where an eviction removes at least a page, the window of a
/// list that was mounted on its first fill never holds more than the first
/// fill and one page, whatever events arrive, each with one page of items; so
/// it never holds more than the first fill and two pages.
pub proof fn lemma_window_bound(config: Config, items: Seq<Item>, events: Seq<Event>)
    requires
        config.valid(),
        config.evicts_whole_batches(),
        items.len() == config.initial_fill_size,
        forall|i: int| 0 <= i < events.len() ==> sized_for(#[trigger] events[i], config),
    ensures
        within_bound(run(mounted(config, items), events)),
        run(mounted(config, items), events).window.len() <= config.initial_fill_size
            + config.paging_batch_size,
        run(mounted(config, items), events).window.len() <= config.initial_fill_size + 2
            * config.paging_batch_size,
    decreases events.len(),
{
    let start = mounted(config, items);
    if events.len() > 0 {
        let earlier = events.drop_last();
        lemma_window_bound(config, items, earlier);
        lemma_run_keeps_well_formed(start, earlier);
        assert(sized_for(events[events.len() - 1], config));
        lemma_step_keeps_bound(run(start, earlier), events.last());
    }
    lemma_run_keeps_well_formed(start, events);
}

/// Anchor stability. A prepend moves the content that stood at the top of the
/// viewport, at the anchor, down by what it added to the content extent. Where
/// that position lies above the top guard band and is representable, the
/// correction commits exactly that position as the new anchor, so the content
/// stands at the top of the viewport again. In general the content shows in the
/// viewport after the correction if and only if its position lies above the
/// guard band and less than one viewport beyond what an offset can hold.
pub proof fn lemma_anchor_stability(s: ControllerState, before: i64, m: ViewportMeasurement)
    requires
        s.well_formed(),
        s.pending == PendingMutation::TopGrow(before),
    ensures
        ({
            let position = s.anchor + (m.content_extent - before);
            let committed = settle_step(s, m).anchor;
            &&& settle_action(s, m) == Correction::Anchored(committed as i64)
            &&& s.config.edge_margin < position <= i64::MAX ==> committed == position
            &&& in_visible_range(position, committed, m.visible_extent as int) <==> (
            s.config.edge_margin < position && position < saturate(position) + m.visible_extent)
        }),
{
}

/// No straddle of the guard band. Whatever a correction commits, as the
/// anchor or as a write to the surface, lies above the top guard band.
pub proof fn lemma_correction_clears_margin(s: ControllerState, m: ViewportMeasurement)
    requires
        s.well_formed(),
    ensures
        corrected_offset(s, m) > s.config.edge_margin,
        settle_action(s, m) matches Correction::Anchored(offset) ==> offset > s.config.edge_margin
            && settle_step(s, m).anchor == offset,
        settle_action(s, m) matches Correction::ScrollTo(offset) ==> offset
            > s.config.edge_margin,
{
}

/// Chaining, step by step. While a grow is pending, every event but its
/// correction is dropped, and its correction puts the trim of the opposite end
/// in its place, outstanding in turn. The correction of that trim consumes it.
/// The pending mutation never goes back to `Initial`.
pub proof fn lemma_grow_chains_to_opposite_shrink(s: ControllerState, event: Event)
    requires
        s.well_formed(),
    ensures
        s.pending is TopGrow ==> if event is Settled {
            step(s, event).pending == PendingMutation::BottomShrink && step(s, event).outstanding
        } else {
            step(s, event) == s
        },
        s.pending is BottomGrow ==> if event is Settled {
            step(s, event).pending == PendingMutation::TopShrink(
                event->Settled_measurement.content_extent,
            ) && step(s, event).outstanding
        } else {
            step(s, event) == s
        },
        (s.pending is TopShrink || s.pending is BottomShrink) && s.outstanding ==> if event
            is Settled {
            step(s, event).pending == s.pending && !step(s, event).outstanding
        } else {
            step(s, event) == s
        },
        !(s.pending is Initial) ==> !(step(s, event).pending is Initial),
{
}

/// While a grow is pending, a run of events without a correction changes
/// nothing: the state after `to` events is the state after `from` of them.
pub proof fn lemma_grow_waits_for_its_correction(
    s: ControllerState,
    events: Seq<Event>,
    from: int,
    to: int,
)
    requires
        s.well_formed(),
        0 <= from <= to <= events.len(),
        run(s, events.take(from)).pending.is_grow(),
        forall|k: int| from <= k < to ==> !(#[trigger] events[k] is Settled),
    ensures
        run(s, events.take(to)) == run(s, events.take(from)),
    decreases to - from,
{
    if from < to {
        lemma_grow_waits_for_its_correction(s, events, from, to - 1);
        lemma_run_unfolds(s, events, to - 1);
        lemma_run_keeps_well_formed(s, events.take(to - 1));
        lemma_grow_chains_to_opposite_shrink(run(s, events.take(to - 1)), events[to - 1]);
    }
}

/// Chaining, on a run. Where a grow is pending after `from` events, nothing
/// changes until the next correction, the event at `to`, and that correction
/// leaves the trim of the opposite end pending and outstanding: `BottomShrink`
/// after a grow at the top, `TopShrink` with the extent just measured after a
/// grow at the bottom.
pub proof fn lemma_chaining_on_runs(s: ControllerState, events: Seq<Event>, from: int, to: int)
    requires
        s.well_formed(),
        0 <= from <= to < events.len(),
        run(s, events.take(from)).pending.is_grow(),
        forall|k: int| from <= k < to ==> !(#[trigger] events[k] is Settled),
        events[to] is Settled,
    ensures
        run(s, events.take(to)) == run(s, events.take(from)),
        run(s, events.take(to + 1)).outstanding,
        run(s, events.take(from)).pending is TopGrow ==> run(s, events.take(to + 1)).pending
            == PendingMutation::BottomShrink,
        run(s, events.take(from)).pending is BottomGrow ==> run(s, events.take(to + 1)).pending
            == PendingMutation::TopShrink(events[to]->Settled_measurement.content_extent),
{
    lemma_grow_waits_for_its_correction(s, events, from, to);
    lemma_run_unfolds(s, events, to);
    lemma_run_keeps_well_formed(s, events.take(to));
    lemma_grow_chains_to_opposite_shrink(run(s, events.take(to)), events[to]);
}

/// Once a mutation has been recorded, no run brings the pending mutation back
/// to `Initial`.
pub proof fn lemma_pending_never_returns_to_initial(s: ControllerState, events: Seq<Event>)
    requires
        s.well_formed(),
        !(s.pending is Initial),
    ensures
        !(run(s, events).pending is Initial),
    decreases events.len(),
{
    if events.len() > 0 {
        lemma_pending_never_returns_to_initial(s, events.drop_last());
        lemma_run_keeps_well_formed(s, events.drop_last());
        lemma_grow_chains_to_opposite_shrink(run(s, events.drop_last()), events.last());
    }
}

/// The band between the guard bands is the steady zone.
pub proof fn lemma_steady_band_is_steady_zone(m: ViewportMeasurement, edge_margin: i64)
    ensures
        in_steady_band(m, edge_margin) <==> edge_zone(m, edge_margin) is Steady,
{
}

/// Idempotent steady state. Scroll events between the guard bands, however
/// many, leave the window and the pending mutation as they are.
pub proof fn lemma_steady_scrolling_keeps_window(s: ControllerState, events: Seq<Event>)
    requires
        forall|i: int|
            0 <= i < events.len() ==> (#[trigger] events[i] matches Event::Scroll {
                measurement,
                ..
            } && in_steady_band(measurement, s.config.edge_margin)),
    ensures
        run(s, events).window == s.window,
        run(s, events).pending == s.pending,
        run(s, events).outstanding == s.outstanding,
        run(s, events).config == s.config,
    decreases events.len(),
{
    if events.len() > 0 {
        let earlier = events.drop_last();
        lemma_steady_scrolling_keeps_window(s, earlier);
        let last = events[events.len() - 1];
        assert(last matches Event::Scroll { measurement, .. } && in_steady_band(
            measurement,
            s.config.edge_margin,
        ));
    }
}

/// Items enter and leave at the ends only: after any step, the window is the
/// old one with a batch before or behind it, or a part of it that runs to one
/// of its ends.
pub proof fn lemma_window_changes_at_ends(s: ControllerState, event: Event)
    ensures
        ({
            let before = s.window;
            let after = step(s, event).window;
            ||| after == before
            ||| exists|batch: Seq<Item>| after == #[trigger] (batch + before)
            ||| exists|batch: Seq<Item>| after == #[trigger] (before + batch)
            ||| exists|kept: int| 0 <= kept <= before.len() && after == #[trigger] before.take(kept)
            ||| exists|dropped: int|
                0 <= dropped <= before.len() && after == #[trigger] before.skip(dropped)
        }),
{
    let before = s.window;
    let after = step(s, event).window;
    match event {
        Event::Scroll { measurement, batch } => {
            assert(after == before || after == batch + before || after == before + batch);
        },
        Event::ForceTopGrow { content_extent, batch } => {
            assert(after == before || after == batch + before);
        },
        Event::ForceBottomGrow { batch } => {
            assert(after == before || after == before + batch);
        },
        Event::Settled { measurement } => {
            let count = s.config.eviction_count as nat;
            let removed: int = if count <= before.len() {
                count as int
            } else {
                before.len() as int
            };
            assert(after == before || after == before.take(before.len() - removed) || after
                == before.skip(removed));
        },
    }
}

/// A finished write stays finished, whatever polls follow.
pub proof fn lemma_finished_write_stays(w: ScrollWrite, observed: Seq<i64>)
    requires
        !(w.status is Retrying),
    ensures
        after_polls(w, observed) == w,
    decreases observed.len(),
{
    if observed.len() > 0 {
        lemma_finished_write_stays(w, observed.drop_last());
    }
}

/// Bounded retry. Polls at the poll interval end a write, one way or the
/// other, with the first poll that comes after the timeout.
pub proof fn lemma_polling_ends_after_timeout(w: ScrollWrite, observed: Seq<i64>)
    requires
        observed.len() * POLL_INTERVAL_MS > POLL_TIMEOUT_MS,
    ensures
        !(after_polls(w, observed).status is Retrying),
{
}

/// A write that the surface ignored at first is done with the first poll that
/// finds the surface moved, if every poll before it came within the timeout,
/// and it stays done whatever polls follow.
pub proof fn lemma_polling_succeeds_once_surface_moves(
    w: ScrollWrite,
    observed: Seq<i64>,
    moved: int,
)
    requires
        w.status is Retrying,
        0 <= moved < observed.len(),
        observed[moved] != w.baseline,
        forall|i: int| 0 <= i < moved ==> observed[i] == w.baseline,
        moved * POLL_INTERVAL_MS <= POLL_TIMEOUT_MS,
    ensures
        after_polls(w, observed) == (ScrollWrite { status: WriteStatus::Done, ..w }),
    decreases observed.len(),
{
    let earlier = observed.drop_last();
    if moved == observed.len() - 1 {
        lemma_polling_waits_while_surface_rests(w, earlier);
    } else {
        lemma_polling_succeeds_once_surface_moves(w, earlier, moved);
    }
}

/// While the surface rests at the baseline and the timeout has not passed, a
/// retried write is retried.
pub proof fn lemma_polling_waits_while_surface_rests(w: ScrollWrite, observed: Seq<i64>)
    requires
        w.status is Retrying,
        forall|i: int| 0 <= i < observed.len() ==> observed[i] == w.baseline,
        observed.len() * POLL_INTERVAL_MS <= POLL_TIMEOUT_MS,
    ensures
        after_polls(w, observed) == w,
    decreases observed.len(),
{
    if observed.len() > 0 {
        lemma_polling_waits_while_surface_rests(w, observed.drop_last());
    }
}

} // verus!
