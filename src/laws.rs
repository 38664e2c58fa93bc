//! Properties that hold across the operations of the parameter state machine and
//! the renderer.
use vstd::prelude::*;
use crate::params::{defaults, scroll_zoom, Event, Key, Params, MULTIPLIER_MIN, SIZE_MAX, ZOOM_FACTOR_DEN, ZOOM_MAX, ZOOM_MIN};
use crate::render::{frame_of, TOTAL_POINTS};

verus! {

/// One event keeps every field in its range.
pub proof fn lemma_event_keeps_range(p: Params, event: Event)
    requires
        p.in_range(),
    ensures
        p.after_event(event).in_range(),
{
}

/// Whatever sequence of events arrives, every field stays in its range after each one.
pub proof fn lemma_events_keep_range(p: Params, events: Seq<Event>)
    requires
        p.in_range(),
    ensures
        p.after_events(events).in_range(),
    decreases events.len(),
{
    if events.len() > 0 {
        lemma_event_keeps_range(p, events[0]);
        lemma_events_keep_range(p.after_event(events[0]), events.drop_first());
    }
}

/// A reset brings back exactly the startup state, whatever events came before it.
pub proof fn lemma_reset_restores_defaults(p: Params, events: Seq<Event>)
    ensures
        p.after_events(events).after_event(Event::KeyPressed(Key::R)) == defaults(),
        defaults().in_range(),
{
}

/// A scroll never moves the zoom against the sign of its delta, and the zoom stays
/// put at the bound it is pushed against.
pub proof fn lemma_scroll_monotone(zoom: int, delta: int)
    requires
        ZOOM_MIN <= zoom <= ZOOM_MAX,
    ensures
        delta >= 0 ==> scroll_zoom(zoom, delta) >= zoom,
        delta <= 0 ==> scroll_zoom(zoom, delta) <= zoom,
        delta <= 0 && zoom == ZOOM_MIN ==> scroll_zoom(zoom, delta) == ZOOM_MIN,
        delta >= 0 && zoom == ZOOM_MAX ==> scroll_zoom(zoom, delta) == ZOOM_MAX,
{
    let den = ZOOM_FACTOR_DEN as int;
    if delta >= 0 {
        assert(zoom * (den + delta) >= zoom * den) by (nonlinear_arith)
            requires zoom >= 0, delta >= 0;
        assert((zoom * (den + delta)) / den >= (zoom * den) / den) by (nonlinear_arith)
            requires zoom * (den + delta) >= zoom * den, den > 0;
        assert((zoom * den) / den == zoom) by (nonlinear_arith)
            requires den > 0;
    }
    if delta <= 0 {
        assert(zoom * (den + delta) <= zoom * den) by (nonlinear_arith)
            requires zoom >= 0, delta <= 0;
        assert((zoom * (den + delta)) / den <= (zoom * den) / den) by (nonlinear_arith)
            requires zoom * (den + delta) <= zoom * den, den > 0;
        assert((zoom * den) / den == zoom) by (nonlinear_arith)
            requires den > 0;
    }
}

/// Growing a spiral already at its largest size, or lowering a multiplier already at
/// its floor, changes nothing.
pub proof fn lemma_saturated_steps(p: Params)
    requires
        p.in_range(),
    ensures
        p.spiral_size == SIZE_MAX ==> p.size_increased() == p,
        p.multiplier == MULTIPLIER_MIN ==> p.multiplier_decreased() == p,
{
}

/// Equal parameter snapshots render to identical frames.
pub proof fn lemma_render_deterministic(a: Params, b: Params)
    requires
        a == b,
    ensures
        frame_of(a) == frame_of(b),
{
}

/// A frame always has `TOTAL_POINTS` segments, each starting where the one before it ends.
pub proof fn lemma_segments_connected(p: Params)
    ensures
        frame_of(p).segments.len() == TOTAL_POINTS,
        forall|k: int|
            0 <= k < TOTAL_POINTS - 1 ==> #[trigger] frame_of(p).segments[k].end == frame_of(
                p,
            ).segments[k + 1].start,
{
}

} // verus!
