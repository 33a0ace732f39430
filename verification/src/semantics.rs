//! The mathematical model of the event interpreter.
//!
//! One observation session's interpreter is modelled by
//! [`InterpreterModel`]; what one native notification does to it — the new
//! state and the exact sequence of emissions, before filtering — is given by
//! the row functions below, one per notification class.  The executable
//! interpreter promises, notification by notification, to match this model;
//! the session-wide laws (every delivered event passes the filter, focus
//! tracking is well-formed, a first bounds observation emits nothing) are
//! proved about it at the end of this module.

use vstd::prelude::*;

use crate::window::Bounds;
use crate::window::Window;
use crate::window::WindowId;
use crate::Event;
use crate::EventFilter;
use crate::MaybeWindowAvailable;

verus! {

/// The state one interpreter carries across notifications.
#[verifier::ext_equal]
pub ghost struct InterpreterModel {
    /// The immutable per-session filter.
    pub filter: EventFilter,
    /// The window tracked as focused, if any.
    pub prev_focused: Option<WindowId>,
    /// The most recent window-id snapshot, without duplicates.
    pub current_ids: Seq<WindowId>,
    /// The window-id snapshot before the most recent one.
    pub previous_ids: Seq<WindowId>,
    /// The last recorded bounds, per window, looked up by first match.
    pub bounds: Seq<(WindowId, Bounds)>,
}

/// What one notification produces: the successor state, the emissions in
/// order (not yet filtered), and whether the notification was recognized.
#[verifier::ext_equal]
pub ghost struct StepResult {
    /// The interpreter state after the notification.
    pub state: InterpreterModel,
    /// The semantic emissions, in dispatch order, before filtering.
    pub out: Seq<MaybeWindowAvailable>,
    /// Whether the notification belongs to a recognized class.
    pub recognized: bool,
}

/// The state of a freshly created interpreter: nothing focused, no window
/// snapshot, no recorded bounds.
pub open spec fn init_model(filter: EventFilter) -> InterpreterModel {
    InterpreterModel {
        filter,
        prev_focused: None,
        current_ids: Seq::empty(),
        previous_ids: Seq::empty(),
        bounds: Seq::empty(),
    }
}

/// An emission whose window is still available.
pub open spec fn avail(w: WindowId, e: Event) -> MaybeWindowAvailable {
    MaybeWindowAvailable::Available { window: Window { id: w }, event: e }
}

/// The emission for a closed window: only the id survives destruction.
pub open spec fn closed_emission(id: WindowId) -> MaybeWindowAvailable {
    MaybeWindowAvailable::NotAvailable { event: Event::Closed { window_id: id } }
}

/// The emissions of `out` that `filter` lets through to the consumer, in
/// order.
pub open spec fn deliver(filter: EventFilter, out: Seq<MaybeWindowAvailable>) -> Seq<
    MaybeWindowAvailable,
>
    decreases out.len(),
{
    if out.len() == 0 {
        Seq::empty()
    } else {
        let rest = deliver(filter, out.drop_last());
        if filter.allows(out.last().event()) {
            rest.push(out.last())
        } else {
            rest
        }
    }
}

/// Everything `deliver` answers passes the filter.
pub proof fn lemma_deliver_allowed(filter: EventFilter, out: Seq<MaybeWindowAvailable>)
    ensures
        forall|i: int|
            0 <= i < deliver(filter, out).len() ==> filter.allows(
                #[trigger] deliver(filter, out)[i].event(),
            ),
    decreases out.len(),
{
    if out.len() > 0 {
        lemma_deliver_allowed(filter, out.drop_last());
    }
}

/// `ids` with every repeated id dropped, keeping first occurrences in
/// order.  Intake of a window-id snapshot goes through this, so snapshots
/// never hold duplicates.
pub open spec fn dedup_ids(ids: Seq<WindowId>) -> Seq<WindowId>
    decreases ids.len(),
{
    if ids.len() == 0 {
        Seq::empty()
    } else {
        let d = dedup_ids(ids.drop_last());
        if d.contains(ids.last()) {
            d
        } else {
            d.push(ids.last())
        }
    }
}

/// Deduplication keeps exactly the ids that were there.
pub proof fn lemma_dedup_ids_contains(ids: Seq<WindowId>, w: WindowId)
    ensures
        dedup_ids(ids).contains(w) <==> ids.contains(w),
    decreases ids.len(),
{
    broadcast use vstd::seq_lib::group_seq_properties;

    if ids.len() > 0 {
        lemma_dedup_ids_contains(ids.drop_last(), w);
        assert(ids.contains(w) <==> (ids.drop_last().contains(w) || ids.last() == w)) by {
            if ids.contains(w) {
                let i = choose|i: int| 0 <= i < ids.len() && ids[i] == w;
                if i < ids.len() - 1 {
                    assert(ids.drop_last()[i] == w);
                }
            }
            if ids.drop_last().contains(w) {
                let i = choose|i: int| 0 <= i < ids.drop_last().len() && ids.drop_last()[i] == w;
                assert(ids[i] == w);
            }
        }
    }
}

/// Deduplication leaves no duplicates.
pub proof fn lemma_dedup_ids_no_duplicates(ids: Seq<WindowId>)
    ensures
        dedup_ids(ids).no_duplicates(),
    decreases ids.len(),
{
    if ids.len() > 0 {
        lemma_dedup_ids_no_duplicates(ids.drop_last());
    }
}

/// The last recorded bounds for `w`: the first matching entry.
pub open spec fn bounds_lookup(entries: Seq<(WindowId, Bounds)>, w: WindowId) -> Option<Bounds>
    decreases entries.len(),
{
    if entries.len() == 0 {
        None
    } else if entries[0].0 == w {
        Some(entries[0].1)
    } else {
        bounds_lookup(entries.subrange(1, entries.len() as int), w)
    }
}

/// `entries` with the bounds recorded for `w` set to `b`: the first
/// matching entry is replaced, or a new entry is appended.
pub open spec fn bounds_store(entries: Seq<(WindowId, Bounds)>, w: WindowId, b: Bounds) -> Seq<
    (WindowId, Bounds),
>
    decreases entries.len(),
{
    if entries.len() == 0 {
        seq![(w, b)]
    } else if entries[0].0 == w {
        seq![(w, b)] + entries.subrange(1, entries.len() as int)
    } else {
        seq![entries[0]] + bounds_store(entries.subrange(1, entries.len() as int), w, b)
    }
}

/// Looking up a window with no entry answers `None`.
pub proof fn lemma_bounds_lookup_absent(entries: Seq<(WindowId, Bounds)>, w: WindowId)
    requires
        forall|k: int| 0 <= k < entries.len() ==> (#[trigger] entries[k]).0 != w,
    ensures
        bounds_lookup(entries, w) is None,
    decreases entries.len(),
{
    if entries.len() > 0 {
        lemma_bounds_lookup_absent(entries.subrange(1, entries.len() as int), w);
    }
}

/// Looking up a window whose first entry stands at `i` answers that entry.
pub proof fn lemma_bounds_lookup_at_index(entries: Seq<(WindowId, Bounds)>, w: WindowId, i: int)
    requires
        0 <= i < entries.len(),
        entries[i].0 == w,
        forall|k: int| 0 <= k < i ==> (#[trigger] entries[k]).0 != w,
    ensures
        bounds_lookup(entries, w) == Some(entries[i].1),
    decreases entries.len(),
{
    if i > 0 {
        lemma_bounds_lookup_at_index(entries.subrange(1, entries.len() as int), w, i - 1);
    }
}

/// Storing for a window whose first entry stands at `i` replaces that entry.
pub proof fn lemma_bounds_store_at_index(
    entries: Seq<(WindowId, Bounds)>,
    w: WindowId,
    b: Bounds,
    i: int,
)
    requires
        0 <= i < entries.len(),
        entries[i].0 == w,
        forall|k: int| 0 <= k < i ==> (#[trigger] entries[k]).0 != w,
    ensures
        bounds_store(entries, w, b) == entries.update(i, (w, b)),
    decreases entries.len(),
{
    let rest = entries.subrange(1, entries.len() as int);
    if i == 0 {
        assert(seq![(w, b)] + rest =~= entries.update(0, (w, b)));
    } else {
        lemma_bounds_store_at_index(rest, w, b, i - 1);
        assert(seq![entries[0]] + rest.update(i - 1, (w, b)) =~= entries.update(i, (w, b)));
    }
}

/// Storing for a window with no entry appends a new entry.
pub proof fn lemma_bounds_store_absent(entries: Seq<(WindowId, Bounds)>, w: WindowId, b: Bounds)
    requires
        forall|k: int| 0 <= k < entries.len() ==> (#[trigger] entries[k]).0 != w,
    ensures
        bounds_store(entries, w, b) == entries.push((w, b)),
    decreases entries.len(),
{
    let rest = entries.subrange(1, entries.len() as int);
    if entries.len() == 0 {
        assert(seq![(w, b)] =~= entries.push((w, b)));
    } else {
        lemma_bounds_store_absent(rest, w, b);
        assert(seq![entries[0]] + rest.push((w, b)) =~= entries.push((w, b)));
    }
}

/// After storing, looking the same window up answers the stored bounds.
pub proof fn lemma_bounds_store_lookup(entries: Seq<(WindowId, Bounds)>, w: WindowId, b: Bounds)
    ensures
        bounds_lookup(bounds_store(entries, w, b), w) == Some(b),
    decreases entries.len(),
{
    if entries.len() != 0 && entries[0].0 != w {
        lemma_bounds_store_lookup(entries.subrange(1, entries.len() as int), w, b);
        let stored = bounds_store(entries, w, b);
        assert(stored.subrange(1, stored.len() as int) =~= bounds_store(
            entries.subrange(1, entries.len() as int),
            w,
            b,
        ));
    }
}

/// Window created: emit `Created` and refresh the window-id snapshot.
pub open spec fn created_step(
    m: InterpreterModel,
    window: WindowId,
    snapshot: Seq<WindowId>,
) -> StepResult {
    StepResult {
        state: InterpreterModel {
            previous_ids: m.current_ids,
            current_ids: dedup_ids(snapshot),
            ..m
        },
        out: seq![avail(window, Event::Created)],
        recognized: true,
    }
}

/// The `Closed` emissions for every id in `before` that is absent from
/// `now`, in the order of `before`.
pub open spec fn closed_out(before: Seq<WindowId>, now: Seq<WindowId>) -> Seq<
    MaybeWindowAvailable,
>
    decreases before.len(),
{
    if before.len() == 0 {
        Seq::empty()
    } else {
        let rest = closed_out(before.drop_last(), now);
        if !now.contains(before.last()) {
            rest.push(closed_emission(before.last()))
        } else {
            rest
        }
    }
}

/// Element destroyed: refresh the snapshot, then emit `Closed` for every id
/// known before and absent now, in the order of the old snapshot.  The
/// destroyed element itself may already be invalid, so nothing is read from
/// it: destruction is inferred purely from the snapshot difference.
pub open spec fn destroyed_step(m: InterpreterModel, snapshot: Seq<WindowId>) -> StepResult {
    let now = dedup_ids(snapshot);
    StepResult {
        state: InterpreterModel { previous_ids: m.current_ids, current_ids: now, ..m },
        out: closed_out(m.current_ids, now),
        recognized: true,
    }
}

/// Window moved (unambiguous element-level signal): direct passthrough.
pub open spec fn moved_step(m: InterpreterModel, window: WindowId) -> StepResult {
    StepResult { state: m, out: seq![avail(window, Event::Moved)], recognized: true }
}

/// Window resized (unambiguous element-level signal): direct passthrough.
pub open spec fn resized_step(m: InterpreterModel, window: WindowId) -> StepResult {
    StepResult { state: m, out: seq![avail(window, Event::Resized)], recognized: true }
}

/// The emissions of an ambiguous bounds-change signal: `Moved` exactly when
/// the top-left corner changed, then `Resized` exactly when the extent
/// changed, and nothing at all on the first observation for the window.
pub open spec fn bounds_change_out(
    recorded: Option<Bounds>,
    window: WindowId,
    b: Bounds,
) -> Seq<MaybeWindowAvailable> {
    match recorded {
        None => Seq::empty(),
        Some(old_b) => (if !old_b.same_origin(b) {
            seq![avail(window, Event::Moved)]
        } else {
            Seq::empty()
        }) + (if !old_b.same_extent(b) {
            seq![avail(window, Event::Resized)]
        } else {
            Seq::empty()
        }),
    }
}

/// Ambiguous move-or-resize signal: compare against the last recorded
/// bounds for this window, emit `Moved` and/or `Resized` accordingly
/// (`Moved` first), and record the new bounds.
pub open spec fn bounds_changed_step(m: InterpreterModel, window: WindowId, b: Bounds) -> StepResult {
    StepResult {
        state: InterpreterModel { bounds: bounds_store(m.bounds, window, b), ..m },
        out: bounds_change_out(bounds_lookup(m.bounds, window), window, b),
        recognized: true,
    }
}

/// `Foregrounded` for every listed window, in order.
pub open spec fn foregrounded_all(ws: Seq<WindowId>) -> Seq<MaybeWindowAvailable>
    decreases ws.len(),
{
    if ws.len() == 0 {
        Seq::empty()
    } else {
        foregrounded_all(ws.drop_last()).push(avail(ws.last(), Event::Foregrounded))
    }
}

/// `Backgrounded` for every listed window other than `except`, in order.
pub open spec fn backgrounded_others(ws: Seq<WindowId>, except: WindowId) -> Seq<
    MaybeWindowAvailable,
>
    decreases ws.len(),
{
    if ws.len() == 0 {
        Seq::empty()
    } else {
        let rest = backgrounded_others(ws.drop_last(), except);
        if ws.last() != except {
            rest.push(avail(ws.last(), Event::Backgrounded))
        } else {
            rest
        }
    }
}

/// The focus-handover emissions when `next` becomes the focused window:
/// `Unfocused` for the previously tracked window when it differs, then
/// `Focused(next)`.
pub open spec fn focus_handover(prev: Option<WindowId>, next: WindowId) -> Seq<
    MaybeWindowAvailable,
> {
    (match prev {
        Some(old_w) => if old_w != next {
            seq![avail(old_w, Event::Unfocused)]
        } else {
            Seq::empty()
        },
        None => Seq::empty(),
    }) + seq![avail(next, Event::Focused)]
}

/// Application activated: `Foregrounded` for every window of the
/// application; then, when the application reports a focused window, the
/// focus handover (`Unfocused` of the old window when it differs, then
/// `Focused` of the new one, which is emitted regardless and becomes the
/// tracked focus).
pub open spec fn activated_step(
    m: InterpreterModel,
    ws: Seq<WindowId>,
    focused: Option<WindowId>,
) -> StepResult {
    match focused {
        None => StepResult { state: m, out: foregrounded_all(ws), recognized: true },
        Some(next) => StepResult {
            state: InterpreterModel { prev_focused: Some(next), ..m },
            out: foregrounded_all(ws) + focus_handover(m.prev_focused, next),
            recognized: true,
        },
    }
}

/// Application deactivated, one window at a time: the tracked focused
/// window is unfocused first (`Unfocused` before `Backgrounded`, mirroring
/// the activation order) and the tracking is cleared; every window gets
/// `Backgrounded`.  Answers the focus tracked after the walk and the
/// emissions in order.
pub open spec fn deactivated_walk(prev: Option<WindowId>, ws: Seq<WindowId>) -> (
    Option<WindowId>,
    Seq<MaybeWindowAvailable>,
)
    decreases ws.len(),
{
    if ws.len() == 0 {
        (prev, Seq::empty())
    } else {
        let w = ws[0];
        let hit = prev == Some(w);
        let head: Seq<MaybeWindowAvailable> = if hit {
            seq![avail(w, Event::Unfocused), avail(w, Event::Backgrounded)]
        } else {
            seq![avail(w, Event::Backgrounded)]
        };
        let rest = deactivated_walk(
            if hit {
                None
            } else {
                prev
            },
            ws.subrange(1, ws.len() as int),
        );
        (rest.0, head + rest.1)
    }
}

/// Application deactivated: see [`deactivated_walk`].
pub open spec fn deactivated_step(m: InterpreterModel, ws: Seq<WindowId>) -> StepResult {
    let walk = deactivated_walk(m.prev_focused, ws);
    StepResult {
        state: InterpreterModel { prev_focused: walk.0, ..m },
        out: walk.1,
        recognized: true,
    }
}

/// Focused window changed: `Backgrounded` for every other window of the
/// application, `Foregrounded` for the new window, and — unless this is a
/// repeat notification for the already tracked window — the focus handover.
/// The new window becomes the tracked focus.
pub open spec fn focus_changed_step(
    m: InterpreterModel,
    window: WindowId,
    ws: Seq<WindowId>,
) -> StepResult {
    let handover: Seq<MaybeWindowAvailable> = if m.prev_focused == Some(window) {
        Seq::empty()
    } else {
        focus_handover(m.prev_focused, window)
    };
    StepResult {
        state: InterpreterModel { prev_focused: Some(window), ..m },
        out: backgrounded_others(ws, window) + seq![avail(window, Event::Foregrounded)] + handover,
        recognized: true,
    }
}

/// Window miniaturized: `Hidden`; and when it was the tracked focused
/// window, `Unfocused` then `Backgrounded`, and the tracking is cleared.
pub open spec fn miniaturized_step(m: InterpreterModel, window: WindowId) -> StepResult {
    let hit = m.prev_focused == Some(window);
    StepResult {
        state: InterpreterModel {
            prev_focused: if hit {
                None
            } else {
                m.prev_focused
            },
            ..m
        },
        out: seq![avail(window, Event::Hidden)] + (if hit {
            seq![avail(window, Event::Unfocused), avail(window, Event::Backgrounded)]
        } else {
            Seq::empty()
        }),
        recognized: true,
    }
}

/// Window deminiaturized: `Showed`, `Foregrounded`, and the window is
/// re-established as the tracked focus with `Focused`.
pub open spec fn deminiaturized_step(m: InterpreterModel, window: WindowId) -> StepResult {
    StepResult {
        state: InterpreterModel { prev_focused: Some(window), ..m },
        out: seq![
            avail(window, Event::Showed),
            avail(window, Event::Foregrounded),
            avail(window, Event::Focused),
        ],
        recognized: true,
    }
}

/// An unrecognized notification: no event, no state change, and the caller
/// is told nothing was dispatched.
pub open spec fn unrecognized_step(m: InterpreterModel) -> StepResult {
    StepResult { state: m, out: Seq::empty(), recognized: false }
}

} // verus!
