//! Session-wide laws of the event interpreter.
//!
//! [`run`] folds a whole notification sequence over the step model of
//! [`crate::interpreter`]; the proofs here state what holds of every such
//! run, from a fresh session, for every filter: delivered events pass the
//! filter, focus tracking is well-formed (`Unfocused` only ever follows an
//! unrevoked `Focused` of the same window), a first bounds observation
//! never invents an event, and an ambiguous bounds change is disambiguated
//! into `Moved` and `Resized` in that order.

use vstd::prelude::*;

use crate::interpreter::step;
use crate::interpreter::Notification;
use crate::semantics::avail;
use crate::semantics::bounds_change_out;
use crate::semantics::backgrounded_others;
use crate::semantics::bounds_lookup;
use crate::semantics::closed_emission;
use crate::semantics::closed_out;
use crate::semantics::dedup_ids;
use crate::semantics::deactivated_walk;
use crate::semantics::destroyed_step;
use crate::semantics::bounds_changed_step;
use crate::semantics::lemma_bounds_store_lookup;
use crate::semantics::lemma_dedup_ids_contains;
use crate::semantics::deliver;
use crate::semantics::focus_handover;
use crate::semantics::foregrounded_all;
use crate::semantics::init_model;
use crate::semantics::lemma_deliver_allowed;
use crate::semantics::InterpreterModel;
use crate::window::Bounds;
use crate::window::WindowId;
use crate::Event;
use crate::EventFilter;
use crate::MaybeWindowAvailable;

verus! {

/// A whole session's worth of interpretation: the final state and the
/// concatenation of every step's emissions, in order.
#[verifier::ext_equal]
pub ghost struct RunResult {
    /// The interpreter state after the whole sequence.
    pub state: InterpreterModel,
    /// Every emission of the run, in order, before filtering.
    pub trace: Seq<MaybeWindowAvailable>,
}

/// Folds `ns` over the step model, starting from `m0`.
pub open spec fn run(m0: InterpreterModel, ns: Seq<Notification>) -> RunResult
    decreases ns.len(),
{
    if ns.len() == 0 {
        RunResult { state: m0, trace: Seq::empty() }
    } else {
        let r = run(m0, ns.drop_last());
        let s = step(r.state, ns.last());
        RunResult { state: s.state, trace: r.trace + s.out }
    }
}

/// Delivery distributes over concatenation: filtering a whole trace equals
/// concatenating the filtered pieces, so filtering step by step — as the
/// executable interpreter does — delivers exactly the filtered trace.
pub proof fn lemma_deliver_distributes(
    filter: EventFilter,
    a: Seq<MaybeWindowAvailable>,
    b: Seq<MaybeWindowAvailable>,
)
    ensures
        deliver(filter, a + b) == deliver(filter, a) + deliver(filter, b),
    decreases b.len(),
{
    if b.len() == 0 {
        assert(a + b =~= a);
        assert(deliver(filter, a) + b =~= deliver(filter, a));
    } else {
        lemma_deliver_distributes(filter, a, b.drop_last());
        assert((a + b).drop_last() =~= a + b.drop_last());
        assert((a + b).last() == b.last());
        if filter.allows(b.last().event()) {
            assert(deliver(filter, a) + deliver(filter, b) =~= (deliver(filter, a) + deliver(
                filter,
                b.drop_last(),
            )).push(b.last()));
        }
    }
}

/// No notification changes the session filter: the filter a run delivers
/// against is the one the session started with.
pub proof fn lemma_run_keeps_filter(m0: InterpreterModel, ns: Seq<Notification>)
    ensures
        run(m0, ns).state.filter == m0.filter,
    decreases ns.len(),
{
    if ns.len() > 0 {
        lemma_run_keeps_filter(m0, ns.drop_last());
    }
}

/// For every filter and every notification sequence, every event that
/// reaches the consumer passes the filter.
pub proof fn lemma_delivered_events_pass_filter(filter: EventFilter, ns: Seq<Notification>)
    ensures
        forall|i: int|
            0 <= i < deliver(filter, run(init_model(filter), ns).trace).len() ==> filter.allows(
                #[trigger] deliver(filter, run(init_model(filter), ns).trace)[i].event(),
            ),
{
    lemma_deliver_allowed(filter, run(init_model(filter), ns).trace);
}

/// First-sight rule: the very first bounds observation for a window never
/// produces `Moved` or `Resized` by itself — it only records the bounds.
pub proof fn lemma_first_bounds_observation_is_silent(
    m: InterpreterModel,
    window: WindowId,
    b: Bounds,
)
    requires
        bounds_lookup(m.bounds, window) is None,
    ensures
        bounds_change_out(bounds_lookup(m.bounds, window), window, b) == Seq::<
            MaybeWindowAvailable,
        >::empty(),
{
}

/// Bounds disambiguation: against recorded bounds, one ambiguous signal
/// emits `Moved` exactly when the top-left corner changed and `Resized`
/// exactly when the extent changed, with `Moved` ordered first.
pub proof fn lemma_bounds_disambiguation(old_b: Bounds, window: WindowId, b: Bounds)
    ensures
        bounds_change_out(Some(old_b), window, b) == (if !old_b.same_origin(b) {
            seq![avail(window, Event::Moved)]
        } else {
            Seq::<MaybeWindowAvailable>::empty()
        }) + (if !old_b.same_extent(b) {
            seq![avail(window, Event::Resized)]
        } else {
            Seq::<MaybeWindowAvailable>::empty()
        }),
        old_b.same_origin(b) && old_b.same_extent(b) ==> bounds_change_out(Some(old_b), window, b)
            =~= Seq::<MaybeWindowAvailable>::empty(),
{
    if old_b.same_origin(b) && old_b.same_extent(b) {
        assert(bounds_change_out(Some(old_b), window, b) =~= Seq::<
            MaybeWindowAvailable,
        >::empty());
    }
}

/// Closed-window detection emits each vanished id exactly once: from a
/// duplicate-free old snapshot, the `Closed` emissions are themselves
/// duplicate-free, and an id is reported closed exactly when it was known
/// before and is absent now.
pub proof fn lemma_closed_out_exactly_once(before: Seq<WindowId>, now: Seq<WindowId>)
    requires
        before.no_duplicates(),
    ensures
        closed_out(before, now).no_duplicates(),
        forall|id: WindowId|
            closed_out(before, now).contains(closed_emission(id)) <==> (before.contains(id)
                && !now.contains(id)),
    decreases before.len(),
{
    broadcast use vstd::seq_lib::group_seq_properties;

    if before.len() > 0 {
        let head = before.drop_last();
        let last = before.last();
        lemma_closed_out_exactly_once(head, now);
        assert forall|id: WindowId| #[trigger]
            before.contains(id) implies head.contains(id) || last == id by {
            let i = choose|i: int| 0 <= i < before.len() && before[i] == id;
            if i < before.len() - 1 {
                assert(head[i] == id);
            }
        }
        assert forall|id: WindowId| head.contains(id) || last == id implies #[trigger]
            before.contains(id) by {
            if head.contains(id) {
                let i = choose|i: int| 0 <= i < head.len() && head[i] == id;
                assert(before[i] == id);
            } else {
                assert(before[before.len() - 1] == id);
            }
        }
        if !now.contains(last) {
            assert(!head.contains(last));
            assert(!closed_out(head, now).contains(closed_emission(last)));
        }
    }
}

/// Closed-window detection at the step level: with a well-formed state, a
/// destruction notification emits `Closed{id}` exactly once for each id
/// known before and absent from the fresh snapshot, and for no other id.
pub proof fn lemma_destroyed_step_closed_once(m: InterpreterModel, snapshot: Seq<WindowId>)
    requires
        m.current_ids.no_duplicates(),
    ensures
        destroyed_step(m, snapshot).out.no_duplicates(),
        forall|id: WindowId|
            destroyed_step(m, snapshot).out.contains(closed_emission(id)) <==> (
            m.current_ids.contains(id) && !snapshot.contains(id)),
{
    lemma_closed_out_exactly_once(m.current_ids, dedup_ids(snapshot));
    assert forall|id: WindowId|
        dedup_ids(snapshot).contains(id) == snapshot.contains(id) by {
        lemma_dedup_ids_contains(snapshot, id);
    }
}

/// An ambiguous bounds signal records what it observed: afterwards, the
/// bounds on record for the window are exactly the observed ones, so the
/// next signal for the same window is compared against them.
pub proof fn lemma_bounds_changed_records(m: InterpreterModel, window: WindowId, b: Bounds)
    ensures
        bounds_lookup(bounds_changed_step(m, window, b).state.bounds, window) == Some(b),
{
    lemma_bounds_store_lookup(m.bounds, window, b);
}

/// Whether `e` is an `Unfocused` emission with its window attached.
pub open spec fn is_unfocus(e: MaybeWindowAvailable) -> bool {
    e matches MaybeWindowAvailable::Available { event: Event::Unfocused, .. }
}

/// The window an available emission concerns.
pub open spec fn emission_window(e: MaybeWindowAvailable) -> WindowId {
    match e {
        MaybeWindowAvailable::Available { window, .. } => window.id,
        MaybeWindowAvailable::NotAvailable { .. } => arbitrary(),
    }
}

/// Whether `tr` holds a `Focused(w)` with no later `Unfocused(w)`: the
/// window is focused at the end of the trace.
pub open spec fn open_focus(tr: Seq<MaybeWindowAvailable>, w: WindowId) -> bool {
    exists|j: int|
        #![trigger tr[j]]
        0 <= j < tr.len() && tr[j] == avail(w, Event::Focused) && (forall|k: int|
            #![trigger tr[k]]
            j < k < tr.len() ==> tr[k] != avail(w, Event::Unfocused))
}

/// The focus law of a trace: every `Unfocused(W)` is preceded by a
/// `Focused(W)` with no intervening `Unfocused(W)`.
pub open spec fn focus_wf(tr: Seq<MaybeWindowAvailable>) -> bool {
    forall|i: int|
        #![trigger tr[i]]
        0 <= i < tr.len() && is_unfocus(tr[i]) ==> open_focus(tr.take(i), emission_window(tr[i]))
}

/// The focus invariant carried through a run: the trace obeys the focus
/// law, and whatever window the state tracks as focused is focused at the
/// end of the trace.
pub open spec fn focus_inv(m: InterpreterModel, tr: Seq<MaybeWindowAvailable>) -> bool {
    focus_wf(tr) && (m.prev_focused matches Some(w) ==> open_focus(tr, w))
}

/// A window focused at the end of `tr` stays focused after appending
/// emissions none of which unfocus it.
proof fn lemma_open_focus_extend(
    tr: Seq<MaybeWindowAvailable>,
    ext: Seq<MaybeWindowAvailable>,
    w: WindowId,
)
    requires
        open_focus(tr, w),
        forall|k: int| 0 <= k < ext.len() ==> #[trigger] ext[k] != avail(w, Event::Unfocused),
    ensures
        open_focus(tr + ext, w),
{
    let j = choose|j: int|
        #![trigger tr[j]]
        0 <= j < tr.len() && tr[j] == avail(w, Event::Focused) && (forall|k: int|
            #![trigger tr[k]]
            j < k < tr.len() ==> tr[k] != avail(w, Event::Unfocused));
    let cat = tr + ext;
    assert(cat[j] == avail(w, Event::Focused));
    assert forall|k: int| j < k < cat.len() implies #[trigger] cat[k] != avail(
        w,
        Event::Unfocused,
    ) by {
        if k < tr.len() {
            assert(cat[k] == tr[k]);
        } else {
            assert(cat[k] == ext[k - tr.len()]);
        }
    }
}

/// A window focused at the end of `ext` is focused at the end of `tr + ext`.
proof fn lemma_open_focus_in_ext(
    tr: Seq<MaybeWindowAvailable>,
    ext: Seq<MaybeWindowAvailable>,
    w: WindowId,
)
    requires
        open_focus(ext, w),
    ensures
        open_focus(tr + ext, w),
{
    let j = choose|j: int|
        #![trigger ext[j]]
        0 <= j < ext.len() && ext[j] == avail(w, Event::Focused) && (forall|k: int|
            #![trigger ext[k]]
            j < k < ext.len() ==> ext[k] != avail(w, Event::Unfocused));
    let cat = tr + ext;
    assert(cat[tr.len() + j] == avail(w, Event::Focused));
    assert forall|k: int| tr.len() + j < k < cat.len() implies #[trigger] cat[k] != avail(
        w,
        Event::Unfocused,
    ) by {
        assert(cat[k] == ext[k - tr.len()]);
    }
}

/// The focus law extends across an appended segment when every `Unfocused`
/// within the segment is of a window focused where it stands.
proof fn lemma_focus_wf_append(tr: Seq<MaybeWindowAvailable>, ext: Seq<MaybeWindowAvailable>)
    requires
        focus_wf(tr),
        forall|p: int|
            0 <= p < ext.len() && is_unfocus(#[trigger] ext[p]) ==> open_focus(
                tr + ext.take(p),
                emission_window(ext[p]),
            ),
    ensures
        focus_wf(tr + ext),
{
    let cat = tr + ext;
    assert forall|i: int|
        0 <= i < cat.len() && is_unfocus(#[trigger] cat[i]) implies open_focus(
        cat.take(i),
        emission_window(cat[i]),
    ) by {
        if i < tr.len() {
            assert(cat[i] == tr[i]);
            assert(cat.take(i) =~= tr.take(i));
        } else {
            let p = i - tr.len();
            assert(cat[i] == ext[p]);
            assert(cat.take(i) =~= tr + ext.take(p));
        }
    }
}

/// A quiet segment — one with no `Unfocused` emission — preserves both
/// parts of the focus invariant for an unchanged tracked focus.
proof fn lemma_focus_inv_quiet(
    prev: Option<WindowId>,
    tr: Seq<MaybeWindowAvailable>,
    ext: Seq<MaybeWindowAvailable>,
)
    requires
        focus_wf(tr),
        prev matches Some(w) ==> open_focus(tr, w),
        forall|p: int| 0 <= p < ext.len() ==> !is_unfocus(#[trigger] ext[p]),
    ensures
        focus_wf(tr + ext),
        prev matches Some(w) ==> open_focus(tr + ext, w),
{
    lemma_focus_wf_append(tr, ext);
    if let Some(w) = prev {
        assert forall|k: int| 0 <= k < ext.len() implies #[trigger] ext[k] != avail(
            w,
            Event::Unfocused,
        ) by {
            assert(is_unfocus(avail(w, Event::Unfocused)));
        }
        lemma_open_focus_extend(tr, ext, w);
    }
}

/// Every emission of `closed_out` reports an unavailable window.
proof fn lemma_closed_out_variants(before: Seq<WindowId>, now: Seq<WindowId>)
    ensures
        forall|p: int|
            0 <= p < closed_out(before, now).len() ==> (#[trigger] closed_out(before, now)[p])
                is NotAvailable,
    decreases before.len(),
{
    if before.len() > 0 {
        lemma_closed_out_variants(before.drop_last(), now);
    }
}

/// Every emission of `foregrounded_all` carries `Foregrounded`.
proof fn lemma_foregrounded_all_events(ws: Seq<WindowId>)
    ensures
        forall|p: int|
            0 <= p < foregrounded_all(ws).len() ==> (#[trigger] foregrounded_all(
                ws,
            )[p]).event() == Event::Foregrounded,
    decreases ws.len(),
{
    if ws.len() > 0 {
        lemma_foregrounded_all_events(ws.drop_last());
    }
}

/// Every emission of `backgrounded_others` carries `Backgrounded`.
proof fn lemma_backgrounded_others_events(ws: Seq<WindowId>, except: WindowId)
    ensures
        forall|p: int|
            0 <= p < backgrounded_others(ws, except).len() ==> (#[trigger] backgrounded_others(
                ws,
                except,
            )[p]).event() == Event::Backgrounded,
    decreases ws.len(),
{
    if ws.len() > 0 {
        lemma_backgrounded_others_events(ws.drop_last(), except);
    }
}

/// Walking an application deactivation preserves the focus invariant: the
/// one `Unfocused` it may emit is of the window tracked as focused where
/// it stands, and afterwards that tracking is cleared.
proof fn lemma_deactivated_walk_focus(
    prev: Option<WindowId>,
    ws: Seq<WindowId>,
    tr: Seq<MaybeWindowAvailable>,
)
    requires
        focus_wf(tr),
        prev matches Some(w) ==> open_focus(tr, w),
    ensures
        focus_wf(tr + deactivated_walk(prev, ws).1),
        deactivated_walk(prev, ws).0 matches Some(w) ==> open_focus(
            tr + deactivated_walk(prev, ws).1,
            w,
        ),
    decreases ws.len(),
{
    let walk = deactivated_walk(prev, ws);
    if ws.len() == 0 {
        assert(tr + walk.1 =~= tr);
    } else {
        let w = ws[0];
        let hit = prev == Some(w);
        let head: Seq<MaybeWindowAvailable> = if hit {
            seq![avail(w, Event::Unfocused), avail(w, Event::Backgrounded)]
        } else {
            seq![avail(w, Event::Backgrounded)]
        };
        let prev1: Option<WindowId> = if hit {
            None
        } else {
            prev
        };
        let rest = deactivated_walk(prev1, ws.subrange(1, ws.len() as int));
        if hit {
            assert forall|p: int|
                0 <= p < head.len() && is_unfocus(#[trigger] head[p]) implies open_focus(
                tr + head.take(p),
                emission_window(head[p]),
            ) by {
                assert(p == 0);
                assert(tr + head.take(0) =~= tr);
            }
            lemma_focus_wf_append(tr, head);
        } else {
            assert forall|p: int| 0 <= p < head.len() implies !is_unfocus(
                #[trigger] head[p],
            ) by {
                assert(p == 0);
            }
            lemma_focus_inv_quiet(prev, tr, head);
        }
        lemma_deactivated_walk_focus(prev1, ws.subrange(1, ws.len() as int), tr + head);
        assert(tr + walk.1 =~= (tr + head) + rest.1);
    }
}

/// A focus handover appended after a quiet segment preserves the focus
/// invariant and leaves `next` focused: the `Unfocused` it may emit is of
/// the window focused at that point, and it ends with `Focused(next)`.
proof fn lemma_handover_focus(
    prev: Option<WindowId>,
    next: WindowId,
    tr: Seq<MaybeWindowAvailable>,
)
    requires
        focus_wf(tr),
        prev matches Some(w) ==> open_focus(tr, w),
    ensures
        focus_wf(tr + focus_handover(prev, next)),
        open_focus(tr + focus_handover(prev, next), next),
{
    let ho = focus_handover(prev, next);
    let cat = tr + ho;
    assert forall|p: int|
        0 <= p < ho.len() && is_unfocus(#[trigger] ho[p]) implies open_focus(
        tr + ho.take(p),
        emission_window(ho[p]),
    ) by {
        match prev {
            Some(old_w) => {
                if old_w != next {
                    assert(ho == seq![avail(old_w, Event::Unfocused)] + seq![
                        avail(next, Event::Focused),
                    ]);
                    assert(p == 0);
                    assert(tr + ho.take(0) =~= tr);
                } else {
                    assert(ho[p] == avail(next, Event::Focused));
                }
            },
            None => {
                assert(ho[p] == avail(next, Event::Focused));
            },
        }
    }
    lemma_focus_wf_append(tr, ho);
    assert(cat[cat.len() - 1] == avail(next, Event::Focused));
    assert(open_focus(cat, next));
}

/// One interpreter step preserves the focus invariant.
proof fn lemma_step_preserves_focus_inv(
    m: InterpreterModel,
    tr: Seq<MaybeWindowAvailable>,
    n: Notification,
)
    requires
        focus_inv(m, tr),
    ensures
        focus_inv(step(m, n).state, tr + step(m, n).out),
{
    let sr = step(m, n);
    match n {
        Notification::WindowCreated { window, snapshot } => {
            lemma_focus_inv_quiet(m.prev_focused, tr, sr.out);
        },
        Notification::UiElementDestroyed { snapshot } => {
            lemma_closed_out_variants(m.current_ids, dedup_ids(snapshot@));
            lemma_focus_inv_quiet(m.prev_focused, tr, sr.out);
        },
        Notification::WindowMoved { window } => {
            lemma_focus_inv_quiet(m.prev_focused, tr, sr.out);
        },
        Notification::WindowResized { window } => {
            lemma_focus_inv_quiet(m.prev_focused, tr, sr.out);
        },
        Notification::BoundsChanged { window, bounds } => {
            lemma_focus_inv_quiet(m.prev_focused, tr, sr.out);
        },
        Notification::ApplicationActivated { windows, focused } => {
            let fg = foregrounded_all(windows@);
            lemma_foregrounded_all_events(windows@);
            assert forall|p: int| 0 <= p < fg.len() implies !is_unfocus(#[trigger] fg[p]) by {}
            match focused {
                None => {
                    lemma_focus_inv_quiet(m.prev_focused, tr, sr.out);
                },
                Some(next) => {
                    lemma_focus_inv_quiet(m.prev_focused, tr, fg);
                    lemma_handover_focus(m.prev_focused, next, tr + fg);
                    assert(tr + sr.out =~= (tr + fg) + focus_handover(m.prev_focused, next));
                },
            }
        },
        Notification::ApplicationDeactivated { windows } => {
            lemma_deactivated_walk_focus(m.prev_focused, windows@, tr);
        },
        Notification::FocusedWindowChanged { window, windows } => {
            let bg = backgrounded_others(windows@, window);
            let mid = bg + seq![avail(window, Event::Foregrounded)];
            lemma_backgrounded_others_events(windows@, window);
            assert forall|p: int| 0 <= p < mid.len() implies !is_unfocus(#[trigger] mid[p]) by {
                if p < bg.len() {
                    assert(mid[p] == bg[p]);
                } else {
                    assert(mid[p] == avail(window, Event::Foregrounded));
                }
            }
            lemma_focus_inv_quiet(m.prev_focused, tr, mid);
            if m.prev_focused == Some(window) {
                assert(tr + sr.out =~= tr + mid);
            } else {
                lemma_handover_focus(m.prev_focused, window, tr + mid);
                assert(tr + sr.out =~= (tr + mid) + focus_handover(m.prev_focused, window));
            }
        },
        Notification::WindowMiniaturized { window } => {
            let hit = m.prev_focused == Some(window);
            if hit {
                let ext = seq![avail(window, Event::Hidden)] + seq![
                    avail(window, Event::Unfocused),
                    avail(window, Event::Backgrounded),
                ];
                assert(sr.out == ext);
                assert forall|p: int|
                    0 <= p < ext.len() && is_unfocus(#[trigger] ext[p]) implies open_focus(
                    tr + ext.take(p),
                    emission_window(ext[p]),
                ) by {
                    assert(p == 1);
                    let quiet = ext.take(1);
                    assert forall|k: int| 0 <= k < quiet.len() implies #[trigger] quiet[k]
                        != avail(window, Event::Unfocused) by {
                        assert(quiet[k] == avail(window, Event::Hidden));
                    }
                    lemma_open_focus_extend(tr, quiet, window);
                }
                lemma_focus_wf_append(tr, ext);
            } else {
                assert forall|p: int| 0 <= p < sr.out.len() implies !is_unfocus(
                    #[trigger] sr.out[p],
                ) by {
                    assert(sr.out[p] == avail(window, Event::Hidden));
                }
                lemma_focus_inv_quiet(m.prev_focused, tr, sr.out);
            }
        },
        Notification::WindowDeminiaturized { window } => {
            assert forall|p: int| 0 <= p < sr.out.len() && is_unfocus(
                #[trigger] sr.out[p],
            ) implies open_focus(tr + sr.out.take(p), emission_window(sr.out[p])) by {
                assert(!is_unfocus(sr.out[p]));
            }
            lemma_focus_wf_append(tr, sr.out);
            let cat = tr + sr.out;
            assert(cat[cat.len() - 1] == avail(window, Event::Focused));
            assert(open_focus(cat, window));
        },
        Notification::Unrecognized => {
            assert(tr + sr.out =~= tr);
        },
    }
}

/// The focus invariant holds of every run from a fresh session.
proof fn lemma_run_focus_inv(filter: EventFilter, ns: Seq<Notification>)
    ensures
        focus_inv(run(init_model(filter), ns).state, run(init_model(filter), ns).trace),
    decreases ns.len(),
{
    if ns.len() > 0 {
        lemma_run_focus_inv(filter, ns.drop_last());
        lemma_step_preserves_focus_inv(
            run(init_model(filter), ns.drop_last()).state,
            run(init_model(filter), ns.drop_last()).trace,
            ns.last(),
        );
    }
}

/// Focus invariant: for every filter and every notification sequence from
/// a fresh session, `Unfocused(W)` is only ever emitted after a
/// `Focused(W)` with no intervening `Unfocused(W)` for the same `W`.
pub proof fn lemma_focus_invariant(filter: EventFilter, ns: Seq<Notification>)
    ensures
        focus_wf(run(init_model(filter), ns).trace),
{
    lemma_run_focus_inv(filter, ns);
}

} // verus!
