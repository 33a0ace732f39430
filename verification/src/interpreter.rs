//! The event interpreter: the stateful translator from raw notifications to
//! semantic window events.
//!
//! One interpreter belongs to one observation session and runs on its
//! delivery thread, the sole mutator of its state.  Each native notification
//! reaches it as a [`Notification`]: the notification class plus whatever
//! plain values the native side read for it (the window concerned, a fresh
//! window-id snapshot, the window list of the application, current bounds).
//! The interpreter answers the semantic emissions in dispatch order; every
//! method's contract pins the result to the corresponding row function of
//! [`crate::semantics`].

use vstd::prelude::*;

use crate::semantics::activated_step;
use crate::semantics::avail;
use crate::semantics::backgrounded_others;
use crate::semantics::bounds_change_out;
use crate::semantics::bounds_changed_step;
use crate::semantics::bounds_lookup;
use crate::semantics::bounds_store;
use crate::semantics::closed_emission;
use crate::semantics::closed_out;
use crate::semantics::created_step;
use crate::semantics::deactivated_step;
use crate::semantics::deactivated_walk;
use crate::semantics::dedup_ids;
use crate::semantics::deliver;
use crate::semantics::deminiaturized_step;
use crate::semantics::destroyed_step;
use crate::semantics::focus_changed_step;
use crate::semantics::foregrounded_all;
use crate::semantics::focus_handover;
use crate::semantics::init_model;
use crate::semantics::lemma_bounds_lookup_absent;
use crate::semantics::lemma_bounds_lookup_at_index;
use crate::semantics::lemma_bounds_store_absent;
use crate::semantics::lemma_bounds_store_at_index;
use crate::semantics::lemma_dedup_ids_no_duplicates;
use crate::semantics::miniaturized_step;
use crate::semantics::moved_step;
use crate::semantics::resized_step;
use crate::semantics::unrecognized_step;
use crate::semantics::InterpreterModel;
use crate::semantics::StepResult;
use crate::window::Bounds;
use crate::window::Window;
use crate::window::WindowId;
use crate::Event;
use crate::EventFilter;
use crate::MaybeWindowAvailable;

verus! {

/// One native notification, reduced to plain values.
///
/// The native side queries whatever the notification class needs — the
/// fresh window-id snapshot for created/destroyed, the application's window
/// list for the activation classes, the current bounds for the ambiguous
/// move-or-resize signal — and hands the answers in here, so translation
/// itself is pure.
pub enum Notification {
    /// A window of the application was created.  `snapshot` is the fresh
    /// list of the application's window ids.
    WindowCreated { window: WindowId, snapshot: Vec<WindowId> },
    /// Some element was destroyed; the element may already be invalid, so
    /// only the fresh snapshot is of use.
    UiElementDestroyed { snapshot: Vec<WindowId> },
    /// A window was moved (unambiguous element-level signal).
    WindowMoved { window: WindowId },
    /// A window was resized (unambiguous element-level signal).
    WindowResized { window: WindowId },
    /// One signal for both moving and resizing; `bounds` is the window's
    /// current bounds.
    BoundsChanged { window: WindowId, bounds: Bounds },
    /// The application was activated.  `windows` is its window list and
    /// `focused` its currently focused window, when one could be read.
    ApplicationActivated { windows: Vec<WindowId>, focused: Option<WindowId> },
    /// The application was deactivated; `windows` is its window list.
    ApplicationDeactivated { windows: Vec<WindowId> },
    /// The application's focused window changed to `window`; `windows` is
    /// the application's window list.
    FocusedWindowChanged { window: WindowId, windows: Vec<WindowId> },
    /// A window was miniaturized.
    WindowMiniaturized { window: WindowId },
    /// A window was deminiaturized.
    WindowDeminiaturized { window: WindowId },
    /// A notification of no recognized class.
    Unrecognized,
}

/// The stateful per-session translator from notifications to events.
pub struct EventInterpreter {
    /// The immutable per-session filter.
    pub filter: EventFilter,
    /// The window tracked as focused, if any.
    pub prev_focused: Option<WindowId>,
    /// The most recent window-id snapshot.
    pub current_ids: Vec<WindowId>,
    /// The window-id snapshot before the most recent one.
    pub previous_ids: Vec<WindowId>,
    /// The last recorded bounds per window.
    pub bounds: Vec<(WindowId, Bounds)>,
}

impl View for EventInterpreter {
    type V = InterpreterModel;

    open spec fn view(&self) -> InterpreterModel {
        InterpreterModel {
            filter: self.filter,
            prev_focused: self.prev_focused,
            current_ids: self.current_ids@,
            previous_ids: self.previous_ids@,
            bounds: self.bounds@,
        }
    }
}

/// Whether `ids` holds `w`.
fn ids_contain(ids: &Vec<WindowId>, w: WindowId) -> (r: bool)
    ensures
        r == ids@.contains(w),
{
    let mut i: usize = 0;
    while i < ids.len()
        invariant
            0 <= i <= ids@.len(),
            forall|k: int| 0 <= k < i ==> ids@[k] != w,
        decreases ids@.len() - i,
    {
        if ids[i].raw == w.raw {
            assert(ids@[i as int] == w);
            return true;
        }
        i = i + 1;
    }
    false
}

/// Copies `ids` with every repeated id dropped, keeping first occurrences.
fn dedup_vec(ids: &Vec<WindowId>) -> (r: Vec<WindowId>)
    ensures
        r@ == dedup_ids(ids@),
        r@.no_duplicates(),
{
    let mut out: Vec<WindowId> = Vec::new();
    let mut i: usize = 0;
    assert(ids@.take(0) =~= Seq::<WindowId>::empty());
    while i < ids.len()
        invariant
            0 <= i <= ids@.len(),
            out@ == dedup_ids(ids@.take(i as int)),
        decreases ids@.len() - i,
    {
        let w = ids[i];
        let present = ids_contain(&out, w);
        proof {
            assert(ids@.take(i + 1).drop_last() =~= ids@.take(i as int));
            assert(ids@.take(i + 1).last() == ids@[i as int]);
        }
        if !present {
            out.push(w);
        }
        i = i + 1;
    }
    proof {
        assert(ids@.take(ids@.len() as int) =~= ids@);
        lemma_dedup_ids_no_duplicates(ids@);
    }
    out
}

impl EventInterpreter {
    /// The interpreter's invariant: window-id snapshots hold no duplicates.
    pub open spec fn wf(self) -> bool {
        self.current_ids@.no_duplicates() && self.previous_ids@.no_duplicates()
    }

    /// Creates the interpreter for one session with the given filter.
    pub fn new(filter: EventFilter) -> (r: Self)
        ensures
            r@ == init_model(filter),
            r.wf(),
    {
        let r = EventInterpreter {
            filter,
            prev_focused: None,
            current_ids: Vec::new(),
            previous_ids: Vec::new(),
            bounds: Vec::new(),
        };
        proof {
            assert(r@ =~= init_model(filter));
        }
        r
    }

    /// The index of the first bounds entry for `w`, if any.
    fn find_bounds_index(&self, w: WindowId) -> (r: Option<usize>)
        ensures
            match r {
                Some(i) => 0 <= i < self.bounds@.len() && self.bounds@[i as int].0 == w
                    && forall|k: int| 0 <= k < i ==> (#[trigger] self.bounds@[k]).0 != w,
                None => forall|k: int|
                    0 <= k < self.bounds@.len() ==> (#[trigger] self.bounds@[k]).0 != w,
            },
    {
        let mut i: usize = 0;
        while i < self.bounds.len()
            invariant
                0 <= i <= self.bounds@.len(),
                forall|k: int| 0 <= k < i ==> (#[trigger] self.bounds@[k]).0 != w,
            decreases self.bounds@.len() - i,
        {
            if self.bounds[i].0.raw == w.raw {
                assert(self.bounds@[i as int].0 == w);
                return Some(i);
            }
            i = i + 1;
        }
        None
    }

    /// The last recorded bounds for `w`, if any.
    fn lookup_bounds(&self, w: WindowId) -> (r: Option<Bounds>)
        ensures
            r == bounds_lookup(self@.bounds, w),
    {
        match self.find_bounds_index(w) {
            Some(i) => {
                proof {
                    lemma_bounds_lookup_at_index(self.bounds@, w, i as int);
                }
                Some(self.bounds[i].1)
            },
            None => {
                proof {
                    lemma_bounds_lookup_absent(self.bounds@, w);
                }
                None
            },
        }
    }

    /// Records `b` as the bounds of `w`, replacing any earlier record.
    fn store_bounds(&mut self, w: WindowId, b: Bounds)
        ensures
            final(self)@ == (InterpreterModel {
                bounds: bounds_store(old(self)@.bounds, w, b),
                ..old(self)@
            }),
    {
        match self.find_bounds_index(w) {
            Some(i) => {
                proof {
                    lemma_bounds_store_at_index(self.bounds@, w, b, i as int);
                }
                self.bounds.set(i, (w, b));
            },
            None => {
                proof {
                    lemma_bounds_store_absent(self.bounds@, w, b);
                }
                self.bounds.push((w, b));
            },
        }
        proof {
            assert(self@ =~= (InterpreterModel {
                bounds: bounds_store(old(self)@.bounds, w, b),
                ..old(self)@
            }));
        }
    }

    /// Window moved (unambiguous element-level signal): direct passthrough.
    pub fn on_window_moved(&mut self, window: WindowId) -> (out: Vec<MaybeWindowAvailable>)
        ensures
            final(self)@ == moved_step(old(self)@, window).state,
            out@ == moved_step(old(self)@, window).out,
            final(self).wf() == old(self).wf(),
    {
        let mut out: Vec<MaybeWindowAvailable> = Vec::new();
        out.push(
            MaybeWindowAvailable::Available {
                window: Window { id: window },
                event: Event::Moved,
            },
        );
        proof {
            assert(out@ =~= moved_step(old(self)@, window).out);
        }
        out
    }

    /// Window resized (unambiguous element-level signal): direct passthrough.
    pub fn on_window_resized(&mut self, window: WindowId) -> (out: Vec<MaybeWindowAvailable>)
        ensures
            final(self)@ == resized_step(old(self)@, window).state,
            out@ == resized_step(old(self)@, window).out,
            final(self).wf() == old(self).wf(),
    {
        let mut out: Vec<MaybeWindowAvailable> = Vec::new();
        out.push(
            MaybeWindowAvailable::Available {
                window: Window { id: window },
                event: Event::Resized,
            },
        );
        proof {
            assert(out@ =~= resized_step(old(self)@, window).out);
        }
        out
    }

    /// Replaces the window-id snapshot: the current one becomes the previous
    /// one, and `snapshot`, deduplicated, becomes the current one.
    fn refresh_window_ids_state(&mut self, snapshot: &Vec<WindowId>)
        ensures
            final(self)@ == (InterpreterModel {
                previous_ids: old(self)@.current_ids,
                current_ids: dedup_ids(snapshot@),
                ..old(self)@
            }),
            old(self).wf() ==> final(self).wf(),
    {
        let fresh = dedup_vec(snapshot);
        core::mem::swap(&mut self.previous_ids, &mut self.current_ids);
        self.current_ids = fresh;
        proof {
            assert(self@ =~= (InterpreterModel {
                previous_ids: old(self)@.current_ids,
                current_ids: dedup_ids(snapshot@),
                ..old(self)@
            }));
        }
    }

    /// Window created: emit `Created` and refresh the window-id snapshot.
    pub fn on_window_created(&mut self, window: WindowId, snapshot: &Vec<WindowId>) -> (out: Vec<
        MaybeWindowAvailable,
    >)
        ensures
            final(self)@ == created_step(old(self)@, window, snapshot@).state,
            out@ == created_step(old(self)@, window, snapshot@).out,
            old(self).wf() ==> final(self).wf(),
    {
        self.refresh_window_ids_state(snapshot);
        let mut out: Vec<MaybeWindowAvailable> = Vec::new();
        out.push(
            MaybeWindowAvailable::Available {
                window: Window { id: window },
                event: Event::Created,
            },
        );
        proof {
            assert(out@ =~= created_step(old(self)@, window, snapshot@).out);
            assert(self@ =~= created_step(old(self)@, window, snapshot@).state);
        }
        out
    }

    /// Element destroyed: refresh the snapshot, then emit `Closed` for every
    /// id known before and absent now, in the order of the old snapshot.
    pub fn on_ui_element_destroyed(&mut self, snapshot: &Vec<WindowId>) -> (out: Vec<
        MaybeWindowAvailable,
    >)
        ensures
            final(self)@ == destroyed_step(old(self)@, snapshot@).state,
            out@ == destroyed_step(old(self)@, snapshot@).out,
            old(self).wf() ==> final(self).wf(),
    {
        self.refresh_window_ids_state(snapshot);
        let ghost now = dedup_ids(snapshot@);
        let ghost gone = old(self)@.current_ids;
        let mut out: Vec<MaybeWindowAvailable> = Vec::new();
        let mut i: usize = 0;
        proof {
            assert(gone.take(0) =~= Seq::<WindowId>::empty());
        }
        while i < self.previous_ids.len()
            invariant
                0 <= i <= gone.len(),
                self.previous_ids@ == gone,
                self.current_ids@ == now,
                self@ == destroyed_step(old(self)@, snapshot@).state,
                out@ == closed_out(gone.take(i as int), now),
            decreases gone.len() - i,
        {
            let id = self.previous_ids[i];
            let present = ids_contain(&self.current_ids, id);
            proof {
                assert(gone.take(i + 1).drop_last() =~= gone.take(i as int));
                assert(gone.take(i + 1).last() == gone[i as int]);
            }
            if !present {
                out.push(
                    MaybeWindowAvailable::NotAvailable { event: Event::Closed { window_id: id } },
                );
            }
            proof {
                assert(out@ == closed_out(gone.take(i + 1), now));
            }
            i = i + 1;
        }
        proof {
            assert(gone.take(gone.len() as int) =~= gone);
            assert(out@ == destroyed_step(old(self)@, snapshot@).out);
        }
        out
    }

    /// The ambiguous move-or-resize signal: compares `bounds` against the
    /// last recorded bounds for this window, emits `Moved` and/or `Resized`
    /// accordingly (`Moved` first, by fixed order), records the new bounds.
    /// The very first observation for a window records and emits nothing.
    pub fn on_bounds_changed(&mut self, window: WindowId, bounds: Bounds) -> (out: Vec<
        MaybeWindowAvailable,
    >)
        ensures
            final(self)@ == bounds_changed_step(old(self)@, window, bounds).state,
            out@ == bounds_changed_step(old(self)@, window, bounds).out,
            final(self).wf() == old(self).wf(),
    {
        let recorded = self.lookup_bounds(window);
        let mut out: Vec<MaybeWindowAvailable> = Vec::new();
        if let Some(old_b) = recorded {
            if old_b.x != bounds.x || old_b.y != bounds.y {
                out.push(
                    MaybeWindowAvailable::Available {
                        window: Window { id: window },
                        event: Event::Moved,
                    },
                );
            }
            if old_b.width != bounds.width || old_b.height != bounds.height {
                out.push(
                    MaybeWindowAvailable::Available {
                        window: Window { id: window },
                        event: Event::Resized,
                    },
                );
            }
        }
        self.store_bounds(window, bounds);
        proof {
            assert(out@ =~= bounds_change_out(
                bounds_lookup(old(self)@.bounds, window),
                window,
                bounds,
            ));
            assert(self@ =~= bounds_changed_step(old(self)@, window, bounds).state);
        }
        out
    }

    /// Application activated: `Foregrounded` for every window; then, when
    /// the application reports a focused window, the focus handover.
    pub fn on_application_activated(
        &mut self,
        windows: &Vec<WindowId>,
        focused: Option<WindowId>,
    ) -> (out: Vec<MaybeWindowAvailable>)
        ensures
            final(self)@ == activated_step(old(self)@, windows@, focused).state,
            out@ == activated_step(old(self)@, windows@, focused).out,
            final(self).wf() == old(self).wf(),
    {
        let ghost wsv = windows@;
        let mut out: Vec<MaybeWindowAvailable> = Vec::new();
        let mut i: usize = 0;
        proof {
            assert(wsv.take(0) =~= Seq::<WindowId>::empty());
        }
        while i < windows.len()
            invariant
                0 <= i <= wsv.len(),
                windows@ == wsv,
                out@ == foregrounded_all(wsv.take(i as int)),
            decreases wsv.len() - i,
        {
            let w = windows[i];
            out.push(
                MaybeWindowAvailable::Available {
                    window: Window { id: w },
                    event: Event::Foregrounded,
                },
            );
            proof {
                assert(wsv.take(i + 1).drop_last() =~= wsv.take(i as int));
                assert(wsv.take(i + 1).last() == wsv[i as int]);
                assert(out@ == foregrounded_all(wsv.take(i + 1)));
            }
            i = i + 1;
        }
        proof {
            assert(wsv.take(wsv.len() as int) =~= wsv);
        }
        if let Some(next) = focused {
            let emit_unfocus: Option<WindowId> = match self.prev_focused {
                Some(old_w) => if old_w == next {
                    None
                } else {
                    Some(old_w)
                },
                None => None,
            };
            if let Some(old_w) = emit_unfocus {
                out.push(
                    MaybeWindowAvailable::Available {
                        window: Window { id: old_w },
                        event: Event::Unfocused,
                    },
                );
            }
            out.push(
                MaybeWindowAvailable::Available {
                    window: Window { id: next },
                    event: Event::Focused,
                },
            );
            self.prev_focused = Some(next);
            proof {
                assert(out@ =~= foregrounded_all(wsv) + focus_handover(
                    old(self)@.prev_focused,
                    next,
                ));
                assert(self@ =~= activated_step(old(self)@, wsv, focused).state);
            }
        } else {
            proof {
                assert(self@ =~= activated_step(old(self)@, wsv, focused).state);
            }
        }
        out
    }

    /// Application deactivated, one window at a time: the tracked focused
    /// window gets `Unfocused` before its `Backgrounded` and the tracking is
    /// cleared; every window gets `Backgrounded`.
    pub fn on_application_deactivated(&mut self, windows: &Vec<WindowId>) -> (out: Vec<
        MaybeWindowAvailable,
    >)
        ensures
            final(self)@ == deactivated_step(old(self)@, windows@).state,
            out@ == deactivated_step(old(self)@, windows@).out,
            final(self).wf() == old(self).wf(),
    {
        let ghost wsv = windows@;
        let ghost prev0 = old(self)@.prev_focused;
        let mut out: Vec<MaybeWindowAvailable> = Vec::new();
        let mut i: usize = 0;
        proof {
            assert(wsv.skip(0) =~= wsv);
            assert(out@ + deactivated_walk(prev0, wsv).1 =~= deactivated_walk(prev0, wsv).1);
        }
        while i < windows.len()
            invariant
                0 <= i <= wsv.len(),
                windows@ == wsv,
                self.filter == old(self).filter,
                self.current_ids@ == old(self).current_ids@,
                self.previous_ids@ == old(self).previous_ids@,
                self.bounds@ == old(self).bounds@,
                deactivated_walk(prev0, wsv).0 == deactivated_walk(
                    self.prev_focused,
                    wsv.skip(i as int),
                ).0,
                deactivated_walk(prev0, wsv).1 == out@ + deactivated_walk(
                    self.prev_focused,
                    wsv.skip(i as int),
                ).1,
            decreases wsv.len() - i,
        {
            let w = windows[i];
            let ghost cur_prev = self.prev_focused;
            let ghost out0 = out@;
            proof {
                assert(wsv.skip(i as int)[0] == wsv[i as int]);
                assert(wsv.skip(i as int).subrange(1, wsv.skip(i as int).len() as int) =~= wsv.skip(
                    i + 1,
                ));
            }
            let hit: bool = match self.prev_focused {
                Some(p) => p == w,
                None => false,
            };
            if hit {
                out.push(
                    MaybeWindowAvailable::Available {
                        window: Window { id: w },
                        event: Event::Unfocused,
                    },
                );
                out.push(
                    MaybeWindowAvailable::Available {
                        window: Window { id: w },
                        event: Event::Backgrounded,
                    },
                );
                self.prev_focused = None;
            } else {
                out.push(
                    MaybeWindowAvailable::Available {
                        window: Window { id: w },
                        event: Event::Backgrounded,
                    },
                );
            }
            proof {
                let head_full: Seq<MaybeWindowAvailable> = if cur_prev == Some(w) {
                    seq![avail(w, Event::Unfocused), avail(w, Event::Backgrounded)]
                } else {
                    seq![avail(w, Event::Backgrounded)]
                };
                assert(deactivated_walk(cur_prev, wsv.skip(i as int)).1 == head_full
                    + deactivated_walk(self.prev_focused, wsv.skip(i + 1)).1);
                assert((out@ + deactivated_walk(self.prev_focused, wsv.skip(i + 1)).1) =~= (out0
                    + (head_full + deactivated_walk(self.prev_focused, wsv.skip(i + 1)).1)));
            }
            i = i + 1;
        }
        proof {
            assert(wsv.skip(wsv.len() as int) =~= Seq::<WindowId>::empty());
            assert(out@ + deactivated_walk(self.prev_focused, wsv.skip(wsv.len() as int)).1
                =~= out@);
            assert(self@ =~= deactivated_step(old(self)@, wsv).state);
        }
        out
    }

    /// Focused window changed: `Backgrounded` for every other window,
    /// `Foregrounded` for the new window, and — unless this repeats the
    /// already tracked focus — the focus handover.
    pub fn on_focused_window_changed(&mut self, window: WindowId, windows: &Vec<WindowId>) -> (out:
        Vec<MaybeWindowAvailable>)
        ensures
            final(self)@ == focus_changed_step(old(self)@, window, windows@).state,
            out@ == focus_changed_step(old(self)@, window, windows@).out,
            final(self).wf() == old(self).wf(),
    {
        let ghost wsv = windows@;
        let mut out: Vec<MaybeWindowAvailable> = Vec::new();
        let mut i: usize = 0;
        proof {
            assert(wsv.take(0) =~= Seq::<WindowId>::empty());
        }
        while i < windows.len()
            invariant
                0 <= i <= wsv.len(),
                windows@ == wsv,
                out@ == backgrounded_others(wsv.take(i as int), window),
            decreases wsv.len() - i,
        {
            let w = windows[i];
            proof {
                assert(wsv.take(i + 1).drop_last() =~= wsv.take(i as int));
                assert(wsv.take(i + 1).last() == wsv[i as int]);
            }
            if w != window {
                out.push(
                    MaybeWindowAvailable::Available {
                        window: Window { id: w },
                        event: Event::Backgrounded,
                    },
                );
            }
            proof {
                assert(out@ == backgrounded_others(wsv.take(i + 1), window));
            }
            i = i + 1;
        }
        proof {
            assert(wsv.take(wsv.len() as int) =~= wsv);
            assert(out@ == backgrounded_others(wsv, window));
        }
        out.push(
            MaybeWindowAvailable::Available {
                window: Window { id: window },
                event: Event::Foregrounded,
            },
        );
        let repeat: bool = match self.prev_focused {
            Some(p) => p == window,
            None => false,
        };
        if !repeat {
            let emit_unfocus: Option<WindowId> = self.prev_focused;
            if let Some(old_w) = emit_unfocus {
                out.push(
                    MaybeWindowAvailable::Available {
                        window: Window { id: old_w },
                        event: Event::Unfocused,
                    },
                );
            }
            out.push(
                MaybeWindowAvailable::Available {
                    window: Window { id: window },
                    event: Event::Focused,
                },
            );
        }
        self.prev_focused = Some(window);
        proof {
            assert(out@ =~= focus_changed_step(old(self)@, window, wsv).out);
            assert(self@ =~= focus_changed_step(old(self)@, window, wsv).state);
        }
        out
    }

    /// Window miniaturized: `Hidden`; and when it was the tracked focused
    /// window, `Unfocused` then `Backgrounded`, and the tracking is cleared.
    pub fn on_window_miniaturized(&mut self, window: WindowId) -> (out: Vec<MaybeWindowAvailable>)
        ensures
            final(self)@ == miniaturized_step(old(self)@, window).state,
            out@ == miniaturized_step(old(self)@, window).out,
            final(self).wf() == old(self).wf(),
    {
        let mut out: Vec<MaybeWindowAvailable> = Vec::new();
        out.push(
            MaybeWindowAvailable::Available {
                window: Window { id: window },
                event: Event::Hidden,
            },
        );
        let hit: bool = match self.prev_focused {
            Some(p) => p == window,
            None => false,
        };
        if hit {
            out.push(
                MaybeWindowAvailable::Available {
                    window: Window { id: window },
                    event: Event::Unfocused,
                },
            );
            out.push(
                MaybeWindowAvailable::Available {
                    window: Window { id: window },
                    event: Event::Backgrounded,
                },
            );
            self.prev_focused = None;
        }
        proof {
            assert(out@ =~= miniaturized_step(old(self)@, window).out);
            assert(self@ =~= miniaturized_step(old(self)@, window).state);
        }
        out
    }

    /// Window deminiaturized: `Showed`, `Foregrounded`, and the window is
    /// re-established as the tracked focus with `Focused`.
    pub fn on_window_deminimized(&mut self, window: WindowId) -> (out: Vec<MaybeWindowAvailable>)
        ensures
            final(self)@ == deminiaturized_step(old(self)@, window).state,
            out@ == deminiaturized_step(old(self)@, window).out,
            final(self).wf() == old(self).wf(),
    {
        let mut out: Vec<MaybeWindowAvailable> = Vec::new();
        out.push(
            MaybeWindowAvailable::Available {
                window: Window { id: window },
                event: Event::Showed,
            },
        );
        out.push(
            MaybeWindowAvailable::Available {
                window: Window { id: window },
                event: Event::Foregrounded,
            },
        );
        out.push(
            MaybeWindowAvailable::Available {
                window: Window { id: window },
                event: Event::Focused,
            },
        );
        self.prev_focused = Some(window);
        proof {
            assert(out@ =~= deminiaturized_step(old(self)@, window).out);
        }
        out
    }

    /// Keeps the emissions the session filter lets through, in order.
    fn retain_dispatchable(&self, raw: &Vec<MaybeWindowAvailable>) -> (out: Vec<
        MaybeWindowAvailable,
    >)
        ensures
            out@ == deliver(self.filter, raw@),
    {
        let mut out: Vec<MaybeWindowAvailable> = Vec::new();
        let mut i: usize = 0;
        proof {
            assert(raw@.take(0) =~= Seq::<MaybeWindowAvailable>::empty());
        }
        while i < raw.len()
            invariant
                0 <= i <= raw@.len(),
                out@ == deliver(self.filter, raw@.take(i as int)),
            decreases raw@.len() - i,
        {
            let m = raw[i];
            let event = match m {
                MaybeWindowAvailable::Available { event, .. } => event,
                MaybeWindowAvailable::NotAvailable { event } => event,
            };
            proof {
                assert(raw@.take(i + 1).drop_last() =~= raw@.take(i as int));
                assert(raw@.take(i + 1).last() == raw@[i as int]);
                assert(event == raw@[i as int].event());
            }
            if self.filter.should_dispatch(&event) {
                out.push(m);
            }
            proof {
                assert(out@ == deliver(self.filter, raw@.take(i + 1)));
            }
            i = i + 1;
        }
        proof {
            assert(raw@.take(raw@.len() as int) =~= raw@);
        }
        out
    }

    /// Translates one native notification: updates the session state, and
    /// answers whether the notification was recognized together with the
    /// emissions the session filter lets through, in dispatch order.
    pub fn interpret_notification(&mut self, n: &Notification) -> (r: (
        bool,
        Vec<MaybeWindowAvailable>,
    ))
        ensures
            final(self)@ == step(old(self)@, *n).state,
            r.0 == step(old(self)@, *n).recognized,
            r.1@ == deliver(old(self)@.filter, step(old(self)@, *n).out),
            old(self).wf() ==> final(self).wf(),
    {
        let recognized: bool;
        let raw: Vec<MaybeWindowAvailable>;
        match n {
            Notification::WindowCreated { window, snapshot } => {
                raw = self.on_window_created(*window, snapshot);
                recognized = true;
            },
            Notification::UiElementDestroyed { snapshot } => {
                raw = self.on_ui_element_destroyed(snapshot);
                recognized = true;
            },
            Notification::WindowMoved { window } => {
                raw = self.on_window_moved(*window);
                recognized = true;
            },
            Notification::WindowResized { window } => {
                raw = self.on_window_resized(*window);
                recognized = true;
            },
            Notification::BoundsChanged { window, bounds } => {
                raw = self.on_bounds_changed(*window, *bounds);
                recognized = true;
            },
            Notification::ApplicationActivated { windows, focused } => {
                raw = self.on_application_activated(windows, *focused);
                recognized = true;
            },
            Notification::ApplicationDeactivated { windows } => {
                raw = self.on_application_deactivated(windows);
                recognized = true;
            },
            Notification::FocusedWindowChanged { window, windows } => {
                raw = self.on_focused_window_changed(*window, windows);
                recognized = true;
            },
            Notification::WindowMiniaturized { window } => {
                raw = self.on_window_miniaturized(*window);
                recognized = true;
            },
            Notification::WindowDeminiaturized { window } => {
                raw = self.on_window_deminimized(*window);
                recognized = true;
            },
            Notification::Unrecognized => {
                raw = Vec::new();
                recognized = false;
            },
        }
        assert(self@.filter == old(self)@.filter);
        assert(raw@ == step(old(self)@, *n).out);
        let out = self.retain_dispatchable(&raw);
        (recognized, out)
    }
    /// Translates a whole sequence of notifications in order, delivering
    /// the filtered events of every step in one stream: the executable
    /// counterpart of one session's [`crate::laws::run`].
    pub fn interpret_all(&mut self, ns: &Vec<Notification>) -> (out: Vec<MaybeWindowAvailable>)
        requires
            old(self).wf(),
        ensures
            final(self)@ == crate::laws::run(old(self)@, ns@).state,
            out@ == deliver(old(self)@.filter, crate::laws::run(old(self)@, ns@).trace),
            final(self).wf(),
    {
        let ghost m0 = self@;
        let mut out: Vec<MaybeWindowAvailable> = Vec::new();
        let mut i: usize = 0;
        proof {
            assert(ns@.take(0) =~= Seq::<Notification>::empty());
        }
        while i < ns.len()
            invariant
                0 <= i <= ns@.len(),
                self.wf(),
                self@ == crate::laws::run(m0, ns@.take(i as int)).state,
                self@.filter == m0.filter,
                out@ == deliver(m0.filter, crate::laws::run(m0, ns@.take(i as int)).trace),
            decreases ns@.len() - i,
        {
            let ghost trace_so_far = crate::laws::run(m0, ns@.take(i as int)).trace;
            let n = &ns[i];
            let (_, mut step_out) = self.interpret_notification(n);
            out.append(&mut step_out);
            proof {
                assert(ns@.take(i + 1).drop_last() =~= ns@.take(i as int));
                assert(ns@.take(i + 1).last() == ns@[i as int]);
                crate::laws::lemma_deliver_distributes(
                    m0.filter,
                    trace_so_far,
                    step(crate::laws::run(m0, ns@.take(i as int)).state, ns@[i as int]).out,
                );
            }
            i = i + 1;
        }
        proof {
            assert(ns@.take(ns@.len() as int) =~= ns@);
        }
        out
    }
}

/// What one notification does to an interpreter state: the row function of
/// its class.
pub open spec fn step(m: InterpreterModel, n: Notification) -> StepResult {
    match n {
        Notification::WindowCreated { window, snapshot } => created_step(m, window, snapshot@),
        Notification::UiElementDestroyed { snapshot } => destroyed_step(m, snapshot@),
        Notification::WindowMoved { window } => moved_step(m, window),
        Notification::WindowResized { window } => resized_step(m, window),
        Notification::BoundsChanged { window, bounds } => bounds_changed_step(m, window, bounds),
        Notification::ApplicationActivated { windows, focused } => activated_step(
            m,
            windows@,
            focused,
        ),
        Notification::ApplicationDeactivated { windows } => deactivated_step(m, windows@),
        Notification::FocusedWindowChanged { window, windows } => focus_changed_step(
            m,
            window,
            windows@,
        ),
        Notification::WindowMiniaturized { window } => miniaturized_step(m, window),
        Notification::WindowDeminiaturized { window } => deminiaturized_step(m, window),
        Notification::Unrecognized => unrecognized_step(m),
    }
}

} // verus!
