//! The virtualized list coordinator: it says which logical indices a pass
//! draws, lends each a reusable view instance, keeps the scroll position, and
//! arbitrates between following the end of the sequence and the user's own
//! scrolling.

use vstd::prelude::*;
use crate::list_model::{
    pass_item, pass_state, AutoScrollOutcome, AutoScrollState, DrawnItem, ListModel, ScrollEvent,
    ScrollIntent, ScrollOutcome, ScrollSource,
};
use crate::pool::{is_first_at, in_use, resolved_slot, KindTag, RecycledViewPool, ViewHandle};
use crate::viewport::Viewport;

verus! {

/// The coordinator of one virtualized list.
pub struct VirtualizedListCoordinator {
    item_count: usize,
    viewport: Viewport,
    cursor: usize,
    window_end: usize,
    pool: RecycledViewPool,
    state: AutoScrollState,
    issued: bool,
    echo: bool,
    near_end: usize,
    top: i64,
}

impl View for VirtualizedListCoordinator {
    type V = ListModel;

    closed spec fn view(&self) -> ListModel {
        ListModel {
            item_count: self.item_count,
            viewport: self.viewport,
            cursor: self.cursor,
            window_end: self.window_end,
            pool: self.pool@,
            state: self.state,
            issued: self.issued,
            echo: self.echo,
            near_end: self.near_end,
            top: self.top,
        }
    }
}

impl VirtualizedListCoordinator {
    /// The coordinator's invariant.
    pub open spec fn wf(&self) -> bool {
        self@.wf()
    }

    /// A coordinator for a visible area of `extent` units and rows taken to
    /// be `row_extent` units long. An append is followed when at most
    /// `near_end` items lie past the window; a list resting at its first
    /// item is at the top while its offset is above `top`.
    pub fn new(extent: u32, row_extent: u32, near_end: usize, top: i64) -> (list: Self)
        ensures
            list.wf(),
            list@ == ListModel::initial(extent, row_extent, near_end, top),
    {
        VirtualizedListCoordinator {
            item_count: 0,
            viewport: Viewport { first: 0, offset: 0, extent, row_extent },
            cursor: 0,
            window_end: 0,
            pool: RecycledViewPool::new(),
            state: AutoScrollState::Idle,
            issued: false,
            echo: false,
            near_end,
            top,
        }
    }

    /// The size of the backing data as last declared.
    pub fn item_count(&self) -> (count: usize)
        ensures
            count == self@.item_count,
    {
        self.item_count
    }

    /// The scroll position and the geometry of the visible area.
    pub fn viewport(&self) -> (viewport: Viewport)
        ensures
            viewport == self@.viewport,
    {
        self.viewport
    }

    /// Where the auto-scroll protocol stands.
    pub fn auto_scroll_state(&self) -> (state: AutoScrollState)
        ensures
            state == self@.state,
    {
        self.state
    }

    /// Whether the next scroll notification is taken as the answer to a
    /// `scroll_to_index` rather than as the user's.
    pub fn expects_programmatic_scroll(&self) -> (expected: bool)
        ensures
            expected == self@.echo,
    {
        self.echo
    }

    /// Whose scrolling wish is in force.
    pub fn scroll_intent(&self) -> (intent: ScrollIntent)
        ensures
            intent == self@.intent(),
    {
        match self.state {
            AutoScrollState::Idle => ScrollIntent::Unset,
            AutoScrollState::PendingToEnd => ScrollIntent::PendingAutoScrollToEnd,
            AutoScrollState::CancelledByUser => ScrollIntent::UserInitiated,
        }
    }

    /// How many view instances the pool has made so far.
    pub fn pool_len(&self) -> (n: usize)
        ensures
            n == self@.pool.len(),
    {
        self.pool.len()
    }

    /// The logical index that uses the view instance behind `handle` at the
    /// moment, if the handle is one of this pool and the instance is in use.
    pub fn attached_index(&self, handle: ViewHandle) -> (index: Option<usize>)
        ensures
            index == if handle.slot < self@.pool.len() && self@.pool[handle.slot as int].kind
                == handle.kind {
                self@.pool[handle.slot as int].attached
            } else {
                None
            },
    {
        match self.pool.slot(handle.slot) {
            Some(slot) => if slot.kind == handle.kind {
                slot.attached
            } else {
                None
            },
            None => None,
        }
    }

    /// The visible area was resized, or the host has a better estimate of a
    /// row's length. The next pass works with the new geometry.
    pub fn set_viewport_extent(&mut self, extent: u32, row_extent: u32)
        requires
            old(self).wf(),
        ensures
            final(self).wf(),
            final(self)@ == old(self)@.resize(extent, row_extent),
    {
        self.viewport = Viewport {
            first: self.viewport.first,
            offset: self.viewport.offset,
            extent,
            row_extent,
        };
    }

    /// Declares the logical range of the pass that begins now, `0..count`.
    /// The window of the pass is fixed here, from the scroll position as it
    /// is; view instances of indices outside it become idle.
    pub fn set_item_count(&mut self, count: usize)
        requires
            old(self).wf(),
        ensures
            final(self).wf(),
            final(self)@ == old(self)@.begin_pass(count),
            final(self)@.pending() == crate::list_model::visible(old(self)@.viewport, count),
    {
        proof {
            crate::list_model::lemma_step_keeps_wf(
                self@,
                crate::list_model::ListEvent::BeginPass(count),
            );
            crate::list_model::lemma_pass_is_ascending_window(self@, count);
        }
        let window = self.viewport.window(count);
        self.item_count = count;
        self.cursor = window.start;
        self.window_end = window.end;
        self.pool.release_outside(window.start, window.end);
    }

    /// The next logical index of the pass, in ascending order, or `None`
    /// once the window is used up; from then on it stays `None` until the
    /// next pass begins.
    pub fn next_visible_index(&mut self) -> (index: Option<usize>)
        requires
            old(self).wf(),
        ensures
            final(self).wf(),
            index == old(self)@.next(),
            final(self)@ == old(self)@.advance(),
            index is None <==> old(self)@.pending().len() == 0,
            index matches Some(i) ==> i == old(self)@.pending()[0] && final(self)@.pending() == old(
                self,
            )@.pending().drop_first(),
    {
        proof {
            crate::list_model::lemma_advance_takes_first(self@);
        }
        if self.cursor < self.window_end {
            let index = self.cursor;
            self.cursor = self.cursor + 1;
            Some(index)
        } else {
            None
        }
    }

    /// Hands out what is left of the pass at once.
    pub fn drain_visible(&mut self) -> (indices: Vec<usize>)
        requires
            old(self).wf(),
        ensures
            final(self).wf(),
            indices@ == old(self)@.pending(),
            final(self)@ == (ListModel { cursor: old(self)@.window_end, ..old(self)@ }),
    {
        let mut indices: Vec<usize> = Vec::new();
        while self.cursor < self.window_end
            invariant
                self.wf(),
                old(self)@.cursor <= self.cursor <= self.window_end,
                self@ == (ListModel { cursor: self.cursor, ..old(self)@ }),
                indices@.len() == self.cursor - old(self)@.cursor,
                forall|k: int| 0 <= k < indices@.len() ==> indices@[k] == old(self)@.cursor + k,
            decreases self.window_end - self.cursor,
        {
            indices.push(self.cursor);
            self.cursor = self.cursor + 1;
        }
        assert(indices@ =~= old(self)@.pending());
        indices
    }

    /// The view instance of `kind` for `index`. The index keeps the instance
    /// it has of that kind; otherwise it gets the first idle one, or a new
    /// one, and gives up what it had of another kind.
    pub fn resolve_view(&mut self, index: usize, kind: KindTag) -> (handle: ViewHandle)
        requires
            old(self).wf(),
        ensures
            final(self).wf(),
            final(self)@ == old(self)@.resolve(index, kind),
            handle.kind == kind,
            handle.slot == resolved_slot(old(self)@.pool, index, kind),
            is_first_at(final(self)@.pool, in_use(kind, index), handle.slot as int),
    {
        self.pool.resolve(index, kind)
    }

    /// Runs one pass over a sequence whose item `i` is drawn with a view of
    /// kind `kinds[i]`: declares the range, and lends a view instance to each
    /// visible index in ascending order. Indices that one pass draws hold
    /// different view instances.
    pub fn draw_pass(&mut self, kinds: &Vec<KindTag>) -> (drawn: Vec<DrawnItem>)
        requires
            old(self).wf(),
        ensures
            final(self).wf(),
            drawn@.len() == crate::list_model::visible(old(self)@.viewport, kinds.len()).len(),
            forall|k: int|
                0 <= k < drawn@.len() ==> #[trigger] drawn@[k] == pass_item(
                    old(self)@.begin_pass(kinds.len()),
                    kinds@,
                    k as nat,
                ),
            forall|k: int|
                0 <= k < drawn@.len() ==> (#[trigger] drawn@[k]).index
                    == crate::list_model::visible(old(self)@.viewport, kinds.len())[k]
                    && drawn@[k].index < kinds.len() && drawn@[k].view.kind
                    == kinds@[drawn@[k].index as int],
            final(self)@ == pass_state(
                old(self)@.begin_pass(kinds.len()),
                kinds@,
                drawn@.len() as nat,
            ),
            forall|k: int|
                0 <= k < drawn@.len() ==> (#[trigger] drawn@[k]).view.slot < final(self)@.pool.len()
                    && final(self)@.pool[drawn@[k].view.slot as int] == in_use(
                    drawn@[k].view.kind,
                    drawn@[k].index,
                ),
            forall|j: int, k: int|
                0 <= j < k < drawn@.len() ==> (#[trigger] drawn@[j]).index < (
                #[trigger] drawn@[k]).index && drawn@[j].view.slot != drawn@[k].view.slot,
            final(self)@ == (ListModel {
                cursor: final(self)@.window_end,
                pool: final(self)@.pool,
                ..old(self)@.begin_pass(kinds.len())
            }),
    {
        self.set_item_count(kinds.len());
        let ghost begun = self@;
        let ghost start = self.cursor;
        proof {
            crate::list_model::lemma_pass_is_ascending_window(old(self)@, kinds.len());
        }
        let mut drawn: Vec<DrawnItem> = Vec::new();
        while self.cursor < self.window_end
            invariant
                self.wf(),
                begun == old(self)@.begin_pass(kinds.len()),
                start == begun.cursor,
                begun.window_end <= kinds.len(),
                self.window_end == begun.window_end,
                self.cursor == start + drawn@.len(),
                self@ == pass_state(begun, kinds@, drawn@.len() as nat),
                forall|k: int|
                    0 <= k < drawn@.len() ==> #[trigger] drawn@[k] == pass_item(
                        begun,
                        kinds@,
                        k as nat,
                    ),
                forall|k: int|
                    0 <= k < drawn@.len() ==> (#[trigger] drawn@[k]).index == start + k
                        && drawn@[k].view.kind == kinds@[start + k],
                forall|k: int|
                    0 <= k < drawn@.len() ==> (#[trigger] drawn@[k]).view.slot
                        < self@.pool.len() && self@.pool[drawn@[k].view.slot as int] == in_use(
                        drawn@[k].view.kind,
                        drawn@[k].index,
                    ),
            decreases self.window_end - self.cursor,
        {
            let ghost before = self@;
            let index = self.cursor;
            let kind = kinds[index];
            self.cursor = self.cursor + 1;
            let view = self.pool.resolve(index, kind);
            proof {
                crate::pool::lemma_after_resolve(before.pool, index, kind);
                assert(self@ == before.advance().resolve(index, kind));
                assert forall|k: int| 0 <= k < drawn@.len() implies (#[trigger] drawn@[k]).view.slot
                    < self@.pool.len() && self@.pool[drawn@[k].view.slot as int] == in_use(
                    drawn@[k].view.kind,
                    drawn@[k].index,
                ) by {
                    let slot = drawn@[k].view.slot as int;
                    assert(before.pool[slot].attached is Some);
                    assert(before.pool[slot].attached != Some(index));
                }
            }
            drawn.push(DrawnItem { index, view });
        }
        proof {
            crate::list_model::lemma_pass_state_cursor(begun, kinds@, drawn@.len() as nat);
        }
        drawn
    }

    /// Puts `index` at `offset` from the leading edge of the visible area.
    /// An index that is not among the declared items changes nothing.
    /// Returns whether the visible output changed.
    pub fn scroll_to_index(&mut self, index: usize, offset: i64) -> (redraw: bool)
        requires
            old(self).wf(),
        ensures
            final(self).wf(),
            final(self)@ == old(self)@.scroll_to(index, offset),
            redraw == (final(self)@.viewport != old(self)@.viewport),
    {
        if index < self.item_count {
            let to = Viewport {
                first: index,
                offset,
                extent: self.viewport.extent,
                row_extent: self.viewport.row_extent,
            };
            let redraw = !(to == self.viewport);
            self.viewport = to;
            self.echo = true;
            redraw
        } else {
            false
        }
    }

    /// Takes the host's notification that the list was scrolled. It counts
    /// as the user's unless it answers a `scroll_to_index`; a user's
    /// scroll calls off a pending auto-scroll.
    pub fn on_scroll_event(&mut self, event: ScrollEvent) -> (outcome: ScrollOutcome)
        requires
            old(self).wf(),
        ensures
            final(self).wf(),
            final(self)@ == old(self)@.scrolled(event),
            outcome == old(self)@.scroll_outcome(event),
    {
        let to = Viewport {
            first: event.first,
            offset: event.offset,
            extent: self.viewport.extent,
            row_extent: self.viewport.row_extent,
        };
        let source = if self.echo {
            ScrollSource::Programmatic
        } else {
            ScrollSource::User
        };
        let was_at_top = self.is_at_top();
        let was_at_bottom = self.is_at_bottom();
        let at_top = event.first == 0 && event.offset > self.top;
        let at_bottom = to.window(self.item_count).end == self.item_count;
        let outcome = ScrollOutcome {
            source,
            at_top,
            at_bottom,
            crossed_top: at_top != was_at_top,
            crossed_bottom: at_bottom != was_at_bottom,
            redraw: !(to == self.viewport),
        };
        if !self.echo {
            if self.state == AutoScrollState::PendingToEnd {
                self.state = AutoScrollState::CancelledByUser;
            }
            self.issued = false;
        }
        self.viewport = to;
        outcome
    }

    /// Whether the list rests at its first item, within the top threshold.
    pub fn is_at_top(&self) -> (at_top: bool)
        ensures
            at_top == self@.at_top(),
    {
        self.viewport.first == 0 && self.viewport.offset > self.top
    }

    /// Whether the window reaches the end of the declared items.
    pub fn is_at_bottom(&self) -> (at_bottom: bool)
        ensures
            at_bottom == self@.at_bottom(),
    {
        self.viewport.window(self.item_count).end == self.item_count
    }

    /// Whether the window reaches the end of the declared items, or ends
    /// within the threshold of it.
    pub fn is_near_end(&self) -> (near: bool)
        ensures
            near == self@.near_the_end(),
    {
        self.item_count - self.viewport.window(self.item_count).end <= self.near_end
    }

    /// An item was appended and the backing data now has `count` items.
    /// This starts a new auto-scroll episode: if the window was near the end,
    /// the list goes to the last item and follows it from now on.
    pub fn on_append(&mut self, count: usize) -> (outcome: AutoScrollOutcome)
        requires
            old(self).wf(),
        ensures
            final(self).wf(),
            final(self)@ == old(self)@.appended(count),
            outcome == old(self)@.append_outcome(count),
    {
        let follow = count > 0 && self.is_near_end();
        self.item_count = count;
        if follow {
            self.viewport = Viewport {
                first: count - 1,
                offset: 0,
                extent: self.viewport.extent,
                row_extent: self.viewport.row_extent,
            };
            self.state = AutoScrollState::PendingToEnd;
            self.issued = true;
            self.echo = true;
            AutoScrollOutcome { scroll_to: Some(count - 1), redraw: true }
        } else {
            self.state = AutoScrollState::Idle;
            self.issued = false;
            AutoScrollOutcome { scroll_to: None, redraw: false }
        }
    }

    /// The data source reports: it has `count` items and is, or is no
    /// longer, being updated. While an episode is pending the list goes to
    /// the last item; the episode ends when the source is no longer live.
    pub fn observe_liveness(&mut self, live: bool, count: usize) -> (outcome: AutoScrollOutcome)
        requires
            old(self).wf(),
        ensures
            final(self).wf(),
            final(self)@ == old(self)@.reported(live, count),
            outcome == old(self)@.report_outcome(live, count),
    {
        let follow = match self.state {
            AutoScrollState::PendingToEnd => true,
            AutoScrollState::Idle => live && self.is_near_end(),
            AutoScrollState::CancelledByUser => false,
        };
        self.item_count = count;
        self.echo = false;
        if follow {
            let issued = count > 0 || (self.state == AutoScrollState::PendingToEnd && self.issued);
            let settles = !live && issued;
            if count > 0 {
                self.viewport = Viewport {
                    first: count - 1,
                    offset: 0,
                    extent: self.viewport.extent,
                    row_extent: self.viewport.row_extent,
                };
            }
            if settles {
                self.state = AutoScrollState::Idle;
                self.issued = false;
            } else {
                self.state = AutoScrollState::PendingToEnd;
                self.issued = issued;
            }
            AutoScrollOutcome {
                scroll_to: if count > 0 {
                    Some(count - 1)
                } else {
                    None
                },
                redraw: count > 0 || settles,
            }
        } else {
            AutoScrollOutcome { scroll_to: None, redraw: false }
        }
    }
}

} // verus!
