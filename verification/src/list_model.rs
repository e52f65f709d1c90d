//! The mathematical model of the virtualized list: its state as plain values,
//! each operation as a function from state to state, and the laws that hold of
//! them.

use vstd::prelude::*;
use crate::pool::{
    after_resolve, recycling_safe, released_outside, resolved_slot, KindTag, Slot, ViewHandle,
};
use crate::viewport::Viewport;

verus! {

/// Where the auto-scroll protocol stands.
#[derive(Clone, Copy, Debug, PartialEq, Eq, Structural)]
pub enum AutoScrollState {
    /// No append episode is being followed.
    Idle,
    /// The list follows the end of the sequence while its producer is live.
    PendingToEnd,
    /// The user scrolled during the episode; the list stays where they put it.
    CancelledByUser,
}

/// Whose scrolling wish is in force.
#[derive(Clone, Copy, Debug, PartialEq, Eq, Structural)]
pub enum ScrollIntent {
    Unset,
    PendingAutoScrollToEnd,
    UserInitiated,
}

/// Who caused a scroll notification.
#[derive(Clone, Copy, Debug, PartialEq, Eq, Structural)]
pub enum ScrollSource {
    User,
    Programmatic,
}

/// The host's notification that the list was scrolled, with the position it
/// is at now.
#[derive(Clone, Copy, Debug, PartialEq, Eq, Structural)]
pub struct ScrollEvent {
    pub first: usize,
    pub offset: i64,
}

/// What a scroll notification amounted to.
#[derive(Clone, Copy, Debug, PartialEq, Eq, Structural)]
pub struct ScrollOutcome {
    pub source: ScrollSource,
    /// The list rests at its first item, within the top threshold.
    pub at_top: bool,
    /// The window reaches the end of the sequence.
    pub at_bottom: bool,
    /// The scroll took the list to the top or away from it.
    pub crossed_top: bool,
    /// The scroll took the window to the end of the sequence or away from it.
    pub crossed_bottom: bool,
    /// The visible output changed: the host should draw again.
    pub redraw: bool,
}

/// What the coordinator did of its own accord on a signal from the data source.
#[derive(Clone, Copy, Debug, PartialEq, Eq, Structural)]
pub struct AutoScrollOutcome {
    /// The index that the coordinator scrolled to, at offset zero, if it did.
    pub scroll_to: Option<usize>,
    /// The visible output changed: the host should draw again.
    pub redraw: bool,
}

/// A logical index drawn in a pass, with the view instance lent to it.
#[derive(Clone, Copy, Debug, PartialEq, Eq, Structural)]
pub struct DrawnItem {
    pub index: usize,
    pub view: ViewHandle,
}

/// Something that happens to a list.
pub enum ListEvent {
    BeginPass(usize),
    NextVisible,
    Resolve(usize, KindTag),
    ScrollTo(usize, i64),
    Scrolled(ScrollEvent),
    Appended(usize),
    Liveness(bool, usize),
    Resized(u32, u32),
}

/// The state of a virtualized list.
pub struct ListModel {
    /// Size of the backing data as last declared.
    pub item_count: usize,
    /// Scroll position and geometry.
    pub viewport: Viewport,
    /// The next index that the current pass hands out.
    pub cursor: usize,
    /// One past the last index that the current pass hands out.
    pub window_end: usize,
    /// The view instances.
    pub pool: Seq<Slot>,
    /// The auto-scroll protocol's state.
    pub state: AutoScrollState,
    /// A scroll to the end was issued since the protocol entered `PendingToEnd`.
    pub issued: bool,
    /// Scroll notifications are answers to a `scroll_to_index`, until the data
    /// source reports next.
    pub echo: bool,
    /// How many items may lie past the window for it to count as near the end.
    pub near_end: usize,
    /// The offset above which a list resting at its first item is at the top.
    pub top: i64,
}

/// The position with `index` at the leading edge of the same visible area.
pub open spec fn anchored(viewport: Viewport, index: usize, offset: i64) -> Viewport {
    Viewport { first: index, offset, extent: viewport.extent, row_extent: viewport.row_extent }
}

/// The indices that a pass over `count` items hands out, in order.
pub open spec fn visible(viewport: Viewport, count: usize) -> Seq<usize> {
    Seq::new(
        (viewport.window_end(count as nat) - viewport.window_start(count as nat)) as nat,
        |k: int| (viewport.window_start(count as nat) + k) as usize,
    )
}

impl ListModel {
    /// What holds of every list: no index has two view instances, the pass
    /// has not run past its window, and a scroll to the end counts as issued
    /// only within a pending episode.
    pub open spec fn wf(self) -> bool {
        &&& recycling_safe(self.pool)
        &&& self.cursor <= self.window_end
        &&& self.state != AutoScrollState::PendingToEnd ==> !self.issued
    }

    /// A fresh list: nothing declared, nothing drawn, no instance made.
    pub open spec fn initial(extent: u32, row_extent: u32, near_end: usize, top: i64) -> ListModel {
        ListModel {
            item_count: 0,
            viewport: Viewport { first: 0, offset: 0, extent, row_extent },
            cursor: 0,
            window_end: 0,
            pool: Seq::empty(),
            state: AutoScrollState::Idle,
            issued: false,
            echo: false,
            near_end,
            top,
        }
    }

    /// The indices that the current pass has yet to hand out.
    pub open spec fn pending(self) -> Seq<usize> {
        Seq::new((self.window_end - self.cursor) as nat, |k: int| (self.cursor + k) as usize)
    }

    /// Whose scrolling wish is in force in this state.
    pub open spec fn intent(self) -> ScrollIntent {
        match self.state {
            AutoScrollState::Idle => ScrollIntent::Unset,
            AutoScrollState::PendingToEnd => ScrollIntent::PendingAutoScrollToEnd,
            AutoScrollState::CancelledByUser => ScrollIntent::UserInitiated,
        }
    }

    /// The window reaches the end of the declared items, or ends within the
    /// threshold of it.
    pub open spec fn near_the_end(self) -> bool {
        self.item_count - self.viewport.window_end(self.item_count as nat) <= self.near_end
    }

    /// A pass begins: the window is fixed from the position as it is now, and
    /// view instances of indices outside it go back to the pool.
    pub open spec fn begin_pass(self, count: usize) -> ListModel {
        let start = self.viewport.window_start(count as nat);
        let end = self.viewport.window_end(count as nat);
        ListModel {
            item_count: count,
            cursor: start as usize,
            window_end: end as usize,
            pool: released_outside(self.pool, start as int, end as int),
            ..self
        }
    }

    /// The index that the pass hands out next.
    pub open spec fn next(self) -> Option<usize> {
        if self.cursor < self.window_end {
            Some(self.cursor)
        } else {
            None
        }
    }

    /// The pass after it handed out its next index, if it had one left.
    pub open spec fn advance(self) -> ListModel {
        if self.cursor < self.window_end {
            ListModel { cursor: (self.cursor + 1) as usize, ..self }
        } else {
            self
        }
    }

    /// The list after `index` asked for a view instance of `kind`.
    pub open spec fn resolve(self, index: usize, kind: KindTag) -> ListModel {
        ListModel { pool: after_resolve(self.pool, index, kind), ..self }
    }

    /// An index among the declared items becomes the anchor; any other
    /// changes nothing.
    pub open spec fn scroll_to(self, index: usize, offset: i64) -> ListModel {
        if index < self.item_count {
            ListModel { viewport: anchored(self.viewport, index, offset), echo: true, ..self }
        } else {
            self
        }
    }

    /// The list with another visible area and row length, at the same
    /// position.
    pub open spec fn resize(self, extent: u32, row_extent: u32) -> ListModel {
        ListModel {
            viewport: Viewport {
                first: self.viewport.first,
                offset: self.viewport.offset,
                extent,
                row_extent,
            },
            ..self
        }
    }

    /// Who a scroll notification is put down to, were one to arrive now.
    pub open spec fn source_of_scroll(self) -> ScrollSource {
        if self.echo {
            ScrollSource::Programmatic
        } else {
            ScrollSource::User
        }
    }

    /// The list was scrolled: the position follows the host's, and a user's
    /// scroll calls off a pending auto-scroll.
    pub open spec fn scrolled(self, event: ScrollEvent) -> ListModel {
        ListModel {
            viewport: anchored(self.viewport, event.first, event.offset),
            state: if !self.echo && self.state == AutoScrollState::PendingToEnd {
                AutoScrollState::CancelledByUser
            } else {
                self.state
            },
            issued: self.echo && self.issued,
            ..self
        }
    }

    /// The list rests at its first item, within the top threshold.
    pub open spec fn at_top(self) -> bool {
        self.viewport.first == 0 && self.viewport.offset > self.top
    }

    /// The window reaches the end of the declared items.
    pub open spec fn at_bottom(self) -> bool {
        self.viewport.window_end(self.item_count as nat) == self.item_count
    }

    /// What a scroll notification amounts to: who caused it, where it leaves
    /// the list, and whether it took the list across the top or the bottom.
    pub open spec fn scroll_outcome(self, event: ScrollEvent) -> ScrollOutcome {
        ScrollOutcome {
            source: self.source_of_scroll(),
            at_top: self.scrolled(event).at_top(),
            at_bottom: self.scrolled(event).at_bottom(),
            crossed_top: self.scrolled(event).at_top() != self.at_top(),
            crossed_bottom: self.scrolled(event).at_bottom() != self.at_bottom(),
            redraw: self.scrolled(event).viewport != self.viewport,
        }
    }

    /// An append starts a new episode, whatever became of the last one: it is
    /// followed if the window was near the end and there is an item to go to.
    pub open spec fn follows_append(self, count: usize) -> bool {
        count > 0 && self.near_the_end()
    }

    /// The list after an item was appended and the data has `count` items.
    pub open spec fn appended(self, count: usize) -> ListModel {
        if self.follows_append(count) {
            ListModel {
                item_count: count,
                viewport: anchored(self.viewport, (count - 1) as usize, 0),
                state: AutoScrollState::PendingToEnd,
                issued: true,
                echo: true,
                ..self
            }
        } else {
            ListModel { item_count: count, state: AutoScrollState::Idle, issued: false, ..self }
        }
    }

    /// What the coordinator does of its own accord on an append.
    pub open spec fn append_outcome(self, count: usize) -> AutoScrollOutcome {
        if self.follows_append(count) {
            AutoScrollOutcome { scroll_to: Some((count - 1) as usize), redraw: true }
        } else {
            AutoScrollOutcome { scroll_to: None, redraw: false }
        }
    }

    /// The data source reports while the end is being followed: either an
    /// episode is pending, or the list is idle near the end and the last item
    /// is being updated.
    pub open spec fn follows_report(self, live: bool) -> bool {
        self.state == AutoScrollState::PendingToEnd || (self.state == AutoScrollState::Idle && live
            && self.near_the_end())
    }

    /// After this report a scroll to the end has been issued in the episode.
    pub open spec fn issued_after(self, count: usize) -> bool {
        count > 0 || (self.state == AutoScrollState::PendingToEnd && self.issued)
    }

    /// The episode is over: the producer is done and the list went to the end
    /// at least once.
    pub open spec fn settles(self, live: bool, count: usize) -> bool {
        self.follows_report(live) && !live && self.issued_after(count)
    }

    /// The list after the data source reported `count` items and whether it
    /// is live. While the end is followed the list goes to the last item;
    /// from then on scroll notifications count as the user's again.
    pub open spec fn reported(self, live: bool, count: usize) -> ListModel {
        if self.follows_report(live) {
            ListModel {
                item_count: count,
                viewport: if count > 0 {
                    anchored(self.viewport, (count - 1) as usize, 0)
                } else {
                    self.viewport
                },
                state: if self.settles(live, count) {
                    AutoScrollState::Idle
                } else {
                    AutoScrollState::PendingToEnd
                },
                issued: !self.settles(live, count) && self.issued_after(count),
                echo: false,
                ..self
            }
        } else {
            ListModel { item_count: count, echo: false, ..self }
        }
    }

    /// What the coordinator does of its own accord on a report.
    pub open spec fn report_outcome(self, live: bool, count: usize) -> AutoScrollOutcome {
        if self.follows_report(live) {
            AutoScrollOutcome {
                scroll_to: if count > 0 {
                    Some((count - 1) as usize)
                } else {
                    None
                },
                redraw: count > 0 || self.settles(live, count),
            }
        } else {
            AutoScrollOutcome { scroll_to: None, redraw: false }
        }
    }

    /// The state after an event.
    pub open spec fn step(self, event: ListEvent) -> ListModel {
        match event {
            ListEvent::BeginPass(count) => self.begin_pass(count),
            ListEvent::NextVisible => self.advance(),
            ListEvent::Resolve(index, kind) => self.resolve(index, kind),
            ListEvent::ScrollTo(index, offset) => self.scroll_to(index, offset),
            ListEvent::Scrolled(event) => self.scrolled(event),
            ListEvent::Appended(count) => self.appended(count),
            ListEvent::Liveness(live, count) => self.reported(live, count),
            ListEvent::Resized(extent, row_extent) => self.resize(extent, row_extent),
        }
    }

    /// The scroll that the coordinator issues of its own accord on an event.
    pub open spec fn issues(self, event: ListEvent) -> Option<usize> {
        match event {
            ListEvent::Appended(count) => self.append_outcome(count).scroll_to,
            ListEvent::Liveness(live, count) => self.report_outcome(live, count).scroll_to,
            _ => None,
        }
    }

    /// The state after a run of events.
    pub open spec fn run(self, events: Seq<ListEvent>) -> ListModel
        decreases events.len(),
    {
        if events.len() == 0 {
            self
        } else {
            self.run(events.drop_last()).step(events.last())
        }
    }

    /// The scrolls that the coordinator issues of its own accord over a run
    /// of events, in order.
    pub open spec fn issued_over(self, events: Seq<ListEvent>) -> Seq<usize>
        decreases events.len(),
    {
        if events.len() == 0 {
            Seq::empty()
        } else {
            let before = self.issued_over(events.drop_last());
            match self.run(events.drop_last()).issues(events.last()) {
                Some(index) => before.push(index),
                None => before,
            }
        }
    }
}

/// The state of a pass that has drawn its first `done` indices, each with a
/// view instance of the kind that `kinds` gives for it.
pub open spec fn pass_state(begun: ListModel, kinds: Seq<KindTag>, done: nat) -> ListModel
    decreases done,
{
    if done == 0 {
        begun
    } else {
        let before = pass_state(begun, kinds, (done - 1) as nat);
        before.advance().resolve(before.cursor, kinds[before.cursor as int])
    }
}

/// The view instance that a pass lends to the index it draws after `done`
/// others.
pub open spec fn pass_view(begun: ListModel, kinds: Seq<KindTag>, done: nat) -> ViewHandle {
    let before = pass_state(begun, kinds, done);
    ViewHandle {
        kind: kinds[before.cursor as int],
        slot: resolved_slot(before.pool, before.cursor, kinds[before.cursor as int]) as usize,
    }
}

/// What a pass draws after `done` other indices: the index, and the view
/// instance lent to it.
pub open spec fn pass_item(begun: ListModel, kinds: Seq<KindTag>, done: nat) -> DrawnItem {
    DrawnItem {
        index: pass_state(begun, kinds, done).cursor,
        view: pass_view(begun, kinds, done),
    }
}

/// Drawing moves the cursor by one index each time and leaves all but the
/// pool as the pass found it.
pub proof fn lemma_pass_state_cursor(begun: ListModel, kinds: Seq<KindTag>, done: nat)
    requires
        begun.cursor + done <= begun.window_end,
    ensures
        pass_state(begun, kinds, done) == (ListModel {
            cursor: (begun.cursor + done) as usize,
            pool: pass_state(begun, kinds, done).pool,
            ..begun
        }),
    decreases done,
{
    if done > 0 {
        lemma_pass_state_cursor(begun, kinds, (done - 1) as nat);
    }
}

/// Every event keeps the list well formed.
pub proof fn lemma_step_keeps_wf(model: ListModel, event: ListEvent)
    requires
        model.wf(),
    ensures
        model.step(event).wf(),
{
    match event {
        ListEvent::BeginPass(count) => {
            model.viewport.lemma_window_is_what_shows(count as nat, 0);
            crate::pool::lemma_release_keeps_safety(
                model.pool,
                model.viewport.window_start(count as nat) as int,
                model.viewport.window_end(count as nat) as int,
            );
        },
        ListEvent::Resolve(index, kind) => {
            crate::pool::lemma_after_resolve(model.pool, index, kind);
        },
        _ => {},
    }
}

/// Whatever happens to a list, it stays well formed: in particular no index
/// ever has two view instances.
pub proof fn lemma_run_keeps_wf(model: ListModel, events: Seq<ListEvent>)
    requires
        model.wf(),
    ensures
        model.run(events).wf(),
    decreases events.len(),
{
    if events.len() > 0 {
        lemma_run_keeps_wf(model, events.drop_last());
        lemma_step_keeps_wf(model.run(events.drop_last()), events.last());
    }
}

/// A pass hands out a strictly ascending run of indices, each of them
/// addressable and shown by the viewport, and it leaves out no index that the
/// viewport shows.
pub proof fn lemma_pass_is_ascending_window(model: ListModel, count: usize)
    ensures
        model.begin_pass(count).pending() == visible(model.viewport, count),
        forall|i: int, j: int|
            0 <= i < j < visible(model.viewport, count).len() ==> visible(model.viewport, count)[i]
                < visible(model.viewport, count)[j],
        forall|i: int|
            0 <= i < visible(model.viewport, count).len() ==> visible(model.viewport, count)[i]
                < count && model.viewport.shows(
                count as nat,
                #[trigger] visible(model.viewport, count)[i] as int,
            ),
        forall|index: usize|
            model.viewport.shows(count as nat, index as int) ==> visible(
                model.viewport,
                count,
            ).contains(index),
{
    let shown = visible(model.viewport, count);
    let start = model.viewport.window_start(count as nat);
    model.viewport.lemma_window_is_what_shows(count as nat, 0);
    assert(model.begin_pass(count).pending() =~= shown);
    assert forall|i: int| 0 <= i < shown.len() implies shown[i] < count && model.viewport.shows(
        count as nat,
        #[trigger] shown[i] as int,
    ) by {
        model.viewport.lemma_window_is_what_shows(count as nat, start + i);
    }
    assert forall|index: usize| model.viewport.shows(count as nat, index as int) implies shown.contains(
        index,
    ) by {
        model.viewport.lemma_window_is_what_shows(count as nat, index as int);
        assert(shown[index - start] == index);
    }
}

/// What a pass hands out depends on the item count and on the viewport at its
/// start, and on nothing else that went before.
pub proof fn lemma_pass_depends_on_viewport_only(one: ListModel, other: ListModel, count: usize)
    requires
        one.viewport == other.viewport,
    ensures
        one.begin_pass(count).pending() == other.begin_pass(count).pending(),
        one.begin_pass(count).next() == other.begin_pass(count).next(),
{
}

/// Handing out an index takes it, and only it, off what is pending.
pub proof fn lemma_advance_takes_first(model: ListModel)
    requires
        model.wf(),
    ensures
        model.next() is None <==> model.pending().len() == 0,
        model.next() matches Some(index) ==> index == model.pending()[0] && model.advance().pending()
            == model.pending().drop_first(),
        model.next() is None ==> model.advance() == model,
{
    if model.cursor < model.window_end {
        assert(model.advance().pending() =~= model.pending().drop_first());
    }
}

/// Within a pass the same index and kind resolve to the same view instance,
/// and the second request leaves the list as it was.
pub proof fn lemma_resolve_twice_same_view(model: ListModel, index: usize, kind: KindTag)
    requires
        model.wf(),
    ensures
        resolved_slot(model.resolve(index, kind).pool, index, kind) == resolved_slot(
            model.pool,
            index,
            kind,
        ),
        model.resolve(index, kind).resolve(index, kind) == model.resolve(index, kind),
{
    crate::pool::lemma_resolve_idempotent(model.pool, index, kind);
}

/// A user's scroll during a pending auto-scroll calls it off.
pub proof fn lemma_user_scroll_cancels(model: ListModel, event: ScrollEvent)
    requires
        model.state == AutoScrollState::PendingToEnd,
        model.source_of_scroll() == ScrollSource::User,
    ensures
        model.scrolled(event).state == AutoScrollState::CancelledByUser,
        model.scroll_outcome(event).source == ScrollSource::User,
{
}

/// Once called off, the auto-scroll stays off and the coordinator issues no
/// scroll of its own accord, whatever happens, until the next append.
pub proof fn lemma_cancelled_until_append(model: ListModel, events: Seq<ListEvent>)
    requires
        model.state == AutoScrollState::CancelledByUser,
        forall|i: int| 0 <= i < events.len() ==> !(#[trigger] events[i] is Appended),
    ensures
        model.run(events).state == AutoScrollState::CancelledByUser,
        model.issued_over(events) == Seq::<usize>::empty(),
    decreases events.len(),
{
    if events.len() > 0 {
        let before = events.drop_last();
        assert forall|i: int| 0 <= i < before.len() implies !(#[trigger] before[i] is Appended) by {
            assert(before[i] == events[i]);
        }
        lemma_cancelled_until_append(model, before);
        assert(!(events[events.len() - 1] is Appended));
    }
}

/// While an episode is pending, every report from the data source sends the
/// list to the last item, and the episode ends with the first report that the
/// producer is done.
pub proof fn lemma_pending_follows_the_end(model: ListModel, live: bool, count: usize)
    requires
        model.state == AutoScrollState::PendingToEnd,
        count > 0,
    ensures
        model.report_outcome(live, count).scroll_to == Some((count - 1) as usize),
        model.reported(live, count).viewport.first == count - 1,
        model.reported(live, count).state == if live {
            AutoScrollState::PendingToEnd
        } else {
            AutoScrollState::Idle
        },
{
}

} // verus!
