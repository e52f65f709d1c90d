//! The model list of the landing screen: featured agents three to a row, the
//! models found by the search, and the headers above them.

use vstd::prelude::*;
use crate::coordinator::VirtualizedListCoordinator;
use crate::list_model::{pass_item, pass_state, visible, ListModel, ScrollEvent};
use crate::pool::{resolved_slot, KindTag, ViewHandle};

verus! {

/// A list resting at its first item is at the top while its offset is above
/// this.
pub const SCROLLING_AT_TOP_THRESHOLD: i64 = -30;

/// What the list tells the screens around it.
#[derive(Clone, Copy, Debug, PartialEq, Eq, Structural)]
pub enum ModelListAction {
    NoAction,
    ScrolledAtTop,
    ScrolledNotAtTop,
}

/// The text of a header.
#[derive(Clone, Copy, Debug, PartialEq, Eq, Structural)]
pub enum HeaderText {
    FeaturedAgents,
    Models,
}

/// One logical item of the list.
#[derive(Clone, Copy, Debug, PartialEq, Eq, Structural)]
pub enum Item {
    /// A row of `agents` agents, the first of them the agent `first_agent`.
    /// The last row has no margin below it.
    AgentRow { first_agent: usize, agents: usize, last_row: bool },
    Header(HeaderText),
    /// The model at this place among the search results.
    Model(usize),
}

/// What a pass reads of the search and of the agents.
#[derive(Clone, Copy, Debug, PartialEq, Eq, Structural)]
pub struct ModelListSnapshot {
    /// A search keyword is set.
    pub has_keyword: bool,
    /// Agents are to be shown at all.
    pub agents_visible: bool,
    pub agent_count: usize,
    pub model_count: usize,
}

/// How the search stands.
#[derive(Clone, Copy, Debug, PartialEq, Eq, Structural)]
pub struct SearchState {
    pub is_pending: bool,
    pub was_error: bool,
}

/// What the host hands to `handle_event`.
#[derive(Clone, Copy, Debug, PartialEq, Eq, Structural)]
pub enum ModelListEvent {
    /// The delay before the loading notice is looked at again has run out.
    LoadingDelayElapsed,
    Other,
}

/// An action that concerns the list.
#[derive(Clone, Copy, Debug, PartialEq, Eq, Structural)]
pub enum ModelListSignal {
    /// Something happened to the search.
    SearchChanged,
    /// The store began a search, or reset it.
    SearchStarted,
    Other,
}

/// What the host observed in one round of actions.
pub struct ModelListInput {
    pub actions: Vec<ModelListSignal>,
    /// The list's position, if it was scrolled.
    pub scrolled: Option<ScrollEvent>,
}

/// Something the host is to do.
#[derive(Clone, Copy, Debug, PartialEq, Eq, Structural)]
pub enum ModelListEffect {
    StartLoadingDelay,
    SetSearchErrorVisible(bool),
    SetLoadingVisible(bool),
    AnimateLoading,
    StopLoadingAnimation,
    /// Put the first item at the leading edge of the list.
    ScrollToStart,
    Redraw,
    Emit(ModelListAction),
}

/// One item as it is to be drawn.
#[derive(Clone, Copy, Debug, PartialEq, Eq, Structural)]
pub struct DrawnModelItem {
    pub view: ViewHandle,
    pub item: Item,
}

/// How many rows `agents` agents take.
pub open spec fn agent_row_count(agents: nat) -> nat {
    ((agents + 2) / 3) as nat
}

/// The row `row` of `agents` agents.
pub open spec fn agent_row(agents: nat, row: int) -> Item {
    Item::AgentRow {
        first_agent: (3 * row) as usize,
        agents: if agents - 3 * row < 3 {
            (agents - 3 * row) as usize
        } else {
            3
        },
        last_row: row == agent_row_count(agents) - 1,
    }
}

/// The agents, three to a row, in order.
pub open spec fn agent_rows(agents: nat) -> Seq<Item> {
    Seq::new(agent_row_count(agents), |row: int| agent_row(agents, row))
}

/// The models, in order.
pub open spec fn model_items(models: nat) -> Seq<Item> {
    Seq::new(models, |i: int| Item::Model(i as usize))
}

/// What stands above the models: nothing while a keyword is set; otherwise
/// the agents under their header, if they are shown, and the models' header.
pub open spec fn leading_items(snapshot: ModelListSnapshot) -> Seq<Item> {
    if snapshot.has_keyword {
        seq![]
    } else if snapshot.agents_visible {
        seq![Item::Header(HeaderText::FeaturedAgents)] + agent_rows(snapshot.agent_count as nat)
            + seq![Item::Header(HeaderText::Models)]
    } else {
        seq![Item::Header(HeaderText::Models)]
    }
}

/// The logical items of the list.
pub open spec fn list_items(snapshot: ModelListSnapshot) -> Seq<Item> {
    leading_items(snapshot) + model_items(snapshot.model_count as nat)
}

/// The template of an item.
pub open spec fn item_kind(item: Item) -> KindTag {
    match item {
        Item::AgentRow { .. } => KindTag::AgentRow,
        Item::Header(_) => KindTag::Header,
        Item::Model(_) => KindTag::Model,
    }
}

/// The template of each item.
pub open spec fn item_kinds(items: Seq<Item>) -> Seq<KindTag> {
    Seq::new(items.len(), |i: int| item_kind(items[i]))
}

/// What the loading notice and the error notice are to show.
pub open spec fn notice_effects(search: SearchState) -> Seq<ModelListEffect> {
    seq![
        ModelListEffect::SetLoadingVisible(search.is_pending),
        if search.is_pending {
            ModelListEffect::AnimateLoading
        } else {
            ModelListEffect::StopLoadingAnimation
        },
        ModelListEffect::SetSearchErrorVisible(search.was_error),
    ]
}

/// What one action asks of the host. A search that starts has the list put
/// at its first item where it has one; an empty list stays as it is.
pub open spec fn signal_effects(list: ListModel, signal: ModelListSignal) -> Seq<ModelListEffect> {
    match signal {
        ModelListSignal::SearchChanged => seq![ModelListEffect::StartLoadingDelay],
        ModelListSignal::SearchStarted => if list.item_count > 0 {
            seq![
                ModelListEffect::SetSearchErrorVisible(false),
                ModelListEffect::SetLoadingVisible(true),
                ModelListEffect::AnimateLoading,
                ModelListEffect::ScrollToStart,
                ModelListEffect::Redraw,
            ]
        } else {
            seq![
                ModelListEffect::SetSearchErrorVisible(false),
                ModelListEffect::SetLoadingVisible(true),
                ModelListEffect::AnimateLoading,
                ModelListEffect::Redraw,
            ]
        },
        ModelListSignal::Other => seq![],
    }
}

/// The list after one action: the start of a search puts it at its first
/// item.
pub open spec fn after_signal(list: ListModel, signal: ModelListSignal) -> ListModel {
    if signal == ModelListSignal::SearchStarted {
        list.scroll_to(0, 0)
    } else {
        list
    }
}

/// The list after a run of actions.
pub open spec fn after_signals(list: ListModel, signals: Seq<ModelListSignal>) -> ListModel
    decreases signals.len(),
{
    if signals.len() == 0 {
        list
    } else {
        after_signal(after_signals(list, signals.drop_last()), signals.last())
    }
}

/// What a run of actions asks of the host, in order.
pub open spec fn signals_effects(list: ListModel, signals: Seq<ModelListSignal>) -> Seq<
    ModelListEffect,
>
    decreases signals.len(),
{
    if signals.len() == 0 {
        seq![]
    } else {
        signals_effects(list, signals.drop_last()) + signal_effects(
            after_signals(list, signals.drop_last()),
            signals.last(),
        )
    }
}

/// What a scroll tells the screens around the list.
pub open spec fn scroll_effects(list: ListModel, scrolled: Option<ScrollEvent>) -> Seq<
    ModelListEffect,
> {
    match scrolled {
        Some(event) => if list.scroll_outcome(event).at_top {
            seq![ModelListEffect::Emit(ModelListAction::ScrolledAtTop)]
        } else {
            seq![ModelListEffect::Emit(ModelListAction::ScrolledNotAtTop)]
        },
        None => seq![],
    }
}

/// `drawn` is what one pass over `items` draws, and `after` is the list it
/// leaves: each visible item, in ascending order, in the view instance that
/// the pass lends to it.
pub open spec fn draws(
    before: ListModel,
    after: ListModel,
    items: Seq<Item>,
    drawn: Seq<DrawnModelItem>,
) -> bool {
    let kinds = item_kinds(items);
    let begun = before.begin_pass(items.len() as usize);
    &&& drawn.len() == visible(before.viewport, items.len() as usize).len()
    &&& after == pass_state(begun, kinds, drawn.len())
    &&& forall|k: int|
        0 <= k < drawn.len() ==> (#[trigger] pass_item(begun, kinds, k as nat)).index < items.len()
            && drawn[k] == (DrawnModelItem {
            view: pass_item(begun, kinds, k as nat).view,
            item: items[pass_item(begun, kinds, k as nat).index as int],
        })
}

/// The model list of the landing screen.
pub struct ModelList {
    list: VirtualizedListCoordinator,
}

impl View for ModelList {
    type V = ListModel;

    closed spec fn view(&self) -> ListModel {
        self.list@
    }
}

impl ModelList {
    /// The screen's invariant: that of its list, which is at the top by the
    /// screen's own threshold and follows no append.
    pub open spec fn wf(&self) -> bool {
        &&& self@.wf()
        &&& self@.top == SCROLLING_AT_TOP_THRESHOLD
        &&& self@.near_end == 0
    }

    /// A list with the given geometry, at the top while its first item is
    /// less than the threshold past the leading edge.
    pub fn new(extent: u32, row_extent: u32) -> (list: Self)
        ensures
            list.wf(),
            list@ == ListModel::initial(extent, row_extent, 0, SCROLLING_AT_TOP_THRESHOLD),
    {
        ModelList {
            list: VirtualizedListCoordinator::new(
                extent,
                row_extent,
                0,
                SCROLLING_AT_TOP_THRESHOLD,
            ),
        }
    }

    /// The list of the screen's items.
    pub fn list(&self) -> (list: &VirtualizedListCoordinator)
        ensures
            list@ == self@,
    {
        &self.list
    }

    /// The visible area was resized.
    pub fn set_viewport_extent(&mut self, extent: u32, row_extent: u32)
        requires
            old(self).wf(),
        ensures
            final(self).wf(),
            final(self)@ == old(self)@.resize(extent, row_extent),
    {
        self.list.set_viewport_extent(extent, row_extent);
    }

    /// The logical items of the list, in order.
    pub fn items(snapshot: ModelListSnapshot) -> (items: Vec<Item>)
        ensures
            items@ == list_items(snapshot),
    {
        let mut items: Vec<Item> = Vec::new();
        if !snapshot.has_keyword {
            if snapshot.agents_visible {
                items.push(Item::Header(HeaderText::FeaturedAgents));
                let agents = snapshot.agent_count;
                let rows = agents / 3 + if agents % 3 == 0 {
                    0
                } else {
                    1
                };
                assert(rows == agent_row_count(agents as nat));
                let mut row: usize = 0;
                while row < rows
                    invariant
                        row <= rows,
                        rows == agent_row_count(agents as nat),
                        items@.len() == row + 1,
                        items@[0] == Item::Header(HeaderText::FeaturedAgents),
                        forall|r: int|
                            0 <= r < row ==> #[trigger] items@[r + 1] == agent_row(agents as nat, r),
                    decreases rows - row,
                {
                    let first_agent = 3 * row;
                    let left = agents - first_agent;
                    items.push(
                        Item::AgentRow {
                            first_agent,
                            agents: if left < 3 {
                                left
                            } else {
                                3
                            },
                            last_row: row == rows - 1,
                        },
                    );
                    row += 1;
                }
                items.push(Item::Header(HeaderText::Models));
                assert forall|k: int| 0 <= k < items@.len() implies items@[k] == leading_items(
                    snapshot,
                )[k] by {
                    if 0 < k <= rows {
                        assert(items@[(k - 1) + 1] == agent_row(agents as nat, k - 1));
                    }
                }
                assert(items@ =~= leading_items(snapshot));
            } else {
                items.push(Item::Header(HeaderText::Models));
                assert(items@ =~= leading_items(snapshot));
            }
        }
        assert(items@ =~= leading_items(snapshot));
        let ghost leading = items@;
        let mut i: usize = 0;
        while i < snapshot.model_count
            invariant
                i <= snapshot.model_count,
                items@.len() == leading.len() + i,
                forall|k: int| 0 <= k < leading.len() ==> items@[k] == leading[k],
                forall|k: int| 0 <= k < i ==> #[trigger] items@[leading.len() + k] == Item::Model(
                    k as usize,
                ),
            decreases snapshot.model_count - i,
        {
            items.push(Item::Model(i));
            i += 1;
        }
        assert forall|k: int| 0 <= k < items@.len() implies items@[k] == (leading + model_items(
            snapshot.model_count as nat,
        ))[k] by {
            if k >= leading.len() {
                assert(items@[leading.len() + (k - leading.len())] == Item::Model(
                    (k - leading.len()) as usize,
                ));
            }
        }
        assert(items@ =~= leading + model_items(snapshot.model_count as nat));
        items
    }

    /// The template of each item.
    pub fn kinds_of(items: &Vec<Item>) -> (kinds: Vec<KindTag>)
        ensures
            kinds@ == item_kinds(items@),
    {
        let mut kinds: Vec<KindTag> = Vec::new();
        let mut i: usize = 0;
        while i < items.len()
            invariant
                i <= items.len(),
                kinds@.len() == i,
                forall|k: int| 0 <= k < i ==> kinds@[k] == item_kind(items@[k]),
            decreases items.len() - i,
        {
            let kind = match items[i] {
                Item::AgentRow { .. } => KindTag::AgentRow,
                Item::Header(_) => KindTag::Header,
                Item::Model(_) => KindTag::Model,
            };
            kinds.push(kind);
            i += 1;
        }
        assert(kinds@ =~= item_kinds(items@));
        kinds
    }

    /// Begins a pass that the host's own list lays out: declares the range and
    /// returns the logical items.
    pub fn begin_pass(&mut self, snapshot: ModelListSnapshot) -> (items: Vec<Item>)
        requires
            old(self).wf(),
        ensures
            final(self).wf(),
            items@ == list_items(snapshot),
            final(self)@ == old(self)@.begin_pass(items@.len() as usize),
    {
        let items = Self::items(snapshot);
        self.list.set_item_count(items.len());
        items
    }

    /// One step of such a pass: the item at `index` in the view instance lent
    /// to it; nothing where the list has no item there.
    pub fn draw_item(&mut self, items: &Vec<Item>, index: usize) -> (drawn: Option<DrawnModelItem>)
        requires
            old(self).wf(),
        ensures
            final(self).wf(),
            match drawn {
                Some(drawn) => index < items@.len() && final(self)@ == old(self)@.resolve(
                    index,
                    item_kind(items@[index as int]),
                ) && drawn == (DrawnModelItem {
                    view: ViewHandle {
                        kind: item_kind(items@[index as int]),
                        slot: resolved_slot(
                            old(self)@.pool,
                            index,
                            item_kind(items@[index as int]),
                        ) as usize,
                    },
                    item: items@[index as int],
                }),
                None => index >= items@.len() && final(self)@ == old(self)@,
            },
    {
        if index < items.len() {
            let item = items[index];
            let kind = match item {
                Item::AgentRow { .. } => KindTag::AgentRow,
                Item::Header(_) => KindTag::Header,
                Item::Model(_) => KindTag::Model,
            };
            let view = self.list.resolve_view(index, kind);
            Some(DrawnModelItem { view, item })
        } else {
            None
        }
    }

    /// Runs one pass: the visible items in ascending order, each in a view
    /// instance of its template.
    pub fn draw_walk(&mut self, snapshot: ModelListSnapshot) -> (drawn: Vec<DrawnModelItem>)
        requires
            old(self).wf(),
        ensures
            final(self).wf(),
            draws(old(self)@, final(self)@, list_items(snapshot), drawn@),
    {
        let items = Self::items(snapshot);
        let kinds = Self::kinds_of(&items);
        let views = self.list.draw_pass(&kinds);
        let ghost begun = old(self)@.begin_pass(items@.len() as usize);
        let mut drawn: Vec<DrawnModelItem> = Vec::new();
        let mut k: usize = 0;
        while k < views.len()
            invariant
                k <= views.len(),
                drawn@.len() == k,
                kinds@.len() == items@.len(),
                forall|j: int| 0 <= j < views@.len() ==> (#[trigger] views@[j]).index < kinds.len(),
                forall|j: int|
                    0 <= j < k ==> #[trigger] drawn@[j] == (DrawnModelItem {
                        view: views@[j].view,
                        item: items@[views@[j].index as int],
                    }),
            decreases views.len() - k,
        {
            let item = views[k];
            drawn.push(DrawnModelItem { view: item.view, item: items[item.index] });
            k += 1;
        }
        assert forall|j: int| 0 <= j < drawn@.len() implies (#[trigger] pass_item(
            begun,
            item_kinds(items@),
            j as nat,
        )).index < items@.len() && drawn@[j] == (DrawnModelItem {
            view: pass_item(begun, item_kinds(items@), j as nat).view,
            item: items@[pass_item(begun, item_kinds(items@), j as nat).index as int],
        }) by {
            assert(views@[j] == pass_item(begun, kinds@, j as nat));
            assert(views@[j].index < kinds.len());
        }
        drawn
    }

    /// What the loading notice and the error notice are to show for the
    /// search as it stands.
    pub fn update_loading_and_error_message(search: SearchState) -> (effects: Vec<
        ModelListEffect,
    >)
        ensures
            effects@ == notice_effects(search),
    {
        let mut effects: Vec<ModelListEffect> = Vec::new();
        effects.push(ModelListEffect::SetLoadingVisible(search.is_pending));
        if search.is_pending {
            effects.push(ModelListEffect::AnimateLoading);
        } else {
            effects.push(ModelListEffect::StopLoadingAnimation);
        }
        effects.push(ModelListEffect::SetSearchErrorVisible(search.was_error));
        assert(effects@ =~= notice_effects(search));
        effects
    }

    /// Takes an event: when the loading delay has run out, the notices are
    /// brought up to the search.
    pub fn handle_event(event: ModelListEvent, search: SearchState) -> (effects: Vec<
        ModelListEffect,
    >)
        ensures
            effects@ == match event {
                ModelListEvent::LoadingDelayElapsed => notice_effects(search),
                ModelListEvent::Other => seq![],
            },
    {
        match event {
            ModelListEvent::LoadingDelayElapsed => Self::update_loading_and_error_message(search),
            ModelListEvent::Other => Vec::new(),
        }
    }

    /// Takes one round of actions and says what the host is to do, in order.
    /// A search that starts puts the list at its first item; a scroll is
    /// reported as at the top or not.
    pub fn handle_actions(&mut self, input: &ModelListInput) -> (effects: Vec<ModelListEffect>)
        requires
            old(self).wf(),
        ensures
            final(self).wf(),
            final(self)@ == match input.scrolled {
                Some(event) => after_signals(old(self)@, input.actions@).scrolled(event),
                None => after_signals(old(self)@, input.actions@),
            },
            effects@ == signals_effects(old(self)@, input.actions@) + scroll_effects(
                after_signals(old(self)@, input.actions@),
                input.scrolled,
            ),
    {
        let mut effects: Vec<ModelListEffect> = Vec::new();
        let mut i: usize = 0;
        while i < input.actions.len()
            invariant
                i <= input.actions.len(),
                self.wf(),
                self@ == after_signals(old(self)@, input.actions@.take(i as int)),
                effects@ == signals_effects(old(self)@, input.actions@.take(i as int)),
            decreases input.actions.len() - i,
        {
            proof {
                assert(input.actions@.take(i + 1).drop_last() =~= input.actions@.take(i as int));
                assert(input.actions@.take(i + 1).last() == input.actions@[i as int]);
            }
            let ghost before = effects@;
            let ghost list = self@;
            match input.actions[i] {
                ModelListSignal::SearchChanged => {
                    effects.push(ModelListEffect::StartLoadingDelay);
                },
                ModelListSignal::SearchStarted => {
                    effects.push(ModelListEffect::SetSearchErrorVisible(false));
                    effects.push(ModelListEffect::SetLoadingVisible(true));
                    effects.push(ModelListEffect::AnimateLoading);
                    if self.list.item_count() > 0 {
                        self.list.scroll_to_index(0, 0);
                        effects.push(ModelListEffect::ScrollToStart);
                    }
                    effects.push(ModelListEffect::Redraw);
                },
                ModelListSignal::Other => {},
            }
            assert(effects@ =~= before + signal_effects(list, input.actions@[i as int]));
            i += 1;
        }
        assert(input.actions@.take(input.actions.len() as int) =~= input.actions@);
        let ghost before = effects@;
        match input.scrolled {
            Some(event) => {
                let outcome = self.list.on_scroll_event(event);
                if outcome.at_top {
                    effects.push(ModelListEffect::Emit(ModelListAction::ScrolledAtTop));
                } else {
                    effects.push(ModelListEffect::Emit(ModelListAction::ScrolledNotAtTop));
                }
            },
            None => {},
        }
        assert(effects@ =~= before + scroll_effects(
            after_signals(old(self)@, input.actions@),
            input.scrolled,
        ));
        effects
    }
}

} // verus!
