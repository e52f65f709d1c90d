use moxin_frontend::list_model::ScrollEvent;
use moxin_frontend::model_list::{
    DrawnModelItem, HeaderText, Item, ModelList, ModelListAction, ModelListEffect, ModelListEvent,
    ModelListInput, ModelListSignal, ModelListSnapshot, SearchState, SCROLLING_AT_TOP_THRESHOLD,
};
use moxin_frontend::pool::{KindTag, ViewHandle};

fn snapshot(has_keyword: bool, agents_visible: bool, agents: usize, models: usize) -> ModelListSnapshot {
    ModelListSnapshot { has_keyword, agents_visible, agent_count: agents, model_count: models }
}

fn row(first_agent: usize, agents: usize, last_row: bool) -> Item {
    Item::AgentRow { first_agent, agents, last_row }
}

#[test]
fn items_with_agents_and_models() {
    let items = ModelList::items(snapshot(false, true, 7, 2));
    assert_eq!(
        items,
        vec![
            Item::Header(HeaderText::FeaturedAgents),
            row(0, 3, false),
            row(3, 3, false),
            row(6, 1, true),
            Item::Header(HeaderText::Models),
            Item::Model(0),
            Item::Model(1),
        ]
    );
}

#[test]
fn items_with_full_last_agent_row() {
    let items = ModelList::items(snapshot(false, true, 6, 0));
    assert_eq!(
        items,
        vec![
            Item::Header(HeaderText::FeaturedAgents),
            row(0, 3, false),
            row(3, 3, true),
            Item::Header(HeaderText::Models),
        ]
    );
}

#[test]
fn items_without_agents() {
    assert_eq!(
        ModelList::items(snapshot(false, true, 0, 1)),
        vec![
            Item::Header(HeaderText::FeaturedAgents),
            Item::Header(HeaderText::Models),
            Item::Model(0),
        ]
    );
    assert_eq!(
        ModelList::items(snapshot(false, false, 9, 1)),
        vec![Item::Header(HeaderText::Models), Item::Model(0)]
    );
}

#[test]
fn items_while_searching_are_the_models_only() {
    assert_eq!(
        ModelList::items(snapshot(true, true, 9, 3)),
        vec![Item::Model(0), Item::Model(1), Item::Model(2)]
    );
    assert_eq!(ModelList::items(snapshot(true, false, 0, 0)), Vec::<Item>::new());
}

#[test]
fn kinds_follow_the_items() {
    let items = vec![Item::Header(HeaderText::Models), row(0, 1, true), Item::Model(4)];
    assert_eq!(
        ModelList::kinds_of(&items),
        vec![KindTag::Header, KindTag::AgentRow, KindTag::Model]
    );
}

#[test]
fn draw_lends_a_view_of_the_items_kind() {
    let mut list = ModelList::new(30, 10);
    let drawn = list.draw_walk(snapshot(false, true, 4, 5));
    assert_eq!(
        drawn,
        vec![
            DrawnModelItem {
                view: ViewHandle { kind: KindTag::Header, slot: 0 },
                item: Item::Header(HeaderText::FeaturedAgents),
            },
            DrawnModelItem {
                view: ViewHandle { kind: KindTag::AgentRow, slot: 1 },
                item: row(0, 3, false),
            },
            DrawnModelItem {
                view: ViewHandle { kind: KindTag::AgentRow, slot: 2 },
                item: row(3, 1, true),
            },
        ]
    );
    // With a keyword the same indices are models: the views change kind.
    let searched = list.draw_walk(snapshot(true, true, 4, 5));
    let kinds: Vec<KindTag> = searched.iter().map(|d| d.view.kind).collect();
    assert_eq!(kinds, vec![KindTag::Model, KindTag::Model, KindTag::Model]);
    let slots: Vec<usize> = searched.iter().map(|d| d.view.slot).collect();
    assert_eq!(slots, vec![3, 4, 5]);
    assert_eq!(list.list().pool_len(), 6);
}

#[test]
fn draw_of_an_empty_list_is_empty() {
    let mut list = ModelList::new(30, 10);
    assert!(list.draw_walk(snapshot(true, false, 0, 0)).is_empty());
}

#[test]
fn notices_follow_the_search() {
    assert_eq!(
        ModelList::update_loading_and_error_message(SearchState { is_pending: true, was_error: false }),
        vec![
            ModelListEffect::SetLoadingVisible(true),
            ModelListEffect::AnimateLoading,
            ModelListEffect::SetSearchErrorVisible(false),
        ]
    );
    assert_eq!(
        ModelList::update_loading_and_error_message(SearchState { is_pending: false, was_error: true }),
        vec![
            ModelListEffect::SetLoadingVisible(false),
            ModelListEffect::StopLoadingAnimation,
            ModelListEffect::SetSearchErrorVisible(true),
        ]
    );
}

#[test]
fn only_the_loading_delay_updates_the_notices() {
    let search = SearchState { is_pending: true, was_error: true };
    assert_eq!(
        ModelList::handle_event(ModelListEvent::LoadingDelayElapsed, search),
        ModelList::update_loading_and_error_message(search)
    );
    assert!(ModelList::handle_event(ModelListEvent::Other, search).is_empty());
}

#[test]
fn search_start_scrolls_to_the_first_item() {
    let mut list = ModelList::new(30, 10);
    list.draw_walk(snapshot(true, false, 0, 50));
    let scrolled = ModelListInput {
        actions: Vec::new(),
        scrolled: Some(ScrollEvent { first: 20, offset: -3 }),
    };
    assert_eq!(
        list.handle_actions(&scrolled),
        vec![ModelListEffect::Emit(ModelListAction::ScrolledNotAtTop)]
    );
    assert_eq!(list.list().viewport().first, 20);

    let input = ModelListInput {
        actions: vec![
            ModelListSignal::SearchChanged,
            ModelListSignal::Other,
            ModelListSignal::SearchStarted,
        ],
        scrolled: None,
    };
    assert_eq!(
        list.handle_actions(&input),
        vec![
            ModelListEffect::StartLoadingDelay,
            ModelListEffect::SetSearchErrorVisible(false),
            ModelListEffect::SetLoadingVisible(true),
            ModelListEffect::AnimateLoading,
            ModelListEffect::ScrollToStart,
            ModelListEffect::Redraw,
        ]
    );
    assert_eq!(list.list().viewport().first, 0);
    assert_eq!(list.list().viewport().offset, 0);
}

#[test]
fn scroll_is_at_top_within_the_threshold() {
    assert_eq!(SCROLLING_AT_TOP_THRESHOLD, -30);
    let mut list = ModelList::new(30, 10);
    list.draw_walk(snapshot(true, false, 0, 50));
    let at = |list: &mut ModelList, first: usize, offset: i64| {
        list.handle_actions(&ModelListInput {
            actions: Vec::new(),
            scrolled: Some(ScrollEvent { first, offset }),
        })
    };
    let top = vec![ModelListEffect::Emit(ModelListAction::ScrolledAtTop)];
    let not_top = vec![ModelListEffect::Emit(ModelListAction::ScrolledNotAtTop)];
    assert_eq!(at(&mut list, 0, 0), top);
    assert_eq!(at(&mut list, 0, -29), top);
    assert_eq!(at(&mut list, 0, 12), top);
    assert_eq!(at(&mut list, 0, -30), not_top);
    assert_eq!(at(&mut list, 0, -31), not_top);
    assert_eq!(at(&mut list, 1, 0), not_top);
}

#[test]
fn nothing_observed_asks_nothing() {
    let mut list = ModelList::new(30, 10);
    let input = ModelListInput { actions: Vec::new(), scrolled: None };
    assert!(list.handle_actions(&input).is_empty());
}

#[test]
fn resizing_the_model_list_changes_what_is_drawn() {
    let mut list = ModelList::new(30, 10);
    list.set_viewport_extent(10, 10);
    assert_eq!(list.draw_walk(snapshot(true, false, 0, 50)).len(), 1);
}

#[test]
fn host_driven_model_pass_draws_what_the_host_asks_for() {
    let mut list = ModelList::new(30, 10);
    let items = list.begin_pass(snapshot(false, false, 0, 40));
    assert_eq!(items.len(), 41);
    assert_eq!(list.list().item_count(), 41);
    let far = list.draw_item(&items, 40).unwrap();
    assert_eq!(far.item, Item::Model(39));
    assert_eq!(far.view, ViewHandle { kind: KindTag::Model, slot: 0 });
    let head = list.draw_item(&items, 0).unwrap();
    assert_eq!(head.item, Item::Header(HeaderText::Models));
    assert_eq!(head.view, ViewHandle { kind: KindTag::Header, slot: 1 });
    assert_eq!(list.draw_item(&items, 40), Some(far));
    assert_eq!(list.draw_item(&items, 41), None);
}

#[test]
fn search_start_on_an_empty_list_does_not_scroll() {
    let mut list = ModelList::new(30, 10);
    let input = ModelListInput { actions: vec![ModelListSignal::SearchStarted], scrolled: None };
    assert_eq!(
        list.handle_actions(&input),
        vec![
            ModelListEffect::SetSearchErrorVisible(false),
            ModelListEffect::SetLoadingVisible(true),
            ModelListEffect::AnimateLoading,
            ModelListEffect::Redraw,
        ]
    );
    assert!(!list.list().expects_programmatic_scroll());

    list.draw_walk(snapshot(true, false, 0, 1));
    let effects = list.handle_actions(&input);
    assert!(effects.contains(&ModelListEffect::ScrollToStart));
    assert!(list.list().expects_programmatic_scroll());
}
