use moxin_frontend::chat_history_card::{
    CardEffect, CardInput, ChatHistoryCard, ChatHistoryCardAction, ChatHistoryCardRef, TitleState,
    TitleVisibility,
};

fn card(id: u128) -> ChatHistoryCard {
    let mut card = ChatHistoryCard::new();
    card.set_chat_id(id);
    card
}

fn input() -> CardInput {
    CardInput {
        actions: Vec::new(),
        options_dismissed: false,
        options_clicked: false,
        save_clicked: false,
        cancel_clicked: false,
        title_input: String::new(),
        stored_title: String::new(),
        content_taps: None,
        delete_dialog_closings: 0,
    }
}

fn names(effects: &[CardEffect]) -> Vec<String> {
    effects
        .iter()
        .map(|effect| match effect {
            CardEffect::ResetOptionsHover => "reset-hover".to_string(),
            CardEffect::CloseOptionsModal => "close-options".to_string(),
            CardEffect::ShowTitle(shown) => {
                if shown.title_input_container { "show-editor".to_string() } else { "show-label".to_string() }
            }
            CardEffect::OpenDeleteModal(id) => format!("open-delete {}", id),
            CardEffect::SaveTitle(title) => format!("save {}", title),
            CardEffect::SelectOptions(id) => format!("select-options {}", id),
            CardEffect::OpenOptionsModal => "open-options".to_string(),
            CardEffect::Emit(action) => format!("emit {:?}", action),
            CardEffect::SetCurrentChat(id) => format!("set-current {}", id),
            CardEffect::Redraw => "redraw".to_string(),
            CardEffect::CloseDeleteModal => "close-delete".to_string(),
        })
        .collect()
}

const LABEL: TitleVisibility = TitleVisibility {
    edit_buttons: false,
    title_input_container: false,
    chat_options: true,
    title_label_container: true,
};

const EDITOR: TitleVisibility = TitleVisibility {
    edit_buttons: true,
    title_input_container: true,
    chat_options: false,
    title_label_container: false,
};

#[test]
fn new_card_shows_its_title() {
    let card = ChatHistoryCard::new();
    assert_eq!(card.chat_id(), 0);
    assert_eq!(card.title_edition_state(), TitleState::Editable);
    assert_eq!(card.update_title_visibility(), LABEL);
}

#[test]
fn set_chat_id_changes_the_chat_only() {
    let mut card = ChatHistoryCard::new();
    card.transition_title_state();
    card.set_chat_id(u128::MAX);
    assert_eq!(card.chat_id(), u128::MAX);
    assert_eq!(card.title_edition_state(), TitleState::OnEdit);
}

#[test]
fn transition_toggles_between_label_and_editor() {
    let mut card = ChatHistoryCard::new();
    assert_eq!(card.transition_title_state(), EDITOR);
    assert_eq!(card.title_edition_state(), TitleState::OnEdit);
    assert_eq!(card.transition_title_state(), LABEL);
    assert_eq!(card.title_edition_state(), TitleState::Editable);
}

#[test]
fn title_text_is_trimmed_and_input_left_alone_while_editing() {
    let mut card = ChatHistoryCard::new();
    let shown = card.set_title_text("  My chat \n");
    assert_eq!(shown.label, "My chat");
    assert_eq!(shown.input, Some("My chat".to_string()));
    card.transition_title_state();
    let editing = card.set_title_text("  My chat \n");
    assert_eq!(editing.label, "My chat");
    assert_eq!(editing.input, None);
}

#[test]
fn menu_actions_for_this_chat_are_carried_out() {
    let mut card = card(7);
    let actions = vec![
        ChatHistoryCardAction::MenuClosed(7),
        ChatHistoryCardAction::DeleteChatOptionSelected(7),
        ChatHistoryCardAction::ChatSelected,
        ChatHistoryCardAction::NoAction,
    ];
    let effects = card.handle_title_editable_actions(&actions, false);
    assert_eq!(names(&effects), vec!["reset-hover", "close-options", "open-delete 7"]);
    assert_eq!(card.title_edition_state(), TitleState::Editable);
}

#[test]
fn menu_actions_for_other_chats_are_passed_over() {
    let mut card = card(7);
    let actions = vec![
        ChatHistoryCardAction::MenuClosed(8),
        ChatHistoryCardAction::ActivateTitleEdition(9),
        ChatHistoryCardAction::DeleteChatOptionSelected(0),
    ];
    assert!(card.handle_title_editable_actions(&actions, false).is_empty());
    assert_eq!(card.title_edition_state(), TitleState::Editable);
    assert_eq!(card.chat_id(), 7);
}

#[test]
fn activating_title_edition_opens_the_editor() {
    let mut card = card(7);
    let effects =
        card.handle_title_editable_actions(&vec![ChatHistoryCardAction::ActivateTitleEdition(7)], false);
    assert_eq!(effects.len(), 1);
    match &effects[0] {
        CardEffect::ShowTitle(shown) => assert_eq!(*shown, EDITOR),
        _ => panic!("the title area is shown anew"),
    }
    assert_eq!(card.title_edition_state(), TitleState::OnEdit);
}

#[test]
fn activating_twice_in_a_round_closes_the_editor_again() {
    let mut card = card(7);
    let actions = vec![
        ChatHistoryCardAction::ActivateTitleEdition(7),
        ChatHistoryCardAction::ActivateTitleEdition(7),
    ];
    let effects = card.handle_title_editable_actions(&actions, false);
    assert_eq!(names(&effects), vec!["show-editor", "show-label"]);
    assert_eq!(card.title_edition_state(), TitleState::Editable);
}

#[test]
fn dismissed_menu_resets_hover_with_every_action() {
    let mut card = card(7);
    let actions = vec![ChatHistoryCardAction::NoAction, ChatHistoryCardAction::MenuClosed(7)];
    let effects = card.handle_title_editable_actions(&actions, true);
    assert_eq!(names(&effects), vec!["reset-hover", "reset-hover", "close-options", "reset-hover"]);
    assert!(card.handle_title_editable_actions(&Vec::new(), true).is_empty());
}

#[test]
fn save_stores_a_changed_title_and_leaves_the_editor() {
    let mut card = card(7);
    card.transition_title_state();
    let mut round = input();
    round.save_clicked = true;
    round.title_input = "New title".to_string();
    round.stored_title = "Old title".to_string();
    let effects = card.handle_title_on_edit_actions(&round);
    assert_eq!(names(&effects), vec!["save New title", "show-label"]);
    assert_eq!(card.title_edition_state(), TitleState::Editable);
}

#[test]
fn save_does_not_store_a_blank_or_unchanged_title() {
    for (typed, stored) in [("   ", "Old"), ("", "Old"), ("Old", "Old")] {
        let mut card = card(7);
        card.transition_title_state();
        let mut round = input();
        round.save_clicked = true;
        round.title_input = typed.to_string();
        round.stored_title = stored.to_string();
        let effects = card.handle_title_on_edit_actions(&round);
        assert_eq!(names(&effects), vec!["show-label"]);
        assert_eq!(card.title_edition_state(), TitleState::Editable);
    }
}

#[test]
fn save_stores_the_title_as_typed() {
    let mut card = card(7);
    card.transition_title_state();
    let mut round = input();
    round.save_clicked = true;
    round.title_input = " Old ".to_string();
    round.stored_title = "Old".to_string();
    assert_eq!(names(&card.handle_title_on_edit_actions(&round)), vec!["save  Old ", "show-label"]);
}

#[test]
fn cancel_leaves_the_editor_without_saving() {
    let mut card = card(7);
    card.transition_title_state();
    let mut round = input();
    round.cancel_clicked = true;
    round.title_input = "New".to_string();
    assert_eq!(names(&card.handle_title_on_edit_actions(&round)), vec!["show-label"]);
    assert_eq!(card.title_edition_state(), TitleState::Editable);
}

#[test]
fn save_and_cancel_in_one_round_toggle_twice() {
    let mut card = card(7);
    card.transition_title_state();
    let mut round = input();
    round.save_clicked = true;
    round.cancel_clicked = true;
    round.title_input = "New".to_string();
    let effects = card.handle_title_on_edit_actions(&round);
    assert_eq!(names(&effects), vec!["save New", "show-label", "show-editor"]);
    assert_eq!(card.title_edition_state(), TitleState::OnEdit);
}

#[test]
fn no_button_changes_nothing() {
    let mut card = card(7);
    card.transition_title_state();
    assert!(card.handle_title_on_edit_actions(&input()).is_empty());
    assert_eq!(card.title_edition_state(), TitleState::OnEdit);
}

#[test]
fn options_click_opens_the_menu_and_ends_the_round() {
    let mut card = card(7);
    let mut round = input();
    round.actions = vec![ChatHistoryCardAction::MenuClosed(7)];
    round.options_clicked = true;
    round.content_taps = Some(1);
    round.delete_dialog_closings = 2;
    let effects = card.handle_actions(&round);
    assert_eq!(
        names(&effects),
        vec!["reset-hover", "close-options", "select-options 7", "open-options"]
    );
}

#[test]
fn single_tap_selects_the_chat() {
    let mut card = card(7);
    let mut round = input();
    round.content_taps = Some(1);
    assert_eq!(
        names(&card.handle_actions(&round)),
        vec!["emit ChatSelected", "set-current 7", "redraw"]
    );
    round.content_taps = Some(2);
    assert!(card.handle_actions(&round).is_empty());
    round.content_taps = Some(0);
    assert!(card.handle_actions(&round).is_empty());
}

#[test]
fn delete_dialog_is_closed_once_per_closing_action() {
    let mut card = card(7);
    let mut round = input();
    round.content_taps = Some(1);
    round.delete_dialog_closings = 2;
    assert_eq!(
        names(&card.handle_actions(&round)),
        vec!["emit ChatSelected", "set-current 7", "redraw", "close-delete", "close-delete"]
    );
}

#[test]
fn round_while_editing_looks_at_the_editor_buttons() {
    let mut card = card(7);
    card.transition_title_state();
    let mut round = input();
    round.actions = vec![ChatHistoryCardAction::MenuClosed(7)];
    round.options_dismissed = true;
    round.cancel_clicked = true;
    assert_eq!(names(&card.handle_actions(&round)), vec!["show-label"]);
    assert_eq!(card.title_edition_state(), TitleState::Editable);
}

#[test]
fn draw_highlights_the_current_chat() {
    let card = card(7);
    let current = card.draw_walk(" Title ", Some(7), Some('m'));
    assert_eq!(current.highlighted, Some(true));
    assert_eq!(current.title.label, "Title");
    assert_eq!(current.title.input, Some("Title".to_string()));
    assert_eq!(current.visibility, LABEL);
    assert_eq!(current.avatar_letter, "M");

    let other = card.draw_walk("Title", Some(8), None);
    assert_eq!(other.highlighted, Some(false));
    assert_eq!(other.avatar_letter, "A");

    let none = card.draw_walk("Title", None, Some('ß'));
    assert_eq!(none.highlighted, None);
    assert_eq!(none.avatar_letter, "SS");
}

#[test]
fn avatar_letter_defaults_to_a() {
    assert_eq!(ChatHistoryCard::avatar_letter(None), "A");
    assert_eq!(ChatHistoryCard::avatar_letter(Some('q')), "Q");
    assert_eq!(ChatHistoryCard::avatar_letter(Some('3')), "3");
}

#[test]
fn reference_to_a_card_sets_its_chat() {
    let mut reference = ChatHistoryCardRef::new(ChatHistoryCard::new());
    assert_eq!(reference.set_chat_id(42), Ok(()));
    assert_eq!(reference.chat_id(), Some(42));
}

#[test]
fn reference_to_no_card_fails() {
    let mut reference = ChatHistoryCardRef::empty();
    assert_eq!(reference.set_chat_id(42), Err("Widget not found in the document"));
    assert_eq!(reference.chat_id(), None);
}
