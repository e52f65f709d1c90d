use moxin_frontend::chat_panel::{
    ChatMessage, ChatPanel, ChatPanelAction, ChatPanelEffect, ChatPanelEvent, ChatPanelInput,
    ChatSnapshot, ChatStatus,
};
use moxin_frontend::list_model::{AutoScrollState, DrawnItem, ScrollEvent};
use moxin_frontend::pool::{KindTag, ViewHandle};

fn panel() -> ChatPanel {
    ChatPanel::new(100, 10, usize::MAX, 0)
}

fn message(id: usize, is_assistant: bool, content: &str) -> ChatMessage {
    ChatMessage { id, is_assistant, content: content.to_string() }
}

fn no_input() -> ChatPanelInput {
    ChatPanelInput {
        actions: Vec::new(),
        prompt_changed: None,
        scrolled: None,
        prompt_returned: None,
    }
}

fn names(effects: &[ChatPanelEffect]) -> Vec<String> {
    effects
        .iter()
        .map(|effect| match effect {
            ChatPanelEffect::ShowConversation => "show".to_string(),
            ChatPanelEffect::LoadModel(file) => format!("load {}", file),
            ChatPanelEffect::DeleteChatMessage(id) => format!("delete {}", id),
            ChatPanelEffect::Redraw => "redraw".to_string(),
            ChatPanelEffect::EnablePromptInput => "enable".to_string(),
            ChatPanelEffect::DisablePromptInput => "disable".to_string(),
            ChatPanelEffect::SendChatMessage(text) => format!("send {}", text),
            ChatPanelEffect::ClearPrompt => "clear".to_string(),
            ChatPanelEffect::HideEmptyConversation => "hide-empty".to_string(),
        })
        .collect()
}

#[test]
fn new_panel_has_prompt_open_and_nothing_loaded() {
    let panel = panel();
    assert!(!panel.loaded());
    assert!(panel.prompt_enabled());
    assert!(!panel.auto_scroll_pending());
    assert!(panel.auto_scroll_cancellable());
}

#[test]
fn draw_without_chat_sets_an_empty_avatar() {
    let mut panel = panel();
    let drawing = panel.draw_walk(None);
    assert_eq!(drawing.empty_avatar, Some(String::new()));
    assert!(drawing.lines.is_empty());
}

#[test]
fn draw_empty_chat_shows_the_models_initial() {
    let mut panel = panel();
    let chat = ChatSnapshot { messages: Vec::new(), model_filename: "mistral.gguf".to_string() };
    let drawing = panel.draw_walk(Some(&chat));
    assert_eq!(drawing.empty_avatar, Some("M".to_string()));
    assert!(drawing.lines.is_empty());
}

#[test]
fn draw_chat_lines_by_role() {
    let mut panel = panel();
    let chat = ChatSnapshot {
        messages: vec![
            message(7, false, "  Hello there \n"),
            message(8, true, "\tGeneral Kenobi"),
            message(9, false, "bye"),
        ],
        model_filename: "llama.gguf".to_string(),
    };
    let drawing = panel.draw_walk(Some(&chat));
    assert_eq!(drawing.empty_avatar, None);
    assert_eq!(drawing.lines.len(), 3);

    let first = &drawing.lines[0];
    assert_eq!(first.view, ViewHandle { kind: KindTag::UserChatLine, slot: 0 });
    assert_eq!(first.message_id, 7);
    assert_eq!(first.role, "You");
    assert_eq!(first.avatar_letter, None);
    assert_eq!(first.text, "Hello there");

    let second = &drawing.lines[1];
    assert_eq!(second.view, ViewHandle { kind: KindTag::ModelChatLine, slot: 1 });
    assert_eq!(second.message_id, 8);
    assert_eq!(second.role, "llama.gguf");
    assert_eq!(second.avatar_letter, Some("L".to_string()));
    assert_eq!(second.text, "General Kenobi");

    let third = &drawing.lines[2];
    assert_eq!(third.view, ViewHandle { kind: KindTag::UserChatLine, slot: 2 });
    assert_eq!(third.text, "bye");

    // Drawing again lends the same views.
    let again = panel.draw_walk(Some(&chat));
    for (one, other) in drawing.lines.iter().zip(again.lines.iter()) {
        assert_eq!(one.view, other.view);
    }
}

#[test]
fn draw_only_the_visible_lines() {
    let mut panel = panel();
    let messages: Vec<ChatMessage> =
        (0..50).map(|i| message(100 + i, i % 2 == 1, "text")).collect();
    let chat = ChatSnapshot { messages, model_filename: "m".to_string() };
    let drawing = panel.draw_walk(Some(&chat));
    assert_eq!(drawing.lines.len(), 10);
    let ids: Vec<usize> = drawing.lines.iter().map(|line| line.message_id).collect();
    assert_eq!(ids, (100..110).collect::<Vec<usize>>());
}

#[test]
fn line_for_an_empty_file_name_has_an_empty_letter() {
    let item = DrawnItem { index: 0, view: ViewHandle { kind: KindTag::ModelChatLine, slot: 4 } };
    let line = ChatPanel::line_for(item, &message(1, true, " x "), "");
    assert_eq!(line.role, "");
    assert_eq!(line.avatar_letter, Some(String::new()));
    assert_eq!(line.text, "x");
    assert_eq!(line.view.slot, 4);
}

#[test]
fn initial_letter_is_upper_case() {
    assert_eq!(ChatPanel::initial_letter("zephyr"), "Z");
    assert_eq!(ChatPanel::initial_letter("7b"), "7");
    assert_eq!(ChatPanel::initial_letter(""), "");
}

#[test]
fn kinds_follow_the_roles() {
    let kinds = ChatPanel::kinds_of(&vec![message(0, true, ""), message(1, false, "")]);
    assert_eq!(kinds, vec![KindTag::ModelChatLine, KindTag::UserChatLine]);
}

#[test]
fn selecting_a_model_loads_it_and_opens_the_prompt() {
    let mut panel = panel();
    panel.handle_event(ChatPanelEvent::Signal(Some(ChatStatus {
        message_count: 0,
        is_streaming: true,
    })));
    assert!(!panel.prompt_enabled());
    let mut input = no_input();
    input.actions = vec![
        ChatPanelAction::Other,
        ChatPanelAction::ModelSelected("file-1".to_string()),
        ChatPanelAction::DeleteMessage(3),
    ];
    let effects = panel.handle_actions(&input);
    assert_eq!(names(&effects), vec!["show", "load file-1", "delete 3", "redraw"]);
    assert!(panel.loaded());
    assert!(panel.prompt_enabled());
}

#[test]
fn prompt_change_enables_only_open_prompt_with_text() {
    let mut panel = panel();
    let mut input = no_input();
    input.prompt_changed = Some("hi".to_string());
    assert_eq!(names(&panel.handle_actions(&input)), vec!["enable"]);
    input.prompt_changed = Some(String::new());
    assert_eq!(names(&panel.handle_actions(&input)), vec!["disable"]);
    panel.handle_event(ChatPanelEvent::Signal(Some(ChatStatus {
        message_count: 1,
        is_streaming: true,
    })));
    input.prompt_changed = Some("hi".to_string());
    assert_eq!(names(&panel.handle_actions(&input)), vec!["disable"]);
}

#[test]
fn return_sends_a_message_that_is_not_blank() {
    let mut panel = panel();
    let mut input = no_input();
    input.prompt_returned = Some("   ".to_string());
    assert!(panel.handle_actions(&input).is_empty());
    assert!(panel.prompt_enabled());

    input.prompt_returned = Some(" what is rust? ".to_string());
    let effects = panel.handle_actions(&input);
    assert_eq!(names(&effects), vec!["disable", "send  what is rust? ", "clear", "hide-empty"]);
    assert!(!panel.prompt_enabled());

    // The prompt is closed now: return does nothing.
    assert!(panel.handle_actions(&input).is_empty());
}

#[test]
fn sending_follows_the_end_until_the_stream_is_over() {
    let mut panel = panel();
    let sent = panel.message_sent(2);
    assert_eq!(sent.scroll_to, Some(1));
    assert!(panel.auto_scroll_pending());
    assert!(!panel.auto_scroll_cancellable());

    let streaming = panel.handle_event(ChatPanelEvent::Signal(Some(ChatStatus {
        message_count: 2,
        is_streaming: true,
    })));
    assert_eq!(streaming.prompt_input, Some(false));
    assert_eq!(streaming.scroll_to, Some(1));
    assert!(streaming.redraw);
    assert!(panel.auto_scroll_cancellable());
    assert!(!panel.prompt_enabled());

    let done = panel.handle_event(ChatPanelEvent::Signal(Some(ChatStatus {
        message_count: 2,
        is_streaming: false,
    })));
    assert_eq!(done.prompt_input, Some(true));
    assert_eq!(done.scroll_to, Some(1));
    assert!(panel.prompt_enabled());
    assert!(!panel.auto_scroll_pending());
    assert_eq!(panel.list().auto_scroll_state(), AutoScrollState::Idle);
}

#[test]
fn user_scroll_during_stream_stops_the_following() {
    let mut panel = panel();
    panel.message_sent(40);
    panel.handle_event(ChatPanelEvent::Signal(Some(ChatStatus {
        message_count: 40,
        is_streaming: true,
    })));
    let mut input = no_input();
    input.scrolled = Some(ScrollEvent { first: 12, offset: 0 });
    assert!(panel.handle_actions(&input).is_empty());
    assert_eq!(panel.list().auto_scroll_state(), AutoScrollState::CancelledByUser);
    for streaming in [true, true, false] {
        let outcome = panel.handle_event(ChatPanelEvent::Signal(Some(ChatStatus {
            message_count: 40,
            is_streaming: streaming,
        })));
        assert_eq!(outcome.scroll_to, None);
        assert_eq!(panel.list().viewport().first, 12);
    }
    assert_eq!(panel.message_sent(41).scroll_to, Some(40));
    assert!(panel.auto_scroll_pending());
}

#[test]
fn scroll_right_after_sending_does_not_cancel() {
    let mut panel = panel();
    panel.message_sent(40);
    let mut input = no_input();
    input.scrolled = Some(ScrollEvent { first: 39, offset: -4 });
    panel.handle_actions(&input);
    assert!(panel.auto_scroll_pending());
}

#[test]
fn signal_without_chat_only_redraws() {
    let mut panel = panel();
    let outcome = panel.handle_event(ChatPanelEvent::Signal(None));
    assert_eq!(outcome.prompt_input, None);
    assert_eq!(outcome.scroll_to, None);
    assert!(outcome.redraw);
    let other = panel.handle_event(ChatPanelEvent::Other);
    assert!(!other.redraw);
    assert!(panel.prompt_enabled());
}

#[test]
fn resizing_the_panel_changes_what_is_drawn() {
    let mut panel = panel();
    panel.set_viewport_extent(20, 10);
    let chat = ChatSnapshot {
        messages: (0..5).map(|i| message(i, false, "m")).collect(),
        model_filename: "m".to_string(),
    };
    assert_eq!(panel.draw_walk(Some(&chat)).lines.len(), 2);
}

#[test]
fn host_driven_chat_pass_draws_what_the_host_asks_for() {
    let mut panel = panel();
    let chat = ChatSnapshot {
        messages: (0..30).map(|i| message(i, i % 2 == 0, " m ")).collect(),
        model_filename: "qwen".to_string(),
    };
    assert_eq!(panel.begin_pass(Some(&chat)), None);
    assert_eq!(panel.list().item_count(), 30);

    // The host may ask in any order, and beyond the coordinator's own window.
    let late = panel.draw_item(Some(&chat), 29).unwrap();
    assert_eq!(late.message_id, 29);
    assert_eq!(late.role, "You");
    assert_eq!(late.view.kind, KindTag::UserChatLine);
    let early = panel.draw_item(Some(&chat), 0).unwrap();
    assert_eq!(early.role, "qwen");
    assert_eq!(early.avatar_letter, Some("Q".to_string()));
    assert_eq!(early.text, "m");
    assert_ne!(early.view, late.view);
    assert_eq!(panel.draw_item(Some(&chat), 29).unwrap().view, late.view);

    assert!(panel.draw_item(Some(&chat), 30).is_none());
    assert!(panel.draw_item(None, 0).is_none());
}

#[test]
fn host_driven_pass_over_nothing_sets_the_empty_avatar() {
    let mut panel = panel();
    assert_eq!(panel.begin_pass(None), Some(String::new()));
    let chat = ChatSnapshot { messages: Vec::new(), model_filename: "yi".to_string() };
    assert_eq!(panel.begin_pass(Some(&chat)), Some("Y".to_string()));
    assert!(panel.draw_item(Some(&chat), 0).is_none());
}
