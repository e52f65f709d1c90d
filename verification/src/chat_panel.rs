//! The chat transcript screen: which lines a pass draws and what they say,
//! when the prompt input is open, and how sending and streaming drive the
//! list's auto-scroll.
//!
//! The screen decides; its host performs. Each handler takes what the host
//! observed as plain values and returns what the host is to do.

use vstd::prelude::*;
use vstd::string::{StrSliceExecFns, StringExecFns};
use crate::coordinator::VirtualizedListCoordinator;
use crate::list_model::{
    pass_item, pass_state, visible, AutoScrollOutcome, AutoScrollState, DrawnItem, ListModel,
    ScrollEvent,
};
use crate::pool::{resolved_slot, KindTag, ViewHandle};
use crate::text::{to_uppercase, trimmed, trimmed_text, uppercase_of};

verus! {

/// One message of the transcript, as a pass reads it.
pub struct ChatMessage {
    pub id: usize,
    pub is_assistant: bool,
    pub content: String,
}

/// The chat that the screen shows, as a pass reads it.
pub struct ChatSnapshot {
    pub messages: Vec<ChatMessage>,
    pub model_filename: String,
}

/// What the data source says of the current chat when it signals.
#[derive(Clone, Copy, Debug, PartialEq, Eq, Structural)]
pub struct ChatStatus {
    pub message_count: usize,
    pub is_streaming: bool,
}

/// What the host hands to `handle_event`.
#[derive(Clone, Copy, Debug, PartialEq, Eq, Structural)]
pub enum ChatPanelEvent {
    /// The data source changed; the current chat, if there is one.
    Signal(Option<ChatStatus>),
    /// Any other event.
    Other,
}

/// What the host is to do after an event.
#[derive(Clone, Copy, Debug, PartialEq, Eq, Structural)]
pub struct SignalOutcome {
    /// Open or close the prompt input.
    pub prompt_input: Option<bool>,
    /// Put this index at the leading edge of the list.
    pub scroll_to: Option<usize>,
    pub redraw: bool,
}

/// A widget action that concerns the screen.
pub enum ChatPanelAction {
    /// A model file was chosen, named by its id.
    ModelSelected(String),
    /// A line asks for its message to be deleted.
    DeleteMessage(usize),
    Other,
}

/// What the host observed in one round of actions.
pub struct ChatPanelInput {
    pub actions: Vec<ChatPanelAction>,
    /// The prompt's text, if it changed.
    pub prompt_changed: Option<String>,
    /// The list's position, if it was scrolled.
    pub scrolled: Option<ScrollEvent>,
    /// The prompt's text, if return was pressed.
    pub prompt_returned: Option<String>,
}

/// Something the host is to do.
pub enum ChatPanelEffect {
    /// Show the transcript and the empty-conversation notice, hide the
    /// no-model notice.
    ShowConversation,
    LoadModel(String),
    DeleteChatMessage(usize),
    Redraw,
    EnablePromptInput,
    DisablePromptInput,
    /// Send the message, then call `message_sent` with the new count.
    SendChatMessage(String),
    ClearPrompt,
    HideEmptyConversation,
}

/// One line of the transcript as it is to be drawn. Every field is set anew in
/// every pass.
pub struct ChatLine {
    pub view: ViewHandle,
    pub message_id: usize,
    pub role: String,
    /// The letter on the avatar of an assistant's line.
    pub avatar_letter: Option<String>,
    pub text: String,
}

/// What one pass draws.
pub struct ChatDrawing {
    /// The avatar letter of the empty-conversation notice, set while there is
    /// no message.
    pub empty_avatar: Option<String>,
    pub lines: Vec<ChatLine>,
}

/// The state of the screen.
pub struct ChatPanelModel {
    pub list: ListModel,
    pub loaded: bool,
    pub prompt_enabled: bool,
}

/// The first character of a file name in upper case; nothing for no name.
pub open spec fn initial_of(filename: Seq<char>) -> Seq<char> {
    if filename.len() == 0 {
        filename
    } else {
        uppercase_of(filename[0])
    }
}

/// The template of a message's line.
pub open spec fn line_kind(message: ChatMessage) -> KindTag {
    if message.is_assistant {
        KindTag::ModelChatLine
    } else {
        KindTag::UserChatLine
    }
}

/// The template of each message's line.
pub open spec fn line_kinds(messages: Seq<ChatMessage>) -> Seq<KindTag> {
    Seq::new(messages.len(), |i: int| line_kind(messages[i]))
}

/// `line` is what is drawn for `message` in the view instance of `item`.
pub open spec fn line_shows(
    line: ChatLine,
    item: DrawnItem,
    message: ChatMessage,
    filename: Seq<char>,
) -> bool {
    &&& line.view == item.view
    &&& line.message_id == message.id
    &&& line.text@ == trimmed(message.content@)
    &&& line.role@ == if message.is_assistant {
        filename
    } else {
        "You"@
    }
    &&& match line.avatar_letter {
        Some(letter) => message.is_assistant && letter@ == initial_of(filename),
        None => !message.is_assistant,
    }
}

/// The messages that a pass runs over: those of the chat, or none.
pub open spec fn shown_messages(chat: Option<&ChatSnapshot>) -> Seq<ChatMessage> {
    match chat {
        Some(chat) => chat.messages@,
        None => Seq::empty(),
    }
}

/// The model file's name that a pass writes on the assistant's lines.
pub open spec fn shown_name(chat: Option<&ChatSnapshot>) -> Seq<char> {
    match chat {
        Some(chat) => chat.model_filename@,
        None => Seq::empty(),
    }
}

/// `drawing` is what one pass over `messages` draws, and `after` is the list
/// it leaves: a line for each visible message, in ascending order, in the
/// view instance that the pass lends to it.
pub open spec fn draws(
    before: ListModel,
    after: ListModel,
    messages: Seq<ChatMessage>,
    filename: Seq<char>,
    drawing: ChatDrawing,
) -> bool {
    let begun = before.begin_pass(messages.len() as usize);
    let kinds = line_kinds(messages);
    &&& drawing.lines@.len() == visible(before.viewport, messages.len() as usize).len()
    &&& after == pass_state(begun, kinds, drawing.lines@.len() as nat)
    &&& forall|k: int|
        0 <= k < drawing.lines@.len() ==> pass_item(begun, kinds, k as nat).index < messages.len()
            && line_shows(
            #[trigger] drawing.lines@[k],
            pass_item(begun, kinds, k as nat),
            messages[pass_item(begun, kinds, k as nat).index as int],
            filename,
        )
    &&& match drawing.empty_avatar {
        Some(letter) => messages.len() == 0 && letter@ == initial_of(filename),
        None => messages.len() > 0,
    }
}

/// What one action asks of the host.
pub open spec fn effects_of(action: ChatPanelAction) -> Seq<ChatPanelEffect> {
    match action {
        ChatPanelAction::ModelSelected(file) => seq![
            ChatPanelEffect::ShowConversation,
            ChatPanelEffect::LoadModel(file),
        ],
        ChatPanelAction::DeleteMessage(id) => seq![
            ChatPanelEffect::DeleteChatMessage(id),
            ChatPanelEffect::Redraw,
        ],
        ChatPanelAction::Other => seq![],
    }
}

/// What a run of actions asks of the host, in order.
pub open spec fn action_effects(actions: Seq<ChatPanelAction>) -> Seq<ChatPanelEffect>
    decreases actions.len(),
{
    if actions.len() == 0 {
        seq![]
    } else {
        action_effects(actions.drop_last()) + effects_of(actions.last())
    }
}

/// Some action chose a model.
pub open spec fn selects_model(actions: Seq<ChatPanelAction>) -> bool {
    exists|i: int| 0 <= i < actions.len() && #[trigger] actions[i] is ModelSelected
}

impl ChatPanelModel {
    /// Whether the prompt input is open once the actions are dealt with.
    pub open spec fn open_after_actions(self, input: ChatPanelInput) -> bool {
        self.prompt_enabled || selects_model(input.actions@)
    }

    /// Whether the round sends a message: the prompt is open and return was
    /// pressed on a text that is not blank.
    pub open spec fn sends(self, input: ChatPanelInput) -> bool {
        self.open_after_actions(input) && match input.prompt_returned {
            Some(prompt) => trimmed(prompt@).len() > 0,
            None => false,
        }
    }

    /// What a change of the prompt's text asks of the host: the input is shown
    /// as open while the prompt is open and has text, and as closed otherwise.
    pub open spec fn prompt_effects(self, input: ChatPanelInput) -> Seq<ChatPanelEffect> {
        match input.prompt_changed {
            Some(text) => if self.open_after_actions(input) && text@.len() > 0 {
                seq![ChatPanelEffect::EnablePromptInput]
            } else {
                seq![ChatPanelEffect::DisablePromptInput]
            },
            None => seq![],
        }
    }

    /// What sending a message asks of the host, in order.
    pub open spec fn send_effects(self, input: ChatPanelInput) -> Seq<ChatPanelEffect> {
        if self.sends(input) {
            seq![
                ChatPanelEffect::DisablePromptInput,
                ChatPanelEffect::SendChatMessage(input.prompt_returned->0),
                ChatPanelEffect::ClearPrompt,
                ChatPanelEffect::HideEmptyConversation,
            ]
        } else {
            seq![]
        }
    }

    /// What a round of actions asks of the host, in order.
    pub open spec fn effects(self, input: ChatPanelInput) -> Seq<ChatPanelEffect> {
        action_effects(input.actions@) + self.prompt_effects(input) + self.send_effects(input)
    }

    /// The screen after a round of actions.
    pub open spec fn after_actions(self, input: ChatPanelInput) -> ChatPanelModel {
        ChatPanelModel {
            list: match input.scrolled {
                Some(event) => self.list.scrolled(event),
                None => self.list,
            },
            loaded: self.loaded || selects_model(input.actions@),
            prompt_enabled: self.open_after_actions(input) && !self.sends(input),
        }
    }

    /// The screen after an event.
    pub open spec fn after_event(self, event: ChatPanelEvent) -> ChatPanelModel {
        match event {
            ChatPanelEvent::Signal(Some(status)) => ChatPanelModel {
                list: self.list.reported(status.is_streaming, status.message_count),
                loaded: self.loaded,
                prompt_enabled: !status.is_streaming,
            },
            _ => self,
        }
    }

    /// The screen after a run of events.
    pub open spec fn after_events(self, events: Seq<ChatPanelEvent>) -> ChatPanelModel
        decreases events.len(),
    {
        if events.len() == 0 {
            self
        } else {
            self.after_events(events.drop_last()).after_event(events.last())
        }
    }

    /// What the host is to do after an event.
    pub open spec fn event_outcome(self, event: ChatPanelEvent) -> SignalOutcome {
        match event {
            ChatPanelEvent::Signal(Some(status)) => SignalOutcome {
                prompt_input: Some(!status.is_streaming),
                scroll_to: self.list.report_outcome(
                    status.is_streaming,
                    status.message_count,
                ).scroll_to,
                redraw: true,
            },
            ChatPanelEvent::Signal(None) => SignalOutcome {
                prompt_input: None,
                scroll_to: None,
                redraw: true,
            },
            ChatPanelEvent::Other => SignalOutcome {
                prompt_input: None,
                scroll_to: None,
                redraw: false,
            },
        }
    }
}

/// While the user has taken over, events move nothing: whatever events
/// arrive, the auto-scroll stays called off and the screen asks for no scroll,
/// until a message is sent.
pub proof fn lemma_events_do_not_scroll_after_cancel(
    model: ChatPanelModel,
    events: Seq<ChatPanelEvent>,
    next: ChatPanelEvent,
)
    requires
        model.list.state == AutoScrollState::CancelledByUser,
    ensures
        model.after_events(events).list.state == AutoScrollState::CancelledByUser,
        model.after_events(events).event_outcome(next).scroll_to is None,
    decreases events.len(),
{
    if events.len() > 0 {
        lemma_events_do_not_scroll_after_cancel(model, events.drop_last(), events.last());
    }
}

/// The chat transcript screen.
pub struct ChatPanel {
    list: VirtualizedListCoordinator,
    loaded: bool,
    prompt_enabled: bool,
}

impl View for ChatPanel {
    type V = ChatPanelModel;

    closed spec fn view(&self) -> ChatPanelModel {
        ChatPanelModel {
            list: self.list@,
            loaded: self.loaded,
            prompt_enabled: self.prompt_enabled,
        }
    }
}

impl ChatPanel {
    /// The screen's invariant: that of its list.
    pub open spec fn wf(&self) -> bool {
        self@.list.wf()
    }

    /// A screen with no model loaded and the prompt open, over a list with
    /// the given geometry and thresholds.
    pub fn new(extent: u32, row_extent: u32, near_end: usize, top: i64) -> (panel: Self)
        ensures
            panel.wf(),
            panel@ == (ChatPanelModel {
                list: ListModel::initial(extent, row_extent, near_end, top),
                loaded: false,
                prompt_enabled: true,
            }),
    {
        ChatPanel {
            list: VirtualizedListCoordinator::new(extent, row_extent, near_end, top),
            loaded: false,
            prompt_enabled: true,
        }
    }

    /// The list of the transcript.
    pub fn list(&self) -> (list: &VirtualizedListCoordinator)
        ensures
            list@ == self@.list,
    {
        &self.list
    }

    /// Whether a model was chosen.
    pub fn loaded(&self) -> (loaded: bool)
        ensures
            loaded == self@.loaded,
    {
        self.loaded
    }

    /// Whether the prompt takes a message.
    pub fn prompt_enabled(&self) -> (enabled: bool)
        ensures
            enabled == self@.prompt_enabled,
    {
        self.prompt_enabled
    }

    /// Whether the list follows the end of the transcript at the moment.
    pub fn auto_scroll_pending(&self) -> (pending: bool)
        ensures
            pending == (self@.list.state == AutoScrollState::PendingToEnd),
    {
        self.list.auto_scroll_state() == AutoScrollState::PendingToEnd
    }

    /// Whether a scroll notification would count as the user's.
    pub fn auto_scroll_cancellable(&self) -> (cancellable: bool)
        ensures
            cancellable == !self@.list.echo,
    {
        !self.list.expects_programmatic_scroll()
    }

    /// The visible area was resized.
    pub fn set_viewport_extent(&mut self, extent: u32, row_extent: u32)
        requires
            old(self).wf(),
        ensures
            final(self).wf(),
            final(self)@ == (ChatPanelModel {
                list: old(self)@.list.resize(extent, row_extent),
                ..old(self)@
            }),
    {
        self.list.set_viewport_extent(extent, row_extent);
    }

    /// Takes an event. On a signal with a chat, the prompt opens when the
    /// chat is not streaming and closes when it is, and the list follows the
    /// end of the transcript if an auto-scroll is pending.
    pub fn handle_event(&mut self, event: ChatPanelEvent) -> (outcome: SignalOutcome)
        requires
            old(self).wf(),
        ensures
            final(self).wf(),
            final(self)@ == old(self)@.after_event(event),
            outcome == old(self)@.event_outcome(event),
    {
        match event {
            ChatPanelEvent::Signal(Some(status)) => {
                self.prompt_enabled = !status.is_streaming;
                let scroll = self.list.observe_liveness(status.is_streaming, status.message_count);
                SignalOutcome {
                    prompt_input: Some(!status.is_streaming),
                    scroll_to: scroll.scroll_to,
                    redraw: true,
                }
            },
            ChatPanelEvent::Signal(None) => SignalOutcome {
                prompt_input: None,
                scroll_to: None,
                redraw: true,
            },
            ChatPanelEvent::Other => SignalOutcome {
                prompt_input: None,
                scroll_to: None,
                redraw: false,
            },
        }
    }

    /// Takes one round of actions and says what the host is to do, in order.
    pub fn handle_actions(&mut self, input: &ChatPanelInput) -> (effects: Vec<ChatPanelEffect>)
        requires
            old(self).wf(),
        ensures
            final(self).wf(),
            final(self)@ == old(self)@.after_actions(*input),
            effects@ == old(self)@.effects(*input),
    {
        let mut effects: Vec<ChatPanelEffect> = Vec::new();
        let mut selected = false;
        let mut i: usize = 0;
        while i < input.actions.len()
            invariant
                i <= input.actions.len(),
                effects@ == action_effects(input.actions@.take(i as int)),
                selected == selects_model(input.actions@.take(i as int)),
            decreases input.actions.len() - i,
        {
            proof {
                let upto = input.actions@.take(i + 1);
                assert(upto.drop_last() =~= input.actions@.take(i as int));
                assert(upto.last() == input.actions@[i as int]);
                if selects_model(input.actions@.take(i as int)) {
                    let at = choose|at: int|
                        0 <= at < i && #[trigger] input.actions@.take(
                            i as int,
                        )[at] is ModelSelected;
                    assert(upto[at] is ModelSelected);
                }
                if selects_model(upto) && !(input.actions@[i as int] is ModelSelected) {
                    let at = choose|at: int| 0 <= at < i + 1 && #[trigger] upto[at] is ModelSelected;
                    assert(input.actions@.take(i as int)[at] is ModelSelected);
                }
                if input.actions@[i as int] is ModelSelected {
                    assert(upto[i as int] is ModelSelected);
                }
            }
            match &input.actions[i] {
                ChatPanelAction::ModelSelected(file) => {
                    selected = true;
                    effects.push(ChatPanelEffect::ShowConversation);
                    effects.push(ChatPanelEffect::LoadModel(file.clone()));
                },
                ChatPanelAction::DeleteMessage(id) => {
                    effects.push(ChatPanelEffect::DeleteChatMessage(*id));
                    effects.push(ChatPanelEffect::Redraw);
                },
                ChatPanelAction::Other => {},
            }
            assert(effects@ =~= action_effects(input.actions@.take(i as int)) + effects_of(
                input.actions@[i as int],
            ));
            i += 1;
        }
        assert(input.actions@.take(input.actions.len() as int) =~= input.actions@);
        if selected {
            self.loaded = true;
            self.prompt_enabled = true;
        }
        match &input.prompt_changed {
            Some(text) => {
                if self.prompt_enabled && !text.as_str().is_empty() {
                    effects.push(ChatPanelEffect::EnablePromptInput);
                } else {
                    effects.push(ChatPanelEffect::DisablePromptInput);
                }
            },
            None => {},
        }
        assert(effects@ =~= action_effects(input.actions@) + old(self)@.prompt_effects(*input));
        match input.scrolled {
            Some(event) => {
                self.list.on_scroll_event(event);
            },
            None => {},
        }
        if self.prompt_enabled {
            match &input.prompt_returned {
                Some(prompt) => {
                    if !crate::text::is_blank(prompt.as_str()) {
                        self.prompt_enabled = false;
                        effects.push(ChatPanelEffect::DisablePromptInput);
                        effects.push(ChatPanelEffect::SendChatMessage(prompt.clone()));
                        effects.push(ChatPanelEffect::ClearPrompt);
                        effects.push(ChatPanelEffect::HideEmptyConversation);
                    }
                },
                None => {},
            }
        }
        assert(effects@ =~= old(self)@.effects(*input));
        effects
    }

    /// A message was sent and the transcript now has `message_count`
    /// messages: a new auto-scroll episode begins.
    pub fn message_sent(&mut self, message_count: usize) -> (outcome: AutoScrollOutcome)
        requires
            old(self).wf(),
        ensures
            final(self).wf(),
            final(self)@ == (ChatPanelModel {
                list: old(self)@.list.appended(message_count),
                ..old(self)@
            }),
            outcome == old(self)@.list.append_outcome(message_count),
    {
        self.list.on_append(message_count)
    }

    /// The first character of a file name in upper case.
    pub fn initial_letter(filename: &str) -> (letter: String)
        ensures
            letter@ == initial_of(filename@),
    {
        if filename.is_empty() {
            String::from_str(filename)
        } else {
            to_uppercase(filename.get_char(0))
        }
    }

    /// The template of each message's line.
    pub fn kinds_of(messages: &Vec<ChatMessage>) -> (kinds: Vec<KindTag>)
        ensures
            kinds@ == line_kinds(messages@),
    {
        let mut kinds: Vec<KindTag> = Vec::new();
        let mut i: usize = 0;
        while i < messages.len()
            invariant
                i <= messages.len(),
                kinds@.len() == i,
                forall|k: int| 0 <= k < i ==> kinds@[k] == line_kind(messages@[k]),
            decreases messages.len() - i,
        {
            if messages[i].is_assistant {
                kinds.push(KindTag::ModelChatLine);
            } else {
                kinds.push(KindTag::UserChatLine);
            }
            i += 1;
        }
        assert(kinds@ =~= line_kinds(messages@));
        kinds
    }

    /// What is drawn for one message in the view instance lent to it.
    pub fn line_for(item: DrawnItem, message: &ChatMessage, filename: &str) -> (line: ChatLine)
        ensures
            line_shows(line, item, *message, filename@),
    {
        let text = trimmed_text(message.content.as_str());
        if message.is_assistant {
            ChatLine {
                view: item.view,
                message_id: message.id,
                role: String::from_str(filename),
                avatar_letter: Some(Self::initial_letter(filename)),
                text,
            }
        } else {
            ChatLine {
                view: item.view,
                message_id: message.id,
                role: String::from_str("You"),
                avatar_letter: None,
                text,
            }
        }
    }

    /// Begins a pass that the host's own list lays out: declares the range,
    /// and returns the avatar letter of the empty-conversation notice while
    /// there is no message.
    pub fn begin_pass(&mut self, chat: Option<&ChatSnapshot>) -> (empty_avatar: Option<String>)
        requires
            old(self).wf(),
        ensures
            final(self).wf(),
            final(self)@ == (ChatPanelModel {
                list: old(self)@.list.begin_pass(shown_messages(chat).len() as usize),
                ..old(self)@
            }),
            match empty_avatar {
                Some(letter) => shown_messages(chat).len() == 0 && letter@ == initial_of(
                    shown_name(chat),
                ),
                None => shown_messages(chat).len() > 0,
            },
    {
        match chat {
            Some(chat) => {
                self.list.set_item_count(chat.messages.len());
                if chat.messages.len() == 0 {
                    Some(Self::initial_letter(chat.model_filename.as_str()))
                } else {
                    None
                }
            },
            None => {
                self.list.set_item_count(0);
                proof {
                    reveal_strlit("");
                    assert(""@ =~= Seq::<char>::empty());
                }
                Some(Self::initial_letter(""))
            },
        }
    }

    /// One step of such a pass: what is drawn at `index`, in the view
    /// instance lent to it; nothing where the chat has no message there.
    pub fn draw_item(&mut self, chat: Option<&ChatSnapshot>, index: usize) -> (line: Option<
        ChatLine,
    >)
        requires
            old(self).wf(),
        ensures
            final(self).wf(),
            match line {
                Some(line) => index < shown_messages(chat).len() && final(self)@ == (
                ChatPanelModel {
                    list: old(self)@.list.resolve(index, line_kind(shown_messages(chat)[index as int])),
                    ..old(self)@
                }) && line_shows(
                    line,
                    DrawnItem {
                        index,
                        view: ViewHandle {
                            kind: line_kind(shown_messages(chat)[index as int]),
                            slot: resolved_slot(
                                old(self)@.list.pool,
                                index,
                                line_kind(shown_messages(chat)[index as int]),
                            ) as usize,
                        },
                    },
                    shown_messages(chat)[index as int],
                    shown_name(chat),
                ),
                None => index >= shown_messages(chat).len() && final(self)@ == old(self)@,
            },
    {
        match chat {
            Some(chat) => {
                if index < chat.messages.len() {
                    let message = &chat.messages[index];
                    let kind = if message.is_assistant {
                        KindTag::ModelChatLine
                    } else {
                        KindTag::UserChatLine
                    };
                    let view = self.list.resolve_view(index, kind);
                    Some(
                        Self::line_for(
                            DrawnItem { index, view },
                            message,
                            chat.model_filename.as_str(),
                        ),
                    )
                } else {
                    None
                }
            },
            None => None,
        }
    }

    /// Runs one pass over the chat as it is now, or over nothing where there
    /// is no chat: the visible messages in ascending order, each with a view
    /// instance of its template and with everything its line shows.
    pub fn draw_walk(&mut self, chat: Option<&ChatSnapshot>) -> (drawing: ChatDrawing)
        requires
            old(self).wf(),
        ensures
            final(self).wf(),
            final(self)@.loaded == old(self)@.loaded,
            final(self)@.prompt_enabled == old(self)@.prompt_enabled,
            draws(old(self)@.list, final(self)@.list, shown_messages(chat), shown_name(chat), drawing),
    {
        match chat {
            Some(chat) => self.draw_messages(&chat.messages, chat.model_filename.as_str()),
            None => {
                let messages: Vec<ChatMessage> = Vec::new();
                proof {
                    reveal_strlit("");
                    assert(""@ =~= Seq::<char>::empty());
                    assert(messages@ =~= Seq::<ChatMessage>::empty());
                }
                self.draw_messages(&messages, "")
            },
        }
    }

    fn draw_messages(&mut self, messages: &Vec<ChatMessage>, filename: &str) -> (drawing:
        ChatDrawing)
        requires
            old(self).wf(),
        ensures
            final(self).wf(),
            final(self)@.loaded == old(self)@.loaded,
            final(self)@.prompt_enabled == old(self)@.prompt_enabled,
            draws(old(self)@.list, final(self)@.list, messages@, filename@, drawing),
    {
        let empty_avatar = if messages.len() == 0 {
            Some(Self::initial_letter(filename))
        } else {
            None
        };
        let kinds = Self::kinds_of(messages);
        let drawn = self.list.draw_pass(&kinds);
        let ghost begun = old(self)@.list.begin_pass(messages@.len() as usize);
        let mut lines: Vec<ChatLine> = Vec::new();
        let mut k: usize = 0;
        while k < drawn.len()
            invariant
                k <= drawn.len(),
                lines@.len() == k,
                kinds@ == line_kinds(messages@),
                kinds@.len() == messages.len(),
                forall|j: int|
                    0 <= j < drawn@.len() ==> #[trigger] drawn@[j] == pass_item(
                        begun,
                        kinds@,
                        j as nat,
                    ),
                forall|j: int| 0 <= j < drawn@.len() ==> (#[trigger] drawn@[j]).index < kinds.len(),
                forall|j: int|
                    0 <= j < k ==> line_shows(
                        #[trigger] lines@[j],
                        drawn@[j],
                        messages@[drawn@[j].index as int],
                        filename@,
                    ),
            decreases drawn.len() - k,
        {
            let item = drawn[k];
            lines.push(Self::line_for(item, &messages[item.index], filename));
            k += 1;
        }
        assert forall|j: int| 0 <= j < lines@.len() implies (#[trigger] pass_item(
            begun,
            line_kinds(messages@),
            j as nat,
        )).index < messages@.len() && line_shows(
            lines@[j],
            pass_item(begun, line_kinds(messages@), j as nat),
            messages@[pass_item(begun, line_kinds(messages@), j as nat).index as int],
            filename@,
        ) by {
            assert(drawn@[j] == pass_item(begun, kinds@, j as nat));
            assert(drawn@[j].index < kinds.len());
        }
        ChatDrawing { empty_avatar, lines }
    }
}

} // verus!
