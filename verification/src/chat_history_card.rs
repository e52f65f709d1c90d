//! One card of the chat history: its chat, whether its title is being edited,
//! and what the card does about clicks, menu choices and title edits.

use vstd::prelude::*;
use crate::text::{to_uppercase, trimmed, trimmed_text, uppercase_of};

verus! {

/// Names a chat.
pub type ChatID = u128;

/// Whether the card's title is shown or being edited.
#[derive(Clone, Copy, Debug, PartialEq, Eq, Structural)]
pub enum TitleState {
    OnEdit,
    Editable,
}

/// What a card and its menu tell each other and the screens around them.
#[derive(Clone, Copy, Debug, PartialEq, Eq, Hash, Structural)]
pub enum ChatHistoryCardAction {
    NoAction,
    ChatSelected,
    ActivateTitleEdition(ChatID),
    MenuClosed(ChatID),
    DeleteChatOptionSelected(ChatID),
}

/// Which parts of the title area are visible.
#[derive(Clone, Copy, Debug, PartialEq, Eq, Structural)]
pub struct TitleVisibility {
    pub edit_buttons: bool,
    pub title_input_container: bool,
    pub chat_options: bool,
    pub title_label_container: bool,
}

/// The texts of the title area.
pub struct TitleText {
    pub label: String,
    /// The text of the title input, set while the title is not being edited.
    pub input: Option<String>,
}

/// Something the host is to do.
pub enum CardEffect {
    ResetOptionsHover,
    CloseOptionsModal,
    /// Show the parts of the title area so, and draw again.
    ShowTitle(TitleVisibility),
    /// Hand the chat to the delete dialog and open it.
    OpenDeleteModal(ChatID),
    /// Give the chat this title and save it.
    SaveTitle(String),
    /// Tell the options menu which chat it is for.
    SelectOptions(ChatID),
    /// Open the options menu below the options button.
    OpenOptionsModal,
    Emit(ChatHistoryCardAction),
    SetCurrentChat(ChatID),
    Redraw,
    CloseDeleteModal,
}

/// What the host observed in one round of actions.
pub struct CardInput {
    /// The card actions among them, in order.
    pub actions: Vec<ChatHistoryCardAction>,
    /// The options menu was dismissed.
    pub options_dismissed: bool,
    /// The options button was clicked.
    pub options_clicked: bool,
    /// The save button was clicked.
    pub save_clicked: bool,
    /// The cancel button was clicked.
    pub cancel_clicked: bool,
    /// The text of the title input.
    pub title_input: String,
    /// The chat's title as stored.
    pub stored_title: String,
    /// How many taps the finger-down on the card's content counts, if there
    /// was one.
    pub content_taps: Option<u32>,
    /// How many actions of the delete dialog close it: cancelled, closed by
    /// its button, or done.
    pub delete_dialog_closings: usize,
}

/// What one pass draws.
pub struct CardDrawing {
    /// Whether the card is the current chat's, where there is a current chat.
    pub highlighted: Option<bool>,
    pub title: TitleText,
    pub visibility: TitleVisibility,
    pub avatar_letter: String,
}

/// The state of a card.
pub struct CardModel {
    pub chat_id: ChatID,
    pub title_edition_state: TitleState,
}

/// The other title state.
pub open spec fn toggled(state: TitleState) -> TitleState {
    match state {
        TitleState::OnEdit => TitleState::Editable,
        TitleState::Editable => TitleState::OnEdit,
    }
}

/// The parts of the title area that a title state shows.
pub open spec fn visibility_of(state: TitleState) -> TitleVisibility {
    TitleVisibility {
        edit_buttons: state == TitleState::OnEdit,
        title_input_container: state == TitleState::OnEdit,
        chat_options: state != TitleState::OnEdit,
        title_label_container: state == TitleState::Editable,
    }
}

/// `text` is what the title area shows of `title` in `state`.
pub open spec fn title_shows(text: TitleText, title: Seq<char>, state: TitleState) -> bool {
    &&& text.label@ == trimmed(title)
    &&& match text.input {
        Some(input) => state == TitleState::Editable && input@ == trimmed(title),
        None => state != TitleState::Editable,
    }
}

/// The avatar's letter: the initial of the chat's last used file in upper
/// case, or that of `A` where there is none.
pub open spec fn avatar_of(initial: Option<char>) -> Seq<char> {
    match initial {
        Some(letter) => uppercase_of(letter),
        None => uppercase_of('A'),
    }
}

/// What a finger-down on the content of the card of `chat_id` asks of the
/// host: a single tap selects the chat.
pub open spec fn taps_effects(chat_id: ChatID, taps: Option<u32>) -> Seq<CardEffect> {
    if taps == Some(1u32) {
        seq![
            CardEffect::Emit(ChatHistoryCardAction::ChatSelected),
            CardEffect::SetCurrentChat(chat_id),
            CardEffect::Redraw,
        ]
    } else {
        seq![]
    }
}

/// The delete dialog is closed once for each action that closes it.
pub open spec fn closing_effects(closings: nat) -> Seq<CardEffect> {
    Seq::new(closings, |i: int| CardEffect::CloseDeleteModal)
}

impl CardModel {
    /// The card after the action, while its title is not being edited.
    pub open spec fn after_menu_action(self, action: ChatHistoryCardAction) -> CardModel {
        if action == ChatHistoryCardAction::ActivateTitleEdition(self.chat_id) {
            CardModel { title_edition_state: toggled(self.title_edition_state), ..self }
        } else {
            self
        }
    }

    /// What the action asks of the host, while the title is not being
    /// edited; a dismissed options menu has the button's hover reset along
    /// with every action.
    pub open spec fn menu_action_effects(
        self,
        action: ChatHistoryCardAction,
        dismissed: bool,
    ) -> Seq<CardEffect> {
        (if action == ChatHistoryCardAction::MenuClosed(self.chat_id) {
            seq![CardEffect::ResetOptionsHover, CardEffect::CloseOptionsModal]
        } else if action == ChatHistoryCardAction::ActivateTitleEdition(self.chat_id) {
            seq![CardEffect::ShowTitle(visibility_of(toggled(self.title_edition_state)))]
        } else if action == ChatHistoryCardAction::DeleteChatOptionSelected(self.chat_id) {
            seq![CardEffect::OpenDeleteModal(self.chat_id)]
        } else {
            seq![]
        }) + (if dismissed {
            seq![CardEffect::ResetOptionsHover]
        } else {
            seq![]
        })
    }

    /// The card after a run of actions taken while its title was not being
    /// edited when the run began.
    pub open spec fn after_menu_actions(self, actions: Seq<ChatHistoryCardAction>) -> CardModel
        decreases actions.len(),
    {
        if actions.len() == 0 {
            self
        } else {
            self.after_menu_actions(actions.drop_last()).after_menu_action(actions.last())
        }
    }

    /// What such a run asks of the host, in order.
    pub open spec fn menu_effects(
        self,
        actions: Seq<ChatHistoryCardAction>,
        dismissed: bool,
    ) -> Seq<CardEffect>
        decreases actions.len(),
    {
        if actions.len() == 0 {
            seq![]
        } else {
            self.menu_effects(actions.drop_last(), dismissed) + self.after_menu_actions(
                actions.drop_last(),
            ).menu_action_effects(actions.last(), dismissed)
        }
    }

    /// Whether a click on save stores the title: it is not blank and differs
    /// from the stored one.
    pub open spec fn saves(input: CardInput) -> bool {
        input.save_clicked && trimmed(input.title_input@).len() > 0 && input.stored_title@
            != input.title_input@
    }

    /// The card after the buttons of the title editor were looked at.
    pub open spec fn after_edit(self, input: CardInput) -> CardModel {
        let saved = if input.save_clicked {
            toggled(self.title_edition_state)
        } else {
            self.title_edition_state
        };
        CardModel {
            title_edition_state: if input.cancel_clicked {
                toggled(saved)
            } else {
                saved
            },
            ..self
        }
    }

    /// What the buttons of the title editor ask of the host, in order.
    pub open spec fn edit_effects(self, input: CardInput) -> Seq<CardEffect> {
        let saved = if input.save_clicked {
            toggled(self.title_edition_state)
        } else {
            self.title_edition_state
        };
        (if Self::saves(input) {
            seq![CardEffect::SaveTitle(input.title_input)]
        } else {
            seq![]
        }) + (if input.save_clicked {
            seq![CardEffect::ShowTitle(visibility_of(saved))]
        } else {
            seq![]
        }) + (if input.cancel_clicked {
            seq![CardEffect::ShowTitle(visibility_of(toggled(saved)))]
        } else {
            seq![]
        })
    }

    /// The card after its title area took a round of actions.
    pub open spec fn after_title_actions(self, input: CardInput) -> CardModel {
        match self.title_edition_state {
            TitleState::Editable => self.after_menu_actions(input.actions@),
            TitleState::OnEdit => self.after_edit(input),
        }
    }

    /// What the title area asks of the host in a round of actions.
    pub open spec fn title_effects(self, input: CardInput) -> Seq<CardEffect> {
        match self.title_edition_state {
            TitleState::Editable => self.menu_effects(input.actions@, input.options_dismissed),
            TitleState::OnEdit => self.edit_effects(input),
        }
    }

    /// What a click on the card's content asks of the host.
    pub open spec fn tap_effects(self, input: CardInput) -> Seq<CardEffect> {
        taps_effects(self.chat_id, input.content_taps)
    }

    /// What a round of actions asks of the host, in order. A click on the
    /// options button opens the menu and ends the round.
    pub open spec fn effects(self, input: CardInput) -> Seq<CardEffect> {
        self.title_effects(input) + (if input.options_clicked {
            seq![CardEffect::SelectOptions(self.chat_id), CardEffect::OpenOptionsModal]
        } else {
            self.tap_effects(input) + closing_effects(input.delete_dialog_closings as nat)
        })
    }
}

/// One card of the chat history.
pub struct ChatHistoryCard {
    chat_id: ChatID,
    title_edition_state: TitleState,
}

impl View for ChatHistoryCard {
    type V = CardModel;

    closed spec fn view(&self) -> CardModel {
        CardModel { chat_id: self.chat_id, title_edition_state: self.title_edition_state }
    }
}

impl ChatHistoryCard {
    /// A card for the chat zero whose title is not being edited.
    pub fn new() -> (card: Self)
        ensures
            card@ == (CardModel { chat_id: 0, title_edition_state: TitleState::Editable }),
    {
        ChatHistoryCard { chat_id: 0, title_edition_state: TitleState::Editable }
    }

    /// The chat that the card stands for.
    pub fn chat_id(&self) -> (id: ChatID)
        ensures
            id == self@.chat_id,
    {
        self.chat_id
    }

    /// Whether the title is shown or being edited.
    pub fn title_edition_state(&self) -> (state: TitleState)
        ensures
            state == self@.title_edition_state,
    {
        self.title_edition_state
    }

    /// Makes the card stand for another chat.
    pub fn set_chat_id(&mut self, id: ChatID)
        ensures
            final(self)@ == (CardModel { chat_id: id, ..old(self)@ }),
    {
        self.chat_id = id;
    }

    /// The texts of the title area for a title: trimmed, and the input left
    /// alone while the title is being edited.
    pub fn set_title_text(&self, text: &str) -> (shown: TitleText)
        ensures
            title_shows(shown, text@, self@.title_edition_state),
    {
        let label = trimmed_text(text);
        let input = match self.title_edition_state {
            TitleState::Editable => Some(trimmed_text(text)),
            TitleState::OnEdit => None,
        };
        TitleText { label, input }
    }

    /// Which parts of the title area are visible now.
    pub fn update_title_visibility(&self) -> (shown: TitleVisibility)
        ensures
            shown == visibility_of(self@.title_edition_state),
    {
        let on_edit = match self.title_edition_state {
            TitleState::OnEdit => true,
            TitleState::Editable => false,
        };
        TitleVisibility {
            edit_buttons: on_edit,
            title_input_container: on_edit,
            chat_options: !on_edit,
            title_label_container: !on_edit,
        }
    }

    /// Enters the title editor, or leaves it.
    pub fn transition_title_state(&mut self) -> (shown: TitleVisibility)
        ensures
            final(self)@ == (CardModel {
                title_edition_state: toggled(old(self)@.title_edition_state),
                ..old(self)@
            }),
            shown == visibility_of(final(self)@.title_edition_state),
    {
        self.title_edition_state = match self.title_edition_state {
            TitleState::OnEdit => TitleState::Editable,
            TitleState::Editable => TitleState::OnEdit,
        };
        self.update_title_visibility()
    }

    /// Takes the card actions of a round as the title area does while the
    /// title is not being edited: the menu's choices for this card's chat
    /// are carried out, those for other chats are passed over.
    pub fn handle_title_editable_actions(
        &mut self,
        actions: &Vec<ChatHistoryCardAction>,
        options_dismissed: bool,
    ) -> (effects: Vec<CardEffect>)
        ensures
            final(self)@ == old(self)@.after_menu_actions(actions@),
            effects@ == old(self)@.menu_effects(actions@, options_dismissed),
    {
        let mut effects: Vec<CardEffect> = Vec::new();
        let mut i: usize = 0;
        while i < actions.len()
            invariant
                i <= actions.len(),
                self@ == old(self)@.after_menu_actions(actions@.take(i as int)),
                effects@ == old(self)@.menu_effects(actions@.take(i as int), options_dismissed),
            decreases actions.len() - i,
        {
            proof {
                assert(actions@.take(i + 1).drop_last() =~= actions@.take(i as int));
                assert(actions@.take(i + 1).last() == actions@[i as int]);
            }
            let ghost before = effects@;
            let ghost card = self@;
            match actions[i] {
                ChatHistoryCardAction::MenuClosed(chat_id) => {
                    if chat_id == self.chat_id {
                        effects.push(CardEffect::ResetOptionsHover);
                        effects.push(CardEffect::CloseOptionsModal);
                    }
                },
                ChatHistoryCardAction::ActivateTitleEdition(chat_id) => {
                    if chat_id == self.chat_id {
                        let shown = self.transition_title_state();
                        effects.push(CardEffect::ShowTitle(shown));
                    }
                },
                ChatHistoryCardAction::DeleteChatOptionSelected(chat_id) => {
                    if chat_id == self.chat_id {
                        effects.push(CardEffect::OpenDeleteModal(self.chat_id));
                    }
                },
                _ => {},
            }
            if options_dismissed {
                effects.push(CardEffect::ResetOptionsHover);
            }
            assert(effects@ =~= before + card.menu_action_effects(
                actions@[i as int],
                options_dismissed,
            ));
            i += 1;
        }
        assert(actions@.take(actions.len() as int) =~= actions@);
        effects
    }

    /// Looks at the buttons of the title editor: save stores a title that is
    /// not blank and differs from the stored one, and leaves the editor;
    /// cancel leaves it.
    pub fn handle_title_on_edit_actions(&mut self, input: &CardInput) -> (effects: Vec<CardEffect>)
        ensures
            final(self)@ == old(self)@.after_edit(*input),
            effects@ == old(self)@.edit_effects(*input),
    {
        let mut effects: Vec<CardEffect> = Vec::new();
        if input.save_clicked {
            if !crate::text::is_blank(input.title_input.as_str()) && !(input.stored_title
                == input.title_input) {
                effects.push(CardEffect::SaveTitle(input.title_input.clone()));
            }
            let shown = self.transition_title_state();
            effects.push(CardEffect::ShowTitle(shown));
        }
        if input.cancel_clicked {
            let shown = self.transition_title_state();
            effects.push(CardEffect::ShowTitle(shown));
        }
        assert(effects@ =~= old(self)@.edit_effects(*input));
        effects
    }

    /// Adds what a finger-down on the card's content asks of the host.
    fn push_taps(effects: &mut Vec<CardEffect>, chat_id: ChatID, taps: Option<u32>)
        ensures
            final(effects)@ == old(effects)@ + taps_effects(chat_id, taps),
    {
        match taps {
            Some(count) => {
                if count == 1 {
                    effects.push(CardEffect::Emit(ChatHistoryCardAction::ChatSelected));
                    effects.push(CardEffect::SetCurrentChat(chat_id));
                    effects.push(CardEffect::Redraw);
                }
            },
            None => {},
        }
        assert(effects@ =~= old(effects)@ + taps_effects(chat_id, taps));
    }

    /// Adds one closing of the delete dialog for each action that closes it.
    fn push_closings(effects: &mut Vec<CardEffect>, closings: usize)
        ensures
            final(effects)@ == old(effects)@ + closing_effects(closings as nat),
    {
        let mut i: usize = 0;
        while i < closings
            invariant
                i <= closings,
                effects@ == old(effects)@ + closing_effects(i as nat),
            decreases closings - i,
        {
            effects.push(CardEffect::CloseDeleteModal);
            i += 1;
            assert(effects@ =~= old(effects)@ + closing_effects(i as nat));
        }
    }

    /// Takes one round of actions and says what the host is to do, in order.
    pub fn handle_actions(&mut self, input: &CardInput) -> (effects: Vec<CardEffect>)
        ensures
            final(self)@ == old(self)@.after_title_actions(*input),
            effects@ == old(self)@.effects(*input),
    {
        let chat_id = self.chat_id;
        let mut effects = match self.title_edition_state {
            TitleState::Editable => self.handle_title_editable_actions(
                &input.actions,
                input.options_dismissed,
            ),
            TitleState::OnEdit => self.handle_title_on_edit_actions(input),
        };
        let ghost title = effects@;
        assert(title == old(self)@.title_effects(*input));
        if input.options_clicked {
            effects.push(CardEffect::SelectOptions(chat_id));
            effects.push(CardEffect::OpenOptionsModal);
            assert(effects@ =~= title + seq![
                CardEffect::SelectOptions(chat_id),
                CardEffect::OpenOptionsModal,
            ]);
        } else {
            Self::push_taps(&mut effects, chat_id, input.content_taps);
            let ghost tapped = effects@;
            Self::push_closings(&mut effects, input.delete_dialog_closings);
            assert(effects@ =~= title + (taps_effects(chat_id, input.content_taps) + closing_effects(
                input.delete_dialog_closings as nat,
            )));
        }
        effects
    }

    /// The letter on the card's avatar.
    pub fn avatar_letter(initial: Option<char>) -> (letter: String)
        ensures
            letter@ == avatar_of(initial),
    {
        match initial {
            Some(letter) => to_uppercase(letter),
            None => to_uppercase('A'),
        }
    }

    /// What one pass draws of the card: whether it is the current chat's, its
    /// title, which parts of the title area are visible, and its avatar
    /// letter.
    pub fn draw_walk(&self, title: &str, current_chat: Option<ChatID>, initial: Option<char>) -> (
        drawing: CardDrawing
    )
        ensures
            drawing.highlighted == match current_chat {
                Some(current) => Some(current == self@.chat_id),
                None => None,
            },
            title_shows(drawing.title, title@, self@.title_edition_state),
            drawing.visibility == visibility_of(self@.title_edition_state),
            drawing.avatar_letter@ == avatar_of(initial),
    {
        let highlighted = match current_chat {
            Some(current) => Some(current == self.chat_id),
            None => None,
        };
        CardDrawing {
            highlighted,
            title: self.set_title_text(title),
            visibility: self.update_title_visibility(),
            avatar_letter: Self::avatar_letter(initial),
        }
    }
}

/// A reference to a card that may have gone.
pub struct ChatHistoryCardRef {
    card: Option<ChatHistoryCard>,
}

impl View for ChatHistoryCardRef {
    type V = Option<CardModel>;

    closed spec fn view(&self) -> Option<CardModel> {
        match self.card {
            Some(card) => Some(card@),
            None => None,
        }
    }
}

impl ChatHistoryCardRef {
    /// A reference to this card.
    pub fn new(card: ChatHistoryCard) -> (reference: Self)
        ensures
            reference@ == Some(card@),
    {
        ChatHistoryCardRef { card: Some(card) }
    }

    /// A reference to no card.
    pub fn empty() -> (reference: Self)
        ensures
            reference@ is None,
    {
        ChatHistoryCardRef { card: None }
    }

    /// The chat of the card, if there is a card.
    pub fn chat_id(&self) -> (id: Option<ChatID>)
        ensures
            id == match self@ {
                Some(card) => Some(card.chat_id),
                None => None,
            },
    {
        match &self.card {
            Some(card) => Some(card.chat_id()),
            None => None,
        }
    }

    /// Sets the chat of the card; fails where there is no card.
    pub fn set_chat_id(&mut self, id: ChatID) -> (done: Result<(), &'static str>)
        ensures
            done is Ok <==> old(self)@ is Some,
            final(self)@ == match old(self)@ {
                Some(card) => Some(CardModel { chat_id: id, ..card }),
                None => None,
            },
            done matches Err(message) ==> message@ == "Widget not found in the document"@,
    {
        match &mut self.card {
            Some(card) => {
                card.set_chat_id(id);
                Ok(())
            },
            None => Err("Widget not found in the document"),
        }
    }
}

} // verus!
