//! What the player's side of a session shows, as states and the messages
//! that move them: first the form on which the character is made, then the
//! screen on which the session is played. Drawing is left to whoever shows
//! them.

use vstd::prelude::*;

use crate::game::{BuilderView, GameBuilder};

pub mod character;
pub mod quest;

verus! {

/// What is on show.
#[derive(Debug)]
pub enum Screen {
    CharacterCreate(character::CharacterCreate),
    Quest(quest::QuestLog),
}

/// What a [`Screen`] is.
pub enum ScreenView {
    CharacterCreate(character::FormView),
    Quest(quest::ScreenView),
}

impl View for Screen {
    type V = ScreenView;

    open spec fn view(&self) -> ScreenView {
        match self {
            Screen::CharacterCreate(form) => ScreenView::CharacterCreate(form@),
            Screen::Quest(log) => ScreenView::Quest(log@),
        }
    }
}

/// A message, for the form or for the quest screen.
#[derive(Debug, PartialEq, Eq)]
pub enum Message {
    CharacterCreate(character::Message),
    Quest(quest::Message),
}

/// What a [`Message`] is.
pub enum MessageView {
    CharacterCreate(character::MessageView),
    Quest(quest::MessageView),
}

impl View for Message {
    type V = MessageView;

    open spec fn view(&self) -> MessageView {
        match self {
            Message::CharacterCreate(message) => MessageView::CharacterCreate(message@),
            Message::Quest(message) => MessageView::Quest(message@),
        }
    }
}

impl Clone for Message {
    fn clone(&self) -> (message: Self)
        ensures
            message@ == self@,
    {
        match self {
            Message::CharacterCreate(message) => Message::CharacterCreate(message.clone()),
            Message::Quest(message) => Message::Quest(message.clone()),
        }
    }
}

/// What the whole asks for.
#[derive(Debug)]
pub enum Action {
    /// Set up a session from the builder: the form was submitted and the
    /// quest screen is on show.
    Load(GameBuilder),
    /// What the quest screen asks for.
    Quest(quest::Action),
}

/// What an [`Action`] is.
pub enum ActionView {
    Load(BuilderView),
    Quest(quest::ActionView),
}

impl View for Action {
    type V = ActionView;

    open spec fn view(&self) -> ActionView {
        match self {
            Action::Load(builder) => ActionView::Load(builder@),
            Action::Quest(action) => ActionView::Quest(action@),
        }
    }
}

/// The state of the player's side: what is on show.
#[derive(Debug)]
pub struct State {
    pub screen: Screen,
}

/// What is on show after a message. A message for the screen that is not on
/// show changes nothing. The submitted form gives way to the quest screen,
/// which waits for its session.
pub open spec fn screen_after(screen: ScreenView, message: MessageView) -> ScreenView {
    match (screen, message) {
        (ScreenView::CharacterCreate(form), MessageView::CharacterCreate(message)) => if message
            is Submit {
            ScreenView::Quest(
                quest::ScreenView {
                    loaded: false,
                    input_field: Seq::<char>::empty(),
                    waiting: true,
                },
            )
        } else {
            ScreenView::CharacterCreate(character::form_after(form, message))
        },
        (ScreenView::Quest(log), MessageView::Quest(message)) => ScreenView::Quest(
            quest::screen_after(log, message),
        ),
        _ => screen,
    }
}

/// What the whole asks for on a message.
pub open spec fn action_on(screen: ScreenView, message: MessageView) -> Option<ActionView> {
    match (screen, message) {
        (ScreenView::CharacterCreate(form), MessageView::CharacterCreate(message)) => if message
            is Submit {
            Some(
                ActionView::Load(
                    BuilderView { character: character::submitted(form), api_key: None },
                ),
            )
        } else {
            None
        },
        (ScreenView::Quest(log), MessageView::Quest(message)) => match quest::action_on(
            log,
            message,
        ) {
            Some(action) => Some(ActionView::Quest(action)),
            None => None,
        },
        _ => None,
    }
}

/// The view of an action that may be absent.
pub open spec fn optional_action(action: Option<Action>) -> Option<ActionView> {
    match action {
        Some(action) => Some(action@),
        None => None,
    }
}

impl State {
    /// The state at the start: the empty form.
    pub fn new() -> (state: Self)
        ensures
            state.screen@ == ScreenView::CharacterCreate(
                character::FormView {
                    name_field: Seq::<char>::empty(),
                    race_field: Seq::<char>::empty(),
                    class_field: Seq::<char>::empty(),
                },
            ),
    {
        Self { screen: Screen::CharacterCreate(character::CharacterCreate::new()) }
    }
}

/// Hands a message to the screen it is for, if that screen is on show.
pub fn update(state: &mut State, message: Message) -> (action: Option<Action>)
    ensures
        final(state).screen@ == screen_after(old(state).screen@, message@),
        optional_action(action) == action_on(old(state).screen@, message@),
{
    match message {
        Message::CharacterCreate(message) => {
            if let Screen::CharacterCreate(form) = &mut state.screen {
                match form.update(message) {
                    Some(character::Action::Submit(character)) => {
                        let (log, builder) = quest::QuestLog::new(character);
                        state.screen = Screen::Quest(log);
                        Some(Action::Load(builder))
                    },
                    None => None,
                }
            } else {
                None
            }
        },
        Message::Quest(message) => {
            if let Screen::Quest(log) = &mut state.screen {
                match log.update(message) {
                    Some(action) => Some(Action::Quest(action)),
                    None => None,
                }
            } else {
                None
            }
        },
    }
}

} // verus!
