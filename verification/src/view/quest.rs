//! The screen on which a session is played: the log, and a field for what
//! the player says next.

use vstd::prelude::*;

use crate::character::PlayerCharacter;
use crate::game::{BuilderView, GameBuilder, GamePlayer};

verus! {

/// What happens on the screen.
#[derive(Debug, PartialEq, Eq)]
pub enum Message {
    /// The session has been set up.
    Loaded,
    /// The opening turn is over.
    Started,
    /// The player typed.
    InputFieldChange(String),
    /// The player sent what is in the field.
    InputSubmit,
    /// The turn of an input is over.
    Response,
}

/// What a [`Message`] is.
pub enum MessageView {
    Loaded,
    Started,
    InputFieldChange(Seq<char>),
    InputSubmit,
    Response,
}

impl View for Message {
    type V = MessageView;

    open spec fn view(&self) -> MessageView {
        match self {
            Message::Loaded => MessageView::Loaded,
            Message::Started => MessageView::Started,
            Message::InputFieldChange(content) => MessageView::InputFieldChange(content@),
            Message::InputSubmit => MessageView::InputSubmit,
            Message::Response => MessageView::Response,
        }
    }
}

impl Clone for Message {
    fn clone(&self) -> (message: Self)
        ensures
            message@ == self@,
    {
        match self {
            Message::Loaded => Message::Loaded,
            Message::Started => Message::Started,
            Message::InputFieldChange(content) => Message::InputFieldChange(content.clone()),
            Message::InputSubmit => Message::InputSubmit,
            Message::Response => Message::Response,
        }
    }
}

/// What the screen asks for.
#[derive(Debug, PartialEq, Eq)]
pub enum Action {
    /// Open the session.
    Start,
    /// Send the player's input, then show the end of the log.
    Input { content: String },
    /// Show the end of the log.
    SnapToEnd,
}

/// What an [`Action`] is.
pub enum ActionView {
    Start,
    Input { content: Seq<char> },
    SnapToEnd,
}

impl View for Action {
    type V = ActionView;

    open spec fn view(&self) -> ActionView {
        match self {
            Action::Start => ActionView::Start,
            Action::Input { content } => ActionView::Input { content: content@ },
            Action::SnapToEnd => ActionView::SnapToEnd,
        }
    }
}

/// What the screen holds.
pub struct ScreenView {
    pub loaded: bool,
    pub input_field: Seq<char>,
    pub waiting: bool,
}

/// The screen: whether the session is there, what the player has typed, and
/// whether a turn is awaited, in which case there is nothing to type into.
#[derive(Debug, Default)]
pub struct QuestLog {
    loaded: bool,
    input_field: String,
    waiting: bool,
}

impl View for QuestLog {
    type V = ScreenView;

    closed spec fn view(&self) -> ScreenView {
        ScreenView { loaded: self.loaded, input_field: self.input_field@, waiting: self.waiting }
    }
}

/// The screen after a message.
pub open spec fn screen_after(screen: ScreenView, message: MessageView) -> ScreenView {
    match message {
        MessageView::Loaded => ScreenView { loaded: true, ..screen },
        MessageView::Started => ScreenView { waiting: false, ..screen },
        MessageView::InputFieldChange(content) => ScreenView { input_field: content, ..screen },
        MessageView::InputSubmit => if screen.loaded {
            ScreenView { loaded: true, input_field: Seq::<char>::empty(), waiting: true }
        } else {
            screen
        },
        MessageView::Response => ScreenView { waiting: false, ..screen },
    }
}

/// What the screen asks for on a message.
pub open spec fn action_on(screen: ScreenView, message: MessageView) -> Option<ActionView> {
    match message {
        MessageView::Loaded => Some(ActionView::Start),
        MessageView::Started => None,
        MessageView::InputFieldChange(_) => None,
        MessageView::InputSubmit => if screen.loaded {
            Some(ActionView::Input { content: screen.input_field })
        } else {
            None
        },
        MessageView::Response => Some(ActionView::SnapToEnd),
    }
}

/// The view of an action that may be absent.
pub open spec fn optional_action(action: Option<Action>) -> Option<ActionView> {
    match action {
        Some(action) => Some(action@),
        None => None,
    }
}

/// The mark that stands before a log entry of a speaker.
pub open spec fn speaker_mark(player: GamePlayer) -> Seq<char> {
    match player {
        GamePlayer::GM => "GM:"@,
        GamePlayer::PC => "PC:"@,
    }
}

/// The mark that stands before a log entry of a speaker.
pub fn speaker_label(player: GamePlayer) -> (mark: &'static str)
    ensures
        mark@ == speaker_mark(player),
{
    match player {
        GamePlayer::GM => "GM:",
        GamePlayer::PC => "PC:",
    }
}

impl QuestLog {
    /// The screen for a character: it waits for the session, which is to be
    /// set up from the builder handed out with it.
    pub fn new(character: PlayerCharacter) -> (r: (Self, GameBuilder))
        ensures
            r.0@ == (ScreenView {
                loaded: false,
                input_field: Seq::<char>::empty(),
                waiting: true,
            }),
            r.1@ == (BuilderView { character: character@, api_key: None }),
    {
        (
            Self { loaded: false, input_field: String::new(), waiting: true },
            GameBuilder::new(character),
        )
    }

    /// Whether the session is there.
    pub fn is_loaded(&self) -> (r: bool)
        ensures
            r == self@.loaded,
    {
        self.loaded
    }

    /// Whether a turn is awaited.
    pub fn is_waiting(&self) -> (r: bool)
        ensures
            r == self@.waiting,
    {
        self.waiting
    }

    /// What the player has typed.
    pub fn input_field(&self) -> (r: &str)
        ensures
            r@ == self@.input_field,
    {
        self.input_field.as_str()
    }

    /// Takes a message. A submission counts only once the session is there:
    /// it empties the field, and the screen waits until the turn is over.
    pub fn update(&mut self, message: Message) -> (action: Option<Action>)
        ensures
            final(self)@ == screen_after(old(self)@, message@),
            optional_action(action) == action_on(old(self)@, message@),
    {
        match message {
            Message::Loaded => {
                self.loaded = true;
                Some(Action::Start)
            },
            Message::Started => {
                self.waiting = false;
                None
            },
            Message::InputFieldChange(content) => {
                self.input_field = content;
                None
            },
            Message::InputSubmit => {
                if self.loaded {
                    let content = self.input_field.clone();
                    self.input_field = String::new();
                    self.waiting = true;
                    Some(Action::Input { content })
                } else {
                    None
                }
            },
            Message::Response => {
                self.waiting = false;
                Some(Action::SnapToEnd)
            },
        }
    }
}

} // verus!
