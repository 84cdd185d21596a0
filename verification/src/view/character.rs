//! The form on which a player makes a character.

use vstd::prelude::*;

use crate::character::{CharacterView, PlayerCharacter, PlayerCharacterBuilder};
use crate::text::{trim, trimmed};

verus! {

/// What happens on the form.
#[derive(Debug, PartialEq, Eq)]
pub enum Message {
    NameChange(String),
    RaceChange(String),
    ClassChange(String),
    Submit,
}

/// What a [`Message`] is.
pub enum MessageView {
    NameChange(Seq<char>),
    RaceChange(Seq<char>),
    ClassChange(Seq<char>),
    Submit,
}

impl View for Message {
    type V = MessageView;

    open spec fn view(&self) -> MessageView {
        match self {
            Message::NameChange(content) => MessageView::NameChange(content@),
            Message::RaceChange(content) => MessageView::RaceChange(content@),
            Message::ClassChange(content) => MessageView::ClassChange(content@),
            Message::Submit => MessageView::Submit,
        }
    }
}

impl Clone for Message {
    fn clone(&self) -> (message: Self)
        ensures
            message@ == self@,
    {
        match self {
            Message::NameChange(content) => Message::NameChange(content.clone()),
            Message::RaceChange(content) => Message::RaceChange(content.clone()),
            Message::ClassChange(content) => Message::ClassChange(content.clone()),
            Message::Submit => Message::Submit,
        }
    }
}

/// What the form asks for.
#[derive(Debug)]
pub enum Action {
    /// The form is done: go on with this character.
    Submit(PlayerCharacter),
}

/// What the form holds.
pub struct FormView {
    pub name_field: Seq<char>,
    pub race_field: Seq<char>,
    pub class_field: Seq<char>,
}

/// The form: three fields of text, empty at first.
#[derive(Debug, Default)]
pub struct CharacterCreate {
    name_field: String,
    race_field: String,
    class_field: String,
}

impl View for CharacterCreate {
    type V = FormView;

    closed spec fn view(&self) -> FormView {
        FormView {
            name_field: self.name_field@,
            race_field: self.race_field@,
            class_field: self.class_field@,
        }
    }
}

/// What a field stands for: its text without the white space around it, and
/// `fallback` where nothing is left of it.
pub open spec fn field_or(field: Seq<char>, fallback: Seq<char>) -> Seq<char> {
    if trimmed(field).len() == 0 {
        fallback
    } else {
        trimmed(field)
    }
}

/// The character that a form stands for.
pub open spec fn submitted(form: FormView) -> CharacterView {
    CharacterView {
        name: field_or(form.name_field, "Jim"@),
        race: field_or(form.race_field, "Human"@),
        class: field_or(form.class_field, "Fighter"@),
    }
}

/// The form after a message: a change replaces one field, a submission
/// leaves all three.
pub open spec fn form_after(form: FormView, message: MessageView) -> FormView {
    match message {
        MessageView::NameChange(content) => FormView { name_field: content, ..form },
        MessageView::RaceChange(content) => FormView { race_field: content, ..form },
        MessageView::ClassChange(content) => FormView { class_field: content, ..form },
        MessageView::Submit => form,
    }
}

/// What a field stands for.
fn value_or(field: &str, fallback: &str) -> (r: String)
    ensures
        r@ == field_or(field@, fallback@),
{
    let kept = trim(field);
    if kept.is_empty() {
        fallback.to_owned()
    } else {
        kept.to_owned()
    }
}

impl CharacterCreate {
    /// An empty form.
    pub fn new() -> (form: Self)
        ensures
            form@ == (FormView {
                name_field: Seq::<char>::empty(),
                race_field: Seq::<char>::empty(),
                class_field: Seq::<char>::empty(),
            }),
    {
        Self { name_field: String::new(), race_field: String::new(), class_field: String::new() }
    }

    /// What the name field holds.
    pub fn name_field(&self) -> (r: &str)
        ensures
            r@ == self@.name_field,
    {
        self.name_field.as_str()
    }

    /// What the race field holds.
    pub fn race_field(&self) -> (r: &str)
        ensures
            r@ == self@.race_field,
    {
        self.race_field.as_str()
    }

    /// What the class field holds.
    pub fn class_field(&self) -> (r: &str)
        ensures
            r@ == self@.class_field,
    {
        self.class_field.as_str()
    }

    /// Takes a message. Only a submission asks for anything: to go on with
    /// the character that the form stands for.
    pub fn update(&mut self, message: Message) -> (action: Option<Action>)
        ensures
            final(self)@ == form_after(old(self)@, message@),
            match action {
                Some(Action::Submit(character)) => message is Submit && character@ == submitted(
                    old(self)@,
                ),
                None => !(message is Submit),
            },
    {
        match message {
            Message::NameChange(content) => {
                self.name_field = content;
                None
            },
            Message::RaceChange(content) => {
                self.race_field = content;
                None
            },
            Message::ClassChange(content) => {
                self.class_field = content;
                None
            },
            Message::Submit => {
                let name = value_or(self.name_field.as_str(), "Jim");
                let race = value_or(self.race_field.as_str(), "Human");
                let class = value_or(self.class_field.as_str(), "Fighter");
                let character = PlayerCharacterBuilder::new(name).with_race(race).with_class(
                    class,
                ).build();
                Some(Action::Submit(character))
            },
        }
    }
}

/// No part of a submitted character is empty.
pub proof fn law_submitted_character_is_complete(form: FormView)
    ensures
        submitted(form).name.len() > 0,
        submitted(form).race.len() > 0,
        submitted(form).class.len() > 0,
{
    reveal_strlit("Jim");
    reveal_strlit("Human");
    reveal_strlit("Fighter");
}

} // verus!
