//! The player's character and the builder that assembles it.

use vstd::prelude::*;

verus! {

/// What a character is, as three texts.
pub struct CharacterView {
    pub name: Seq<char>,
    pub race: Seq<char>,
    pub class: Seq<char>,
}

/// The race a character has when none is chosen.
pub open spec fn default_race() -> Seq<char> {
    "human"@
}

/// The class a character has when none is chosen.
pub open spec fn default_class() -> Seq<char> {
    "fighter"@
}

/// Collects the parts of a character. A fresh builder holds the default race
/// and class; each `with_` call replaces one part and leaves the other two.
#[derive(Debug)]
pub struct PlayerCharacterBuilder {
    name: String,
    race: String,
    class: String,
}

impl View for PlayerCharacterBuilder {
    type V = CharacterView;

    closed spec fn view(&self) -> CharacterView {
        CharacterView { name: self.name@, race: self.race@, class: self.class@ }
    }
}

impl PlayerCharacterBuilder {
    /// A builder for a character called `name`, of the default race and class.
    pub fn new(name: String) -> (b: Self)
        ensures
            b@ == (CharacterView { name: name@, race: default_race(), class: default_class() }),
    {
        Self { name, race: "human".to_owned(), class: "fighter".to_owned() }
    }

    /// The same builder with `race` as the race.
    pub fn with_race(self, race: String) -> (b: Self)
        ensures
            b@ == (CharacterView { race: race@, ..self@ }),
    {
        let mut b = self;
        b.race = race;
        b
    }

    /// The same builder with `class` as the class.
    pub fn with_class(self, class: String) -> (b: Self)
        ensures
            b@ == (CharacterView { class: class@, ..self@ }),
    {
        let mut b = self;
        b.class = class;
        b
    }

    /// The character that the builder describes.
    pub fn build(self) -> (pc: PlayerCharacter)
        ensures
            pc@ == self@,
    {
        PlayerCharacter { name: self.name, race: self.race, class: self.class }
    }
}

/// The character a player takes into a session. Once built it never changes.
#[derive(Debug, PartialEq, Eq)]
pub struct PlayerCharacter {
    name: String,
    race: String,
    class: String,
}

impl View for PlayerCharacter {
    type V = CharacterView;

    closed spec fn view(&self) -> CharacterView {
        CharacterView { name: self.name@, race: self.race@, class: self.class@ }
    }
}

impl Clone for PlayerCharacter {
    fn clone(&self) -> (pc: Self)
        ensures
            pc@ == self@,
    {
        PlayerCharacter {
            name: self.name.clone(),
            race: self.race.clone(),
            class: self.class.clone(),
        }
    }
}

impl PlayerCharacter {
    /// The character's name.
    pub fn name(&self) -> (r: &str)
        ensures
            r@ == self@.name,
    {
        self.name.as_str()
    }

    /// The character's race.
    pub fn race(&self) -> (r: &str)
        ensures
            r@ == self@.race,
    {
        self.race.as_str()
    }

    /// The character's class.
    pub fn class(&self) -> (r: &str)
        ensures
            r@ == self@.class,
    {
        self.class.as_str()
    }
}

} // verus!
