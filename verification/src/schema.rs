//! The values exchanged with the narrator: commands that go out and the
//! updates that come back.

use vstd::prelude::*;

use crate::character::{CharacterView, PlayerCharacter};

verus! {

/// What a quest is, as three texts.
pub struct QuestView {
    pub title: Seq<char>,
    pub description: Seq<char>,
    pub objective_summary: Seq<char>,
}

/// The quest of a session that has not been given one yet: three empty texts.
pub open spec fn blank_quest() -> QuestView {
    QuestView {
        title: Seq::<char>::empty(),
        description: Seq::<char>::empty(),
        objective_summary: Seq::<char>::empty(),
    }
}

/// What an update is.
pub enum UpdateView {
    QuestDefinition(QuestView),
    Description(Seq<char>),
}

/// What a command is.
pub enum CommandView {
    Start(CharacterView),
    UserInput(Seq<char>),
}

/// The quest the player is on.
#[derive(Debug, PartialEq, Eq)]
pub struct QuestDefinition {
    pub title: String,
    pub description: String,
    pub objective_summary: String,
}

impl View for QuestDefinition {
    type V = QuestView;

    open spec fn view(&self) -> QuestView {
        QuestView {
            title: self.title@,
            description: self.description@,
            objective_summary: self.objective_summary@,
        }
    }
}

impl Clone for QuestDefinition {
    fn clone(&self) -> (q: Self)
        ensures
            q@ == self@,
    {
        QuestDefinition {
            title: self.title.clone(),
            description: self.description.clone(),
            objective_summary: self.objective_summary.clone(),
        }
    }
}

impl Default for QuestDefinition {
    fn default() -> (q: Self)
        ensures
            q@ == blank_quest(),
    {
        QuestDefinition {
            title: String::new(),
            description: String::new(),
            objective_summary: String::new(),
        }
    }
}

/// One change the narrator asks for: a new quest in place of the current
/// one, or a passage of narration for the log.
#[derive(Debug, PartialEq, Eq)]
pub enum QuestUpdate {
    QuestDefinition(QuestDefinition),
    Description(String),
}

impl View for QuestUpdate {
    type V = UpdateView;

    open spec fn view(&self) -> UpdateView {
        match self {
            QuestUpdate::QuestDefinition(q) => UpdateView::QuestDefinition(q@),
            QuestUpdate::Description(s) => UpdateView::Description(s@),
        }
    }
}

impl Clone for QuestUpdate {
    fn clone(&self) -> (u: Self)
        ensures
            u@ == self@,
    {
        match self {
            QuestUpdate::QuestDefinition(q) => QuestUpdate::QuestDefinition(q.clone()),
            QuestUpdate::Description(s) => QuestUpdate::Description(s.clone()),
        }
    }
}

/// What the narrator returns for one turn: updates, to be applied in order.
#[derive(Debug, PartialEq, Eq)]
pub struct AIOutput {
    pub updates: Vec<QuestUpdate>,
}

/// The views of a run of updates, in the same order.
pub open spec fn update_views(updates: Seq<QuestUpdate>) -> Seq<UpdateView> {
    updates.map_values(|u: QuestUpdate| u@)
}

impl View for AIOutput {
    type V = Seq<UpdateView>;

    open spec fn view(&self) -> Seq<UpdateView> {
        update_views(self.updates@)
    }
}

impl Clone for AIOutput {
    fn clone(&self) -> (out: Self)
        ensures
            out@ == self@,
    {
        let mut updates: Vec<QuestUpdate> = Vec::new();
        let mut i: usize = 0;
        while i < self.updates.len()
            invariant
                i <= self.updates.len(),
                update_views(updates@) == update_views(self.updates@.take(i as int)),
            decreases self.updates.len() - i,
        {
            let ghost before = updates@;
            let u = self.updates[i].clone();
            updates.push(u);
            assert(update_views(before.push(u)) =~= update_views(before).push(u@));
            i = i + 1;
        }
        AIOutput { updates }
    }
}

/// What the player side sends to the narrator: the character, once, to open
/// the session, and after that free text.
#[derive(Debug, PartialEq, Eq)]
pub enum AIInput {
    Start(PlayerCharacter),
    UserInput(String),
}

impl View for AIInput {
    type V = CommandView;

    open spec fn view(&self) -> CommandView {
        match self {
            AIInput::Start(pc) => CommandView::Start(pc@),
            AIInput::UserInput(s) => CommandView::UserInput(s@),
        }
    }
}

impl Clone for AIInput {
    fn clone(&self) -> (c: Self)
        ensures
            c@ == self@,
    {
        match self {
            AIInput::Start(pc) => AIInput::Start(pc.clone()),
            AIInput::UserInput(s) => AIInput::UserInput(s.clone()),
        }
    }
}

} // verus!
