//! The state of a session and the steps by which a session moves: a message
//! from the player opens a turn, the narrator's answer closes it.
//!
//! The functions here never wait. Whoever runs a session calls
//! [`GameState::handle_message`], carries the command it returns to the
//! narrator, and hands what came back to [`GameState::handle_response`].

use vstd::prelude::*;

use crate::character::{CharacterView, PlayerCharacter};
use crate::conn::{turn_start, Connection, ConnectionView, Step, StepView, Turn, TurnView};
use crate::schema::{
    blank_quest, update_views, AIInput, AIOutput, CommandView, QuestDefinition, QuestUpdate,
    QuestView, UpdateView,
};

verus! {

/// The name of the variable that holds the key to the narrator's
/// service, for a session whose builder was given none.
pub const API_KEY_VARIABLE: &'static str = "OPENAI_API_KEY";

/// How many messages a session's queue holds before a sender has to wait.
pub const QUEUE_CAPACITY: usize = 8;

/// Why a session could not be set up or a turn could not be completed.
#[derive(Debug, PartialEq, Eq)]
pub enum GameError {
    /// The connection to the narrator could not be established.
    ConnectionFailed,
    /// A request to the narrator failed, or the narrator's job did.
    SendFailed(String),
    /// The narrator answered with something other than a well-formed output.
    UnexpectedResponse(String),
    /// The narrator declined to answer. Holds its reason.
    RefusalResponse(String),
    /// Anything else.
    Custom(String),
}

/// What a [`GameError`] is.
pub enum ErrorView {
    ConnectionFailed,
    SendFailed(Seq<char>),
    UnexpectedResponse(Seq<char>),
    RefusalResponse(Seq<char>),
    Custom(Seq<char>),
}

impl View for GameError {
    type V = ErrorView;

    open spec fn view(&self) -> ErrorView {
        match self {
            GameError::ConnectionFailed => ErrorView::ConnectionFailed,
            GameError::SendFailed(text) => ErrorView::SendFailed(text@),
            GameError::UnexpectedResponse(text) => ErrorView::UnexpectedResponse(text@),
            GameError::RefusalResponse(text) => ErrorView::RefusalResponse(text@),
            GameError::Custom(text) => ErrorView::Custom(text@),
        }
    }
}

impl Clone for GameError {
    fn clone(&self) -> (e: Self)
        ensures
            e@ == self@,
    {
        match self {
            GameError::ConnectionFailed => GameError::ConnectionFailed,
            GameError::SendFailed(text) => GameError::SendFailed(text.clone()),
            GameError::UnexpectedResponse(text) => GameError::UnexpectedResponse(text.clone()),
            GameError::RefusalResponse(text) => GameError::RefusalResponse(text.clone()),
            GameError::Custom(text) => GameError::Custom(text.clone()),
        }
    }
}

/// Who speaks in a log entry: the game master or the player's character.
#[derive(Debug, Clone, Copy, PartialEq, Eq)]
pub enum GamePlayer {
    GM,
    PC,
}

/// One line of the session log.
#[derive(Debug, PartialEq, Eq)]
pub struct GameLogEntry {
    pub player: GamePlayer,
    pub content: String,
}

/// What a [`GameLogEntry`] is.
pub struct EntryView {
    pub player: GamePlayer,
    pub content: Seq<char>,
}

impl View for GameLogEntry {
    type V = EntryView;

    open spec fn view(&self) -> EntryView {
        EntryView { player: self.player, content: self.content@ }
    }
}

impl GameLogEntry {
    /// The entry of what `player` said.
    pub fn new(player: GamePlayer, content: String) -> (entry: Self)
        ensures
            entry@ == (EntryView { player, content: content@ }),
    {
        Self { player, content }
    }
}

/// What a [`GameBuilder`] holds.
pub struct BuilderView {
    pub character: CharacterView,
    pub api_key: Option<Seq<char>>,
}

/// Collects what a session is made from: the character and, optionally, the
/// key that opens the narrator's service.
#[derive(Debug)]
pub struct GameBuilder {
    character: PlayerCharacter,
    api_key: Option<String>,
}

impl View for GameBuilder {
    type V = BuilderView;

    closed spec fn view(&self) -> BuilderView {
        BuilderView {
            character: self.character@,
            api_key: match self.api_key {
                Some(key) => Some(key@),
                None => None,
            },
        }
    }
}

impl GameBuilder {
    /// A builder for a session of `character`, without a key.
    pub fn new(character: PlayerCharacter) -> (b: Self)
        ensures
            b@ == (BuilderView { character: character@, api_key: None }),
    {
        Self { character, api_key: None }
    }

    /// The same builder with `api_key` as its key.
    pub fn with_api_key(self, api_key: String) -> (b: Self)
        ensures
            b@ == (BuilderView { character: self@.character, api_key: Some(api_key@) }),
    {
        let mut b = self;
        b.api_key = Some(api_key);
        b
    }

    /// Takes the builder apart: the character, and the key to use. The
    /// builder's own key goes before `fallback`; with neither there is no key.
    pub fn into_parts(self, fallback: Option<String>) -> (parts: (PlayerCharacter, Option<String>))
        ensures
            parts.0@ == self@.character,
            match self@.api_key {
                Some(key) => parts.1 matches Some(chosen) && chosen@ == key,
                None => parts.1 == fallback,
            },
    {
        let key = match self.api_key {
            Some(key) => Some(key),
            None => fallback,
        };
        (self.character, key)
    }
}

/// What a [`GameState`] is.
pub struct StateView {
    pub character: CharacterView,
    pub log: Seq<EntryView>,
    pub quest: QuestView,
}

/// The views of a run of log entries, in the same order.
pub open spec fn log_view(log: Seq<GameLogEntry>) -> Seq<EntryView> {
    log.map_values(|entry: GameLogEntry| entry@)
}

/// Everything a session knows: who plays, what has been said so far, and the
/// quest the player is on.
#[derive(Debug, PartialEq, Eq)]
pub struct GameState {
    pub character: PlayerCharacter,
    pub log: Vec<GameLogEntry>,
    pub quest: QuestDefinition,
}

impl View for GameState {
    type V = StateView;

    open spec fn view(&self) -> StateView {
        StateView { character: self.character@, log: log_view(self.log@), quest: self.quest@ }
    }
}

/// What a player asks of a session.
#[derive(Debug, PartialEq, Eq)]
pub enum GameMessage {
    /// Open the session: introduce the character to the narrator.
    Start,
    /// Say or do something.
    Input { content: String },
}

/// What a [`GameMessage`] is.
pub enum MessageView {
    Start,
    Input { content: Seq<char> },
}

impl View for GameMessage {
    type V = MessageView;

    open spec fn view(&self) -> MessageView {
        match self {
            GameMessage::Start => MessageView::Start,
            GameMessage::Input { content } => MessageView::Input { content: content@ },
        }
    }
}

/// The log entry of a passage of narration.
pub open spec fn narrated(text: Seq<char>) -> EntryView {
    EntryView { player: GamePlayer::GM, content: text }
}

/// The log entry of something the player said.
pub open spec fn spoken(text: Seq<char>) -> EntryView {
    EntryView { player: GamePlayer::PC, content: text }
}

/// The state after one update: a quest definition takes the place of the
/// quest, a description joins the log as narration.
pub open spec fn after_update(state: StateView, update: UpdateView) -> StateView {
    match update {
        UpdateView::QuestDefinition(quest) => StateView { quest, ..state },
        UpdateView::Description(text) => StateView { log: state.log.push(narrated(text)), ..state },
    }
}

/// The quest that the last quest definition among `updates` carries, and
/// `current` where there is none.
pub open spec fn latest_quest(updates: Seq<UpdateView>, current: QuestView) -> QuestView
    decreases updates.len(),
{
    if updates.len() == 0 {
        current
    } else {
        match updates.last() {
            UpdateView::QuestDefinition(quest) => quest,
            UpdateView::Description(_) => latest_quest(updates.drop_last(), current),
        }
    }
}

/// Whether an update is a description.
pub open spec fn is_description() -> spec_fn(UpdateView) -> bool {
    |update: UpdateView| update is Description
}

/// The log entry that a description becomes.
pub open spec fn as_narration() -> spec_fn(UpdateView) -> EntryView {
    |update: UpdateView| narrated(update->Description_0)
}

/// The log entries that `updates` add: one for each description, in the
/// order of the descriptions, each spoken by the game master.
pub open spec fn narration(updates: Seq<UpdateView>) -> Seq<EntryView> {
    updates.filter(is_description()).map_values(as_narration())
}

/// The state after a batch of updates.
pub open spec fn after_updates(state: StateView, updates: Seq<UpdateView>) -> StateView {
    StateView {
        character: state.character,
        log: state.log + narration(updates),
        quest: latest_quest(updates, state.quest),
    }
}

/// The state once a message has been taken up, before the narrator is asked:
/// an input is already in the log, as the player's line.
pub open spec fn after_message(state: StateView, message: MessageView) -> StateView {
    match message {
        MessageView::Start => state,
        MessageView::Input { content } => StateView { log: state.log.push(spoken(content)), ..state },
    }
}

/// The command that a message sends to the narrator.
pub open spec fn command_for(state: StateView, message: MessageView) -> CommandView {
    match message {
        MessageView::Start => CommandView::Start(state.character),
        MessageView::Input { content } => CommandView::UserInput(content),
    }
}

/// The state once the narrator's answer has been taken in: the updates of an
/// output are applied, an error changes nothing.
pub open spec fn after_response(
    state: StateView,
    response: Result<Seq<UpdateView>, ErrorView>,
) -> StateView {
    match response {
        Ok(updates) => after_updates(state, updates),
        Err(_) => state,
    }
}

/// What the player is told once the turn is over.
pub open spec fn reply_to(response: Result<Seq<UpdateView>, ErrorView>) -> Result<(), ErrorView> {
    match response {
        Ok(_) => Ok(()),
        Err(error) => Err(error),
    }
}

/// The view of what the narrator's side hands back for a turn.
pub open spec fn response_view(response: Result<AIOutput, GameError>) -> Result<
    Seq<UpdateView>,
    ErrorView,
> {
    match response {
        Ok(output) => Ok(output@),
        Err(error) => Err(error@),
    }
}

/// One more update adds its narration, if it has any, at the end.
pub proof fn lemma_narration_push(updates: Seq<UpdateView>, update: UpdateView)
    ensures
        narration(updates.push(update)) == match update {
            UpdateView::Description(text) => narration(updates).push(narrated(text)),
            UpdateView::QuestDefinition(_) => narration(updates),
        },
{
    reveal(Seq::filter);
    assert(updates.push(update).drop_last() == updates);
}

impl GameState {
    /// A fresh session: an empty log and a blank quest.
    pub fn new(character: PlayerCharacter) -> (state: Self)
        ensures
            state@ == (StateView {
                character: character@,
                log: Seq::<EntryView>::empty(),
                quest: blank_quest(),
            }),
    {
        let state = Self { character, log: Vec::new(), quest: QuestDefinition::default() };
        assert(log_view(state.log@) == Seq::<EntryView>::empty());
        state
    }

    /// Applies one update.
    pub fn process_update(&mut self, update: &QuestUpdate)
        ensures
            final(self)@ == after_update(old(self)@, update@),
    {
        match update {
            QuestUpdate::QuestDefinition(quest) => {
                self.quest = quest.clone();
            },
            QuestUpdate::Description(text) => {
                let ghost before = self.log@;
                let entry = GameLogEntry::new(GamePlayer::GM, text.clone());
                self.log.push(entry);
                assert(log_view(before.push(entry)) == log_view(before).push(entry@));
            },
        }
    }

    /// Applies a batch of updates, first to last.
    pub fn apply_updates(&mut self, updates: &Vec<QuestUpdate>)
        ensures
            final(self)@ == after_updates(old(self)@, update_views(updates@)),
    {
        let ghost start = self@;
        let ghost all = update_views(updates@);
        let mut i: usize = 0;
        while i < updates.len()
            invariant
                i <= updates.len(),
                all == update_views(updates@),
                self@ == after_updates(start, all.take(i as int)),
            decreases updates.len() - i,
        {
            self.process_update(&updates[i]);
            proof {
                let done = all.take(i as int);
                let next = all.take(i + 1);
                assert(next == done.push(all[i as int]));
                assert(next.drop_last() == done);
                lemma_narration_push(done, all[i as int]);
            }
            i = i + 1;
        }
        assert(all.take(i as int) == all);
    }

    /// Takes up a message and returns the command to send to the narrator.
    /// An input is entered in the log at once, so that the player's line shows
    /// while the narrator's answer is awaited, and stays whatever the answer.
    pub fn handle_message(&mut self, message: GameMessage) -> (command: AIInput)
        ensures
            final(self)@ == after_message(old(self)@, message@),
            command@ == command_for(old(self)@, message@),
    {
        match message {
            GameMessage::Start => AIInput::Start(self.character.clone()),
            GameMessage::Input { content } => {
                let ghost before = self.log@;
                let entry = GameLogEntry::new(GamePlayer::PC, content.clone());
                self.log.push(entry);
                assert(log_view(before.push(entry)) == log_view(before).push(entry@));
                AIInput::UserInput(content)
            },
        }
    }

    /// Takes in what came back for the turn and returns the reply for the
    /// player. The updates of an output are applied in one go; an error is
    /// passed on and leaves the state as it is.
    pub fn handle_response(&mut self, response: Result<AIOutput, GameError>) -> (reply: Result<
        (),
        GameError,
    >)
        ensures
            final(self)@ == after_response(old(self)@, response_view(response)),
            match reply {
                Ok(_) => reply_to(response_view(response)) == Ok::<(), ErrorView>(()),
                Err(error) => reply_to(response_view(response)) == Err::<(), ErrorView>(error@),
            },
    {
        match response {
            Ok(output) => {
                self.apply_updates(&output.updates);
                Ok(())
            },
            Err(error) => Err(error),
        }
    }
}

/// Where a session stands in its life.
#[derive(Debug, Clone, Copy, PartialEq, Eq)]
pub enum Phase {
    /// Set up, and no message has come in yet.
    AwaitingFirstCommand,
    /// At least one message has come in, and more may come.
    Active,
    /// The queue of messages has ended. Nothing comes after this.
    Terminated,
}

/// What a [`GameInstance`] is.
pub struct InstanceView {
    pub connection: ConnectionView,
    pub state: StateView,
    pub phase: Phase,
}

/// A session that has been set up: the conversation with the narrator, the
/// state that its turns work on, and where it stands in its life. It takes
/// the messages of its queue one at a time.
#[derive(Debug)]
pub struct GameInstance {
    pub connection: Connection,
    pub state: GameState,
    phase: Phase,
}

impl View for GameInstance {
    type V = InstanceView;

    closed spec fn view(&self) -> InstanceView {
        InstanceView { connection: self.connection@, state: self.state@, phase: self.phase }
    }
}

/// The session once its queue has handed over `received`: a message, or
/// nothing because the queue has ended. A session that has ended stays as
/// it is.
pub open spec fn instance_after(
    instance: InstanceView,
    received: Option<MessageView>,
) -> InstanceView {
    match received {
        None => InstanceView { phase: Phase::Terminated, ..instance },
        Some(message) => if instance.phase is Terminated {
            instance
        } else {
            InstanceView {
                connection: instance.connection,
                state: after_message(instance.state, message),
                phase: Phase::Active,
            }
        },
    }
}

/// The turn that the session opens on what its queue has handed over: one
/// for each message that reaches a session that has not ended.
pub open spec fn turn_opened(instance: InstanceView, received: Option<MessageView>) -> Option<
    (TurnView, StepView),
> {
    match received {
        Some(message) if !(instance.phase is Terminated) => Some(
            turn_start(instance.connection, command_for(instance.state, message)),
        ),
        _ => None,
    }
}

/// The view of a message that may be absent.
pub open spec fn optional_message(received: Option<GameMessage>) -> Option<MessageView> {
    match received {
        Some(message) => Some(message@),
        None => None,
    }
}

impl GameInstance {
    /// Makes a session from what came of setting up the connection. With a
    /// connection the session starts fresh; without one there is no session,
    /// whatever went wrong.
    pub fn new<E>(connection: Result<Connection, E>, character: PlayerCharacter) -> (r: Result<
        Self,
        GameError,
    >)
        ensures
            match connection {
                Ok(established) => r matches Ok(instance) && instance@ == (InstanceView {
                    connection: established@,
                    state: StateView {
                        character: character@,
                        log: Seq::<EntryView>::empty(),
                        quest: blank_quest(),
                    },
                    phase: Phase::AwaitingFirstCommand,
                }),
                Err(_) => r matches Err(error) && error@ == ErrorView::ConnectionFailed,
            },
    {
        match connection {
            Ok(connection) => Ok(
                Self {
                    connection,
                    state: GameState::new(character),
                    phase: Phase::AwaitingFirstCommand,
                },
            ),
            Err(_) => Err(GameError::ConnectionFailed),
        }
    }

    /// Where the session stands in its life.
    pub fn phase(&self) -> (phase: Phase)
        ensures
            phase == self@.phase,
    {
        self.phase
    }

    /// Takes what the queue hands over. A message is taken up by the state
    /// and opens a turn on the connection; the first step of that turn is
    /// returned. The end of the queue ends the session.
    pub fn handle_message(&mut self, received: Option<GameMessage>) -> (opened: Option<
        (Turn, Step),
    >)
        ensures
            final(self)@ == instance_after(old(self)@, optional_message(received)),
            match opened {
                Some((turn, step)) => turn_opened(old(self)@, optional_message(received)) == Some(
                    (turn@, step@),
                ),
                None => turn_opened(old(self)@, optional_message(received)) is None,
            },
    {
        match received {
            None => {
                self.phase = Phase::Terminated;
                None
            },
            Some(message) => {
                if let Phase::Terminated = self.phase {
                    return None;
                }
                self.phase = Phase::Active;
                let command = self.state.handle_message(message);
                Some(self.connection.send(command))
            },
        }
    }

    /// Takes in what came back for the turn, as [`GameState::handle_response`]
    /// does, and returns the reply for the player.
    pub fn handle_response(&mut self, response: Result<AIOutput, GameError>) -> (reply: Result<
        (),
        GameError,
    >)
        ensures
            final(self)@ == (InstanceView {
                state: after_response(old(self)@.state, response_view(response)),
                ..old(self)@
            }),
            match reply {
                Ok(_) => reply_to(response_view(response)) == Ok::<(), ErrorView>(()),
                Err(error) => reply_to(response_view(response)) == Err::<(), ErrorView>(error@),
            },
    {
        self.state.handle_response(response)
    }
}

/// A session that has ended stays ended, and one that is active stays
/// active until its queue ends.
pub proof fn law_session_only_moves_on(instance: InstanceView, received: Option<MessageView>)
    ensures
        instance.phase is Terminated ==> instance_after(instance, received) == instance,
        received is None ==> instance_after(instance, received).phase is Terminated,
        received is Some && !(instance.phase is Terminated) ==> instance_after(
            instance,
            received,
        ).phase is Active,
        !(instance_after(instance, received).phase is AwaitingFirstCommand),
        instance_after(instance, received).connection == instance.connection,
{
}

/// The state after a whole turn: the message is taken up, then the response
/// is taken in.
pub open spec fn after_turn(
    state: StateView,
    message: MessageView,
    response: Result<Seq<UpdateView>, ErrorView>,
) -> StateView {
    after_response(after_message(state, message), response)
}

/// The log entries that a turn adds: the player's line, if the message was an
/// input, then the narration of the output, if there was one.
pub open spec fn turn_entries(
    message: MessageView,
    response: Result<Seq<UpdateView>, ErrorView>,
) -> Seq<EntryView> {
    let line = match message {
        MessageView::Start => Seq::<EntryView>::empty(),
        MessageView::Input { content } => seq![spoken(content)],
    };
    let told = match response {
        Ok(updates) => narration(updates),
        Err(_) => Seq::<EntryView>::empty(),
    };
    line + told
}

/// The last quest definition of a batch is the one that counts.
proof fn lemma_latest_quest_found(updates: Seq<UpdateView>, current: QuestView, at: int)
    requires
        0 <= at < updates.len(),
        updates[at] is QuestDefinition,
        forall|j: int| at < j < updates.len() ==> updates[j] is Description,
    ensures
        latest_quest(updates, current) == updates[at]->QuestDefinition_0,
    decreases updates.len(),
{
    if at < updates.len() - 1 {
        lemma_latest_quest_found(updates.drop_last(), current, at);
    }
}

/// A batch of descriptions alone leaves the quest.
proof fn lemma_latest_quest_absent(updates: Seq<UpdateView>, current: QuestView)
    requires
        forall|i: int| 0 <= i < updates.len() ==> updates[i] is Description,
    ensures
        latest_quest(updates, current) == current,
    decreases updates.len(),
{
    if updates.len() > 0 {
        lemma_latest_quest_absent(updates.drop_last(), current);
    }
}

/// After a batch of updates the quest is the one that the last quest
/// definition of the batch carries. A batch without a quest definition leaves
/// the quest as it was.
pub proof fn law_quest_is_last_definition(state: StateView, updates: Seq<UpdateView>)
    ensures
        (forall|i: int| 0 <= i < updates.len() ==> updates[i] is Description) ==> after_updates(
            state,
            updates,
        ).quest == state.quest,
        forall|at: int|
            #![trigger updates[at]]
            0 <= at < updates.len() && updates[at] is QuestDefinition && (forall|j: int|
                at < j < updates.len() ==> updates[j] is Description) ==> after_updates(
                state,
                updates,
            ).quest == updates[at]->QuestDefinition_0,
{
    if forall|i: int| 0 <= i < updates.len() ==> updates[i] is Description {
        lemma_latest_quest_absent(updates, state.quest);
    }
    assert forall|at: int|
        #![trigger updates[at]]
        0 <= at < updates.len() && updates[at] is QuestDefinition && (forall|j: int|
            at < j < updates.len() ==> updates[j] is Description) implies after_updates(
        state,
        updates,
    ).quest == updates[at]->QuestDefinition_0 by {
        lemma_latest_quest_found(updates, state.quest, at);
    }
}

/// A batch of updates makes the log longer by one entry for each description
/// in the batch. The entries that were there stay where they were; the new
/// ones follow in the order of the descriptions, each spoken by the game
/// master and holding the description's text.
pub proof fn law_log_grows_by_descriptions(state: StateView, updates: Seq<UpdateView>)
    ensures
        after_updates(state, updates).log.len() == state.log.len() + updates.filter(
            is_description(),
        ).len(),
        after_updates(state, updates).log.take(state.log.len() as int) == state.log,
        forall|k: int|
            0 <= k < updates.filter(is_description()).len() ==> {
                let description = #[trigger] updates.filter(is_description())[k];
                &&& description is Description
                &&& after_updates(state, updates).log[state.log.len() + k] == (EntryView {
                    player: GamePlayer::GM,
                    content: description->Description_0,
                })
            },
{
    let descriptions = updates.filter(is_description());
    assert forall|k: int| 0 <= k < descriptions.len() implies (#[trigger] descriptions[k])
        is Description by {
        updates.lemma_filter_pred(is_description(), k);
    }
}

/// Applying a batch is applying its updates one by one, first to last.
pub proof fn law_batch_is_one_by_one(state: StateView, updates: Seq<UpdateView>, next: UpdateView)
    ensures
        after_updates(state, Seq::<UpdateView>::empty()) == state,
        after_updates(state, updates.push(next)) == after_update(
            after_updates(state, updates),
            next,
        ),
{
    lemma_narration_push(updates, next);
    assert(updates.push(next).drop_last() == updates);
}

/// An input is in the log, as the player's line right after what was there,
/// whatever the narrator's side makes of the turn.
pub proof fn law_input_is_logged(
    state: StateView,
    content: Seq<char>,
    response: Result<Seq<UpdateView>, ErrorView>,
)
    ensures
        after_message(state, MessageView::Input { content }).log == state.log.push(spoken(content)),
        after_turn(state, MessageView::Input { content }, response).log.take(
            state.log.len() as int + 1,
        ) == state.log.push(spoken(content)),
{
}

/// A turn that ends in an error changes nothing but what taking up the
/// message changed: the quest is the same, and the log is the same but
/// for the player's line of an input. The error is the reply.
pub proof fn law_failed_turn_keeps_state(state: StateView, message: MessageView, error: ErrorView)
    ensures
        after_turn(state, message, Err(error)) == after_message(state, message),
        after_turn(state, message, Err(error)).quest == state.quest,
        after_turn(state, message, Err(error)).character == state.character,
        after_turn(state, message, Err(error)).log == match message {
            MessageView::Start => state.log,
            MessageView::Input { content } => state.log.push(spoken(content)),
        },
        reply_to(Err(error)) == Err::<(), ErrorView>(error),
{
}

/// The character of a session is the one it was set up with: no message and
/// no response changes it.
pub proof fn law_character_is_kept(
    state: StateView,
    message: MessageView,
    response: Result<Seq<UpdateView>, ErrorView>,
)
    ensures
        after_message(state, message).character == state.character,
        after_response(state, response).character == state.character,
        after_turn(state, message, response).character == state.character,
{
}

/// Turns taken one after the other leave their entries in the log one block
/// after the other: all of the first turn's, then all of the second's.
pub proof fn law_turns_append_in_order(
    state: StateView,
    first: MessageView,
    first_response: Result<Seq<UpdateView>, ErrorView>,
    second: MessageView,
    second_response: Result<Seq<UpdateView>, ErrorView>,
)
    ensures
        after_turn(state, first, first_response).log == state.log + turn_entries(
            first,
            first_response,
        ),
        after_turn(after_turn(state, first, first_response), second, second_response).log
            == state.log + turn_entries(first, first_response) + turn_entries(
            second,
            second_response,
        ),
{
    lemma_turn_appends(state, first, first_response);
    lemma_turn_appends(after_turn(state, first, first_response), second, second_response);
}

/// A message together with what came back for its turn.
pub type TurnRecord = (MessageView, Result<Seq<UpdateView>, ErrorView>);

/// The state after the turns of a queue, taken in the order of the queue.
pub open spec fn after_turns(state: StateView, turns: Seq<TurnRecord>) -> StateView
    decreases turns.len(),
{
    if turns.len() == 0 {
        state
    } else {
        after_turn(after_turns(state, turns.drop_last()), turns.last().0, turns.last().1)
    }
}

/// The log entries that the turns of a queue add: the entries of each turn
/// as one block, the blocks in the order of the queue.
pub open spec fn queue_entries(turns: Seq<TurnRecord>) -> Seq<EntryView>
    decreases turns.len(),
{
    if turns.len() == 0 {
        Seq::empty()
    } else {
        queue_entries(turns.drop_last()) + turn_entries(turns.last().0, turns.last().1)
    }
}

/// However many turns a session takes, the log holds their entries in the
/// order in which the messages were taken from the queue, and the entries
/// of one turn are never parted by those of another.
pub proof fn law_queue_order_is_log_order(state: StateView, turns: Seq<TurnRecord>)
    ensures
        after_turns(state, turns).log == state.log + queue_entries(turns),
        after_turns(state, turns).character == state.character,
    decreases turns.len(),
{
    if turns.len() > 0 {
        let earlier = turns.drop_last();
        law_queue_order_is_log_order(state, earlier);
        lemma_turn_appends(after_turns(state, earlier), turns.last().0, turns.last().1);
    }
}

/// A turn leaves its entries at the end of the log.
proof fn lemma_turn_appends(
    state: StateView,
    message: MessageView,
    response: Result<Seq<UpdateView>, ErrorView>,
)
    ensures
        after_turn(state, message, response).log == state.log + turn_entries(message, response),
{
}

} // verus!
