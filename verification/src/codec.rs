//! The JSON shapes of commands and outputs: how each is written as text and
//! how each is read back from a JSON tree.
//!
//! Reading is strict. An object that stands for a record must hold the
//! record's members and no others; an object that stands for one case of a
//! union must hold one member, named after the case. Anything else is a
//! [`SchemaViolation`].

use vstd::prelude::*;
use vstd::string::*;

use crate::character::{CharacterView, PlayerCharacter, PlayerCharacterBuilder};
use crate::json::{
    find, json_document, json_string_literal, lemma_list_view, lemma_record_view, lookup,
    items_view, members_view, parse, quote, Json, JsonView,
};
use crate::text::same_text;
use crate::schema::{
    update_views, AIInput, AIOutput, CommandView, QuestDefinition, QuestUpdate, QuestView,
    UpdateView,
};

verus! {

/// Why a JSON text is not the command or output it should be.
#[derive(Debug, PartialEq, Eq)]
pub enum SchemaViolation {
    /// The text is no JSON document. Holds the reader's message.
    Syntax(String),
    /// A value has another JSON type than its place asks for.
    WrongType,
    /// An object lacks a member that its shape declares.
    MissingField,
    /// An object holds a member beyond those that its shape declares.
    UnknownField,
    /// The one member of an object names no case of the union.
    UnknownVariant,
}

/// What a [`SchemaViolation`] is.
pub enum ViolationView {
    Syntax(Seq<char>),
    WrongType,
    MissingField,
    UnknownField,
    UnknownVariant,
}

impl View for SchemaViolation {
    type V = ViolationView;

    open spec fn view(&self) -> ViolationView {
        match self {
            SchemaViolation::Syntax(message) => ViolationView::Syntax(message@),
            SchemaViolation::WrongType => ViolationView::WrongType,
            SchemaViolation::MissingField => ViolationView::MissingField,
            SchemaViolation::UnknownField => ViolationView::UnknownField,
            SchemaViolation::UnknownVariant => ViolationView::UnknownVariant,
        }
    }
}

/// The message that stands for a violation.
pub open spec fn violation_text(violation: ViolationView) -> Seq<char> {
    match violation {
        ViolationView::Syntax(message) => message,
        ViolationView::WrongType => "a value has the wrong type"@,
        ViolationView::MissingField => "a field is missing"@,
        ViolationView::UnknownField => "an object has a field that is not allowed"@,
        ViolationView::UnknownVariant => "an object names no known variant"@,
    }
}

impl SchemaViolation {
    /// The violation in words.
    pub fn describe(&self) -> (text: String)
        ensures
            text@ == violation_text(self@),
    {
        match self {
            SchemaViolation::Syntax(message) => message.clone(),
            SchemaViolation::WrongType => "a value has the wrong type".to_owned(),
            SchemaViolation::MissingField => "a field is missing".to_owned(),
            SchemaViolation::UnknownField => "an object has a field that is not allowed".to_owned(),
            SchemaViolation::UnknownVariant => "an object names no known variant".to_owned(),
        }
    }
}

/// The text of the member under `key`.
pub open spec fn text_at(members: Seq<(Seq<char>, JsonView)>, key: Seq<char>) -> Result<
    Seq<char>,
    ViolationView,
> {
    match lookup(members, key) {
        None => Err(ViolationView::MissingField),
        Some(JsonView::Text(text)) => Ok(text),
        Some(_) => Err(ViolationView::WrongType),
    }
}

/// Reads an object of exactly three members, each a text, under the keys
/// `first`, `second` and `third`.
pub open spec fn three_texts_from_json(
    json: JsonView,
    first: Seq<char>,
    second: Seq<char>,
    third: Seq<char>,
) -> Result<(Seq<char>, Seq<char>, Seq<char>), ViolationView> {
    match json {
        JsonView::Record(members) => match text_at(members, first) {
            Err(violation) => Err(violation),
            Ok(a) => match text_at(members, second) {
                Err(violation) => Err(violation),
                Ok(b) => match text_at(members, third) {
                    Err(violation) => Err(violation),
                    Ok(c) => if members.len() == 3 {
                        Ok((a, b, c))
                    } else {
                        Err(ViolationView::UnknownField)
                    },
                },
            },
        },
        _ => Err(ViolationView::WrongType),
    }
}

/// Reads an object of exactly one member: its key and its value.
pub open spec fn sole_member(json: JsonView) -> Result<(Seq<char>, JsonView), ViolationView> {
    match json {
        JsonView::Record(members) => if members.len() == 0 {
            Err(ViolationView::MissingField)
        } else if members.len() == 1 {
            Ok(members[0])
        } else {
            Err(ViolationView::UnknownField)
        },
        _ => Err(ViolationView::WrongType),
    }
}

/// Reads a quest: an object of the texts `title`, `description` and
/// `objective_summary`.
pub open spec fn quest_from_json(json: JsonView) -> Result<QuestView, ViolationView> {
    match three_texts_from_json(json, "title"@, "description"@, "objective_summary"@) {
        Ok((title, description, objective_summary)) => Ok(
            QuestView { title, description, objective_summary },
        ),
        Err(violation) => Err(violation),
    }
}

/// Reads a character: an object of the texts `name`, `race` and `class`.
pub open spec fn character_from_json(json: JsonView) -> Result<CharacterView, ViolationView> {
    match three_texts_from_json(json, "name"@, "race"@, "class"@) {
        Ok((name, race, class)) => Ok(CharacterView { name, race, class }),
        Err(violation) => Err(violation),
    }
}

/// Reads an update: `{"QuestDefinition": quest}` or `{"Description": text}`.
pub open spec fn update_from_json(json: JsonView) -> Result<UpdateView, ViolationView> {
    match sole_member(json) {
        Err(violation) => Err(violation),
        Ok((key, payload)) => if key == "QuestDefinition"@ {
            match quest_from_json(payload) {
                Ok(quest) => Ok(UpdateView::QuestDefinition(quest)),
                Err(violation) => Err(violation),
            }
        } else if key == "Description"@ {
            match payload {
                JsonView::Text(text) => Ok(UpdateView::Description(text)),
                _ => Err(ViolationView::WrongType),
            }
        } else {
            Err(ViolationView::UnknownVariant)
        },
    }
}

/// Reads a run of updates, one from each item. Where some item is no
/// update, the violation of the first such item is the result.
pub open spec fn updates_from_json(items: Seq<JsonView>) -> Result<Seq<UpdateView>, ViolationView>
    decreases items.len(),
{
    if items.len() == 0 {
        Ok(Seq::empty())
    } else {
        match updates_from_json(items.drop_last()) {
            Err(violation) => Err(violation),
            Ok(updates) => match update_from_json(items.last()) {
                Err(violation) => Err(violation),
                Ok(update) => Ok(updates.push(update)),
            },
        }
    }
}

/// Reads an output: an object whose one member, `updates`, is an array of
/// updates.
pub open spec fn output_from_json(json: JsonView) -> Result<Seq<UpdateView>, ViolationView> {
    match json {
        JsonView::Record(members) => match lookup(members, "updates"@) {
            None => Err(ViolationView::MissingField),
            Some(JsonView::List(items)) => if members.len() == 1 {
                updates_from_json(items)
            } else {
                Err(ViolationView::UnknownField)
            },
            Some(_) => Err(ViolationView::WrongType),
        },
        _ => Err(ViolationView::WrongType),
    }
}

/// Reads a command: `{"Start": character}` or `{"UserInput": text}`.
pub open spec fn command_from_json(json: JsonView) -> Result<CommandView, ViolationView> {
    match sole_member(json) {
        Err(violation) => Err(violation),
        Ok((key, payload)) => if key == "Start"@ {
            match character_from_json(payload) {
                Ok(character) => Ok(CommandView::Start(character)),
                Err(violation) => Err(violation),
            }
        } else if key == "UserInput"@ {
            match payload {
                JsonView::Text(text) => Ok(CommandView::UserInput(text)),
                _ => Err(ViolationView::WrongType),
            }
        } else {
            Err(ViolationView::UnknownVariant)
        },
    }
}

/// The text of the member under `key`.
fn text_member(members: &Vec<(String, Json)>, key: &str) -> (r: Result<String, SchemaViolation>)
    ensures
        match r {
            Ok(text) => text_at(members_view(members@), key@) == Ok::<Seq<char>, ViolationView>(
                text@,
            ),
            Err(violation) => text_at(members_view(members@), key@) == Err::<
                Seq<char>,
                ViolationView,
            >(violation@),
        },
{
    match find(members, key) {
        None => Err(SchemaViolation::MissingField),
        Some(Json::Text(text)) => Ok(text.clone()),
        Some(_) => Err(SchemaViolation::WrongType),
    }
}

/// Reads an object of exactly three members, each a text.
fn three_texts(json: &Json, first: &str, second: &str, third: &str) -> (r: Result<
    (String, String, String),
    SchemaViolation,
>)
    ensures
        match r {
            Ok((a, b, c)) => three_texts_from_json(json@, first@, second@, third@) == Ok::<
                (Seq<char>, Seq<char>, Seq<char>),
                ViolationView,
            >((a@, b@, c@)),
            Err(violation) => three_texts_from_json(json@, first@, second@, third@) == Err::<
                (Seq<char>, Seq<char>, Seq<char>),
                ViolationView,
            >(violation@),
        },
{
    match json {
        Json::Record(members) => {
            proof {
                lemma_record_view(*members);
            }
            let a = match text_member(members, first) {
                Ok(text) => text,
                Err(violation) => {
                    return Err(violation);
                },
            };
            let b = match text_member(members, second) {
                Ok(text) => text,
                Err(violation) => {
                    return Err(violation);
                },
            };
            let c = match text_member(members, third) {
                Ok(text) => text,
                Err(violation) => {
                    return Err(violation);
                },
            };
            if members.len() == 3 {
                Ok((a, b, c))
            } else {
                Err(SchemaViolation::UnknownField)
            }
        },
        _ => Err(SchemaViolation::WrongType),
    }
}

/// Reads a quest from a JSON tree.
pub fn decode_quest(json: &Json) -> (r: Result<QuestDefinition, SchemaViolation>)
    ensures
        match r {
            Ok(quest) => quest_from_json(json@) == Ok::<QuestView, ViolationView>(quest@),
            Err(violation) => quest_from_json(json@) == Err::<QuestView, ViolationView>(
                violation@,
            ),
        },
{
    match three_texts(json, "title", "description", "objective_summary") {
        Ok((title, description, objective_summary)) => Ok(
            QuestDefinition { title, description, objective_summary },
        ),
        Err(violation) => Err(violation),
    }
}

/// Reads a character from a JSON tree.
pub fn decode_character(json: &Json) -> (r: Result<PlayerCharacter, SchemaViolation>)
    ensures
        match r {
            Ok(character) => character_from_json(json@) == Ok::<CharacterView, ViolationView>(
                character@,
            ),
            Err(violation) => character_from_json(json@) == Err::<CharacterView, ViolationView>(
                violation@,
            ),
        },
{
    match three_texts(json, "name", "race", "class") {
        Ok((name, race, class)) => Ok(
            PlayerCharacterBuilder::new(name).with_race(race).with_class(class).build(),
        ),
        Err(violation) => Err(violation),
    }
}

/// Reads an object of exactly one member.
fn only_member(json: &Json) -> (r: Result<(&str, &Json), SchemaViolation>)
    ensures
        match r {
            Ok((key, payload)) => sole_member(json@) == Ok::<(Seq<char>, JsonView), ViolationView>(
                (key@, payload@),
            ),
            Err(violation) => sole_member(json@) == Err::<(Seq<char>, JsonView), ViolationView>(
                violation@,
            ),
        },
{
    match json {
        Json::Record(members) => {
            proof {
                lemma_record_view(*members);
            }
            if members.len() == 0 {
                Err(SchemaViolation::MissingField)
            } else if members.len() == 1 {
                Ok((members[0].0.as_str(), &members[0].1))
            } else {
                Err(SchemaViolation::UnknownField)
            }
        },
        _ => Err(SchemaViolation::WrongType),
    }
}

/// Reads an update from a JSON tree.
pub fn decode_update(json: &Json) -> (r: Result<QuestUpdate, SchemaViolation>)
    ensures
        match r {
            Ok(update) => update_from_json(json@) == Ok::<UpdateView, ViolationView>(update@),
            Err(violation) => update_from_json(json@) == Err::<UpdateView, ViolationView>(
                violation@,
            ),
        },
{
    let (key, payload) = match only_member(json) {
        Ok(member) => member,
        Err(violation) => {
            return Err(violation);
        },
    };
    if same_text(key, "QuestDefinition") {
        match decode_quest(payload) {
            Ok(quest) => Ok(QuestUpdate::QuestDefinition(quest)),
            Err(violation) => Err(violation),
        }
    } else if same_text(key, "Description") {
        match payload {
            Json::Text(text) => Ok(QuestUpdate::Description(text.clone())),
            _ => Err(SchemaViolation::WrongType),
        }
    } else {
        Err(SchemaViolation::UnknownVariant)
    }
}

/// A violation in a prefix of the items is the violation of the whole run.
pub proof fn lemma_first_violation_stands(items: Seq<JsonView>, n: int)
    requires
        0 <= n <= items.len(),
        updates_from_json(items.take(n)) is Err,
    ensures
        updates_from_json(items) == updates_from_json(items.take(n)),
    decreases items.len() - n,
{
    if n < items.len() {
        assert(items.take(n + 1).drop_last() == items.take(n));
        lemma_first_violation_stands(items, n + 1);
    } else {
        assert(items.take(n) == items);
    }
}

/// Reads an output from a JSON tree.
pub fn decode_output(json: &Json) -> (r: Result<AIOutput, SchemaViolation>)
    ensures
        match r {
            Ok(output) => output_from_json(json@) == Ok::<Seq<UpdateView>, ViolationView>(
                output@,
            ),
            Err(violation) => output_from_json(json@) == Err::<Seq<UpdateView>, ViolationView>(
                violation@,
            ),
        },
{
    let members = match json {
        Json::Record(members) => members,
        _ => {
            return Err(SchemaViolation::WrongType);
        },
    };
    proof {
        lemma_record_view(*members);
    }
    let items = match find(members, "updates") {
        None => {
            return Err(SchemaViolation::MissingField);
        },
        Some(Json::List(items)) => items,
        Some(_) => {
            return Err(SchemaViolation::WrongType);
        },
    };
    if members.len() != 1 {
        return Err(SchemaViolation::UnknownField);
    }
    proof {
        lemma_list_view(*items);
    }
    let ghost all = items_view(items@);
    let mut updates: Vec<QuestUpdate> = Vec::new();
    let mut i: usize = 0;
    assert(update_views(updates@) == Seq::<UpdateView>::empty());
    while i < items.len()
        invariant
            i <= items.len(),
            all == items_view(items@),
            output_from_json(json@) == updates_from_json(all),
            updates_from_json(all.take(i as int)) == Ok::<Seq<UpdateView>, ViolationView>(
                update_views(updates@),
            ),
        decreases items.len() - i,
    {
        proof {
            assert(all.take(i + 1).drop_last() == all.take(i as int));
        }
        match decode_update(&items[i]) {
            Ok(update) => {
                assert(update_views(updates@.push(update)) == update_views(updates@).push(
                    update@,
                ));
                updates.push(update);
            },
            Err(violation) => {
                proof {
                    lemma_first_violation_stands(all, i + 1);
                }
                return Err(violation);
            },
        }
        i = i + 1;
    }
    assert(all.take(i as int) == all);
    Ok(AIOutput { updates })
}

/// Reads a command from a JSON tree.
pub fn decode_command(json: &Json) -> (r: Result<AIInput, SchemaViolation>)
    ensures
        match r {
            Ok(command) => command_from_json(json@) == Ok::<CommandView, ViolationView>(
                command@,
            ),
            Err(violation) => command_from_json(json@) == Err::<CommandView, ViolationView>(
                violation@,
            ),
        },
{
    let (key, payload) = match only_member(json) {
        Ok(member) => member,
        Err(violation) => {
            return Err(violation);
        },
    };
    if same_text(key, "Start") {
        match decode_character(payload) {
            Ok(character) => Ok(AIInput::Start(character)),
            Err(violation) => Err(violation),
        }
    } else if same_text(key, "UserInput") {
        match payload {
            Json::Text(text) => Ok(AIInput::UserInput(text.clone())),
            _ => Err(SchemaViolation::WrongType),
        }
    } else {
        Err(SchemaViolation::UnknownVariant)
    }
}

/// What a text is as an output: the reader's message where it is no JSON
/// document, else what its tree is as an output.
pub open spec fn output_from_text(text: Seq<char>) -> Result<Seq<UpdateView>, ViolationView> {
    match json_document(text) {
        Ok(json) => output_from_json(json),
        Err(message) => Err(ViolationView::Syntax(message)),
    }
}

/// What a text is as a command.
pub open spec fn command_from_text(text: Seq<char>) -> Result<CommandView, ViolationView> {
    match json_document(text) {
        Ok(json) => command_from_json(json),
        Err(message) => Err(ViolationView::Syntax(message)),
    }
}

/// Reads an output from JSON text.
pub fn parse_output(text: &str) -> (r: Result<AIOutput, SchemaViolation>)
    ensures
        match r {
            Ok(output) => output_from_text(text@) == Ok::<Seq<UpdateView>, ViolationView>(
                output@,
            ),
            Err(violation) => output_from_text(text@) == Err::<Seq<UpdateView>, ViolationView>(
                violation@,
            ),
        },
{
    match parse(text) {
        Ok(json) => decode_output(&json),
        Err(message) => Err(SchemaViolation::Syntax(message)),
    }
}

/// Reads a command from JSON text.
pub fn parse_command(text: &str) -> (r: Result<AIInput, SchemaViolation>)
    ensures
        match r {
            Ok(command) => command_from_text(text@) == Ok::<CommandView, ViolationView>(
                command@,
            ),
            Err(violation) => command_from_text(text@) == Err::<CommandView, ViolationView>(
                violation@,
            ),
        },
{
    match parse(text) {
        Ok(json) => decode_command(&json),
        Err(message) => Err(SchemaViolation::Syntax(message)),
    }
}

/// The JSON text of a character.
pub open spec fn character_text(character: CharacterView) -> Seq<char> {
    "{\"name\":"@ + json_string_literal(character.name) + ",\"race\":"@ + json_string_literal(
        character.race,
    ) + ",\"class\":"@ + json_string_literal(character.class) + "}"@
}

/// The JSON text of a command.
pub open spec fn command_text(command: CommandView) -> Seq<char> {
    match command {
        CommandView::Start(character) => "{\"Start\":"@ + character_text(character) + "}"@,
        CommandView::UserInput(text) => "{\"UserInput\":"@ + json_string_literal(text) + "}"@,
    }
}

/// The JSON text of a quest.
pub open spec fn quest_text(quest: QuestView) -> Seq<char> {
    "{\"title\":"@ + json_string_literal(quest.title) + ",\"description\":"@
        + json_string_literal(quest.description) + ",\"objective_summary\":"@
        + json_string_literal(quest.objective_summary) + "}"@
}

/// The JSON text of an update.
pub open spec fn update_text(update: UpdateView) -> Seq<char> {
    match update {
        UpdateView::QuestDefinition(quest) => "{\"QuestDefinition\":"@ + quest_text(quest) + "}"@,
        UpdateView::Description(text) => "{\"Description\":"@ + json_string_literal(text) + "}"@,
    }
}

/// The JSON texts of a run of updates, with a comma between neighbours.
pub open spec fn updates_text(updates: Seq<UpdateView>) -> Seq<char>
    decreases updates.len(),
{
    if updates.len() == 0 {
        Seq::empty()
    } else if updates.len() == 1 {
        update_text(updates[0])
    } else {
        updates_text(updates.drop_last()) + ","@ + update_text(updates.last())
    }
}

/// The JSON text of an output.
pub open spec fn output_text(updates: Seq<UpdateView>) -> Seq<char> {
    "{\"updates\":["@ + updates_text(updates) + "]}"@
}

/// Appends a text as a JSON string literal.
fn push_literal(out: &mut String, text: &str)
    ensures
        final(out)@ == old(out)@ + json_string_literal(text@),
{
    let literal = quote(text).unwrap();
    out.append(literal.as_str());
}

/// Appends the JSON text of a character.
fn push_character(out: &mut String, character: &PlayerCharacter)
    ensures
        final(out)@ == old(out)@ + character_text(character@),
{
    out.append("{\"name\":");
    push_literal(out, character.name());
    out.append(",\"race\":");
    push_literal(out, character.race());
    out.append(",\"class\":");
    push_literal(out, character.class());
    out.append("}");
}

/// Appends the JSON text of a quest.
fn push_quest(out: &mut String, quest: &QuestDefinition)
    ensures
        final(out)@ == old(out)@ + quest_text(quest@),
{
    out.append("{\"title\":");
    push_literal(out, quest.title.as_str());
    out.append(",\"description\":");
    push_literal(out, quest.description.as_str());
    out.append(",\"objective_summary\":");
    push_literal(out, quest.objective_summary.as_str());
    out.append("}");
}

/// Appends the JSON text of an update.
fn push_update(out: &mut String, update: &QuestUpdate)
    ensures
        final(out)@ == old(out)@ + update_text(update@),
{
    match update {
        QuestUpdate::QuestDefinition(quest) => {
            out.append("{\"QuestDefinition\":");
            push_quest(out, quest);
            out.append("}");
        },
        QuestUpdate::Description(text) => {
            out.append("{\"Description\":");
            push_literal(out, text.as_str());
            out.append("}");
        },
    }
}

/// Writes a command as JSON text.
pub fn encode_command(command: &AIInput) -> (text: String)
    ensures
        text@ == command_text(command@),
{
    let mut out = String::new();
    match command {
        AIInput::Start(character) => {
            out.append("{\"Start\":");
            push_character(&mut out, character);
            out.append("}");
        },
        AIInput::UserInput(text) => {
            out.append("{\"UserInput\":");
            push_literal(&mut out, text.as_str());
            out.append("}");
        },
    }
    out
}

/// Writes an output as JSON text.
pub fn encode_output(output: &AIOutput) -> (text: String)
    ensures
        text@ == output_text(output@),
{
    let mut out = String::new();
    out.append("{\"updates\":[");
    let ghost head = out@;
    let ghost all = output@;
    let mut i: usize = 0;
    while i < output.updates.len()
        invariant
            i <= output.updates.len(),
            all == update_views(output.updates@),
            out@ == head + updates_text(all.take(i as int)),
        decreases output.updates.len() - i,
    {
        if i > 0 {
            out.append(",");
        }
        push_update(&mut out, &output.updates[i]);
        assert(all.take(i + 1).drop_last() == all.take(i as int));
        i = i + 1;
    }
    assert(all.take(i as int) == all);
    out.append("]}");
    out
}

/// The tree of a quest: an object of its three texts.
pub open spec fn quest_json(quest: QuestView) -> JsonView {
    JsonView::Record(
        seq![
            ("title"@, JsonView::Text(quest.title)),
            ("description"@, JsonView::Text(quest.description)),
            ("objective_summary"@, JsonView::Text(quest.objective_summary)),
        ],
    )
}

/// The tree of a character: an object of its three texts.
pub open spec fn character_json(character: CharacterView) -> JsonView {
    JsonView::Record(
        seq![
            ("name"@, JsonView::Text(character.name)),
            ("race"@, JsonView::Text(character.race)),
            ("class"@, JsonView::Text(character.class)),
        ],
    )
}

/// The tree of an update: an object of one member, named after the case.
pub open spec fn update_json(update: UpdateView) -> JsonView {
    match update {
        UpdateView::QuestDefinition(quest) => JsonView::Record(
            seq![("QuestDefinition"@, quest_json(quest))],
        ),
        UpdateView::Description(text) => JsonView::Record(
            seq![("Description"@, JsonView::Text(text))],
        ),
    }
}

/// The tree of an output: an object whose one member is the array of the
/// updates' trees.
pub open spec fn output_json(updates: Seq<UpdateView>) -> JsonView {
    JsonView::Record(
        seq![("updates"@, JsonView::List(updates.map_values(|update: UpdateView| update_json(update))))],
    )
}

/// The tree of a command: an object of one member, named after the case.
pub open spec fn command_json(command: CommandView) -> JsonView {
    match command {
        CommandView::Start(character) => JsonView::Record(
            seq![("Start"@, character_json(character))],
        ),
        CommandView::UserInput(text) => JsonView::Record(
            seq![("UserInput"@, JsonView::Text(text))],
        ),
    }
}

/// An object of three texts under three different keys is read back.
proof fn lemma_three_texts_read_back(
    first: Seq<char>,
    second: Seq<char>,
    third: Seq<char>,
    a: Seq<char>,
    b: Seq<char>,
    c: Seq<char>,
)
    requires
        first != second,
        first != third,
        second != third,
    ensures
        three_texts_from_json(
            JsonView::Record(
                seq![
                    (first, JsonView::Text(a)),
                    (second, JsonView::Text(b)),
                    (third, JsonView::Text(c)),
                ],
            ),
            first,
            second,
            third,
        ) == Ok::<(Seq<char>, Seq<char>, Seq<char>), ViolationView>((a, b, c)),
{
    let members = seq![
        (first, JsonView::Text(a)),
        (second, JsonView::Text(b)),
        (third, JsonView::Text(c)),
    ];
    let tail = seq![(second, JsonView::Text(b)), (third, JsonView::Text(c))];
    let last = seq![(third, JsonView::Text(c))];
    assert(members.drop_first() == tail);
    assert(tail.drop_first() == last);
    assert(lookup(last, third) == Some(JsonView::Text(c)));
    assert(lookup(tail, second) == Some(JsonView::Text(b)));
    assert(lookup(tail, third) == Some(JsonView::Text(c)));
}

/// The trees of a run of updates are read back as the run.
proof fn lemma_updates_read_back(updates: Seq<UpdateView>)
    ensures
        updates_from_json(updates.map_values(|update: UpdateView| update_json(update))) == Ok::<
            Seq<UpdateView>,
            ViolationView,
        >(updates),
    decreases updates.len(),
{
    let trees = updates.map_values(|update: UpdateView| update_json(update));
    if updates.len() == 0 {
        assert(updates == Seq::<UpdateView>::empty());
    } else {
        let earlier = updates.drop_last();
        lemma_updates_read_back(earlier);
        assert(trees.drop_last() == earlier.map_values(|update: UpdateView| update_json(update)));
        lemma_update_read_back(updates.last());
        assert(earlier.push(updates.last()) == updates);
    }
}

/// The tree of an update is read back as the update.
proof fn lemma_update_read_back(update: UpdateView)
    ensures
        update_from_json(update_json(update)) == Ok::<UpdateView, ViolationView>(update),
{
    reveal_strlit("title");
    reveal_strlit("description");
    reveal_strlit("objective_summary");
    reveal_strlit("QuestDefinition");
    reveal_strlit("Description");
    assert("title"@.len() == 5 && "description"@.len() == 11 && "objective_summary"@.len() == 17);
    assert("QuestDefinition"@.len() == 15 && "Description"@.len() == 11);
    match update {
        UpdateView::QuestDefinition(quest) => {
            lemma_three_texts_read_back(
                "title"@,
                "description"@,
                "objective_summary"@,
                quest.title,
                quest.description,
                quest.objective_summary,
            );
        },
        UpdateView::Description(_) => {},
    }
}

/// The schema reads back what it lays out: every quest, character, update,
/// output and command, set down as the tree of its shape, is read as itself.
pub proof fn law_shapes_are_read_back(
    quest: QuestView,
    character: CharacterView,
    update: UpdateView,
    updates: Seq<UpdateView>,
    command: CommandView,
)
    ensures
        quest_from_json(quest_json(quest)) == Ok::<QuestView, ViolationView>(quest),
        character_from_json(character_json(character)) == Ok::<CharacterView, ViolationView>(
            character,
        ),
        update_from_json(update_json(update)) == Ok::<UpdateView, ViolationView>(update),
        output_from_json(output_json(updates)) == Ok::<Seq<UpdateView>, ViolationView>(updates),
        command_from_json(command_json(command)) == Ok::<CommandView, ViolationView>(command),
{
    reveal_strlit("title");
    reveal_strlit("description");
    reveal_strlit("objective_summary");
    reveal_strlit("name");
    reveal_strlit("race");
    reveal_strlit("class");
    reveal_strlit("Start");
    reveal_strlit("UserInput");
    assert("title"@.len() == 5 && "description"@.len() == 11 && "objective_summary"@.len() == 17);
    assert("name"@.len() == 4 && "class"@.len() == 5 && "name"@[0] != "race"@[0]);
    assert("Start"@.len() == 5 && "UserInput"@.len() == 9);
    lemma_three_texts_read_back(
        "title"@,
        "description"@,
        "objective_summary"@,
        quest.title,
        quest.description,
        quest.objective_summary,
    );
    lemma_three_texts_read_back(
        "name"@,
        "race"@,
        "class"@,
        character.name,
        character.race,
        character.class,
    );
    lemma_update_read_back(update);
    lemma_updates_read_back(updates);
    match command {
        CommandView::Start(who) => {
            lemma_three_texts_read_back("name"@, "race"@, "class"@, who.name, who.race, who.class);
        },
        CommandView::UserInput(_) => {},
    }
}

/// Where a key is found among the members, some member carries it.
pub proof fn lemma_lookup_position(members: Seq<(Seq<char>, JsonView)>, key: Seq<char>) -> (at:
    int)
    requires
        lookup(members, key) is Some,
    ensures
        0 <= at < members.len(),
        members[at].0 == key,
    decreases members.len(),
{
    if members[0].0 == key {
        0
    } else {
        lemma_lookup_position(members.drop_first(), key) + 1
    }
}

/// An object of three declared members that holds a member under any other
/// key is rejected.
pub proof fn lemma_three_texts_strict(
    members: Seq<(Seq<char>, JsonView)>,
    first: Seq<char>,
    second: Seq<char>,
    third: Seq<char>,
    at: int,
)
    requires
        first != second,
        first != third,
        second != third,
        0 <= at < members.len(),
        members[at].0 != first,
        members[at].0 != second,
        members[at].0 != third,
    ensures
        three_texts_from_json(JsonView::Record(members), first, second, third) is Err,
{
    if text_at(members, first) is Ok && text_at(members, second) is Ok && text_at(
        members,
        third,
    ) is Ok {
        let a = lemma_lookup_position(members, first);
        let b = lemma_lookup_position(members, second);
        let c = lemma_lookup_position(members, third);
        assert(a != b && a != c && b != c && a != at && b != at && c != at);
        assert(members.len() >= 4);
    }
}

/// Strictness of the schema: an object that holds a member under a key that
/// its shape does not declare is read as nothing, whatever else it holds.
/// This is so for each shape: quest, character, update, output and command.
pub proof fn law_undeclared_member_is_rejected(members: Seq<(Seq<char>, JsonView)>, at: int)
    requires
        0 <= at < members.len(),
    ensures
        members[at].0 != "title"@ && members[at].0 != "description"@ && members[at].0
            != "objective_summary"@ ==> quest_from_json(JsonView::Record(members)) is Err,
        members[at].0 != "name"@ && members[at].0 != "race"@ && members[at].0 != "class"@
            ==> character_from_json(JsonView::Record(members)) is Err,
        members[at].0 != "QuestDefinition"@ && members[at].0 != "Description"@
            ==> update_from_json(JsonView::Record(members)) is Err,
        members[at].0 != "updates"@ ==> output_from_json(JsonView::Record(members)) is Err,
        members[at].0 != "Start"@ && members[at].0 != "UserInput"@ ==> command_from_json(
            JsonView::Record(members),
        ) is Err,
{
    let key = members[at].0;
    reveal_strlit("title");
    reveal_strlit("description");
    reveal_strlit("objective_summary");
    reveal_strlit("name");
    reveal_strlit("race");
    reveal_strlit("class");
    if key != "title"@ && key != "description"@ && key != "objective_summary"@ {
        assert("title"@.len() == 5 && "description"@.len() == 11 && "objective_summary"@.len()
            == 17);
        lemma_three_texts_strict(members, "title"@, "description"@, "objective_summary"@, at);
    }
    if key != "name"@ && key != "race"@ && key != "class"@ {
        assert("name"@.len() == 4 && "class"@.len() == 5 && "name"@[0] != "race"@[0]);
        lemma_three_texts_strict(members, "name"@, "race"@, "class"@, at);
    }
    if key != "updates"@ && lookup(members, "updates"@) is Some {
        let found = lemma_lookup_position(members, "updates"@);
        assert(found != at);
    }
}

/// Strictness of the schema, seen from the text: a text that stands for an
/// object with a member under an undeclared key is neither an output nor a
/// command.
pub proof fn law_text_with_undeclared_member_is_rejected(
    text: Seq<char>,
    members: Seq<(Seq<char>, JsonView)>,
    at: int,
)
    requires
        0 <= at < members.len(),
    ensures
        json_document(text) == Ok::<JsonView, Seq<char>>(JsonView::Record(members)) && members[at].0
            != "updates"@ ==> output_from_text(text) is Err,
        json_document(text) == Ok::<JsonView, Seq<char>>(JsonView::Record(members)) && members[at].0
            != "Start"@ && members[at].0 != "UserInput"@ ==> command_from_text(text) is Err,
{
    law_undeclared_member_is_rejected(members, at);
}

/// Completeness of the schema: an object that lacks a declared member is
/// read as nothing.
pub proof fn law_missing_member_is_rejected(members: Seq<(Seq<char>, JsonView)>)
    ensures
        lookup(members, "title"@) is None || lookup(members, "description"@) is None || lookup(
            members,
            "objective_summary"@,
        ) is None ==> quest_from_json(JsonView::Record(members)) is Err,
        lookup(members, "name"@) is None || lookup(members, "race"@) is None || lookup(
            members,
            "class"@,
        ) is None ==> character_from_json(JsonView::Record(members)) is Err,
        lookup(members, "updates"@) is None ==> output_from_json(JsonView::Record(members)) is Err,
        members.len() == 0 ==> update_from_json(JsonView::Record(members)) is Err
            && command_from_json(JsonView::Record(members)) is Err,
{
}

} // verus!
