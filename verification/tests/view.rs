use uquest::character::{PlayerCharacter, PlayerCharacterBuilder};
use uquest::game::GamePlayer;
use uquest::view::character::{Action as FormAction, CharacterCreate, Message as FormMessage};
use uquest::view::quest::{speaker_label, Action as QuestAction, Message as QuestMessage, QuestLog};
use uquest::view::{update, Action, Message, Screen, State};

fn character(name: &str, race: &str, class: &str) -> PlayerCharacter {
    PlayerCharacterBuilder::new(name.to_owned())
        .with_race(race.to_owned())
        .with_class(class.to_owned())
        .build()
}

fn submit(form: &mut CharacterCreate) -> PlayerCharacter {
    match form.update(FormMessage::Submit) {
        Some(FormAction::Submit(character)) => character,
        None => panic!("nothing was submitted"),
    }
}

#[test]
fn a_new_form_is_empty() {
    let form = CharacterCreate::new();
    assert_eq!(form.name_field(), "");
    assert_eq!(form.race_field(), "");
    assert_eq!(form.class_field(), "");
}

#[test]
fn a_change_replaces_one_field() {
    let mut form = CharacterCreate::new();
    assert!(form.update(FormMessage::NameChange("Ada".to_owned())).is_none());
    assert_eq!((form.name_field(), form.race_field(), form.class_field()), ("Ada", "", ""));
    assert!(form.update(FormMessage::RaceChange("Elf".to_owned())).is_none());
    assert_eq!((form.name_field(), form.race_field(), form.class_field()), ("Ada", "Elf", ""));
    assert!(form.update(FormMessage::ClassChange("Wizard".to_owned())).is_none());
    assert_eq!((form.name_field(), form.race_field(), form.class_field()), ("Ada", "Elf", "Wizard"));
    assert!(form.update(FormMessage::NameChange("Bea".to_owned())).is_none());
    assert_eq!((form.name_field(), form.race_field(), form.class_field()), ("Bea", "Elf", "Wizard"));
}

#[test]
fn an_empty_form_submits_the_fallbacks() {
    let mut form = CharacterCreate::new();
    assert_eq!(submit(&mut form), character("Jim", "Human", "Fighter"));
}

#[test]
fn a_blank_field_submits_its_fallback() {
    let mut form = CharacterCreate::new();
    form.update(FormMessage::NameChange("  \t ".to_owned()));
    form.update(FormMessage::RaceChange("\n".to_owned()));
    form.update(FormMessage::ClassChange("Bard".to_owned()));
    assert_eq!(submit(&mut form), character("Jim", "Human", "Bard"));
}

#[test]
fn a_submitted_field_is_trimmed() {
    let mut form = CharacterCreate::new();
    form.update(FormMessage::NameChange("  Ada Lovelace \n".to_owned()));
    form.update(FormMessage::RaceChange("\tElf".to_owned()));
    form.update(FormMessage::ClassChange("Wizard  ".to_owned()));
    assert_eq!(submit(&mut form), character("Ada Lovelace", "Elf", "Wizard"));
}

#[test]
fn white_space_of_any_kind_is_trimmed() {
    let mut form = CharacterCreate::new();
    form.update(FormMessage::NameChange("\u{a0}Ada\u{2003}".to_owned()));
    form.update(FormMessage::RaceChange("\u{3000}\r\n".to_owned()));
    form.update(FormMessage::ClassChange("War  Mage".to_owned()));
    assert_eq!(submit(&mut form), character("Ada", "Human", "War  Mage"));
}

#[test]
fn a_submission_leaves_the_fields() {
    let mut form = CharacterCreate::new();
    form.update(FormMessage::NameChange(" Ada ".to_owned()));
    submit(&mut form);
    assert_eq!(form.name_field(), " Ada ");
    assert_eq!(form.race_field(), "");
}

fn quest_log() -> QuestLog {
    QuestLog::new(character("Jim", "Human", "Fighter")).0
}

#[test]
fn a_new_quest_screen_waits_for_its_session() {
    let (log, builder) = QuestLog::new(character("Jim", "Human", "Fighter"));
    assert!(!log.is_loaded());
    assert!(log.is_waiting());
    assert_eq!(log.input_field(), "");
    let (who, key) = builder.into_parts(None);
    assert_eq!(who, character("Jim", "Human", "Fighter"));
    assert_eq!(key, None);
}

#[test]
fn a_loaded_session_is_started() {
    let mut log = quest_log();
    assert_eq!(log.update(QuestMessage::Loaded), Some(QuestAction::Start));
    assert!(log.is_loaded());
    assert!(log.is_waiting());
    assert_eq!(log.update(QuestMessage::Started), None);
    assert!(!log.is_waiting());
}

#[test]
fn typing_fills_the_field() {
    let mut log = quest_log();
    assert_eq!(log.update(QuestMessage::InputFieldChange("go".to_owned())), None);
    assert_eq!(log.update(QuestMessage::InputFieldChange("go north".to_owned())), None);
    assert_eq!(log.input_field(), "go north");
}

#[test]
fn a_submission_before_the_session_is_there_does_nothing() {
    let mut log = quest_log();
    log.update(QuestMessage::InputFieldChange("go north".to_owned()));
    assert_eq!(log.update(QuestMessage::InputSubmit), None);
    assert_eq!(log.input_field(), "go north");
    assert!(log.is_waiting());
    assert!(!log.is_loaded());
}

#[test]
fn a_submission_sends_the_field_and_empties_it() {
    let mut log = quest_log();
    log.update(QuestMessage::Loaded);
    log.update(QuestMessage::Started);
    log.update(QuestMessage::InputFieldChange("go north".to_owned()));
    assert_eq!(
        log.update(QuestMessage::InputSubmit),
        Some(QuestAction::Input { content: "go north".to_owned() })
    );
    assert_eq!(log.input_field(), "");
    assert!(log.is_waiting());
    assert_eq!(log.update(QuestMessage::Response), Some(QuestAction::SnapToEnd));
    assert!(!log.is_waiting());
    assert!(log.is_loaded());
}

#[test]
fn speakers_are_marked() {
    assert_eq!(speaker_label(GamePlayer::GM), "GM:");
    assert_eq!(speaker_label(GamePlayer::PC), "PC:");
}

#[test]
fn the_form_is_shown_first() {
    let state = State::new();
    match &state.screen {
        Screen::CharacterCreate(form) => assert_eq!(form.name_field(), ""),
        other => panic!("not the form: {:?}", other),
    }
}

#[test]
fn a_submitted_form_gives_way_to_the_quest_screen() {
    let mut state = State::new();
    assert!(update(
        &mut state,
        Message::CharacterCreate(FormMessage::NameChange(" Ada ".to_owned()))
    )
    .is_none());
    let action = update(&mut state, Message::CharacterCreate(FormMessage::Submit));
    match action {
        Some(Action::Load(builder)) => {
            let (who, key) = builder.into_parts(None);
            assert_eq!(who, character("Ada", "Human", "Fighter"));
            assert_eq!(key, None);
        }
        other => panic!("no session to load: {:?}", other),
    }
    match &state.screen {
        Screen::Quest(log) => {
            assert!(!log.is_loaded());
            assert!(log.is_waiting());
            assert_eq!(log.input_field(), "");
        }
        other => panic!("not the quest screen: {:?}", other),
    }
}

#[test]
fn messages_reach_the_screen_that_is_shown() {
    let mut state = State::new();
    update(&mut state, Message::CharacterCreate(FormMessage::Submit));
    match update(&mut state, Message::Quest(QuestMessage::Loaded)) {
        Some(Action::Quest(QuestAction::Start)) => {}
        other => panic!("the session was not started: {:?}", other),
    }
    assert!(update(&mut state, Message::Quest(QuestMessage::Started)).is_none());
    update(&mut state, Message::Quest(QuestMessage::InputFieldChange("look".to_owned())));
    match update(&mut state, Message::Quest(QuestMessage::InputSubmit)) {
        Some(Action::Quest(QuestAction::Input { content })) => assert_eq!(content, "look"),
        other => panic!("nothing was sent: {:?}", other),
    }
    match update(&mut state, Message::Quest(QuestMessage::Response)) {
        Some(Action::Quest(QuestAction::SnapToEnd)) => {}
        other => panic!("the log was not scrolled: {:?}", other),
    }
}

#[test]
fn messages_for_another_screen_are_dropped() {
    let mut state = State::new();
    assert!(update(&mut state, Message::Quest(QuestMessage::Loaded)).is_none());
    assert!(update(&mut state, Message::Quest(QuestMessage::InputSubmit)).is_none());
    match &state.screen {
        Screen::CharacterCreate(form) => assert_eq!(form.name_field(), ""),
        other => panic!("not the form: {:?}", other),
    }
    update(&mut state, Message::CharacterCreate(FormMessage::Submit));
    assert!(update(
        &mut state,
        Message::CharacterCreate(FormMessage::NameChange("late".to_owned()))
    )
    .is_none());
    assert!(update(&mut state, Message::CharacterCreate(FormMessage::Submit)).is_none());
    match &state.screen {
        Screen::Quest(log) => assert!(!log.is_loaded()),
        other => panic!("not the quest screen: {:?}", other),
    }
}
