use uquest::conn::{
    Assistant, AssistantPlan, AssistantRequest, Connection, MessageContent, MessageRole, Reply,
    Request, ResponseFormat, RunStatus, Step, Turn, AI_INST, AI_INST_PROLOGUE, AI_MODEL, AI_NAME,
    AI_RESPONSE_DESC, ANSWER_LIMIT, POLL_INTERVAL_SECS,
};
use uquest::conn::{answer_from_reading, read_answer};
use uquest::codec::SchemaViolation;
use uquest::game::GameError;
use uquest::schema::{AIInput, AIOutput, QuestUpdate};

fn connection() -> Connection {
    Connection::new("asst_1".to_owned(), "thread_1".to_owned())
}

fn send_failed(reason: &str) -> (Turn, Step) {
    (Turn::Closed, Step::Done(Err(GameError::SendFailed(reason.to_owned()))))
}

fn polling() -> Turn {
    Turn::Polling { run_id: "run_1".to_owned() }
}

fn advance(turn: Turn, reply: Reply) -> (Turn, Step) {
    connection().advance(turn, reply)
}

fn look_again(wait_secs: u64) -> Step {
    Step::Ask(Request::RetrieveRun {
        thread_id: "thread_1".to_owned(),
        run_id: "run_1".to_owned(),
        wait_secs,
    })
}

fn hello() -> AIOutput {
    AIOutput { updates: vec![QuestUpdate::Description("Hello".to_owned())] }
}

#[test]
fn a_connection_keeps_its_ids() {
    let connection = connection();
    assert_eq!(connection.assistant_id(), "asst_1");
    assert_eq!(connection.thread_id(), "thread_1");
}

#[test]
fn a_turn_opens_by_adding_the_command() {
    let (turn, step) = connection().send(AIInput::UserInput("go north".to_owned()));
    assert_eq!(turn, Turn::CreatingMessage);
    assert_eq!(
        step,
        Step::Ask(Request::CreateMessage {
            thread_id: "thread_1".to_owned(),
            role: MessageRole::User,
            content: "{\"UserInput\":\"go north\"}".to_owned(),
        })
    );
}

#[test]
fn a_message_that_cannot_be_added_fails_the_turn() {
    assert_eq!(
        advance(Turn::CreatingMessage, Reply::Invalid),
        send_failed("Could not build message")
    );
    assert_eq!(
        advance(Turn::CreatingMessage, Reply::Failed),
        send_failed("Could not add message to thread")
    );
}

#[test]
fn a_job_follows_the_message() {
    assert_eq!(
        advance(Turn::CreatingMessage, Reply::MessageCreated),
        (
            Turn::CreatingRun,
            Step::Ask(Request::CreateRun {
                thread_id: "thread_1".to_owned(),
                assistant_id: "asst_1".to_owned(),
            })
        )
    );
}

#[test]
fn a_job_that_cannot_be_started_fails_the_turn() {
    assert_eq!(
        advance(Turn::CreatingRun, Reply::Invalid),
        send_failed("Could not build run request")
    );
    assert_eq!(advance(Turn::CreatingRun, Reply::Failed), send_failed("Could not create run"));
}

#[test]
fn a_started_job_is_looked_at_right_away() {
    assert_eq!(
        advance(Turn::CreatingRun, Reply::RunCreated { run_id: "run_1".to_owned() }),
        (polling(), look_again(0))
    );
}

#[test]
fn a_job_that_has_not_ended_is_looked_at_again_after_a_second() {
    assert_eq!(POLL_INTERVAL_SECS, 1);
    for status in [
        RunStatus::Queued,
        RunStatus::InProgress,
        RunStatus::RequiresAction,
        RunStatus::Cancelling,
    ] {
        assert!(!status.is_terminal());
        assert_eq!(
            advance(polling(), Reply::Run { status }),
            (polling(), look_again(1))
        );
    }
}

#[test]
fn a_job_can_be_looked_at_any_number_of_times() {
    let mut turn = polling();
    for _ in 0..50 {
        let (next, step) = advance(turn, Reply::Run { status: RunStatus::InProgress });
        assert_eq!(step, look_again(1));
        turn = next;
    }
    assert_eq!(turn, polling());
}

#[test]
fn a_job_that_failed_fails_the_turn() {
    assert!(RunStatus::Failed.is_terminal());
    assert_eq!(advance(polling(), Reply::Run { status: RunStatus::Failed }), send_failed("Run failed"));
}

#[test]
fn a_job_that_ended_without_completing_fails_the_turn() {
    for status in [RunStatus::Cancelled, RunStatus::Incomplete, RunStatus::Expired] {
        assert!(status.is_terminal());
        assert_eq!(advance(polling(), Reply::Run { status }), send_failed("Run failed"));
    }
}

#[test]
fn a_look_that_fails_fails_the_turn() {
    assert_eq!(advance(polling(), Reply::Failed), send_failed("Could not query run status"));
}

#[test]
fn a_completed_job_has_its_newest_message_listed() {
    assert!(RunStatus::Completed.is_terminal());
    assert_eq!(ANSWER_LIMIT, 1);
    assert_eq!(
        advance(polling(), Reply::Run { status: RunStatus::Completed }),
        (
            Turn::Listing,
            Step::Ask(Request::ListMessages { thread_id: "thread_1".to_owned(), limit: 1 })
        )
    );
}

#[test]
fn a_listing_that_fails_or_is_empty_fails_the_turn() {
    assert_eq!(advance(Turn::Listing, Reply::Failed), send_failed("Could not retrieve response"));
    assert_eq!(
        advance(Turn::Listing, Reply::Messages { first_id: None }),
        send_failed("No messages in response")
    );
}

#[test]
fn the_listed_message_is_fetched() {
    assert_eq!(
        advance(Turn::Listing, Reply::Messages { first_id: Some("msg_1".to_owned()) }),
        (
            Turn::Retrieving,
            Step::Ask(Request::RetrieveMessage {
                thread_id: "thread_1".to_owned(),
                message_id: "msg_1".to_owned(),
            })
        )
    );
}

#[test]
fn a_fetch_that_fails_fails_the_turn() {
    assert_eq!(advance(Turn::Retrieving, Reply::Failed), send_failed("Could not retrieve message"));
}

#[test]
fn a_text_answer_is_read_as_output() {
    let content = vec![MessageContent::Text("{\"updates\":[{\"Description\":\"Hello\"}]}".to_owned())];
    assert_eq!(
        advance(Turn::Retrieving, Reply::Message { content }),
        (Turn::Closed, Step::Done(Ok(hello())))
    );
}

#[test]
fn a_text_answer_that_breaks_the_schema_is_unexpected() {
    let content =
        vec![MessageContent::Text("{\"updates\":[{\"Description\":\"Hello\"}],\"mood\":1}".to_owned())];
    assert_eq!(
        advance(Turn::Retrieving, Reply::Message { content }),
        (
            Turn::Closed,
            Step::Done(Err(GameError::UnexpectedResponse(
                "JSON error: an object has a field that is not allowed".to_owned()
            )))
        )
    );
}

#[test]
fn a_text_answer_that_is_no_json_is_unexpected() {
    let broken = "Once upon a time";
    let reported = serde_json::from_str::<serde_json::Value>(broken).unwrap_err().to_string();
    assert_eq!(
        read_answer(&vec![MessageContent::Text(broken.to_owned())]),
        Err(GameError::UnexpectedResponse(format!("JSON error: {}", reported)))
    );
}

#[test]
fn an_image_answer_is_unexpected() {
    for image in [MessageContent::ImageFile, MessageContent::ImageUrl] {
        assert_eq!(
            advance(Turn::Retrieving, Reply::Message { content: vec![image] }),
            (
                Turn::Closed,
                Step::Done(Err(GameError::UnexpectedResponse("Received image".to_owned())))
            )
        );
    }
}

#[test]
fn a_refusal_is_passed_on_with_its_reason() {
    let content = vec![MessageContent::Refusal("I cannot help with that.".to_owned())];
    assert_eq!(
        advance(Turn::Retrieving, Reply::Message { content }),
        (
            Turn::Closed,
            Step::Done(Err(GameError::RefusalResponse("I cannot help with that.".to_owned())))
        )
    );
}

#[test]
fn a_message_without_content_is_no_answer() {
    assert_eq!(
        advance(Turn::Retrieving, Reply::Message { content: vec![] }),
        send_failed("No messages in response")
    );
}

#[test]
fn the_first_item_of_a_message_counts() {
    let content = vec![
        MessageContent::Refusal("No.".to_owned()),
        MessageContent::Text("{\"updates\":[]}".to_owned()),
    ];
    assert_eq!(read_answer(&content), Err(GameError::RefusalResponse("No.".to_owned())));
    let content = vec![
        MessageContent::Text("{\"updates\":[]}".to_owned()),
        MessageContent::Refusal("No.".to_owned()),
    ];
    assert_eq!(read_answer(&content), Ok(AIOutput { updates: vec![] }));
}

#[test]
fn a_reading_becomes_the_result_of_the_turn() {
    assert_eq!(answer_from_reading(Ok(hello())), Ok(hello()));
    assert_eq!(
        answer_from_reading(Err(SchemaViolation::Syntax("EOF".to_owned()))),
        Err(GameError::UnexpectedResponse("JSON error: EOF".to_owned()))
    );
    assert_eq!(
        answer_from_reading(Err(SchemaViolation::MissingField)),
        Err(GameError::UnexpectedResponse("JSON error: a field is missing".to_owned()))
    );
    assert_eq!(
        answer_from_reading(Err(SchemaViolation::WrongType)),
        Err(GameError::UnexpectedResponse("JSON error: a value has the wrong type".to_owned()))
    );
    assert_eq!(
        answer_from_reading(Err(SchemaViolation::UnknownVariant)),
        Err(GameError::UnexpectedResponse("JSON error: an object names no known variant".to_owned()))
    );
}

#[test]
fn a_reply_that_does_not_answer_the_request_ends_the_turn() {
    let stray = (
        Turn::Closed,
        Step::Done(Err(GameError::Custom("Reply does not answer the request".to_owned()))),
    );
    assert_eq!(advance(Turn::CreatingMessage, Reply::Run { status: RunStatus::Completed }), stray);
    assert_eq!(advance(Turn::CreatingRun, Reply::MessageCreated), stray);
    assert_eq!(advance(polling(), Reply::Invalid), stray);
    assert_eq!(advance(polling(), Reply::Messages { first_id: None }), stray);
    assert_eq!(advance(Turn::Listing, Reply::Invalid), stray);
    assert_eq!(advance(Turn::Listing, Reply::Message { content: vec![] }), stray);
    assert_eq!(advance(Turn::Retrieving, Reply::Invalid), stray);
    assert_eq!(advance(Turn::Retrieving, Reply::RunCreated { run_id: "run_2".to_owned() }), stray);
}

#[test]
fn a_closed_turn_stays_closed() {
    for reply in [
        Reply::Invalid,
        Reply::Failed,
        Reply::MessageCreated,
        Reply::RunCreated { run_id: "run_1".to_owned() },
        Reply::Run { status: RunStatus::Completed },
        Reply::Messages { first_id: Some("msg_1".to_owned()) },
        Reply::Message { content: vec![MessageContent::Text("{\"updates\":[]}".to_owned())] },
    ] {
        let (turn, step) = advance(Turn::Closed, reply);
        assert_eq!(turn, Turn::Closed);
        assert_eq!(
            step,
            Step::Done(Err(GameError::Custom("Reply does not answer the request".to_owned())))
        );
    }
}

#[test]
fn instructions_embed_the_schema_of_the_commands() {
    let instructions = Connection::get_assistant_instructions("{\"type\":\"object\"}");
    assert_eq!(instructions, format!("{}{}{}", AI_INST, "{\"type\":\"object\"}", AI_INST_PROLOGUE));
    assert!(instructions.starts_with("You are the game master for a text-based adventure game."));
    assert!(instructions.contains("according to the following schema:\n\n{\"type\":\"object\"}\n\nYou may respond"));
    assert!(instructions.ends_with("must be in a Description update."));
}

#[test]
fn the_response_format_embeds_the_schema_of_the_outputs() {
    let format = Connection::get_assistant_response_format("{\"title\":\"AIOutput\"}");
    assert_eq!(
        format,
        ResponseFormat {
            description: AI_RESPONSE_DESC.to_owned(),
            name: "quest".to_owned(),
            schema: "{\"title\":\"AIOutput\"}".to_owned(),
            strict: false,
        }
    );
    assert_eq!(
        format.description,
        "A series of updates to the game state, including text to be output to the user. A QuestDefinition is sent as a response to a Start message."
    );
}

fn expected_request() -> AssistantRequest {
    AssistantRequest {
        name: "uQuest GM".to_owned(),
        model: "gpt-4o".to_owned(),
        instructions: Connection::get_assistant_instructions("IN"),
        response_format: Connection::get_assistant_response_format("OUT"),
    }
}

fn assistant(id: &str, name: Option<&str>, instructions: Option<&str>) -> Assistant {
    Assistant {
        id: id.to_owned(),
        name: name.map(|text| text.to_owned()),
        instructions: instructions.map(|text| text.to_owned()),
    }
}

#[test]
fn an_assistant_is_created_where_none_goes_by_the_name() {
    assert_eq!(AI_NAME, "uQuest GM");
    assert_eq!(AI_MODEL, "gpt-4o");
    assert_eq!(
        Connection::get_assistant(&vec![], "IN", "OUT"),
        AssistantPlan::Create { request: expected_request() }
    );
    let others = vec![
        assistant("asst_1", None, Some("x")),
        assistant("asst_2", Some("Somebody else"), None),
        assistant("asst_3", Some("uquest gm"), None),
    ];
    assert_eq!(
        Connection::get_assistant(&others, "IN", "OUT"),
        AssistantPlan::Create { request: expected_request() }
    );
}

#[test]
fn an_assistant_with_the_expected_instructions_is_kept() {
    let expected = Connection::get_assistant_instructions("IN");
    let listed = vec![
        assistant("asst_1", Some("Somebody else"), Some(&expected)),
        assistant("asst_2", Some("uQuest GM"), Some(&expected)),
    ];
    assert_eq!(
        Connection::get_assistant(&listed, "IN", "OUT"),
        AssistantPlan::Keep { id: "asst_2".to_owned() }
    );
}

#[test]
fn an_assistant_with_other_instructions_is_updated_in_place() {
    let listed = vec![assistant("asst_1", Some("uQuest GM"), Some("old instructions"))];
    assert_eq!(
        Connection::get_assistant(&listed, "IN", "OUT"),
        AssistantPlan::Update { id: "asst_1".to_owned(), request: expected_request() }
    );
    let listed = vec![assistant("asst_1", Some("uQuest GM"), None)];
    assert_eq!(
        Connection::get_assistant(&listed, "IN", "OUT"),
        AssistantPlan::Update { id: "asst_1".to_owned(), request: expected_request() }
    );
}

#[test]
fn the_first_assistant_under_the_name_is_the_one() {
    let expected = Connection::get_assistant_instructions("IN");
    let listed = vec![
        assistant("asst_1", Some("uQuest GM"), Some("old instructions")),
        assistant("asst_2", Some("uQuest GM"), Some(&expected)),
    ];
    assert_eq!(
        Connection::get_assistant(&listed, "IN", "OUT"),
        AssistantPlan::Update { id: "asst_1".to_owned(), request: expected_request() }
    );
}

#[test]
fn every_request_of_a_turn_names_the_thread_of_its_connection() {
    let connection = Connection::new("asst_9".to_owned(), "thread_9".to_owned());
    let thread_of = |step: &Step| match step {
        Step::Ask(Request::CreateMessage { thread_id, .. })
        | Step::Ask(Request::CreateRun { thread_id, .. })
        | Step::Ask(Request::RetrieveRun { thread_id, .. })
        | Step::Ask(Request::ListMessages { thread_id, .. })
        | Step::Ask(Request::RetrieveMessage { thread_id, .. }) => thread_id.clone(),
        Step::Done(result) => panic!("the turn is over: {:?}", result),
    };
    let (turn, step) = connection.send(AIInput::UserInput("look".to_owned()));
    assert_eq!(thread_of(&step), "thread_9");
    let (turn, step) = connection.advance(turn, Reply::MessageCreated);
    assert_eq!(thread_of(&step), "thread_9");
    assert_eq!(
        step,
        Step::Ask(Request::CreateRun {
            thread_id: "thread_9".to_owned(),
            assistant_id: "asst_9".to_owned(),
        })
    );
    let (turn, step) = connection.advance(turn, Reply::RunCreated { run_id: "run_9".to_owned() });
    assert_eq!(thread_of(&step), "thread_9");
    let (turn, step) = connection.advance(turn, Reply::Run { status: RunStatus::Queued });
    assert_eq!(thread_of(&step), "thread_9");
    let (turn, step) = connection.advance(turn, Reply::Run { status: RunStatus::Completed });
    assert_eq!(thread_of(&step), "thread_9");
    let (_, step) = connection.advance(turn, Reply::Messages { first_id: Some("m".to_owned()) });
    assert_eq!(thread_of(&step), "thread_9");
}
