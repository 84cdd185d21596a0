//! The conversation with the narrator's service, as a protocol.
//!
//! A turn is one exchange: a command goes out, a job runs on the service, and
//! its answer is fetched and read. Nothing here talks to the service.
//! [`Connection::send`] opens a turn and says which request comes first; the
//! caller carries it out and hands back the [`Reply`]; [`Connection::advance`]
//! says what follows, until the turn is [`Step::Done`].

use vstd::prelude::*;
use vstd::string::*;

use crate::codec::{
    command_text, encode_command, output_from_text, parse_output, violation_text, SchemaViolation,
};
use crate::game::{
    after_message, after_turn, reply_to, ErrorView, GameError, MessageView, StateView,
};
use crate::schema::{AIInput, AIOutput, CommandView, UpdateView};
use crate::text::same_text;

verus! {

/// The seconds to wait between two looks at a job that has not ended.
pub const POLL_INTERVAL_SECS: u64 = 1;

/// How many messages to ask for when the answer is fetched: the newest one.
pub const ANSWER_LIMIT: u64 = 1;

/// Where a job on the service stands.
#[derive(Debug, Clone, Copy, PartialEq, Eq)]
pub enum RunStatus {
    Queued,
    InProgress,
    RequiresAction,
    Cancelling,
    Cancelled,
    Failed,
    Completed,
    Incomplete,
    Expired,
}

impl RunStatus {
    /// Whether a job with this status has ended and will not change again.
    pub open spec fn terminal(self) -> bool {
        self is Cancelled || self is Failed || self is Completed || self is Incomplete
            || self is Expired
    }

    /// Whether a job with this status has ended and will not change again.
    #[verifier::when_used_as_spec(terminal)]
    pub fn is_terminal(self) -> (r: bool)
        ensures
            r == self.terminal(),
    {
        match self {
            RunStatus::Cancelled
            | RunStatus::Failed
            | RunStatus::Completed
            | RunStatus::Incomplete
            | RunStatus::Expired => true,
            _ => false,
        }
    }
}

/// One item of a message's content, as far as a turn reads it.
#[derive(Debug, PartialEq, Eq)]
pub enum MessageContent {
    Text(String),
    ImageFile,
    ImageUrl,
    Refusal(String),
}

/// What a [`MessageContent`] is.
pub enum ContentView {
    Text(Seq<char>),
    ImageFile,
    ImageUrl,
    Refusal(Seq<char>),
}

impl View for MessageContent {
    type V = ContentView;

    open spec fn view(&self) -> ContentView {
        match self {
            MessageContent::Text(text) => ContentView::Text(text@),
            MessageContent::ImageFile => ContentView::ImageFile,
            MessageContent::ImageUrl => ContentView::ImageUrl,
            MessageContent::Refusal(reason) => ContentView::Refusal(reason@),
        }
    }
}

/// The views of the items of a message, in the same order.
pub open spec fn content_view(content: Seq<MessageContent>) -> Seq<ContentView> {
    content.map_values(|item: MessageContent| item@)
}

/// Who a message on a thread is written by.
#[derive(Debug, Clone, Copy, PartialEq, Eq)]
pub enum MessageRole {
    User,
    Assistant,
}

/// A request to the service. Each names the thread that it concerns.
#[derive(Debug, PartialEq, Eq)]
pub enum Request {
    /// Add a message to the thread.
    CreateMessage { thread_id: String, role: MessageRole, content: String },
    /// Start a job of an assistant on the thread.
    CreateRun { thread_id: String, assistant_id: String },
    /// Wait for `wait_secs` seconds, then ask where the job stands.
    RetrieveRun { thread_id: String, run_id: String, wait_secs: u64 },
    /// List the newest messages of the thread, `limit` at most.
    ListMessages { thread_id: String, limit: u64 },
    /// Fetch a message of the thread.
    RetrieveMessage { thread_id: String, message_id: String },
}

/// What a [`Request`] is.
pub enum RequestView {
    CreateMessage { thread_id: Seq<char>, role: MessageRole, content: Seq<char> },
    CreateRun { thread_id: Seq<char>, assistant_id: Seq<char> },
    RetrieveRun { thread_id: Seq<char>, run_id: Seq<char>, wait_secs: u64 },
    ListMessages { thread_id: Seq<char>, limit: u64 },
    RetrieveMessage { thread_id: Seq<char>, message_id: Seq<char> },
}

impl View for Request {
    type V = RequestView;

    open spec fn view(&self) -> RequestView {
        match self {
            Request::CreateMessage { thread_id, role, content } => RequestView::CreateMessage {
                thread_id: thread_id@,
                role: *role,
                content: content@,
            },
            Request::CreateRun { thread_id, assistant_id } => RequestView::CreateRun {
                thread_id: thread_id@,
                assistant_id: assistant_id@,
            },
            Request::RetrieveRun { thread_id, run_id, wait_secs } => RequestView::RetrieveRun {
                thread_id: thread_id@,
                run_id: run_id@,
                wait_secs: *wait_secs,
            },
            Request::ListMessages { thread_id, limit } => RequestView::ListMessages {
                thread_id: thread_id@,
                limit: *limit,
            },
            Request::RetrieveMessage { thread_id, message_id } => RequestView::RetrieveMessage {
                thread_id: thread_id@,
                message_id: message_id@,
            },
        }
    }
}

/// The thread that a request concerns.
pub open spec fn request_thread(request: RequestView) -> Seq<char> {
    match request {
        RequestView::CreateMessage { thread_id, .. } => thread_id,
        RequestView::CreateRun { thread_id, .. } => thread_id,
        RequestView::RetrieveRun { thread_id, .. } => thread_id,
        RequestView::ListMessages { thread_id, .. } => thread_id,
        RequestView::RetrieveMessage { thread_id, .. } => thread_id,
    }
}

/// What came of a [`Request`].
#[derive(Debug, PartialEq, Eq)]
pub enum Reply {
    /// The request could not be put together, and was not sent.
    Invalid,
    /// The request was sent and failed.
    Failed,
    /// The message was added.
    MessageCreated,
    /// The job was started.
    RunCreated { run_id: String },
    /// Where the job stands.
    Run { status: RunStatus },
    /// The messages listed: the id of the first, if there is any.
    Messages { first_id: Option<String> },
    /// The message fetched: its content.
    Message { content: Vec<MessageContent> },
}

/// What a [`Reply`] is.
pub enum ReplyView {
    Invalid,
    Failed,
    MessageCreated,
    RunCreated { run_id: Seq<char> },
    Run { status: RunStatus },
    Messages { first_id: Option<Seq<char>> },
    Message { content: Seq<ContentView> },
}

impl View for Reply {
    type V = ReplyView;

    open spec fn view(&self) -> ReplyView {
        match self {
            Reply::Invalid => ReplyView::Invalid,
            Reply::Failed => ReplyView::Failed,
            Reply::MessageCreated => ReplyView::MessageCreated,
            Reply::RunCreated { run_id } => ReplyView::RunCreated { run_id: run_id@ },
            Reply::Run { status } => ReplyView::Run { status: *status },
            Reply::Messages { first_id } => ReplyView::Messages {
                first_id: match first_id {
                    Some(id) => Some(id@),
                    None => None,
                },
            },
            Reply::Message { content } => ReplyView::Message { content: content_view(content@) },
        }
    }
}

/// Where a turn stands: which reply it waits for.
#[derive(Debug, PartialEq, Eq)]
pub enum Turn {
    /// The command is being added to the thread.
    CreatingMessage,
    /// The job is being started.
    CreatingRun,
    /// The job runs and is looked at from time to time.
    Polling { run_id: String },
    /// The job has completed and the newest message is being looked up.
    Listing,
    /// The answer is being fetched.
    Retrieving,
    /// The turn is over.
    Closed,
}

/// What a [`Turn`] is.
pub enum TurnView {
    CreatingMessage,
    CreatingRun,
    Polling { run_id: Seq<char> },
    Listing,
    Retrieving,
    Closed,
}

impl View for Turn {
    type V = TurnView;

    open spec fn view(&self) -> TurnView {
        match self {
            Turn::CreatingMessage => TurnView::CreatingMessage,
            Turn::CreatingRun => TurnView::CreatingRun,
            Turn::Polling { run_id } => TurnView::Polling { run_id: run_id@ },
            Turn::Listing => TurnView::Listing,
            Turn::Retrieving => TurnView::Retrieving,
            Turn::Closed => TurnView::Closed,
        }
    }
}

/// What a turn asks of its caller: to carry out a request and come back with
/// the reply, or to take the turn's result.
#[derive(Debug, PartialEq, Eq)]
pub enum Step {
    Ask(Request),
    Done(Result<AIOutput, GameError>),
}

/// What a [`Step`] is.
pub enum StepView {
    Ask(RequestView),
    Done(Result<Seq<UpdateView>, ErrorView>),
}

impl View for Step {
    type V = StepView;

    open spec fn view(&self) -> StepView {
        match self {
            Step::Ask(request) => StepView::Ask(request@),
            Step::Done(Ok(output)) => StepView::Done(Ok(output@)),
            Step::Done(Err(error)) => StepView::Done(Err(error@)),
        }
    }
}

/// The result of a turn that ends because a request went wrong.
pub open spec fn failed(reason: Seq<char>) -> (TurnView, StepView) {
    (TurnView::Closed, StepView::Done(Err(ErrorView::SendFailed(reason))))
}

/// What a text is worth as the narrator's answer: its output, or the schema
/// violation as an unexpected response.
pub open spec fn answer_from_text(text: Seq<char>) -> Result<Seq<UpdateView>, ErrorView> {
    match output_from_text(text) {
        Ok(updates) => Ok(updates),
        Err(violation) => Err(
            ErrorView::UnexpectedResponse("JSON error: "@ + violation_text(violation)),
        ),
    }
}

/// What a message is worth as the narrator's answer. Its first item counts:
/// a text is read as an output, an image is unexpected, a refusal is passed
/// on with its reason. A message without content is no answer.
pub open spec fn answer_from_content(content: Seq<ContentView>) -> Result<
    Seq<UpdateView>,
    ErrorView,
> {
    if content.len() == 0 {
        Err(ErrorView::SendFailed("No messages in response"@))
    } else {
        match content[0] {
            ContentView::Text(text) => answer_from_text(text),
            ContentView::ImageFile | ContentView::ImageUrl => Err(
                ErrorView::UnexpectedResponse("Received image"@),
            ),
            ContentView::Refusal(reason) => Err(ErrorView::RefusalResponse(reason)),
        }
    }
}

/// What a look at the job leads to. A completed job has an answer to fetch.
/// A job that ended in any other way has failed the turn. A job that has not
/// ended is looked at again after the polling interval.
pub open spec fn after_poll(thread_id: Seq<char>, run_id: Seq<char>, status: RunStatus) -> (
    TurnView,
    StepView,
) {
    if status is Completed {
        (
            TurnView::Listing,
            StepView::Ask(RequestView::ListMessages { thread_id, limit: ANSWER_LIMIT }),
        )
    } else if status.terminal() {
        failed("Run failed"@)
    } else {
        (
            TurnView::Polling { run_id },
            StepView::Ask(
                RequestView::RetrieveRun { thread_id, run_id, wait_secs: POLL_INTERVAL_SECS },
            ),
        )
    }
}

/// The first step of a turn: the command is added to the thread, as a
/// message of the user that holds the command's JSON text.
pub open spec fn turn_start(connection: ConnectionView, command: CommandView) -> (
    TurnView,
    StepView,
) {
    (
        TurnView::CreatingMessage,
        StepView::Ask(
            RequestView::CreateMessage {
                thread_id: connection.thread_id,
                role: MessageRole::User,
                content: command_text(command),
            },
        ),
    )
}

/// The protocol of a turn: where it stands next and what it asks next, from
/// where it stands and the reply that came in.
pub open spec fn turn_step(connection: ConnectionView, turn: TurnView, reply: ReplyView) -> (
    TurnView,
    StepView,
) {
    let thread_id = connection.thread_id;
    match (turn, reply) {
        (TurnView::CreatingMessage, ReplyView::Invalid) => failed("Could not build message"@),
        (TurnView::CreatingMessage, ReplyView::Failed) => failed(
            "Could not add message to thread"@,
        ),
        (TurnView::CreatingMessage, ReplyView::MessageCreated) => (
            TurnView::CreatingRun,
            StepView::Ask(
                RequestView::CreateRun { thread_id, assistant_id: connection.assistant_id },
            ),
        ),
        (TurnView::CreatingRun, ReplyView::Invalid) => failed("Could not build run request"@),
        (TurnView::CreatingRun, ReplyView::Failed) => failed("Could not create run"@),
        (TurnView::CreatingRun, ReplyView::RunCreated { run_id }) => (
            TurnView::Polling { run_id },
            StepView::Ask(RequestView::RetrieveRun { thread_id, run_id, wait_secs: 0 }),
        ),
        (TurnView::Polling { run_id }, ReplyView::Failed) => failed("Could not query run status"@),
        (TurnView::Polling { run_id }, ReplyView::Run { status }) => after_poll(
            thread_id,
            run_id,
            status,
        ),
        (TurnView::Listing, ReplyView::Failed) => failed("Could not retrieve response"@),
        (TurnView::Listing, ReplyView::Messages { first_id: None }) => failed(
            "No messages in response"@,
        ),
        (TurnView::Listing, ReplyView::Messages { first_id: Some(message_id) }) => (
            TurnView::Retrieving,
            StepView::Ask(RequestView::RetrieveMessage { thread_id, message_id }),
        ),
        (TurnView::Retrieving, ReplyView::Failed) => failed("Could not retrieve message"@),
        (TurnView::Retrieving, ReplyView::Message { content }) => (
            TurnView::Closed,
            StepView::Done(answer_from_content(content)),
        ),
        _ => (
            TurnView::Closed,
            StepView::Done(Err(ErrorView::Custom("Reply does not answer the request"@))),
        ),
    }
}

/// The view of what a turn's reading of an answer gives.
pub open spec fn outcome_view(outcome: Result<AIOutput, GameError>) -> Result<
    Seq<UpdateView>,
    ErrorView,
> {
    match outcome {
        Ok(output) => Ok(output@),
        Err(error) => Err(error@),
    }
}

/// Ends a turn because a request went wrong.
fn fail(reason: &str) -> (r: (Turn, Step))
    ensures
        (r.0@, r.1@) == failed(reason@),
{
    (Turn::Closed, Step::Done(Err(GameError::SendFailed(reason.to_owned()))))
}

/// Turns the reading of an answer's text into the turn's result: an output
/// stands, a schema violation becomes an unexpected response that says
/// which.
pub fn answer_from_reading(reading: Result<AIOutput, SchemaViolation>) -> (r: Result<
    AIOutput,
    GameError,
>)
    ensures
        match reading {
            Ok(output) => r matches Ok(same) && same@ == output@,
            Err(violation) => r matches Err(error) && error@ == ErrorView::UnexpectedResponse(
                "JSON error: "@ + violation_text(violation@),
            ),
        },
{
    match reading {
        Ok(output) => Ok(output),
        Err(violation) => {
            let mut message = "JSON error: ".to_owned();
            let detail = violation.describe();
            message.append(detail.as_str());
            Err(GameError::UnexpectedResponse(message))
        },
    }
}

/// Reads the content of the message that answers a turn.
pub fn read_answer(content: &Vec<MessageContent>) -> (r: Result<AIOutput, GameError>)
    ensures
        outcome_view(r) == answer_from_content(content_view(content@)),
{
    if content.len() == 0 {
        return Err(GameError::SendFailed("No messages in response".to_owned()));
    }
    match &content[0] {
        MessageContent::Text(text) => answer_from_reading(parse_output(text.as_str())),
        MessageContent::ImageFile | MessageContent::ImageUrl => Err(
            GameError::UnexpectedResponse("Received image".to_owned()),
        ),
        MessageContent::Refusal(reason) => Err(GameError::RefusalResponse(reason.clone())),
    }
}

/// The conversation that a session holds with the service: which assistant
/// narrates, and on which thread. Both are set up once and serve every turn.
#[derive(Debug)]
pub struct Connection {
    assistant_id: String,
    thread_id: String,
}

/// What a [`Connection`] is.
pub struct ConnectionView {
    pub assistant_id: Seq<char>,
    pub thread_id: Seq<char>,
}

impl View for Connection {
    type V = ConnectionView;

    closed spec fn view(&self) -> ConnectionView {
        ConnectionView { assistant_id: self.assistant_id@, thread_id: self.thread_id@ }
    }
}

impl Connection {
    /// The connection of a session whose assistant and thread are set up.
    pub fn new(assistant_id: String, thread_id: String) -> (connection: Self)
        ensures
            connection@ == (ConnectionView { assistant_id: assistant_id@, thread_id: thread_id@ }),
    {
        Self { assistant_id, thread_id }
    }

    /// The id of the assistant that narrates.
    pub fn assistant_id(&self) -> (id: &str)
        ensures
            id@ == self@.assistant_id,
    {
        self.assistant_id.as_str()
    }

    /// The id of the thread that the session is held on.
    pub fn thread_id(&self) -> (id: &str)
        ensures
            id@ == self@.thread_id,
    {
        self.thread_id.as_str()
    }

    /// Opens a turn for a command: the first request adds the command, as
    /// JSON text, to the thread of this connection.
    pub fn send(&self, command: AIInput) -> (r: (Turn, Step))
        ensures
            (r.0@, r.1@) == turn_start(self@, command@),
    {
        let content = encode_command(&command);
        let request = Request::CreateMessage {
            thread_id: self.thread_id.clone(),
            role: MessageRole::User,
            content,
        };
        (Turn::CreatingMessage, Step::Ask(request))
    }

    /// Takes the reply to the request that a turn asked for last, and says
    /// where the turn stands now and what it asks next. A reply that does not
    /// answer that request ends the turn with an error.
    pub fn advance(&self, turn: Turn, reply: Reply) -> (r: (Turn, Step))
        ensures
            (r.0@, r.1@) == turn_step(self@, turn@, reply@),
    {
        match (turn, reply) {
            (Turn::CreatingMessage, Reply::Invalid) => fail("Could not build message"),
            (Turn::CreatingMessage, Reply::Failed) => fail("Could not add message to thread"),
            (Turn::CreatingMessage, Reply::MessageCreated) => {
                let request = Request::CreateRun {
                    thread_id: self.thread_id.clone(),
                    assistant_id: self.assistant_id.clone(),
                };
                (Turn::CreatingRun, Step::Ask(request))
            },
            (Turn::CreatingRun, Reply::Invalid) => fail("Could not build run request"),
            (Turn::CreatingRun, Reply::Failed) => fail("Could not create run"),
            (Turn::CreatingRun, Reply::RunCreated { run_id }) => {
                let request = Request::RetrieveRun {
                    thread_id: self.thread_id.clone(),
                    run_id: run_id.clone(),
                    wait_secs: 0,
                };
                (Turn::Polling { run_id }, Step::Ask(request))
            },
            (Turn::Polling { run_id }, Reply::Failed) => fail("Could not query run status"),
            (Turn::Polling { run_id }, Reply::Run { status }) => {
                if let RunStatus::Completed = status {
                    let request = Request::ListMessages {
                        thread_id: self.thread_id.clone(),
                        limit: ANSWER_LIMIT,
                    };
                    (Turn::Listing, Step::Ask(request))
                } else if status.is_terminal() {
                    fail("Run failed")
                } else {
                    let request = Request::RetrieveRun {
                        thread_id: self.thread_id.clone(),
                        run_id: run_id.clone(),
                        wait_secs: POLL_INTERVAL_SECS,
                    };
                    (Turn::Polling { run_id }, Step::Ask(request))
                }
            },
            (Turn::Listing, Reply::Failed) => fail("Could not retrieve response"),
            (Turn::Listing, Reply::Messages { first_id: None }) => fail("No messages in response"),
            (Turn::Listing, Reply::Messages { first_id: Some(message_id) }) => {
                let request = Request::RetrieveMessage {
                    thread_id: self.thread_id.clone(),
                    message_id,
                };
                (Turn::Retrieving, Step::Ask(request))
            },
            (Turn::Retrieving, Reply::Failed) => fail("Could not retrieve message"),
            (Turn::Retrieving, Reply::Message { content }) => (
                Turn::Closed,
                Step::Done(read_answer(&content)),
            ),
            _ => (
                Turn::Closed,
                Step::Done(Err(GameError::Custom("Reply does not answer the request".to_owned()))),
            ),
        }
    }
}

/// The name under which the narrator's assistant is kept on the service.
pub const AI_NAME: &'static str = "uQuest GM";

/// The model that the assistant runs on.
pub const AI_MODEL: &'static str = "gpt-4o";

/// The name of the format of the assistant's answers.
pub const AI_RESPONSE_NAME: &'static str = "quest";

/// What the format of the assistant's answers is described as.
pub const AI_RESPONSE_DESC: &'static str =
    "A series of updates to the game state, including text to be output to the user. A QuestDefinition is sent as a response to a Start message.";

/// The assistant's instructions, up to the schema of the commands.
pub const AI_INST: &'static str =
    "You are the game master for a text-based adventure game. You will run a session containing a simple quest for a single player character. You must not take any actions on behalf of the player character, the player character has full control over what they do. Suggest some possible actions to the user in each description. You will receive commands in JSON format according to the following schema:\n\n";

/// The assistant's instructions, after the schema of the commands.
pub const AI_INST_PROLOGUE: &'static str =
    "\n\nYou may respond to a command with multiple different 'updates'. Only the Description update will be presented to the user, so any description or dialogue intended for the user must be in a Description update.";

/// An assistant that the service lists, as far as provisioning reads it.
#[derive(Debug, PartialEq, Eq)]
pub struct Assistant {
    pub id: String,
    pub name: Option<String>,
    pub instructions: Option<String>,
}

/// What an [`Assistant`] is.
pub struct AssistantView {
    pub id: Seq<char>,
    pub name: Option<Seq<char>>,
    pub instructions: Option<Seq<char>>,
}

/// The view of a text that may be absent.
pub open spec fn optional_text(text: Option<String>) -> Option<Seq<char>> {
    match text {
        Some(text) => Some(text@),
        None => None,
    }
}

impl View for Assistant {
    type V = AssistantView;

    open spec fn view(&self) -> AssistantView {
        AssistantView {
            id: self.id@,
            name: optional_text(self.name),
            instructions: optional_text(self.instructions),
        }
    }
}

/// The views of the assistants listed, in the same order.
pub open spec fn assistants_view(listed: Seq<Assistant>) -> Seq<AssistantView> {
    listed.map_values(|assistant: Assistant| assistant@)
}

/// The format that the assistant's answers are held to: a JSON schema under
/// a name, with a description.
#[derive(Debug, PartialEq, Eq)]
pub struct ResponseFormat {
    pub description: String,
    pub name: String,
    /// The schema, as JSON text.
    pub schema: String,
    pub strict: bool,
}

/// What a [`ResponseFormat`] is.
pub struct ResponseFormatView {
    pub description: Seq<char>,
    pub name: Seq<char>,
    pub schema: Seq<char>,
    pub strict: bool,
}

impl View for ResponseFormat {
    type V = ResponseFormatView;

    open spec fn view(&self) -> ResponseFormatView {
        ResponseFormatView {
            description: self.description@,
            name: self.name@,
            schema: self.schema@,
            strict: self.strict,
        }
    }
}

/// What an assistant is created with, or changed to.
#[derive(Debug, PartialEq, Eq)]
pub struct AssistantRequest {
    pub name: String,
    pub model: String,
    pub instructions: String,
    pub response_format: ResponseFormat,
}

/// What an [`AssistantRequest`] is.
pub struct AssistantRequestView {
    pub name: Seq<char>,
    pub model: Seq<char>,
    pub instructions: Seq<char>,
    pub response_format: ResponseFormatView,
}

impl View for AssistantRequest {
    type V = AssistantRequestView;

    open spec fn view(&self) -> AssistantRequestView {
        AssistantRequestView {
            name: self.name@,
            model: self.model@,
            instructions: self.instructions@,
            response_format: self.response_format@,
        }
    }
}

/// How the narrator's assistant comes to be on the service.
#[derive(Debug, PartialEq, Eq)]
pub enum AssistantPlan {
    /// It is there, with the instructions it should have: use it.
    Keep { id: String },
    /// It is there with other instructions: change it, then use it.
    Update { id: String, request: AssistantRequest },
    /// It is not there: create it.
    Create { request: AssistantRequest },
}

/// What an [`AssistantPlan`] is.
pub enum AssistantPlanView {
    Keep { id: Seq<char> },
    Update { id: Seq<char>, request: AssistantRequestView },
    Create { request: AssistantRequestView },
}

impl View for AssistantPlan {
    type V = AssistantPlanView;

    open spec fn view(&self) -> AssistantPlanView {
        match self {
            AssistantPlan::Keep { id } => AssistantPlanView::Keep { id: id@ },
            AssistantPlan::Update { id, request } => AssistantPlanView::Update {
                id: id@,
                request: request@,
            },
            AssistantPlan::Create { request } => AssistantPlanView::Create { request: request@ },
        }
    }
}

/// The instructions of the assistant: they embed the schema of the commands.
pub open spec fn assistant_instructions(input_schema: Seq<char>) -> Seq<char> {
    AI_INST@ + input_schema + AI_INST_PROLOGUE@
}

/// The format of the assistant's answers: it embeds the schema of the
/// outputs, and is not strict.
pub open spec fn assistant_response_format(output_schema: Seq<char>) -> ResponseFormatView {
    ResponseFormatView {
        description: AI_RESPONSE_DESC@,
        name: AI_RESPONSE_NAME@,
        schema: output_schema,
        strict: false,
    }
}

/// What the assistant is created with, or changed to.
pub open spec fn assistant_request(
    input_schema: Seq<char>,
    output_schema: Seq<char>,
) -> AssistantRequestView {
    AssistantRequestView {
        name: AI_NAME@,
        model: AI_MODEL@,
        instructions: assistant_instructions(input_schema),
        response_format: assistant_response_format(output_schema),
    }
}

/// The first assistant of the list that goes by `name`.
pub open spec fn first_named(listed: Seq<AssistantView>, name: Seq<char>) -> Option<AssistantView>
    decreases listed.len(),
{
    if listed.len() == 0 {
        None
    } else if listed[0].name == Some(name) {
        Some(listed[0])
    } else {
        first_named(listed.drop_first(), name)
    }
}

/// How the assistant comes to be on a service that lists `listed`.
pub open spec fn assistant_plan(
    listed: Seq<AssistantView>,
    input_schema: Seq<char>,
    output_schema: Seq<char>,
) -> AssistantPlanView {
    match first_named(listed, AI_NAME@) {
        Some(found) => if found.instructions == Some(assistant_instructions(input_schema)) {
            AssistantPlanView::Keep { id: found.id }
        } else {
            AssistantPlanView::Update {
                id: found.id,
                request: assistant_request(input_schema, output_schema),
            }
        },
        None => AssistantPlanView::Create {
            request: assistant_request(input_schema, output_schema),
        },
    }
}

/// Whether a text is there and is `text`.
fn is_text(candidate: &Option<String>, text: &str) -> (r: bool)
    ensures
        r == (optional_text(*candidate) == Some(text@)),
{
    match candidate {
        Some(held) => same_text(held.as_str(), text),
        None => false,
    }
}

impl Connection {
    /// Writes the instructions of the assistant around the schema of the
    /// commands, given as JSON text.
    pub fn get_assistant_instructions(input_schema: &str) -> (instructions: String)
        ensures
            instructions@ == assistant_instructions(input_schema@),
    {
        let mut instructions = AI_INST.to_owned();
        instructions.append(input_schema);
        instructions.append(AI_INST_PROLOGUE);
        instructions
    }

    /// Makes the format of the assistant's answers from the schema of the
    /// outputs, given as JSON text.
    pub fn get_assistant_response_format(output_schema: &str) -> (format: ResponseFormat)
        ensures
            format@ == assistant_response_format(output_schema@),
    {
        ResponseFormat {
            description: AI_RESPONSE_DESC.to_owned(),
            name: AI_RESPONSE_NAME.to_owned(),
            schema: output_schema.to_owned(),
            strict: false,
        }
    }

    /// Decides how the assistant comes to be on the service, from the
    /// assistants that the service lists. The first one under the assistant's
    /// name is the one; it is kept as it is where its instructions are the
    /// expected ones, and changed where they are not, so that no second one
    /// is made. Where the list has none, one is created.
    pub fn get_assistant(listed: &Vec<Assistant>, input_schema: &str, output_schema: &str) -> (plan:
        AssistantPlan)
        ensures
            plan@ == assistant_plan(assistants_view(listed@), input_schema@, output_schema@),
    {
        let instructions = Self::get_assistant_instructions(input_schema);
        let ghost all = assistants_view(listed@);
        let mut i: usize = 0;
        assert(all.skip(0) == all);
        while i < listed.len()
            invariant
                i <= listed.len(),
                all == assistants_view(listed@),
                first_named(all, AI_NAME@) == first_named(all.skip(i as int), AI_NAME@),
                instructions@ == assistant_instructions(input_schema@),
            decreases listed.len() - i,
        {
            proof {
                assert(all.skip(i as int).drop_first() == all.skip(i + 1));
            }
            let assistant = &listed[i];
            if is_text(&assistant.name, AI_NAME) {
                if is_text(&assistant.instructions, instructions.as_str()) {
                    return AssistantPlan::Keep { id: assistant.id.clone() };
                }
                return AssistantPlan::Update {
                    id: assistant.id.clone(),
                    request: AssistantRequest {
                        name: AI_NAME.to_owned(),
                        model: AI_MODEL.to_owned(),
                        instructions,
                        response_format: Self::get_assistant_response_format(output_schema),
                    },
                };
            }
            i = i + 1;
        }
        AssistantPlan::Create {
            request: AssistantRequest {
                name: AI_NAME.to_owned(),
                model: AI_MODEL.to_owned(),
                instructions,
                response_format: Self::get_assistant_response_format(output_schema),
            },
        }
    }
}

/// A turn whose job is found to have failed ends with the error that says so,
/// and the session that took the turn is left as it was once the message
/// had been taken up: the same quest, the same log but for the player's line
/// of an input.
pub proof fn law_failed_job_fails_turn(
    connection: ConnectionView,
    state: StateView,
    message: MessageView,
    run_id: Seq<char>,
)
    ensures
        turn_step(
            connection,
            TurnView::Polling { run_id },
            ReplyView::Run { status: RunStatus::Failed },
        ) == (TurnView::Closed, StepView::Done(Err(ErrorView::SendFailed("Run failed"@)))),
        reply_to(Err(ErrorView::SendFailed("Run failed"@))) == Err::<(), ErrorView>(
            ErrorView::SendFailed("Run failed"@),
        ),
        after_turn(state, message, Err(ErrorView::SendFailed("Run failed"@))).quest == state.quest,
        after_turn(state, message, Err(ErrorView::SendFailed("Run failed"@))).log
            == after_message(state, message).log,
{
}

/// A turn whose answer holds a refusal and nothing else ends with a refusal
/// error that carries the narrator's reason, letter for letter.
pub proof fn law_refusal_is_passed_on(connection: ConnectionView, reason: Seq<char>)
    ensures
        turn_step(
            connection,
            TurnView::Retrieving,
            ReplyView::Message { content: seq![ContentView::Refusal(reason)] },
        ) == (TurnView::Closed, StepView::Done(Err(ErrorView::RefusalResponse(reason)))),
{
}

/// A turn is over exactly when it hands out its result, and a turn that is
/// over stays so. A job is looked at again exactly while it has not ended.
pub proof fn law_turn_ends_once(connection: ConnectionView, turn: TurnView, reply: ReplyView)
    ensures
        turn_step(connection, turn, reply).0 is Closed <==> turn_step(connection, turn, reply).1
            is Done,
        turn is Closed ==> turn_step(connection, turn, reply).0 is Closed,
        turn is Polling ==> (reply matches ReplyView::Run { status } ==> (turn_step(
            connection,
            turn,
            reply,
        ).0 is Polling <==> !status.terminal())),
{
}

/// Every request of a turn concerns the thread of the connection that the
/// turn was opened on, and the job runs the connection's assistant.
pub proof fn law_turn_keeps_to_its_thread(
    connection: ConnectionView,
    command: CommandView,
    turn: TurnView,
    reply: ReplyView,
)
    ensures
        turn_start(connection, command).1 matches StepView::Ask(request) && request_thread(request)
            == connection.thread_id,
        turn_step(connection, turn, reply).1 matches StepView::Ask(request) ==> request_thread(
            request,
        ) == connection.thread_id,
        turn_step(connection, turn, reply).1 matches StepView::Ask(
            RequestView::CreateRun { assistant_id, .. },
        ) ==> assistant_id == connection.assistant_id,
{
}

} // verus!
