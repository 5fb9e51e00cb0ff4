//! The dispatcher and the server's state machine.
//!
//! The server reads a line, classifies it, dispatches it, writes the response
//! if one is owed, and reads the next line. Reading and writing are the
//! caller's part: [`step`] says what to do next, and takes what came of it.

use crate::constants::INTERNAL_ERROR;
use crate::constants::INVALID_PARAMS;
use crate::constants::JSONRPC_VERSION;
use crate::constants::METHOD_NOT_FOUND;
use crate::constants::PARSE_ERROR;
use crate::decode::DecodeError;
use crate::decode::FromJson;
use crate::encode::ToJson;
use crate::handlers::error_response;
use crate::handlers::handle_call_tool;
use crate::handlers::handle_initialize;
use crate::handlers::handle_initialized;
use crate::handlers::handle_list_prompts;
use crate::handlers::handle_list_resources;
use crate::handlers::handle_list_tools;
use crate::handlers::initialize_result;
use crate::handlers::internal_error;
use crate::handlers::invalid_params_error;
use crate::handlers::invalid_request_error;
use crate::handlers::listed_prompts;
use crate::handlers::listed_resources;
use crate::handlers::listed_tools;
use crate::handlers::method_message;
use crate::handlers::method_not_found_error;
use crate::handlers::parse_error;
use crate::handlers::tool_call;
use crate::handlers::HandlerError;
use crate::handlers::HandlerErrorView;
use crate::json::json_text;
use crate::json::parsed_json;
use crate::json::Json;
use crate::json::JsonView;
use crate::message::classified;
use crate::message::classify_line;
use crate::message::Malformed;
use crate::message::MalformedView;
use crate::message::Message;
use crate::message::MessageView;
use crate::stdio::framed;
use crate::stdio::write_message_newline;
use crate::text::is_blank;
use crate::text::line_is_blank;
use crate::text::str_eq;
use crate::types::CallToolRequestParams;
use crate::types::CallToolResult;
use crate::types::GenericErrorResponse;
use crate::types::GenericErrorResponseView;
use crate::types::GenericNotification;
use crate::types::GenericNotificationView;
use crate::types::GenericRequest;
use crate::types::GenericRequestView;
use crate::types::GenericResponse;
use crate::types::GenericResponseView;
use crate::types::Implementation;
use crate::types::ImplementationView;
use crate::types::InitializeRequestParams;
use crate::types::InitializeResult;
use crate::types::InitializedNotificationParams;
use crate::types::ListPromptsResult;
use crate::types::ListResourcesResult;
use crate::types::ListToolsResult;
use crate::types::ServerCapabilities;
use crate::types::ServerCapabilitiesView;
use vstd::prelude::*;

verus! {

// --- The server's context ---

/// Who the server is and what it advertises. It is made once and never
/// changed.
#[derive(Debug, PartialEq)]
pub struct ServerState {
    pub server_info: Implementation,
    pub server_capabilities: ServerCapabilities,
}

pub struct ServerStateView {
    pub server_info: ImplementationView,
    pub server_capabilities: ServerCapabilitiesView,
}

impl View for ServerState {
    type V = ServerStateView;

    open spec fn view(&self) -> ServerStateView {
        ServerStateView {
            server_info: self.server_info@,
            server_capabilities: self.server_capabilities@,
        }
    }
}

/// The context of the stock server: its name and version, and an empty
/// object for each of the three capabilities.
pub open spec fn stock_state() -> ServerStateView {
    ServerStateView {
        server_info: ImplementationView {
            name: "rust-mcp-stdio-refactored"@,
            version: "0.1.1"@,
        },
        server_capabilities: ServerCapabilitiesView {
            tools: Some(JsonView::Object(Seq::empty())),
            resources: Some(JsonView::Object(Seq::empty())),
            prompts: Some(JsonView::Object(Seq::empty())),
        },
    }
}

impl ServerState {
    /// The context of the stock server.
    pub fn new() -> (state: ServerState)
        ensures
            state@ == stock_state(),
    {
        ServerState {
            server_info: Implementation {
                name: "rust-mcp-stdio-refactored".to_owned(),
                version: "0.1.1".to_owned(),
            },
            server_capabilities: ServerCapabilities {
                tools: Some(Json::empty_object()),
                resources: Some(Json::empty_object()),
                prompts: Some(Json::empty_object()),
            },
        }
    }
}

// --- The registered methods ---

/// The methods that a request may name.
#[derive(Clone, Copy, Debug, PartialEq, Eq)]
pub enum RequestMethod {
    Initialize,
    ToolsList,
    ResourcesList,
    PromptsList,
    ToolsCall,
}

impl RequestMethod {
    /// The name under which the method is registered.
    pub open spec fn name(self) -> Seq<char> {
        match self {
            RequestMethod::Initialize => "initialize"@,
            RequestMethod::ToolsList => "tools/list"@,
            RequestMethod::ResourcesList => "resources/list"@,
            RequestMethod::PromptsList => "prompts/list"@,
            RequestMethod::ToolsCall => "tools/call"@,
        }
    }

    /// The method registered under `name`, if there is one.
    pub open spec fn named(name: Seq<char>) -> Option<RequestMethod> {
        if name == "initialize"@ {
            Some(RequestMethod::Initialize)
        } else if name == "tools/list"@ {
            Some(RequestMethod::ToolsList)
        } else if name == "resources/list"@ {
            Some(RequestMethod::ResourcesList)
        } else if name == "prompts/list"@ {
            Some(RequestMethod::PromptsList)
        } else if name == "tools/call"@ {
            Some(RequestMethod::ToolsCall)
        } else {
            None
        }
    }

    /// Whether a request for the method must carry `params`.
    pub open spec fn needs_params(self) -> bool {
        self == RequestMethod::Initialize || self == RequestMethod::ToolsCall
    }

    /// The name under which the method is registered.
    pub fn as_str(self) -> (r: &'static str)
        ensures
            r@ == self.name(),
    {
        match self {
            RequestMethod::Initialize => "initialize",
            RequestMethod::ToolsList => "tools/list",
            RequestMethod::ResourcesList => "resources/list",
            RequestMethod::PromptsList => "prompts/list",
            RequestMethod::ToolsCall => "tools/call",
        }
    }

    /// Looks a method up by its name.
    pub fn from_name(name: &str) -> (r: Option<RequestMethod>)
        ensures
            r == Self::named(name@),
    {
        if str_eq(name, "initialize") {
            Some(RequestMethod::Initialize)
        } else if str_eq(name, "tools/list") {
            Some(RequestMethod::ToolsList)
        } else if str_eq(name, "resources/list") {
            Some(RequestMethod::ResourcesList)
        } else if str_eq(name, "prompts/list") {
            Some(RequestMethod::PromptsList)
        } else if str_eq(name, "tools/call") {
            Some(RequestMethod::ToolsCall)
        } else {
            None
        }
    }
}

/// The methods that a notification may name.
#[derive(Clone, Copy, Debug, PartialEq, Eq)]
pub enum NotificationMethod {
    Initialized,
    CancelRequest,
}

impl NotificationMethod {
    /// The method registered under `name`, if there is one.
    pub open spec fn named(name: Seq<char>) -> Option<NotificationMethod> {
        if name == "initialized"@ {
            Some(NotificationMethod::Initialized)
        } else if name == "$/cancelRequest"@ {
            Some(NotificationMethod::CancelRequest)
        } else {
            None
        }
    }

    /// Looks a method up by its name.
    pub fn from_name(name: &str) -> (r: Option<NotificationMethod>)
        ensures
            r == Self::named(name@),
    {
        if str_eq(name, "initialized") {
            Some(NotificationMethod::Initialized)
        } else if str_eq(name, "$/cancelRequest") {
            Some(NotificationMethod::CancelRequest)
        } else {
            None
        }
    }
}

// --- Requests ---

/// The one response that a request gets: a success or an error.
#[derive(Debug, PartialEq)]
pub enum Response {
    Success(GenericResponse<Json>),
    Error(GenericErrorResponse),
}

pub enum ResponseView {
    Success(GenericResponseView<JsonView>),
    Error(GenericErrorResponseView),
}

impl ResponseView {
    /// The id that the response carries.
    pub open spec fn id(self) -> JsonView {
        match self {
            ResponseView::Success(response) => response.id,
            ResponseView::Error(response) => response.id,
        }
    }
}

impl View for Response {
    type V = ResponseView;

    open spec fn view(&self) -> ResponseView {
        match self {
            Response::Success(response) => ResponseView::Success(response@),
            Response::Error(response) => ResponseView::Error(response@),
        }
    }
}

impl ToJson for Response {
    open spec fn json_of(model: ResponseView) -> JsonView {
        match model {
            ResponseView::Success(response) => GenericResponse::<Json>::json_of(response),
            ResponseView::Error(response) => GenericErrorResponse::json_of(response),
        }
    }

    fn to_json(&self) -> (j: Json) {
        match self {
            Response::Success(response) => response.to_json(),
            Response::Error(response) => response.to_json(),
        }
    }
}

/// What came of running a method's handler on a request's parameters.
#[derive(Debug, PartialEq)]
pub enum Handled {
    /// The method needs parameters and the request has none.
    MissingParams,
    /// The parameters do not have the method's shape.
    InvalidParams(DecodeError),
    /// The handler ran: its result as a document, or its failure.
    Done(Result<Json, HandlerError>),
}

pub enum HandledView {
    MissingParams,
    InvalidParams(DecodeError),
    Done(Result<JsonView, HandlerErrorView>),
}

impl View for Handled {
    type V = HandledView;

    open spec fn view(&self) -> HandledView {
        match self {
            Handled::MissingParams => HandledView::MissingParams,
            Handled::InvalidParams(error) => HandledView::InvalidParams(*error),
            Handled::Done(Ok(result)) => HandledView::Done(Ok(result@)),
            Handled::Done(Err(error)) => HandledView::Done(Err(error@)),
        }
    }
}

/// What a handler's outcome is as a document: the result is encoded, a
/// failure stays as it is.
pub open spec fn encoded<T: ToJson>(outcome: Result<T, HandlerError>) -> HandledView {
    match outcome {
        Ok(result) => HandledView::Done(Ok(T::json_of(result@))),
        Err(error) => HandledView::Done(Err(error@)),
    }
}

fn encode_outcome<T: ToJson>(outcome: Result<T, HandlerError>) -> (r: Handled)
    ensures
        r@ == encoded(outcome),
{
    match outcome {
        Ok(result) => Handled::Done(Ok(result.to_json())),
        Err(error) => Handled::Done(Err(error)),
    }
}

/// What comes of running `method` on the given parameters.
///
/// `initialize` and `tools/call` need parameters of their shape; the three
/// lists take none and ignore what they are given.
pub open spec fn handled(
    method: RequestMethod,
    params: Option<JsonView>,
    state: ServerStateView,
) -> HandledView {
    match method {
        RequestMethod::Initialize => match params {
            None => HandledView::MissingParams,
            Some(params) => match InitializeRequestParams::decoded(params) {
                Err(error) => HandledView::InvalidParams(error),
                Ok(_) => HandledView::Done(
                    Ok(
                        InitializeResult::json_of(
                            initialize_result(state.server_capabilities, state.server_info),
                        ),
                    ),
                ),
            },
        },
        RequestMethod::ToolsList => HandledView::Done(Ok(ListToolsResult::json_of(listed_tools()))),
        RequestMethod::ResourcesList => HandledView::Done(
            Ok(ListResourcesResult::json_of(listed_resources())),
        ),
        RequestMethod::PromptsList => HandledView::Done(
            Ok(ListPromptsResult::json_of(listed_prompts())),
        ),
        RequestMethod::ToolsCall => match params {
            None => HandledView::MissingParams,
            Some(params) => match CallToolRequestParams::decoded(params) {
                Err(error) => HandledView::InvalidParams(error),
                Ok(call) => match tool_call(call.name, json_text(call.arguments)) {
                    Ok(result) => HandledView::Done(Ok(CallToolResult::json_of(result))),
                    Err(error) => HandledView::Done(Err(error)),
                },
            },
        },
    }
}

/// Runs the handler of `method` on a request's parameters.
pub fn run_handler(method: RequestMethod, params: &Option<Json>, server_state: &ServerState) -> (r:
    Handled)
    ensures
        r@ == handled(method, crate::json::option_view(*params), server_state@),
{
    match method {
        RequestMethod::Initialize => match params {
            None => Handled::MissingParams,
            Some(params) => match InitializeRequestParams::from_json(params) {
                Err(error) => Handled::InvalidParams(error),
                Ok(params) => encode_outcome(
                    handle_initialize(
                        params,
                        &server_state.server_capabilities,
                        &server_state.server_info,
                    ),
                ),
            },
        },
        RequestMethod::ToolsList => encode_outcome(handle_list_tools()),
        RequestMethod::ResourcesList => encode_outcome(handle_list_resources()),
        RequestMethod::PromptsList => encode_outcome(handle_list_prompts()),
        RequestMethod::ToolsCall => match params {
            None => Handled::MissingParams,
            Some(params) => match CallToolRequestParams::from_json(params) {
                Err(error) => Handled::InvalidParams(error),
                Ok(call) => encode_outcome(handle_call_tool(call)),
            },
        },
    }
}

/// The success response with the given id and result.
pub open spec fn success_response(id: JsonView, result: JsonView) -> GenericResponseView<
    JsonView,
> {
    GenericResponseView { jsonrpc: JSONRPC_VERSION@, id, result }
}

/// The response to a request for `method`, given what came of its handler.
///
/// A result makes a success response. Missing or ill-shaped parameters make
/// an invalid-params error, a failure of the handler an internal error. Each
/// carries the request's id, and each error names the method.
pub open spec fn concluded(id: JsonView, method: RequestMethod, outcome: HandledView)
    -> ResponseView {
    match outcome {
        HandledView::MissingParams => ResponseView::Error(
            error_response(
                id,
                INVALID_PARAMS as int,
                method_message("Invalid params for "@, method.name(), "missing params field"@),
            ),
        ),
        HandledView::InvalidParams(error) => ResponseView::Error(
            error_response(
                id,
                INVALID_PARAMS as int,
                method_message("Invalid params for "@, method.name(), error.description()),
            ),
        ),
        HandledView::Done(Ok(result)) => ResponseView::Success(success_response(id, result)),
        HandledView::Done(Err(error)) => ResponseView::Error(
            error_response(
                id,
                INTERNAL_ERROR as int,
                method_message("Internal error during "@, method.name(), error.message),
            ),
        ),
    }
}

/// Makes the response to a request for `method` of what came of its handler.
pub fn conclude(id: Json, method: RequestMethod, outcome: Handled) -> (r: Response)
    ensures
        r@ == concluded(id@, method, outcome@),
{
    match outcome {
        Handled::MissingParams => Response::Error(
            invalid_params_error(id, method.as_str(), "missing params field"),
        ),
        Handled::InvalidParams(error) => {
            let details = error.describe();
            Response::Error(invalid_params_error(id, method.as_str(), details.as_str()))
        },
        Handled::Done(Ok(result)) => Response::Success(
            GenericResponse { jsonrpc: JSONRPC_VERSION.to_owned(), id, result },
        ),
        Handled::Done(Err(error)) => Response::Error(
            internal_error(id, method.as_str(), error.message.as_str()),
        ),
    }
}

/// The response that a request gets.
///
/// A request whose method is not registered gets a method-not-found error
/// that names the method. Every other request gets what its handler comes to.
pub open spec fn request_reply(request: GenericRequestView, state: ServerStateView)
    -> ResponseView {
    match RequestMethod::named(request.method) {
        None => ResponseView::Error(
            error_response(
                request.id,
                METHOD_NOT_FOUND as int,
                "Method not found: "@ + request.method,
            ),
        ),
        Some(method) => concluded(request.id, method, handled(method, request.params, state)),
    }
}

/// Dispatches a request to the handler of its method and makes the one
/// response that the request is owed.
pub fn handle_request(request: &GenericRequest, server_state: &ServerState) -> (r: Response)
    ensures
        r@ == request_reply(request@, server_state@),
        r@.id() == request@.id,
{
    let id = request.id.clone();
    match RequestMethod::from_name(request.method.as_str()) {
        None => Response::Error(method_not_found_error(id, request.method.as_str())),
        Some(method) => {
            let outcome = run_handler(method, &request.params, server_state);
            conclude(id, method, outcome)
        },
    }
}

// --- Notifications ---

/// What came of a notification. None of it is ever answered: it is for the
/// log alone.
#[derive(Debug, PartialEq)]
pub enum NotificationOutcome {
    /// The handler ran.
    Handled,
    /// The handler ran and failed.
    Failed(HandlerError),
    /// The parameters do not have the method's shape.
    InvalidParams(DecodeError),
    /// The notification asks to cancel a request, which the server cannot do.
    CancelNotImplemented,
    /// No handler is registered under the method's name.
    UnknownMethod,
}

pub enum NotificationOutcomeView {
    Handled,
    Failed(HandlerErrorView),
    InvalidParams(DecodeError),
    CancelNotImplemented,
    UnknownMethod,
}

impl View for NotificationOutcome {
    type V = NotificationOutcomeView;

    open spec fn view(&self) -> NotificationOutcomeView {
        match self {
            NotificationOutcome::Handled => NotificationOutcomeView::Handled,
            NotificationOutcome::Failed(error) => NotificationOutcomeView::Failed(error@),
            NotificationOutcome::InvalidParams(error) => NotificationOutcomeView::InvalidParams(
                *error,
            ),
            NotificationOutcome::CancelNotImplemented => {
                NotificationOutcomeView::CancelNotImplemented
            },
            NotificationOutcome::UnknownMethod => NotificationOutcomeView::UnknownMethod,
        }
    }
}

/// What comes of a notification.
///
/// `initialized` takes an object for its parameters, and none at all is as
/// good as an empty one.
pub open spec fn notified(notification: GenericNotificationView) -> NotificationOutcomeView {
    match NotificationMethod::named(notification.method) {
        Some(NotificationMethod::Initialized) => match notification.params {
            None => NotificationOutcomeView::Handled,
            Some(params) => match InitializedNotificationParams::decoded(params) {
                Ok(_) => NotificationOutcomeView::Handled,
                Err(error) => NotificationOutcomeView::InvalidParams(error),
            },
        },
        Some(NotificationMethod::CancelRequest) => NotificationOutcomeView::CancelNotImplemented,
        None => NotificationOutcomeView::UnknownMethod,
    }
}

fn initialized_outcome(outcome: Result<(), HandlerError>) -> (r: NotificationOutcome)
    ensures
        outcome is Ok ==> r@ == NotificationOutcomeView::Handled,
        outcome matches Err(error) ==> r@ == NotificationOutcomeView::Failed(error@),
{
    match outcome {
        Ok(_) => NotificationOutcome::Handled,
        Err(error) => NotificationOutcome::Failed(error),
    }
}

/// Dispatches a notification to the handler of its method. Whatever comes of
/// it, nothing is written.
pub fn handle_notification(notification: &GenericNotification, _server_state: &ServerState) -> (r:
    NotificationOutcome)
    ensures
        r@ == notified(notification@),
{
    match NotificationMethod::from_name(notification.method.as_str()) {
        Some(NotificationMethod::Initialized) => match &notification.params {
            None => initialized_outcome(handle_initialized(InitializedNotificationParams {  })),
            Some(params) => match InitializedNotificationParams::from_json(params) {
                Ok(params) => initialized_outcome(handle_initialized(params)),
                Err(error) => NotificationOutcome::InvalidParams(error),
            },
        },
        Some(NotificationMethod::CancelRequest) => NotificationOutcome::CancelNotImplemented,
        None => NotificationOutcome::UnknownMethod,
    }
}

// --- Dispatch ---

/// Why a message gets no response.
#[derive(Debug, PartialEq)]
pub enum Silence {
    /// It is a notification; this is what came of it.
    Notified(NotificationOutcome),
    /// It looks like a notification but does not have the shape of one.
    BadNotification(DecodeError),
    /// It carries neither an `id` nor a `method`: there is nobody to answer.
    Invalid,
}

pub enum SilenceView {
    Notified(NotificationOutcomeView),
    BadNotification(DecodeError),
    Invalid,
}

impl View for Silence {
    type V = SilenceView;

    open spec fn view(&self) -> SilenceView {
        match self {
            Silence::Notified(outcome) => SilenceView::Notified(outcome@),
            Silence::BadNotification(error) => SilenceView::BadNotification(*error),
            Silence::Invalid => SilenceView::Invalid,
        }
    }
}

/// What the dispatcher makes of a message: one response, or none.
#[derive(Debug, PartialEq)]
pub enum Reply {
    Answer(Response),
    Silent(Silence),
}

pub enum ReplyView {
    Answer(ResponseView),
    Silent(SilenceView),
}

impl View for Reply {
    type V = ReplyView;

    open spec fn view(&self) -> ReplyView {
        match self {
            Reply::Answer(response) => ReplyView::Answer(response@),
            Reply::Silent(silence) => ReplyView::Silent(silence@),
        }
    }
}

/// What the dispatcher makes of a message.
///
/// A request gets the response of its handler. A line that is not JSON gets
/// a parse error with the id `null`. A document with an `id` that is no
/// request gets an invalid-params error with that id. Everything else gets
/// no response: a notification, whatever comes of it; a document that looks
/// like one and is none; a document with neither `id` nor `method`.
pub open spec fn dispatched(message: MessageView, state: ServerStateView) -> ReplyView {
    match message {
        MessageView::Request(request) => ReplyView::Answer(request_reply(request, state)),
        MessageView::Notification(notification) => ReplyView::Silent(
            SilenceView::Notified(notified(notification)),
        ),
        MessageView::Malformed(MalformedView::Unparseable) => ReplyView::Answer(
            ResponseView::Error(
                error_response(
                    JsonView::Null,
                    PARSE_ERROR as int,
                    "Parse error: "@ + "Invalid JSON received"@,
                ),
            ),
        ),
        MessageView::Malformed(MalformedView::BadRequest { id, error }) => ReplyView::Answer(
            ResponseView::Error(
                error_response(
                    id,
                    INVALID_PARAMS as int,
                    "Invalid request: "@ + error.description(),
                ),
            ),
        ),
        MessageView::Malformed(MalformedView::BadNotification { error }) => ReplyView::Silent(
            SilenceView::BadNotification(error),
        ),
        MessageView::Malformed(MalformedView::Invalid) => ReplyView::Silent(SilenceView::Invalid),
    }
}

/// Dispatches a classified message.
pub fn dispatch(message: Message, server_state: &ServerState) -> (r: Reply)
    ensures
        r@ == dispatched(message@, server_state@),
{
    match message {
        Message::Request(request) => Reply::Answer(handle_request(&request, server_state)),
        Message::Notification(notification) => Reply::Silent(
            Silence::Notified(handle_notification(&notification, server_state)),
        ),
        Message::Malformed(Malformed::Unparseable) => Reply::Answer(
            Response::Error(parse_error(None, "Invalid JSON received")),
        ),
        Message::Malformed(Malformed::BadRequest { id, error }) => {
            let details = error.describe();
            Reply::Answer(Response::Error(invalid_request_error(id, details.as_str())))
        },
        Message::Malformed(Malformed::BadNotification { error }) => Reply::Silent(
            Silence::BadNotification(error),
        ),
        Message::Malformed(Malformed::Invalid) => Reply::Silent(Silence::Invalid),
    }
}

// --- One line ---

/// What came of one line of input.
#[derive(Debug, PartialEq)]
pub enum LineOutcome {
    /// The line is blank and was skipped.
    Skipped,
    /// The line gets no response.
    Silent(Silence),
    /// The line gets this response line, terminator included.
    Respond(String),
    /// The line is owed a response that has no JSON text.
    Unwritable,
}

pub enum LineOutcomeView {
    Skipped,
    Silent(SilenceView),
    Respond(Seq<char>),
    Unwritable,
}

impl View for LineOutcome {
    type V = LineOutcomeView;

    open spec fn view(&self) -> LineOutcomeView {
        match self {
            LineOutcome::Skipped => LineOutcomeView::Skipped,
            LineOutcome::Silent(silence) => LineOutcomeView::Silent(silence@),
            LineOutcome::Respond(line) => LineOutcomeView::Respond(line@),
            LineOutcome::Unwritable => LineOutcomeView::Unwritable,
        }
    }
}

/// What comes of a reply once it is written out: a response becomes its
/// line.
pub open spec fn written(reply: ReplyView) -> LineOutcomeView {
    match reply {
        ReplyView::Silent(silence) => LineOutcomeView::Silent(silence),
        ReplyView::Answer(response) => match framed(Response::json_of(response)) {
            Some(line) => LineOutcomeView::Respond(line),
            None => LineOutcomeView::Unwritable,
        },
    }
}

/// Writes a reply out: a response becomes its line.
pub fn write_reply(reply: Reply) -> (r: LineOutcome)
    ensures
        r@ == written(reply@),
{
    match reply {
        Reply::Silent(silence) => LineOutcome::Silent(silence),
        Reply::Answer(response) => {
            let mut line = String::new();
            match write_message_newline(&mut line, &response) {
                Ok(_) => {
                    assert(line@ =~= framed(Response::json_of(response@))->0);
                    LineOutcome::Respond(line)
                },
                Err(_) => LineOutcome::Unwritable,
            }
        },
    }
}

/// What comes of one line of input: a blank line is skipped, every other
/// line is read as JSON, classified, dispatched and written out.
pub open spec fn line_outcome(line: Seq<char>, state: ServerStateView) -> LineOutcomeView {
    if is_blank(line) {
        LineOutcomeView::Skipped
    } else {
        written(dispatched(classified(parsed_json(line)), state))
    }
}

/// Processes one line of input.
pub fn process_line(line: &str, server_state: &ServerState) -> (r: LineOutcome)
    ensures
        r@ == line_outcome(line@, server_state@),
{
    if line_is_blank(line) {
        LineOutcome::Skipped
    } else {
        write_reply(dispatch(classify_line(line), server_state))
    }
}

// --- The state machine ---

/// Where the server stands between two steps.
///
/// Classifying and dispatching a line never wait on the transport: they take
/// place within the step that takes the line.
#[derive(Clone, Copy, Debug, PartialEq, Eq, Structural)]
pub enum Phase {
    /// Not started yet.
    Idle,
    /// Waiting for the next line.
    ReadingLine,
    /// Waiting for a response line to be written and flushed.
    Writing,
    /// Stopped: the input came to its end.
    ShutdownClean,
    /// Stopped: reading or writing failed.
    ShutdownFault,
}

impl Phase {
    /// Whether the server has stopped.
    pub open spec fn is_terminal(self) -> bool {
        self == Phase::ShutdownClean || self == Phase::ShutdownFault
    }
}

/// What the transport reports to the server.
#[derive(Debug, PartialEq)]
pub enum Event {
    /// The server is to start.
    Started,
    /// A line was read; it comes without its terminator.
    Line(String),
    /// The input came to its end.
    EndOfInput,
    /// Reading failed.
    ReadFailed,
    /// The line was written and flushed.
    Written,
    /// Writing or flushing failed.
    WriteFailed,
}

pub enum EventView {
    Started,
    Line(Seq<char>),
    EndOfInput,
    ReadFailed,
    Written,
    WriteFailed,
}

impl View for Event {
    type V = EventView;

    open spec fn view(&self) -> EventView {
        match self {
            Event::Started => EventView::Started,
            Event::Line(line) => EventView::Line(line@),
            Event::EndOfInput => EventView::EndOfInput,
            Event::ReadFailed => EventView::ReadFailed,
            Event::Written => EventView::Written,
            Event::WriteFailed => EventView::WriteFailed,
        }
    }
}

/// What the server asks of the transport.
#[derive(Debug, PartialEq)]
pub enum Action {
    /// Read the next line.
    ReadLine,
    /// Write this line as it is and flush.
    WriteLine(String),
    /// Stop.
    Stop,
}

pub enum ActionView {
    ReadLine,
    WriteLine(Seq<char>),
    Stop,
}

impl View for Action {
    type V = ActionView;

    open spec fn view(&self) -> ActionView {
        match self {
            Action::ReadLine => ActionView::ReadLine,
            Action::WriteLine(line) => ActionView::WriteLine(line@),
            Action::Stop => ActionView::Stop,
        }
    }
}

/// One step of the server: where it stands next, and what it asks for.
#[derive(Debug, PartialEq)]
pub struct Transition {
    pub next: Phase,
    pub action: Action,
}

pub struct TransitionView {
    pub next: Phase,
    pub action: ActionView,
}

impl View for Transition {
    type V = TransitionView;

    open spec fn view(&self) -> TransitionView {
        TransitionView { next: self.next, action: self.action@ }
    }
}

/// The step that follows a processed line.
///
/// A response line is written next. A line without a response is followed by
/// the next read. A response without JSON text cannot be sent: the server
/// stops as on a failed write.
pub open spec fn after_line_spec(outcome: LineOutcomeView) -> TransitionView {
    match outcome {
        LineOutcomeView::Skipped => TransitionView {
            next: Phase::ReadingLine,
            action: ActionView::ReadLine,
        },
        LineOutcomeView::Silent(_) => TransitionView {
            next: Phase::ReadingLine,
            action: ActionView::ReadLine,
        },
        LineOutcomeView::Respond(line) => TransitionView {
            next: Phase::Writing,
            action: ActionView::WriteLine(line),
        },
        LineOutcomeView::Unwritable => TransitionView {
            next: Phase::ShutdownFault,
            action: ActionView::Stop,
        },
    }
}

/// The step that follows a processed line.
pub fn after_line(outcome: LineOutcome) -> (t: Transition)
    ensures
        t@ == after_line_spec(outcome@),
{
    match outcome {
        LineOutcome::Skipped => Transition { next: Phase::ReadingLine, action: Action::ReadLine },
        LineOutcome::Silent(_) => Transition { next: Phase::ReadingLine, action: Action::ReadLine },
        LineOutcome::Respond(line) => Transition {
            next: Phase::Writing,
            action: Action::WriteLine(line),
        },
        LineOutcome::Unwritable => Transition { next: Phase::ShutdownFault, action: Action::Stop },
    }
}

/// The server's transitions.
///
/// Once started, the server reads. A line is processed and leads to a write
/// or to the next read; the end of the input stops the server cleanly, a
/// failed read with a fault. A finished write leads to the next read, a
/// failed one stops the server with a fault. A stopped server stays stopped.
/// An event that the phase does not wait for stops the server with a fault.
pub open spec fn stepped(phase: Phase, event: EventView, state: ServerStateView)
    -> TransitionView {
    match (phase, event) {
        (Phase::Idle, EventView::Started) => TransitionView {
            next: Phase::ReadingLine,
            action: ActionView::ReadLine,
        },
        (Phase::ReadingLine, EventView::Line(line)) => after_line_spec(line_outcome(line, state)),
        (Phase::ReadingLine, EventView::EndOfInput) => TransitionView {
            next: Phase::ShutdownClean,
            action: ActionView::Stop,
        },
        (Phase::Writing, EventView::Written) => TransitionView {
            next: Phase::ReadingLine,
            action: ActionView::ReadLine,
        },
        (Phase::ShutdownClean, _) => TransitionView {
            next: Phase::ShutdownClean,
            action: ActionView::Stop,
        },
        _ => TransitionView { next: Phase::ShutdownFault, action: ActionView::Stop },
    }
}

/// Takes one step: given the phase and what the transport reports, says where
/// the server stands next and what it asks for.
pub fn step(phase: Phase, event: Event, server_state: &ServerState) -> (t: Transition)
    ensures
        t@ == stepped(phase, event@, server_state@),
{
    match (phase, event) {
        (Phase::Idle, Event::Started) => Transition {
            next: Phase::ReadingLine,
            action: Action::ReadLine,
        },
        (Phase::ReadingLine, Event::Line(line)) => after_line(
            process_line(line.as_str(), server_state),
        ),
        (Phase::ReadingLine, Event::EndOfInput) => Transition {
            next: Phase::ShutdownClean,
            action: Action::Stop,
        },
        (Phase::Writing, Event::Written) => Transition {
            next: Phase::ReadingLine,
            action: Action::ReadLine,
        },
        (Phase::ShutdownClean, _) => Transition {
            next: Phase::ShutdownClean,
            action: Action::Stop,
        },
        _ => Transition { next: Phase::ShutdownFault, action: Action::Stop },
    }
}

} // verus!
