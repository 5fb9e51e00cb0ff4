//! The method handlers, and the error responses of the protocol.

use crate::constants::INTERNAL_ERROR;
use crate::constants::INVALID_PARAMS;
use crate::constants::JSONRPC_VERSION;
use crate::constants::METHOD_NOT_FOUND;
use crate::constants::PARSE_ERROR;
use crate::constants::SUPPORTED_PROTOCOL_VERSION;
use crate::json::json_text;
use crate::json::Json;
use crate::json::JsonView;
use crate::json::ObjectBuilder;
use crate::text::join;
use crate::text::join3;
use crate::text::str_eq;
use crate::types::CallToolRequestParams;
use crate::types::CallToolResult;
use crate::types::CallToolResultView;
use crate::types::ContentPart;
use crate::types::ContentPartView;
use crate::types::ErrorData;
use crate::types::ErrorDataView;
use crate::types::GenericErrorResponse;
use crate::types::GenericErrorResponseView;
use crate::types::Implementation;
use crate::types::ImplementationView;
use crate::types::InitializeRequestParams;
use crate::types::InitializeResult;
use crate::types::InitializeResultView;
use crate::types::InitializedNotificationParams;
use crate::types::ListPromptsResult;
use crate::types::ListPromptsResultView;
use crate::types::ListResourcesResult;
use crate::types::ListResourcesResultView;
use crate::types::ListToolsResult;
use crate::types::ListToolsResultView;
use crate::types::Prompt;
use crate::types::PromptView;
use crate::types::Resource;
use crate::types::ResourceView;
use crate::types::ServerCapabilities;
use crate::types::ServerCapabilitiesView;
use crate::types::Tool;
use crate::types::ToolView;
use vstd::prelude::*;

verus! {

/// Why a handler could not produce its result.
#[derive(Debug, PartialEq)]
pub struct HandlerError {
    pub message: String,
}

pub struct HandlerErrorView {
    pub message: Seq<char>,
}

impl View for HandlerError {
    type V = HandlerErrorView;

    open spec fn view(&self) -> HandlerErrorView {
        HandlerErrorView { message: self.message@ }
    }
}

// --- initialize ---

/// What `initialize` answers: the server's own protocol version, whatever
/// the client asked for, with the server's capabilities and identity.
pub open spec fn initialize_result(
    capabilities: ServerCapabilitiesView,
    info: ImplementationView,
) -> InitializeResultView {
    InitializeResultView {
        protocol_version: SUPPORTED_PROTOCOL_VERSION@,
        capabilities,
        server_info: info,
        instructions: None,
    }
}

/// Handles `initialize`. A client that asks for another protocol version is
/// answered all the same, with the server's version.
pub fn handle_initialize(
    params: InitializeRequestParams,
    server_capabilities: &ServerCapabilities,
    server_info: &Implementation,
) -> (r: Result<InitializeResult, HandlerError>)
    ensures
        r matches Ok(result) && result@ == initialize_result(
            server_capabilities@,
            server_info@,
        ),
{
    Ok(
        InitializeResult {
            protocol_version: SUPPORTED_PROTOCOL_VERSION.to_owned(),
            capabilities: server_capabilities.clone(),
            server_info: server_info.clone(),
            instructions: None,
        },
    )
}

/// Handles the `initialized` notification: there is nothing to do.
pub fn handle_initialized(_params: InitializedNotificationParams) -> (r: Result<(), HandlerError>)
    ensures
        r is Ok,
{
    Ok(())
}

// --- Lists ---

/// The schema of a tool that takes an object without any named property.
pub open spec fn empty_object_schema() -> JsonView {
    JsonView::Object(
        seq![
            ("type"@, JsonView::String("object"@)),
            ("properties"@, JsonView::Object(Seq::empty())),
        ],
    )
}

/// The tools on offer: the one dummy tool.
pub open spec fn listed_tools() -> ListToolsResultView {
    ListToolsResultView {
        tools: seq![
            ToolView {
                name: "dummy_tool_from_rust"@,
                description: Some("A simple test tool."@),
                input_schema: empty_object_schema(),
            },
        ],
    }
}

/// The resources on offer: the one dummy resource.
pub open spec fn listed_resources() -> ListResourcesResultView {
    ListResourcesResultView {
        resources: seq![
            ResourceView {
                uri: "mcp://dummy/resource/1"@,
                name: "Dummy Resource"@,
                description: Some("A test resource from Rust"@),
            },
        ],
    }
}

/// The prompts on offer: the one dummy prompt.
pub open spec fn listed_prompts() -> ListPromptsResultView {
    ListPromptsResultView {
        prompts: seq![
            PromptView {
                name: "dummy_prompt"@,
                description: Some("A test prompt from Rust"@),
                arguments: None,
            },
        ],
    }
}

/// Handles `tools/list`.
pub fn handle_list_tools() -> (r: Result<ListToolsResult, HandlerError>)
    ensures
        r matches Ok(result) && result@ == listed_tools(),
{
    let mut schema = ObjectBuilder::new();
    schema.member("type", Json::string("object"));
    schema.member("properties", Json::empty_object());
    assert(schema@ =~= empty_object_schema()->Object_0);
    let dummy_tool = Tool {
        name: "dummy_tool_from_rust".to_owned(),
        description: Some("A simple test tool.".to_owned()),
        input_schema: schema.finish(),
    };
    let mut tools: Vec<Tool> = Vec::new();
    tools.push(dummy_tool);
    let result = ListToolsResult { tools };
    assert(result@.tools =~= listed_tools().tools);
    Ok(result)
}

/// Handles `resources/list`.
pub fn handle_list_resources() -> (r: Result<ListResourcesResult, HandlerError>)
    ensures
        r matches Ok(result) && result@ == listed_resources(),
{
    let dummy_resource = Resource {
        uri: "mcp://dummy/resource/1".to_owned(),
        name: "Dummy Resource".to_owned(),
        description: Some("A test resource from Rust".to_owned()),
    };
    let mut resources: Vec<Resource> = Vec::new();
    resources.push(dummy_resource);
    let result = ListResourcesResult { resources };
    assert(result@.resources =~= listed_resources().resources);
    Ok(result)
}

/// Handles `prompts/list`.
pub fn handle_list_prompts() -> (r: Result<ListPromptsResult, HandlerError>)
    ensures
        r matches Ok(result) && result@ == listed_prompts(),
{
    let dummy_prompt = Prompt {
        name: "dummy_prompt".to_owned(),
        description: Some("A test prompt from Rust".to_owned()),
        arguments: None,
    };
    let mut prompts: Vec<Prompt> = Vec::new();
    prompts.push(dummy_prompt);
    let result = ListPromptsResult { prompts };
    assert(result@.prompts =~= listed_prompts().prompts);
    Ok(result)
}

// --- tools/call ---

/// A tool result of one part of text.
pub open spec fn text_result(text: Seq<char>, is_error: Option<bool>) -> CallToolResultView {
    CallToolResultView {
        content: seq![ContentPartView { type_: "text"@, text: Some(text) }],
        is_error,
    }
}

/// What calling the tool `name` comes to, given its arguments as JSON text
/// (`None` where they could not be written as text).
///
/// The dummy tool reports the arguments it received. Every other tool is
/// unknown: the call still succeeds, with a result that is marked as an error
/// and names the tool.
pub open spec fn tool_call(name: Seq<char>, arguments_text: Option<Seq<char>>) -> Result<
    CallToolResultView,
    HandlerErrorView,
> {
    if name == "dummy_tool_from_rust"@ {
        match arguments_text {
            Some(text) => Ok(
                text_result(
                    "dummy_tool_from_rust executed successfully by Rust! Received args: "@ + text,
                    None,
                ),
            ),
            None => Err(
                HandlerErrorView { message: "the arguments could not be written as JSON"@ },
            ),
        }
    } else {
        Ok(
            text_result(
                "Error: Tool '"@ + name + "' not implemented by this server."@,
                Some(true),
            ),
        )
    }
}

fn make_text_result(text: String, is_error: Option<bool>) -> (r: CallToolResult)
    ensures
        r@ == text_result(text@, is_error),
{
    let part = ContentPart { type_: "text".to_owned(), text: Some(text) };
    let mut content: Vec<ContentPart> = Vec::new();
    content.push(part);
    let result = CallToolResult { content, is_error };
    assert(result@.content =~= text_result(text@, is_error).content);
    result
}

/// Runs the tool `name` on arguments that are already written as JSON text.
pub fn call_tool(name: &str, arguments_text: Option<String>) -> (r: Result<
    CallToolResult,
    HandlerError,
>)
    ensures
        match r {
            Ok(result) => tool_call(name@, arguments_text.deep_view()) == Ok::<
                CallToolResultView,
                HandlerErrorView,
            >(result@),
            Err(e) => tool_call(name@, arguments_text.deep_view()) == Err::<
                CallToolResultView,
                HandlerErrorView,
            >(e@),
        },
{
    if str_eq(name, "dummy_tool_from_rust") {
        match arguments_text {
            Some(text) => Ok(
                make_text_result(
                    join(
                        "dummy_tool_from_rust executed successfully by Rust! Received args: ",
                        text.as_str(),
                    ),
                    None,
                ),
            ),
            None => Err(
                HandlerError { message: "the arguments could not be written as JSON".to_owned() },
            ),
        }
    } else {
        Ok(
            make_text_result(
                join3("Error: Tool '", name, "' not implemented by this server."),
                Some(true),
            ),
        )
    }
}

/// Handles `tools/call`: writes the arguments as JSON text and runs the tool
/// on it.
pub fn handle_call_tool(params: CallToolRequestParams) -> (r: Result<CallToolResult, HandlerError>)
    ensures
        match r {
            Ok(result) => tool_call(params@.name, json_text(params@.arguments)) == Ok::<
                CallToolResultView,
                HandlerErrorView,
            >(result@),
            Err(e) => tool_call(params@.name, json_text(params@.arguments)) == Err::<
                CallToolResultView,
                HandlerErrorView,
            >(e@),
        },
{
    let arguments_text = params.arguments.to_text();
    call_tool(params.name.as_str(), arguments_text)
}

// --- Error responses ---

/// The error response with the given id, code and message.
pub open spec fn error_response(id: JsonView, code: int, message: Seq<char>)
    -> GenericErrorResponseView {
    GenericErrorResponseView {
        jsonrpc: JSONRPC_VERSION@,
        id,
        error: ErrorDataView { code, message },
    }
}

/// Makes the error response with the given id, code and message.
pub fn create_error_response(id: Json, code: i32, message: String) -> (r: GenericErrorResponse)
    ensures
        r@ == error_response(id@, code as int, message@),
{
    GenericErrorResponse {
        jsonrpc: JSONRPC_VERSION.to_owned(),
        id,
        error: ErrorData { code, message },
    }
}

/// The response to a request whose method has no handler.
pub fn method_not_found_error(id: Json, method_name: &str) -> (r: GenericErrorResponse)
    ensures
        r@ == error_response(
            id@,
            METHOD_NOT_FOUND as int,
            "Method not found: "@ + method_name@,
        ),
{
    create_error_response(id, METHOD_NOT_FOUND, join("Method not found: ", method_name))
}

/// The message of an error about a method: the prefix, the method's name, a
/// colon and the details.
pub open spec fn method_message(prefix: Seq<char>, method_name: Seq<char>, details: Seq<char>)
    -> Seq<char> {
    prefix + method_name + ": "@ + details
}

fn make_method_message(prefix: &str, method_name: &str, details: &str) -> (r: String)
    ensures
        r@ == method_message(prefix@, method_name@, details@),
{
    let head = join3(prefix, method_name, ": ");
    join(head.as_str(), details)
}

/// The response to a request whose parameters are missing or do not have the
/// method's shape.
pub fn invalid_params_error(id: Json, method_name: &str, details: &str) -> (r:
    GenericErrorResponse)
    ensures
        r@ == error_response(
            id@,
            INVALID_PARAMS as int,
            method_message("Invalid params for "@, method_name@, details@),
        ),
{
    create_error_response(
        id,
        INVALID_PARAMS,
        make_method_message("Invalid params for ", method_name, details),
    )
}

/// The response to a request whose handler failed.
pub fn internal_error(id: Json, method_name: &str, details: &str) -> (r: GenericErrorResponse)
    ensures
        r@ == error_response(
            id@,
            INTERNAL_ERROR as int,
            method_message("Internal error during "@, method_name@, details@),
        ),
{
    create_error_response(
        id,
        INTERNAL_ERROR,
        make_method_message("Internal error during ", method_name, details),
    )
}

/// The response to a message that carries an `id` but is no request.
pub fn invalid_request_error(id: Json, details: &str) -> (r: GenericErrorResponse)
    ensures
        r@ == error_response(id@, INVALID_PARAMS as int, "Invalid request: "@ + details@),
{
    create_error_response(id, INVALID_PARAMS, join("Invalid request: ", details))
}

/// The id of a response to a message whose own id may be lost.
pub open spec fn id_or_null(id: Option<JsonView>) -> JsonView {
    match id {
        Some(id) => id,
        None => JsonView::Null,
    }
}

/// The response to a line that could not be read; its id is `null` where
/// none could be recovered.
pub fn parse_error(id: Option<Json>, details: &str) -> (r: GenericErrorResponse)
    ensures
        r@ == error_response(
            id_or_null(crate::json::option_view(id)),
            PARSE_ERROR as int,
            "Parse error: "@ + details@,
        ),
{
    let id = match id {
        Some(id) => id,
        None => Json::Null,
    };
    create_error_response(id, PARSE_ERROR, join("Parse error: ", details))
}

} // verus!
