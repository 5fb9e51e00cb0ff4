//! The protocol's data: requests, responses, and the payloads of the
//! recognised methods, each with its mathematical model.

use crate::json::Json;
use crate::json::JsonView;
use crate::json::option_view;
use vstd::prelude::*;

verus! {

// --- Identity and capabilities ---

/// The name and version of a client or of this server.
#[derive(Debug, PartialEq)]
pub struct Implementation {
    pub name: String,
    pub version: String,
}

pub struct ImplementationView {
    pub name: Seq<char>,
    pub version: Seq<char>,
}

impl View for Implementation {
    type V = ImplementationView;

    open spec fn view(&self) -> ImplementationView {
        ImplementationView { name: self.name@, version: self.version@ }
    }
}

impl Clone for Implementation {
    fn clone(&self) -> (r: Implementation)
        ensures
            r@ == self@,
    {
        Implementation { name: self.name.clone(), version: self.version.clone() }
    }
}

/// What the server advertises: one optional document per capability.
#[derive(Debug, PartialEq)]
pub struct ServerCapabilities {
    pub tools: Option<Json>,
    pub resources: Option<Json>,
    pub prompts: Option<Json>,
}

pub struct ServerCapabilitiesView {
    pub tools: Option<JsonView>,
    pub resources: Option<JsonView>,
    pub prompts: Option<JsonView>,
}

impl View for ServerCapabilities {
    type V = ServerCapabilitiesView;

    open spec fn view(&self) -> ServerCapabilitiesView {
        ServerCapabilitiesView {
            tools: option_view(self.tools),
            resources: option_view(self.resources),
            prompts: option_view(self.prompts),
        }
    }
}

/// Copies an optional document.
pub fn clone_optional(document: &Option<Json>) -> (r: Option<Json>)
    ensures
        option_view(r) == option_view(*document),
{
    match document {
        Some(j) => Some(j.clone()),
        None => None,
    }
}

impl Clone for ServerCapabilities {
    fn clone(&self) -> (r: ServerCapabilities)
        ensures
            r@ == self@,
    {
        ServerCapabilities {
            tools: clone_optional(&self.tools),
            resources: clone_optional(&self.resources),
            prompts: clone_optional(&self.prompts),
        }
    }
}

impl Default for ServerCapabilities {
    fn default() -> (r: ServerCapabilities)
        ensures
            r@ == (ServerCapabilitiesView { tools: None, resources: None, prompts: None }),
    {
        ServerCapabilities { tools: None, resources: None, prompts: None }
    }
}

/// What a client advertises. Nothing of it is read.
#[derive(Clone, Copy, Debug, PartialEq, Eq)]
pub struct ClientCapabilities {}

impl View for ClientCapabilities {
    type V = ClientCapabilities;

    open spec fn view(&self) -> ClientCapabilities {
        *self
    }
}

impl Default for ClientCapabilities {
    fn default() -> (r: ClientCapabilities) {
        ClientCapabilities {  }
    }
}

// --- initialize ---

/// The parameters of `initialize`.
#[derive(Debug, PartialEq)]
pub struct InitializeRequestParams {
    pub protocol_version: String,
    pub capabilities: ClientCapabilities,
    pub client_info: Implementation,
}

pub struct InitializeRequestParamsView {
    pub protocol_version: Seq<char>,
    pub capabilities: ClientCapabilities,
    pub client_info: ImplementationView,
}

impl View for InitializeRequestParams {
    type V = InitializeRequestParamsView;

    open spec fn view(&self) -> InitializeRequestParamsView {
        InitializeRequestParamsView {
            protocol_version: self.protocol_version@,
            capabilities: self.capabilities@,
            client_info: self.client_info@,
        }
    }
}

/// The result of `initialize`.
#[derive(Debug, PartialEq)]
pub struct InitializeResult {
    pub protocol_version: String,
    pub capabilities: ServerCapabilities,
    pub server_info: Implementation,
    pub instructions: Option<String>,
}

pub struct InitializeResultView {
    pub protocol_version: Seq<char>,
    pub capabilities: ServerCapabilitiesView,
    pub server_info: ImplementationView,
    pub instructions: Option<Seq<char>>,
}

impl View for InitializeResult {
    type V = InitializeResultView;

    open spec fn view(&self) -> InitializeResultView {
        InitializeResultView {
            protocol_version: self.protocol_version@,
            capabilities: self.capabilities@,
            server_info: self.server_info@,
            instructions: self.instructions.deep_view(),
        }
    }
}

// --- Messages ---

/// A request: a message that carries an `id` and is owed one response.
#[derive(Debug, PartialEq)]
pub struct GenericRequest {
    pub jsonrpc: String,
    pub id: Json,
    pub method: String,
    pub params: Option<Json>,
}

pub struct GenericRequestView {
    pub jsonrpc: Seq<char>,
    pub id: JsonView,
    pub method: Seq<char>,
    pub params: Option<JsonView>,
}

impl View for GenericRequest {
    type V = GenericRequestView;

    open spec fn view(&self) -> GenericRequestView {
        GenericRequestView {
            jsonrpc: self.jsonrpc@,
            id: self.id@,
            method: self.method@,
            params: option_view(self.params),
        }
    }
}

/// A notification: a message without an `id`, which is never answered.
#[derive(Debug, PartialEq)]
pub struct GenericNotification {
    pub jsonrpc: String,
    pub method: String,
    pub params: Option<Json>,
}

pub struct GenericNotificationView {
    pub jsonrpc: Seq<char>,
    pub method: Seq<char>,
    pub params: Option<JsonView>,
}

impl View for GenericNotification {
    type V = GenericNotificationView;

    open spec fn view(&self) -> GenericNotificationView {
        GenericNotificationView {
            jsonrpc: self.jsonrpc@,
            method: self.method@,
            params: option_view(self.params),
        }
    }
}

/// A success response.
#[derive(Debug, PartialEq)]
pub struct GenericResponse<T> {
    pub jsonrpc: String,
    pub id: Json,
    pub result: T,
}

pub struct GenericResponseView<T> {
    pub jsonrpc: Seq<char>,
    pub id: JsonView,
    pub result: T,
}

impl<T: View> View for GenericResponse<T> {
    type V = GenericResponseView<T::V>;

    open spec fn view(&self) -> GenericResponseView<T::V> {
        GenericResponseView { jsonrpc: self.jsonrpc@, id: self.id@, result: self.result@ }
    }
}

/// The code and message of an error response.
#[derive(Debug, PartialEq)]
pub struct ErrorData {
    pub code: i32,
    pub message: String,
}

pub struct ErrorDataView {
    pub code: int,
    pub message: Seq<char>,
}

impl View for ErrorData {
    type V = ErrorDataView;

    open spec fn view(&self) -> ErrorDataView {
        ErrorDataView { code: self.code as int, message: self.message@ }
    }
}

/// An error response.
#[derive(Debug, PartialEq)]
pub struct GenericErrorResponse {
    pub jsonrpc: String,
    pub id: Json,
    pub error: ErrorData,
}

pub struct GenericErrorResponseView {
    pub jsonrpc: Seq<char>,
    pub id: JsonView,
    pub error: ErrorDataView,
}

impl View for GenericErrorResponse {
    type V = GenericErrorResponseView;

    open spec fn view(&self) -> GenericErrorResponseView {
        GenericErrorResponseView { jsonrpc: self.jsonrpc@, id: self.id@, error: self.error@ }
    }
}

/// Copies an optional text.
pub fn clone_optional_text(text: &Option<String>) -> (r: Option<String>)
    ensures
        r.deep_view() == text.deep_view(),
{
    match text {
        Some(s) => Some(s.clone()),
        None => None,
    }
}

// --- Tools, resources, prompts ---

/// A tool the server offers.
#[derive(Debug, PartialEq)]
pub struct Tool {
    pub name: String,
    pub description: Option<String>,
    pub input_schema: Json,
}

pub struct ToolView {
    pub name: Seq<char>,
    pub description: Option<Seq<char>>,
    pub input_schema: JsonView,
}

impl View for Tool {
    type V = ToolView;

    open spec fn view(&self) -> ToolView {
        ToolView {
            name: self.name@,
            description: self.description.deep_view(),
            input_schema: self.input_schema@,
        }
    }
}

impl Clone for Tool {
    fn clone(&self) -> (r: Tool)
        ensures
            r@ == self@,
    {
        Tool {
            name: self.name.clone(),
            description: clone_optional_text(&self.description),
            input_schema: self.input_schema.clone(),
        }
    }
}

/// A resource the server offers.
#[derive(Debug, PartialEq)]
pub struct Resource {
    pub uri: String,
    pub name: String,
    pub description: Option<String>,
}

pub struct ResourceView {
    pub uri: Seq<char>,
    pub name: Seq<char>,
    pub description: Option<Seq<char>>,
}

impl View for Resource {
    type V = ResourceView;

    open spec fn view(&self) -> ResourceView {
        ResourceView {
            uri: self.uri@,
            name: self.name@,
            description: self.description.deep_view(),
        }
    }
}

impl Clone for Resource {
    fn clone(&self) -> (r: Resource)
        ensures
            r@ == self@,
    {
        Resource {
            uri: self.uri.clone(),
            name: self.name.clone(),
            description: clone_optional_text(&self.description),
        }
    }
}

/// One argument of a prompt.
#[derive(Debug, PartialEq)]
pub struct PromptArgument {
    pub name: String,
    pub description: Option<String>,
    pub required: bool,
}

pub struct PromptArgumentView {
    pub name: Seq<char>,
    pub description: Option<Seq<char>>,
    pub required: bool,
}

impl View for PromptArgument {
    type V = PromptArgumentView;

    open spec fn view(&self) -> PromptArgumentView {
        PromptArgumentView {
            name: self.name@,
            description: self.description.deep_view(),
            required: self.required,
        }
    }
}

impl Clone for PromptArgument {
    fn clone(&self) -> (r: PromptArgument)
        ensures
            r@ == self@,
    {
        PromptArgument {
            name: self.name.clone(),
            description: clone_optional_text(&self.description),
            required: self.required,
        }
    }
}

/// The models of a list of prompt arguments.
pub open spec fn arguments_view(arguments: Seq<PromptArgument>) -> Seq<PromptArgumentView> {
    arguments.map_values(|a: PromptArgument| a@)
}

/// A prompt the server offers.
#[derive(Debug, PartialEq)]
pub struct Prompt {
    pub name: String,
    pub description: Option<String>,
    pub arguments: Option<Vec<PromptArgument>>,
}

pub struct PromptView {
    pub name: Seq<char>,
    pub description: Option<Seq<char>>,
    pub arguments: Option<Seq<PromptArgumentView>>,
}

impl View for Prompt {
    type V = PromptView;

    open spec fn view(&self) -> PromptView {
        PromptView {
            name: self.name@,
            description: self.description.deep_view(),
            arguments: match self.arguments {
                Some(arguments) => Some(arguments_view(arguments@)),
                None => None,
            },
        }
    }
}

impl Clone for Prompt {
    fn clone(&self) -> (r: Prompt)
        ensures
            r@ == self@,
    {
        let arguments = match &self.arguments {
            Some(list) => {
                let mut copy: Vec<PromptArgument> = Vec::new();
                let mut i: usize = 0;
                while i < list.len()
                    invariant
                        i <= list.len(),
                        copy.len() == i,
                        forall|k: int| 0 <= k < i ==> copy@[k]@ == list@[k]@,
                    decreases list.len() - i,
                {
                    copy.push(list[i].clone());
                    i += 1;
                }
                assert(arguments_view(copy@) =~= arguments_view(list@));
                Some(copy)
            },
            None => None,
        };
        Prompt {
            name: self.name.clone(),
            description: clone_optional_text(&self.description),
            arguments,
        }
    }
}

/// The result of `tools/list`.
#[derive(Debug, PartialEq)]
pub struct ListToolsResult {
    pub tools: Vec<Tool>,
}

pub struct ListToolsResultView {
    pub tools: Seq<ToolView>,
}

impl View for ListToolsResult {
    type V = ListToolsResultView;

    open spec fn view(&self) -> ListToolsResultView {
        ListToolsResultView { tools: self.tools@.map_values(|t: Tool| t@) }
    }
}

impl Default for ListToolsResult {
    fn default() -> (r: ListToolsResult)
        ensures
            r@.tools == Seq::<ToolView>::empty(),
    {
        let r = ListToolsResult { tools: Vec::new() };
        assert(r@.tools =~= Seq::<ToolView>::empty());
        r
    }
}

/// The result of `resources/list`.
#[derive(Debug, PartialEq)]
pub struct ListResourcesResult {
    pub resources: Vec<Resource>,
}

pub struct ListResourcesResultView {
    pub resources: Seq<ResourceView>,
}

impl View for ListResourcesResult {
    type V = ListResourcesResultView;

    open spec fn view(&self) -> ListResourcesResultView {
        ListResourcesResultView { resources: self.resources@.map_values(|r: Resource| r@) }
    }
}

impl Default for ListResourcesResult {
    fn default() -> (r: ListResourcesResult)
        ensures
            r@.resources == Seq::<ResourceView>::empty(),
    {
        let r = ListResourcesResult { resources: Vec::new() };
        assert(r@.resources =~= Seq::<ResourceView>::empty());
        r
    }
}

/// The result of `prompts/list`.
#[derive(Debug, PartialEq)]
pub struct ListPromptsResult {
    pub prompts: Vec<Prompt>,
}

pub struct ListPromptsResultView {
    pub prompts: Seq<PromptView>,
}

impl View for ListPromptsResult {
    type V = ListPromptsResultView;

    open spec fn view(&self) -> ListPromptsResultView {
        ListPromptsResultView { prompts: self.prompts@.map_values(|p: Prompt| p@) }
    }
}

impl Default for ListPromptsResult {
    fn default() -> (r: ListPromptsResult)
        ensures
            r@.prompts == Seq::<PromptView>::empty(),
    {
        let r = ListPromptsResult { prompts: Vec::new() };
        assert(r@.prompts =~= Seq::<PromptView>::empty());
        r
    }
}

// --- tools/call ---

/// The parameters of `tools/call`.
#[derive(Debug, PartialEq)]
pub struct CallToolRequestParams {
    pub name: String,
    pub arguments: Json,
}

pub struct CallToolRequestParamsView {
    pub name: Seq<char>,
    pub arguments: JsonView,
}

impl View for CallToolRequestParams {
    type V = CallToolRequestParamsView;

    open spec fn view(&self) -> CallToolRequestParamsView {
        CallToolRequestParamsView { name: self.name@, arguments: self.arguments@ }
    }
}

/// One part of a tool's output.
#[derive(Debug, PartialEq)]
pub struct ContentPart {
    pub type_: String,
    pub text: Option<String>,
}

pub struct ContentPartView {
    pub type_: Seq<char>,
    pub text: Option<Seq<char>>,
}

impl View for ContentPart {
    type V = ContentPartView;

    open spec fn view(&self) -> ContentPartView {
        ContentPartView { type_: self.type_@, text: self.text.deep_view() }
    }
}

impl Clone for ContentPart {
    fn clone(&self) -> (r: ContentPart)
        ensures
            r@ == self@,
    {
        ContentPart { type_: self.type_.clone(), text: clone_optional_text(&self.text) }
    }
}

/// The result of `tools/call`. A tool that failed reports so in `is_error`:
/// the response that carries it is still a success response.
#[derive(Debug, PartialEq)]
pub struct CallToolResult {
    pub content: Vec<ContentPart>,
    pub is_error: Option<bool>,
}

pub struct CallToolResultView {
    pub content: Seq<ContentPartView>,
    pub is_error: Option<bool>,
}

impl View for CallToolResult {
    type V = CallToolResultView;

    open spec fn view(&self) -> CallToolResultView {
        CallToolResultView {
            content: self.content@.map_values(|c: ContentPart| c@),
            is_error: self.is_error,
        }
    }
}

// --- Notifications ---

/// The parameters of `initialized`. There are none yet.
#[derive(Clone, Copy, Debug, PartialEq, Eq)]
pub struct InitializedNotificationParams {}

impl View for InitializedNotificationParams {
    type V = InitializedNotificationParams;

    open spec fn view(&self) -> InitializedNotificationParams {
        *self
    }
}

impl Default for InitializedNotificationParams {
    fn default() -> (r: InitializedNotificationParams) {
        InitializedNotificationParams {  }
    }
}

} // verus!
