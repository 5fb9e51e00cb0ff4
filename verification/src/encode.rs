//! How the protocol's data is written as JSON: for each type the document that
//! stands for it, member by member.

use crate::json::items_view;
use crate::json::Json;
use crate::json::JsonView;
use crate::json::ObjectBuilder;
use crate::types::CallToolResult;
use crate::types::CallToolResultView;
use crate::types::ContentPart;
use crate::types::ContentPartView;
use crate::types::ErrorData;
use crate::types::ErrorDataView;
use crate::types::GenericErrorResponse;
use crate::types::GenericErrorResponseView;
use crate::types::GenericResponse;
use crate::types::GenericResponseView;
use crate::types::Implementation;
use crate::types::ImplementationView;
use crate::types::InitializeResult;
use crate::types::InitializeResultView;
use crate::types::ListPromptsResult;
use crate::types::ListPromptsResultView;
use crate::types::ListResourcesResult;
use crate::types::ListResourcesResultView;
use crate::types::ListToolsResult;
use crate::types::ListToolsResultView;
use crate::types::Prompt;
use crate::types::PromptArgument;
use crate::types::PromptArgumentView;
use crate::types::PromptView;
use crate::types::Resource;
use crate::types::ResourceView;
use crate::types::ServerCapabilities;
use crate::types::ServerCapabilitiesView;
use crate::types::Tool;
use crate::types::ToolView;
use vstd::prelude::*;

verus! {

/// A value that is written as a JSON document.
pub trait ToJson: View {
    /// The document that stands for a value with the given model.
    spec fn json_of(model: Self::V) -> JsonView;

    /// Builds the document that stands for this value.
    fn to_json(&self) -> (j: Json)
        ensures
            j@ == Self::json_of(self@),
    ;
}

/// The member `key`, present only where there is a value for it.
pub open spec fn optional_member(key: Seq<char>, value: Option<JsonView>) -> Seq<
    (Seq<char>, JsonView),
> {
    match value {
        Some(v) => seq![(key, v)],
        None => Seq::empty(),
    }
}

/// The document for an optional text, where there is one.
pub open spec fn optional_string(text: Option<Seq<char>>) -> Option<JsonView> {
    match text {
        Some(s) => Some(JsonView::String(s)),
        None => None,
    }
}

/// The document for an optional flag, where there is one.
pub open spec fn optional_bool(flag: Option<bool>) -> Option<JsonView> {
    match flag {
        Some(b) => Some(JsonView::Bool(b)),
        None => None,
    }
}

/// The document itself, or `null` where there is none.
pub open spec fn nullable(document: Option<JsonView>) -> JsonView {
    match document {
        Some(v) => v,
        None => JsonView::Null,
    }
}

/// The array of the documents that stand for the items of a list.
pub fn encode_list<T: ToJson>(list: &Vec<T>) -> (j: Json)
    ensures
        j@ == JsonView::Array(list@.map_values(|t: T| T::json_of(t@))),
{
    let mut items: Vec<Json> = Vec::new();
    let mut i: usize = 0;
    while i < list.len()
        invariant
            i <= list.len(),
            items.len() == i,
            forall|k: int| 0 <= k < i ==> items@[k]@ == T::json_of(list@[k]@),
        decreases list.len() - i,
    {
        let item = list[i].to_json();
        items.push(item);
        i += 1;
    }
    assert(items_view(items@) =~= list@.map_values(|t: T| T::json_of(t@)));
    Json::array(items)
}

/// Adds the member `key` with the given text, where there is one.
fn add_optional_string(builder: &mut ObjectBuilder, key: &str, text: &Option<String>)
    ensures
        final(builder)@ == old(builder)@ + optional_member(key@, optional_string(text.deep_view())),
{
    match text {
        Some(s) => {
            builder.member(key, Json::string(s.as_str()));
            assert(builder@ =~= old(builder)@ + optional_member(
                key@,
                optional_string(text.deep_view()),
            ));
        },
        None => {
            assert(builder@ =~= old(builder)@ + optional_member(
                key@,
                optional_string(text.deep_view()),
            ));
        },
    }
}

/// The document itself, or `null` where there is none.
fn encode_nullable(document: &Option<Json>) -> (j: Json)
    ensures
        j@ == nullable(crate::json::option_view(*document)),
{
    match document {
        Some(v) => v.clone(),
        None => Json::Null,
    }
}

impl ToJson for Json {
    open spec fn json_of(model: JsonView) -> JsonView {
        model
    }

    fn to_json(&self) -> (j: Json) {
        self.clone()
    }
}

impl ToJson for Implementation {
    open spec fn json_of(model: ImplementationView) -> JsonView {
        JsonView::Object(
            seq![
                ("name"@, JsonView::String(model.name)),
                ("version"@, JsonView::String(model.version)),
            ],
        )
    }

    fn to_json(&self) -> (j: Json) {
        let mut b = ObjectBuilder::new();
        b.member("name", Json::string(self.name.as_str()));
        b.member("version", Json::string(self.version.as_str()));
        assert(b@ =~= Self::json_of(self@)->Object_0);
        b.finish()
    }
}

impl ToJson for ServerCapabilities {
    open spec fn json_of(model: ServerCapabilitiesView) -> JsonView {
        JsonView::Object(
            seq![
                ("tools"@, nullable(model.tools)),
                ("resources"@, nullable(model.resources)),
                ("prompts"@, nullable(model.prompts)),
            ],
        )
    }

    fn to_json(&self) -> (j: Json) {
        let mut b = ObjectBuilder::new();
        b.member("tools", encode_nullable(&self.tools));
        b.member("resources", encode_nullable(&self.resources));
        b.member("prompts", encode_nullable(&self.prompts));
        assert(b@ =~= Self::json_of(self@)->Object_0);
        b.finish()
    }
}

impl ToJson for InitializeResult {
    open spec fn json_of(model: InitializeResultView) -> JsonView {
        JsonView::Object(
            seq![
                ("protocolVersion"@, JsonView::String(model.protocol_version)),
                ("capabilities"@, ServerCapabilities::json_of(model.capabilities)),
                ("serverInfo"@, Implementation::json_of(model.server_info)),
            ] + optional_member("instructions"@, optional_string(model.instructions)),
        )
    }

    fn to_json(&self) -> (j: Json) {
        let mut b = ObjectBuilder::new();
        b.member("protocolVersion", Json::string(self.protocol_version.as_str()));
        b.member("capabilities", self.capabilities.to_json());
        b.member("serverInfo", self.server_info.to_json());
        add_optional_string(&mut b, "instructions", &self.instructions);
        assert(b@ =~= Self::json_of(self@)->Object_0);
        b.finish()
    }
}

impl ToJson for Tool {
    open spec fn json_of(model: ToolView) -> JsonView {
        JsonView::Object(
            seq![("name"@, JsonView::String(model.name))] + optional_member(
                "description"@,
                optional_string(model.description),
            ) + seq![("inputSchema"@, model.input_schema)],
        )
    }

    fn to_json(&self) -> (j: Json) {
        let mut b = ObjectBuilder::new();
        b.member("name", Json::string(self.name.as_str()));
        add_optional_string(&mut b, "description", &self.description);
        b.member("inputSchema", self.input_schema.clone());
        assert(b@ =~= Self::json_of(self@)->Object_0);
        b.finish()
    }
}

impl ToJson for Resource {
    open spec fn json_of(model: ResourceView) -> JsonView {
        JsonView::Object(
            seq![
                ("uri"@, JsonView::String(model.uri)),
                ("name"@, JsonView::String(model.name)),
            ] + optional_member("description"@, optional_string(model.description)),
        )
    }

    fn to_json(&self) -> (j: Json) {
        let mut b = ObjectBuilder::new();
        b.member("uri", Json::string(self.uri.as_str()));
        b.member("name", Json::string(self.name.as_str()));
        add_optional_string(&mut b, "description", &self.description);
        assert(b@ =~= Self::json_of(self@)->Object_0);
        b.finish()
    }
}

impl ToJson for PromptArgument {
    open spec fn json_of(model: PromptArgumentView) -> JsonView {
        JsonView::Object(
            seq![("name"@, JsonView::String(model.name))] + optional_member(
                "description"@,
                optional_string(model.description),
            ) + seq![("required"@, JsonView::Bool(model.required))],
        )
    }

    fn to_json(&self) -> (j: Json) {
        let mut b = ObjectBuilder::new();
        b.member("name", Json::string(self.name.as_str()));
        add_optional_string(&mut b, "description", &self.description);
        b.member("required", Json::Bool(self.required));
        assert(b@ =~= Self::json_of(self@)->Object_0);
        b.finish()
    }
}

/// The array for a prompt's arguments, where it has any.
pub open spec fn optional_arguments(arguments: Option<Seq<PromptArgumentView>>) -> Option<
    JsonView,
> {
    match arguments {
        Some(list) => Some(
            JsonView::Array(list.map_values(|a: PromptArgumentView| PromptArgument::json_of(a))),
        ),
        None => None,
    }
}

impl ToJson for Prompt {
    open spec fn json_of(model: PromptView) -> JsonView {
        JsonView::Object(
            seq![("name"@, JsonView::String(model.name))] + optional_member(
                "description"@,
                optional_string(model.description),
            ) + optional_member("arguments"@, optional_arguments(model.arguments)),
        )
    }

    fn to_json(&self) -> (j: Json) {
        let mut b = ObjectBuilder::new();
        b.member("name", Json::string(self.name.as_str()));
        add_optional_string(&mut b, "description", &self.description);
        match &self.arguments {
            Some(list) => {
                let array = encode_list(list);
                assert(array@->Array_0 =~= optional_arguments(self@.arguments)->0->Array_0);
                b.member("arguments", array);
            },
            None => {},
        }
        assert(b@ =~= Self::json_of(self@)->Object_0);
        b.finish()
    }
}

impl ToJson for ListToolsResult {
    open spec fn json_of(model: ListToolsResultView) -> JsonView {
        JsonView::Object(
            seq![
                ("tools"@, JsonView::Array(model.tools.map_values(|t: ToolView| Tool::json_of(t)))),
            ],
        )
    }

    fn to_json(&self) -> (j: Json) {
        let mut b = ObjectBuilder::new();
        let array = encode_list(&self.tools);
        assert(array@->Array_0 =~= self@.tools.map_values(|t: ToolView| Tool::json_of(t)));
        b.member("tools", array);
        assert(b@ =~= Self::json_of(self@)->Object_0);
        b.finish()
    }
}

impl ToJson for ListResourcesResult {
    open spec fn json_of(model: ListResourcesResultView) -> JsonView {
        JsonView::Object(
            seq![
                (
                    "resources"@,
                    JsonView::Array(
                        model.resources.map_values(|r: ResourceView| Resource::json_of(r)),
                    ),
                ),
            ],
        )
    }

    fn to_json(&self) -> (j: Json) {
        let mut b = ObjectBuilder::new();
        let array = encode_list(&self.resources);
        assert(array@->Array_0 =~= self@.resources.map_values(
            |r: ResourceView| Resource::json_of(r),
        ));
        b.member("resources", array);
        assert(b@ =~= Self::json_of(self@)->Object_0);
        b.finish()
    }
}

impl ToJson for ListPromptsResult {
    open spec fn json_of(model: ListPromptsResultView) -> JsonView {
        JsonView::Object(
            seq![
                (
                    "prompts"@,
                    JsonView::Array(model.prompts.map_values(|p: PromptView| Prompt::json_of(p))),
                ),
            ],
        )
    }

    fn to_json(&self) -> (j: Json) {
        let mut b = ObjectBuilder::new();
        let array = encode_list(&self.prompts);
        assert(array@->Array_0 =~= self@.prompts.map_values(|p: PromptView| Prompt::json_of(p)));
        b.member("prompts", array);
        assert(b@ =~= Self::json_of(self@)->Object_0);
        b.finish()
    }
}

impl ToJson for ContentPart {
    open spec fn json_of(model: ContentPartView) -> JsonView {
        JsonView::Object(
            seq![("type"@, JsonView::String(model.type_))] + optional_member(
                "text"@,
                optional_string(model.text),
            ),
        )
    }

    fn to_json(&self) -> (j: Json) {
        let mut b = ObjectBuilder::new();
        b.member("type", Json::string(self.type_.as_str()));
        add_optional_string(&mut b, "text", &self.text);
        assert(b@ =~= Self::json_of(self@)->Object_0);
        b.finish()
    }
}

impl ToJson for CallToolResult {
    open spec fn json_of(model: CallToolResultView) -> JsonView {
        JsonView::Object(
            seq![
                (
                    "content"@,
                    JsonView::Array(
                        model.content.map_values(|c: ContentPartView| ContentPart::json_of(c)),
                    ),
                ),
            ] + optional_member("isError"@, optional_bool(model.is_error)),
        )
    }

    fn to_json(&self) -> (j: Json) {
        let mut b = ObjectBuilder::new();
        let array = encode_list(&self.content);
        assert(array@->Array_0 =~= self@.content.map_values(
            |c: ContentPartView| ContentPart::json_of(c),
        ));
        b.member("content", array);
        match self.is_error {
            Some(flag) => {
                b.member("isError", Json::Bool(flag));
            },
            None => {},
        }
        assert(b@ =~= Self::json_of(self@)->Object_0);
        b.finish()
    }
}

impl ToJson for ErrorData {
    open spec fn json_of(model: ErrorDataView) -> JsonView {
        JsonView::Object(
            seq![
                ("code"@, JsonView::Number(crate::json::number_of(model.code))),
                ("message"@, JsonView::String(model.message)),
            ],
        )
    }

    fn to_json(&self) -> (j: Json) {
        let mut b = ObjectBuilder::new();
        b.member("code", Json::integer(self.code));
        b.member("message", Json::string(self.message.as_str()));
        assert(b@ =~= Self::json_of(self@)->Object_0);
        b.finish()
    }
}

impl<T: ToJson> ToJson for GenericResponse<T> {
    open spec fn json_of(model: GenericResponseView<T::V>) -> JsonView {
        JsonView::Object(
            seq![
                ("jsonrpc"@, JsonView::String(model.jsonrpc)),
                ("id"@, model.id),
                ("result"@, T::json_of(model.result)),
            ],
        )
    }

    fn to_json(&self) -> (j: Json) {
        let mut b = ObjectBuilder::new();
        b.member("jsonrpc", Json::string(self.jsonrpc.as_str()));
        b.member("id", self.id.clone());
        b.member("result", self.result.to_json());
        assert(b@ =~= Self::json_of(self@)->Object_0);
        b.finish()
    }
}

impl ToJson for GenericErrorResponse {
    open spec fn json_of(model: GenericErrorResponseView) -> JsonView {
        JsonView::Object(
            seq![
                ("jsonrpc"@, JsonView::String(model.jsonrpc)),
                ("id"@, model.id),
                ("error"@, ErrorData::json_of(model.error)),
            ],
        )
    }

    fn to_json(&self) -> (j: Json) {
        let mut b = ObjectBuilder::new();
        b.member("jsonrpc", Json::string(self.jsonrpc.as_str()));
        b.member("id", self.id.clone());
        b.member("error", self.error.to_json());
        assert(b@ =~= Self::json_of(self@)->Object_0);
        b.finish()
    }
}

} // verus!
