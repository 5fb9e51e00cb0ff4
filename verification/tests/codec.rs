use mcp_stdio::constants::SUPPORTED_PROTOCOL_VERSION;
use mcp_stdio::decode::DecodeError;
use mcp_stdio::decode::Expected;
use mcp_stdio::decode::Field;
use mcp_stdio::decode::FromJson;
use mcp_stdio::encode::encode_list;
use mcp_stdio::encode::ToJson;
use mcp_stdio::handlers::call_tool;
use mcp_stdio::handlers::create_error_response;
use mcp_stdio::handlers::handle_call_tool;
use mcp_stdio::handlers::handle_initialize;
use mcp_stdio::handlers::handle_initialized;
use mcp_stdio::handlers::handle_list_prompts;
use mcp_stdio::handlers::handle_list_resources;
use mcp_stdio::handlers::handle_list_tools;
use mcp_stdio::handlers::internal_error;
use mcp_stdio::handlers::invalid_params_error;
use mcp_stdio::handlers::invalid_request_error;
use mcp_stdio::handlers::method_not_found_error;
use mcp_stdio::handlers::parse_error;
use mcp_stdio::handlers::HandlerError;
use mcp_stdio::json::Json;
use mcp_stdio::json::ObjectBuilder;
use mcp_stdio::text::char_is_whitespace;
use mcp_stdio::text::join;
use mcp_stdio::text::join3;
use mcp_stdio::text::line_is_blank;
use mcp_stdio::text::str_eq;
use mcp_stdio::types::clone_optional;
use mcp_stdio::types::CallToolRequestParams;
use mcp_stdio::types::CallToolResult;
use mcp_stdio::types::ClientCapabilities;
use mcp_stdio::types::ContentPart;
use mcp_stdio::types::ErrorData;
use mcp_stdio::types::GenericErrorResponse;
use mcp_stdio::types::GenericNotification;
use mcp_stdio::types::GenericRequest;
use mcp_stdio::types::GenericResponse;
use mcp_stdio::types::Implementation;
use mcp_stdio::types::InitializeRequestParams;
use mcp_stdio::types::InitializeResult;
use mcp_stdio::types::InitializedNotificationParams;
use mcp_stdio::types::ListPromptsResult;
use mcp_stdio::types::ListResourcesResult;
use mcp_stdio::types::ListToolsResult;
use mcp_stdio::types::Prompt;
use mcp_stdio::types::PromptArgument;
use mcp_stdio::types::Resource;
use mcp_stdio::types::ServerCapabilities;
use mcp_stdio::types::Tool;

fn text(j: &Json) -> String {
    j.to_text().unwrap()
}

fn parse(s: &str) -> Json {
    Json::parse(s).unwrap()
}

// --- JSON ---

#[test]
fn parse_reads_documents() {
    assert_eq!(Json::parse("null"), Some(Json::Null));
    assert_eq!(Json::parse(" true "), Some(Json::Bool(true)));
    assert_eq!(Json::parse("\"a\\u0041\""), Some(Json::String("aA".to_string())));
    assert_eq!(Json::parse("7"), Some(Json::Number(serde_json::Number::from(7))));
    assert_eq!(
        Json::parse("[1,[],{}]"),
        Some(Json::Array(vec![
            Json::Number(serde_json::Number::from(1)),
            Json::Array(vec![]),
            Json::Object(vec![]),
        ]))
    );
    assert_eq!(
        Json::parse("{\"z\":1,\"a\":{\"k\":null}}"),
        Some(Json::Object(vec![
            ("z".to_string(), Json::Number(serde_json::Number::from(1))),
            ("a".to_string(), Json::Object(vec![("k".to_string(), Json::Null)])),
        ]))
    );
}

#[test]
fn parse_refuses_what_is_not_json() {
    assert_eq!(Json::parse(""), None);
    assert_eq!(Json::parse("not json at all"), None);
    assert_eq!(Json::parse("{\"a\":1"), None);
    assert_eq!(Json::parse("{} {}"), None);
    assert_eq!(Json::parse("{'a':1}"), None);
}

#[test]
fn to_text_writes_compact_json() {
    assert_eq!(text(&Json::Null), "null");
    assert_eq!(text(&Json::Bool(false)), "false");
    assert_eq!(text(&Json::string("a\"b\n")), "\"a\\\"b\\n\"");
    assert_eq!(text(&Json::integer(-32601)), "-32601");
    assert_eq!(text(&Json::integer(0)), "0");
    assert_eq!(text(&Json::integer(i32::MAX)), "2147483647");
    assert_eq!(text(&Json::integer(i32::MIN)), "-2147483648");
    assert_eq!(text(&Json::empty_object()), "{}");
    assert_eq!(text(&Json::array(vec![Json::Null, Json::Bool(true)])), "[null,true]");
    let object = Json::Object(vec![
        ("z".to_string(), Json::integer(1)),
        ("a".to_string(), Json::array(vec![])),
    ]);
    assert_eq!(text(&object), "{\"z\":1,\"a\":[]}");
}

#[test]
fn text_round_trip_keeps_the_document() {
    for s in [
        "null",
        "[1,2.5,-3,\"x\",{\"b\":true,\"a\":[null]}]",
        "{\"jsonrpc\":\"2.0\",\"id\":1,\"result\":{}}",
        "18446744073709551615",
        "-9223372036854775808",
    ] {
        let j = parse(s);
        assert_eq!(text(&j), s);
        assert_eq!(parse(&text(&j)), j);
    }
}

#[test]
fn clone_copies_the_whole_document() {
    let j = parse("{\"a\":[1,{\"b\":\"c\"},null,2.25],\"d\":false}");
    let copy = j.clone();
    assert_eq!(copy, j);
    assert_eq!(text(&copy), text(&j));
    assert_eq!(clone_optional(&Some(j.clone())), Some(j));
    assert_eq!(clone_optional(&None), None);
}

#[test]
fn get_finds_the_first_member() {
    let j = Json::Object(vec![
        ("a".to_string(), Json::integer(1)),
        ("b".to_string(), Json::integer(2)),
        ("a".to_string(), Json::integer(3)),
    ]);
    assert_eq!(j.get("a"), Some(&Json::integer(1)));
    assert_eq!(j.get("b"), Some(&Json::integer(2)));
    assert_eq!(j.get("c"), None);
    assert_eq!(j.get(""), None);
    assert_eq!(Json::array(vec![Json::Null]).get("0"), None);
    assert_eq!(Json::Null.get("a"), None);
}

#[test]
fn json_accessors() {
    assert_eq!(Json::string("x").as_str(), Some("x"));
    assert_eq!(Json::Null.as_str(), None);
    assert_eq!(Json::integer(1).as_str(), None);
    assert!(Json::Null.is_null());
    assert!(!Json::Bool(false).is_null());
    assert!(Json::empty_object().is_object());
    assert!(!Json::array(vec![]).is_object());
}

#[test]
fn object_builder_keeps_order() {
    let mut b = ObjectBuilder::new();
    b.member("z", Json::integer(1));
    b.member("a", Json::Null);
    assert_eq!(
        b.finish(),
        Json::Object(vec![("z".to_string(), Json::integer(1)), ("a".to_string(), Json::Null)])
    );
    assert_eq!(ObjectBuilder::new().finish(), Json::empty_object());
}

// --- Text ---

#[test]
fn whitespace_characters() {
    for c in ['\t', '\n', '\u{b}', '\u{c}', '\r', ' ', '\u{85}', '\u{a0}', '\u{1680}', '\u{2000}',
        '\u{200a}', '\u{2028}', '\u{2029}', '\u{202f}', '\u{205f}', '\u{3000}']
    {
        assert!(char_is_whitespace(c), "{:?}", c);
        assert_eq!(char_is_whitespace(c), c.is_whitespace());
    }
    for c in ['a', '0', '\u{8}', '\u{e}', '\u{200b}', '\u{feff}', '\u{180e}', '\u{2060}'] {
        assert!(!char_is_whitespace(c), "{:?}", c);
        assert_eq!(char_is_whitespace(c), c.is_whitespace());
    }
}

#[test]
fn whitespace_agrees_with_std_everywhere() {
    for u in 0u32..0x11_0000 {
        if let Some(c) = char::from_u32(u) {
            assert_eq!(char_is_whitespace(c), c.is_whitespace(), "{:x}", u);
        }
    }
}

#[test]
fn blank_lines() {
    assert!(line_is_blank(""));
    assert!(line_is_blank(" \t\r\n"));
    assert!(!line_is_blank(" a "));
    assert!(!line_is_blank("{}"));
    for s in ["", " ", "x", " x", "\u{3000}", "\u{200b}"] {
        assert_eq!(line_is_blank(s), s.trim().is_empty());
    }
}

#[test]
fn string_equality_and_concatenation() {
    assert!(str_eq("", ""));
    assert!(str_eq("tools/list", "tools/list"));
    assert!(!str_eq("tools/list", "tools/call"));
    assert!(!str_eq("a", "ab"));
    assert!(!str_eq("é", "e"));
    assert!(str_eq("日本", "日本"));
    assert_eq!(join("ab", "cd"), "abcd");
    assert_eq!(join("", ""), "");
    assert_eq!(join3("a", "é", "c"), "aéc");
}

// --- Decoding ---

#[test]
fn decode_error_descriptions() {
    assert_eq!(DecodeError::NotAnObject.describe(), "expected an object");
    assert_eq!(DecodeError::MissingField(Field::Method).describe(), "missing field `method`");
    assert_eq!(
        DecodeError::WrongType(Field::ProtocolVersion, Expected::String).describe(),
        "field `protocolVersion` must be a string"
    );
    assert_eq!(
        DecodeError::WrongType(Field::Capabilities, Expected::Object).describe(),
        "field `capabilities` must be an object"
    );
}

#[test]
fn field_names() {
    assert_eq!(Field::Jsonrpc.name(), "jsonrpc");
    assert_eq!(Field::Id.name(), "id");
    assert_eq!(Field::Method.name(), "method");
    assert_eq!(Field::Params.name(), "params");
    assert_eq!(Field::ProtocolVersion.name(), "protocolVersion");
    assert_eq!(Field::Capabilities.name(), "capabilities");
    assert_eq!(Field::ClientInfo.name(), "clientInfo");
    assert_eq!(Field::Name.name(), "name");
    assert_eq!(Field::Version.name(), "version");
    assert_eq!(Field::Arguments.name(), "arguments");
}

#[test]
fn decode_request() {
    assert_eq!(
        GenericRequest::from_json(&parse(
            "{\"jsonrpc\":\"2.0\",\"id\":\"a\",\"method\":\"m\",\"params\":[1],\"extra\":1}"
        )),
        Ok(GenericRequest {
            jsonrpc: "2.0".to_string(),
            id: Json::String("a".to_string()),
            method: "m".to_string(),
            params: Some(parse("[1]")),
        })
    );
    assert_eq!(
        GenericRequest::from_json(&parse("{\"jsonrpc\":\"1.0\",\"id\":null,\"method\":\"m\",\"params\":null}")),
        Ok(GenericRequest {
            jsonrpc: "1.0".to_string(),
            id: Json::Null,
            method: "m".to_string(),
            params: None,
        })
    );
    assert_eq!(GenericRequest::from_json(&parse("[]")), Err(DecodeError::NotAnObject));
    assert_eq!(
        GenericRequest::from_json(&parse("{\"id\":1,\"method\":\"m\"}")),
        Err(DecodeError::MissingField(Field::Jsonrpc))
    );
    assert_eq!(
        GenericRequest::from_json(&parse("{\"jsonrpc\":2,\"id\":1,\"method\":\"m\"}")),
        Err(DecodeError::WrongType(Field::Jsonrpc, Expected::String))
    );
    assert_eq!(
        GenericRequest::from_json(&parse("{\"jsonrpc\":\"2.0\",\"method\":\"m\"}")),
        Err(DecodeError::MissingField(Field::Id))
    );
    assert_eq!(
        GenericRequest::from_json(&parse("{\"jsonrpc\":\"2.0\",\"id\":1}")),
        Err(DecodeError::MissingField(Field::Method))
    );
    assert_eq!(
        GenericRequest::from_json(&parse("{\"jsonrpc\":\"2.0\",\"id\":1,\"method\":null}")),
        Err(DecodeError::WrongType(Field::Method, Expected::String))
    );
}

#[test]
fn decode_notification() {
    assert_eq!(
        GenericNotification::from_json(&parse("{\"jsonrpc\":\"2.0\",\"method\":\"m\"}")),
        Ok(GenericNotification { jsonrpc: "2.0".to_string(), method: "m".to_string(), params: None })
    );
    assert_eq!(GenericNotification::from_json(&parse("3")), Err(DecodeError::NotAnObject));
    assert_eq!(
        GenericNotification::from_json(&parse("{\"method\":\"m\"}")),
        Err(DecodeError::MissingField(Field::Jsonrpc))
    );
    assert_eq!(
        GenericNotification::from_json(&parse("{\"jsonrpc\":\"2.0\",\"method\":[]}")),
        Err(DecodeError::WrongType(Field::Method, Expected::String))
    );
}

#[test]
fn decode_initialize_params() {
    let good = parse(
        "{\"protocolVersion\":\"v\",\"capabilities\":{\"x\":1},\"clientInfo\":{\"name\":\"n\",\"version\":\"1\"}}",
    );
    assert_eq!(
        InitializeRequestParams::from_json(&good),
        Ok(InitializeRequestParams {
            protocol_version: "v".to_string(),
            capabilities: ClientCapabilities {},
            client_info: Implementation { name: "n".to_string(), version: "1".to_string() },
        })
    );
    assert_eq!(InitializeRequestParams::from_json(&parse("\"s\"")), Err(DecodeError::NotAnObject));
    assert_eq!(
        InitializeRequestParams::from_json(&parse("{}")),
        Err(DecodeError::MissingField(Field::ProtocolVersion))
    );
    assert_eq!(
        InitializeRequestParams::from_json(&parse("{\"protocolVersion\":\"v\"}")),
        Err(DecodeError::MissingField(Field::Capabilities))
    );
    assert_eq!(
        InitializeRequestParams::from_json(&parse("{\"protocolVersion\":\"v\",\"capabilities\":[]}")),
        Err(DecodeError::WrongType(Field::Capabilities, Expected::Object))
    );
    assert_eq!(
        InitializeRequestParams::from_json(&parse("{\"protocolVersion\":\"v\",\"capabilities\":{}}")),
        Err(DecodeError::MissingField(Field::ClientInfo))
    );
    assert_eq!(
        InitializeRequestParams::from_json(&parse(
            "{\"protocolVersion\":\"v\",\"capabilities\":{},\"clientInfo\":1}"
        )),
        Err(DecodeError::WrongType(Field::ClientInfo, Expected::Object))
    );
    assert_eq!(
        InitializeRequestParams::from_json(&parse(
            "{\"protocolVersion\":\"v\",\"capabilities\":{},\"clientInfo\":{\"name\":\"n\"}}"
        )),
        Err(DecodeError::MissingField(Field::Version))
    );
}

#[test]
fn decode_small_types() {
    assert_eq!(
        Implementation::from_json(&parse("{\"name\":\"n\",\"version\":\"v\"}")),
        Ok(Implementation { name: "n".to_string(), version: "v".to_string() })
    );
    assert_eq!(
        Implementation::from_json(&parse("{\"version\":\"v\"}")),
        Err(DecodeError::MissingField(Field::Name))
    );
    assert_eq!(ClientCapabilities::from_json(&parse("{}")), Ok(ClientCapabilities {}));
    assert_eq!(ClientCapabilities::from_json(&parse("null")), Err(DecodeError::NotAnObject));
    assert_eq!(
        InitializedNotificationParams::from_json(&parse("{\"a\":1}")),
        Ok(InitializedNotificationParams {})
    );
    assert_eq!(
        InitializedNotificationParams::from_json(&parse("[]")),
        Err(DecodeError::NotAnObject)
    );
    assert_eq!(
        CallToolRequestParams::from_json(&parse("{\"name\":\"t\",\"arguments\":null}")),
        Ok(CallToolRequestParams { name: "t".to_string(), arguments: Json::Null })
    );
    assert_eq!(
        CallToolRequestParams::from_json(&parse("{\"arguments\":{}}")),
        Err(DecodeError::MissingField(Field::Name))
    );
}

// --- Encoding ---

#[test]
fn encode_payloads() {
    let tool = Tool {
        name: "t".to_string(),
        description: None,
        input_schema: Json::empty_object(),
    };
    assert_eq!(text(&tool.to_json()), "{\"name\":\"t\",\"inputSchema\":{}}");
    assert_eq!(tool.clone(), tool);
    let resource = Resource {
        uri: "u".to_string(),
        name: "n".to_string(),
        description: Some("d".to_string()),
    };
    assert_eq!(text(&resource.to_json()), "{\"uri\":\"u\",\"name\":\"n\",\"description\":\"d\"}");
    assert_eq!(resource.clone(), resource);
    let argument = PromptArgument { name: "a".to_string(), description: None, required: true };
    assert_eq!(text(&argument.to_json()), "{\"name\":\"a\",\"required\":true}");
    let prompt = Prompt {
        name: "p".to_string(),
        description: Some("d".to_string()),
        arguments: Some(vec![argument.clone(), PromptArgument {
            name: "b".to_string(),
            description: Some("x".to_string()),
            required: false,
        }]),
    };
    assert_eq!(
        text(&prompt.to_json()),
        "{\"name\":\"p\",\"description\":\"d\",\"arguments\":[{\"name\":\"a\",\"required\":true},{\"name\":\"b\",\"description\":\"x\",\"required\":false}]}"
    );
    assert_eq!(prompt.clone(), prompt);
    let part = ContentPart { type_: "text".to_string(), text: None };
    assert_eq!(text(&part.to_json()), "{\"type\":\"text\"}");
    assert_eq!(part.clone(), part);
    let result = CallToolResult { content: vec![part], is_error: Some(false) };
    assert_eq!(text(&result.to_json()), "{\"content\":[{\"type\":\"text\"}],\"isError\":false}");
    assert_eq!(text(&ListToolsResult::default().to_json()), "{\"tools\":[]}");
    assert_eq!(text(&ListResourcesResult::default().to_json()), "{\"resources\":[]}");
    assert_eq!(text(&ListPromptsResult::default().to_json()), "{\"prompts\":[]}");
    assert_eq!(text(&encode_list(&vec![tool.clone(), tool])), "[{\"name\":\"t\",\"inputSchema\":{}},{\"name\":\"t\",\"inputSchema\":{}}]");
    assert_eq!(text(&Json::Bool(true).to_json()), "true");
}

#[test]
fn encode_initialize_result() {
    let result = InitializeResult {
        protocol_version: "v".to_string(),
        capabilities: ServerCapabilities::default(),
        server_info: Implementation { name: "n".to_string(), version: "1".to_string() },
        instructions: Some("read me".to_string()),
    };
    assert_eq!(
        text(&result.to_json()),
        "{\"protocolVersion\":\"v\",\"capabilities\":{\"tools\":null,\"resources\":null,\"prompts\":null},\"serverInfo\":{\"name\":\"n\",\"version\":\"1\"},\"instructions\":\"read me\"}"
    );
}

#[test]
fn encode_responses() {
    let success = GenericResponse {
        jsonrpc: "2.0".to_string(),
        id: Json::integer(1),
        result: Json::empty_object(),
    };
    assert_eq!(text(&success.to_json()), "{\"jsonrpc\":\"2.0\",\"id\":1,\"result\":{}}");
    let typed = GenericResponse {
        jsonrpc: "2.0".to_string(),
        id: Json::Null,
        result: ListToolsResult::default(),
    };
    assert_eq!(text(&typed.to_json()), "{\"jsonrpc\":\"2.0\",\"id\":null,\"result\":{\"tools\":[]}}");
    let error = GenericErrorResponse {
        jsonrpc: "2.0".to_string(),
        id: Json::string("x"),
        error: ErrorData { code: -1, message: "m".to_string() },
    };
    assert_eq!(
        text(&error.to_json()),
        "{\"jsonrpc\":\"2.0\",\"id\":\"x\",\"error\":{\"code\":-1,\"message\":\"m\"}}"
    );
}

#[test]
fn write_message_appends_one_line() {
    let mut out = String::from("before|");
    let message = GenericResponse {
        jsonrpc: "2.0".to_string(),
        id: Json::integer(1),
        result: Json::string("a\nb"),
    };
    assert_eq!(mcp_stdio::stdio::write_message_newline(&mut out, &message), Ok(()));
    assert_eq!(out, "before|{\"jsonrpc\":\"2.0\",\"id\":1,\"result\":\"a\\nb\"}\n");
    assert_eq!(mcp_stdio::stdio::write_message_newline(&mut out, &Json::Null), Ok(()));
    assert_eq!(out, "before|{\"jsonrpc\":\"2.0\",\"id\":1,\"result\":\"a\\nb\"}\nnull\n");
}

// --- Handlers ---

#[test]
fn initialize_answers_with_the_servers_version() {
    let capabilities = ServerCapabilities {
        tools: Some(Json::empty_object()),
        resources: None,
        prompts: Some(Json::Bool(true)),
    };
    let info = Implementation { name: "s".to_string(), version: "9".to_string() };
    let params = InitializeRequestParams {
        protocol_version: "something else".to_string(),
        capabilities: ClientCapabilities::default(),
        client_info: Implementation { name: "c".to_string(), version: "1".to_string() },
    };
    assert_eq!(SUPPORTED_PROTOCOL_VERSION, "2024-11-05");
    assert_eq!(
        handle_initialize(params, &capabilities, &info),
        Ok(InitializeResult {
            protocol_version: "2024-11-05".to_string(),
            capabilities: ServerCapabilities {
                tools: Some(Json::empty_object()),
                resources: None,
                prompts: Some(Json::Bool(true)),
            },
            server_info: Implementation { name: "s".to_string(), version: "9".to_string() },
            instructions: None,
        })
    );
    assert_eq!(capabilities.clone(), capabilities);
    assert_eq!(info.clone(), info);
}

#[test]
fn list_handlers() {
    assert_eq!(handle_initialized(InitializedNotificationParams::default()), Ok(()));
    assert_eq!(
        handle_list_tools(),
        Ok(ListToolsResult {
            tools: vec![Tool {
                name: "dummy_tool_from_rust".to_string(),
                description: Some("A simple test tool.".to_string()),
                input_schema: parse("{\"type\":\"object\",\"properties\":{}}"),
            }],
        })
    );
    assert_eq!(
        handle_list_resources(),
        Ok(ListResourcesResult {
            resources: vec![Resource {
                uri: "mcp://dummy/resource/1".to_string(),
                name: "Dummy Resource".to_string(),
                description: Some("A test resource from Rust".to_string()),
            }],
        })
    );
    assert_eq!(
        handle_list_prompts(),
        Ok(ListPromptsResult {
            prompts: vec![Prompt {
                name: "dummy_prompt".to_string(),
                description: Some("A test prompt from Rust".to_string()),
                arguments: None,
            }],
        })
    );
}

#[test]
fn call_tool_outcomes() {
    assert_eq!(
        call_tool("dummy_tool_from_rust", Some("{\"a\":1}".to_string())),
        Ok(CallToolResult {
            content: vec![ContentPart {
                type_: "text".to_string(),
                text: Some(
                    "dummy_tool_from_rust executed successfully by Rust! Received args: {\"a\":1}"
                        .to_string()
                ),
            }],
            is_error: None,
        })
    );
    assert_eq!(
        call_tool("dummy_tool_from_rust", None),
        Err(HandlerError { message: "the arguments could not be written as JSON".to_string() })
    );
    for rendered in [None, Some("[]".to_string())] {
        assert_eq!(
            call_tool("other", rendered),
            Ok(CallToolResult {
                content: vec![ContentPart {
                    type_: "text".to_string(),
                    text: Some("Error: Tool 'other' not implemented by this server.".to_string()),
                }],
                is_error: Some(true),
            })
        );
    }
    assert_eq!(
        handle_call_tool(CallToolRequestParams {
            name: "dummy_tool_from_rust".to_string(),
            arguments: parse("[1,\"two\"]"),
        }),
        call_tool("dummy_tool_from_rust", Some("[1,\"two\"]".to_string()))
    );
}

#[test]
fn error_responses() {
    let id = Json::integer(4);
    assert_eq!(
        create_error_response(id.clone(), 12, "m".to_string()),
        GenericErrorResponse {
            jsonrpc: "2.0".to_string(),
            id: Json::integer(4),
            error: ErrorData { code: 12, message: "m".to_string() },
        }
    );
    let e = method_not_found_error(id.clone(), "a/b");
    assert_eq!((e.error.code, e.error.message.as_str()), (-32601, "Method not found: a/b"));
    assert_eq!(e.id, id);
    let e = invalid_params_error(id.clone(), "a/b", "why");
    assert_eq!((e.error.code, e.error.message.as_str()), (-32602, "Invalid params for a/b: why"));
    let e = internal_error(id.clone(), "a/b", "why");
    assert_eq!((e.error.code, e.error.message.as_str()), (-32603, "Internal error during a/b: why"));
    let e = invalid_request_error(id.clone(), "why");
    assert_eq!((e.error.code, e.error.message.as_str()), (-32602, "Invalid request: why"));
    let e = parse_error(None, "why");
    assert_eq!((e.error.code, e.error.message.as_str()), (-32700, "Parse error: why"));
    assert_eq!(e.id, Json::Null);
    let e = parse_error(Some(id.clone()), "why");
    assert_eq!(e.id, id);
    assert_eq!(e.error.code, -32700);
}
