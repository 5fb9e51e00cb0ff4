use mcp_stdio::decode::DecodeError;
use mcp_stdio::decode::Expected;
use mcp_stdio::decode::Field;
use mcp_stdio::handlers::HandlerError;
use mcp_stdio::json::Json;
use mcp_stdio::message::classify;
use mcp_stdio::message::classify_line;
use mcp_stdio::message::Malformed;
use mcp_stdio::message::Message;
use mcp_stdio::server::conclude;
use mcp_stdio::server::dispatch;
use mcp_stdio::server::handle_notification;
use mcp_stdio::server::handle_request;
use mcp_stdio::server::run_handler;
use mcp_stdio::server::write_reply;
use mcp_stdio::server::Handled;
use mcp_stdio::server::LineOutcome;
use mcp_stdio::server::NotificationMethod;
use mcp_stdio::server::NotificationOutcome;
use mcp_stdio::server::Reply;
use mcp_stdio::server::RequestMethod;
use mcp_stdio::server::Response;
use mcp_stdio::server::ServerState;
use mcp_stdio::server::Silence;
use mcp_stdio::types::GenericNotification;
use mcp_stdio::types::GenericRequest;

fn number(n: i64) -> Json {
    Json::Number(serde_json::Number::from(n))
}

fn request(id: Json, method: &str, params: Option<Json>) -> GenericRequest {
    GenericRequest { jsonrpc: "2.0".to_string(), id, method: method.to_string(), params }
}

fn notification(method: &str, params: Option<Json>) -> GenericNotification {
    GenericNotification { jsonrpc: "2.0".to_string(), method: method.to_string(), params }
}

#[test]
fn request_methods_by_name() {
    assert_eq!(RequestMethod::from_name("initialize"), Some(RequestMethod::Initialize));
    assert_eq!(RequestMethod::from_name("tools/list"), Some(RequestMethod::ToolsList));
    assert_eq!(RequestMethod::from_name("resources/list"), Some(RequestMethod::ResourcesList));
    assert_eq!(RequestMethod::from_name("prompts/list"), Some(RequestMethod::PromptsList));
    assert_eq!(RequestMethod::from_name("tools/call"), Some(RequestMethod::ToolsCall));
    assert_eq!(RequestMethod::from_name("Tools/List"), None);
    assert_eq!(RequestMethod::from_name(""), None);
    assert_eq!(RequestMethod::from_name("initialized"), None);
    for m in [
        RequestMethod::Initialize,
        RequestMethod::ToolsList,
        RequestMethod::ResourcesList,
        RequestMethod::PromptsList,
        RequestMethod::ToolsCall,
    ] {
        assert_eq!(RequestMethod::from_name(m.as_str()), Some(m));
    }
}

#[test]
fn notification_methods_by_name() {
    assert_eq!(NotificationMethod::from_name("initialized"), Some(NotificationMethod::Initialized));
    assert_eq!(
        NotificationMethod::from_name("$/cancelRequest"),
        Some(NotificationMethod::CancelRequest)
    );
    assert_eq!(NotificationMethod::from_name("tools/list"), None);
}

#[test]
fn response_carries_the_request_id() {
    let state = ServerState::new();
    for method in ["tools/list", "resources/list", "prompts/list", "initialize", "tools/call", "x"] {
        let id = Json::String(format!("id-{}", method));
        let response = handle_request(&request(id.clone(), method, None), &state);
        match response {
            Response::Success(r) => assert_eq!(r.id, id),
            Response::Error(e) => assert_eq!(e.id, id),
        }
    }
}

#[test]
fn unknown_method_gets_method_not_found() {
    let state = ServerState::new();
    match handle_request(&request(number(5), "frobnicate", None), &state) {
        Response::Error(e) => {
            assert_eq!(e.jsonrpc, "2.0");
            assert_eq!(e.id, number(5));
            assert_eq!(e.error.code, -32601);
            assert_eq!(e.error.message, "Method not found: frobnicate");
        }
        other => panic!("{:?}", other),
    }
}

#[test]
fn missing_params_get_invalid_params() {
    let state = ServerState::new();
    for method in ["initialize", "tools/call"] {
        match handle_request(&request(number(1), method, None), &state) {
            Response::Error(e) => {
                assert_eq!(e.error.code, -32602);
                assert_eq!(
                    e.error.message,
                    format!("Invalid params for {}: missing params field", method)
                );
            }
            other => panic!("{:?}", other),
        }
    }
}

#[test]
fn lists_ignore_their_params() {
    let state = ServerState::new();
    let with = handle_request(&request(number(1), "tools/list", Some(number(3))), &state);
    let without = handle_request(&request(number(1), "tools/list", None), &state);
    assert_eq!(with, without);
    assert!(matches!(with, Response::Success(_)));
}

#[test]
fn run_handler_outcomes() {
    let state = ServerState::new();
    assert_eq!(run_handler(RequestMethod::Initialize, &None, &state), Handled::MissingParams);
    assert_eq!(
        run_handler(RequestMethod::ToolsCall, &Some(Json::Bool(true)), &state),
        Handled::InvalidParams(DecodeError::NotAnObject)
    );
    assert!(matches!(run_handler(RequestMethod::PromptsList, &None, &state), Handled::Done(Ok(_))));
}

#[test]
fn conclude_each_outcome() {
    let id = Json::String("k".to_string());
    match conclude(id.clone(), RequestMethod::ToolsCall, Handled::MissingParams) {
        Response::Error(e) => {
            assert_eq!(e.error.code, -32602);
            assert_eq!(e.error.message, "Invalid params for tools/call: missing params field");
        }
        other => panic!("{:?}", other),
    }
    match conclude(
        id.clone(),
        RequestMethod::Initialize,
        Handled::InvalidParams(DecodeError::WrongType(Field::ClientInfo, Expected::Object)),
    ) {
        Response::Error(e) => {
            assert_eq!(e.error.code, -32602);
            assert_eq!(
                e.error.message,
                "Invalid params for initialize: field `clientInfo` must be an object"
            );
        }
        other => panic!("{:?}", other),
    }
    match conclude(id.clone(), RequestMethod::ToolsList, Handled::Done(Ok(Json::Bool(true)))) {
        Response::Success(r) => {
            assert_eq!(r.jsonrpc, "2.0");
            assert_eq!(r.id, id);
            assert_eq!(r.result, Json::Bool(true));
        }
        other => panic!("{:?}", other),
    }
    match conclude(
        id.clone(),
        RequestMethod::ToolsList,
        Handled::Done(Err(HandlerError { message: "boom".to_string() })),
    ) {
        Response::Error(e) => {
            assert_eq!(e.id, id);
            assert_eq!(e.error.code, -32603);
            assert_eq!(e.error.message, "Internal error during tools/list: boom");
        }
        other => panic!("{:?}", other),
    }
}

#[test]
fn notifications_outcomes() {
    let state = ServerState::new();
    assert_eq!(
        handle_notification(&notification("initialized", None), &state),
        NotificationOutcome::Handled
    );
    assert_eq!(
        handle_notification(&notification("initialized", Some(Json::empty_object())), &state),
        NotificationOutcome::Handled
    );
    assert_eq!(
        handle_notification(&notification("initialized", Some(number(1))), &state),
        NotificationOutcome::InvalidParams(DecodeError::NotAnObject)
    );
    assert_eq!(
        handle_notification(&notification("$/cancelRequest", None), &state),
        NotificationOutcome::CancelNotImplemented
    );
    assert_eq!(
        handle_notification(&notification("tools/list", None), &state),
        NotificationOutcome::UnknownMethod
    );
}

#[test]
fn notifications_are_never_answered() {
    let state = ServerState::new();
    for line in [
        r#"{"jsonrpc":"2.0","method":"initialized"}"#,
        r#"{"jsonrpc":"2.0","method":"initialized","params":5}"#,
        r#"{"jsonrpc":"2.0","method":"$/cancelRequest"}"#,
        r#"{"jsonrpc":"2.0","method":"tools/list"}"#,
        r#"{"method":"initialized"}"#,
        r#"{"jsonrpc":2,"method":"initialized"}"#,
        r#"{"jsonrpc":"2.0","method":null}"#,
    ] {
        let reply = dispatch(classify_line(line), &state);
        assert!(matches!(reply, Reply::Silent(_)), "{}", line);
        assert!(matches!(write_reply(reply), LineOutcome::Silent(_)), "{}", line);
    }
}

#[test]
fn classify_each_kind() {
    assert_eq!(classify(None), Message::Malformed(Malformed::Unparseable));
    assert_eq!(classify(Some(Json::Null)), Message::Malformed(Malformed::Invalid));
    assert_eq!(classify(Some(Json::empty_object())), Message::Malformed(Malformed::Invalid));
    let both = Json::Object(vec![
        ("jsonrpc".to_string(), Json::String("2.0".to_string())),
        ("method".to_string(), Json::String("m".to_string())),
        ("id".to_string(), Json::Null),
    ]);
    assert_eq!(
        classify(Some(both)),
        Message::Request(GenericRequest {
            jsonrpc: "2.0".to_string(),
            id: Json::Null,
            method: "m".to_string(),
            params: None,
        })
    );
    let note = Json::Object(vec![
        ("jsonrpc".to_string(), Json::String("2.0".to_string())),
        ("method".to_string(), Json::String("m".to_string())),
        ("params".to_string(), Json::Array(vec![number(1)])),
    ]);
    assert_eq!(
        classify(Some(note)),
        Message::Notification(GenericNotification {
            jsonrpc: "2.0".to_string(),
            method: "m".to_string(),
            params: Some(Json::Array(vec![number(1)])),
        })
    );
    let bad_request = Json::Object(vec![("id".to_string(), number(4))]);
    assert_eq!(
        classify(Some(bad_request)),
        Message::Malformed(Malformed::BadRequest {
            id: number(4),
            error: DecodeError::MissingField(Field::Jsonrpc),
        })
    );
    let bad_note = Json::Object(vec![("method".to_string(), number(4))]);
    assert_eq!(
        classify(Some(bad_note)),
        Message::Malformed(Malformed::BadNotification {
            error: DecodeError::MissingField(Field::Jsonrpc),
        })
    );
}

#[test]
fn dispatch_malformed() {
    let state = ServerState::new();
    match dispatch(Message::Malformed(Malformed::Unparseable), &state) {
        Reply::Answer(Response::Error(e)) => {
            assert_eq!(e.id, Json::Null);
            assert_eq!(e.error.code, -32700);
            assert_eq!(e.error.message, "Parse error: Invalid JSON received");
        }
        other => panic!("{:?}", other),
    }
    match dispatch(
        Message::Malformed(Malformed::BadRequest {
            id: number(3),
            error: DecodeError::WrongType(Field::Method, Expected::String),
        }),
        &state,
    ) {
        Reply::Answer(Response::Error(e)) => {
            assert_eq!(e.id, number(3));
            assert_eq!(e.error.code, -32602);
            assert_eq!(e.error.message, "Invalid request: field `method` must be a string");
        }
        other => panic!("{:?}", other),
    }
    assert_eq!(
        dispatch(
            Message::Malformed(Malformed::BadNotification { error: DecodeError::NotAnObject }),
            &state
        ),
        Reply::Silent(Silence::BadNotification(DecodeError::NotAnObject))
    );
    assert_eq!(
        dispatch(Message::Malformed(Malformed::Invalid), &state),
        Reply::Silent(Silence::Invalid)
    );
}
