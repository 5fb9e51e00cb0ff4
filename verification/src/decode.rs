//! How the protocol's data is read from JSON: for each type the shape a
//! document must have, and the error that a document of another shape gets.

use crate::json::Json;
use crate::json::JsonView;
use crate::text::join3;
use crate::types::CallToolRequestParams;
use crate::types::CallToolRequestParamsView;
use crate::types::ClientCapabilities;
use crate::types::GenericNotification;
use crate::types::GenericNotificationView;
use crate::types::GenericRequest;
use crate::types::GenericRequestView;
use crate::types::Implementation;
use crate::types::ImplementationView;
use crate::types::InitializeRequestParams;
use crate::types::InitializeRequestParamsView;
use crate::types::InitializedNotificationParams;
use vstd::prelude::*;

verus! {

/// The members that the protocol's messages and parameters are read from.
#[derive(Clone, Copy, Debug, PartialEq, Eq)]
pub enum Field {
    Jsonrpc,
    Id,
    Method,
    Params,
    ProtocolVersion,
    Capabilities,
    ClientInfo,
    Name,
    Version,
    Arguments,
}

/// The kind of document that a member must hold.
#[derive(Clone, Copy, Debug, PartialEq, Eq)]
pub enum Expected {
    String,
    Object,
}

/// Why a document does not have the shape of the type it was read as.
#[derive(Clone, Copy, Debug, PartialEq, Eq)]
pub enum DecodeError {
    /// The document is not an object.
    NotAnObject,
    /// The object lacks a member that must be there.
    MissingField(Field),
    /// A member holds a document of the wrong kind.
    WrongType(Field, Expected),
}

impl Field {
    /// The member's key, as it stands in a JSON object.
    pub open spec fn key(self) -> Seq<char> {
        match self {
            Field::Jsonrpc => "jsonrpc"@,
            Field::Id => "id"@,
            Field::Method => "method"@,
            Field::Params => "params"@,
            Field::ProtocolVersion => "protocolVersion"@,
            Field::Capabilities => "capabilities"@,
            Field::ClientInfo => "clientInfo"@,
            Field::Name => "name"@,
            Field::Version => "version"@,
            Field::Arguments => "arguments"@,
        }
    }

    /// The member's key, as it stands in a JSON object.
    pub fn name(self) -> (r: &'static str)
        ensures
            r@ == self.key(),
    {
        match self {
            Field::Jsonrpc => "jsonrpc",
            Field::Id => "id",
            Field::Method => "method",
            Field::Params => "params",
            Field::ProtocolVersion => "protocolVersion",
            Field::Capabilities => "capabilities",
            Field::ClientInfo => "clientInfo",
            Field::Name => "name",
            Field::Version => "version",
            Field::Arguments => "arguments",
        }
    }
}

impl DecodeError {
    /// The error in words, as it stands in an error message.
    pub open spec fn description(self) -> Seq<char> {
        match self {
            DecodeError::NotAnObject => "expected an object"@,
            DecodeError::MissingField(field) => "missing field `"@ + field.key() + "`"@,
            DecodeError::WrongType(field, Expected::String) => "field `"@ + field.key()
                + "` must be a string"@,
            DecodeError::WrongType(field, Expected::Object) => "field `"@ + field.key()
                + "` must be an object"@,
        }
    }

    /// The error in words, as it stands in an error message.
    pub fn describe(&self) -> (r: String)
        ensures
            r@ == self.description(),
    {
        match self {
            DecodeError::NotAnObject => "expected an object".to_owned(),
            DecodeError::MissingField(field) => join3("missing field `", field.name(), "`"),
            DecodeError::WrongType(field, Expected::String) => join3(
                "field `",
                field.name(),
                "` must be a string",
            ),
            DecodeError::WrongType(field, Expected::Object) => join3(
                "field `",
                field.name(),
                "` must be an object",
            ),
        }
    }
}

/// The member `field` of a document, which must be there.
pub open spec fn required(document: JsonView, field: Field) -> Result<JsonView, DecodeError> {
    match document.get(field.key()) {
        Some(value) => Ok(value),
        None => Err(DecodeError::MissingField(field)),
    }
}

/// The text of the member `field`, which must be there and hold a string.
pub open spec fn required_string(document: JsonView, field: Field) -> Result<
    Seq<char>,
    DecodeError,
> {
    match document.get(field.key()) {
        Some(JsonView::String(text)) => Ok(text),
        Some(_) => Err(DecodeError::WrongType(field, Expected::String)),
        None => Err(DecodeError::MissingField(field)),
    }
}

/// The member `field`, which must be there and hold an object.
pub open spec fn required_object(document: JsonView, field: Field) -> Result<
    JsonView,
    DecodeError,
> {
    match document.get(field.key()) {
        Some(JsonView::Object(members)) => Ok(JsonView::Object(members)),
        Some(_) => Err(DecodeError::WrongType(field, Expected::Object)),
        None => Err(DecodeError::MissingField(field)),
    }
}

/// The member `field` where there is one that is not `null`.
pub open spec fn optional(document: JsonView, field: Field) -> Option<JsonView> {
    match document.get(field.key()) {
        Some(JsonView::Null) => None,
        Some(value) => Some(value),
        None => None,
    }
}

fn read_required(document: &Json, field: Field) -> (r: Result<&Json, DecodeError>)
    ensures
        match r {
            Ok(value) => required(document@, field) == Ok::<JsonView, DecodeError>(value@),
            Err(e) => required(document@, field) == Err::<JsonView, DecodeError>(e),
        },
{
    match document.get(field.name()) {
        Some(value) => Ok(value),
        None => Err(DecodeError::MissingField(field)),
    }
}

fn read_required_string(document: &Json, field: Field) -> (r: Result<String, DecodeError>)
    ensures
        match r {
            Ok(text) => required_string(document@, field) == Ok::<Seq<char>, DecodeError>(text@),
            Err(e) => required_string(document@, field) == Err::<Seq<char>, DecodeError>(e),
        },
{
    match document.get(field.name()) {
        Some(value) => match value.as_str() {
            Some(text) => Ok(text.to_owned()),
            None => Err(DecodeError::WrongType(field, Expected::String)),
        },
        None => Err(DecodeError::MissingField(field)),
    }
}

fn read_required_object(document: &Json, field: Field) -> (r: Result<&Json, DecodeError>)
    ensures
        match r {
            Ok(value) => required_object(document@, field) == Ok::<JsonView, DecodeError>(value@),
            Err(e) => required_object(document@, field) == Err::<JsonView, DecodeError>(e),
        },
{
    match document.get(field.name()) {
        Some(value) => if value.is_object() {
            Ok(value)
        } else {
            Err(DecodeError::WrongType(field, Expected::Object))
        },
        None => Err(DecodeError::MissingField(field)),
    }
}

fn read_optional(document: &Json, field: Field) -> (r: Option<Json>)
    ensures
        crate::json::option_view(r) == optional(document@, field),
{
    match document.get(field.name()) {
        Some(value) => if value.is_null() {
            None
        } else {
            Some(value.clone())
        },
        None => None,
    }
}

/// A value that is read from a JSON document.
pub trait FromJson: View + Sized {
    /// What a document is read as: the model of the value, or the first thing
    /// amiss with the document.
    spec fn decoded(document: JsonView) -> Result<Self::V, DecodeError>;

    /// Reads a value from a document.
    fn from_json(document: &Json) -> (r: Result<Self, DecodeError>)
        ensures
            match r {
                Ok(value) => Self::decoded(document@) == Ok::<Self::V, DecodeError>(value@),
                Err(e) => Self::decoded(document@) == Err::<Self::V, DecodeError>(e),
            },
    ;
}

impl FromJson for GenericRequest {
    /// A request is an object with a string `jsonrpc`, an `id` of any kind
    /// and a string `method`; `params` may be missing, and `null` counts as
    /// missing. Other members are ignored.
    open spec fn decoded(document: JsonView) -> Result<GenericRequestView, DecodeError> {
        if !(document is Object) {
            Err(DecodeError::NotAnObject)
        } else {
            match required_string(document, Field::Jsonrpc) {
                Err(e) => Err(e),
                Ok(jsonrpc) => match required(document, Field::Id) {
                    Err(e) => Err(e),
                    Ok(id) => match required_string(document, Field::Method) {
                        Err(e) => Err(e),
                        Ok(method) => Ok(
                            GenericRequestView {
                                jsonrpc,
                                id,
                                method,
                                params: optional(document, Field::Params),
                            },
                        ),
                    },
                },
            }
        }
    }

    fn from_json(document: &Json) -> (r: Result<GenericRequest, DecodeError>) {
        if !document.is_object() {
            return Err(DecodeError::NotAnObject);
        }
        let jsonrpc = match read_required_string(document, Field::Jsonrpc) {
            Ok(text) => text,
            Err(e) => { return Err(e); },
        };
        let id = match read_required(document, Field::Id) {
            Ok(value) => value.clone(),
            Err(e) => { return Err(e); },
        };
        let method = match read_required_string(document, Field::Method) {
            Ok(text) => text,
            Err(e) => { return Err(e); },
        };
        let params = read_optional(document, Field::Params);
        Ok(GenericRequest { jsonrpc, id, method, params })
    }
}

impl FromJson for GenericNotification {
    /// A notification is an object with a string `jsonrpc` and a string
    /// `method`; `params` may be missing, and `null` counts as missing. Other
    /// members are ignored.
    open spec fn decoded(document: JsonView) -> Result<GenericNotificationView, DecodeError> {
        if !(document is Object) {
            Err(DecodeError::NotAnObject)
        } else {
            match required_string(document, Field::Jsonrpc) {
                Err(e) => Err(e),
                Ok(jsonrpc) => match required_string(document, Field::Method) {
                    Err(e) => Err(e),
                    Ok(method) => Ok(
                        GenericNotificationView {
                            jsonrpc,
                            method,
                            params: optional(document, Field::Params),
                        },
                    ),
                },
            }
        }
    }

    fn from_json(document: &Json) -> (r: Result<GenericNotification, DecodeError>) {
        if !document.is_object() {
            return Err(DecodeError::NotAnObject);
        }
        let jsonrpc = match read_required_string(document, Field::Jsonrpc) {
            Ok(text) => text,
            Err(e) => { return Err(e); },
        };
        let method = match read_required_string(document, Field::Method) {
            Ok(text) => text,
            Err(e) => { return Err(e); },
        };
        let params = read_optional(document, Field::Params);
        Ok(GenericNotification { jsonrpc, method, params })
    }
}

impl FromJson for Implementation {
    /// An object with a string `name` and a string `version`.
    open spec fn decoded(document: JsonView) -> Result<ImplementationView, DecodeError> {
        if !(document is Object) {
            Err(DecodeError::NotAnObject)
        } else {
            match required_string(document, Field::Name) {
                Err(e) => Err(e),
                Ok(name) => match required_string(document, Field::Version) {
                    Err(e) => Err(e),
                    Ok(version) => Ok(ImplementationView { name, version }),
                },
            }
        }
    }

    fn from_json(document: &Json) -> (r: Result<Implementation, DecodeError>) {
        if !document.is_object() {
            return Err(DecodeError::NotAnObject);
        }
        let name = match read_required_string(document, Field::Name) {
            Ok(text) => text,
            Err(e) => { return Err(e); },
        };
        let version = match read_required_string(document, Field::Version) {
            Ok(text) => text,
            Err(e) => { return Err(e); },
        };
        Ok(Implementation { name, version })
    }
}

impl FromJson for ClientCapabilities {
    /// Any object.
    open spec fn decoded(document: JsonView) -> Result<ClientCapabilities, DecodeError> {
        if document is Object {
            Ok(ClientCapabilities {  })
        } else {
            Err(DecodeError::NotAnObject)
        }
    }

    fn from_json(document: &Json) -> (r: Result<ClientCapabilities, DecodeError>) {
        if document.is_object() {
            Ok(ClientCapabilities {  })
        } else {
            Err(DecodeError::NotAnObject)
        }
    }
}

impl FromJson for InitializeRequestParams {
    /// An object with a string `protocolVersion`, an object `capabilities`
    /// and a `clientInfo` that names the client.
    open spec fn decoded(document: JsonView) -> Result<InitializeRequestParamsView, DecodeError> {
        if !(document is Object) {
            Err(DecodeError::NotAnObject)
        } else {
            match required_string(document, Field::ProtocolVersion) {
                Err(e) => Err(e),
                Ok(protocol_version) => match required_object(document, Field::Capabilities) {
                    Err(e) => Err(e),
                    Ok(_) => match required_object(document, Field::ClientInfo) {
                        Err(e) => Err(e),
                        Ok(info) => match Implementation::decoded(info) {
                            Err(e) => Err(e),
                            Ok(client_info) => Ok(
                                InitializeRequestParamsView {
                                    protocol_version,
                                    capabilities: ClientCapabilities {  },
                                    client_info,
                                },
                            ),
                        },
                    },
                },
            }
        }
    }

    fn from_json(document: &Json) -> (r: Result<InitializeRequestParams, DecodeError>) {
        if !document.is_object() {
            return Err(DecodeError::NotAnObject);
        }
        let protocol_version = match read_required_string(document, Field::ProtocolVersion) {
            Ok(text) => text,
            Err(e) => { return Err(e); },
        };
        match read_required_object(document, Field::Capabilities) {
            Ok(_) => {},
            Err(e) => { return Err(e); },
        }
        let info = match read_required_object(document, Field::ClientInfo) {
            Ok(value) => value,
            Err(e) => { return Err(e); },
        };
        let client_info = match Implementation::from_json(info) {
            Ok(value) => value,
            Err(e) => { return Err(e); },
        };
        Ok(
            InitializeRequestParams {
                protocol_version,
                capabilities: ClientCapabilities {  },
                client_info,
            },
        )
    }
}

impl FromJson for CallToolRequestParams {
    /// An object with a string `name` and `arguments` of any kind.
    open spec fn decoded(document: JsonView) -> Result<CallToolRequestParamsView, DecodeError> {
        if !(document is Object) {
            Err(DecodeError::NotAnObject)
        } else {
            match required_string(document, Field::Name) {
                Err(e) => Err(e),
                Ok(name) => match required(document, Field::Arguments) {
                    Err(e) => Err(e),
                    Ok(arguments) => Ok(CallToolRequestParamsView { name, arguments }),
                },
            }
        }
    }

    fn from_json(document: &Json) -> (r: Result<CallToolRequestParams, DecodeError>) {
        if !document.is_object() {
            return Err(DecodeError::NotAnObject);
        }
        let name = match read_required_string(document, Field::Name) {
            Ok(text) => text,
            Err(e) => { return Err(e); },
        };
        let arguments = match read_required(document, Field::Arguments) {
            Ok(value) => value.clone(),
            Err(e) => { return Err(e); },
        };
        Ok(CallToolRequestParams { name, arguments })
    }
}

impl FromJson for InitializedNotificationParams {
    /// Any object.
    open spec fn decoded(document: JsonView) -> Result<
        InitializedNotificationParams,
        DecodeError,
    > {
        if document is Object {
            Ok(InitializedNotificationParams {  })
        } else {
            Err(DecodeError::NotAnObject)
        }
    }

    fn from_json(document: &Json) -> (r: Result<InitializedNotificationParams, DecodeError>) {
        if document.is_object() {
            Ok(InitializedNotificationParams {  })
        } else {
            Err(DecodeError::NotAnObject)
        }
    }
}

} // verus!
