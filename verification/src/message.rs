//! The classifier: what kind of message a line holds.

use crate::decode::DecodeError;
use crate::decode::FromJson;
use crate::json::option_view;
use crate::json::parsed_json;
use crate::json::Json;
use crate::json::JsonView;
use crate::types::GenericNotification;
use crate::types::GenericNotificationView;
use crate::types::GenericRequest;
use crate::types::GenericRequestView;
use vstd::prelude::*;

verus! {

/// A line that holds neither a request nor a notification.
#[derive(Debug, PartialEq)]
pub enum Malformed {
    /// The line is not JSON at all. No id can be recovered from it.
    Unparseable,
    /// The document carries an `id` but does not have the shape of a request.
    BadRequest { id: Json, error: DecodeError },
    /// The document carries a `method` and no `id`, but does not have the
    /// shape of a notification.
    BadNotification { error: DecodeError },
    /// The document carries neither an `id` nor a `method`.
    Invalid,
}

pub enum MalformedView {
    Unparseable,
    BadRequest { id: JsonView, error: DecodeError },
    BadNotification { error: DecodeError },
    Invalid,
}

impl View for Malformed {
    type V = MalformedView;

    open spec fn view(&self) -> MalformedView {
        match self {
            Malformed::Unparseable => MalformedView::Unparseable,
            Malformed::BadRequest { id, error } => MalformedView::BadRequest {
                id: id@,
                error: *error,
            },
            Malformed::BadNotification { error } => MalformedView::BadNotification {
                error: *error,
            },
            Malformed::Invalid => MalformedView::Invalid,
        }
    }
}

/// A classified line.
#[derive(Debug, PartialEq)]
pub enum Message {
    Request(GenericRequest),
    Notification(GenericNotification),
    Malformed(Malformed),
}

pub enum MessageView {
    Request(GenericRequestView),
    Notification(GenericNotificationView),
    Malformed(MalformedView),
}

impl View for Message {
    type V = MessageView;

    open spec fn view(&self) -> MessageView {
        match self {
            Message::Request(request) => MessageView::Request(request@),
            Message::Notification(notification) => MessageView::Notification(notification@),
            Message::Malformed(malformed) => MessageView::Malformed(malformed@),
        }
    }
}

/// The kind of message that a line holds, given what the line was read as
/// (`None` for a line that is not JSON).
///
/// A document with an `id` is a request, whether or not it has a `method`. A
/// document with a `method` and no `id` is a notification. A document that
/// fails to have the shape of its kind is malformed, and so is every other
/// document.
pub open spec fn classified(parsed: Option<JsonView>) -> MessageView {
    match parsed {
        None => MessageView::Malformed(MalformedView::Unparseable),
        Some(document) => match document.get("id"@) {
            Some(id) => match GenericRequest::decoded(document) {
                Ok(request) => MessageView::Request(request),
                Err(error) => MessageView::Malformed(MalformedView::BadRequest { id, error }),
            },
            None => match document.get("method"@) {
                Some(_) => match GenericNotification::decoded(document) {
                    Ok(notification) => MessageView::Notification(notification),
                    Err(error) => MessageView::Malformed(
                        MalformedView::BadNotification { error },
                    ),
                },
                None => MessageView::Malformed(MalformedView::Invalid),
            },
        },
    }
}

/// Classifies what a line was read as: the document, or `None` for a line
/// that is not JSON.
pub fn classify(parsed: Option<Json>) -> (message: Message)
    ensures
        message@ == classified(option_view(parsed)),
{
    let document = match parsed {
        Some(document) => document,
        None => {
            return Message::Malformed(Malformed::Unparseable);
        },
    };
    match document.get("id") {
        Some(id) => match GenericRequest::from_json(&document) {
            Ok(request) => Message::Request(request),
            Err(error) => Message::Malformed(Malformed::BadRequest { id: id.clone(), error }),
        },
        None => match document.get("method") {
            Some(_) => match GenericNotification::from_json(&document) {
                Ok(notification) => Message::Notification(notification),
                Err(error) => Message::Malformed(Malformed::BadNotification { error }),
            },
            None => Message::Malformed(Malformed::Invalid),
        },
    }
}

/// Reads a line that is not blank as JSON and classifies it.
pub fn classify_line(line: &str) -> (message: Message)
    ensures
        message@ == classified(parsed_json(line@)),
{
    classify(Json::parse(line))
}

/// A document that carries an `id` is never taken for a notification: the
/// `id` decides, whatever else the document holds.
pub proof fn lemma_id_takes_priority(document: JsonView)
    requires
        document.get("id"@) is Some,
    ensures
        !(classified(Some(document)) is Notification),
        classified(Some(document)) matches MessageView::Request(request) ==> Some(request.id)
            == document.get("id"@),
        classified(Some(document)) matches MessageView::Malformed(malformed) ==> malformed
            matches MalformedView::BadRequest { id, .. } && Some(id) == document.get("id"@),
{
}

/// A request that was classified carries the `id` of its document.
pub proof fn lemma_request_keeps_id(document: JsonView)
    ensures
        classified(Some(document)) matches MessageView::Request(request) ==> document.get("id"@)
            == Some(request.id),
{
}

} // verus!
