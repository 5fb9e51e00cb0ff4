//! What holds of the server as a whole, stated over the models that the
//! contracts of the single functions use.

use crate::constants::INVALID_PARAMS;
use crate::constants::METHOD_NOT_FOUND;
use crate::encode::ToJson;
use crate::frame::after_first_line;
use crate::frame::first_line;
use crate::frame::first_line_feed;
use crate::frame::has_line;
use crate::frame::is_first_line_feed;
use crate::handlers::listed_tools;
use crate::json::parsed_json;
use crate::json::Json;
use crate::json::JsonView;
use crate::message::classified;
use crate::message::MessageView;
use crate::server::dispatched;
use crate::server::handled;
use crate::server::line_outcome;
use crate::server::request_reply;
use crate::server::stepped;
use crate::session::line_event;
use crate::session::supplied;
use crate::session::OutputView;
use crate::server::ActionView;
use crate::server::HandledView;
use crate::server::LineOutcomeView;
use crate::server::Phase;
use crate::server::EventView;
use crate::server::RequestMethod;
use crate::server::Response;
use crate::server::ResponseView;
use crate::server::ServerStateView;
use crate::stdio::framed;
use crate::text::is_blank;
use crate::types::GenericRequestView;
use crate::types::GenericResponse;
use crate::types::GenericResponseView;
use crate::types::ListToolsResult;
use vstd::prelude::*;

verus! {

/// Every request gets a response that carries the request's own id, whatever
/// its method and parameters.
pub proof fn lemma_reply_keeps_id(request: GenericRequestView, state: ServerStateView)
    ensures
        request_reply(request, state).id() == request.id,
{
}

/// A request for a registered method whose handler ran to a result gets a
/// success response with the request's id and that result.
pub proof fn lemma_valid_request_succeeds(
    request: GenericRequestView,
    state: ServerStateView,
    method: RequestMethod,
    result: JsonView,
)
    requires
        RequestMethod::named(request.method) == Some(method),
        handled(method, request.params, state) == HandledView::Done(Ok(result)),
    ensures
        request_reply(request, state) matches ResponseView::Success(response) && response.id
            == request.id && response.result == result,
{
}

/// A line that holds a request leads to exactly one response line, which is
/// the text of the request's response; the server writes it next. The one
/// other outcome is a response without JSON text, on which the server stops.
pub proof fn lemma_request_line_is_answered_once(
    line: Seq<char>,
    state: ServerStateView,
    request: GenericRequestView,
)
    requires
        !is_blank(line),
        classified(parsed_json(line)) == MessageView::Request(request),
    ensures
        match framed(Response::json_of(request_reply(request, state))) {
            Some(text) => {
                &&& line_outcome(line, state) == LineOutcomeView::Respond(text)
                &&& stepped(Phase::ReadingLine, EventView::Line(line), state).next
                    == Phase::Writing
                &&& stepped(Phase::ReadingLine, EventView::Line(line), state).action
                    == ActionView::WriteLine(text)
            },
            None => {
                &&& line_outcome(line, state) == LineOutcomeView::Unwritable
                &&& stepped(Phase::ReadingLine, EventView::Line(line), state).next
                    == Phase::ShutdownFault
            },
        },
{
}

/// A request whose method is not registered gets an error response with the
/// method-not-found code and the request's id.
pub proof fn lemma_unknown_method_is_refused(request: GenericRequestView, state: ServerStateView)
    requires
        RequestMethod::named(request.method) is None,
    ensures
        request_reply(request, state) matches ResponseView::Error(response) && response.id
            == request.id && response.error.code == METHOD_NOT_FOUND,
{
}

/// A request for a method that needs parameters, and that carries none, gets
/// an error response with the invalid-params code and the request's id.
pub proof fn lemma_missing_params_are_refused(
    request: GenericRequestView,
    state: ServerStateView,
    method: RequestMethod,
)
    requires
        RequestMethod::named(request.method) == Some(method),
        method.needs_params(),
        request.params is None,
    ensures
        request_reply(request, state) matches ResponseView::Error(response) && response.id
            == request.id && response.error.code == INVALID_PARAMS,
{
}

/// A notification is never answered, whether its document has the shape of
/// one or not, and whatever its handler comes to: no line is written for it,
/// and the server goes on to read the next line.
pub proof fn lemma_notification_is_never_answered(line: Seq<char>, state: ServerStateView)
    requires
        !is_blank(line),
        classified(parsed_json(line)) is Notification || (classified(parsed_json(line))
            matches MessageView::Malformed(malformed) && malformed is BadNotification),
    ensures
        dispatched(classified(parsed_json(line)), state) is Silent,
        line_outcome(line, state) is Silent,
        stepped(Phase::ReadingLine, EventView::Line(line), state).next == Phase::ReadingLine,
        stepped(Phase::ReadingLine, EventView::Line(line), state).action == ActionView::ReadLine,
{
}

/// The document of a success response is an object with exactly the members
/// `jsonrpc`, `id` and `result`, in this order.
pub proof fn lemma_success_response_members(response: GenericResponseView<JsonView>)
    ensures
        GenericResponse::<Json>::json_of(response) is Object,
        GenericResponse::<Json>::json_of(response).keys() == seq![
            "jsonrpc"@,
            "id"@,
            "result"@,
        ],
        GenericResponse::<Json>::json_of(response).get("id"@) == Some(response.id),
{
    let document = GenericResponse::<Json>::json_of(response);
    assert(document.keys() =~= seq!["jsonrpc"@, "id"@, "result"@]);
    reveal_strlit("jsonrpc");
    reveal_strlit("id");
    assert("jsonrpc"@.len() != "id"@.len());
    let members = document->Object_0;
    assert(members.drop_first()[0] == members[1]);
    reveal_with_fuel(crate::json::lookup, 3);
}

/// The name `tools/list` is registered, for the list of tools.
pub proof fn lemma_tools_list_is_registered()
    ensures
        RequestMethod::named("tools/list"@) == Some(RequestMethod::ToolsList),
{
    reveal_strlit("tools/list");
    reveal_strlit("initialize");
    assert("tools/list"@[0] != "initialize"@[0]);
}

/// Two requests for `tools/list` get the same result, whatever their ids and
/// parameters and whatever was asked before: the answer depends on nothing
/// but the method.
pub proof fn lemma_tools_list_is_repeatable(
    first: GenericRequestView,
    second: GenericRequestView,
    state: ServerStateView,
)
    requires
        first.method == "tools/list"@,
        second.method == "tools/list"@,
    ensures
        request_reply(first, state) matches ResponseView::Success(a) && request_reply(
            second,
            state,
        ) matches ResponseView::Success(b) && a.result == b.result && a.result
            == ListToolsResult::json_of(listed_tools()),
{
    lemma_tools_list_is_registered();
}

/// The session asks the transport for more bytes only when the input has
/// not ended and no whole line is pending: every line that came in is dealt
/// with before the next read. It then waits for a line.
pub proof fn lemma_session_reads_only_without_a_line(
    pending: Seq<u8>,
    ended: bool,
    state: ServerStateView,
)
    ensures
        supplied(pending, ended, state).1 is Read ==> {
            &&& !ended
            &&& !has_line(supplied(pending, ended, state).0.pending)
            &&& supplied(pending, ended, state).0.phase == Phase::ReadingLine
        },
        supplied(pending, ended, state).0.ended == ended,
    decreases pending.len(),
{
    if has_line(pending) {
        let t = stepped(Phase::ReadingLine, line_event(first_line(pending)), state);
        assert(is_first_line_feed(pending, first_line_feed(pending)));
        if t.action is ReadLine {
            lemma_session_reads_only_without_a_line(after_first_line(pending), ended, state);
        }
    }
}

/// Once the input has ended and nothing is pending, the session stops
/// cleanly.
pub proof fn lemma_session_ends_cleanly(state: ServerStateView)
    ensures
        supplied(Seq::empty(), true, state).0.phase == Phase::ShutdownClean,
        supplied(Seq::empty(), true, state).1 == OutputView::Stop,
{
    assert(!has_line(Seq::<u8>::empty())) by {
        crate::frame::lemma_no_line_feed_no_line(Seq::<u8>::empty());
    }
}

} // verus!
