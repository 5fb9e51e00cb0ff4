//! A session: the server on a stream of bytes.
//!
//! The session sits between the transport and the server's state machine.
//! It takes the bytes that were read, cuts them into lines, and hands the
//! machine one line whenever the machine asks for one. The transport is asked
//! for more bytes only when no whole line is pending.

use crate::frame::after_first_line;
use crate::frame::first_line;
use crate::frame::first_line_feed;
use crate::frame::has_last_line;
use crate::frame::has_line;
use crate::frame::is_first_line_feed;
use crate::frame::line_text;
use crate::frame::FrameError;
use crate::frame::LineReader;
use crate::server::step;
use crate::server::stepped;
use crate::server::Action;
use crate::server::ActionView;
use crate::server::Event;
use crate::server::EventView;
use crate::server::Phase;
use crate::server::ServerState;
use crate::server::ServerStateView;
use crate::server::Transition;
use vstd::prelude::*;

verus! {

/// What the transport reports to the session.
#[derive(Debug, PartialEq)]
pub enum Input {
    /// The session is to start.
    Started,
    /// These bytes were read.
    Bytes(Vec<u8>),
    /// The input came to its end.
    EndOfInput,
    /// Reading failed.
    ReadFailed,
    /// The bytes were written and flushed.
    Written,
    /// Writing or flushing failed.
    WriteFailed,
}

pub enum InputView {
    Started,
    Bytes(Seq<u8>),
    EndOfInput,
    ReadFailed,
    Written,
    WriteFailed,
}

impl View for Input {
    type V = InputView;

    open spec fn view(&self) -> InputView {
        match self {
            Input::Started => InputView::Started,
            Input::Bytes(bytes) => InputView::Bytes(bytes@),
            Input::EndOfInput => InputView::EndOfInput,
            Input::ReadFailed => InputView::ReadFailed,
            Input::Written => InputView::Written,
            Input::WriteFailed => InputView::WriteFailed,
        }
    }
}

/// What the session asks of the transport.
#[derive(Debug, PartialEq)]
pub enum Output {
    /// Read more bytes.
    Read,
    /// Write this text as it is and flush.
    Write(String),
    /// Stop.
    Stop,
}

pub enum OutputView {
    Read,
    Write(Seq<char>),
    Stop,
}

impl View for Output {
    type V = OutputView;

    open spec fn view(&self) -> OutputView {
        match self {
            Output::Read => OutputView::Read,
            Output::Write(text) => OutputView::Write(text@),
            Output::Stop => OutputView::Stop,
        }
    }
}

/// The server on a stream of bytes: where the machine stands, the bytes not
/// yet handed to it, and whether the input has come to its end.
#[derive(Debug, PartialEq)]
pub struct Session {
    pub phase: Phase,
    pub reader: LineReader,
    pub ended: bool,
}

pub struct SessionView {
    pub phase: Phase,
    pub pending: Seq<u8>,
    pub ended: bool,
}

impl View for Session {
    type V = SessionView;

    open spec fn view(&self) -> SessionView {
        SessionView { phase: self.phase, pending: self.reader@, ended: self.ended }
    }
}

/// What the machine's request comes to for the transport. A request for a
/// line is no request to the transport yet: the session serves it.
pub open spec fn output_of(action: ActionView) -> OutputView {
    match action {
        ActionView::ReadLine => OutputView::Read,
        ActionView::WriteLine(line) => OutputView::Write(line),
        ActionView::Stop => OutputView::Stop,
    }
}

/// The machine's event for a framed line: the line, or a failed read where
/// its bytes are not text.
pub open spec fn line_event(line: Result<Seq<char>, FrameError>) -> EventView {
    match line {
        Ok(text) => EventView::Line(text),
        Err(_) => EventView::ReadFailed,
    }
}

/// Serves the machine's request for a line from the pending bytes.
///
/// As long as a whole line is pending, the machine gets it; this goes on
/// until the machine asks for something else than a line. Without a whole
/// line the transport is asked for more bytes. At the end of the input what
/// is left makes the last line, and after it the machine is told of the end.
pub open spec fn supplied(pending: Seq<u8>, ended: bool, state: ServerStateView) -> (
    SessionView,
    OutputView,
)
    decreases pending.len(),
{
    if has_line(pending) {
        let rest = after_first_line(pending);
        let t = stepped(Phase::ReadingLine, line_event(first_line(pending)), state);
        if t.action is ReadLine {
            proof {
                assert(is_first_line_feed(pending, first_line_feed(pending)));
            }
            supplied(rest, ended, state)
        } else {
            (SessionView { phase: t.next, pending: rest, ended }, output_of(t.action))
        }
    } else if !ended {
        (SessionView { phase: Phase::ReadingLine, pending, ended }, OutputView::Read)
    } else {
        let end = stepped(Phase::ReadingLine, EventView::EndOfInput, state);
        if has_last_line(pending) {
            let t = stepped(Phase::ReadingLine, line_event(line_text(pending)), state);
            if t.action is ReadLine {
                (SessionView { phase: end.next, pending: Seq::empty(), ended }, output_of(end.action))
            } else {
                (SessionView { phase: t.next, pending: Seq::empty(), ended }, output_of(t.action))
            }
        } else {
            (SessionView { phase: end.next, pending, ended }, output_of(end.action))
        }
    }
}

/// What the session makes of the machine's step: a request for a line is
/// served from the pending bytes, every other request goes to the transport.
pub open spec fn served(
    session: SessionView,
    t: crate::server::TransitionView,
    state: ServerStateView,
) -> (SessionView, OutputView) {
    if t.action is ReadLine {
        supplied(session.pending, session.ended, state)
    } else {
        (SessionView { phase: t.next, ..session }, output_of(t.action))
    }
}

/// The session's transitions.
///
/// Bytes and the end of the input are taken while the machine waits for a
/// line; at any other time they are events that the phase does not wait for.
/// Every other report goes to the machine as it is.
pub open spec fn handled_input(session: SessionView, input: InputView, state: ServerStateView)
    -> (SessionView, OutputView) {
    match input {
        InputView::Bytes(chunk) => if session.phase == Phase::ReadingLine {
            supplied(session.pending + chunk, session.ended, state)
        } else {
            served(session, stepped(session.phase, EventView::EndOfInput, state), state)
        },
        InputView::EndOfInput => if session.phase == Phase::ReadingLine {
            supplied(session.pending, true, state)
        } else {
            served(session, stepped(session.phase, EventView::EndOfInput, state), state)
        },
        InputView::Started => served(
            session,
            stepped(session.phase, EventView::Started, state),
            state,
        ),
        InputView::ReadFailed => served(
            session,
            stepped(session.phase, EventView::ReadFailed, state),
            state,
        ),
        InputView::Written => served(
            session,
            stepped(session.phase, EventView::Written, state),
            state,
        ),
        InputView::WriteFailed => served(
            session,
            stepped(session.phase, EventView::WriteFailed, state),
            state,
        ),
    }
}

impl Session {
    /// A session that has not started, with no bytes pending.
    pub fn new() -> (session: Session)
        ensures
            session@ == (SessionView {
                phase: Phase::Idle,
                pending: Seq::<u8>::empty(),
                ended: false,
            }),
    {
        Session { phase: Phase::Idle, reader: LineReader::new(), ended: false }
    }

    /// Serves the machine's request for a line from the pending bytes.
    fn supply(&mut self, server_state: &ServerState) -> (output: Output)
        ensures
            (final(self)@, output@) == supplied(
                old(self)@.pending,
                old(self)@.ended,
                server_state@,
            ),
    {
        loop
            invariant
                self.ended == old(self).ended,
                supplied(self@.pending, self@.ended, server_state@) == supplied(
                    old(self)@.pending,
                    old(self)@.ended,
                    server_state@,
                ),
            decreases self@.pending.len(),
        {
            let ghost before = self@.pending;
            let event = match self.reader.next_line() {
                Some(Ok(line)) => Event::Line(line),
                Some(Err(_)) => Event::ReadFailed,
                None => {
                    if !self.ended {
                        self.phase = Phase::ReadingLine;
                        return Output::Read;
                    }
                    let end = step(Phase::ReadingLine, Event::EndOfInput, server_state);
                    let last = match self.reader.last_line() {
                        Some(Ok(line)) => Event::Line(line),
                        Some(Err(_)) => Event::ReadFailed,
                        None => {
                            self.phase = end.next;
                            return Self::output(end.action);
                        },
                    };
                    let t = step(Phase::ReadingLine, last, server_state);
                    match t.action {
                        Action::ReadLine => {
                            self.phase = end.next;
                            return Self::output(end.action);
                        },
                        other => {
                            self.phase = t.next;
                            return Self::output(other);
                        },
                    }
                },
            };
            proof {
                assert(has_line(before));
                assert(is_first_line_feed(before, first_line_feed(before)));
                assert(self@.pending.len() < before.len());
            }
            let t = step(Phase::ReadingLine, event, server_state);
            match t.action {
                Action::ReadLine => {},
                other => {
                    self.phase = t.next;
                    return Self::output(other);
                },
            }
        }
    }

    fn output(action: Action) -> (output: Output)
        ensures
            output@ == output_of(action@),
    {
        match action {
            Action::ReadLine => Output::Read,
            Action::WriteLine(line) => Output::Write(line),
            Action::Stop => Output::Stop,
        }
    }

    fn serve(&mut self, t: Transition, server_state: &ServerState) -> (output: Output)
        ensures
            (final(self)@, output@) == served(old(self)@, t@, server_state@),
    {
        match t.action {
            Action::ReadLine => self.supply(server_state),
            other => {
                self.phase = t.next;
                Self::output(other)
            },
        }
    }

    /// Takes what the transport reports and says what it is to do next.
    pub fn handle(&mut self, input: Input, server_state: &ServerState) -> (output: Output)
        ensures
            (final(self)@, output@) == handled_input(old(self)@, input@, server_state@),
    {
        let event = match input {
            Input::Bytes(chunk) => {
                if self.phase == Phase::ReadingLine {
                    self.reader.push(chunk.as_slice());
                    return self.supply(server_state);
                }
                Event::EndOfInput
            },
            Input::EndOfInput => {
                if self.phase == Phase::ReadingLine {
                    self.ended = true;
                    return self.supply(server_state);
                }
                Event::EndOfInput
            },
            Input::Started => Event::Started,
            Input::ReadFailed => Event::ReadFailed,
            Input::Written => Event::Written,
            Input::WriteFailed => Event::WriteFailed,
        };
        let t = step(self.phase, event, server_state);
        self.serve(t, server_state)
    }
}

} // verus!
