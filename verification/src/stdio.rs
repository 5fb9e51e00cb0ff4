//! The response writer: one message, one line.

use crate::encode::ToJson;
use crate::json::json_text;
use crate::json::JsonView;
use vstd::prelude::*;
use vstd::string::StringExecFns;

verus! {

/// Why a message could not be written.
#[derive(Clone, Copy, Debug, PartialEq, Eq)]
pub enum WriteError {
    /// The message has no JSON text.
    NotSerializable,
}

/// The line for a document: its JSON text and one line terminator. `None`
/// where the document has no JSON text.
pub open spec fn framed(document: JsonView) -> Option<Seq<char>> {
    match json_text(document) {
        Some(text) => Some(text + "\n"@),
        None => None,
    }
}

/// Writes a message to the end of `writer` as one line: its JSON text, then
/// one line terminator. Where the message has no JSON text, nothing is
/// written and the error says so.
pub fn write_message_newline<M: ToJson>(writer: &mut String, message: &M) -> (r: Result<
    (),
    WriteError,
>)
    ensures
        match framed(M::json_of(message@)) {
            Some(line) => r is Ok && final(writer)@ == old(writer)@ + line,
            None => r == Err::<(), WriteError>(WriteError::NotSerializable) && final(writer)@
                == old(writer)@,
        },
{
    let document = message.to_json();
    match document.to_text() {
        Some(text) => {
            writer.append(text.as_str());
            writer.append("\n");
            assert(writer@ =~= old(writer)@ + (text@ + "\n"@));
            Ok(())
        },
        None => Err(WriteError::NotSerializable),
    }
}

} // verus!
