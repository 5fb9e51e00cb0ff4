//! The framed line reader: cuts the incoming bytes into lines of text.
//!
//! A line ends with a line feed. The line feed is dropped, and so is one
//! carriage return in front of it. What is left must be UTF-8.

use vstd::prelude::*;
use vstd::utf8::decode_utf8;
use vstd::utf8::valid_utf8;

verus! {

/// The byte that ends a line.
pub const LINE_FEED: u8 = 10;

/// The byte that may stand in front of the line feed.
pub const CARRIAGE_RETURN: u8 = 13;

/// Why a line cannot be handed on.
#[derive(Clone, Copy, Debug, PartialEq, Eq)]
pub enum FrameError {
    /// The bytes of the line are not UTF-8.
    InvalidUtf8,
}

/// Whether `index` is the place of the first line feed in `bytes`.
pub open spec fn is_first_line_feed(bytes: Seq<u8>, index: int) -> bool {
    &&& 0 <= index < bytes.len()
    &&& bytes[index] == LINE_FEED
    &&& forall|k: int| 0 <= k < index ==> bytes[k] != LINE_FEED
}

/// Whether `bytes` hold a whole line, that is a line feed.
pub open spec fn has_line(bytes: Seq<u8>) -> bool {
    exists|index: int| is_first_line_feed(bytes, index)
}

/// The place of the first line feed in bytes that hold one.
pub open spec fn first_line_feed(bytes: Seq<u8>) -> int {
    choose|index: int| is_first_line_feed(bytes, index)
}

/// The bytes of a line without the one carriage return at their end, if
/// there is one.
pub open spec fn without_carriage_return(raw: Seq<u8>) -> Seq<u8> {
    if raw.len() > 0 && raw.last() == CARRIAGE_RETURN {
        raw.drop_last()
    } else {
        raw
    }
}

/// The text of a line, given its bytes up to the line feed.
pub open spec fn line_text(raw: Seq<u8>) -> Result<Seq<char>, FrameError> {
    let bytes = without_carriage_return(raw);
    if valid_utf8(bytes) {
        Ok(decode_utf8(bytes))
    } else {
        Err(FrameError::InvalidUtf8)
    }
}

/// The first line feed stands in one place only.
pub proof fn lemma_first_line_feed_is_unique(bytes: Seq<u8>, index: int)
    requires
        is_first_line_feed(bytes, index),
    ensures
        has_line(bytes),
        first_line_feed(bytes) == index,
{
    let chosen = first_line_feed(bytes);
    assert(is_first_line_feed(bytes, chosen));
    if chosen < index {
        assert(bytes[chosen] != LINE_FEED);
    }
    if index < chosen {
        assert(bytes[index] != LINE_FEED);
    }
}

/// Bytes without a line feed hold no line.
pub proof fn lemma_no_line_feed_no_line(bytes: Seq<u8>)
    requires
        forall|k: int| 0 <= k < bytes.len() ==> bytes[k] != LINE_FEED,
    ensures
        !has_line(bytes),
{
    if has_line(bytes) {
        let chosen = first_line_feed(bytes);
        assert(is_first_line_feed(bytes, chosen));
        assert(bytes[chosen] != LINE_FEED);
    }
}

/// `String::from_utf8` of std: there is a string exactly where the bytes are
/// UTF-8, and it holds the characters that the bytes encode.
#[verifier::external_body]
fn string_from_utf8(bytes: Vec<u8>) -> (r: Option<String>)
    ensures
        r is Some <==> valid_utf8(bytes@),
        r matches Some(text) ==> text@ == decode_utf8(bytes@),
{
    String::from_utf8(bytes).ok()
}

/// Makes the text of a line of its bytes up to the line feed.
pub fn decode_line(raw: Vec<u8>) -> (r: Result<String, FrameError>)
    ensures
        match r {
            Ok(text) => line_text(raw@) == Ok::<Seq<char>, FrameError>(text@),
            Err(error) => line_text(raw@) == Err::<Seq<char>, FrameError>(error),
        },
{
    let mut bytes = raw;
    let n = bytes.len();
    if n > 0 && bytes[n - 1] == CARRIAGE_RETURN {
        bytes.pop();
        assert(bytes@ =~= raw@.drop_last());
    }
    match string_from_utf8(bytes) {
        Some(text) => Ok(text),
        None => Err(FrameError::InvalidUtf8),
    }
}

/// The bytes that came in and are not handed on yet.
#[derive(Debug, PartialEq)]
pub struct LineReader {
    pub pending: Vec<u8>,
}

impl View for LineReader {
    type V = Seq<u8>;

    open spec fn view(&self) -> Seq<u8> {
        self.pending@
    }
}

/// What is left of the pending bytes once their first line is taken.
pub open spec fn after_first_line(bytes: Seq<u8>) -> Seq<u8> {
    bytes.skip(first_line_feed(bytes) + 1)
}

/// The text of the first line of the pending bytes.
pub open spec fn first_line(bytes: Seq<u8>) -> Result<Seq<char>, FrameError> {
    line_text(bytes.take(first_line_feed(bytes)))
}

/// Whether the bytes left at the end of the input make a last line: they do
/// unless there are none, or nothing but one carriage return.
pub open spec fn has_last_line(bytes: Seq<u8>) -> bool {
    bytes.len() > 0 && bytes != seq![CARRIAGE_RETURN]
}

impl LineReader {
    /// A reader with no bytes pending.
    pub fn new() -> (reader: LineReader)
        ensures
            reader@ == Seq::<u8>::empty(),
    {
        LineReader { pending: Vec::new() }
    }

    /// Takes in the bytes that were read, after those already pending.
    pub fn push(&mut self, chunk: &[u8])
        ensures
            final(self)@ == old(self)@ + chunk@,
    {
        let mut i: usize = 0;
        while i < chunk.len()
            invariant
                i <= chunk.len(),
                self@ == old(self)@ + chunk@.take(i as int),
            decreases chunk.len() - i,
        {
            self.pending.push(chunk[i]);
            assert(chunk@.take(i + 1) =~= chunk@.take(i as int).push(chunk@[i as int]));
            assert(self@ =~= old(self)@ + chunk@.take(i + 1));
            i += 1;
        }
        assert(chunk@.take(i as int) =~= chunk@);
    }

    /// Hands on the first whole line, if the pending bytes hold one, and
    /// keeps what follows it. Without a whole line nothing changes.
    pub fn next_line(&mut self) -> (r: Option<Result<String, FrameError>>)
        ensures
            has_line(old(self)@) ==> final(self)@ == after_first_line(old(self)@) && (match r {
                Some(Ok(text)) => first_line(old(self)@) == Ok::<Seq<char>, FrameError>(text@),
                Some(Err(error)) => first_line(old(self)@) == Err::<Seq<char>, FrameError>(error),
                None => false,
            }),
            !has_line(old(self)@) ==> r is None && final(self)@ == old(self)@,
    {
        let mut i: usize = 0;
        while i < self.pending.len()
            invariant
                i <= self.pending.len(),
                self@ == old(self)@,
                forall|k: int| 0 <= k < i ==> self@[k] != LINE_FEED,
            decreases self.pending.len() - i,
        {
            if self.pending[i] == LINE_FEED {
                proof {
                    lemma_first_line_feed_is_unique(self@, i as int);
                }
                let rest = self.pending.split_off(i + 1);
                let mut line = rest;
                core::mem::swap(&mut self.pending, &mut line);
                line.pop();
                assert(line@ =~= old(self)@.take(i as int));
                assert(self@ =~= old(self)@.skip(i + 1));
                return Some(decode_line(line));
            }
            i += 1;
        }
        proof {
            lemma_no_line_feed_no_line(self@);
        }
        None
    }

    /// Hands on what is left at the end of the input as the last line, if
    /// the pending bytes hold no whole line and make a last one; no bytes
    /// are pending after that. Otherwise nothing changes.
    pub fn last_line(&mut self) -> (r: Option<Result<String, FrameError>>)
        ensures
            !has_line(old(self)@) && has_last_line(old(self)@) ==> final(self)@ == Seq::<
                u8,
            >::empty() && (match r {
                Some(Ok(text)) => line_text(old(self)@) == Ok::<Seq<char>, FrameError>(text@),
                Some(Err(error)) => line_text(old(self)@) == Err::<Seq<char>, FrameError>(error),
                None => false,
            }),
            has_line(old(self)@) || !has_last_line(old(self)@) ==> r is None && final(self)@
                == old(self)@,
    {
        let n = self.pending.len();
        if n == 0 {
            return None;
        }
        if n == 1 && self.pending[0] == CARRIAGE_RETURN {
            assert(self@ =~= seq![CARRIAGE_RETURN]);
            return None;
        }
        assert(self@ != seq![CARRIAGE_RETURN]) by {
            if self@ == seq![CARRIAGE_RETURN] {
                assert(self@.len() == 1);
                assert(self@[0] == CARRIAGE_RETURN);
            }
        }
        let mut i: usize = 0;
        while i < n
            invariant
                i <= n,
                n == self.pending.len(),
                self@ == old(self)@,
                forall|k: int| 0 <= k < i ==> self@[k] != LINE_FEED,
            decreases n - i,
        {
            if self.pending[i] == LINE_FEED {
                proof {
                    lemma_first_line_feed_is_unique(self@, i as int);
                }
                return None;
            }
            i += 1;
        }
        proof {
            lemma_no_line_feed_no_line(self@);
        }
        let mut line: Vec<u8> = Vec::new();
        core::mem::swap(&mut self.pending, &mut line);
        Some(decode_line(line))
    }
}

} // verus!
