//! The edge of the wire: framing of request lines, and what becomes of a
//! request that cannot be read.
//!
//! Requests come one to a line. A line is trimmed of white space before it is
//! looked at. A line that holds nothing is skipped, a line that holds the one
//! character U+0004 ends the input, and every other line is a request.

use crate::engine::{Engine, Progress};
use crate::model;
use crate::protocol::{ErrorKind, Request, Response, ResponseModel};
use crate::text::join3;
use vstd::prelude::*;
use vstd::string::*;

verus! {

/// Whether `c` has the Unicode property `White_Space`.
pub open spec fn is_white_space(c: char) -> bool {
    let code = c as u32;
    ||| 0x09 <= code <= 0x0D
    ||| code == 0x20
    ||| code == 0x85
    ||| code == 0xA0
    ||| code == 0x1680
    ||| 0x2000 <= code <= 0x200A
    ||| code == 0x2028
    ||| code == 0x2029
    ||| code == 0x202F
    ||| code == 0x205F
    ||| code == 0x3000
}

/// Whether `text` from `start` up to `end` is `text` without the white space
/// at its two ends.
pub open spec fn trims_to(text: Seq<char>, start: int, end: int) -> bool {
    &&& 0 <= start <= end <= text.len()
    &&& forall|i: int| 0 <= i < start ==> is_white_space(#[trigger] text[i])
    &&& forall|i: int| end <= i < text.len() ==> is_white_space(#[trigger] text[i])
    &&& if start < end {
        !is_white_space(text[start]) && !is_white_space(text[end - 1])
    } else {
        start == text.len()
    }
}

/// `text` without the white space at its two ends.
pub open spec fn trimmed(text: Seq<char>) -> Seq<char> {
    let (start, end) = choose|start: int, end: int| trims_to(text, start, end);
    text.subrange(start, end)
}

/// The text of the line that ends the input.
pub open spec fn end_of_input() -> Seq<char> {
    seq!['\u{4}']
}

/// A text has one trimmed part only.
pub proof fn lemma_trimmed(text: Seq<char>, start: int, end: int)
    requires
        trims_to(text, start, end),
    ensures
        trimmed(text) == text.subrange(start, end),
{
    let (a, b) = choose|a: int, b: int| trims_to(text, a, b);
    if a < start {
        assert(is_white_space(text[a]));
        assert(a == b);
    } else if start < a {
        assert(is_white_space(text[start]));
        assert(start == end);
    }
    if b < end {
        assert(is_white_space(text[end - 1]));
    } else if end < b {
        assert(is_white_space(text[b - 1]));
    }
}

/// What a line of input is.
#[derive(Debug)]
pub enum Line {
    /// The line ends the input.
    EndOfInput,
    /// The line holds nothing and is skipped.
    Blank,
    /// The line holds a request, which is its trimmed text.
    Payload(String),
}

/// What a line of input is, as the contracts speak of it.
pub enum LineModel {
    EndOfInput,
    Blank,
    Payload(Seq<char>),
}

impl View for Line {
    type V = LineModel;

    open spec fn view(&self) -> LineModel {
        match self {
            Line::EndOfInput => LineModel::EndOfInput,
            Line::Blank => LineModel::Blank,
            Line::Payload(text) => LineModel::Payload(text@),
        }
    }
}

/// What the line `text` is.
pub open spec fn line_of(text: Seq<char>) -> LineModel {
    if trimmed(text) == end_of_input() {
        LineModel::EndOfInput
    } else if trimmed(text).len() == 0 {
        LineModel::Blank
    } else {
        LineModel::Payload(trimmed(text))
    }
}

/// Whether `c` has the Unicode property `White_Space`.
pub fn white_space(c: char) -> (white: bool)
    ensures
        white == is_white_space(c),
{
    let code = c as u32;
    (0x09 <= code && code <= 0x0D) || code == 0x20 || code == 0x85 || code == 0xA0 || code
        == 0x1680 || (0x2000 <= code && code <= 0x200A) || code == 0x2028 || code == 0x2029
        || code == 0x202F || code == 0x205F || code == 0x3000
}

/// Frames one line of input.
pub fn frame_line(text: &str) -> (line: Line)
    ensures
        line@ == line_of(text@),
{
    let length = text.unicode_len();
    let mut start: usize = 0;
    let mut end: usize = 0;
    let mut at: usize = 0;
    for c in it: text.chars()
        invariant
            it.seq() == text@,
            at == it.index(),
            length == text@.len(),
            if start < end {
                &&& end <= at
                &&& !is_white_space(text@[start as int])
                &&& !is_white_space(text@[end - 1])
                &&& forall|i: int| 0 <= i < start ==> is_white_space(#[trigger] text@[i])
                &&& forall|i: int| end <= i < at ==> is_white_space(#[trigger] text@[i])
            } else {
                &&& start == 0
                &&& end == 0
                &&& forall|i: int| 0 <= i < at ==> is_white_space(#[trigger] text@[i])
            },
    {
        if !white_space(c) {
            if start == end {
                start = at;
            }
            end = at + 1;
        }
        at += 1;
    }
    if start == end {
        start = length;
        end = length;
    }
    proof {
        lemma_trimmed(text@, start as int, end as int);
    }
    let kept = text.substring_char(start, end);
    assert(kept@.len() == end - start);
    if end - start == 1 && kept.get_char(0) == '\u{4}' {
        assert(kept@ =~= end_of_input());
        Line::EndOfInput
    } else if end == start {
        Line::Blank
    } else {
        assert(kept@ != end_of_input()) by {
            if kept@ == end_of_input() {
                assert(end_of_input().len() == 1);
                assert(end_of_input()[0] == '\u{4}');
            }
        }
        Line::Payload(kept.to_owned())
    }
}

/// What is reported of a request that cannot be read, after the reader's own
/// words.
pub open spec fn unreadable_reason(detail: Seq<char>) -> Seq<char> {
    "The IPC message was invalid. ("@ + detail + ")"@
}

/// The response to a request that cannot be read. Such a request does not
/// reach the engine.
pub fn unreadable(detail: &str) -> (response: Response)
    ensures
        response@ == (ResponseModel::Error {
            kind: ErrorKind::FailedToParseIPCJson,
            reason: unreadable_reason(detail@),
        }),
{
    Response::Error {
        kind: ErrorKind::FailedToParseIPCJson,
        reason: join3("The IPC message was invalid. (", detail, ")"),
    }
}

/// Hands to the engine what came over the wire: a request, or the reader's
/// own words on what could not be read. What could not be read does not reach
/// the engine: it is answered at once, and the engine stays as it was.
pub fn receive(engine: Engine, decoded: Result<Request, String>) -> (progress: Progress)
    ensures
        progress@ == model::receive(
            engine@,
            match decoded {
                Ok(request) => Ok(request@),
                Err(detail) => Err(detail@),
            },
        ),
{
    match decoded {
        Ok(request) => engine.process_request(request),
        Err(detail) => Progress::Finished(engine, unreadable(detail.as_str())),
    }
}

} // verus!
