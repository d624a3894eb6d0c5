//! The summarisation service: what it accepts, and what it answers with.
//!
//! A request carries a text, as the whole body or as one string of a JSON
//! body. The text goes to the completion service, and the summary that comes
//! back is stored with it.

use crate::error::{fails_with, fault, ApiError, Fault, Status};
use crate::json::{as_str, get, member, parse, parsed, string};
use crate::messages;
use crate::text::{chars_of, from_utf8, trim, trimmed};
use vstd::prelude::*;
use vstd::utf8::{decode_utf8, valid_utf8};

verus! {

/// The largest body that is accepted unless the configuration says
/// otherwise: 32 KiB.
pub const DEFAULT_MAX_BODY_BYTES: usize = 32768;

/// The least number of characters in a text, unless the configuration says
/// otherwise.
pub const DEFAULT_MIN_CHARS: usize = 5;

/// The greatest number of characters in a text, unless the configuration
/// says otherwise.
pub const DEFAULT_MAX_CHARS: usize = 8000;

/// How many summaries the list of recent ones holds at most.
pub const RECENT_LIMIT: usize = 100;

/// How many characters of a summary its preview shows at most.
pub const PREVIEW_CHARS: usize = 80;

/// The bounds that a request is held to.
#[derive(Debug, Clone, Copy, PartialEq, Eq, Structural)]
pub struct Limits {
    /// The greatest number of bytes in a body.
    pub max_body_bytes: usize,
    /// The least number of characters in a text, once trimmed.
    pub min_chars: usize,
    /// The greatest number of characters in a text, once trimmed.
    pub max_chars: usize,
}

impl Limits {
    /// The bounds of a service that was configured with these values; each
    /// one that is missing has its default.
    pub open spec fn configured(
        max_body_bytes: Option<usize>,
        min_chars: Option<usize>,
        max_chars: Option<usize>,
    ) -> Limits {
        Limits {
            max_body_bytes: match max_body_bytes {
                Some(n) => n,
                None => DEFAULT_MAX_BODY_BYTES,
            },
            min_chars: match min_chars {
                Some(n) => n,
                None => DEFAULT_MIN_CHARS,
            },
            max_chars: match max_chars {
                Some(n) => n,
                None => DEFAULT_MAX_CHARS,
            },
        }
    }

    /// The bounds for a configuration that may leave any of them out.
    pub fn new(
        max_body_bytes: Option<usize>,
        min_chars: Option<usize>,
        max_chars: Option<usize>,
    ) -> (limits: Limits)
        ensures
            limits == Limits::configured(max_body_bytes, min_chars, max_chars),
    {
        Limits {
            max_body_bytes: max_body_bytes.unwrap_or(DEFAULT_MAX_BODY_BYTES),
            min_chars: min_chars.unwrap_or(DEFAULT_MIN_CHARS),
            max_chars: max_chars.unwrap_or(DEFAULT_MAX_CHARS),
        }
    }
}

impl Default for Limits {
    fn default() -> (limits: Limits)
        ensures
            limits == Limits::configured(None, None, None),
    {
        Limits::new(None, None, None)
    }
}

/// The text that a body carries. A JSON body carries the string under
/// `field`; any other body is the text itself. A body that is not what it
/// claims to be carries none.
pub open spec fn carried_text(
    content_is_json: bool,
    field: Seq<char>,
    body: Seq<u8>,
) -> Option<Seq<char>> {
    if content_is_json {
        match parsed(body) {
            None => None,
            Some(value) => match member(value, field) {
                None => None,
                Some(found) => string(found),
            },
        }
    } else if valid_utf8(body) {
        Some(decode_utf8(body))
    } else {
        None
    }
}

/// The text to summarise, or what is wrong with it: the text is trimmed,
/// and then has to have at least one character, no fewer than the least
/// number and no more than the greatest.
pub open spec fn accepted_text(limits: Limits, text: Seq<char>) -> Result<Seq<char>, Fault> {
    let t = trimmed(text);
    if t.len() == 0 {
        Err(fault(Status::BadRequest, messages::TEXT_EMPTY, messages::TEXT_EMPTY_MESSAGE))
    } else if t.len() < limits.min_chars {
        Err(
            fault(
                Status::Unprocessable,
                messages::TEXT_TOO_SHORT,
                messages::TEXT_TOO_SHORT_MESSAGE,
            ),
        )
    } else if t.len() > limits.max_chars {
        Err(
            fault(Status::Unprocessable, messages::TEXT_TOO_LONG, messages::TEXT_TOO_LONG_MESSAGE),
        )
    } else {
        Ok(t)
    }
}

/// The text to summarise for a request, or what is wrong with the request.
/// The size of the body is looked at before anything else.
pub open spec fn accepted_request(
    limits: Limits,
    content_is_json: bool,
    field: Seq<char>,
    body: Seq<u8>,
) -> Result<Seq<char>, Fault> {
    if body.len() > limits.max_body_bytes {
        Err(
            fault(
                Status::PayloadTooLarge,
                messages::PAYLOAD_TOO_LARGE,
                messages::PAYLOAD_TOO_LARGE_MESSAGE,
            ),
        )
    } else {
        match carried_text(content_is_json, field, body) {
            None => Err(
                fault(Status::BadRequest, messages::INVALID_BODY, messages::INVALID_BODY_MESSAGE),
            ),
            Some(text) => accepted_text(limits, text),
        }
    }
}

/// `r` is what `expected` describes: the same text, or the same fault.
pub open spec fn answers(r: Result<String, ApiError>, expected: Result<Seq<char>, Fault>) -> bool {
    match expected {
        Ok(text) => r matches Ok(s) && s@ == text,
        Err(fault) => fails_with(r, fault),
    }
}

/// Turns a body down that is larger than the limit.
pub fn check_body_size(limits: &Limits, body_len: usize) -> (r: Result<(), ApiError>)
    ensures
        body_len <= limits.max_body_bytes ==> r is Ok,
        body_len > limits.max_body_bytes ==> fails_with(
            r,
            fault(
                Status::PayloadTooLarge,
                messages::PAYLOAD_TOO_LARGE,
                messages::PAYLOAD_TOO_LARGE_MESSAGE,
            ),
        ),
{
    if body_len > limits.max_body_bytes {
        Err(
            ApiError::too_large(messages::PAYLOAD_TOO_LARGE, messages::PAYLOAD_TOO_LARGE_MESSAGE),
        )
    } else {
        Ok(())
    }
}

/// Takes the text out of a body.
pub fn extract_text(content_is_json: bool, field: &str, body: &[u8]) -> (r: Option<String>)
    ensures
        crate::text::text_of(r) == carried_text(content_is_json, field@, body@),
{
    if content_is_json {
        let value = match parse(body) {
            Some(value) => value,
            None => {
                return None;
            },
        };
        let found = match get(&value, field) {
            Some(found) => found,
            None => {
                return None;
            },
        };
        match as_str(found) {
            Some(text) => Some(text.to_owned()),
            None => None,
        }
    } else {
        match from_utf8(body) {
            Some(text) => {
                proof {
                    vstd::utf8::encode_utf8_decode_utf8(text@);
                }
                Some(text.to_owned())
            },
            None => None,
        }
    }
}

/// Trims a text and holds its length against the limits.
pub fn check_text(limits: &Limits, text: &str) -> (r: Result<String, ApiError>)
    ensures
        answers(r, accepted_text(*limits, text@)),
{
    let t = trim(text);
    let n: usize = chars_of(t).len();
    if n == 0 {
        Err(ApiError::bad_request(messages::TEXT_EMPTY, messages::TEXT_EMPTY_MESSAGE))
    } else if n < limits.min_chars {
        Err(ApiError::unprocessable(messages::TEXT_TOO_SHORT, messages::TEXT_TOO_SHORT_MESSAGE))
    } else if n > limits.max_chars {
        Err(ApiError::unprocessable(messages::TEXT_TOO_LONG, messages::TEXT_TOO_LONG_MESSAGE))
    } else {
        Ok(t.to_owned())
    }
}

/// `POST /api/summarize`, up to the call of the completion service: the
/// text to summarise, or the error that the request is answered with.
pub fn summarize_request(limits: &Limits, content_is_json: bool, field: &str, body: &[u8]) -> (r:
    Result<String, ApiError>)
    ensures
        answers(r, accepted_request(*limits, content_is_json, field@, body@)),
{
    match check_body_size(limits, body.len()) {
        Err(e) => {
            return Err(e);
        },
        Ok(_) => {},
    }
    match extract_text(content_is_json, field, body) {
        Some(text) => check_text(limits, text.as_str()),
        None => Err(ApiError::bad_request(messages::INVALID_BODY, messages::INVALID_BODY_MESSAGE)),
    }
}

/// A text and its summary, as stored. A record is written once and never
/// changed.
#[derive(Debug, Clone)]
pub struct Summary {
    pub id: i64,
    pub input_text: String,
    pub summary: String,
    pub created_at: String,
}

/// A summary as the list of recent ones shows it.
#[derive(Debug)]
pub struct SummaryPreview {
    pub id: i64,
    pub preview: String,
    pub created_at: String,
}

/// The answer to a request for a summary.
#[derive(Debug)]
pub struct SummarizeResponse {
    pub id: i64,
    pub summary: String,
}

/// The beginning of a text: its first 80 characters, or all of it where it
/// has no more.
pub open spec fn preview_of(text: Seq<char>) -> Seq<char> {
    if text.len() <= PREVIEW_CHARS {
        text
    } else {
        text.subrange(0, PREVIEW_CHARS as int)
    }
}

/// Cuts a text down to its preview.
pub fn preview(text: &str) -> (p: String)
    ensures
        p@ == preview_of(text@),
{
    let n: usize = text.unicode_len();
    if n <= PREVIEW_CHARS {
        text.to_owned()
    } else {
        text.substring_char(0, PREVIEW_CHARS).to_owned()
    }
}

/// The answer to `POST /api/summarize`: the id of the new record, and the
/// summary.
pub fn summarized(id: i64, summary: String) -> (r: SummarizeResponse)
    ensures
        r.id == id,
        r.summary == summary,
{
    SummarizeResponse { id, summary }
}

/// The answer to `GET /api/summaries`: a preview of each of the first 100
/// rows, in the order of the rows, which come newest first.
pub fn previews_response(rows: Vec<Summary>) -> (r: Vec<SummaryPreview>)
    ensures
        r@.len() == if rows@.len() <= RECENT_LIMIT {
            rows@.len()
        } else {
            RECENT_LIMIT as nat
        },
        forall|i: int|
            0 <= i < r@.len() ==> {
                &&& (#[trigger] r@[i]).id == rows@[i].id
                &&& r@[i].preview@ == preview_of(rows@[i].summary@)
                &&& r@[i].created_at == rows@[i].created_at
            },
{
    let ghost all = rows@;
    let mut previews: Vec<SummaryPreview> = Vec::new();
    for row in it: rows
        invariant
            it.seq() == all,
            previews@.len() == if it.index() <= RECENT_LIMIT {
                it.index()
            } else {
                RECENT_LIMIT as int
            },
            forall|i: int|
                0 <= i < previews@.len() ==> {
                    &&& (#[trigger] previews@[i]).id == all[i].id
                    &&& previews@[i].preview@ == preview_of(all[i].summary@)
                    &&& previews@[i].created_at == all[i].created_at
                },
    {
        if previews.len() < RECENT_LIMIT {
            let shown = preview(row.summary.as_str());
            previews.push(
                SummaryPreview { id: row.id, preview: shown, created_at: row.created_at },
            );
        }
    }
    previews
}

/// `GET /api/summaries/:id`, before the store is asked: the id has to be
/// positive.
pub fn get_summary(id: i64) -> (r: Result<i64, ApiError>)
    ensures
        id > 0 ==> r == Ok::<i64, ApiError>(id),
        id <= 0 ==> fails_with(
            r,
            fault(
                Status::BadRequest,
                messages::INVALID_ID,
                messages::INVALID_SUMMARY_ID_MESSAGE,
            ),
        ),
{
    if id <= 0 {
        Err(ApiError::bad_request(messages::INVALID_ID, messages::INVALID_SUMMARY_ID_MESSAGE))
    } else {
        Ok(id)
    }
}

/// The answer to `GET /api/summaries/:id`: the record, or "not found".
pub fn summary_found(row: Option<Summary>) -> (r: Result<Summary, ApiError>)
    ensures
        match row {
            Some(s) => r == Ok::<Summary, ApiError>(s),
            None => fails_with(
                r,
                fault(
                    Status::NotFound,
                    messages::SUMMARY_NOT_FOUND,
                    messages::SUMMARY_NOT_FOUND_MESSAGE,
                ),
            ),
        },
{
    match row {
        Some(s) => Ok(s),
        None => Err(
            ApiError::not_found(messages::SUMMARY_NOT_FOUND, messages::SUMMARY_NOT_FOUND_MESSAGE),
        ),
    }
}

} // verus!
