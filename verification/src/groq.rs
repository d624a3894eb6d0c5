//! The completion service: what is sent to it, and how its answer is read.
//!
//! One request is made for each text. The call itself is not made here:
//! this module builds what the call sends and reads what came back.

use crate::json::{as_array, as_str, elements, get, member, parse, parsed, string};
use vstd::prelude::*;

verus! {

/// Where completions are asked for.
pub const ENDPOINT: &'static str = "https://api.groq.com/openai/v1/chat/completions";

/// The instruction that every prompt begins with; the text follows it.
pub const INSTRUCTION: &'static str =
    "要約してください。重要な点を3〜5行で箇条書きにして、日本語で短く。\n\n本文:\n";

/// The role under which the prompt is sent.
pub const USER_ROLE: &'static str = "user";

/// What the message about an answer with another status than success
/// begins with; the status, ` - ` and the body of the answer follow.
pub const REJECTED_PREFIX: &'static str = "Groq API error: ";

/// One message of a conversation.
#[derive(Debug)]
pub struct ChatMessage {
    pub role: String,
    pub content: String,
}

/// The body of the request for a completion.
#[derive(Debug)]
pub struct ChatRequest {
    pub model: String,
    pub messages: Vec<ChatMessage>,
    pub stream: bool,
}

/// Why no summary came out of a call.
#[derive(Debug, Clone, Copy, PartialEq, Eq, Structural)]
pub enum CompletionError {
    /// The request could not be sent, or no answer came.
    Transport,
    /// The body of the answer is not JSON.
    Undecodable,
    /// The answer has no array `choices`.
    MissingChoices,
    /// The array `choices` is empty.
    EmptyChoices,
    /// The first choice has no `message`.
    MissingMessage,
    /// The message has no string `content`.
    MissingContent,
}

impl CompletionError {
    /// What is said of the fault.
    pub open spec fn text(self) -> Seq<char> {
        match self {
            CompletionError::Transport => "Groq API call failed (HTTP)"@,
            CompletionError::Undecodable => "failed to deserialize Groq JSON"@,
            CompletionError::MissingChoices => "Groq API response missing 'choices' array"@,
            CompletionError::EmptyChoices => "Groq API response 'choices' array is empty"@,
            CompletionError::MissingMessage => "Groq API response missing 'message' in first choice"@,
            CompletionError::MissingContent => "Groq API response missing 'content' string in message"@,
        }
    }

    /// What is said of the fault.
    pub fn message(self) -> (m: &'static str)
        ensures
            m@ == self.text(),
    {
        match self {
            CompletionError::Transport => "Groq API call failed (HTTP)",
            CompletionError::Undecodable => "failed to deserialize Groq JSON",
            CompletionError::MissingChoices => "Groq API response missing 'choices' array",
            CompletionError::EmptyChoices => "Groq API response 'choices' array is empty",
            CompletionError::MissingMessage => "Groq API response missing 'message' in first choice",
            CompletionError::MissingContent => "Groq API response missing 'content' string in message",
        }
    }
}

/// The prompt for a text: the instruction, then the text.
pub fn prompt(text: &str) -> (p: String)
    ensures
        p@ == INSTRUCTION@ + text@,
{
    let mut p = INSTRUCTION.to_owned();
    p.append(text);
    p
}

/// The request for a summary of `text` by `model`: one message, from the
/// user, which holds the prompt; the answer is not to be streamed.
pub fn chat_request(model: &str, text: &str) -> (r: ChatRequest)
    ensures
        r.model@ == model@,
        r.messages@.len() == 1,
        r.messages@[0].role@ == USER_ROLE@,
        r.messages@[0].content@ == INSTRUCTION@ + text@,
        !r.stream,
{
    let mut messages: Vec<ChatMessage> = Vec::new();
    messages.push(ChatMessage { role: USER_ROLE.to_owned(), content: prompt(text) });
    ChatRequest { model: model.to_owned(), messages, stream: false }
}

/// What is said of an answer whose status is not success: the status and
/// the body, as they came.
pub fn rejected_message(status: &str, body: &str) -> (m: String)
    ensures
        m@ == REJECTED_PREFIX@ + status@ + " - "@ + body@,
{
    let mut m = REJECTED_PREFIX.to_owned();
    m.append(status);
    m.append(" - ");
    m.append(body);
    m
}

/// The summary in an answer: the string `content` of the `message` of the
/// first of its `choices`. Each part that is missing is a fault of its own.
pub open spec fn content_of(answer: serde_json::Value) -> Result<Seq<char>, CompletionError> {
    match member(answer, "choices"@) {
        None => Err(CompletionError::MissingChoices),
        Some(choices) => match elements(choices) {
            None => Err(CompletionError::MissingChoices),
            Some(items) => if items.len() == 0 {
                Err(CompletionError::EmptyChoices)
            } else {
                match member(items[0], "message"@) {
                    None => Err(CompletionError::MissingMessage),
                    Some(message) => match member(message, "content"@) {
                        None => Err(CompletionError::MissingContent),
                        Some(content) => match string(content) {
                            None => Err(CompletionError::MissingContent),
                            Some(text) => Ok(text),
                        },
                    },
                }
            },
        },
    }
}

/// The summary in the body of an answer, which has to be JSON.
pub open spec fn completion_of(body: Seq<u8>) -> Result<Seq<char>, CompletionError> {
    match parsed(body) {
        None => Err(CompletionError::Undecodable),
        Some(answer) => content_of(answer),
    }
}

/// Takes the summary out of an answer.
pub fn extract_content(answer: &serde_json::Value) -> (r: Result<String, CompletionError>)
    ensures
        match content_of(*answer) {
            Ok(text) => r matches Ok(s) && s@ == text,
            Err(e) => r == Err::<String, CompletionError>(e),
        },
{
    let choices = match get(answer, "choices") {
        Some(choices) => choices,
        None => {
            return Err(CompletionError::MissingChoices);
        },
    };
    let items = match as_array(choices) {
        Some(items) => items,
        None => {
            return Err(CompletionError::MissingChoices);
        },
    };
    if items.len() == 0 {
        return Err(CompletionError::EmptyChoices);
    }
    let message = match get(&items[0], "message") {
        Some(message) => message,
        None => {
            return Err(CompletionError::MissingMessage);
        },
    };
    let content = match get(message, "content") {
        Some(content) => content,
        None => {
            return Err(CompletionError::MissingContent);
        },
    };
    match as_str(content) {
        Some(text) => Ok(text.to_owned()),
        None => Err(CompletionError::MissingContent),
    }
}

/// Reads the body of an answer whose status is success.
pub fn read_completion(body: &[u8]) -> (r: Result<String, CompletionError>)
    ensures
        match completion_of(body@) {
            Ok(text) => r matches Ok(s) && s@ == text,
            Err(e) => r == Err::<String, CompletionError>(e),
        },
{
    match parse(body) {
        Some(answer) => extract_content(&answer),
        None => Err(CompletionError::Undecodable),
    }
}

} // verus!
