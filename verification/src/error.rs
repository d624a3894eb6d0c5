//! The error a request is answered with.

use vstd::prelude::*;

verus! {

/// The class of an error, which decides the status of the answer.
#[derive(Debug, Clone, Copy, PartialEq, Eq, Structural)]
pub enum Status {
    /// The request is malformed: 400.
    BadRequest,
    /// Something the request refers to does not exist: 404.
    NotFound,
    /// The body of the request is larger than the service accepts: 413.
    PayloadTooLarge,
    /// The request is well formed but breaks a rule: 422.
    Unprocessable,
    /// The store, the network or the completion service failed: 500.
    Internal,
}

impl Status {
    /// The number of the status.
    pub open spec fn number(self) -> int {
        match self {
            Status::BadRequest => 400,
            Status::NotFound => 404,
            Status::PayloadTooLarge => 413,
            Status::Unprocessable => 422,
            Status::Internal => 500,
        }
    }

    /// The number of the status, as sent.
    pub fn code(self) -> (n: u16)
        ensures
            n == self.number(),
    {
        match self {
            Status::BadRequest => 400,
            Status::NotFound => 404,
            Status::PayloadTooLarge => 413,
            Status::Unprocessable => 422,
            Status::Internal => 500,
        }
    }
}

/// The code of every internal error.
pub const INTERNAL: &'static str = "internal";

/// An error as it is sent back: a status, a stable code for programs and a
/// message for people.
#[derive(Debug)]
pub struct ApiError {
    pub status: Status,
    pub code: &'static str,
    pub message: String,
}

/// An error as contracts speak of it: the status, and the characters of the
/// code and of the message.
pub struct Fault {
    pub status: Status,
    pub code: Seq<char>,
    pub message: Seq<char>,
}

/// The fault with this status, this code and this message.
pub open spec fn fault(status: Status, code: &str, message: &str) -> Fault {
    Fault { status, code: code@, message: message@ }
}

/// `r` is the error that `fault` describes.
pub open spec fn fails_with<T>(r: Result<T, ApiError>, fault: Fault) -> bool {
    r matches Err(e) && e@ == fault
}

impl View for ApiError {
    type V = Fault;

    open spec fn view(&self) -> Fault {
        Fault { status: self.status, code: self.code@, message: self.message@ }
    }
}

impl ApiError {
    /// The error has this status, this code and this message.
    pub open spec fn says(self, status: Status, code: Seq<char>, message: Seq<char>) -> bool {
        self@ == (Fault { status, code, message })
    }

    pub fn new(status: Status, code: &'static str, message: &str) -> (e: Self)
        ensures
            e.says(status, code@, message@),
    {
        ApiError { status, code, message: message.to_owned() }
    }

    pub fn bad_request(code: &'static str, message: &str) -> (e: Self)
        ensures
            e.says(Status::BadRequest, code@, message@),
    {
        ApiError::new(Status::BadRequest, code, message)
    }

    pub fn unprocessable(code: &'static str, message: &str) -> (e: Self)
        ensures
            e.says(Status::Unprocessable, code@, message@),
    {
        ApiError::new(Status::Unprocessable, code, message)
    }

    pub fn not_found(code: &'static str, message: &str) -> (e: Self)
        ensures
            e.says(Status::NotFound, code@, message@),
    {
        ApiError::new(Status::NotFound, code, message)
    }

    pub fn too_large(code: &'static str, message: &str) -> (e: Self)
        ensures
            e.says(Status::PayloadTooLarge, code@, message@),
    {
        ApiError::new(Status::PayloadTooLarge, code, message)
    }

    /// An internal error, which carries the description of the fault as its
    /// message.
    pub fn internal(description: &str) -> (e: Self)
        ensures
            e.says(Status::Internal, INTERNAL@, description@),
    {
        ApiError::new(Status::Internal, INTERNAL, description)
    }

    /// The number of the status to answer with.
    pub fn status_code(&self) -> (n: u16)
        ensures
            n == self.status.number(),
    {
        self.status.code()
    }
}

} // verus!
