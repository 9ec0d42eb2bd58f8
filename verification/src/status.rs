//! The statuses that the endpoints answer with, and answers in plain text.

use vstd::prelude::*;

verus! {

/// An HTTP status.
#[derive(Debug, Clone, Copy, PartialEq, Eq, Structural)]
pub enum Status {
    Success,
    Created,
    NoContent,
    BadRequest,
    Unauthorized,
    NotFound,
    UnsupportedMediaType,
    ImATeapot,
    UnprocessableEntity,
    InternalServerError,
    ServiceUnavailable,
}

impl Status {
    /// The status code.
    pub open spec fn spec_code(self) -> u16 {
        match self {
            Status::Success => 200,
            Status::Created => 201,
            Status::NoContent => 204,
            Status::BadRequest => 400,
            Status::Unauthorized => 401,
            Status::NotFound => 404,
            Status::UnsupportedMediaType => 415,
            Status::ImATeapot => 418,
            Status::UnprocessableEntity => 422,
            Status::InternalServerError => 500,
            Status::ServiceUnavailable => 503,
        }
    }

    /// The status code.
    #[verifier::when_used_as_spec(spec_code)]
    pub fn code(self) -> (code: u16)
        ensures
            code == self.spec_code(),
    {
        match self {
            Status::Success => 200,
            Status::Created => 201,
            Status::NoContent => 204,
            Status::BadRequest => 400,
            Status::Unauthorized => 401,
            Status::NotFound => 404,
            Status::UnsupportedMediaType => 415,
            Status::ImATeapot => 418,
            Status::UnprocessableEntity => 422,
            Status::InternalServerError => 500,
            Status::ServiceUnavailable => 503,
        }
    }
}

/// An answer in plain text: a status and a body, which may be empty.
#[derive(Debug)]
pub struct Answer {
    pub status: Status,
    pub body: String,
}

/// The mathematical value of an [`Answer`].
pub struct AnswerView {
    pub status: Status,
    pub body: Seq<char>,
}

impl View for Answer {
    type V = AnswerView;

    open spec fn view(&self) -> AnswerView {
        AnswerView { status: self.status, body: self.body@ }
    }
}

/// An answer without a body.
pub open spec fn empty_answer(status: Status) -> AnswerView {
    AnswerView { status, body: Seq::empty() }
}

impl Answer {
    /// An answer without a body.
    pub fn empty(status: Status) -> (answer: Answer)
        ensures
            answer@ == empty_answer(status),
    {
        Answer { status, body: String::new() }
    }
}

} // verus!
