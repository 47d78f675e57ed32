use vstd::prelude::*;

verus! {

/// The error answer of an HTTP request, by kind, with its message.
#[derive(Debug, PartialEq, Eq)]
pub enum ErrorResponse {
    BadRequest(String, Option<String>),
    NotFound(String),
    Forbidden(String),
    Conflict(String),
    InternalServerError(String),
}

/// An error answer as a value.
pub enum ErrorResponseView {
    BadRequest(Seq<char>, Option<Seq<char>>),
    NotFound(Seq<char>),
    Forbidden(Seq<char>),
    Conflict(Seq<char>),
    InternalServerError(Seq<char>),
}

impl View for ErrorResponse {
    type V = ErrorResponseView;

    open spec fn view(&self) -> ErrorResponseView {
        match self {
            ErrorResponse::BadRequest(m, d) => ErrorResponseView::BadRequest(
                m@,
                match d {
                    Some(d) => Some(d@),
                    None => None,
                },
            ),
            ErrorResponse::NotFound(m) => ErrorResponseView::NotFound(m@),
            ErrorResponse::Forbidden(m) => ErrorResponseView::Forbidden(m@),
            ErrorResponse::Conflict(m) => ErrorResponseView::Conflict(m@),
            ErrorResponse::InternalServerError(m) => ErrorResponseView::InternalServerError(m@),
        }
    }
}

} // verus!
