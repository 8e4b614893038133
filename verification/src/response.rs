//! HTTP answers of the service as plain values, and the outcome of a database
//! statement as the handlers tell it apart.

use vstd::prelude::*;
use crate::request::{GetItemResponse, OrderStatus, Table};

verus! {

pub const STATUS_OK: u16 = 200;
pub const STATUS_BAD_REQUEST: u16 = 400;
pub const STATUS_NOT_FOUND: u16 = 404;
pub const STATUS_CONFLICT: u16 = 409;
pub const STATUS_INTERNAL_SERVER_ERROR: u16 = 500;

/// Why a database statement failed, as far as the handlers distinguish it.
#[derive(Clone, Copy, Debug, PartialEq, Eq, Structural)]
pub enum DbError {
    /// The statement found no row.
    RowNotFound,
    /// Any other failure.
    Other,
}

/// The body of an answer: nothing, plain text, or one of the JSON documents.
#[derive(Clone, Debug)]
pub enum Body {
    Empty,
    Text(String),
    Table(Table),
    OrderStatus(OrderStatus),
    Item(GetItemResponse),
}

/// An answer: a status code and a body.
#[derive(Clone, Debug)]
pub struct Response {
    pub status: u16,
    pub body: Body,
}

/// `r` answers `status` with the plain text `text`.
pub open spec fn is_text(r: Response, status: u16, text: Seq<char>) -> bool {
    &&& r.status == status
    &&& r.body matches Body::Text(s) && s@ == text
}

/// An answer with a plain-text body.
pub fn text_response(status: u16, text: String) -> (r: Response)
    ensures
        is_text(r, status, text@),
{
    Response { status, body: Body::Text(text) }
}

/// A plain-text answer carries exactly the given status and text.
pub proof fn lemma_is_text_fields(r: Response, status: u16, text: Seq<char>)
    requires
        is_text(r, status, text),
    ensures
        r.status == status,
        r.body is Text,
        r.body->Text_0@ == text,
{
}

} // verus!
