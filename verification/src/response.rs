//! What an endpoint answers: a status, and a body as a plain value.

use crate::error::WebhookError;
use crate::models::RegistrationResponseModel;
use crate::registrations::{Registration, RegistrationView};
use vstd::prelude::*;

verus! {

/// The body of an answer. The two JSON bodies go out with the content type
/// `application/json`.
#[derive(Debug, PartialEq, Eq)]
pub enum ResponseBody {
    /// No body.
    Empty,
    /// A line of plain text.
    Text(String),
    /// The registrations, as a JSON array.
    Registrations(Vec<Registration>),
    /// The signing key of an accepted registration, as a JSON object.
    SigningKey(RegistrationResponseModel),
}

/// What a `ResponseBody` holds.
pub enum ResponseBodyView {
    Empty,
    Text(Seq<char>),
    Registrations(Seq<RegistrationView>),
    SigningKey(Seq<char>),
}

impl View for ResponseBody {
    type V = ResponseBodyView;

    open spec fn view(&self) -> ResponseBodyView {
        match self {
            ResponseBody::Empty => ResponseBodyView::Empty,
            ResponseBody::Text(text) => ResponseBodyView::Text(text@),
            ResponseBody::Registrations(list) => ResponseBodyView::Registrations(
                list.deep_view(),
            ),
            ResponseBody::SigningKey(model) => ResponseBodyView::SigningKey(model@),
        }
    }
}

/// The answer of an endpoint.
#[derive(Debug, PartialEq, Eq)]
pub struct Response {
    pub status: u16,
    pub body: ResponseBody,
}

/// What a `Response` holds.
pub struct ResponseView {
    pub status: u16,
    pub body: ResponseBodyView,
}

impl View for Response {
    type V = ResponseView;

    open spec fn view(&self) -> ResponseView {
        ResponseView { status: self.status, body: self.body@ }
    }
}

/// The answer with the given status and no body.
pub open spec fn bare(status: u16) -> ResponseView {
    ResponseView { status, body: ResponseBodyView::Empty }
}

/// The answer to a request that ended in `error`: its status, and no body.
pub open spec fn failure(error: WebhookError) -> ResponseView {
    bare(error.spec_status())
}

impl Response {
    /// The answer with the given status and no body.
    pub fn new(status: u16) -> (response: Response)
        ensures
            response@ == bare(status),
    {
        Response { status, body: ResponseBody::Empty }
    }

    /// The answer to a request that ended in `error`: 400 for a body that
    /// did not parse, 500 for every other error, and no body. Nothing in it
    /// tells one cause of a 500 from another.
    pub fn failed(error: WebhookError) -> (response: Response)
        ensures
            response@ == failure(error),
    {
        Response::new(error.status())
    }
}

} // verus!
