//! How the results of the services map to responses at the HTTP boundary.
//!
//! Only a missing entity is told apart from other failures: it is answered
//! with 404. Every other failure is answered with 500 and the error's text.

use crate::errors::{ErrorKind, ServiceError, ServiceErrorView, ServiceResult};
use vstd::prelude::*;
use vstd::string::*;

verus! {

/// What a handler answers.
#[derive(Debug, PartialEq, Eq)]
pub enum Response {
    /// The status and, as the body, what the service returned.
    Payload(u16),
    /// The status and a text as the body.
    Message(u16, String),
    /// The status and no body.
    Empty(u16),
}

/// The mathematical value of a [`Response`].
pub enum ResponseView {
    Payload(u16),
    Message(u16, Seq<char>),
    Empty(u16),
}

impl View for Response {
    type V = ResponseView;

    open spec fn view(&self) -> ResponseView {
        match self {
            Response::Payload(status) => ResponseView::Payload(*status),
            Response::Message(status, text) => ResponseView::Message(*status, text@),
            Response::Empty(status) => ResponseView::Empty(*status),
        }
    }
}

/// The body that reports an error.
pub open spec fn error_body(error: ServiceErrorView) -> Seq<char> {
    "Error: "@ + ServiceError::prefix_spec(error.kind) + error.message
}

/// The response to a failure where nothing is told apart: 500 with the
/// error's text.
pub open spec fn failure(error: ServiceErrorView) -> ResponseView {
    ResponseView::Message(500, error_body(error))
}

/// The response to a failure where a missing entity is told apart: 404
/// for it, 500 for every other failure, each with the error's text.
pub open spec fn failure_or_missing(error: ServiceErrorView) -> ResponseView {
    if error.kind == ErrorKind::NotFound {
        ResponseView::Message(404, error_body(error))
    } else {
        ResponseView::Message(500, error_body(error))
    }
}

/// The body that reports an error.
fn error_text(error: &ServiceError) -> (text: String)
    ensures
        text@ == error_body(error@),
{
    let mut text = String::from_str("Error: ");
    text.append(error.describe().as_str());
    proof {
        assert("Error: "@ + (ServiceError::prefix_spec(error@.kind) + error@.message) =~= "Error: "@
            + ServiceError::prefix_spec(error@.kind) + error@.message);
    }
    text
}

/// The response to a failure on a route that tells a missing entity apart.
fn reply_to_failure(error: &ServiceError) -> (response: Response)
    ensures
        response@ == failure_or_missing(error@),
{
    match error {
        ServiceError::NotFoundError(_) => Response::Message(404, error_text(error)),
        _ => Response::Message(500, error_text(error)),
    }
}

/// The response to a request for every entity: 200 with the list, or 500.
pub fn reply_to_list<T>(result: &ServiceResult<Vec<T>>) -> (response: Response)
    ensures
        response@ == match result {
            Ok(_) => ResponseView::Payload(200),
            Err(error) => failure(error@),
        },
{
    match result {
        Ok(_) => Response::Payload(200),
        Err(error) => Response::Message(500, error_text(error)),
    }
}

/// The response to a request for one entity: 200 with the entity, 404 with
/// the given text where there is none, or 500.
pub fn reply_to_get<T>(result: &ServiceResult<Option<T>>, missing: &str) -> (response: Response)
    ensures
        response@ == match result {
            Ok(Some(_)) => ResponseView::Payload(200),
            Ok(None) => ResponseView::Message(404, missing@),
            Err(error) => failure(error@),
        },
{
    match result {
        Ok(Some(_)) => Response::Payload(200),
        Ok(None) => Response::Message(404, String::from_str(missing)),
        Err(error) => Response::Message(500, error_text(error)),
    }
}

/// The response to a request to create an entity: 201 with the entity, or
/// 500.
pub fn reply_to_create<T>(result: &ServiceResult<T>) -> (response: Response)
    ensures
        response@ == match result {
            Ok(_) => ResponseView::Payload(201),
            Err(error) => failure(error@),
        },
{
    match result {
        Ok(_) => Response::Payload(201),
        Err(error) => Response::Message(500, error_text(error)),
    }
}

/// The response to a request to change an entity: 200 with the entity, 404
/// where it is missing, or 500.
pub fn reply_to_update<T>(result: &ServiceResult<T>) -> (response: Response)
    ensures
        response@ == match result {
            Ok(_) => ResponseView::Payload(200),
            Err(error) => failure_or_missing(error@),
        },
{
    match result {
        Ok(_) => Response::Payload(200),
        Err(error) => reply_to_failure(error),
    }
}

/// The response to a request to remove an entity: 204 without a body, 404
/// where it is missing, or 500.
pub fn reply_to_delete(result: &ServiceResult<()>) -> (response: Response)
    ensures
        response@ == match result {
            Ok(_) => ResponseView::Empty(204),
            Err(error) => failure_or_missing(error@),
        },
{
    match result {
        Ok(_) => Response::Empty(204),
        Err(error) => reply_to_failure(error),
    }
}

} // verus!
