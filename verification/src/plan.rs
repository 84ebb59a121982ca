//! What each of the four operations asks of the template engine, given what
//! the storage reported, or with which failure it ends instead.
//!
//! The storage operation comes first and is the caller's: a read for the two
//! pages that show the document, a write of the incoming body for a save, a
//! removal for a deletion. Nothing is rendered once the storage has failed.

use vstd::prelude::*;
use crate::error::{BoardError, Fault};
use crate::format::{decode, decoded};
use crate::store::read_view;
use crate::template::{RenderRequest, RenderSpec, Template};

verus! {

/// The body that a read yields. An absent document reads as the empty body;
/// any other fault is a storage failure, and so is a document that is no text.
pub open spec fn body_read(reply: Result<Seq<u8>, Fault>) -> Result<Seq<char>, BoardError> {
    match reply {
        Ok(bytes) => decoded(bytes),
        Err(Fault::NotFound) => Ok(Seq::empty()),
        Err(Fault::Other) => Err(BoardError::StorageFailure),
    }
}

/// Showing the document: the view page over the body that was read.
pub open spec fn view_plan(reply: Result<Seq<u8>, Fault>) -> Result<RenderSpec, BoardError> {
    match body_read(reply) {
        Ok(body) => Ok(RenderSpec { template: Template::View, body }),
        Err(error) => Err(error),
    }
}

/// Showing the form: the edit page over the body that was read.
pub open spec fn edit_plan(reply: Result<Seq<u8>, Fault>) -> Result<RenderSpec, BoardError> {
    match body_read(reply) {
        Ok(body) => Ok(RenderSpec { template: Template::Edit, body }),
        Err(error) => Err(error),
    }
}

/// Saving `body`: once it is written, the view page over that very body. The
/// storage is not read again. A write has no document to miss, so every fault
/// is a storage failure.
pub open spec fn save_plan(body: Seq<char>, reply: Result<(), Fault>) -> Result<
    RenderSpec,
    BoardError,
> {
    match reply {
        Ok(_) => Ok(RenderSpec { template: Template::View, body }),
        Err(_) => Err(BoardError::StorageFailure),
    }
}

/// Deleting the document: the page for an empty board. That there was nothing
/// to remove is no failure.
pub open spec fn delete_plan(reply: Result<(), Fault>) -> Result<RenderSpec, BoardError> {
    match reply {
        Ok(_) | Err(Fault::NotFound) => Ok(
            RenderSpec { template: Template::EmptyView, body: Seq::empty() },
        ),
        Err(Fault::Other) => Err(BoardError::StorageFailure),
    }
}

/// A plan as computed, with the body as a sequence of characters.
pub open spec fn plan_view(plan: Result<RenderRequest, BoardError>) -> Result<
    RenderSpec,
    BoardError,
> {
    match plan {
        Ok(request) => Ok(request@),
        Err(error) => Err(error),
    }
}

/// The body to show for what a read reported.
fn read_body(reply: Result<Vec<u8>, Fault>) -> (body: Result<String, BoardError>)
    ensures
        match body_read(read_view(reply)) {
            Ok(text) => body is Ok && body.unwrap()@ == text,
            Err(error) => body == Err::<String, BoardError>(error),
        },
{
    match reply {
        Ok(bytes) => decode(bytes),
        Err(Fault::NotFound) => Ok(String::new()),
        Err(Fault::Other) => Err(BoardError::StorageFailure),
    }
}

/// What to render for a request to see the document, given the reply to the
/// read.
pub fn view_request(reply: Result<Vec<u8>, Fault>) -> (plan: Result<RenderRequest, BoardError>)
    ensures
        plan_view(plan) == view_plan(read_view(reply)),
{
    match read_body(reply) {
        Ok(body) => Ok(RenderRequest { template: Template::View, body }),
        Err(error) => Err(error),
    }
}

/// What to render for a request for the edit form, given the reply to the
/// read.
pub fn edit_request(reply: Result<Vec<u8>, Fault>) -> (plan: Result<RenderRequest, BoardError>)
    ensures
        plan_view(plan) == edit_plan(read_view(reply)),
{
    match read_body(reply) {
        Ok(body) => Ok(RenderRequest { template: Template::Edit, body }),
        Err(error) => Err(error),
    }
}

/// What to render after the write of `body`, given the reply to the write.
pub fn save_request(body: String, reply: Result<(), Fault>) -> (plan: Result<
    RenderRequest,
    BoardError,
>)
    ensures
        plan_view(plan) == save_plan(body@, reply),
{
    match reply {
        Ok(_) => Ok(RenderRequest { template: Template::View, body }),
        Err(_) => Err(BoardError::StorageFailure),
    }
}

/// What to render after the removal of the document, given the reply to the
/// removal.
pub fn delete_request(reply: Result<(), Fault>) -> (plan: Result<RenderRequest, BoardError>)
    ensures
        plan_view(plan) == delete_plan(reply),
{
    match reply {
        Ok(_) | Err(Fault::NotFound) => Ok(
            RenderRequest { template: Template::EmptyView, body: String::new() },
        ),
        Err(Fault::Other) => Err(BoardError::StorageFailure),
    }
}

} // verus!
