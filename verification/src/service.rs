//! The four operations of the board.
//!
//! Each takes the pages and what the storage reported for the operation's one
//! storage access, which the caller has made: a read for [`get_board`] and
//! [`get_board_edit`], a write of the incoming text for [`put_board_edit`], a
//! removal for [`delete_board`]. Each returns the page, or fails as a whole.

use vstd::prelude::*;
use crate::error::{BoardError, Fault};
use crate::plan::{
    delete_plan, delete_request, edit_plan, edit_request, plan_view, save_plan, save_request,
    view_plan, view_request,
};
use crate::render::{rendered, Pages};
use crate::store::read_view;
use crate::template::{RenderRequest, RenderSpec};

verus! {

/// The one answer to a request with the given plan, on pages with the texts
/// `texts`.
///
/// A plan that failed is answered with its failure, and nothing is rendered.
/// Otherwise the answer is the page that the plan asks for with the plan's body
/// put in, and a render failure where there is no such page.
pub open spec fn answer(texts: Map<Seq<char>, Seq<char>>, plan: Result<RenderSpec, BoardError>)
    -> Result<Seq<char>, BoardError> {
    match plan {
        Err(error) => Err(error),
        Ok(request) => match rendered(texts, request) {
            Some(html) => Ok(html),
            None => Err(BoardError::RenderFailure),
        },
    }
}

/// An answer as returned, with the page as a sequence of characters.
pub open spec fn page_view(page: Result<String, BoardError>) -> Result<Seq<char>, BoardError> {
    match page {
        Ok(html) => Ok(html@),
        Err(error) => Err(error),
    }
}

/// Carries a plan out: renders what it asks for, or passes its failure on.
pub fn respond(pages: &Pages, plan: Result<RenderRequest, BoardError>) -> (page: Result<
    String,
    BoardError,
>)
    ensures
        page_view(page) == answer(pages@, plan_view(plan)),
{
    match plan {
        Ok(request) => pages.render(&request),
        Err(error) => Err(error),
    }
}

/// Shows the document. `reply` is what reading the document gave; an absent
/// document shows as an empty one.
pub fn get_board(pages: &Pages, reply: Result<Vec<u8>, Fault>) -> (page: Result<
    String,
    BoardError,
>)
    ensures
        page_view(page) == answer(pages@, view_plan(read_view(reply))),
{
    respond(pages, view_request(reply))
}

/// Shows the edit form over the document. `reply` is what reading the document
/// gave; an absent document shows as an empty one.
pub fn get_board_edit(pages: &Pages, reply: Result<Vec<u8>, Fault>) -> (page: Result<
    String,
    BoardError,
>)
    ensures
        page_view(page) == answer(pages@, edit_plan(read_view(reply))),
{
    respond(pages, edit_request(reply))
}

/// Answers a save of `text`. `reply` is what writing `text` as the whole
/// document gave. The page shows `text` as it came in; a write that failed is
/// never answered with a page.
pub fn put_board_edit(pages: &Pages, text: String, reply: Result<(), Fault>) -> (page: Result<
    String,
    BoardError,
>)
    ensures
        page_view(page) == answer(pages@, save_plan(text@, reply)),
{
    respond(pages, save_request(text, reply))
}

/// Answers a deletion. `reply` is what removing the document gave; that there
/// was no document to remove is as good as its removal.
pub fn delete_board(pages: &Pages, reply: Result<(), Fault>) -> (page: Result<String, BoardError>)
    ensures
        page_view(page) == answer(pages@, delete_plan(reply)),
{
    respond(pages, delete_request(reply))
}

} // verus!
