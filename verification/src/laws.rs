//! What holds of the operations across a storage that behaves as
//! [`StoreState`] says: each statement follows a document through one or more
//! storage accesses and names the answer of the operation that comes last.
//!
//! A save of a text writes the text's stored form, [`encode_utf8`] of it. The
//! pages are those of any deployment: `texts` holds each page's text under its
//! name.

use vstd::prelude::*;
use vstd::utf8::*;
use crate::error::{BoardError, Fault};
use crate::format::stored_body_reads_back;
use crate::plan::{delete_plan, edit_plan, save_plan, view_plan};
use crate::render::page_html;
use crate::service::answer;
use crate::store::StoreState;
use crate::template::{edit_page_is_not_view_page, RenderSpec, Template};

verus! {

/// The answer that renders `template` over `body`.
pub open spec fn shown(texts: Map<Seq<char>, Seq<char>>, template: Template, body: Seq<char>)
    -> Result<Seq<char>, BoardError> {
    answer(texts, Ok(RenderSpec { template, body }))
}

/// A page is rendered exactly where the deployment has it, and then as the
/// engine renders that page over the body; where the deployment lacks it the
/// answer is a render failure.
pub proof fn page_is_rendered_where_it_exists(
    texts: Map<Seq<char>, Seq<char>>,
    template: Template,
    body: Seq<char>,
)
    ensures
        texts.dom().contains(template.name_text()) ==> shown(texts, template, body) == Ok::<
            Seq<char>,
            BoardError,
        >(page_html(texts[template.name_text()], template.name_text(), "text"@, body)),
        !texts.dom().contains(template.name_text()) ==> shown(texts, template, body) == Err::<
            Seq<char>,
            BoardError,
        >(BoardError::RenderFailure),
{
}

/// While there is no document, because none was ever written or because it was
/// removed, the view and the edit form are answered as over the empty body:
/// the absence is no failure, and with the pages in place neither answer is an
/// error.
pub proof fn absent_document_is_shown_empty(store: StoreState, texts: Map<Seq<char>, Seq<char>>)
    requires
        store.bytes is None,
    ensures
        answer(texts, view_plan(store.read_reply())) == shown(texts, Template::View, Seq::empty()),
        answer(texts, edit_plan(store.read_reply())) == shown(texts, Template::Edit, Seq::empty()),
        texts.dom().contains(Template::View.name_text()) ==> answer(
            texts,
            view_plan(store.read_reply()),
        ) is Ok,
        texts.dom().contains(Template::Edit.name_text()) ==> answer(
            texts,
            edit_plan(store.read_reply()),
        ) is Ok,
{
}

/// A save of `text` that the storage accepts is answered with the view over
/// `text`, and from then on the view and the edit form are answered over
/// exactly `text`, character for character: the view that follows a save is
/// the page that answered the save.
pub proof fn saved_text_is_shown(
    store: StoreState,
    texts: Map<Seq<char>, Seq<char>>,
    text: Seq<char>,
)
    requires
        store.write_reply() is Ok,
    ensures
        answer(texts, save_plan(text, store.write_reply())) == shown(texts, Template::View, text),
        answer(texts, view_plan(store.after_write(encode_utf8(text)).read_reply())) == shown(
            texts,
            Template::View,
            text,
        ),
        answer(texts, edit_plan(store.after_write(encode_utf8(text)).read_reply())) == shown(
            texts,
            Template::Edit,
            text,
        ),
{
    stored_body_reads_back(text);
}

/// Of two saves in a row the second replaces the first: the storage holds what
/// it would hold without the first, and the view is answered over the second
/// text alone.
pub proof fn later_save_replaces_earlier(
    store: StoreState,
    texts: Map<Seq<char>, Seq<char>>,
    first: Seq<char>,
    second: Seq<char>,
)
    requires
        store.write_reply() is Ok,
    ensures
        store.after_write(encode_utf8(first)).write_reply() is Ok,
        store.after_write(encode_utf8(first)).after_write(encode_utf8(second))
            == store.after_write(encode_utf8(second)),
        answer(
            texts,
            view_plan(
                store.after_write(encode_utf8(first)).after_write(encode_utf8(second)).read_reply(),
            ),
        ) == shown(texts, Template::View, second),
{
    stored_body_reads_back(second);
}

/// A deletion where there is no document succeeds like one that removes a
/// document: both are answered with the page for an empty board, and both leave
/// the storage without a document. Deleting once more changes nothing.
pub proof fn delete_is_idempotent(
    absent: StoreState,
    present: StoreState,
    texts: Map<Seq<char>, Seq<char>>,
)
    requires
        absent.bytes is None,
        present.remove_reply() is Ok,
    ensures
        answer(texts, delete_plan(absent.remove_reply())) == shown(
            texts,
            Template::EmptyView,
            Seq::empty(),
        ),
        answer(texts, delete_plan(present.remove_reply())) == shown(
            texts,
            Template::EmptyView,
            Seq::empty(),
        ),
        answer(texts, delete_plan(present.after_remove().remove_reply())) == shown(
            texts,
            Template::EmptyView,
            Seq::empty(),
        ),
        absent.after_remove().bytes is None,
        present.after_remove().bytes is None,
        present.after_remove().after_remove() == present.after_remove(),
{
}

/// After a deletion the view is answered over the empty body, whatever was
/// saved before.
pub proof fn deleted_document_is_shown_empty(
    store: StoreState,
    texts: Map<Seq<char>, Seq<char>>,
    text: Seq<char>,
)
    requires
        store.write_reply() is Ok,
    ensures
        answer(texts, delete_plan(store.after_write(encode_utf8(text)).remove_reply())) == shown(
            texts,
            Template::EmptyView,
            Seq::empty(),
        ),
        answer(
            texts,
            view_plan(store.after_write(encode_utf8(text)).after_remove().read_reply()),
        ) == shown(texts, Template::View, Seq::empty()),
{
}

/// The edit form and the view of one document are asked of the engine over the
/// same body and under different templates with different names; where one is
/// not rendered for a storage failure, neither is the other.
pub proof fn edit_form_is_not_the_view(reply: Result<Seq<u8>, Fault>)
    ensures
        view_plan(reply) is Ok <==> edit_plan(reply) is Ok,
        view_plan(reply) is Err ==> {
            &&& view_plan(reply) == Err::<RenderSpec, BoardError>(BoardError::StorageFailure)
            &&& edit_plan(reply) == Err::<RenderSpec, BoardError>(BoardError::StorageFailure)
        },
        view_plan(reply) is Ok ==> {
            let view = view_plan(reply).unwrap();
            let edit = edit_plan(reply).unwrap();
            &&& view.body == edit.body
            &&& view.template == Template::View
            &&& edit.template == Template::Edit
            &&& view.template.name_text() != edit.template.name_text()
        },
{
    edit_page_is_not_view_page();
}

/// A save that the storage reports as failed, with whatever fault, fails as a
/// storage failure, whatever the pages.
pub proof fn failed_save_reports_failure(
    texts: Map<Seq<char>, Seq<char>>,
    text: Seq<char>,
    fault: Fault,
)
    ensures
        answer(texts, save_plan(text, Err(fault))) == Err::<Seq<char>, BoardError>(
            BoardError::StorageFailure,
        ),
{
}

/// A save that the storage refuses leaves the document as it was: the view and
/// the edit form afterwards are answered as they would have been without the
/// save.
pub proof fn failed_save_changes_nothing(
    store: StoreState,
    texts: Map<Seq<char>, Seq<char>>,
    text: Seq<char>,
)
    requires
        store.write_reply() is Err,
    ensures
        answer(texts, save_plan(text, store.write_reply())) == Err::<Seq<char>, BoardError>(
            BoardError::StorageFailure,
        ),
        store.after_write(encode_utf8(text)) == store,
        answer(texts, view_plan(store.after_write(encode_utf8(text)).read_reply())) == answer(
            texts,
            view_plan(store.read_reply()),
        ),
        answer(texts, edit_plan(store.after_write(encode_utf8(text)).read_reply())) == answer(
            texts,
            edit_plan(store.read_reply()),
        ),
{
}

} // verus!
