//! The pages of the board, and what is asked of the template engine.

use vstd::prelude::*;

verus! {

/// The variable under which every page finds the body of the document.
pub fn body_variable() -> (name: &'static str)
    ensures
        name@ == "text"@,
{
    "text"
}

/// The three pages of the board.
#[derive(Clone, Copy, Debug, PartialEq, Eq, Structural)]
pub enum Template {
    /// The document, read-only.
    View,
    /// The document inside an editable form that starts out with its body.
    Edit,
    /// The page shown after a deletion, always over an empty body.
    EmptyView,
}

impl Template {
    /// The name under which the engine holds this page. The page shown after a
    /// deletion is the view page: only its body is fixed.
    pub open spec fn name_text(self) -> Seq<char> {
        match self {
            Template::View => "board.html"@,
            Template::Edit => "board_edit.html"@,
            Template::EmptyView => "board.html"@,
        }
    }

    /// The name to hand to the engine for this page.
    pub fn name(&self) -> (name: &'static str)
        ensures
            name@ == self.name_text(),
    {
        match self {
            Template::View => "board.html",
            Template::Edit => "board_edit.html",
            Template::EmptyView => "board.html",
        }
    }
}

/// One request to the template engine: a page and the body to embed in it.
#[derive(Debug)]
pub struct RenderRequest {
    pub template: Template,
    pub body: String,
}

/// A [`RenderRequest`] as the contracts speak of it, with the body as a sequence
/// of characters.
pub struct RenderSpec {
    pub template: Template,
    pub body: Seq<char>,
}

impl View for RenderRequest {
    type V = RenderSpec;

    open spec fn view(&self) -> RenderSpec {
        RenderSpec { template: self.template, body: self.body@ }
    }
}

/// The form is never rendered from the page that only displays the document,
/// and the other way round: the two pages have different names.
pub proof fn edit_page_is_not_view_page()
    ensures
        Template::Edit.name_text() != Template::View.name_text(),
        Template::Edit.name_text() != Template::EmptyView.name_text(),
{
    reveal_strlit("board.html");
    reveal_strlit("board_edit.html");
    assert("board.html"@.len() != "board_edit.html"@.len());
}

} // verus!
