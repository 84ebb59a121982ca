//! Rendering through the template engine.
//!
//! The engine is kept inside [`Pages`], which hands it nothing but plain pages
//! and never changes its settings. On such an engine a rendering always comes
//! back, and what it gives depends on the page, its name and the body alone.

use vstd::prelude::*;
use crate::error::BoardError;
use crate::page::{is_plain_page, plain_page};
use crate::template::{body_variable, RenderRequest, RenderSpec};

verus! {

/// The template engine, `tera::Tera`. Nothing inside it is visible here.
#[verifier::external_type_specification]
#[verifier::external_body]
pub struct ExTera(tera::Tera);

/// The engine's error, `tera::Error`. Nothing inside it is visible here.
#[verifier::external_type_specification]
#[verifier::external_body]
pub struct ExTeraError(tera::Error);

/// Whether an engine is as `tera::Tera::default` makes it but for its
/// templates, and holds no template but such as `tera::Tera::add_raw_template`
/// made of a plain page. Its templates then call no function, filter, test or
/// macro, compute nothing and name no other template.
pub uninterp spec fn holds_plain_pages(engine: tera::Tera) -> bool;

/// The templates that an engine holds: each name with the text that its
/// template was made of.
pub uninterp spec fn page_texts(engine: tera::Tera) -> Map<Seq<char>, Seq<char>>;

/// No page under any name.
pub open spec fn no_pages() -> Map<Seq<char>, Seq<char>> {
    Map::empty()
}

/// What the engine makes of the plain page `page`, held under the name `name`,
/// where `variable` is bound to the string `value` and nothing else is bound.
pub uninterp spec fn page_html(
    page: Seq<char>,
    name: Seq<char>,
    variable: Seq<char>,
    value: Seq<char>,
) -> Seq<char>;

/// `tera::Tera::default`.
///
/// Trusted, not proved: the engine it makes holds no template.
#[verifier::external_body]
fn empty_engine() -> (engine: tera::Tera)
    ensures
        holds_plain_pages(engine),
        page_texts(engine) == no_pages(),
{
    tera::Tera::default()
}

/// `tera::Tera::add_raw_template`, for a plain page on an engine that holds
/// nothing else.
///
/// Trusted, not proved: where the engine accepts the page it holds it from
/// then on under `name`, in place of what it held under that name, and where
/// it does not, it holds what it held. Either way it holds plain pages alone,
/// and the call comes back: to parse a plain page takes no more than to tell
/// its text from its places for the body. Whether every plain page is accepted
/// is not claimed.
#[verifier::external_body]
fn add_page(engine: &mut tera::Tera, name: &str, page: &str) -> (added: Result<(), tera::Error>)
    requires
        holds_plain_pages(*old(engine)),
        plain_page(page@),
    ensures
        holds_plain_pages(*final(engine)),
        added is Ok ==> page_texts(*final(engine)) == page_texts(*old(engine)).insert(
            name@,
            page@,
        ),
        added is Err ==> page_texts(*final(engine)) == page_texts(*old(engine)),
    no_unwind
{
    engine.add_raw_template(name, page)
}

/// `tera::Tera::render`, on a context that `tera::Context::new` and
/// `tera::Context::insert` make with the one variable `variable`, bound to the
/// string `value`.
///
/// Trusted, not proved, of an engine that holds plain pages alone: the engine
/// looks the template up by its name first and fails where it holds none of
/// that name. A page that it holds is text and places for the variable `text`,
/// so with that variable bound the rendering succeeds, and its result is fixed
/// by the page, its name, which decides on escaping, and the value.
#[verifier::external_body]
fn render_with(engine: &tera::Tera, template: &str, variable: &str, value: &str) -> (rendered:
    Result<String, tera::Error>)
    requires
        holds_plain_pages(*engine),
    ensures
        !page_texts(*engine).dom().contains(template@) ==> rendered is Err,
        page_texts(*engine).dom().contains(template@) && variable@ == "text"@ ==> rendered is Ok
            && rendered.unwrap()@ == page_html(
            page_texts(*engine)[template@],
            template@,
            variable@,
            value@,
        ),
{
    let mut context = tera::Context::new();
    context.insert(variable, value);
    engine.render(template, &context)
}

/// The answer for what the engine returned: its output as the page, or a
/// render failure in place of any error of the engine.
pub fn page_of(rendered: Result<String, tera::Error>) -> (page: Result<String, BoardError>)
    ensures
        match rendered {
            Ok(html) => page == Ok::<String, BoardError>(html),
            Err(_) => page == Err::<String, BoardError>(BoardError::RenderFailure),
        },
{
    match rendered {
        Ok(html) => Ok(html),
        Err(_) => Err(BoardError::RenderFailure),
    }
}

/// What rendering `request` gives on an engine with the pages `texts`: the
/// page of that name with the body put in, or nothing where there is no page
/// of that name.
pub open spec fn rendered(texts: Map<Seq<char>, Seq<char>>, request: RenderSpec) -> Option<
    Seq<char>,
> {
    let name = request.template.name_text();
    if texts.dom().contains(name) {
        Some(page_html(texts[name], name, "text"@, request.body))
    } else {
        None
    }
}

/// The pages of a deployment, held by the engine that renders them.
pub struct Pages {
    engine: tera::Tera,
}

impl View for Pages {
    type V = Map<Seq<char>, Seq<char>>;

    /// Each page's name with its text.
    closed spec fn view(&self) -> Map<Seq<char>, Seq<char>> {
        page_texts(self.engine)
    }
}

impl Pages {
    #[verifier::type_invariant]
    spec fn plain(self) -> bool {
        holds_plain_pages(self.engine)
    }

    /// No pages yet.
    pub fn new() -> (pages: Pages)
        ensures
            pages@ == no_pages(),
    {
        Pages { engine: empty_engine() }
    }

    /// Adds `page` under `name`, in place of an earlier page of that name. A
    /// text that is no plain page is refused, and the engine may refuse one
    /// that is; a refusal changes nothing.
    pub fn add(&mut self, name: &str, page: &str) -> (added: Result<(), BoardError>)
        ensures
            !plain_page(page@) ==> added is Err,
            match added {
                Ok(_) => final(self)@ == old(self)@.insert(name@, page@),
                Err(error) => error == BoardError::RenderFailure && final(self)@ == old(self)@,
            },
    {
        proof {
            use_type_invariant(&*self);
        }
        if !is_plain_page(page) {
            return Err(BoardError::RenderFailure);
        }
        match add_page(&mut self.engine, name, page) {
            Ok(_) => Ok(()),
            Err(_) => Err(BoardError::RenderFailure),
        }
    }

    /// Renders one page: the engine is handed the name of the request's
    /// template and the request's body under the variable that the pages read.
    /// Without a page of that name the rendering fails.
    pub fn render(&self, request: &RenderRequest) -> (page: Result<String, BoardError>)
        ensures
            match rendered(self@, request@) {
                Some(html) => page is Ok && page.unwrap()@ == html,
                None => page == Err::<String, BoardError>(BoardError::RenderFailure),
            },
    {
        proof {
            use_type_invariant(self);
        }
        let rendered = render_with(
            &self.engine,
            request.template.name(),
            body_variable(),
            request.body.as_str(),
        );
        page_of(rendered)
    }
}

} // verus!
