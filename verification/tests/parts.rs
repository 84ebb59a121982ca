use board::error::{BoardError, Fault};
use board::format::{decode, encode};
use board::plan::{delete_request, edit_request, save_request, view_request};
use board::page::is_plain_page;
use board::render::{page_of, Pages};
use board::service::respond;
use board::store::DocumentStore;
use board::template::{body_variable, RenderRequest, Template};

fn request_parts(plan: Result<RenderRequest, BoardError>) -> Result<(Template, String), BoardError> {
    plan.map(|request| (request.template, request.body))
}

#[test]
fn encode_gives_the_utf8_bytes() {
    assert_eq!(encode(""), Vec::<u8>::new());
    assert_eq!(encode("hi\n"), vec![0x68, 0x69, 0x0a]);
    assert_eq!(encode("\u{e9}"), vec![0xc3, 0xa9]);
    assert_eq!(encode("\u{20ac}"), vec![0xe2, 0x82, 0xac]);
    assert_eq!(encode("\u{1f600}"), vec![0xf0, 0x9f, 0x98, 0x80]);
}

#[test]
fn decode_reads_utf8_bytes() {
    assert_eq!(decode(Vec::new()), Ok(String::new()));
    assert_eq!(decode(vec![0x68, 0x69, 0x0a]), Ok("hi\n".to_string()));
    assert_eq!(decode(vec![0xc3, 0xa9]), Ok("\u{e9}".to_string()));
    assert_eq!(decode(vec![0xf0, 0x9f, 0x98, 0x80]), Ok("\u{1f600}".to_string()));
}

#[test]
fn decode_rejects_bytes_that_are_no_utf8() {
    assert_eq!(decode(vec![0xff]), Err(BoardError::StorageFailure));
    assert_eq!(decode(vec![0xc3]), Err(BoardError::StorageFailure));
    assert_eq!(decode(vec![0x68, 0x80]), Err(BoardError::StorageFailure));
    assert_eq!(decode(vec![0xc0, 0xaf]), Err(BoardError::StorageFailure));
    assert_eq!(decode(vec![0xed, 0xa0, 0x80]), Err(BoardError::StorageFailure));
}

#[test]
fn decode_undoes_encode() {
    for text in ["", "plain", " lead and trail ", "line\r\nline\n", "\u{0}\u{7f}", "\u{4f60}\u{597d}"] {
        assert_eq!(decode(encode(text)), Ok(text.to_string()));
    }
}

#[test]
fn store_starts_without_a_document() {
    let store = DocumentStore::new();
    assert_eq!(store.read(), Err(Fault::NotFound));
}

#[test]
fn store_write_replaces_the_whole_document() {
    let mut store = DocumentStore::new();
    assert_eq!(store.write(vec![1, 2, 3, 4]), Ok(()));
    assert_eq!(store.read(), Ok(vec![1, 2, 3, 4]));
    assert_eq!(store.write(vec![9]), Ok(()));
    assert_eq!(store.read(), Ok(vec![9]));
}

#[test]
fn store_remove_reports_whether_there_was_a_document() {
    let mut store = DocumentStore::new();
    assert_eq!(store.remove(), Err(Fault::NotFound));
    assert_eq!(store.write(vec![1]), Ok(()));
    assert_eq!(store.remove(), Ok(()));
    assert_eq!(store.read(), Err(Fault::NotFound));
    assert_eq!(store.remove(), Err(Fault::NotFound));
}

#[test]
fn read_only_store_refuses_changes_and_keeps_the_document() {
    let mut store = DocumentStore::new();
    assert_eq!(store.write(vec![1, 2]), Ok(()));
    store.set_read_only(true);
    assert_eq!(store.write(vec![3]), Err(Fault::Other));
    assert_eq!(store.remove(), Err(Fault::Other));
    assert_eq!(store.read(), Ok(vec![1, 2]));
    store.set_read_only(false);
    assert_eq!(store.remove(), Ok(()));
    assert_eq!(store.read(), Err(Fault::NotFound));
}

#[test]
fn read_only_store_without_a_document_reports_it_missing() {
    let mut store = DocumentStore::new();
    store.set_read_only(true);
    assert_eq!(store.remove(), Err(Fault::NotFound));
    assert_eq!(store.write(Vec::new()), Err(Fault::Other));
    assert_eq!(store.read(), Err(Fault::NotFound));
}

#[test]
fn view_request_asks_for_the_view_page_over_what_was_read() {
    assert_eq!(
        request_parts(view_request(Ok(b"body".to_vec()))),
        Ok((Template::View, "body".to_string()))
    );
    assert_eq!(request_parts(view_request(Err(Fault::NotFound))), Ok((Template::View, String::new())));
    assert_eq!(request_parts(view_request(Err(Fault::Other))), Err(BoardError::StorageFailure));
    assert_eq!(request_parts(view_request(Ok(vec![0xff]))), Err(BoardError::StorageFailure));
}

#[test]
fn edit_request_asks_for_the_edit_page_over_what_was_read() {
    assert_eq!(
        request_parts(edit_request(Ok(b"body".to_vec()))),
        Ok((Template::Edit, "body".to_string()))
    );
    assert_eq!(request_parts(edit_request(Err(Fault::NotFound))), Ok((Template::Edit, String::new())));
    assert_eq!(request_parts(edit_request(Err(Fault::Other))), Err(BoardError::StorageFailure));
    assert_eq!(request_parts(edit_request(Ok(vec![0x80]))), Err(BoardError::StorageFailure));
}

#[test]
fn save_request_asks_for_the_view_page_over_the_incoming_text() {
    assert_eq!(
        request_parts(save_request("incoming".to_string(), Ok(()))),
        Ok((Template::View, "incoming".to_string()))
    );
    assert_eq!(
        request_parts(save_request("incoming".to_string(), Err(Fault::Other))),
        Err(BoardError::StorageFailure)
    );
    assert_eq!(
        request_parts(save_request("incoming".to_string(), Err(Fault::NotFound))),
        Err(BoardError::StorageFailure)
    );
}

#[test]
fn delete_request_asks_for_the_empty_page() {
    assert_eq!(request_parts(delete_request(Ok(()))), Ok((Template::EmptyView, String::new())));
    assert_eq!(
        request_parts(delete_request(Err(Fault::NotFound))),
        Ok((Template::EmptyView, String::new()))
    );
    assert_eq!(request_parts(delete_request(Err(Fault::Other))), Err(BoardError::StorageFailure));
}

#[test]
fn templates_have_their_names() {
    assert_eq!(Template::View.name(), "board.html");
    assert_eq!(Template::Edit.name(), "board_edit.html");
    assert_eq!(Template::EmptyView.name(), "board.html");
    assert_ne!(Template::Edit.name(), Template::View.name());
    assert_eq!(body_variable(), "text");
}

#[test]
fn render_hands_the_engine_the_page_and_the_body() {
    let mut pages = Pages::new();
    pages.add("board.html", "view of [{{ text }}]").unwrap();
    pages.add("board_edit.html", "form over [{{ text }}]").unwrap();
    let view = RenderRequest { template: Template::View, body: "one".to_string() };
    let edit = RenderRequest { template: Template::Edit, body: "two".to_string() };
    let empty = RenderRequest { template: Template::EmptyView, body: String::new() };
    assert_eq!(pages.render(&view), Ok("view of [one]".to_string()));
    assert_eq!(pages.render(&edit), Ok("form over [two]".to_string()));
    assert_eq!(pages.render(&empty), Ok("view of []".to_string()));
}

#[test]
fn render_puts_the_body_in_every_place_for_it() {
    let mut pages = Pages::new();
    pages.add("board.html", "{{ text }}|{{ text }}").unwrap();
    let view = RenderRequest { template: Template::View, body: "twice".to_string() };
    assert_eq!(pages.render(&view), Ok("twice|twice".to_string()));
}

#[test]
fn render_of_a_page_without_a_place_for_the_body_is_the_page() {
    let mut pages = Pages::new();
    pages.add("board.html", "<p>closed</p>").unwrap();
    let view = RenderRequest { template: Template::View, body: "unseen".to_string() };
    assert_eq!(pages.render(&view), Ok("<p>closed</p>".to_string()));
}

#[test]
fn render_fails_without_the_page() {
    let mut pages = Pages::new();
    pages.add("other.html", "{{ text }}").unwrap();
    let view = RenderRequest { template: Template::View, body: "one".to_string() };
    assert_eq!(pages.render(&view), Err(BoardError::RenderFailure));
}

#[test]
fn render_gives_the_same_page_for_the_same_request() {
    let mut pages = Pages::new();
    pages.add("board.html", "<pre>{{ text }}</pre>").unwrap();
    let view = RenderRequest { template: Template::View, body: "a < b".to_string() };
    assert_eq!(pages.render(&view), Ok("<pre>a &lt; b</pre>".to_string()));
    assert_eq!(pages.render(&view), pages.render(&view));
}

#[test]
fn later_page_replaces_the_earlier_of_its_name() {
    let mut pages = Pages::new();
    pages.add("board.html", "old {{ text }}").unwrap();
    pages.add("board.html", "new {{ text }}").unwrap();
    let view = RenderRequest { template: Template::View, body: "body".to_string() };
    assert_eq!(pages.render(&view), Ok("new body".to_string()));
}

#[test]
fn refused_page_leaves_the_earlier_in_place() {
    let mut pages = Pages::new();
    pages.add("board.html", "kept {{ text }}").unwrap();
    assert_eq!(pages.add("board.html", "{% if text %}lost{% endif %}"), Err(BoardError::RenderFailure));
    let view = RenderRequest { template: Template::View, body: "body".to_string() };
    assert_eq!(pages.render(&view), Ok("kept body".to_string()));
}

#[test]
fn plain_pages_are_told_from_templates_that_do_more() {
    for page in [
        "",
        "plain",
        "{{ text }}",
        "<pre>{{ text }}</pre>{{ text }}",
        "a { b } c",
        "}} %} #} {",
        "{ { text } }",
        "{",
        "body { color: red }",
        "gr\u{fc}\u{df}e {{ text }} \u{4f60}",
    ] {
        assert!(is_plain_page(page), "{}", page);
    }
    for page in [
        "{{text}}",
        "{{ text}}",
        "{{  text }}",
        "{{- text }}",
        "{{ text -}}",
        "{{ text | safe }}",
        "{{ other }}",
        "{{ text }",
        "{{",
        "x{%",
        "{{{ text }}",
        "{# a comment #}",
        "{% if text %}x{% endif %}",
        "{% extends \"base.html\" %}",
        "{% include \"board.html\" %}",
        "{% raw %}{{ text }}{% endraw %}",
        "{{ get_random(start=1, end=1) }}",
        "{{ 1.5 + 2.5 }}",
        "{% macro again() %}{{ self::again() }}{% endmacro %}",
    ] {
        assert!(!is_plain_page(page), "{}", page);
    }
}

#[test]
fn pages_take_plain_pages_and_refuse_the_rest() {
    let mut pages = Pages::new();
    for page in ["", "plain", "a { b } c", "}} %} #} {", "{", "{{ text }}{{ text }}"] {
        assert_eq!(pages.add("board.html", page), Ok(()), "{}", page);
    }
    for page in ["{{text}}", "{{ get_random(start=1, end=1) }}", "{{ 1.5 + 2.5 }}", "{{"] {
        assert_eq!(pages.add("board.html", page), Err(BoardError::RenderFailure), "{}", page);
    }
}

#[test]
fn page_of_keeps_the_output_and_replaces_the_error() {
    assert_eq!(page_of(Ok("<p>page</p>".to_string())), Ok("<p>page</p>".to_string()));
    assert_eq!(page_of(Ok(String::new())), Ok(String::new()));
    assert_eq!(page_of(Err(tera::Error::msg("broken"))), Err(BoardError::RenderFailure));
    assert_eq!(
        page_of(Err(tera::Error::template_not_found("board.html"))),
        Err(BoardError::RenderFailure)
    );
}

#[test]
fn respond_passes_a_failed_plan_on() {
    let mut engine = Pages::new();
    engine.add("board.html", "{{ text }}").unwrap();
    assert_eq!(respond(&engine, Err(BoardError::StorageFailure)), Err(BoardError::StorageFailure));
    assert_eq!(respond(&engine, Err(BoardError::RenderFailure)), Err(BoardError::RenderFailure));
    let plan = Ok(RenderRequest { template: Template::View, body: "shown".to_string() });
    assert_eq!(respond(&engine, plan), Ok("shown".to_string()));
}

#[test]
fn errors_have_messages() {
    assert_eq!(BoardError::StorageFailure.message(), "the document could not be stored or read");
    assert_eq!(BoardError::RenderFailure.message(), "the page could not be rendered");
    assert_ne!(BoardError::StorageFailure, BoardError::RenderFailure);
}
