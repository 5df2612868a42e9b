//! Behavioural tests for the library's documented guarantees: the
//! sanitizing and unchecked construction paths, attribute round-trips,
//! child ordering, class-token collapsing and the end-to-end scenarios.

use malvolio::prelude::{
    Body, Br, Class, Div, Download, Head, Html, Id, Select, SelectOption, Target, Text, Title,
    Value, H1, H2, H3, P,
};

#[test]
fn sanitizing_constructor_neutralizes_markup() {
    let rendered = H1::new("<script>alert(1)</script>").render();
    assert!(!rendered.contains("<script>"));

    let rendered = Text::new("<script>alert(1)</script>").render();
    assert!(!rendered.contains("<script>"));

    let rendered = P::with_text("<img src=x onerror=alert(1)>").render();
    assert!(!rendered.contains("onerror"));
}

#[test]
fn unchecked_constructor_is_verbatim() {
    let rendered = H1::new_unchecked("<em>already safe</em>").render();
    assert!(rendered.contains("<em>already safe</em>"));

    let rendered = P::new_unchecked("100% <verbatim>").render();
    assert!(rendered.contains("100% <verbatim>"));
}

#[test]
fn sanitizer_is_idempotent() {
    for input in [
        "plain text",
        "<script>alert(1)</script>",
        "<b><i>nested</i></b> tail",
        "a < b && b > c",
        "<a href=\"https://example.com\" onclick=\"pwn()\">link</a>",
        "",
    ] {
        let once = ammonia::clean(input);
        let twice = ammonia::clean(&once);
        assert_eq!(once, twice);
    }
}

#[test]
fn attribute_round_trip() {
    let div = Div::new().attribute(Id::new("first"));
    assert_eq!(div.read_attribute("id").map(|v| v.as_str()), Some("first"));
    assert_eq!(div.read_attribute("class"), None);

    let div = div.attribute(Id::new("second"));
    assert_eq!(div.read_attribute("id").map(|v| v.as_str()), Some("second"));
}

#[test]
fn container_children_render_in_order() {
    let rendered = Div::new()
        .child(P::with_text("alpha"))
        .child(P::with_text("beta"))
        .child(P::with_text("gamma"))
        .render();
    let first = rendered.find("alpha").unwrap();
    let second = rendered.find("beta").unwrap();
    let third = rendered.find("gamma").unwrap();
    assert!(first < second && second < third);
}

#[test]
fn class_tokens_collapse() {
    let rendered = Div::new()
        .attribute(Class::new().class("a").class("a").class("b"))
        .render();
    let document = scraper::Html::parse_document(&rendered);
    let div = scraper::Selector::parse("div").unwrap();
    let value = document
        .select(&div)
        .next()
        .unwrap()
        .value()
        .attr("class")
        .unwrap();
    let tokens: Vec<&str> = value.split_whitespace().collect();
    assert_eq!(tokens.iter().filter(|t| **t == "a").count(), 1);
    assert_eq!(tokens.iter().filter(|t| **t == "b").count(), 1);
    assert_eq!(tokens.len(), 2);
}

#[test]
fn anchor_scenario() {
    let rendered = malvolio::prelude::A::new()
        .href("https://example.com")
        .attribute(Target::Blank)
        .attribute(Download::new("f"))
        .render();
    let document = scraper::Html::parse_document(&rendered);
    let a = scraper::Selector::parse("a").unwrap();
    let a = document.select(&a).next().unwrap();
    assert_eq!(a.value().attr("href"), Some("https://example.com"));
    assert_eq!(a.value().attr("target"), Some("_blank"));
    assert_eq!(a.value().attr("download"), Some("f"));
    assert_eq!(a.text().count(), 0);
}

#[test]
fn document_scenario() {
    let rendered = Html::new()
        .head(Head::new().child(Title::new("Some title")))
        .body(
            Body::new()
                .child(H1::new("one").attribute(Id::new("1")))
                .child(H2::new("two").attribute(Id::new("2")))
                .child(H3::new("three").attribute(Id::new("3"))),
        )
        .render();
    let document = scraper::Html::parse_document(&rendered);
    let title = scraper::Selector::parse("title").unwrap();
    assert_eq!(
        document.select(&title).next().unwrap().text().next(),
        Some("Some title")
    );
    let headings = scraper::Selector::parse("h1, h2, h3").unwrap();
    let found = document.select(&headings).collect::<Vec<_>>();
    assert_eq!(found.len(), 3);
    assert_eq!(found[0].value().attr("id"), Some("1"));
    assert_eq!(found[1].value().attr("id"), Some("2"));
    assert_eq!(found[2].value().attr("id"), Some("3"));
}

#[test]
fn line_break_renders_exactly() {
    assert_eq!(Br.render(), "<br/>");
}

#[test]
fn empty_document_renders_exactly() {
    assert_eq!(
        Html::new().render(),
        "<!DOCTYPE html><html><head></head><body></body></html>"
    );
}

#[test]
fn heading_renders_exactly() {
    assert_eq!(
        H1::new_unchecked("hi").attribute(Id::new("x")).render(),
        "<h1 id=\"x\">hi</h1>"
    );
}

#[test]
fn attribute_values_are_not_escaped_on_render() {
    // The renderer emits attribute values verbatim, quote characters
    // included: values are trusted to be safe by the time they are stored.
    let rendered = Div::new().raw_attribute("data-x", "a\"b").render();
    assert!(rendered.contains("data-x=\"a\"b\""));
}

#[test]
fn select_options_render_in_order() {
    let rendered = Select::new()
        .child(SelectOption::new().text("first").attribute(Value::new("1")))
        .child(SelectOption::new().text("second").attribute(Value::new("2")))
        .render();
    let document = scraper::Html::parse_document(&rendered);
    let option = scraper::Selector::parse("option").unwrap();
    let options = document.select(&option).collect::<Vec<_>>();
    assert_eq!(options.len(), 2);
    assert_eq!(options[0].value().attr("value"), Some("1"));
    assert_eq!(options[0].text().next(), Some("first"));
    assert_eq!(options[1].value().attr("value"), Some("2"));
    assert_eq!(options[1].text().next(), Some("second"));
}

#[test]
fn clone_renders_identically() {
    let document = Html::new()
        .head(Head::new().child(Title::new("Some title")))
        .body(
            Body::new()
                .child(Div::new().child(P::with_text("nested")).attribute(Id::new("d")))
                .child(H1::new("top")),
        );
    let copy = document.clone();
    assert_eq!(document.render(), copy.render());
}
