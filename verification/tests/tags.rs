use malvolio::prelude::{
    body, head, html, Body, Br, Class, Content, Div, Download, Form, Head, Href, Html, Id, Img,
    Input, Label, Meta, MetaName, NoScript, Style, Target, Text, Title, Type, H1, H4, H5, H6, P,
};
use malvolio::tags::form::{Action, Method};
use malvolio::tags::img::{Alt, Src};
use malvolio::tags::input::{Name, Placeholder, Value};
use std::ops::Deref;

#[test]
fn a_test_a_with_attributes() {
    let document = malvolio::prelude::A::default()
        .attribute(Href::new("https://example.com"))
        .attribute(Target::Blank)
        .attribute(Download::new("some-download"))
        .render();
    let document = scraper::Html::parse_document(&document);
    let a = scraper::Selector::parse("a").unwrap();
    let a = document.select(&a).next().unwrap().value();
    assert_eq!(a.attr("href").unwrap(), "https://example.com");
    assert_eq!(a.attr("target").unwrap(), "_blank");
    assert_eq!(a.attr("download").unwrap(), "some-download");
}

#[test]
fn mod_test_children() {
    let document = Body::new()
        .children(
            vec!["1", "2", "3"]
                .into_iter()
                .map(|item| H1::new(item).attribute(Id::new(item)))
                .collect::<Vec<_>>(),
        )
        .render();
    let document = scraper::Html::parse_document(&document);
    let h1_selector = scraper::Selector::parse("h1").unwrap();
    let h1s = document.select(&h1_selector).collect::<Vec<_>>();
    assert_eq!(h1s.len(), 3);
    assert_eq!(h1s[0].value().attr("id"), Some("1"));
    assert_eq!(
        h1s[0]
            .first_child()
            .unwrap()
            .value()
            .as_text()
            .map(Deref::deref),
        Some("1")
    );
    assert_eq!(h1s[1].value().attr("id"), Some("2"));
    assert_eq!(
        h1s[1]
            .first_child()
            .unwrap()
            .value()
            .as_text()
            .map(Deref::deref),
        Some("2")
    );
    assert_eq!(h1s[2].value().attr("id"), Some("3"));
    assert_eq!(
        h1s[2]
            .first_child()
            .unwrap()
            .value()
            .as_text()
            .map(Deref::deref),
        Some("3")
    );
}

#[test]
fn test_br() {
    let document = Br.render();
    let document = scraper::Html::parse_document(&document);
    let br = scraper::Selector::parse("br").unwrap();
    document.select(&br).next().unwrap();
}

#[test]
fn test_div_attributes() {
    let document = Div::default()
        .attribute(Class::from("some-class"))
        .attribute(Style::new("font-family: Arial;"))
        .render();
    let document = scraper::Html::parse_document(&document);
    let div_selector = scraper::Selector::parse("div").unwrap();
    assert_eq!(document.select(&div_selector).count(), 1);
    let div = document.select(&div_selector).next().unwrap();
    assert_eq!(div.value().attr("class").unwrap(), "some-class");
    assert_eq!(div.value().attr("style").unwrap(), "font-family: Arial;");
}

#[test]
fn test_div_children() {
    let document = Div::default()
        .children(
            vec!["1", "2", "3"]
                .into_iter()
                .map(P::with_text)
                .collect::<Vec<_>>(),
        )
        .render();
    let document = scraper::Html::parse_document(&document);
    let div_selector = scraper::Selector::parse("div").unwrap();
    let div = document.select(&div_selector).next().unwrap();
    let children = div.children().collect::<Vec<_>>();
    assert_eq!(
        children[0]
            .children()
            .next()
            .unwrap()
            .value()
            .as_text()
            .unwrap()
            .to_string()
            .as_str(),
        "1"
    );
    assert_eq!(
        children[1]
            .children()
            .next()
            .unwrap()
            .value()
            .as_text()
            .unwrap()
            .to_string()
            .as_str(),
        "2"
    );
    assert_eq!(
        children[2]
            .children()
            .next()
            .unwrap()
            .value()
            .as_text()
            .unwrap()
            .to_string()
            .as_str(),
        "3"
    );
}

#[test]
fn test_form_tag() {
    let document = Form::new()
        .attribute(Method::Post)
        .attribute(Action::new("/"))
        .render();
    let document = scraper::Html::parse_document(&document);
    let form = scraper::Selector::parse("form").unwrap();
    let form = document.select(&form).next().unwrap().value();
    assert_eq!(form.attr("method"), Some("post"));
    assert_eq!(form.attr("action"), Some("/"));
}

#[test]
fn test_form_with_children() {
    let document = Form::new()
        .child(
            Input::default()
                .attribute(Type::Text)
                .attribute(Name::new("input1")),
        )
        .child(Input::default().attribute(Type::Submit))
        .render();
    let document = scraper::Html::parse_document(&document);
    let input = scraper::Selector::parse("input").unwrap();
    let inputs = document.select(&input).collect::<Vec<_>>();
    assert_eq!(inputs.len(), 2);
    let input1 = inputs[0].value();
    assert_eq!(input1.attr("type"), Some("text"));
    assert_eq!(input1.attr("name"), Some("input1"));
    let input2 = inputs[1].value();
    assert_eq!(input2.attr("type"), Some("submit"))
}

#[test]
fn test_children() {
    let document = Head::new()
        .children(
            vec!["1", "2", "3", "4"]
                .into_iter()
                .map(|item| {
                    Meta::new()
                        .attribute(MetaName::Charset)
                        .attribute(Content::new(item))
                })
                .collect::<Vec<_>>(),
        )
        .render();
    let document = scraper::Html::parse_document(&document);
    let selector = scraper::Selector::parse("meta").unwrap();
    let res = document.select(&selector).collect::<Vec<_>>();
    assert_eq!(res.len(), 4);
    assert_eq!(res[0].value().attr("content"), Some("1"));
    assert_eq!(res[1].value().attr("content"), Some("2"));
    assert_eq!(res[2].value().attr("content"), Some("3"));
    assert_eq!(res[3].value().attr("content"), Some("4"));
}

#[test]
fn test_headings() {
    let document = Html::default()
        .head(Head::default().child(Title::new("Some title")))
        .body(
            Body::default()
                .child(H6::new("Some heading"))
                .child(H6::new("Some other heading"))
                .child(H5::new("Some other other heading"))
                .child(
                    H4::new("Some other other other heading")
                        .attribute(Class::from("heading-class"))
                        .raw_attribute("raw-attr-key", "raw-attr-value"),
                ),
        )
        .render();
    let document = scraper::Html::parse_document(&document);
    let h6_selector = scraper::Selector::parse("h6").unwrap();
    let h5_selector = scraper::Selector::parse("h5").unwrap();
    let h4_selector = scraper::Selector::parse("h4").unwrap();
    assert_eq!(document.select(&h6_selector).collect::<Vec<_>>().len(), 2);
    assert_eq!(document.select(&h5_selector).collect::<Vec<_>>().len(), 1);
    assert_eq!(
        document
            .select(&h6_selector)
            .next()
            .unwrap()
            .text()
            .next()
            .unwrap(),
        "Some heading"
    );
    assert_eq!(
        document
            .select(&h5_selector)
            .next()
            .unwrap()
            .text()
            .next()
            .unwrap(),
        "Some other other heading"
    );
    let h4 = document.select(&h4_selector).next().unwrap();
    assert_eq!(h4.text().next().unwrap(), "Some other other other heading");
    assert_eq!(h4.value().attr("class").unwrap(), "heading-class");
    assert_eq!(h4.value().attr("raw-attr-key").unwrap(), "raw-attr-value");
}

#[test]
fn test_img() {
    let document = Img::new()
        .attribute(Src::new("cat.jpeg"))
        .attribute(Alt::new(
            "An animated picture of a cat doing some humorous task.",
        ))
        .render();
    let document = scraper::Html::parse_document(&document);
    let a = scraper::Selector::parse("img").unwrap();
    let a = document.select(&a).next().unwrap().value();
    assert_eq!(a.attr("src").unwrap(), "cat.jpeg");
    assert_eq!(
        a.attr("alt").unwrap(),
        "An animated picture of a cat doing some humorous task."
    );
}

#[test]
fn test_input() {
    let document = Input::default()
        .attribute(Id::new("some-id"))
        .attribute(Placeholder::new("some-placeholder"))
        .attribute(Value::new("some-value"))
        .render();
    let document = scraper::Html::parse_document(&document);
    let input = scraper::Selector::parse("input").unwrap();
    let input = document.select(&input).next().unwrap().value();
    assert_eq!(input.attr("id"), Some("some-id"));
    assert_eq!(input.attr("placeholder"), Some("some-placeholder"));
    assert_eq!(input.attr("value"), Some("some-value"));
}

#[test]
fn label_test_p() {
    let document = Label::new("Label text").render();
    let document = scraper::Html::parse_document(&document);
    let label = scraper::Selector::parse("label").unwrap();
    let label = document.select(&label).next().unwrap();
    assert_eq!(
        label
            .children()
            .next()
            .unwrap()
            .value()
            .as_text()
            .unwrap()
            .to_string()
            .as_str(),
        "Label text"
    );
}

#[test]
fn meta_test_a_with_attributes() {
    let document = Meta::default()
        .attribute(MetaName::Charset)
        .attribute(Content::new("utf-8"))
        .render();
    let document = scraper::Html::parse_document(&document);
    let a = scraper::Selector::parse("meta").unwrap();
    let a = document.select(&a).next().unwrap().value();
    assert_eq!(a.attr("name").unwrap(), "charset");
}

#[test]
fn test_noscript() {
    let document = NoScript::new("No Javascript :)").render();
    let document = scraper::Html::parse_document(&document);
    let noscript = scraper::Selector::parse("noscript").unwrap();
    let tag = document.select(&noscript).next().unwrap();
    assert_eq!(
        tag.first_child()
            .unwrap()
            .value()
            .as_text()
            .unwrap()
            .to_string()
            .as_str(),
        "No Javascript :)"
    );
}

#[test]
fn p_test_p() {
    let document = P::with_text("Some text").render();
    let document = scraper::Html::parse_document(&document);
    let p = scraper::Selector::parse("p").unwrap();
    let p = document.select(&p).next().unwrap();
    assert_eq!(
        p.children()
            .next()
            .unwrap()
            .value()
            .as_text()
            .unwrap()
            .to_string()
            .as_str(),
        "Some text"
    );
}

#[test]
fn test_p_attrs() {
    let document = P::new("Some text")
        .attribute(Id::new("an-id"))
        .attribute(Class::from("a-class"))
        .render();
    let document = scraper::Html::parse_document(&document);
    let p = scraper::Selector::parse("p").unwrap();
    let p = document.select(&p).next().unwrap();
    assert_eq!(
        p.children()
            .next()
            .unwrap()
            .value()
            .as_text()
            .unwrap()
            .to_string()
            .as_str(),
        "Some text"
    );
    let el = p.value();
    assert_eq!(el.id(), Some("an-id"));
    assert_eq!(el.attr("class"), Some("a-class"));
}

#[test]
fn test_unsanitized() {
    let text = Text::new("<script>alert(\"hello\")</script>");
    assert_ne!(&text.render(), "<script>alert(\"hello\")</script>");

    let text = Text::new_unchecked("<script>alert(\"hello\")</script>");
    assert_eq!(&text.render(), "<script>alert(\"hello\")</script>");
}

#[test]
fn regression_1() {
    let document = html().head(head()).body(body()).render();
    let doc = scraper::Html::parse_document(&document);
    let root = doc.tree.root().first_child().unwrap();
    assert!(root.value().is_doctype());
    let html_node = root.next_sibling().unwrap();
    let head_node = html_node.first_child().unwrap();
    assert!(head_node.value().is_element());
    let body_node = head_node.next_sibling().unwrap();
    assert!(body_node.value().is_element());
    assert_eq!(body_node.children().count(), 0);
}

#[test]
fn regression_3() {
    let document = html()
        .head(head())
        .body(body().child(Img::new()))
        .render();
    let doc = scraper::Html::parse_document(&document);
    let root = doc.tree.root().first_child().unwrap();
    assert!(root.value().is_doctype());
    let img = scraper::Selector::parse("body > img").unwrap();
    assert_eq!(doc.select(&img).count(), 1);
}
