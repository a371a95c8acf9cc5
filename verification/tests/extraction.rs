use wikicache::extract::{extract, ExtractionError};

fn page_with_three_anchors() -> String {
    String::from("<html><body><h1>Cat</h1><div id=\"mw-content-text\"><p><a href=\"/wiki/Cat\">cat</a><a href=\"/wiki/Help:About\">help</a><a href=\"/wiki/File:Pic.png\">picture</a></p></div></body></html>")
}

#[test]
fn three_anchors_keep_exactly_the_article_link() {
    let rec = extract(&page_with_three_anchors(), &String::from("Cat"))
        .expect("a page with heading and container must extract");
    assert_eq!(rec.links, vec![String::from("Cat")]);
}

#[test]
fn extracted_record_fields() {
    let rec = extract(&page_with_three_anchors(), &String::from("Cat"))
        .expect("a page with heading and container must extract");
    assert_eq!(rec.title, "Cat");
    assert_eq!(rec.slug, "Cat");
    assert!(rec.content_html.contains("/wiki/Cat"));
    assert!(rec.content_html.contains("mw-content-text") || rec.content_html.contains("<p>"));
}

#[test]
fn missing_container_fails_extraction() {
    let html = String::from("<html><body><h1>Cat</h1><p>no container here</p></body></html>");
    let got = extract(&html, &String::from("Cat"));
    assert_eq!(got.unwrap_err(), ExtractionError::MissingContent);
}

#[test]
fn missing_heading_fails_extraction() {
    let html = String::from(
        "<html><body><div id=\"mw-content-text\"><a href=\"/wiki/Cat\">cat</a></div></body></html>",
    );
    let got = extract(&html, &String::from("Cat"));
    assert_eq!(got.unwrap_err(), ExtractionError::MissingTitle);
}

#[test]
fn empty_heading_counts_as_missing_title() {
    let html = String::from("<html><body><h1></h1><div id=\"mw-content-text\"><a href=\"/wiki/Cat\">cat</a></div></body></html>");
    let got = extract(&html, &String::from("Cat"));
    assert_eq!(got.unwrap_err(), ExtractionError::MissingTitle);
}

#[test]
fn extracted_title_is_never_empty() {
    let rec = extract(&page_with_three_anchors(), &String::from("Cat"))
        .expect("a page with heading and container must extract");
    assert!(!rec.title.is_empty());
}

#[test]
fn duplicate_targets_collapse() {
    let html = String::from("<html><body><h1>Cat</h1><div id=\"mw-content-text\"><a href=\"/wiki/Dog\">one</a><a href=\"/wiki/Dog\">two</a><a href=\"/wiki/Mouse\">three</a></div></body></html>");
    let mut links = extract(&html, &String::from("Cat")).expect("must extract").links;
    links.sort();
    assert_eq!(links, vec![String::from("Dog"), String::from("Mouse")]);
}

#[test]
fn external_and_anchor_targets_are_discarded() {
    let html = String::from("<html><body><h1>Cat</h1><div id=\"mw-content-text\"><a href=\"https://example.com/wiki/Cat\">external</a><a href=\"#section\">anchor</a><a href=\"/wiki/Cat\">kept</a><a>no target</a></div></body></html>");
    let rec = extract(&html, &String::from("Cat")).expect("must extract");
    assert_eq!(rec.links, vec![String::from("Cat")]);
}

#[test]
fn links_outside_the_container_are_ignored() {
    let html = String::from("<html><body><h1>Cat</h1><a href=\"/wiki/Outside\">outside</a><div id=\"mw-content-text\"><a href=\"/wiki/Inside\">inside</a></div></body></html>");
    let rec = extract(&html, &String::from("Cat")).expect("must extract");
    assert_eq!(rec.links, vec![String::from("Inside")]);
}
