use mangater::errors::SdkError;
use mangater::util::html_parsing::{
    checked_parse_plain_text_and_images, clean_text, parse_images, parse_images_through_html, parse_plain_text_and_images,
    try_parse_images, try_parse_plain_text_and_images, HtmlEntry, HtmlFinding, HtmlItem,
};

fn element(depth: usize, name: &str) -> HtmlEntry {
    HtmlEntry { depth, item: HtmlItem::Element(name.to_string()) }
}

fn text(depth: usize, content: &str) -> HtmlEntry {
    HtmlEntry { depth, item: HtmlItem::Text(content.to_string()) }
}

fn other(depth: usize) -> HtmlEntry {
    HtmlEntry { depth, item: HtmlItem::Other }
}

#[test]
fn an_empty_outline_has_no_text() {
    assert_eq!(clean_text(&Vec::new()), "");
    assert_eq!(clean_text(&vec![element(0, "div")]), "");
}

#[test]
fn text_nodes_are_taken_as_they_stand() {
    let outline = vec![element(3, "div"), text(4, " a "), text(4, "b\n")];
    assert_eq!(clean_text(&outline), " a b\n");
}

#[test]
fn inline_elements_run_together() {
    let outline = vec![
        element(0, "div"),
        text(1, "Hello, "),
        element(1, "b"),
        text(2, "wor"),
        element(2, "i"),
        text(3, "l"),
        text(2, "d"),
        text(1, "!"),
    ];
    assert_eq!(clean_text(&outline), "Hello, world!");
}

#[test]
fn block_elements_stand_between_spaces() {
    for name in ["p", "div", "li", "h1", "h2", "h3"] {
        let outline = vec![element(0, "section"), text(1, "a"), element(1, name), text(2, "b"), text(1, "c")];
        assert_eq!(clean_text(&outline), "a b c", "{}", name);
    }
    let outline = vec![element(0, "section"), text(1, "a"), element(1, "h4"), text(2, "b"), text(1, "c")];
    assert_eq!(clean_text(&outline), "abc");
}

#[test]
fn an_empty_block_leaves_two_spaces() {
    let outline = vec![element(0, "div"), element(1, "p"), element(1, "p")];
    assert_eq!(clean_text(&outline), "    ");
}

#[test]
fn nested_blocks_nest_their_spaces() {
    let outline = vec![
        element(0, "body"),
        element(1, "div"),
        element(2, "p"),
        text(3, "x"),
        text(2, "y"),
    ];
    assert_eq!(clean_text(&outline), "  x y ");
}

#[test]
fn style_sheets_and_scripts_are_left_out() {
    let outline = vec![
        element(0, "div"),
        text(1, "a"),
        element(1, "style"),
        text(2, "p { color: red }"),
        element(1, "script"),
        text(2, "alert(1)"),
        element(2, "p"),
        text(3, "hidden"),
        text(1, "b"),
    ];
    assert_eq!(clean_text(&outline), "ab");
}

#[test]
fn the_head_of_the_outline_is_not_framed() {
    let outline = vec![element(0, "p"), text(1, "a")];
    assert_eq!(clean_text(&outline), "a");
    let outline = vec![element(0, "script"), text(1, "a")];
    assert_eq!(clean_text(&outline), "a");
}

#[test]
fn comments_give_nothing() {
    let outline = vec![element(0, "div"), text(1, "a"), other(1), text(1, "b")];
    assert_eq!(clean_text(&outline), "ab");
}

#[test]
fn the_text_ends_where_the_outline_leaves_the_element() {
    let outline = vec![element(2, "div"), text(3, "a"), text(2, "outside"), text(3, "b")];
    assert_eq!(clean_text(&outline), "a");
    let outline = vec![element(2, "div"), text(3, "a"), text(5, "too deep"), text(3, "b")];
    assert_eq!(clean_text(&outline), "a");
}

#[test]
fn images_are_the_findings_with_a_source() {
    let findings = vec![
        HtmlFinding { attribute: Some("cat.jpg".to_string()), html: "<img src=\"cat.jpg\">".to_string() },
        HtmlFinding { attribute: None, html: "<img alt=\"none\">".to_string() },
        HtmlFinding { attribute: Some(String::new()), html: "<img src=\"\">".to_string() },
    ];
    let images = parse_images_through_html(&findings);
    assert_eq!(images.len(), 2);
    assert_eq!(images[0].src, "cat.jpg");
    assert_eq!(images[0].inner_html, "<img src=\"cat.jpg\">");
    assert_eq!(images[1].src, "");
    assert_eq!(images[1].inner_html, "<img src=\"\">");
    assert!(parse_images_through_html(&Vec::new()).is_empty());
}

#[test]
fn parse_images_finds_the_images_of_a_page() {
    const CONTENT: &str = r#"<img src="cat.jpg"><img src="dog.png">"#;
    let images = parse_images(CONTENT.to_string());
    assert_eq!(images.len(), 2);
    assert_eq!(images[0].src, "cat.jpg");
    assert_eq!(images[1].src, "dog.png");
    assert_eq!(images[0].inner_html, "<img src=\"cat.jpg\">");
}

#[test]
fn parse_images_skips_images_without_a_source() {
    let content = "<html><body><p>text<img alt=\"x\"><img class=\"c\" src=\"a.png\"></p></body></html>";
    let images = parse_images(content.to_string());
    assert_eq!(images.len(), 1);
    assert_eq!(images[0].src, "a.png");
    assert!(images[0].inner_html.contains("class=\"c\""));
    assert!(parse_images("no markup at all".to_string()).is_empty());
    assert_eq!(try_parse_images(content.to_string()).map(|found| found.len()), Some(1));
}

#[test]
fn the_content_area_is_read_and_the_images_of_the_page_are_found() {
    let content = "<html><head><style>p{}</style></head><body><img src=\"top.png\">\
        <div id=\"mw-content-text\">Intro <b>bold</b><p>A paragraph.</p>\
        <script>var x;</script><!-- note --><ul><li>one</li><li>two</li></ul>\
        <img src=\"in.png\"></div><p>footer</p></body></html>";
    let page = parse_plain_text_and_images(content.to_string());
    assert_eq!(page.text, "Intro bold A paragraph.  one  two ");
    assert_eq!(page.images.len(), 2);
    assert_eq!(page.images[0].src, "top.png");
    assert_eq!(page.images[1].src, "in.png");
    let tried = try_parse_plain_text_and_images(content.to_string()).expect("a content area");
    assert_eq!(tried.text, page.text);
    assert_eq!(tried.images.len(), 2);
}

#[test]
fn a_page_without_a_content_area_is_none() {
    let content = "<html><body><div id=\"other\">text</div><img src=\"a.png\"></body></html>";
    assert!(try_parse_plain_text_and_images(content.to_string()).is_none());
    assert!(try_parse_plain_text_and_images(String::new()).is_none());
}

#[test]
fn a_page_without_a_content_area_is_a_parse_error() {
    match checked_parse_plain_text_and_images("<p>x</p>".to_string()) {
        Err(SdkError::Parse(detail)) => assert_eq!(detail, "selector not found: #mw-content-text"),
        _ => panic!("expected a parse error"),
    }
    match checked_parse_plain_text_and_images(String::new()) {
        Err(error) => assert_eq!(error.to_string(), "parse error: selector not found: #mw-content-text"),
        Ok(_) => panic!("expected a parse error"),
    }
}

#[test]
fn a_page_with_a_content_area_is_read() {
    let content = "<div id=\"mw-content-text\"><p>A</p>b<img src=\"a.png\"></div>";
    let page = checked_parse_plain_text_and_images(content.to_string()).expect("a page");
    assert_eq!(page.text, " A b");
    assert_eq!(page.images.len(), 1);
    assert_eq!(page.images[0].src, "a.png");
}
