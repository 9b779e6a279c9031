//! Reading markup: the text of an element and the images of a page.

use crate::entity::{HtmlImage, HtmlPlainTextAndImages};
use crate::errors::SdkError;
use vstd::prelude::*;

verus! {

/// The selector of the elements that hold images.
pub const IMAGE_SELECTOR: &'static str = "img";

/// The attribute that says where an image is to be had.
pub const IMAGE_SOURCE: &'static str = "src";

/// The selector of the element that holds a page's content.
pub const CONTENT_SELECTOR: &'static str = "#mw-content-text";

/// What a page without a content area reports.
pub const CONTENT_NOT_FOUND: &'static str = "selector not found: #mw-content-text";

/// What a page reports whose images cannot be selected.
pub const IMAGES_NOT_SELECTED: &'static str = "selector not understood: img";

/// What a node of a parsed page is.
pub enum HtmlItem {
    /// A run of text.
    Text(String),
    /// An element, by its local name, such as `div`.
    Element(String),
    /// A comment, a doctype or a processing instruction.
    Other,
}

/// One node of an outline: an element and everything below it, listed in
/// document order, each node with the number of its ancestors. The children
/// of a node are the nodes one level deeper that follow it before the next
/// node at its own level or above.
pub struct HtmlEntry {
    /// The number of ancestors of the node.
    pub depth: usize,
    /// What the node is.
    pub item: HtmlItem,
}

/// Elements whose text is not meant for a reader.
pub open spec fn is_unread(name: Seq<char>) -> bool {
    name == "style"@ || name == "script"@
}

/// Elements whose text stands apart from the text around it.
pub open spec fn is_block(name: Seq<char>) -> bool {
    name == "p"@ || name == "div"@ || name == "li"@ || name == "h1"@ || name == "h2"@ || name
        == "h3"@
}

/// What an element named `name` adds to the text around it, given the text
/// `inner` of its children: nothing for a style sheet or a script, `inner`
/// between two spaces for a block, `inner` as it is for anything else.
pub open spec fn spec_framed(name: Seq<char>, inner: Seq<char>) -> Seq<char> {
    if is_unread(name) {
        Seq::empty()
    } else if is_block(name) {
        " "@ + inner + " "@
    } else {
        inner
    }
}

/// The readable text of the siblings that start at `start` and lie at `depth`,
/// with the index of the first entry after them and their descendants. The run
/// ends at the first entry that is not at `depth`. After an element the run
/// goes on where the run of the element's children ends, which lies behind the
/// element and within the outline (`lemma_clean_run_bounds`).
pub open spec fn spec_clean_run(outline: Seq<HtmlEntry>, start: int, depth: int) -> (Seq<char>, int)
    decreases outline.len() - start,
{
    if start < 0 || start >= outline.len() || outline[start].depth != depth {
        (Seq::empty(), start)
    } else {
        let below = spec_clean_run(outline, start + 1, depth + 1);
        let own = match outline[start].item {
            HtmlItem::Text(text) => text@,
            HtmlItem::Element(name) => spec_framed(name@, below.0),
            HtmlItem::Other => Seq::empty(),
        };
        let after = if outline[start].item is Element && start < below.1 <= outline.len() {
            below.1
        } else {
            start + 1
        };
        let rest = spec_clean_run(outline, after, depth);
        (own + rest.0, rest.1)
    }
}

/// The readable text inside the element that heads `outline`: the text of its
/// children. An empty outline has no text.
pub open spec fn spec_clean_text(outline: Seq<HtmlEntry>) -> Seq<char> {
    if outline.len() == 0 {
        Seq::empty()
    } else {
        spec_clean_run(outline, 1, outline[0].depth + 1).0
    }
}

/// A run never ends before it starts nor beyond the outline.
pub proof fn lemma_clean_run_bounds(outline: Seq<HtmlEntry>, start: int, depth: int)
    requires
        0 <= start <= outline.len(),
    ensures
        start <= spec_clean_run(outline, start, depth).1 <= outline.len(),
    decreases outline.len() - start,
{
    if start < outline.len() && outline[start].depth == depth {
        lemma_clean_run_bounds(outline, start + 1, depth + 1);
        let below = spec_clean_run(outline, start + 1, depth + 1);
        let after = if outline[start].item is Element && start < below.1 <= outline.len() {
            below.1
        } else {
            start + 1
        };
        lemma_clean_run_bounds(outline, after, depth);
    }
}

/// What a selection found for one element: the value of the attribute asked
/// for, where the element has it, and the element's markup.
pub struct HtmlFinding {
    /// The value of the attribute, where the element has it.
    pub attribute: Option<String>,
    /// The markup of the element.
    pub html: String,
}

/// The outline of the first element that `selector` selects in the page
/// `content`, as the HTML parser reads the page: the element and its
/// descendants, parents before children and siblings in document order.
/// `None` where `selector` is no selector or selects nothing.
pub uninterp spec fn html_outline(content: Seq<char>, selector: Seq<char>) -> Option<
    Seq<HtmlEntry>,
>;

/// What the elements that `selector` selects in the page `content` hold, in
/// the order in which the selection yields them: for each its `attribute` and
/// its markup, as the HTML parser reads the page. `None` where `selector` is
/// no selector.
pub uninterp spec fn html_findings(
    content: Seq<char>,
    selector: Seq<char>,
    attribute: Seq<char>,
) -> Option<Seq<HtmlFinding>>;

/// The entries of an outline that was found, if one was.
pub open spec fn outline_view(outline: Option<Vec<HtmlEntry>>) -> Option<Seq<HtmlEntry>> {
    match outline {
        Some(entries) => Some(entries@),
        None => None,
    }
}

/// The findings of a selection that was made, if it was.
pub open spec fn findings_view(findings: Option<Vec<HtmlFinding>>) -> Option<Seq<HtmlFinding>> {
    match findings {
        Some(found) => Some(found@),
        None => None,
    }
}

/// Parses `content` with `scraper::Html::parse_document` and `selector` with
/// `scraper::Selector::parse`, takes the first element that `Html::select`
/// yields and lists it and its descendants (`descendants`), each with the
/// count of its `ancestors` and with its text (`Node::Text`) or its name
/// (`Element::name`). The contract names the list; it is `None` where the
/// selector does not parse or nothing is selected.
#[verifier::external_body]
fn select_outline(content: &str, selector: &str) -> (outline: Option<Vec<HtmlEntry>>)
    ensures
        outline_view(outline) == html_outline(content@, selector@),
{
    let document = scraper::Html::parse_document(content);
    let selector = scraper::Selector::parse(selector).ok()?;
    let root = document.select(&selector).next()?;
    Some(root.descendants().map(|node| HtmlEntry {
        depth: node.ancestors().count(),
        item: match node.value() {
            scraper::Node::Text(text) => HtmlItem::Text(text.to_string()),
            scraper::Node::Element(element) => HtmlItem::Element(element.name().to_string()),
            _ => HtmlItem::Other,
        },
    }).collect())
}

/// Parses `content` with `scraper::Html::parse_document` and `selector` with
/// `scraper::Selector::parse` and lists, for each element that `Html::select`
/// yields, what `ElementRef::attr` gives for `attribute` and what
/// `ElementRef::html` gives. The contract names the list; it is `None` where
/// the selector does not parse.
#[verifier::external_body]
fn select_findings(content: &str, selector: &str, attribute: &str) -> (findings: Option<
    Vec<HtmlFinding>,
>)
    ensures
        findings_view(findings) == html_findings(content@, selector@, attribute@),
{
    let document = scraper::Html::parse_document(content);
    let selector = scraper::Selector::parse(selector).ok()?;
    Some(document.select(&selector).map(|element| HtmlFinding {
        attribute: element.attr(attribute).map(str::to_string),
        html: element.html(),
    }).collect())
}

/// The images among `findings`: one for each finding that has the attribute,
/// in the same order.
pub open spec fn spec_images(findings: Seq<HtmlFinding>) -> Seq<HtmlImage>
    decreases findings.len(),
{
    if findings.len() == 0 {
        Seq::empty()
    } else {
        let earlier = spec_images(findings.drop_last());
        match findings.last().attribute {
            Some(src) => earlier.push(HtmlImage { src, inner_html: findings.last().html }),
            None => earlier,
        }
    }
}

/// Whether `text` reads exactly as `literal`.
fn text_is(text: &String, literal: &str) -> (same: bool)
    ensures
        same == (text@ == literal@),
{
    let other = String::from_str(literal);
    *text == other
}

fn name_is_unread(name: &String) -> (unread: bool)
    ensures
        unread == is_unread(name@),
{
    text_is(name, "style") || text_is(name, "script")
}

fn name_is_block(name: &String) -> (block: bool)
    ensures
        block == is_block(name@),
{
    text_is(name, "p") || text_is(name, "div") || text_is(name, "li") || text_is(name, "h1")
        || text_is(name, "h2") || text_is(name, "h3")
}

/// Reads the siblings that start at `start` one level below `parent`.
fn clean_run(outline: &Vec<HtmlEntry>, start: usize, parent: usize) -> (run: (String, usize))
    requires
        start <= outline.len(),
    ensures
        run.0@ == spec_clean_run(outline@, start as int, parent + 1).0,
        run.1 == spec_clean_run(outline@, start as int, parent + 1).1,
        start <= run.1 <= outline.len(),
    decreases outline.len() - start,
{
    let mut text = String::new();
    let mut at = start;
    while at < outline.len() && outline[at].depth > 0 && outline[at].depth - 1 == parent
        invariant
            start <= at <= outline.len(),
            spec_clean_run(outline@, start as int, parent + 1).0 == text@ + spec_clean_run(
                outline@,
                at as int,
                parent + 1,
            ).0,
            spec_clean_run(outline@, start as int, parent + 1).1 == spec_clean_run(
                outline@,
                at as int,
                parent + 1,
            ).1,
        decreases outline.len() - at,
    {
        let ghost before = text@;
        let ghost here = at as int;
        proof {
            lemma_clean_run_bounds(outline@, here + 1, parent + 2);
        }
        match &outline[at].item {
            HtmlItem::Text(t) => {
                text.append(t.as_str());
                at += 1;
            },
            HtmlItem::Element(name) => {
                let below = clean_run(outline, at + 1, outline[at].depth);
                if !name_is_unread(name) {
                    if name_is_block(name) {
                        text.append(" ");
                        text.append(below.0.as_str());
                        text.append(" ");
                    } else {
                        text.append(below.0.as_str());
                    }
                }
                at = below.1;
            },
            HtmlItem::Other => {
                at += 1;
            },
        }
        proof {
            let below = spec_clean_run(outline@, here + 1, parent + 2);
            let own = match outline@[here].item {
                HtmlItem::Text(t) => t@,
                HtmlItem::Element(name) => spec_framed(name@, below.0),
                HtmlItem::Other => Seq::empty(),
            };
            assert(text@ == before + own);
            let rest = spec_clean_run(outline@, at as int, parent + 1);
            assert(spec_clean_run(outline@, here, parent + 1).0 == own + rest.0);
            assert(before + (own + rest.0) == (before + own) + rest.0);
        }
    }
    (text, at)
}

/// Collects the readable text inside the element that heads `outline`: text
/// nodes as they stand, inline elements run together, block elements set
/// between spaces, style sheets and scripts left out.
pub fn clean_text(outline: &Vec<HtmlEntry>) -> (text: String)
    ensures
        text@ == spec_clean_text(outline@),
{
    if outline.len() == 0 {
        String::new()
    } else {
        clean_run(outline, 1, outline[0].depth).0
    }
}

/// Keeps the image elements that say where the image is to be had.
pub fn parse_images_through_html(findings: &Vec<HtmlFinding>) -> (images: Vec<HtmlImage>)
    ensures
        images@ == spec_images(findings@),
{
    let mut images: Vec<HtmlImage> = Vec::new();
    let mut i: usize = 0;
    while i < findings.len()
        invariant
            i <= findings.len(),
            images@ == spec_images(findings@.take(i as int)),
        decreases findings.len() - i,
    {
        assert(findings@.take(i + 1).drop_last() == findings@.take(i as int));
        match &findings[i].attribute {
            Some(src) => {
                images.push(HtmlImage { src: src.clone(), inner_html: findings[i].html.clone() });
            },
            None => {},
        }
        i += 1;
    }
    assert(findings@.take(i as int) == findings@);
    images
}

/// The images of the page `content`, where the image selector is one.
pub fn try_parse_images(content: String) -> (images: Option<Vec<HtmlImage>>)
    ensures
        match html_findings(content@, IMAGE_SELECTOR@, IMAGE_SOURCE@) {
            Some(findings) => images matches Some(found) && found@ == spec_images(findings),
            None => images is None,
        },
{
    match select_findings(content.as_str(), IMAGE_SELECTOR, IMAGE_SOURCE) {
        Some(_) => Some(parse_images(content)),
        None => None,
    }
}

/// The images of the page `content`: each `img` element that has a `src`
/// attribute, in the order in which the page's elements are selected.
pub fn parse_images(content: String) -> (images: Vec<HtmlImage>)
    requires
        html_findings(content@, IMAGE_SELECTOR@, IMAGE_SOURCE@) is Some,
    ensures
        images@ == spec_images(html_findings(content@, IMAGE_SELECTOR@, IMAGE_SOURCE@)->0),
{
    match select_findings(content.as_str(), IMAGE_SELECTOR, IMAGE_SOURCE) {
        Some(findings) => parse_images_through_html(&findings),
        None => unreached(),
    }
}

/// The text of the content area of the page `content` and the images of the
/// page, where the page has a content area.
pub fn try_parse_plain_text_and_images(content: String) -> (page: Option<HtmlPlainTextAndImages>)
    ensures
        page is Some <==> html_outline(content@, CONTENT_SELECTOR@) is Some && html_findings(
            content@,
            IMAGE_SELECTOR@,
            IMAGE_SOURCE@,
        ) is Some,
        page matches Some(found) ==> found.text@ == spec_clean_text(
            html_outline(content@, CONTENT_SELECTOR@)->0,
        ) && found.images@ == spec_images(
            html_findings(content@, IMAGE_SELECTOR@, IMAGE_SOURCE@)->0,
        ),
{
    if select_outline(content.as_str(), CONTENT_SELECTOR).is_none() {
        return None;
    }
    if select_findings(content.as_str(), IMAGE_SELECTOR, IMAGE_SOURCE).is_none() {
        return None;
    }
    Some(parse_plain_text_and_images(content))
}

/// The text of the content area of the page `content` and the images of the
/// page, for every page: a page without a content area is a `Parse` error,
/// and so is a page whose images cannot be selected.
pub fn checked_parse_plain_text_and_images(content: String) -> (page: Result<
    HtmlPlainTextAndImages,
    SdkError,
>)
    ensures
        match html_outline(content@, CONTENT_SELECTOR@) {
            None => page matches Err(SdkError::Parse(detail)) && detail@ == CONTENT_NOT_FOUND@,
            Some(outline) => match html_findings(content@, IMAGE_SELECTOR@, IMAGE_SOURCE@) {
                None => page matches Err(SdkError::Parse(detail)) && detail@
                    == IMAGES_NOT_SELECTED@,
                Some(findings) => {
                    &&& page matches Ok(found)
                    &&& found.text@ == spec_clean_text(outline)
                    &&& found.images@ == spec_images(findings)
                },
            },
        },
{
    match select_outline(content.as_str(), CONTENT_SELECTOR) {
        None => Err(SdkError::Parse(String::from_str(CONTENT_NOT_FOUND))),
        Some(outline) => match select_findings(content.as_str(), IMAGE_SELECTOR, IMAGE_SOURCE) {
            None => Err(SdkError::Parse(String::from_str(IMAGES_NOT_SELECTED))),
            Some(findings) => Ok(
                HtmlPlainTextAndImages {
                    text: clean_text(&outline),
                    images: parse_images_through_html(&findings),
                },
            ),
        },
    }
}

/// The text of the content area of the page `content` and the images of the page.
pub fn parse_plain_text_and_images(content: String) -> (page: HtmlPlainTextAndImages)
    requires
        html_outline(content@, CONTENT_SELECTOR@) is Some,
        html_findings(content@, IMAGE_SELECTOR@, IMAGE_SOURCE@) is Some,
    ensures
        page.text@ == spec_clean_text(html_outline(content@, CONTENT_SELECTOR@)->0),
        page.images@ == spec_images(html_findings(content@, IMAGE_SELECTOR@, IMAGE_SOURCE@)->0),
{
    let text = match select_outline(content.as_str(), CONTENT_SELECTOR) {
        Some(outline) => clean_text(&outline),
        None => unreached(),
    };
    HtmlPlainTextAndImages { text, images: parse_images(content) }
}

} // verus!
