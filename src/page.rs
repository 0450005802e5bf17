use vstd::prelude::*;
use select::document::Document;
use select::predicate::{Class, Name};
use crate::post::{Container, ContainerView, ImageNode, containers_view, opt_view};

verus! {

/// Class that marks a post container on a profile page.
pub const POST_CLASS: &'static str = "v1Nh3";

/// Class that marks the caption element inside a post container.
pub const CAPTION_CLASS: &'static str = "C4VMK";

/// Tag of the image element inside a post container.
pub const IMAGE_TAG: &'static str = "img";

/// Attribute of the image element that holds the photo's address.
pub const SOURCE_ATTR: &'static str = "src";

#[verifier::external_type_specification]
#[verifier::external_body]
pub struct ExDocument(Document);

/// Indices, in document order, of the nodes of the tree parsed from `html`
/// whose class list holds `class`.
pub uninterp spec fn class_matches(html: Seq<char>, class: Seq<char>) -> Seq<usize>;

/// The first node, in document order, strictly below `node` whose class list
/// holds `class`.
pub uninterp spec fn first_class_below(html: Seq<char>, node: usize, class: Seq<char>) -> Option<usize>;

/// The first node, in document order, strictly below `node` with tag `tag`.
pub uninterp spec fn first_tag_below(html: Seq<char>, node: usize, tag: Seq<char>) -> Option<usize>;

/// The text of `node` and of all nodes below it, joined in document order.
pub uninterp spec fn node_text(html: Seq<char>, node: usize) -> Seq<char>;

/// The value of attribute `name` on `node`, if it has one.
pub uninterp spec fn node_attr(html: Seq<char>, node: usize, name: Seq<char>) -> Option<Seq<char>>;

/// A profile page: its markup text and the node tree parsed from it. The
/// tree is only ever built from the text held beside it.
pub struct Page {
    source: String,
    doc: Document,
}

/// Relies on select's `Document::from(&str)`, which parses markup into a node
/// tree; nothing is assumed of the tree.
#[verifier::external_body]
fn parse_markup(text: &str) -> Document {
    Document::from(text)
}

/// Relies on select's `Document::find` with a `Class` predicate: it walks
/// all nodes in index order and yields those whose class list holds `class`.
#[verifier::external_body]
fn nodes_with_class(page: &Page, class: &str) -> (r: Vec<usize>)
    ensures
        r@ == class_matches(page.source@, class@),
{
    page.doc.find(Class(class)).map(|n| n.index()).collect()
}

/// Relies on select's `Node::find` with a `Class` predicate: the first of
/// the node's descendants whose class list holds `class`.
#[verifier::external_body]
fn first_descendant_with_class(page: &Page, node: usize, class: &str) -> (r: Option<usize>)
    ensures
        r == first_class_below(page.source@, node, class@),
{
    page.doc.nth(node).and_then(|n| n.find(Class(class)).next()).map(|n| n.index())
}

/// Relies on select's `Node::find` with a `Name` predicate: the first of the
/// node's descendants with tag `tag`.
#[verifier::external_body]
fn first_descendant_with_tag(page: &Page, node: usize, tag: &str) -> (r: Option<usize>)
    ensures
        r == first_tag_below(page.source@, node, tag@),
{
    page.doc.nth(node).and_then(|n| n.find(Name(tag)).next()).map(|n| n.index())
}

/// Relies on select's `Node::text`: the text of the node and its descendants.
#[verifier::external_body]
fn text_of(page: &Page, node: usize) -> (r: String)
    ensures
        r@ == node_text(page.source@, node),
{
    page.doc.nth(node).map(|n| n.text()).unwrap_or_default()
}

/// Relies on select's `Node::attr`: the value of the node's attribute `name`.
#[verifier::external_body]
fn attr_of(page: &Page, node: usize, name: &str) -> (r: Option<String>)
    ensures
        opt_view(r) == node_attr(page.source@, node, name@),
{
    page.doc.nth(node).and_then(|n| n.attr(name)).map(|v| v.to_string())
}

/// What the post container at `node` holds: the text of its first caption
/// element, and the `src` of its first image element.
pub open spec fn container_at(html: Seq<char>, node: usize) -> ContainerView {
    ContainerView {
        caption: match first_class_below(html, node, CAPTION_CLASS@) {
            Some(n) => Some(node_text(html, n)),
            None => None,
        },
        image: match first_tag_below(html, node, IMAGE_TAG@) {
            Some(n) => Some(node_attr(html, n, SOURCE_ATTR@)),
            None => None,
        },
    }
}

/// The post containers of the page with markup `html`, in document order.
pub open spec fn page_containers(html: Seq<char>) -> Seq<ContainerView> {
    class_matches(html, POST_CLASS@).map_values(|n: usize| container_at(html, n))
}

impl Page {
    /// The markup text the page was parsed from.
    pub closed spec fn source(&self) -> Seq<char> {
        self.source@
    }

    /// Parses `text` into a page.
    pub fn parse(text: String) -> (p: Page)
        ensures
            p.source() == text@,
    {
        let doc = parse_markup(text.as_str());
        Page { source: text, doc }
    }

    /// The post containers of the page, in document order.
    pub fn containers(&self) -> (r: Vec<Container>)
        ensures
            containers_view(r@) == page_containers(self.source()),
    {
        let nodes = nodes_with_class(self, POST_CLASS);
        let ghost html = self.source@;
        let mut r: Vec<Container> = Vec::new();
        let mut i: usize = 0;
        while i < nodes.len()
            invariant
                i <= nodes.len(),
                html == self.source@,
                nodes@ == class_matches(html, POST_CLASS@),
                containers_view(r@) =~= nodes@.take(i as int).map_values(
                    |n: usize| container_at(html, n),
                ),
            decreases nodes.len() - i,
        {
            let node = nodes[i];
            let caption = match first_descendant_with_class(self, node, CAPTION_CLASS) {
                Some(n) => Some(text_of(self, n)),
                None => None,
            };
            let image = match first_descendant_with_tag(self, node, IMAGE_TAG) {
                Some(n) => Some(ImageNode { src: attr_of(self, n, SOURCE_ATTR) }),
                None => None,
            };
            let c = Container { caption, image };
            assert(c@ == container_at(html, node));
            r.push(c);
            assert(nodes@.take(i + 1) =~= nodes@.take(i as int).push(node));
            assert(containers_view(r@) =~= containers_view(r@.drop_last()).push(c@));
            assert(nodes@.take(i + 1).map_values(|n: usize| container_at(html, n)) =~= nodes@.take(
                i as int,
            ).map_values(|n: usize| container_at(html, n)).push(container_at(html, node)));
            i = i + 1;
        }
        assert(nodes@.take(nodes.len() as int) =~= nodes@);
        r
    }
}

} // verus!
