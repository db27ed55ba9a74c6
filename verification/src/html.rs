//! Article bodies: the parsed document tree and the styled text made of it.

use html5ever::tendril::TendrilSink;
use html5ever::tree_builder::TreeBuilderOpts;
use html5ever::{parse_document, ParseOpts};
use markup5ever_rcdom::{Handle, NodeData, RcDom};
use vstd::prelude::*;

verus! {

/// A node of the outside parser's tree.
#[verifier::external_type_specification]
#[verifier::external_body]
pub struct ExNode(markup5ever_rcdom::Node);

/// The tree that the HTML parser makes of a document.
pub uninterp spec fn parsed_html(content: Seq<char>) -> DomView;

/// Calls html5ever's `parse_document` (doctype dropped, the bytes read as
/// UTF-8) with an `RcDom` sink on `content`, and hands out the document
/// node of the tree, copied. The contract claims only that the tree is a
/// function of the document's text.
#[verifier::external_body]
pub(crate) fn parse_html(content: &str) -> (root: DomNode)
    ensures
        root@ == parsed_html(content@),
{
    let opts = ParseOpts {
        tree_builder: TreeBuilderOpts { drop_doctype: true, ..Default::default() },
        ..Default::default()
    };
    let dom = parse_document(RcDom::default(), opts)
        .from_utf8()
        .read_from(&mut content.as_bytes())
        .unwrap();
    dom_node(&dom.document)
}

/// Copies a node of the parser's tree with everything below it: of a text
/// node its text, of an element its local name; the children of a
/// document or element in order; of any other node nothing.
#[verifier::external_body]
fn dom_node(handle: &Handle) -> DomNode {
    let children = || handle.children.borrow().iter().map(dom_node).collect();
    match &handle.data {
        NodeData::Document => DomNode::Document(children()),
        NodeData::Text { contents } => DomNode::Text(contents.borrow().to_string()),
        NodeData::Element { name, .. } => DomNode::Element(name.local.to_string(), children()),
        _ => DomNode::Other,
    }
}

/// A node of a parsed document.
#[derive(Debug)]
pub enum DomNode {
    /// The root of a document, with its children.
    Document(Vec<DomNode>),
    /// A run of text.
    Text(String),
    /// An element: its tag name and its children.
    Element(String, Vec<DomNode>),
    /// Any other node (a comment, a doctype): nothing of it is read.
    Other,
}

/// What a node of a parsed document says.
pub enum DomView {
    Document(Seq<DomView>),
    Text(Seq<char>),
    Element(Seq<char>, Seq<DomView>),
    Other,
}

/// What a node says: its text or tag name, and what its children say.
pub open spec fn dom_view(node: DomNode) -> DomView
    decreases node, 0int,
{
    match node {
        DomNode::Document(children) => DomView::Document(
            doms_view(children@, children@.len() as int),
        ),
        DomNode::Text(content) => DomView::Text(content@),
        DomNode::Element(name, children) => DomView::Element(
            name@,
            doms_view(children@, children@.len() as int),
        ),
        DomNode::Other => DomView::Other,
    }
}

/// What the first `n` of the nodes say, in order.
pub open spec fn doms_view(nodes: Seq<DomNode>, n: int) -> Seq<DomView>
    decreases nodes, n,
{
    if n <= 0 || n > nodes.len() {
        Seq::empty()
    } else {
        doms_view(nodes, n - 1).push(dom_view(nodes[n - 1]))
    }
}

impl View for DomNode {
    type V = DomView;

    open spec fn view(&self) -> DomView {
        dom_view(*self)
    }
}

/// What the first `n` nodes say holds, place by place, what each says.
pub proof fn lemma_doms_view(nodes: Seq<DomNode>, n: int)
    requires
        0 <= n <= nodes.len(),
    ensures
        doms_view(nodes, n).len() == n,
        forall|k: int| 0 <= k < n ==> #[trigger] doms_view(nodes, n)[k] == dom_view(nodes[k]),
    decreases n,
{
    if n > 0 {
        lemma_doms_view(nodes, n - 1);
    }
}

/// How a run of text is set.
#[derive(Debug, Clone, Copy, PartialEq, Eq, Structural)]
pub enum Style {
    Plain,
    /// The run belongs to a heading.
    Heading,
    /// The run belongs to a link.
    Link,
}

/// A run of text in one style.
#[derive(Debug, PartialEq, Eq)]
pub struct Span {
    pub content: String,
    pub style: Style,
}

/// A line of text: its runs in order.
#[derive(Debug, PartialEq, Eq)]
pub struct Line {
    pub spans: Vec<Span>,
}

/// What a run says.
pub struct SpanView {
    pub content: Seq<char>,
    pub style: Style,
}

impl View for Span {
    type V = SpanView;

    open spec fn view(&self) -> SpanView {
        SpanView { content: self.content@, style: self.style }
    }
}

impl DeepView for Span {
    type V = SpanView;

    open spec fn deep_view(&self) -> SpanView {
        self@
    }
}

impl View for Line {
    type V = Seq<SpanView>;

    open spec fn view(&self) -> Seq<SpanView> {
        self.spans.deep_view()
    }
}

impl DeepView for Line {
    type V = Seq<SpanView>;

    open spec fn deep_view(&self) -> Seq<SpanView> {
        self@
    }
}

impl Clone for Span {
    fn clone(&self) -> (r: Self)
        ensures
            r == *self,
    {
        Span { content: self.content.clone(), style: self.style }
    }
}

impl Clone for Line {
    fn clone(&self) -> (r: Self)
        ensures
            r@ == self@,
    {
        let mut spans: Vec<Span> = Vec::new();
        let mut i: usize = 0;
        while i < self.spans.len()
            invariant
                i <= self.spans.len(),
                spans@ == self.spans@.take(i as int),
            decreases self.spans.len() - i,
        {
            spans.push(self.spans[i].clone());
            i += 1;
        }
        assert(self.spans@.take(i as int) == self.spans@);
        assert(spans.deep_view() =~= self.spans.deep_view());
        Line { spans }
    }
}

/// The text under construction: the finished lines, and the runs of the
/// line that is being collected.
pub struct Draft {
    pub lines: Seq<Seq<SpanView>>,
    pub spans: Seq<SpanView>,
}

/// The runs, all set in one style.
pub open spec fn restyled(spans: Seq<SpanView>, style: Style) -> Seq<SpanView> {
    spans.map_values(|s: SpanView| SpanView { content: s.content, style })
}

/// The draft with the collected runs, if there are any, closed as a line.
pub open spec fn flushed(d: Draft) -> Draft {
    if d.spans.len() > 0 {
        Draft { lines: d.lines.push(d.spans), spans: Seq::empty() }
    } else {
        d
    }
}

/// The style that the runs under an element of this name take, if the
/// element sets one.
pub open spec fn style_of_tag(name: Seq<char>) -> Option<Style> {
    if name == "h1"@ || name == "h2"@ || name == "h3"@ {
        Some(Style::Heading)
    } else if name == "a"@ {
        Some(Style::Link)
    } else {
        None
    }
}

/// The draft after a node was walked.
pub open spec fn walk_node(node: DomView, d: Draft) -> Draft
    decreases node, 0int,
{
    match node {
        DomView::Document(children) => walk_nodes(children, d, children.len() as int),
        DomView::Text(content) => Draft {
            spans: d.spans.push(SpanView { content, style: Style::Plain }),
            ..d
        },
        DomView::Element(name, children) => {
            if name == "p"@ {
                let inner = flushed(walk_nodes(children, flushed(d), children.len() as int));
                Draft { lines: inner.lines.push(Seq::empty()), ..inner }
            } else if style_of_tag(name) is Some {
                walk_styled(children, d, style_of_tag(name)->0, children.len() as int)
            } else {
                walk_nodes(children, d, children.len() as int)
            }
        },
        DomView::Other => d,
    }
}

/// The draft after the first `n` of the nodes were walked in order.
pub open spec fn walk_nodes(nodes: Seq<DomView>, d: Draft, n: int) -> Draft
    decreases nodes, n,
{
    if n <= 0 || n > nodes.len() {
        d
    } else {
        walk_node(nodes[n - 1], walk_nodes(nodes, d, n - 1))
    }
}

/// The draft after the first `n` children of a styling element were
/// walked: each child collects its runs apart, they take the element's
/// style, and join the runs collected so far.
pub open spec fn walk_styled(nodes: Seq<DomView>, d: Draft, style: Style, n: int) -> Draft
    decreases nodes, n,
{
    if n <= 0 || n > nodes.len() {
        d
    } else {
        let before = walk_styled(nodes, d, style, n - 1);
        let apart = walk_node(nodes[n - 1], Draft { lines: before.lines, spans: Seq::empty() });
        Draft { lines: apart.lines, spans: before.spans + restyled(apart.spans, style) }
    }
}

/// The draft that the lines and runs under construction stand for.
pub open spec fn draft_of(lines: Vec<Line>, spans: Vec<Span>) -> Draft {
    Draft { lines: lines.deep_view(), spans: spans.deep_view() }
}

/// The styled text of a document: the lines that a walk from an empty
/// draft finishes. Runs that no paragraph closes are not part of it.
pub open spec fn styled_text(root: DomView) -> Seq<Seq<SpanView>> {
    walk_node(root, Draft { lines: Seq::empty(), spans: Seq::empty() }).lines
}

/// The style that the runs under an element of this name take.
fn tag_style(name: &String) -> (r: Option<Style>)
    ensures
        r == style_of_tag(name@),
{
    if *name == "h1".to_string() || *name == "h2".to_string() || *name == "h3".to_string() {
        Some(Style::Heading)
    } else if *name == "a".to_string() {
        Some(Style::Link)
    } else {
        None
    }
}

/// Closes the collected runs, if there are any, as a line.
fn flush(lines: &mut Vec<Line>, spans: &mut Vec<Span>)
    ensures
        draft_of(*final(lines), *final(spans)) == flushed(draft_of(*old(lines), *old(spans))),
{
    if spans.len() > 0 {
        let mut taken: Vec<Span> = Vec::new();
        std::mem::swap(&mut taken, spans);
        let line = Line { spans: taken };
        lines.push(line);
        assert(lines.deep_view() =~= old(lines).deep_view().push(old(spans).deep_view()));
        assert(spans.deep_view() =~= Seq::<SpanView>::empty());
    }
}

/// Appends the runs of `apart`, set in `style`, to `spans`.
fn join_styled(spans: &mut Vec<Span>, apart: &Vec<Span>, style: Style)
    ensures
        final(spans).deep_view() == old(spans).deep_view() + restyled(apart.deep_view(), style),
{
    let mut i: usize = 0;
    assert(spans.deep_view() =~= old(spans).deep_view() + restyled(
        apart.deep_view().take(0),
        style,
    ));
    while i < apart.len()
        invariant
            i <= apart.len(),
            spans.deep_view() == old(spans).deep_view() + restyled(
                apart.deep_view().take(i as int),
                style,
            ),
        decreases apart.len() - i,
    {
        let ghost prev = spans.deep_view();
        spans.push(Span { content: apart[i].content.clone(), style });
        assert(spans.deep_view() =~= prev.push(
            SpanView { content: apart.deep_view()[i as int].content, style },
        ));
        assert(apart.deep_view().take(i + 1) =~= apart.deep_view().take(i as int).push(
            apart.deep_view()[i as int],
        ));
        assert(spans.deep_view() =~= old(spans).deep_view() + restyled(
            apart.deep_view().take(i + 1),
            style,
        ));
        i += 1;
    }
    assert(apart.deep_view().take(i as int) =~= apart.deep_view());
}

/// Walks the children of a node in order.
fn walk_children(children: &Vec<DomNode>, lines: &mut Vec<Line>, spans: &mut Vec<Span>)
    ensures
        draft_of(*final(lines), *final(spans)) == walk_nodes(
            doms_view(children@, children@.len() as int),
            draft_of(*old(lines), *old(spans)),
            children@.len() as int,
        ),
    decreases children, 1int,
{
    let ghost views = doms_view(children@, children@.len() as int);
    proof {
        lemma_doms_view(children@, children@.len() as int);
    }
    let mut i: usize = 0;
    while i < children.len()
        invariant
            i <= children.len(),
            views == doms_view(children@, children@.len() as int),
            views.len() == children@.len(),
            forall|k: int| 0 <= k < views.len() ==> #[trigger] views[k] == dom_view(children@[k]),
            draft_of(*lines, *spans) == walk_nodes(
                views,
                draft_of(*old(lines), *old(spans)),
                i as int,
            ),
        decreases children.len() - i,
    {
        assert(views[i as int] == children@[i as int]@);
        walk_dom_recursive(&children[i], lines, spans);
        i += 1;
    }
}

/// Walks the children of a styling element in order.
fn walk_children_styled(
    children: &Vec<DomNode>,
    lines: &mut Vec<Line>,
    spans: &mut Vec<Span>,
    style: Style,
)
    ensures
        draft_of(*final(lines), *final(spans)) == walk_styled(
            doms_view(children@, children@.len() as int),
            draft_of(*old(lines), *old(spans)),
            style,
            children@.len() as int,
        ),
    decreases children, 1int,
{
    let ghost views = doms_view(children@, children@.len() as int);
    proof {
        lemma_doms_view(children@, children@.len() as int);
    }
    let mut i: usize = 0;
    while i < children.len()
        invariant
            i <= children.len(),
            views == doms_view(children@, children@.len() as int),
            views.len() == children@.len(),
            forall|k: int| 0 <= k < views.len() ==> #[trigger] views[k] == dom_view(children@[k]),
            draft_of(*lines, *spans) == walk_styled(
                views,
                draft_of(*old(lines), *old(spans)),
                style,
                i as int,
            ),
        decreases children.len() - i,
    {
        let mut apart: Vec<Span> = Vec::new();
        assert(apart.deep_view() =~= Seq::<SpanView>::empty());
        assert(views[i as int] == children@[i as int]@);
        walk_dom_recursive(&children[i], lines, &mut apart);
        join_styled(spans, &apart, style);
        i += 1;
    }
}

/// Walks a node: text joins the runs being collected; a paragraph closes
/// the runs before it, then its own, and adds an empty line; the runs
/// under a heading or a link take its style; any other element is
/// walked through.
pub fn walk_dom_recursive(node: &DomNode, lines: &mut Vec<Line>, spans: &mut Vec<Span>)
    ensures
        draft_of(*final(lines), *final(spans)) == walk_node(
            node@,
            draft_of(*old(lines), *old(spans)),
        ),
    decreases node, 0int,
{
    match node {
        DomNode::Document(children) => {
            proof {
                lemma_doms_view(children@, children@.len() as int);
            }
            walk_children(children, lines, spans);
        },
        DomNode::Text(content) => {
            let ghost prev = spans.deep_view();
            spans.push(Span { content: content.clone(), style: Style::Plain });
            assert(spans.deep_view() =~= prev.push(
                SpanView { content: content@, style: Style::Plain },
            ));
        },
        DomNode::Element(name, children) => {
            proof {
                lemma_doms_view(children@, children@.len() as int);
            }
            if *name == "p".to_string() {
                flush(lines, spans);
                walk_children(children, lines, spans);
                flush(lines, spans);
                let ghost prev = lines.deep_view();
                let empty = Line { spans: Vec::new() };
                assert(empty@ =~= Seq::<SpanView>::empty());
                lines.push(empty);
                assert(lines.deep_view() =~= prev.push(Seq::<SpanView>::empty()));
            } else {
                match tag_style(name) {
                    Some(style) => {
                        walk_children_styled(children, lines, spans, style);
                    },
                    None => {
                        walk_children(children, lines, spans);
                    },
                }
            }
        },
        DomNode::Other => {},
    }
}

/// The styled text of a document.
pub fn walk_dom(root: &DomNode) -> (text: Vec<Line>)
    ensures
        text.deep_view() == styled_text(root@),
{
    let mut text: Vec<Line> = Vec::new();
    let mut spans: Vec<Span> = Vec::new();
    assert(text.deep_view() =~= Seq::<Seq<SpanView>>::empty());
    assert(spans.deep_view() =~= Seq::<SpanView>::empty());
    walk_dom_recursive(root, &mut text, &mut spans);
    text
}

/// The styled text of an article body given as HTML.
pub fn html_to_text(content: &str) -> (text: Vec<Line>)
    ensures
        text.deep_view() == styled_text(parsed_html(content@)),
{
    let root = parse_html(content);
    walk_dom(&root)
}

} // verus!
