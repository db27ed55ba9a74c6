use nuuslees::html::{html_to_text, walk_dom, walk_dom_recursive, DomNode, Line, Span, Style};

fn text(s: &str) -> DomNode {
    DomNode::Text(s.to_string())
}

fn el(name: &str, children: Vec<DomNode>) -> DomNode {
    DomNode::Element(name.to_string(), children)
}

fn span(s: &str, style: Style) -> Span {
    Span { content: s.to_string(), style }
}

fn line(spans: Vec<Span>) -> Line {
    Line { spans }
}

#[test]
fn a_paragraph_becomes_its_line_and_an_empty_line() {
    let doc = DomNode::Document(vec![el("p", vec![text("hello"), text(" world")])]);
    assert_eq!(
        walk_dom(&doc),
        vec![line(vec![span("hello", Style::Plain), span(" world", Style::Plain)]), line(vec![])]
    );
}

#[test]
fn an_empty_paragraph_is_one_empty_line() {
    assert_eq!(walk_dom(&DomNode::Document(vec![el("p", vec![])])), vec![line(vec![])]);
}

#[test]
fn text_that_no_paragraph_closes_is_not_part_of_the_text() {
    let doc = DomNode::Document(vec![text("loose"), el("h1", vec![text("Title")])]);
    assert_eq!(walk_dom(&doc), Vec::<Line>::new());
    assert_eq!(walk_dom(&DomNode::Other), Vec::<Line>::new());
    assert_eq!(walk_dom(&text("x")), Vec::<Line>::new());
}

#[test]
fn a_paragraph_closes_what_was_collected_before_it() {
    let doc = DomNode::Document(vec![
        el("h2", vec![text("Title")]),
        text(" by me"),
        el("p", vec![text("body")]),
        text("dropped"),
    ]);
    assert_eq!(
        walk_dom(&doc),
        vec![
            line(vec![span("Title", Style::Heading), span(" by me", Style::Plain)]),
            line(vec![span("body", Style::Plain)]),
            line(vec![]),
        ]
    );
}

#[test]
fn links_and_headings_set_the_style_of_all_runs_below_them() {
    let doc = el(
        "p",
        vec![
            text("see "),
            el("a", vec![text("this"), el("b", vec![text(" bold")])]),
            el("h3", vec![el("a", vec![text("linked title")])]),
            el("a", vec![el("h1", vec![text("titled link")])]),
            el("span", vec![text(" plain")]),
        ],
    );
    assert_eq!(
        walk_dom(&doc),
        vec![
            line(vec![
                span("see ", Style::Plain),
                span("this", Style::Link),
                span(" bold", Style::Link),
                span("linked title", Style::Heading),
                span("titled link", Style::Link),
                span(" plain", Style::Plain),
            ]),
            line(vec![]),
        ]
    );
}

#[test]
fn only_h1_to_h3_are_headings() {
    let doc = el("p", vec![el("h1", vec![text("1")]), el("h4", vec![text("4")]), el("H1", vec![text("x")])]);
    assert_eq!(
        walk_dom(&doc),
        vec![
            line(vec![span("1", Style::Heading), span("4", Style::Plain), span("x", Style::Plain)]),
            line(vec![]),
        ]
    );
}

#[test]
fn a_paragraph_inside_a_link_closes_lines_of_its_own() {
    let doc = DomNode::Document(vec![
        text("before"),
        el("a", vec![text("in link"), el("p", vec![text("para")]), text("after para")]),
        el("p", vec![]),
    ]);
    assert_eq!(
        walk_dom(&doc),
        vec![
            line(vec![span("para", Style::Plain)]),
            line(vec![]),
            line(vec![
                span("before", Style::Plain),
                span("in link", Style::Link),
                span("after para", Style::Link),
            ]),
            line(vec![]),
        ]
    );
}

#[test]
fn other_nodes_and_their_kind_are_passed_over() {
    let doc = DomNode::Document(vec![DomNode::Other, el("p", vec![DomNode::Other, text("x"), DomNode::Other])]);
    assert_eq!(walk_dom(&doc), vec![line(vec![span("x", Style::Plain)]), line(vec![])]);
}

#[test]
fn a_walk_goes_on_from_the_draft_it_is_given() {
    let mut lines = vec![line(vec![span("kept", Style::Plain)])];
    let mut spans = vec![span("open", Style::Heading)];
    walk_dom_recursive(&text("more"), &mut lines, &mut spans);
    assert_eq!(lines.len(), 1);
    assert_eq!(spans, vec![span("open", Style::Heading), span("more", Style::Plain)]);
    walk_dom_recursive(&el("p", vec![]), &mut lines, &mut spans);
    assert_eq!(
        lines,
        vec![
            line(vec![span("kept", Style::Plain)]),
            line(vec![span("open", Style::Heading), span("more", Style::Plain)]),
            line(vec![]),
        ]
    );
    assert!(spans.is_empty());
}

#[test]
fn html_is_parsed_and_walked() {
    let html = "<html><head><title>t</title></head><body><h1>Title</h1>\
<p>Hello <a href=\"http://x\">link</a> world</p><!-- note --><p>Second</p></body></html>";
    assert_eq!(
        html_to_text(html),
        vec![
            line(vec![span("t", Style::Plain), span("Title", Style::Heading)]),
            line(vec![
                span("Hello ", Style::Plain),
                span("link", Style::Link),
                span(" world", Style::Plain),
            ]),
            line(vec![]),
            line(vec![span("Second", Style::Plain)]),
            line(vec![]),
        ]
    );
}

#[test]
fn html_fragments_and_plain_text_are_read_too() {
    assert_eq!(html_to_text("<p>x</p>"), vec![line(vec![span("x", Style::Plain)]), line(vec![])]);
    assert_eq!(html_to_text("just text"), Vec::<Line>::new());
    assert_eq!(html_to_text(""), Vec::<Line>::new());
    assert_eq!(
        html_to_text("<P>Upper</P>"),
        vec![line(vec![span("Upper", Style::Plain)]), line(vec![])]
    );
}
