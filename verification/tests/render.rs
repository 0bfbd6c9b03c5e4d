use edita::markup::attribute;
use edita::{
    BlockQuote, Bold, BulletList, EditorNode, Header, HtmlNode, Image, InlineCode, Italic,
    ListItem, Markup, Node, Paragraph, TaskItem, TaskList, TextNode,
};

fn text_element(tag: &str, text: &str) -> Markup {
    Markup::element(tag, vec![], vec![Markup::text(text)])
}

fn checkbox(checked: &str) -> Markup {
    Markup::element(
        "input",
        vec![attribute("type", "checkbox"), attribute("checked", checked)],
        vec![],
    )
}

fn task_item_markup(text: &str, checked: &str) -> Markup {
    Markup::element(
        "li",
        vec![attribute("data-type", "dataItem")],
        vec![checkbox(checked), Markup::text(text)],
    )
}

#[test]
fn markup_builders_hold_what_they_are_given() {
    assert_eq!(attribute("src", "a.png"), ("src".to_string(), "a.png".to_string()));
    assert_eq!(Markup::text("t"), Markup::Text("t".to_string()));
    assert_eq!(Markup::html("<i>x</i>"), Markup::Html("<i>x</i>".to_string()));
    assert_eq!(
        Markup::fragment(vec![Markup::text("a"), Markup::text("b")]),
        Markup::Fragment(vec![Markup::Text("a".to_string()), Markup::Text("b".to_string())])
    );
    assert_eq!(
        Markup::element("p", vec![attribute("id", "x")], vec![Markup::text("t")]),
        Markup::Element {
            tag: "p".to_string(),
            attributes: vec![("id".to_string(), "x".to_string())],
            children: vec![Markup::Text("t".to_string())],
        }
    );
}

#[test]
fn text_renders_as_a_bare_run() {
    let node = TextNode::new("plain".to_string());
    assert_eq!(node.render(), Markup::fragment(vec![Markup::text("plain")]));
}

#[test]
fn inline_marks_render_as_their_elements() {
    assert_eq!(Bold::new("b".to_string()).render(), text_element("b", "b"));
    assert_eq!(Italic::new("i".to_string()).render(), text_element("em", "i"));
    assert_eq!(InlineCode::new("c".to_string()).render(), text_element("code", "c"));
    assert_eq!(BlockQuote::new("q".to_string()).render(), text_element("blockquote", "q"));
    assert_eq!(ListItem::new("l".to_string()).render(), text_element("li", "l"));
}

#[test]
fn every_heading_renders_as_first_level_element() {
    let expected = Markup::element(
        "h1",
        vec![attribute("data-ph", "Heading")],
        vec![Markup::text("Title")],
    );
    assert_eq!(Header::new("Title".to_string(), 1).render(), expected);
    assert_eq!(Header::new("Title".to_string(), 4).render(), expected);
}

#[test]
fn image_renders_with_source_and_alternative_text() {
    let image = Image { src: "a.png".to_string(), alt: "An a".to_string() };
    assert_eq!(
        image.render(),
        Markup::element(
            "img",
            vec![attribute("src", "a.png"), attribute("alt", "An a")],
            vec![]
        )
    );
}

#[test]
fn raw_html_renders_inside_a_fixed_box() {
    let node = HtmlNode::new("<div>x</div>".to_string());
    assert_eq!(
        node.render(),
        Markup::element(
            "div",
            vec![attribute("data-node-atom", "true"), attribute("contenteditable", "false")],
            vec![Markup::html("<div>x</div>")]
        )
    );
}

#[test]
fn paragraph_renders_its_elements_in_order() {
    let paragraph = Paragraph::new(
        "ab".to_string(),
        vec![
            EditorNode::Text(TextNode::new("a".to_string())),
            EditorNode::Bold(Bold::new("b".to_string())),
        ],
    );
    assert_eq!(
        paragraph.render(),
        Markup::element(
            "p",
            vec![attribute("data-ph", "A paragraph goes here")],
            vec![Markup::fragment(vec![Markup::text("a")]), text_element("b", "b")]
        )
    );
}

#[test]
fn empty_paragraph_renders_without_content() {
    assert_eq!(
        Paragraph::default().render(),
        Markup::element("p", vec![attribute("data-ph", "A paragraph goes here")], vec![])
    );
}

#[test]
fn nested_paragraphs_render_inside_out() {
    let inner = Paragraph::new(String::new(), vec![EditorNode::Italic(Italic::new("i".to_string()))]);
    let outer = Paragraph::new(String::new(), vec![EditorNode::Paragraph(inner)]);
    let placeholder = || vec![attribute("data-ph", "A paragraph goes here")];
    assert_eq!(
        EditorNode::Paragraph(outer).render(),
        Markup::element(
            "p",
            placeholder(),
            vec![Markup::element("p", placeholder(), vec![text_element("em", "i")])]
        )
    );
}

#[test]
fn bullet_list_renders_each_item_alone() {
    let list = BulletList::new(vec![
        EditorNode::ListItem(ListItem::new("a".to_string())),
        EditorNode::ListItem(ListItem::new("b".to_string())),
    ]);
    assert_eq!(
        list.render(),
        Markup::element(
            "ul",
            vec![],
            vec![
                Markup::fragment(vec![text_element("li", "a")]),
                Markup::fragment(vec![text_element("li", "b")]),
            ]
        )
    );
}

#[test]
fn list_renders_whatever_nodes_it_holds() {
    let inner = BulletList::new(vec![EditorNode::Bold(Bold::new("b".to_string()))]);
    let list = BulletList::new(vec![
        EditorNode::BulletList(inner),
        EditorNode::Text(TextNode::new("t".to_string())),
    ]);
    assert_eq!(
        list.render(),
        Markup::element(
            "ul",
            vec![],
            vec![
                Markup::fragment(vec![Markup::element(
                    "ul",
                    vec![],
                    vec![Markup::fragment(vec![text_element("b", "b")])]
                )]),
                Markup::fragment(vec![Markup::fragment(vec![Markup::text("t")])]),
            ]
        )
    );
    assert_eq!(BulletList::new(vec![]).render(), Markup::element("ul", vec![], vec![]));
}

#[test]
fn task_item_renders_a_checkbox_and_the_text() {
    assert_eq!(TaskItem::new("do".to_string(), true).render(), task_item_markup("do", "true"));
    assert_eq!(TaskItem::new("do".to_string(), false).render(), task_item_markup("do", "false"));
}

#[test]
fn task_list_renders_each_item_alone() {
    let list = TaskList::new(vec![
        EditorNode::TaskItem(TaskItem::new("a".to_string(), true)),
        EditorNode::TaskItem(TaskItem::new("b".to_string(), false)),
    ]);
    assert_eq!(
        list.render(),
        Markup::element(
            "ul",
            vec![attribute("data-type", "taskList")],
            vec![
                Markup::fragment(vec![task_item_markup("a", "true")]),
                Markup::fragment(vec![task_item_markup("b", "false")]),
            ]
        )
    );
}

#[test]
fn a_node_renders_as_what_it_holds() {
    assert_eq!(
        EditorNode::Bold(Bold::new("b".to_string())).render(),
        Bold::new("b".to_string()).render()
    );
    assert_eq!(
        EditorNode::Heading(Header::default()).render(),
        Header::default().render()
    );
    assert_eq!(
        EditorNode::TaskItem(TaskItem::new("t".to_string(), true)).render(),
        task_item_markup("t", "true")
    );
    assert_eq!(
        EditorNode::Html(HtmlNode::new("<hr>".to_string())).render(),
        HtmlNode::new("<hr>".to_string()).render()
    );
}
