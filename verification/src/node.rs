//! The document model: what a parsed node holds, how it is rendered, and the
//! closed set of node kinds.

use crate::editor::HtmlNode;
use crate::engine::views;
use crate::image::Image;
use crate::markup::{pair_views, Markup, MarkupModel};
use crate::nodes::block_quote::BlockQuote;
use crate::nodes::bullet_list::BulletList;
use crate::nodes::heading::Header;
use crate::nodes::list_item::ListItem;
use crate::nodes::task_item::TaskItem;
use crate::nodes::task_list::TaskList;
use crate::paragraph::Paragraph;
use crate::text::{Bold, InlineCode, Italic, TextNode};
use vstd::prelude::*;

verus! {

/// What a document node holds. A node is a snapshot: it keeps no reference to
/// the source it was parsed from.
#[verifier::ext_equal]
pub enum NodeModel {
    /// HTML kept as it was found.
    Html(Seq<char>),
    /// A paragraph with its text and the nodes inside it.
    Paragraph { text: Seq<char>, elements: Seq<NodeModel> },
    /// A run of text.
    Text(Seq<char>),
    /// Bold text.
    Bold(Seq<char>),
    /// A heading with its text and its level: 1 to 6 for `H1` to `H6`.
    Heading { text: Seq<char>, level: u8 },
    /// Italic text.
    Italic(Seq<char>),
    /// Text set as code.
    InlineCode(Seq<char>),
    /// An image with its source and its alternative text.
    Image { src: Seq<char>, alt: Seq<char> },
    /// A quotation.
    BlockQuote(Seq<char>),
    /// An item of a list.
    ListItem(Seq<char>),
    /// A bulleted list with the nodes inside it.
    BulletList(Seq<NodeModel>),
    /// An item of a task list, with its text and whether it is ticked.
    TaskItem { text: Seq<char>, checked: bool },
    /// A task list with the nodes inside it.
    TaskList(Seq<NodeModel>),
}

/// An element that holds one run of text and has no attributes.
pub open spec fn text_element(tag: Seq<char>, text: Seq<char>) -> MarkupModel {
    MarkupModel::Element { tag, attributes: Seq::empty(), children: seq![MarkupModel::Text(text)] }
}

/// The markup of an item of a task list: a checkbox, then the text.
pub open spec fn task_item_markup(text: Seq<char>, checked: bool) -> MarkupModel {
    MarkupModel::Element {
        tag: "li"@,
        attributes: seq![("data-type"@, "dataItem"@)],
        children: seq![
            MarkupModel::Element {
                tag: "input"@,
                attributes: seq![
                    ("type"@, "checkbox"@),
                    (
                        "checked"@,
                        if checked {
                            "true"@
                        } else {
                            "false"@
                        },
                    ),
                ],
                children: Seq::empty(),
            },
            MarkupModel::Text(text),
        ],
    }
}

/// The markup that a node renders to. It depends on what the node holds and
/// on nothing else.
pub open spec fn markup_of(model: NodeModel) -> MarkupModel
    decreases model,
{
    match model {
        NodeModel::Html(html) => MarkupModel::Element {
            tag: "div"@,
            attributes: seq![("data-node-atom"@, "true"@), ("contenteditable"@, "false"@)],
            children: seq![MarkupModel::Html(html)],
        },
        NodeModel::Paragraph { text, elements } => MarkupModel::Element {
            tag: "p"@,
            attributes: seq![("data-ph"@, "A paragraph goes here"@)],
            children: markups_of(elements),
        },
        NodeModel::Text(text) => MarkupModel::Fragment(seq![MarkupModel::Text(text)]),
        NodeModel::Bold(text) => text_element("b"@, text),
        NodeModel::Heading { text, level } => MarkupModel::Element {
            tag: "h1"@,
            attributes: seq![("data-ph"@, "Heading"@)],
            children: seq![MarkupModel::Text(text)],
        },
        NodeModel::Italic(text) => text_element("em"@, text),
        NodeModel::InlineCode(text) => text_element("code"@, text),
        NodeModel::Image { src, alt } => MarkupModel::Element {
            tag: "img"@,
            attributes: seq![("src"@, src), ("alt"@, alt)],
            children: Seq::empty(),
        },
        NodeModel::BlockQuote(text) => text_element("blockquote"@, text),
        NodeModel::ListItem(text) => text_element("li"@, text),
        NodeModel::BulletList(items) => MarkupModel::Element {
            tag: "ul"@,
            attributes: Seq::empty(),
            children: alone_markups_of(items),
        },
        NodeModel::TaskItem { text, checked } => task_item_markup(text, checked),
        NodeModel::TaskList(items) => MarkupModel::Element {
            tag: "ul"@,
            attributes: seq![("data-type"@, "taskList"@)],
            children: alone_markups_of(items),
        },
    }
}

/// The markup of each node of a list.
pub open spec fn markups_of(models: Seq<NodeModel>) -> Seq<MarkupModel>
    decreases models,
{
    Seq::new(
        models.len(),
        |i: int|
            if 0 <= i < models.len() {
                markup_of(models[i])
            } else {
                MarkupModel::Fragment(Seq::empty())
            },
    )
}

/// The markup of each node of a list, each standing alone in a fragment.
pub open spec fn alone_markups_of(models: Seq<NodeModel>) -> Seq<MarkupModel>
    decreases models,
{
    Seq::new(
        models.len(),
        |i: int|
            if 0 <= i < models.len() {
                MarkupModel::Fragment(seq![markup_of(models[i])])
            } else {
                MarkupModel::Fragment(Seq::empty())
            },
    )
}

/// A document node: it can be rendered, from what it holds alone.
pub trait Node {
    /// What the node holds.
    spec fn model(&self) -> NodeModel;

    /// The markup of the node.
    fn render(&self) -> (markup: Markup)
        ensures
            markup@ == markup_of(self.model()),
    ;
}

/// An element with the given tag name that holds the given text and has no
/// attributes.
pub fn render_text_element(tag: &str, text: &str) -> (markup: Markup)
    ensures
        markup@ == text_element(tag@, text@),
{
    let mut children: Vec<Markup> = Vec::new();
    children.push(Markup::text(text));
    let attributes: Vec<(String, String)> = Vec::new();
    let markup = Markup::element(tag, attributes, children);
    assert(pair_views(attributes@) =~= Seq::empty());
    assert(views(children@) =~= seq![MarkupModel::Text(text@)]);
    markup
}

/// Renders each node of a list, each standing alone in a fragment.
pub fn render_alone(nodes: &Vec<EditorNode>) -> (pieces: Vec<Markup>)
    ensures
        views(pieces@) == alone_markups_of(views(nodes@)),
    decreases nodes,
{
    let mut pieces: Vec<Markup> = Vec::new();
    let mut index: usize = 0;
    while index < nodes.len()
        invariant
            index <= nodes.len(),
            pieces@.len() == index,
            forall|i: int|
                0 <= i < index ==> (#[trigger] pieces@[i])@ == MarkupModel::Fragment(
                    seq![markup_of(nodes@[i]@)],
                ),
        decreases nodes.len() - index,
    {
        let mut alone: Vec<Markup> = Vec::new();
        alone.push(nodes[index].render());
        let piece = Markup::fragment(alone);
        assert(views(alone@) =~= seq![markup_of(nodes@[index as int]@)]);
        pieces.push(piece);
        index += 1;
    }
    assert(views(pieces@) =~= alone_markups_of(views(nodes@)));
    pieces
}

/// What each node of a list holds.
pub open spec fn element_views(elements: Seq<EditorNode>) -> Seq<NodeModel>
    decreases elements,
{
    Seq::new(
        elements.len(),
        |i: int|
            if 0 <= i < elements.len() {
                elements[i]@
            } else {
                NodeModel::Text(Seq::empty())
            },
    )
}

/// The views of a list of nodes are the views of its nodes, one for one.
pub proof fn lemma_element_views(elements: Seq<EditorNode>)
    ensures
        element_views(elements) == views(elements),
{
    assert(element_views(elements) =~= views(elements));
}

/// A copy of each node of a list.
pub fn clone_nodes(nodes: &Vec<EditorNode>) -> (copies: Vec<EditorNode>)
    ensures
        views(copies@) == views(nodes@),
    decreases nodes,
{
    let mut copies: Vec<EditorNode> = Vec::new();
    let mut index: usize = 0;
    while index < nodes.len()
        invariant
            index <= nodes.len(),
            copies@.len() == index,
            forall|i: int| 0 <= i < index ==> (#[trigger] copies@[i])@ == nodes@[i]@,
        decreases nodes.len() - index,
    {
        copies.push(nodes[index].clone());
        index += 1;
    }
    assert(views(copies@) =~= views(nodes@));
    copies
}

/// The closed set of node kinds.
#[derive(Debug, PartialEq, Eq)]
pub enum EditorNode {
    Html(HtmlNode),
    Paragraph(Paragraph),
    Text(TextNode),
    Bold(Bold),
    Heading(Header),
    Italic(Italic),
    InlineCode(InlineCode),
    Image(Image),
    BlockQuote(BlockQuote),
    ListItem(ListItem),
    BulletList(BulletList),
    TaskItem(TaskItem),
    TaskList(TaskList),
}

impl View for EditorNode {
    type V = NodeModel;

    open spec fn view(&self) -> NodeModel
        decreases self,
    {
        match self {
            EditorNode::Html(node) => node@,
            EditorNode::Paragraph(node) => node@,
            EditorNode::Text(node) => node@,
            EditorNode::Bold(node) => node@,
            EditorNode::Heading(node) => node@,
            EditorNode::Italic(node) => node@,
            EditorNode::InlineCode(node) => node@,
            EditorNode::Image(node) => node@,
            EditorNode::BlockQuote(node) => node@,
            EditorNode::ListItem(node) => node@,
            EditorNode::BulletList(node) => node@,
            EditorNode::TaskItem(node) => node@,
            EditorNode::TaskList(node) => node@,
        }
    }
}

impl Clone for EditorNode {
    fn clone(&self) -> (copy: Self)
        ensures
            copy@ == self@,
        decreases self,
    {
        match self {
            EditorNode::Html(node) => EditorNode::Html(node.clone()),
            EditorNode::Paragraph(node) => EditorNode::Paragraph(node.clone()),
            EditorNode::Text(node) => EditorNode::Text(node.clone()),
            EditorNode::Bold(node) => EditorNode::Bold(node.clone()),
            EditorNode::Heading(node) => EditorNode::Heading(node.clone()),
            EditorNode::Italic(node) => EditorNode::Italic(node.clone()),
            EditorNode::InlineCode(node) => EditorNode::InlineCode(node.clone()),
            EditorNode::Image(node) => EditorNode::Image(node.clone()),
            EditorNode::BlockQuote(node) => EditorNode::BlockQuote(node.clone()),
            EditorNode::ListItem(node) => EditorNode::ListItem(node.clone()),
            EditorNode::BulletList(node) => EditorNode::BulletList(node.clone()),
            EditorNode::TaskItem(node) => EditorNode::TaskItem(node.clone()),
            EditorNode::TaskList(node) => EditorNode::TaskList(node.clone()),
        }
    }
}

impl Node for EditorNode {
    open spec fn model(&self) -> NodeModel {
        self@
    }

    fn render(&self) -> (markup: Markup)
        decreases self,
    {
        match self {
            EditorNode::Html(node) => node.render(),
            EditorNode::Paragraph(node) => node.render(),
            EditorNode::Text(node) => node.render(),
            EditorNode::Bold(node) => node.render(),
            EditorNode::Heading(node) => node.render(),
            EditorNode::Italic(node) => node.render(),
            EditorNode::InlineCode(node) => node.render(),
            EditorNode::Image(node) => node.render(),
            EditorNode::BlockQuote(node) => node.render(),
            EditorNode::ListItem(node) => node.render(),
            EditorNode::BulletList(node) => node.render(),
            EditorNode::TaskItem(node) => node.render(),
            EditorNode::TaskList(node) => node.render(),
        }
    }
}

} // verus!
