//! The editor over a surface of HTML: the fallback that keeps HTML as it is,
//! the closed set of blocks, and the export of the document.

use crate::dispatch::{
    can_process, dispatch, dispatch_one, lemma_dispatch_ignores_state, lemma_dispatch_one,
    lemma_nodes_below, lemma_nodes_below_len, parseable, process_nodes, reads_no_state,
    recognized_inputs,
};
use crate::engine::{chosen, nests_lower, views, Block, Editor, EditorView};
use crate::image::ImageBlock;
use crate::markup::{attribute, pair_views, Markup, MarkupModel};
use crate::node::{markup_of, EditorNode, Node, NodeModel};
use crate::nodes::block_quote::BlockQuoteBlock;
use crate::nodes::bullet_list::BulletListBlock;
use crate::nodes::heading::HeaderBlock;
use crate::nodes::list_item::ListItemBlock;
use crate::nodes::task_item::TaskItemBlock;
use crate::nodes::task_list::TaskListBlock;
use crate::paragraph::ParagraphBlock;
use crate::source::SourceNode;
use crate::state::{settled, EditorState, Phase};
use crate::text::{BoldBlock, InlineCodeBlock, ItalicBlock, TextNodeBlock};
use vstd::prelude::*;

verus! {

/// Takes every input, and keeps an HTML element as the HTML it is written
/// as. It is meant as a fallback.
pub struct HtmlBlock;

/// HTML kept as it was found.
#[derive(Debug, PartialEq, Eq)]
pub struct HtmlNode(String);

impl View for HtmlNode {
    type V = NodeModel;

    closed spec fn view(&self) -> NodeModel {
        NodeModel::Html(self.0@)
    }
}

impl HtmlNode {
    /// A node that keeps the given HTML.
    pub fn new(html: String) -> (node: Self)
        ensures
            node@ == NodeModel::Html(html@),
    {
        HtmlNode(html)
    }

    /// The HTML.
    pub fn html(&self) -> (html: &String)
        ensures
            self@ == NodeModel::Html(html@),
    {
        &self.0
    }
}

impl Clone for HtmlNode {
    fn clone(&self) -> (copy: Self)
        ensures
            copy@ == self@,
    {
        HtmlNode(self.0.clone())
    }
}

impl Node for HtmlNode {
    open spec fn model(&self) -> NodeModel {
        self@
    }

    fn render(&self) -> (markup: Markup) {
        let mut attributes: Vec<(String, String)> = Vec::new();
        attributes.push(attribute("data-node-atom", "true"));
        attributes.push(attribute("contenteditable", "false"));
        let mut children: Vec<Markup> = Vec::new();
        children.push(Markup::html(self.0.as_str()));
        let markup = Markup::element("div", attributes, children);
        assert(pair_views(attributes@) =~= seq![
            ("data-node-atom"@, "true"@),
            ("contenteditable"@, "false"@),
        ]);
        assert(views(children@) =~= seq![MarkupModel::Html(self.0@)]);
        markup
    }
}

impl Block for HtmlBlock {
    type Input = SourceNode;

    type Node = EditorNode;

    type State = EditorState;

    open spec fn height(input: &SourceNode) -> nat {
        input.height()
    }

    open spec fn recognizes(&self, input: &SourceNode) -> bool {
        true
    }

    open spec fn handles(&self, input: &SourceNode) -> bool {
        input.html is Some
    }

    open spec fn nested(&self, input: &SourceNode) -> Seq<SourceNode> {
        Seq::empty()
    }

    open spec fn parsed(
        &self,
        state: &EditorState,
        input: &SourceNode,
        children: Seq<NodeModel>,
    ) -> NodeModel {
        match input.html {
            Some(html) => NodeModel::Html(html@),
            None => NodeModel::Html(Seq::empty()),
        }
    }

    fn accepts(&self, input: &SourceNode) -> (accepted: bool) {
        true
    }

    fn can_parse(&self, input: &SourceNode) -> (able: bool) {
        input.html.is_some()
    }

    fn children<'a>(&self, input: &'a SourceNode) -> (inner: Vec<&'a SourceNode>) {
        Vec::new()
    }

    fn parse(&self, state: &EditorState, input: &SourceNode, children: Vec<EditorNode>) -> (node:
        EditorNode) {
        match &input.html {
            Some(html) => EditorNode::Html(HtmlNode::new(html.clone())),
            None => EditorNode::Html(HtmlNode::new(String::new())),
        }
    }
}

/// The closed set of blocks over a surface of HTML. An editor holds blocks of
/// one type; this is the type that holds any of them.
pub enum EditorBlock {
    Html(HtmlBlock),
    Paragraph(ParagraphBlock),
    Text(TextNodeBlock),
    Bold(BoldBlock),
    Heading(HeaderBlock),
    Italic(ItalicBlock),
    InlineCode(InlineCodeBlock),
    Image(ImageBlock),
    BlockQuote(BlockQuoteBlock),
    ListItem(ListItemBlock),
    BulletList(BulletListBlock),
    TaskItem(TaskItemBlock),
    TaskList(TaskListBlock),
}

impl Block for EditorBlock {
    type Input = SourceNode;

    type Node = EditorNode;

    type State = EditorState;

    open spec fn height(input: &SourceNode) -> nat {
        input.height()
    }

    open spec fn recognizes(&self, input: &SourceNode) -> bool {
        match self {
            EditorBlock::Html(block) => block.recognizes(input),
            EditorBlock::Paragraph(block) => block.recognizes(input),
            EditorBlock::Text(block) => block.recognizes(input),
            EditorBlock::Bold(block) => block.recognizes(input),
            EditorBlock::Heading(block) => block.recognizes(input),
            EditorBlock::Italic(block) => block.recognizes(input),
            EditorBlock::InlineCode(block) => block.recognizes(input),
            EditorBlock::Image(block) => block.recognizes(input),
            EditorBlock::BlockQuote(block) => block.recognizes(input),
            EditorBlock::ListItem(block) => block.recognizes(input),
            EditorBlock::BulletList(block) => block.recognizes(input),
            EditorBlock::TaskItem(block) => block.recognizes(input),
            EditorBlock::TaskList(block) => block.recognizes(input),
        }
    }

    open spec fn handles(&self, input: &SourceNode) -> bool {
        match self {
            EditorBlock::Html(block) => block.handles(input),
            EditorBlock::Paragraph(block) => block.handles(input),
            EditorBlock::Text(block) => block.handles(input),
            EditorBlock::Bold(block) => block.handles(input),
            EditorBlock::Heading(block) => block.handles(input),
            EditorBlock::Italic(block) => block.handles(input),
            EditorBlock::InlineCode(block) => block.handles(input),
            EditorBlock::Image(block) => block.handles(input),
            EditorBlock::BlockQuote(block) => block.handles(input),
            EditorBlock::ListItem(block) => block.handles(input),
            EditorBlock::BulletList(block) => block.handles(input),
            EditorBlock::TaskItem(block) => block.handles(input),
            EditorBlock::TaskList(block) => block.handles(input),
        }
    }

    open spec fn nested(&self, input: &SourceNode) -> Seq<SourceNode> {
        match self {
            EditorBlock::Html(block) => block.nested(input),
            EditorBlock::Paragraph(block) => block.nested(input),
            EditorBlock::Text(block) => block.nested(input),
            EditorBlock::Bold(block) => block.nested(input),
            EditorBlock::Heading(block) => block.nested(input),
            EditorBlock::Italic(block) => block.nested(input),
            EditorBlock::InlineCode(block) => block.nested(input),
            EditorBlock::Image(block) => block.nested(input),
            EditorBlock::BlockQuote(block) => block.nested(input),
            EditorBlock::ListItem(block) => block.nested(input),
            EditorBlock::BulletList(block) => block.nested(input),
            EditorBlock::TaskItem(block) => block.nested(input),
            EditorBlock::TaskList(block) => block.nested(input),
        }
    }

    open spec fn parsed(
        &self,
        state: &EditorState,
        input: &SourceNode,
        children: Seq<NodeModel>,
    ) -> NodeModel {
        match self {
            EditorBlock::Html(block) => block.parsed(state, input, children),
            EditorBlock::Paragraph(block) => block.parsed(state, input, children),
            EditorBlock::Text(block) => block.parsed(state, input, children),
            EditorBlock::Bold(block) => block.parsed(state, input, children),
            EditorBlock::Heading(block) => block.parsed(state, input, children),
            EditorBlock::Italic(block) => block.parsed(state, input, children),
            EditorBlock::InlineCode(block) => block.parsed(state, input, children),
            EditorBlock::Image(block) => block.parsed(state, input, children),
            EditorBlock::BlockQuote(block) => block.parsed(state, input, children),
            EditorBlock::ListItem(block) => block.parsed(state, input, children),
            EditorBlock::BulletList(block) => block.parsed(state, input, children),
            EditorBlock::TaskItem(block) => block.parsed(state, input, children),
            EditorBlock::TaskList(block) => block.parsed(state, input, children),
        }
    }

    fn accepts(&self, input: &SourceNode) -> (accepted: bool) {
        match self {
            EditorBlock::Html(block) => block.accepts(input),
            EditorBlock::Paragraph(block) => block.accepts(input),
            EditorBlock::Text(block) => block.accepts(input),
            EditorBlock::Bold(block) => block.accepts(input),
            EditorBlock::Heading(block) => block.accepts(input),
            EditorBlock::Italic(block) => block.accepts(input),
            EditorBlock::InlineCode(block) => block.accepts(input),
            EditorBlock::Image(block) => block.accepts(input),
            EditorBlock::BlockQuote(block) => block.accepts(input),
            EditorBlock::ListItem(block) => block.accepts(input),
            EditorBlock::BulletList(block) => block.accepts(input),
            EditorBlock::TaskItem(block) => block.accepts(input),
            EditorBlock::TaskList(block) => block.accepts(input),
        }
    }

    fn can_parse(&self, input: &SourceNode) -> (able: bool) {
        match self {
            EditorBlock::Html(block) => block.can_parse(input),
            EditorBlock::Paragraph(block) => block.can_parse(input),
            EditorBlock::Text(block) => block.can_parse(input),
            EditorBlock::Bold(block) => block.can_parse(input),
            EditorBlock::Heading(block) => block.can_parse(input),
            EditorBlock::Italic(block) => block.can_parse(input),
            EditorBlock::InlineCode(block) => block.can_parse(input),
            EditorBlock::Image(block) => block.can_parse(input),
            EditorBlock::BlockQuote(block) => block.can_parse(input),
            EditorBlock::ListItem(block) => block.can_parse(input),
            EditorBlock::BulletList(block) => block.can_parse(input),
            EditorBlock::TaskItem(block) => block.can_parse(input),
            EditorBlock::TaskList(block) => block.can_parse(input),
        }
    }

    fn children<'a>(&self, input: &'a SourceNode) -> (inner: Vec<&'a SourceNode>) {
        match self {
            EditorBlock::Html(block) => block.children(input),
            EditorBlock::Paragraph(block) => block.children(input),
            EditorBlock::Text(block) => block.children(input),
            EditorBlock::Bold(block) => block.children(input),
            EditorBlock::Heading(block) => block.children(input),
            EditorBlock::Italic(block) => block.children(input),
            EditorBlock::InlineCode(block) => block.children(input),
            EditorBlock::Image(block) => block.children(input),
            EditorBlock::BlockQuote(block) => block.children(input),
            EditorBlock::ListItem(block) => block.children(input),
            EditorBlock::BulletList(block) => block.children(input),
            EditorBlock::TaskItem(block) => block.children(input),
            EditorBlock::TaskList(block) => block.children(input),
        }
    }

    fn parse(&self, state: &EditorState, input: &SourceNode, children: Vec<EditorNode>) -> (node:
        EditorNode) {
        match self {
            EditorBlock::Html(block) => block.parse(state, input, children),
            EditorBlock::Paragraph(block) => block.parse(state, input, children),
            EditorBlock::Text(block) => block.parse(state, input, children),
            EditorBlock::Bold(block) => block.parse(state, input, children),
            EditorBlock::Heading(block) => block.parse(state, input, children),
            EditorBlock::Italic(block) => block.parse(state, input, children),
            EditorBlock::InlineCode(block) => block.parse(state, input, children),
            EditorBlock::Image(block) => block.parse(state, input, children),
            EditorBlock::BlockQuote(block) => block.parse(state, input, children),
            EditorBlock::ListItem(block) => block.parse(state, input, children),
            EditorBlock::BulletList(block) => block.parse(state, input, children),
            EditorBlock::TaskItem(block) => block.parse(state, input, children),
            EditorBlock::TaskList(block) => block.parse(state, input, children),
        }
    }
}

/// The export of the document from the surface, on request and when the
/// surface has changed.
pub trait EditorExt {
    /// The nodes that an export of the surface holds.
    spec fn exported(&self, surface: Seq<SourceNode>) -> Seq<NodeModel>;

    /// Whether the surface can be exported: every block that is chosen
    /// handles its input.
    spec fn exportable(&self, surface: Seq<SourceNode>) -> bool;

    /// Whether an export is due.
    spec fn due(&self) -> bool;

    /// Whether the surface can be exported.
    fn can_export(&self, surface: &Vec<SourceNode>) -> (able: bool)
        ensures
            able == self.exportable(surface@),
    ;

    /// Parses the nodes at the top of the surface, in order.
    fn export(&self, surface: Vec<SourceNode>) -> (nodes: Vec<EditorNode>)
        requires
            self.exportable(surface@),
        ensures
            views(nodes@) == self.exported(surface@),
    ;

    /// Makes the export that is due, if one is: exports the surface as it is
    /// now and hands the nodes out to be sent to the subscribers. Where none
    /// is due, nothing is exported. Afterwards none is due.
    fn poll_export(&mut self, surface: Vec<SourceNode>) -> (emitted: Option<Vec<EditorNode>>)
        requires
            old(self).due() ==> old(self).exportable(surface@),
        ensures
            !final(self).due(),
            match emitted {
                Some(nodes) => old(self).due() && views(nodes@) == old(self).exported(surface@),
                None => !old(self).due(),
            },
    ;
}

impl<B: Block<Input = SourceNode, Node = EditorNode, State = EditorState>> EditorExt for Editor<B> {
    open spec fn exported(&self, surface: Seq<SourceNode>) -> Seq<NodeModel> {
        dispatch(self@, surface)
    }

    open spec fn exportable(&self, surface: Seq<SourceNode>) -> bool {
        parseable(self@, surface)
    }

    open spec fn due(&self) -> bool {
        self@.state@.phase == Phase::Exporting
    }

    fn can_export(&self, surface: &Vec<SourceNode>) -> (able: bool) {
        can_process(self, surface)
    }

    fn export(&self, surface: Vec<SourceNode>) -> (nodes: Vec<EditorNode>) {
        process_nodes(self, surface)
    }

    fn poll_export(&mut self, surface: Vec<SourceNode>) -> (emitted: Option<Vec<EditorNode>>)
        ensures
            final(self)@.blocks == old(self)@.blocks,
            final(self)@.fallback == old(self)@.fallback,
            final(self)@.state@ == settled(old(self)@.state@),
    {
        if self.state().is_exporting() {
            let nodes = self.export(surface);
            self.state_mut().settle();
            Some(nodes)
        } else {
            None
        }
    }
}

/// None of the blocks over HTML reads the state.
pub proof fn lemma_blocks_read_no_state()
    ensures
        reads_no_state::<EditorBlock>(),
{
}

/// Exporting again gives the same nodes: two exports of the same surface
/// agree, whatever was notified, requested or exported in between. Blocks
/// are only ever added, so an editor that has gained none exports as before.
pub proof fn lemma_export_again(
    before: Editor<EditorBlock>,
    after: Editor<EditorBlock>,
    surface: Seq<SourceNode>,
)
    requires
        after@.blocks == before@.blocks,
        after@.fallback == before@.fallback,
    ensures
        after.exported(surface) == before.exported(surface),
{
    lemma_blocks_read_no_state();
    lemma_dispatch_ignores_state(before@, after@, surface);
}

/// A paragraph holds what is directly below its element: one node for each
/// node there where a fallback is set, and one for each of those that some
/// block recognizes where none is.
pub proof fn lemma_paragraph_holds_children(editor: EditorView<EditorBlock>, input: SourceNode)
    requires
        chosen(editor, &input) == Some(EditorBlock::Paragraph(ParagraphBlock)),
        input.kind is Element,
    ensures
        dispatch_one(editor, input) == Some(
            NodeModel::Paragraph {
                text: input.text_or_empty(),
                elements: dispatch(editor, input.children@),
            },
        ),
        dispatch(editor, input.children@).len() == if editor.fallback is Some {
            input.children@.len()
        } else {
            recognized_inputs(editor, input.children@).len()
        },
{
    let block = EditorBlock::Paragraph(ParagraphBlock);
    assert forall|j: int| 0 <= j < input.children@.len() implies (
    #[trigger] input.children@[j]).height() < input.height() by {
        input.lemma_child_is_lower(j);
    }
    assert(nests_lower(block, input));
    lemma_dispatch_one(editor, input);
    lemma_nodes_below_len(editor, block, input);
    lemma_nodes_below(editor, block, input);
}

/// A bulleted list holds what is directly below its element: one node for
/// each node there where a fallback is set, and one for each of those that
/// some block recognizes where none is.
pub proof fn lemma_bullet_list_holds_children(editor: EditorView<EditorBlock>, input: SourceNode)
    requires
        chosen(editor, &input) == Some(EditorBlock::BulletList(BulletListBlock)),
        input.kind is Element,
    ensures
        dispatch_one(editor, input) == Some(
            NodeModel::BulletList(dispatch(editor, input.children@)),
        ),
        dispatch(editor, input.children@).len() == if editor.fallback is Some {
            input.children@.len()
        } else {
            recognized_inputs(editor, input.children@).len()
        },
{
    let block = EditorBlock::BulletList(BulletListBlock);
    assert forall|j: int| 0 <= j < input.children@.len() implies (
    #[trigger] input.children@[j]).height() < input.height() by {
        input.lemma_child_is_lower(j);
    }
    assert(nests_lower(block, input));
    lemma_dispatch_one(editor, input);
    lemma_nodes_below_len(editor, block, input);
    lemma_nodes_below(editor, block, input);
}

/// A task list holds what is directly below its element: one node for each
/// node there where a fallback is set, and one for each of those that some
/// block recognizes where none is.
pub proof fn lemma_task_list_holds_children(editor: EditorView<EditorBlock>, input: SourceNode)
    requires
        chosen(editor, &input) == Some(EditorBlock::TaskList(TaskListBlock)),
        input.kind is Element,
    ensures
        dispatch_one(editor, input) == Some(
            NodeModel::TaskList(dispatch(editor, input.children@)),
        ),
        dispatch(editor, input.children@).len() == if editor.fallback is Some {
            input.children@.len()
        } else {
            recognized_inputs(editor, input.children@).len()
        },
{
    let block = EditorBlock::TaskList(TaskListBlock);
    assert forall|j: int| 0 <= j < input.children@.len() implies (
    #[trigger] input.children@[j]).height() < input.height() by {
        input.lemma_child_is_lower(j);
    }
    assert(nests_lower(block, input));
    lemma_dispatch_one(editor, input);
    lemma_nodes_below_len(editor, block, input);
    lemma_nodes_below(editor, block, input);
}

} // verus!
