//! Quotations.

use crate::engine::Block;
use crate::markup::Markup;
use crate::node::{render_text_element, EditorNode, Node, NodeModel};
use crate::source::SourceNode;
use crate::state::EditorState;
use vstd::prelude::*;

verus! {

/// Recognizes quotation elements, `BLOCKQUOTE`.
pub struct BlockQuoteBlock;

impl Block for BlockQuoteBlock {
    type Input = SourceNode;

    type Node = EditorNode;

    type State = EditorState;

    open spec fn height(input: &SourceNode) -> nat {
        input.height()
    }

    open spec fn recognizes(&self, input: &SourceNode) -> bool {
        input.has_tag("BLOCKQUOTE"@)
    }

    open spec fn handles(&self, input: &SourceNode) -> bool {
        true
    }

    open spec fn nested(&self, input: &SourceNode) -> Seq<SourceNode> {
        Seq::empty()
    }

    open spec fn parsed(
        &self,
        state: &EditorState,
        input: &SourceNode,
        children: Seq<NodeModel>,
    ) -> NodeModel {
        NodeModel::BlockQuote(input.text_or_empty())
    }

    fn accepts(&self, input: &SourceNode) -> (accepted: bool) {
        input.tag_is("BLOCKQUOTE")
    }

    fn can_parse(&self, input: &SourceNode) -> (able: bool) {
        true
    }

    fn children<'a>(&self, input: &'a SourceNode) -> (inner: Vec<&'a SourceNode>) {
        Vec::new()
    }

    fn parse(&self, state: &EditorState, input: &SourceNode, children: Vec<EditorNode>) -> (node:
        EditorNode) {
        EditorNode::BlockQuote(BlockQuote::new(input.text_or_default()))
    }
}

/// A quotation.
#[derive(Debug, PartialEq, Eq)]
pub struct BlockQuote {
    text: String,
}

impl View for BlockQuote {
    type V = NodeModel;

    closed spec fn view(&self) -> NodeModel {
        NodeModel::BlockQuote(self.text@)
    }
}

impl BlockQuote {
    /// A quotation of the given text.
    pub fn new(text: String) -> (node: Self)
        ensures
            node@ == NodeModel::BlockQuote(text@),
    {
        BlockQuote { text }
    }

    /// The text.
    pub fn text(&self) -> (text: &String)
        ensures
            self@ == NodeModel::BlockQuote(text@),
    {
        &self.text
    }
}

impl Clone for BlockQuote {
    fn clone(&self) -> (copy: Self)
        ensures
            copy@ == self@,
    {
        BlockQuote { text: self.text.clone() }
    }
}

impl Node for BlockQuote {
    open spec fn model(&self) -> NodeModel {
        self@
    }

    fn render(&self) -> (markup: Markup) {
        render_text_element("blockquote", self.text.as_str())
    }
}

} // verus!
