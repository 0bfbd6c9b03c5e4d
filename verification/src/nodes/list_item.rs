//! Items of a bulleted list.

use crate::engine::Block;
use crate::markup::Markup;
use crate::node::{render_text_element, EditorNode, Node, NodeModel};
use crate::source::SourceNode;
use crate::state::EditorState;
use vstd::prelude::*;

verus! {

/// Recognizes list items, `LI`.
pub struct ListItemBlock;

impl Block for ListItemBlock {
    type Input = SourceNode;

    type Node = EditorNode;

    type State = EditorState;

    open spec fn height(input: &SourceNode) -> nat {
        input.height()
    }

    open spec fn recognizes(&self, input: &SourceNode) -> bool {
        input.has_tag("LI"@)
    }

    open spec fn handles(&self, input: &SourceNode) -> bool {
        true
    }

    open spec fn nested(&self, input: &SourceNode) -> Seq<SourceNode> {
        Seq::empty()
    }

    open spec fn parsed(
        &self,
        state: &EditorState,
        input: &SourceNode,
        children: Seq<NodeModel>,
    ) -> NodeModel {
        NodeModel::ListItem(input.text_or_empty())
    }

    fn accepts(&self, input: &SourceNode) -> (accepted: bool) {
        input.tag_is("LI")
    }

    fn can_parse(&self, input: &SourceNode) -> (able: bool) {
        true
    }

    fn children<'a>(&self, input: &'a SourceNode) -> (inner: Vec<&'a SourceNode>) {
        Vec::new()
    }

    fn parse(&self, state: &EditorState, input: &SourceNode, children: Vec<EditorNode>) -> (node:
        EditorNode) {
        EditorNode::ListItem(ListItem::new(input.text_or_default()))
    }
}

/// An item of a bulleted list.
#[derive(Debug, PartialEq, Eq)]
pub struct ListItem {
    text: String,
}

impl View for ListItem {
    type V = NodeModel;

    closed spec fn view(&self) -> NodeModel {
        NodeModel::ListItem(self.text@)
    }
}

impl ListItem {
    /// An item with the given text.
    pub fn new(text: String) -> (node: Self)
        ensures
            node@ == NodeModel::ListItem(text@),
    {
        ListItem { text }
    }

    /// The text.
    pub fn text(&self) -> (text: &String)
        ensures
            self@ == NodeModel::ListItem(text@),
    {
        &self.text
    }
}

impl Clone for ListItem {
    fn clone(&self) -> (copy: Self)
        ensures
            copy@ == self@,
    {
        ListItem { text: self.text.clone() }
    }
}

impl Node for ListItem {
    open spec fn model(&self) -> NodeModel {
        self@
    }

    fn render(&self) -> (markup: Markup) {
        render_text_element("li", self.text.as_str())
    }
}

} // verus!
