//! Bulleted lists.

use crate::engine::{views, Block};
use crate::markup::{pair_views, Markup};
use crate::node::{
    clone_nodes, element_views, lemma_element_views, render_alone, EditorNode, Node, NodeModel,
};
use crate::source::SourceNode;
use crate::state::EditorState;
use vstd::prelude::*;

verus! {

/// Recognizes bulleted lists, `UL`, and has what is inside them parsed in
/// turn. It parses elements only.
pub struct BulletListBlock;

impl Block for BulletListBlock {
    type Input = SourceNode;

    type Node = EditorNode;

    type State = EditorState;

    open spec fn height(input: &SourceNode) -> nat {
        input.height()
    }

    open spec fn recognizes(&self, input: &SourceNode) -> bool {
        input.has_tag("UL"@)
    }

    open spec fn handles(&self, input: &SourceNode) -> bool {
        input.kind is Element
    }

    open spec fn nested(&self, input: &SourceNode) -> Seq<SourceNode> {
        input.below()
    }

    open spec fn parsed(
        &self,
        state: &EditorState,
        input: &SourceNode,
        children: Seq<NodeModel>,
    ) -> NodeModel {
        NodeModel::BulletList(children)
    }

    fn accepts(&self, input: &SourceNode) -> (accepted: bool) {
        input.tag_is("UL")
    }

    fn can_parse(&self, input: &SourceNode) -> (able: bool) {
        input.is_element()
    }

    fn children<'a>(&self, input: &'a SourceNode) -> (inner: Vec<&'a SourceNode>) {
        input.nodes_below()
    }

    fn parse(&self, state: &EditorState, input: &SourceNode, children: Vec<EditorNode>) -> (node:
        EditorNode) {
        EditorNode::BulletList(BulletList::new(children))
    }
}

/// A bulleted list: the nodes inside it, in order.
#[derive(Debug, PartialEq, Eq)]
pub struct BulletList {
    list: Vec<EditorNode>,
}

impl View for BulletList {
    type V = NodeModel;

    closed spec fn view(&self) -> NodeModel
        decreases self,
    {
        NodeModel::BulletList(element_views(self.list@))
    }
}

impl BulletList {
    /// A list that holds the given nodes.
    pub fn new(list: Vec<EditorNode>) -> (node: Self)
        ensures
            node@ == NodeModel::BulletList(views(list@)),
    {
        proof {
            lemma_element_views(list@);
        }
        BulletList { list }
    }

    /// The nodes inside the list.
    pub fn items(&self) -> (list: &Vec<EditorNode>)
        ensures
            self@ == NodeModel::BulletList(views(list@)),
    {
        proof {
            lemma_element_views(self.list@);
        }
        &self.list
    }
}

impl Clone for BulletList {
    fn clone(&self) -> (copy: Self)
        ensures
            copy@ == self@,
        decreases self,
    {
        proof {
            lemma_element_views(self.list@);
        }
        BulletList::new(clone_nodes(&self.list))
    }
}

impl Node for BulletList {
    open spec fn model(&self) -> NodeModel {
        self@
    }

    fn render(&self) -> (markup: Markup)
        decreases self,
    {
        proof {
            lemma_element_views(self.list@);
        }
        let children = render_alone(&self.list);
        let attributes: Vec<(String, String)> = Vec::new();
        let markup = Markup::element("ul", attributes, children);
        assert(pair_views(attributes@) =~= Seq::empty());
        markup
    }
}

} // verus!
