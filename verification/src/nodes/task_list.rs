//! Task lists.

use crate::engine::{views, Block};
use crate::markup::{attribute, pair_views, Markup};
use crate::node::{
    clone_nodes, element_views, lemma_element_views, render_alone, EditorNode, Node, NodeModel,
};
use crate::source::SourceNode;
use crate::state::EditorState;
use vstd::prelude::*;

verus! {

/// Recognizes task lists: `UL` elements whose `data-type` is `taskList`. It
/// has what is inside them parsed in turn, and parses elements only.
pub struct TaskListBlock;

impl Block for TaskListBlock {
    type Input = SourceNode;

    type Node = EditorNode;

    type State = EditorState;

    open spec fn height(input: &SourceNode) -> nat {
        input.height()
    }

    open spec fn recognizes(&self, input: &SourceNode) -> bool {
        input.has_tag("UL"@) && input.attribute("data-type"@) == Some("taskList"@)
    }

    open spec fn handles(&self, input: &SourceNode) -> bool {
        input.kind is Element
    }

    open spec fn nested(&self, input: &SourceNode) -> Seq<SourceNode> {
        input.below()
    }

    open spec fn parsed(
        &self,
        state: &EditorState,
        input: &SourceNode,
        children: Seq<NodeModel>,
    ) -> NodeModel {
        NodeModel::TaskList(children)
    }

    fn accepts(&self, input: &SourceNode) -> (accepted: bool) {
        input.tag_is("UL") && input.attribute_is("data-type", "taskList")
    }

    fn can_parse(&self, input: &SourceNode) -> (able: bool) {
        input.is_element()
    }

    fn children<'a>(&self, input: &'a SourceNode) -> (inner: Vec<&'a SourceNode>) {
        input.nodes_below()
    }

    fn parse(&self, state: &EditorState, input: &SourceNode, children: Vec<EditorNode>) -> (node:
        EditorNode) {
        EditorNode::TaskList(TaskList::new(children))
    }
}

/// A task list: the nodes inside it, in order.
#[derive(Debug, PartialEq, Eq)]
pub struct TaskList {
    list: Vec<EditorNode>,
}

impl View for TaskList {
    type V = NodeModel;

    closed spec fn view(&self) -> NodeModel
        decreases self,
    {
        NodeModel::TaskList(element_views(self.list@))
    }
}

impl TaskList {
    /// A list that holds the given nodes.
    pub fn new(list: Vec<EditorNode>) -> (node: Self)
        ensures
            node@ == NodeModel::TaskList(views(list@)),
    {
        proof {
            lemma_element_views(list@);
        }
        TaskList { list }
    }

    /// The nodes inside the list.
    pub fn items(&self) -> (list: &Vec<EditorNode>)
        ensures
            self@ == NodeModel::TaskList(views(list@)),
    {
        proof {
            lemma_element_views(self.list@);
        }
        &self.list
    }
}

impl Clone for TaskList {
    fn clone(&self) -> (copy: Self)
        ensures
            copy@ == self@,
        decreases self,
    {
        proof {
            lemma_element_views(self.list@);
        }
        TaskList::new(clone_nodes(&self.list))
    }
}

impl Node for TaskList {
    open spec fn model(&self) -> NodeModel {
        self@
    }

    fn render(&self) -> (markup: Markup)
        decreases self,
    {
        proof {
            lemma_element_views(self.list@);
        }
        let children = render_alone(&self.list);
        let mut attributes: Vec<(String, String)> = Vec::new();
        attributes.push(attribute("data-type", "taskList"));
        let markup = Markup::element("ul", attributes, children);
        assert(pair_views(attributes@) =~= seq![("data-type"@, "taskList"@)]);
        markup
    }
}

} // verus!
