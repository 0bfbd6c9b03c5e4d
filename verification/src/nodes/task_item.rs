//! Items of a task list.

use crate::engine::{views, Block};
use crate::markup::{attribute, pair_views, Markup, MarkupModel};
use crate::node::{EditorNode, Node, NodeModel};
use crate::source::SourceNode;
use crate::state::EditorState;
use vstd::prelude::*;

verus! {

/// Recognizes items of a task list: `LI` elements whose `data-type` is
/// `taskItem`.
pub struct TaskItemBlock;

impl Block for TaskItemBlock {
    type Input = SourceNode;

    type Node = EditorNode;

    type State = EditorState;

    open spec fn height(input: &SourceNode) -> nat {
        input.height()
    }

    open spec fn recognizes(&self, input: &SourceNode) -> bool {
        input.has_tag("LI"@) && input.attribute("data-type"@) == Some("taskItem"@)
    }

    open spec fn handles(&self, input: &SourceNode) -> bool {
        true
    }

    open spec fn nested(&self, input: &SourceNode) -> Seq<SourceNode> {
        Seq::empty()
    }

    open spec fn parsed(
        &self,
        state: &EditorState,
        input: &SourceNode,
        children: Seq<NodeModel>,
    ) -> NodeModel {
        NodeModel::TaskItem { text: input.text_or_empty(), checked: true }
    }

    fn accepts(&self, input: &SourceNode) -> (accepted: bool) {
        input.tag_is("LI") && input.attribute_is("data-type", "taskItem")
    }

    fn can_parse(&self, input: &SourceNode) -> (able: bool) {
        true
    }

    fn children<'a>(&self, input: &'a SourceNode) -> (inner: Vec<&'a SourceNode>) {
        Vec::new()
    }

    fn parse(&self, state: &EditorState, input: &SourceNode, children: Vec<EditorNode>) -> (node:
        EditorNode) {
        EditorNode::TaskItem(TaskItem::new(input.text_or_default(), true))
    }
}

/// An item of a task list.
#[derive(Debug, PartialEq, Eq)]
pub struct TaskItem {
    text: String,
    checked: bool,
}

impl View for TaskItem {
    type V = NodeModel;

    closed spec fn view(&self) -> NodeModel {
        NodeModel::TaskItem { text: self.text@, checked: self.checked }
    }
}

impl TaskItem {
    /// An item with the given text, ticked or not.
    pub fn new(text: String, checked: bool) -> (node: Self)
        ensures
            node@ == (NodeModel::TaskItem { text: text@, checked }),
    {
        TaskItem { text, checked }
    }

    /// The text.
    pub fn text(&self) -> (text: &String)
        ensures
            self@ is TaskItem,
            self@->TaskItem_text == text@,
    {
        &self.text
    }

    /// Whether the item is ticked.
    pub fn checked(&self) -> (checked: bool)
        ensures
            self@ is TaskItem,
            self@->TaskItem_checked == checked,
    {
        self.checked
    }
}

impl Clone for TaskItem {
    fn clone(&self) -> (copy: Self)
        ensures
            copy@ == self@,
    {
        TaskItem { text: self.text.clone(), checked: self.checked }
    }
}

impl Node for TaskItem {
    open spec fn model(&self) -> NodeModel {
        self@
    }

    fn render(&self) -> (markup: Markup) {
        let mut box_attributes: Vec<(String, String)> = Vec::new();
        box_attributes.push(attribute("type", "checkbox"));
        if self.checked {
            box_attributes.push(attribute("checked", "true"));
        } else {
            box_attributes.push(attribute("checked", "false"));
        }
        let nothing: Vec<Markup> = Vec::new();
        let checkbox = Markup::element("input", box_attributes, nothing);
        assert(views(nothing@) =~= Seq::empty());
        let mut children: Vec<Markup> = Vec::new();
        children.push(checkbox);
        children.push(Markup::text(self.text.as_str()));
        let mut attributes: Vec<(String, String)> = Vec::new();
        attributes.push(attribute("data-type", "dataItem"));
        let markup = Markup::element("li", attributes, children);
        assert(pair_views(attributes@) =~= seq![("data-type"@, "dataItem"@)]);
        assert(pair_views(box_attributes@) =~= seq![
            ("type"@, "checkbox"@),
            (
                "checked"@,
                if self.checked {
                    "true"@
                } else {
                    "false"@
                },
            ),
        ]);
        assert(views(children@) =~= seq![checkbox@, MarkupModel::Text(self.text@)]);
        markup
    }
}

} // verus!
