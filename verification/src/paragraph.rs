//! Paragraphs: the container that holds other nodes.

use crate::engine::{views, Block, Command};
use crate::markup::{attribute, pair_views, Markup};
use crate::node::{
    element_views, lemma_element_views, markup_of, markups_of, EditorNode, Node, NodeModel,
};
use crate::source::SourceNode;
use crate::state::{EditorState, EditorStateView, SurfaceEditModel};
use vstd::prelude::*;

verus! {

/// A paragraph: its text, and the nodes inside it, in order.
#[derive(Debug, PartialEq, Eq)]
pub struct Paragraph {
    text: String,
    elements: Vec<EditorNode>,
}

impl View for Paragraph {
    type V = NodeModel;

    closed spec fn view(&self) -> NodeModel
        decreases self,
    {
        NodeModel::Paragraph { text: self.text@, elements: element_views(self.elements@) }
    }
}

impl Paragraph {
    /// A paragraph with the given text that holds the given nodes.
    pub fn new(text: String, elements: Vec<EditorNode>) -> (paragraph: Self)
        ensures
            paragraph@ == (NodeModel::Paragraph { text: text@, elements: views(elements@) }),
    {
        proof {
            lemma_element_views(elements@);
        }
        Paragraph { text, elements }
    }

    /// The text of the paragraph.
    pub fn text(&self) -> (text: &String)
        ensures
            self@ is Paragraph,
            self@->Paragraph_text == text@,
    {
        &self.text
    }

    /// The nodes inside the paragraph.
    pub fn elements(&self) -> (elements: &Vec<EditorNode>)
        ensures
            self@ is Paragraph,
            self@->Paragraph_elements == views(elements@),
    {
        proof {
            lemma_element_views(self.elements@);
        }
        &self.elements
    }
}

impl Clone for Paragraph {
    fn clone(&self) -> (copy: Self)
        ensures
            copy@ == self@,
        decreases self,
    {
        let mut elements: Vec<EditorNode> = Vec::new();
        let mut index: usize = 0;
        while index < self.elements.len()
            invariant
                index <= self.elements.len(),
                elements@.len() == index,
                forall|i: int| 0 <= i < index ==> (#[trigger] elements@[i])@ == self.elements@[i]@,
            decreases self.elements.len() - index,
        {
            elements.push(self.elements[index].clone());
            index += 1;
        }
        assert(element_views(elements@) =~= element_views(self.elements@));
        Paragraph { text: self.text.clone(), elements }
    }
}

impl Default for Paragraph {
    /// The empty paragraph.
    fn default() -> (paragraph: Self)
        ensures
            paragraph@ == (NodeModel::Paragraph { text: Seq::empty(), elements: Seq::empty() }),
    {
        let elements: Vec<EditorNode> = Vec::new();
        assert(views(elements@) =~= Seq::empty());
        Paragraph::new(String::new(), elements)
    }
}

impl Node for Paragraph {
    open spec fn model(&self) -> NodeModel {
        self@
    }

    fn render(&self) -> (markup: Markup)
        decreases self,
    {
        let mut children: Vec<Markup> = Vec::new();
        let mut index: usize = 0;
        while index < self.elements.len()
            invariant
                index <= self.elements.len(),
                children@.len() == index,
                forall|i: int| 0 <= i < index ==> (#[trigger] children@[i])@ == markup_of(self.elements@[i]@),
            decreases self.elements.len() - index,
        {
            children.push(self.elements[index].render());
            index += 1;
        }
        let mut attributes: Vec<(String, String)> = Vec::new();
        attributes.push(attribute("data-ph", "A paragraph goes here"));
        let markup = Markup::element("p", attributes, children);
        assert(pair_views(attributes@) =~= seq![("data-ph"@, "A paragraph goes here"@)]);
        assert(views(children@) =~= markups_of(element_views(self.elements@)));
        markup
    }
}

/// Recognizes paragraph elements, `P`, and has what is inside them parsed in
/// turn. It parses elements only.
pub struct ParagraphBlock;

impl Block for ParagraphBlock {
    type Input = SourceNode;

    type Node = EditorNode;

    type State = EditorState;

    open spec fn height(input: &SourceNode) -> nat {
        input.height()
    }

    open spec fn recognizes(&self, input: &SourceNode) -> bool {
        input.has_tag("P"@)
    }

    open spec fn handles(&self, input: &SourceNode) -> bool {
        input.kind is Element
    }

    open spec fn nested(&self, input: &SourceNode) -> Seq<SourceNode> {
        input.below()
    }

    open spec fn parsed(
        &self,
        state: &EditorState,
        input: &SourceNode,
        children: Seq<NodeModel>,
    ) -> NodeModel {
        NodeModel::Paragraph { text: input.text_or_empty(), elements: children }
    }

    fn accepts(&self, input: &SourceNode) -> (accepted: bool) {
        input.tag_is("P")
    }

    fn can_parse(&self, input: &SourceNode) -> (able: bool) {
        input.is_element()
    }

    fn children<'a>(&self, input: &'a SourceNode) -> (inner: Vec<&'a SourceNode>) {
        input.nodes_below()
    }

    fn parse(&self, state: &EditorState, input: &SourceNode, children: Vec<EditorNode>) -> (node:
        EditorNode) {
        EditorNode::Paragraph(Paragraph::new(input.text_or_default(), children))
    }
}

impl Command<EditorState> for ParagraphBlock {
    /// Asks for an empty paragraph at the end of the surface.
    open spec fn effect(&self, before: EditorState, after: EditorState) -> bool {
        after@ == (EditorStateView {
            edits: before@.edits.push(
                SurfaceEditModel::Append(
                    markup_of(NodeModel::Paragraph { text: Seq::empty(), elements: Seq::empty() }),
                ),
            ),
            phase: before@.phase,
        })
    }

    fn execute(&self, state: &mut EditorState) {
        state.add_node(Paragraph::default())
    }
}

} // verus!
