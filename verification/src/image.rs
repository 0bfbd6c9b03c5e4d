//! Images.

use crate::engine::{views, Block};
use crate::markup::{attribute, pair_views, Markup};
use crate::node::{EditorNode, Node, NodeModel};
use crate::source::SourceNode;
use crate::state::EditorState;
use vstd::prelude::*;

verus! {

/// Recognizes image elements, `IMG`.
pub struct ImageBlock;

impl Block for ImageBlock {
    type Input = SourceNode;

    type Node = EditorNode;

    type State = EditorState;

    open spec fn height(input: &SourceNode) -> nat {
        input.height()
    }

    open spec fn recognizes(&self, input: &SourceNode) -> bool {
        input.has_tag("IMG"@)
    }

    open spec fn handles(&self, input: &SourceNode) -> bool {
        input.image is Some
    }

    open spec fn nested(&self, input: &SourceNode) -> Seq<SourceNode> {
        Seq::empty()
    }

    open spec fn parsed(
        &self,
        state: &EditorState,
        input: &SourceNode,
        children: Seq<NodeModel>,
    ) -> NodeModel {
        match input.image {
            Some(image) => NodeModel::Image { src: image.src@, alt: image.alt@ },
            None => NodeModel::Image { src: Seq::empty(), alt: Seq::empty() },
        }
    }

    fn accepts(&self, input: &SourceNode) -> (accepted: bool) {
        input.tag_is("IMG")
    }

    fn can_parse(&self, input: &SourceNode) -> (able: bool) {
        input.image.is_some()
    }

    fn children<'a>(&self, input: &'a SourceNode) -> (inner: Vec<&'a SourceNode>) {
        Vec::new()
    }

    fn parse(&self, state: &EditorState, input: &SourceNode, children: Vec<EditorNode>) -> (node:
        EditorNode) {
        match &input.image {
            Some(image) => EditorNode::Image(
                Image { src: image.src.clone(), alt: image.alt.clone() },
            ),
            None => EditorNode::Image(Image { src: String::new(), alt: String::new() }),
        }
    }
}

/// An image.
#[derive(Debug, PartialEq, Eq)]
pub struct Image {
    /// Where the image is loaded from.
    pub src: String,
    /// The text that stands in for the image.
    pub alt: String,
}

impl View for Image {
    type V = NodeModel;

    open spec fn view(&self) -> NodeModel {
        NodeModel::Image { src: self.src@, alt: self.alt@ }
    }
}

impl Clone for Image {
    fn clone(&self) -> (copy: Self)
        ensures
            copy@ == self@,
    {
        Image { src: self.src.clone(), alt: self.alt.clone() }
    }
}

impl Node for Image {
    open spec fn model(&self) -> NodeModel {
        self@
    }

    fn render(&self) -> (markup: Markup) {
        let mut attributes: Vec<(String, String)> = Vec::new();
        attributes.push(attribute("src", self.src.as_str()));
        attributes.push(attribute("alt", self.alt.as_str()));
        let children: Vec<Markup> = Vec::new();
        let markup = Markup::element("img", attributes, children);
        assert(pair_views(attributes@) =~= seq![("src"@, self.src@), ("alt"@, self.alt@)]);
        assert(views(children@) =~= Seq::empty());
        markup
    }
}

} // verus!
