//! Headings of six levels.

use crate::engine::{views, Block, Command};
use crate::markup::{attribute, pair_views, Markup, MarkupModel};
use crate::node::{markup_of, EditorNode, Node, NodeModel};
use crate::source::SourceNode;
use crate::state::{EditorState, EditorStateView, SurfaceEditModel};
use vstd::prelude::*;

verus! {

/// A heading.
#[derive(Debug, PartialEq, Eq)]
pub struct Header {
    text: String,
    level: u8,
}

impl View for Header {
    type V = NodeModel;

    closed spec fn view(&self) -> NodeModel {
        NodeModel::Heading { text: self.text@, level: self.level }
    }
}

impl Header {
    /// A heading with the given text and level.
    pub fn new(text: String, level: u8) -> (header: Self)
        ensures
            header@ == (NodeModel::Heading { text: text@, level }),
    {
        Header { text, level }
    }

    /// The text of the heading.
    pub fn text(&self) -> (text: &String)
        ensures
            self@ is Heading,
            self@->Heading_text == text@,
    {
        &self.text
    }

    /// The level of the heading.
    pub fn level(&self) -> (level: u8)
        ensures
            self@ is Heading,
            self@->Heading_level == level,
    {
        self.level
    }
}

impl Default for Header {
    /// A heading of the first level without text.
    fn default() -> (header: Self)
        ensures
            header@ == (NodeModel::Heading { text: Seq::empty(), level: 1 }),
    {
        Header { text: String::new(), level: 1 }
    }
}

impl Clone for Header {
    fn clone(&self) -> (copy: Self)
        ensures
            copy@ == self@,
    {
        Header { text: self.text.clone(), level: self.level }
    }
}

impl Node for Header {
    open spec fn model(&self) -> NodeModel {
        self@
    }

    fn render(&self) -> (markup: Markup) {
        let mut attributes: Vec<(String, String)> = Vec::new();
        attributes.push(attribute("data-ph", "Heading"));
        let mut children: Vec<Markup> = Vec::new();
        children.push(Markup::text(self.text.as_str()));
        let markup = Markup::element("h1", attributes, children);
        assert(pair_views(attributes@) =~= seq![("data-ph"@, "Heading"@)]);
        assert(views(children@) =~= seq![MarkupModel::Text(self.text@)]);
        markup
    }
}

/// The level that a tag name stands for: 1 to 6 for `H1` to `H6`, and 0 for
/// any other.
pub open spec fn heading_level(tag: Seq<char>) -> u8 {
    if tag == "H1"@ {
        1
    } else if tag == "H2"@ {
        2
    } else if tag == "H3"@ {
        3
    } else if tag == "H4"@ {
        4
    } else if tag == "H5"@ {
        5
    } else if tag == "H6"@ {
        6
    } else {
        0
    }
}

/// Whether the tag name is that of a heading.
pub open spec fn heading_tag(tag: Seq<char>) -> bool {
    tag == "H1"@ || tag == "H2"@ || tag == "H3"@ || tag == "H4"@ || tag == "H5"@ || tag == "H6"@
}

/// A tag name is that of a heading exactly when it stands for a level from 1
/// to 6.
pub proof fn lemma_heading_level(tag: Seq<char>)
    ensures
        heading_level(tag) <= 6,
        heading_tag(tag) <==> heading_level(tag) >= 1,
{
}

/// The level that the tag name of the node stands for, and 0 for a node that
/// is no element.
pub fn level_of(input: &SourceNode) -> (level: u8)
    ensures
        level == if input.kind is Element {
            heading_level(input.tag@)
        } else {
            0
        },
{
    proof {
        reveal_strlit("H1");
        reveal_strlit("H2");
        reveal_strlit("H3");
        reveal_strlit("H4");
        reveal_strlit("H5");
        reveal_strlit("H6");
    }
    if input.tag_is("H1") {
        1
    } else if input.tag_is("H2") {
        2
    } else if input.tag_is("H3") {
        3
    } else if input.tag_is("H4") {
        4
    } else if input.tag_is("H5") {
        5
    } else if input.tag_is("H6") {
        6
    } else {
        0
    }
}

/// Recognizes heading elements, `H1` to `H6`, and parses nothing else.
pub struct HeaderBlock;

impl Block for HeaderBlock {
    type Input = SourceNode;

    type Node = EditorNode;

    type State = EditorState;

    open spec fn height(input: &SourceNode) -> nat {
        input.height()
    }

    open spec fn recognizes(&self, input: &SourceNode) -> bool {
        input.kind is Element && heading_tag(input.tag@)
    }

    open spec fn handles(&self, input: &SourceNode) -> bool {
        input.kind is Element && heading_tag(input.tag@)
    }

    open spec fn nested(&self, input: &SourceNode) -> Seq<SourceNode> {
        Seq::empty()
    }

    open spec fn parsed(
        &self,
        state: &EditorState,
        input: &SourceNode,
        children: Seq<NodeModel>,
    ) -> NodeModel {
        NodeModel::Heading { text: input.text_or_empty(), level: heading_level(input.tag@) }
    }

    fn accepts(&self, input: &SourceNode) -> (accepted: bool) {
        proof {
            lemma_heading_level(input.tag@);
        }
        level_of(input) >= 1
    }

    fn can_parse(&self, input: &SourceNode) -> (able: bool) {
        proof {
            lemma_heading_level(input.tag@);
        }
        level_of(input) >= 1
    }

    fn children<'a>(&self, input: &'a SourceNode) -> (inner: Vec<&'a SourceNode>) {
        Vec::new()
    }

    fn parse(&self, state: &EditorState, input: &SourceNode, children: Vec<EditorNode>) -> (node:
        EditorNode) {
        let text = input.text_or_default();
        let level = level_of(input);
        EditorNode::Heading(Header::new(text, level))
    }
}

impl Command<EditorState> for HeaderBlock {
    /// Asks for an empty heading of the first level at the end of the
    /// surface.
    open spec fn effect(&self, before: EditorState, after: EditorState) -> bool {
        after@ == (EditorStateView {
            edits: before@.edits.push(
                SurfaceEditModel::Append(
                    markup_of(NodeModel::Heading { text: Seq::empty(), level: 1 }),
                ),
            ),
            phase: before@.phase,
        })
    }

    fn execute(&self, state: &mut EditorState) {
        state.add_node(Header::default())
    }
}

} // verus!
