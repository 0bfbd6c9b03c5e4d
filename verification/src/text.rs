//! Runs of text and the inline marks on them: bold, italic and code.

use crate::engine::{views, Block};
use crate::markup::{Markup, MarkupModel};
use crate::node::{render_text_element, EditorNode, Node, NodeModel};
use crate::source::SourceNode;
use crate::state::EditorState;
use vstd::prelude::*;

verus! {

/// Recognizes runs of text.
pub struct TextNodeBlock;

/// A run of text.
#[derive(Debug, PartialEq, Eq)]
pub struct TextNode {
    text: String,
}

impl View for TextNode {
    type V = NodeModel;

    closed spec fn view(&self) -> NodeModel {
        NodeModel::Text(self.text@)
    }
}

impl TextNode {
    /// A run of the given text.
    pub fn new(text: String) -> (node: Self)
        ensures
            node@ == NodeModel::Text(text@),
    {
        TextNode { text }
    }

    /// The text.
    pub fn text(&self) -> (text: &String)
        ensures
            self@ == NodeModel::Text(text@),
    {
        &self.text
    }
}

impl Block for TextNodeBlock {
    type Input = SourceNode;

    type Node = EditorNode;

    type State = EditorState;

    open spec fn height(input: &SourceNode) -> nat {
        input.height()
    }

    open spec fn recognizes(&self, input: &SourceNode) -> bool {
        input.kind is Text
    }

    open spec fn handles(&self, input: &SourceNode) -> bool {
        input.text is Some
    }

    open spec fn nested(&self, input: &SourceNode) -> Seq<SourceNode> {
        Seq::empty()
    }

    open spec fn parsed(
        &self,
        state: &EditorState,
        input: &SourceNode,
        children: Seq<NodeModel>,
    ) -> NodeModel {
        NodeModel::Text(input.text_or_empty())
    }

    fn accepts(&self, input: &SourceNode) -> (accepted: bool) {
        input.is_text()
    }

    fn can_parse(&self, input: &SourceNode) -> (able: bool) {
        input.text.is_some()
    }

    fn children<'a>(&self, input: &'a SourceNode) -> (inner: Vec<&'a SourceNode>) {
        Vec::new()
    }

    fn parse(&self, state: &EditorState, input: &SourceNode, children: Vec<EditorNode>) -> (node:
        EditorNode) {
        EditorNode::Text(TextNode::new(input.text_or_default()))
    }
}

impl Clone for TextNode {
    fn clone(&self) -> (copy: Self)
        ensures
            copy@ == self@,
    {
        TextNode { text: self.text.clone() }
    }
}

impl Node for TextNode {
    open spec fn model(&self) -> NodeModel {
        self@
    }

    fn render(&self) -> (markup: Markup) {
        let mut pieces: Vec<Markup> = Vec::new();
        pieces.push(Markup::text(self.text.as_str()));
        let markup = Markup::fragment(pieces);
        assert(views(pieces@) =~= seq![MarkupModel::Text(self.text@)]);
        markup
    }
}

/// Recognizes bold elements, `B` and `STRONG`.
pub struct BoldBlock;

/// Whether the tag name is that of a bold element.
pub open spec fn bold_tag(tag: Seq<char>) -> bool {
    tag == "B"@ || tag == "STRONG"@
}

/// Whether the node is a bold element.
pub fn is_bold(node: &SourceNode) -> (bold: bool)
    ensures
        bold == (node.kind is Element && bold_tag(node.tag@)),
{
    node.tag_is("B") || node.tag_is("STRONG")
}

impl Block for BoldBlock {
    type Input = SourceNode;

    type Node = EditorNode;

    type State = EditorState;

    open spec fn height(input: &SourceNode) -> nat {
        input.height()
    }

    open spec fn recognizes(&self, input: &SourceNode) -> bool {
        input.kind is Element && bold_tag(input.tag@)
    }

    open spec fn handles(&self, input: &SourceNode) -> bool {
        true
    }

    open spec fn nested(&self, input: &SourceNode) -> Seq<SourceNode> {
        Seq::empty()
    }

    open spec fn parsed(
        &self,
        state: &EditorState,
        input: &SourceNode,
        children: Seq<NodeModel>,
    ) -> NodeModel {
        NodeModel::Bold(input.text_or_empty())
    }

    fn accepts(&self, input: &SourceNode) -> (accepted: bool) {
        is_bold(input)
    }

    fn can_parse(&self, input: &SourceNode) -> (able: bool) {
        true
    }

    fn children<'a>(&self, input: &'a SourceNode) -> (inner: Vec<&'a SourceNode>) {
        Vec::new()
    }

    fn parse(&self, state: &EditorState, input: &SourceNode, children: Vec<EditorNode>) -> (node:
        EditorNode) {
        EditorNode::Bold(Bold::new(input.text_or_default()))
    }
}

/// Bold text.
#[derive(Debug, PartialEq, Eq)]
pub struct Bold {
    text: String,
}

impl View for Bold {
    type V = NodeModel;

    closed spec fn view(&self) -> NodeModel {
        NodeModel::Bold(self.text@)
    }
}

impl Bold {
    /// Bold text.
    pub fn new(text: String) -> (node: Self)
        ensures
            node@ == NodeModel::Bold(text@),
    {
        Bold { text }
    }

    /// The text.
    pub fn text(&self) -> (text: &String)
        ensures
            self@ == NodeModel::Bold(text@),
    {
        &self.text
    }
}

impl Clone for Bold {
    fn clone(&self) -> (copy: Self)
        ensures
            copy@ == self@,
    {
        Bold { text: self.text.clone() }
    }
}

impl Node for Bold {
    open spec fn model(&self) -> NodeModel {
        self@
    }

    fn render(&self) -> (markup: Markup) {
        render_text_element("b", self.text.as_str())
    }
}

/// Recognizes italic elements, `I` and `EM`.
pub struct ItalicBlock;

impl Block for ItalicBlock {
    type Input = SourceNode;

    type Node = EditorNode;

    type State = EditorState;

    open spec fn height(input: &SourceNode) -> nat {
        input.height()
    }

    open spec fn recognizes(&self, input: &SourceNode) -> bool {
        input.has_tag("I"@) || input.has_tag("EM"@)
    }

    open spec fn handles(&self, input: &SourceNode) -> bool {
        true
    }

    open spec fn nested(&self, input: &SourceNode) -> Seq<SourceNode> {
        Seq::empty()
    }

    open spec fn parsed(
        &self,
        state: &EditorState,
        input: &SourceNode,
        children: Seq<NodeModel>,
    ) -> NodeModel {
        NodeModel::Italic(input.text_or_empty())
    }

    fn accepts(&self, input: &SourceNode) -> (accepted: bool) {
        input.tag_is("I") || input.tag_is("EM")
    }

    fn can_parse(&self, input: &SourceNode) -> (able: bool) {
        true
    }

    fn children<'a>(&self, input: &'a SourceNode) -> (inner: Vec<&'a SourceNode>) {
        Vec::new()
    }

    fn parse(&self, state: &EditorState, input: &SourceNode, children: Vec<EditorNode>) -> (node:
        EditorNode) {
        EditorNode::Italic(Italic::new(input.text_or_default()))
    }
}

/// Italic text.
#[derive(Debug, PartialEq, Eq)]
pub struct Italic {
    text: String,
}

impl View for Italic {
    type V = NodeModel;

    closed spec fn view(&self) -> NodeModel {
        NodeModel::Italic(self.text@)
    }
}

impl Italic {
    /// Italic text.
    pub fn new(text: String) -> (node: Self)
        ensures
            node@ == NodeModel::Italic(text@),
    {
        Italic { text }
    }

    /// The text.
    pub fn text(&self) -> (text: &String)
        ensures
            self@ == NodeModel::Italic(text@),
    {
        &self.text
    }
}

impl Clone for Italic {
    fn clone(&self) -> (copy: Self)
        ensures
            copy@ == self@,
    {
        Italic { text: self.text.clone() }
    }
}

impl Node for Italic {
    open spec fn model(&self) -> NodeModel {
        self@
    }

    fn render(&self) -> (markup: Markup) {
        render_text_element("em", self.text.as_str())
    }
}

/// Recognizes code elements, `CODE`.
pub struct InlineCodeBlock;

impl Block for InlineCodeBlock {
    type Input = SourceNode;

    type Node = EditorNode;

    type State = EditorState;

    open spec fn height(input: &SourceNode) -> nat {
        input.height()
    }

    open spec fn recognizes(&self, input: &SourceNode) -> bool {
        input.has_tag("CODE"@)
    }

    open spec fn handles(&self, input: &SourceNode) -> bool {
        true
    }

    open spec fn nested(&self, input: &SourceNode) -> Seq<SourceNode> {
        Seq::empty()
    }

    open spec fn parsed(
        &self,
        state: &EditorState,
        input: &SourceNode,
        children: Seq<NodeModel>,
    ) -> NodeModel {
        NodeModel::InlineCode(input.text_or_empty())
    }

    fn accepts(&self, input: &SourceNode) -> (accepted: bool) {
        input.tag_is("CODE")
    }

    fn can_parse(&self, input: &SourceNode) -> (able: bool) {
        true
    }

    fn children<'a>(&self, input: &'a SourceNode) -> (inner: Vec<&'a SourceNode>) {
        Vec::new()
    }

    fn parse(&self, state: &EditorState, input: &SourceNode, children: Vec<EditorNode>) -> (node:
        EditorNode) {
        EditorNode::InlineCode(InlineCode::new(input.text_or_default()))
    }
}

/// Text set as code.
#[derive(Debug, PartialEq, Eq)]
pub struct InlineCode {
    text: String,
}

impl View for InlineCode {
    type V = NodeModel;

    closed spec fn view(&self) -> NodeModel {
        NodeModel::InlineCode(self.text@)
    }
}

impl InlineCode {
    /// Text set as code.
    pub fn new(text: String) -> (node: Self)
        ensures
            node@ == NodeModel::InlineCode(text@),
    {
        InlineCode { text }
    }

    /// The text.
    pub fn text(&self) -> (text: &String)
        ensures
            self@ == NodeModel::InlineCode(text@),
    {
        &self.text
    }
}

impl Clone for InlineCode {
    fn clone(&self) -> (copy: Self)
        ensures
            copy@ == self@,
    {
        InlineCode { text: self.text.clone() }
    }
}

impl Node for InlineCode {
    open spec fn model(&self) -> NodeModel {
        self@
    }

    fn render(&self) -> (markup: Markup) {
        render_text_element("code", self.text.as_str())
    }
}

} // verus!
