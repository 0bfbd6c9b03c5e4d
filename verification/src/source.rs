//! A snapshot of the editable surface: what the surface reports of each of its
//! nodes, held as plain values. The blocks read nothing else.

use vstd::prelude::*;

verus! {

/// The kind of a node of the surface.
#[derive(Clone, Copy, Debug, PartialEq, Eq)]
pub enum SourceKind {
    /// An element, such as a paragraph or an image.
    Element,
    /// A run of text.
    Text,
    /// Anything else, such as a comment.
    Other,
}

/// What an image element reports of itself.
#[derive(Debug, PartialEq, Eq)]
pub struct ImageSource {
    /// Where the image is loaded from.
    pub src: String,
    /// The text that stands in for the image.
    pub alt: String,
}

impl Clone for ImageSource {
    fn clone(&self) -> (copy: Self)
        ensures
            copy == *self,
    {
        ImageSource { src: self.src.clone(), alt: self.alt.clone() }
    }
}

/// One node of the surface with everything below it.
#[derive(Debug, PartialEq, Eq)]
pub struct SourceNode {
    /// The kind of the node.
    pub kind: SourceKind,
    /// The tag name of an element as the surface reports it, in upper case
    /// for HTML (`P`, `H1`); empty for other nodes.
    pub tag: String,
    /// The attributes of an element, name and value, in document order.
    pub attributes: Vec<(String, String)>,
    /// The text of the node and of everything below it, where the surface
    /// reports one.
    pub text: Option<String>,
    /// The node written out as HTML, for an HTML element.
    pub html: Option<String>,
    /// Source and alternative text, for an image element.
    pub image: Option<ImageSource>,
    /// The nodes directly below this one, in document order.
    pub children: Vec<SourceNode>,
}

/// The value of the first attribute with the given name.
pub open spec fn attribute_of(attributes: Seq<(String, String)>, name: Seq<char>) -> Option<
    Seq<char>,
>
    decreases attributes.len(),
{
    if attributes.len() == 0 {
        None
    } else if attributes.first().0@ == name {
        Some(attributes.first().1@)
    } else {
        attribute_of(attributes.drop_first(), name)
    }
}

/// The greatest height among the nodes, and 0 where there is none.
pub open spec fn tallest(nodes: Seq<SourceNode>) -> nat
    decreases nodes,
{
    if nodes.len() == 0 {
        0
    } else {
        let rest = tallest(nodes.drop_last());
        let last = nodes.last().height();
        if last > rest {
            last
        } else {
            rest
        }
    }
}

/// No node is higher than the tallest.
pub proof fn lemma_tallest_bounds(nodes: Seq<SourceNode>, index: int)
    requires
        0 <= index < nodes.len(),
    ensures
        nodes[index].height() <= tallest(nodes),
    decreases nodes.len(),
{
    if index < nodes.len() - 1 {
        lemma_tallest_bounds(nodes.drop_last(), index);
    }
}

/// Whether the two strings hold the same text.
pub fn same_text(left: &String, right: &str) -> (same: bool)
    ensures
        same == (left@ == right@),
{
    let owned = String::from_str(right);
    *left == owned
}

impl SourceNode {
    /// An HTML element without attributes: its tag name, its text, the HTML
    /// it is written as, and the nodes directly below it.
    pub fn element(tag: &str, text: &str, html: &str, children: Vec<SourceNode>) -> (node: Self)
        ensures
            node.kind is Element,
            node.tag@ == tag@,
            node.attributes@ == Seq::<(String, String)>::empty(),
            node.text is Some,
            node.text->0@ == text@,
            node.html is Some,
            node.html->0@ == html@,
            node.image is None,
            node.children == children,
    {
        SourceNode {
            kind: SourceKind::Element,
            tag: String::from_str(tag),
            attributes: Vec::new(),
            text: Some(String::from_str(text)),
            html: Some(String::from_str(html)),
            image: None,
            children,
        }
    }

    /// A run of text.
    pub fn text(content: &str) -> (node: Self)
        ensures
            node.kind is Text,
            node.tag@ == Seq::<char>::empty(),
            node.attributes@ == Seq::<(String, String)>::empty(),
            node.text is Some,
            node.text->0@ == content@,
            node.html is None,
            node.image is None,
            node.children@ == Seq::<SourceNode>::empty(),
    {
        SourceNode {
            kind: SourceKind::Text,
            tag: String::new(),
            attributes: Vec::new(),
            text: Some(String::from_str(content)),
            html: None,
            image: None,
            children: Vec::new(),
        }
    }

    /// The same node with one more attribute, behind those it has.
    pub fn with_attribute(self, name: &str, value: &str) -> (node: Self)
        ensures
            node.attributes@.len() == self.attributes@.len() + 1,
            node.attributes@.drop_last() == self.attributes@,
            node.attributes@.last().0@ == name@,
            node.attributes@.last().1@ == value@,
            node.kind == self.kind,
            node.tag == self.tag,
            node.text == self.text,
            node.html == self.html,
            node.image == self.image,
            node.children == self.children,
    {
        let mut node = self;
        node.attributes.push((String::from_str(name), String::from_str(value)));
        assert(node.attributes@.drop_last() =~= self.attributes@);
        node
    }

    /// The same node with the source and the alternative text of an image.
    pub fn with_image(self, src: &str, alt: &str) -> (node: Self)
        ensures
            node.image is Some,
            node.image->0.src@ == src@,
            node.image->0.alt@ == alt@,
            node.kind == self.kind,
            node.tag == self.tag,
            node.attributes == self.attributes,
            node.text == self.text,
            node.html == self.html,
            node.children == self.children,
    {
        let mut node = self;
        node.image = Some(ImageSource { src: String::from_str(src), alt: String::from_str(alt) });
        node
    }

    /// The number of levels in the tree below and including this node.
    pub open spec fn height(&self) -> nat
        decreases self,
    {
        tallest(self.children@) + 1
    }

    /// Whether the node is an element with the given tag name.
    pub open spec fn has_tag(&self, tag: Seq<char>) -> bool {
        self.kind is Element && self.tag@ == tag
    }

    /// The value of the attribute with the given name, for an element that
    /// has one.
    pub open spec fn attribute(&self, name: Seq<char>) -> Option<Seq<char>> {
        if self.kind is Element {
            attribute_of(self.attributes@, name)
        } else {
            None
        }
    }

    /// The text of the node, and the empty text where the surface reports
    /// none.
    pub open spec fn text_or_empty(&self) -> Seq<char> {
        match self.text {
            Some(text) => text@,
            None => Seq::empty(),
        }
    }

    /// The nodes directly below an element, in document order; none for a
    /// node that is no element.
    pub open spec fn below(&self) -> Seq<SourceNode> {
        if self.kind is Element {
            self.children@
        } else {
            Seq::empty()
        }
    }

    /// Every child is strictly lower than its parent.
    pub proof fn lemma_child_is_lower(&self, index: int)
        requires
            0 <= index < self.children@.len(),
        ensures
            self.children@[index].height() < self.height(),
    {
        lemma_tallest_bounds(self.children@, index);
    }

    /// Whether the node is an element.
    pub fn is_element(&self) -> (element: bool)
        ensures
            element == (self.kind is Element),
    {
        match self.kind {
            SourceKind::Element => true,
            _ => false,
        }
    }

    /// Whether the node is a run of text.
    pub fn is_text(&self) -> (text: bool)
        ensures
            text == (self.kind is Text),
    {
        match self.kind {
            SourceKind::Text => true,
            _ => false,
        }
    }

    /// Whether the node is an element with the given tag name. Case counts.
    pub fn tag_is(&self, tag: &str) -> (same: bool)
        ensures
            same == self.has_tag(tag@),
    {
        self.is_element() && same_text(&self.tag, tag)
    }

    /// The value of the attribute with the given name; of the first, should
    /// the name occur twice. `None` for a node that is no element.
    pub fn get_attribute(&self, name: &str) -> (value: Option<&String>)
        ensures
            match value {
                Some(found) => self.attribute(name@) == Some(found@),
                None => self.attribute(name@) is None,
            },
    {
        if !self.is_element() {
            return None;
        }
        let mut index: usize = 0;
        proof {
            assert(self.attributes@.skip(0) =~= self.attributes@);
        }
        while index < self.attributes.len()
            invariant
                self.kind is Element,
                index <= self.attributes.len(),
                attribute_of(self.attributes@, name@) == attribute_of(
                    self.attributes@.skip(index as int),
                    name@,
                ),
            decreases self.attributes.len() - index,
        {
            proof {
                let rest = self.attributes@.skip(index as int);
                assert(rest.first() == self.attributes@[index as int]);
                assert(rest.drop_first() =~= self.attributes@.skip(index + 1));
            }
            if same_text(&self.attributes[index].0, name) {
                return Some(&self.attributes[index].1);
            }
            index += 1;
        }
        None
    }

    /// Whether the attribute with the given name is there and has the given
    /// value.
    pub fn attribute_is(&self, name: &str, value: &str) -> (same: bool)
        ensures
            same == (self.attribute(name@) == Some(value@)),
    {
        match self.get_attribute(name) {
            Some(found) => same_text(found, value),
            None => false,
        }
    }

    /// The text of the node, and the empty text where the surface reports
    /// none.
    pub fn text_or_default(&self) -> (text: String)
        ensures
            text@ == self.text_or_empty(),
    {
        match &self.text {
            Some(text) => text.clone(),
            None => String::new(),
        }
    }

    /// The nodes directly below an element, by reference, in document order;
    /// none for a node that is no element. Each is strictly lower than the
    /// node.
    pub fn nodes_below(&self) -> (nodes: Vec<&SourceNode>)
        ensures
            nodes@.len() == self.below().len(),
            forall|i: int| 0 <= i < nodes@.len() ==> *(#[trigger] nodes@[i]) == self.below()[i],
            forall|j: int|
                0 <= j < self.below().len() ==> (#[trigger] self.below()[j]).height()
                    < self.height(),
    {
        proof {
            assert forall|j: int| 0 <= j < self.children@.len() implies (
            #[trigger] self.children@[j]).height() < self.height() by {
                self.lemma_child_is_lower(j);
            }
        }
        if self.is_element() {
            self.child_nodes()
        } else {
            Vec::new()
        }
    }

    /// The children of the node, by reference, in document order.
    pub fn child_nodes(&self) -> (nodes: Vec<&SourceNode>)
        ensures
            nodes@.len() == self.children@.len(),
            forall|i: int| 0 <= i < nodes@.len() ==> *(#[trigger] nodes@[i]) == self.children@[i],
    {
        let mut nodes: Vec<&SourceNode> = Vec::new();
        let mut index: usize = 0;
        while index < self.children.len()
            invariant
                index <= self.children.len(),
                nodes@.len() == index,
                forall|i: int| 0 <= i < index ==> *(#[trigger] nodes@[i]) == self.children@[i],
            decreases self.children.len() - index,
        {
            nodes.push(&self.children[index]);
            index += 1;
        }
        nodes
    }
}

} // verus!
