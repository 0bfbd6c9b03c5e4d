//! The presentation form that a document node renders to: a small tree of
//! elements, text and raw HTML, held as plain values.

use crate::engine::views;
use vstd::prelude::*;

verus! {

/// What a piece of markup holds.
#[verifier::ext_equal]
pub enum MarkupModel {
    /// An element with its tag name, its attributes in order, and its
    /// content.
    Element { tag: Seq<char>, attributes: Seq<(Seq<char>, Seq<char>)>, children: Seq<MarkupModel> },
    /// A run of text.
    Text(Seq<char>),
    /// Pieces that stand side by side without an element around them.
    Fragment(Seq<MarkupModel>),
    /// HTML that is put into the enclosing element as it is.
    Html(Seq<char>),
}

/// A piece of markup.
#[derive(Debug, PartialEq, Eq)]
pub enum Markup {
    /// An element with its tag name, its attributes in order, and its
    /// content.
    Element { tag: String, attributes: Vec<(String, String)>, children: Vec<Markup> },
    /// A run of text.
    Text(String),
    /// Pieces that stand side by side without an element around them.
    Fragment(Vec<Markup>),
    /// HTML that is put into the enclosing element as it is.
    Html(String),
}

/// Names and values of a list of attributes.
pub open spec fn pair_views(attributes: Seq<(String, String)>) -> Seq<(Seq<char>, Seq<char>)> {
    attributes.map_values(|pair: (String, String)| (pair.0@, pair.1@))
}

/// What each piece of a list of markup holds.
pub open spec fn piece_views(pieces: Seq<Markup>) -> Seq<MarkupModel>
    decreases pieces,
{
    Seq::new(
        pieces.len(),
        |i: int|
            if 0 <= i < pieces.len() {
                pieces[i]@
            } else {
                MarkupModel::Fragment(Seq::empty())
            },
    )
}

impl View for Markup {
    type V = MarkupModel;

    open spec fn view(&self) -> MarkupModel
        decreases self,
    {
        match self {
            Markup::Element { tag, attributes, children } => MarkupModel::Element {
                tag: tag@,
                attributes: pair_views(attributes@),
                children: piece_views(children@),
            },
            Markup::Text(text) => MarkupModel::Text(text@),
            Markup::Fragment(pieces) => MarkupModel::Fragment(piece_views(pieces@)),
            Markup::Html(html) => MarkupModel::Html(html@),
        }
    }
}

/// The views of a list of markup are the views of its pieces, one for one.
pub proof fn lemma_piece_views(pieces: Seq<Markup>)
    ensures
        piece_views(pieces) == views(pieces),
{
    assert(piece_views(pieces) =~= views(pieces));
}

/// An attribute with the given name and value.
pub fn attribute(name: &str, value: &str) -> (pair: (String, String))
    ensures
        pair.0@ == name@,
        pair.1@ == value@,
{
    (String::from_str(name), String::from_str(value))
}

impl Markup {
    /// An element with the given tag name, attributes and content.
    pub fn element(tag: &str, attributes: Vec<(String, String)>, children: Vec<Markup>) -> (markup:
        Markup)
        ensures
            markup@ == (MarkupModel::Element {
                tag: tag@,
                attributes: pair_views(attributes@),
                children: views(children@),
            }),
    {
        proof {
            lemma_piece_views(children@);
        }
        Markup::Element { tag: String::from_str(tag), attributes, children }
    }

    /// A run of text.
    pub fn text(text: &str) -> (markup: Markup)
        ensures
            markup@ == MarkupModel::Text(text@),
    {
        Markup::Text(String::from_str(text))
    }

    /// The given pieces side by side.
    pub fn fragment(pieces: Vec<Markup>) -> (markup: Markup)
        ensures
            markup@ == MarkupModel::Fragment(views(pieces@)),
    {
        proof {
            lemma_piece_views(pieces@);
        }
        Markup::Fragment(pieces)
    }

    /// HTML to be put into the enclosing element as it is.
    pub fn html(html: &str) -> (markup: Markup)
        ensures
            markup@ == MarkupModel::Html(html@),
    {
        Markup::Html(String::from_str(html))
    }
}

} // verus!
