//! The flattened token model: one `Element` per token of a document, and
//! `FlatHtml`, the tokens of a document in the order of the source.

use crate::tag::TagKind;
use vstd::prelude::*;

verus! {

/// One token of a flattened document.
#[derive(Debug)]
pub enum Element {
    /// A run of text.
    Text(String),
    /// An opening tag.
    Tag(TagKind),
    /// A closing tag.
    EndTag(TagKind),
    /// A forced line break. It is a token of its own, distinct from
    /// `Tag(TagKind::LineBreak)`, the opening `<br>` tag.
    LineBreak,
    /// Marks a tag that carries no meaning itself, while its children are
    /// still read and emitted.
    IgnoreTag,
}

/// What an `Element` is, with its text as a sequence of characters.
pub enum ElementView {
    /// A run of text, by its characters.
    Text(Seq<char>),
    /// An opening tag.
    Tag(TagKind),
    /// A closing tag.
    EndTag(TagKind),
    /// A forced line break.
    LineBreak,
    /// The marker of a tag that is passed over.
    IgnoreTag,
}

impl View for Element {
    type V = ElementView;

    open spec fn view(&self) -> ElementView {
        match *self {
            Element::Text(content) => ElementView::Text(content@),
            Element::Tag(kind) => ElementView::Tag(kind),
            Element::EndTag(kind) => ElementView::EndTag(kind),
            Element::LineBreak => ElementView::LineBreak,
            Element::IgnoreTag => ElementView::IgnoreTag,
        }
    }
}

impl Clone for Element {
    /// A copy of the element: the same variant with the same content.
    fn clone(&self) -> (copy: Self)
        ensures
            copy == *self,
            copy@ == self@,
    {
        match self {
            Element::Text(content) => Element::Text(content.clone()),
            Element::Tag(kind) => Element::Tag(*kind),
            Element::EndTag(kind) => Element::EndTag(*kind),
            Element::LineBreak => Element::LineBreak,
            Element::IgnoreTag => Element::IgnoreTag,
        }
    }
}

/// The tokens of a document, in the order in which they were appended.
/// Nothing else is asked of them: tokens may repeat, and tags need not match.
#[derive(Debug)]
pub struct FlatHtml(pub Vec<Element>);

impl View for FlatHtml {
    type V = Seq<ElementView>;

    open spec fn view(&self) -> Seq<ElementView> {
        self.0@.map_values(|element: Element| element@)
    }
}

impl FlatHtml {
    /// A document without tokens.
    pub fn new() -> (flat: FlatHtml)
        ensures
            flat@ == Seq::<ElementView>::empty(),
    {
        FlatHtml(Vec::new())
    }

    /// Appends `element` behind the tokens that are there, which stay as
    /// they are and where they are.
    pub fn push(&mut self, element: Element)
        ensures
            final(self)@ == old(self)@.push(element@),
    {
        self.0.push(element);
    }

    /// The number of tokens.
    pub fn len(&self) -> (n: usize)
        ensures
            n == self@.len(),
    {
        self.0.len()
    }

    /// The token at `index`, counted from 0 in the order of appending, or
    /// `None` where the document has no such token.
    pub fn get(&self, index: usize) -> (found: Option<&Element>)
        ensures
            match found {
                Some(element) => index < self@.len() && element@ == self@[index as int],
                None => index >= self@.len(),
            },
    {
        if index < self.0.len() {
            Some(&self.0[index])
        } else {
            None
        }
    }
}

/// Appending keeps the order of the tokens: each token that was there stays
/// at its index, and the new token is the last one.
pub proof fn lemma_push_keeps_order(tokens: Seq<ElementView>, element: ElementView)
    ensures
        tokens.push(element).len() == tokens.len() + 1,
        tokens.push(element).last() == element,
        forall|i: int| 0 <= i < tokens.len() ==> #[trigger] tokens.push(element)[i] == tokens[i],
{
}

} // verus!
