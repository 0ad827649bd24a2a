//! Text objects: the parts of a buffer that a command acts on.
use vstd::prelude::*;

use crate::buffer::Mark;

verus! {

/// Where, relative to a text object, an index lands.
#[derive(Copy, Clone, Debug, PartialEq, Eq, Structural)]
pub enum Anchor {
    /// Index just prior to the text object.
    Before,
    /// First index within the text object.
    Start,
    /// Last index within the text object.
    End,
    /// First index after the text object.
    After,
    /// Same as the index within the current text object of the same kind.
    Same,
}

/// The kind of a text object.
#[derive(Copy, Clone, Debug, PartialEq, Eq, Structural)]
pub enum Kind {
    Char,
    Line(Anchor),
    Word(Anchor),
}

impl Kind {
    /// The same kind with `anchor` as its anchor; a character has no anchor of its own.
    #[verifier::allow_in_spec]
    pub fn with_anchor(&self, anchor: Anchor) -> Kind
        returns
            match *self {
                Kind::Char => Kind::Char,
                Kind::Line(_) => Kind::Line(anchor),
                Kind::Word(_) => Kind::Word(anchor),
            },
    {
        match *self {
            Kind::Char => Kind::Char,
            Kind::Line(_) => Kind::Line(anchor),
            Kind::Word(_) => Kind::Word(anchor),
        }
    }

    /// The anchor of this kind; a character counts as anchored at its start.
    #[verifier::allow_in_spec]
    pub fn get_anchor(&self) -> Anchor
        returns
            match *self {
                Kind::Char => Anchor::Start,
                Kind::Line(a) => a,
                Kind::Word(a) => a,
            },
    {
        match *self {
            Kind::Char => Anchor::Start,
            Kind::Line(a) => a,
            Kind::Word(a) => a,
        }
    }
}

/// How far, and from where, a text object lies.
#[derive(Copy, Clone, Debug, PartialEq, Eq, Structural)]
pub enum Offset {
    /// The n-th object from the start of the buffer.
    Absolute(usize),
    /// The n-th object before a mark.
    Backward(usize, Mark),
    /// The n-th object after a mark.
    Forward(usize, Mark),
}

impl Offset {
    /// The same offset with `n` as its count.
    #[verifier::allow_in_spec]
    pub fn with_num(&self, n: usize) -> Offset
        returns
            match *self {
                Offset::Absolute(_) => Offset::Absolute(n),
                Offset::Backward(_, m) => Offset::Backward(n, m),
                Offset::Forward(_, m) => Offset::Forward(n, m),
            },
    {
        match *self {
            Offset::Absolute(_) => Offset::Absolute(n),
            Offset::Backward(_, m) => Offset::Backward(n, m),
            Offset::Forward(_, m) => Offset::Forward(n, m),
        }
    }
}

impl Offset {
    /// How many objects away the offset lies.
    pub open spec fn count(self) -> usize {
        match self {
            Offset::Absolute(n) => n,
            Offset::Backward(n, _) => n,
            Offset::Forward(n, _) => n,
        }
    }

    /// The mark that the offset counts from; none for the start of the buffer.
    pub open spec fn origin(self) -> Option<Mark> {
        match self {
            Offset::Absolute(_) => None,
            Offset::Backward(_, m) => Some(m),
            Offset::Forward(_, m) => Some(m),
        }
    }
}

/// A part of a buffer: a kind of object at an offset.
#[derive(Copy, Clone, Debug, PartialEq, Eq, Structural)]
pub struct TextObject {
    pub kind: Kind,
    pub offset: Offset,
}

/// Giving a kind its own anchor leaves it as it was.
pub proof fn lemma_with_own_anchor(k: Kind)
    ensures
        k.with_anchor(k.get_anchor()) == k,
{
}

/// Of two anchors given in turn, the last one wins.
pub proof fn lemma_with_anchor_last_wins(k: Kind, a: Anchor, b: Anchor)
    ensures
        k.with_anchor(a).with_anchor(b) == k.with_anchor(b),
{
}

/// A kind keeps its variant when given an anchor; a line or a word then reports
/// that anchor, and a character always counts as anchored at its start.
pub proof fn lemma_anchor_laws(k: Kind, a: Anchor)
    ensures
        k.with_anchor(a) is Char <==> k is Char,
        k.with_anchor(a) is Line <==> k is Line,
        k.with_anchor(a) is Word <==> k is Word,
        !(k is Char) ==> k.with_anchor(a).get_anchor() == a,
        Kind::Char.get_anchor() == Anchor::Start,
{
}

/// Giving an offset a count sets exactly that count: the direction and the mark
/// it counts from stay.
pub proof fn lemma_count_laws(o: Offset, n: usize)
    ensures
        o.with_num(n).count() == n,
        o.with_num(n).origin() == o.origin(),
        o.with_num(n) is Absolute <==> o is Absolute,
        o.with_num(n) is Backward <==> o is Backward,
        o.with_num(n) is Forward <==> o is Forward,
{
}

} // verus!
