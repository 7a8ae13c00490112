//! The four screen edges and the keywords that name them.

use crate::text::text_equals;
use vstd::prelude::*;

verus! {

/// A side of the screen along which the window can be pinned.
#[derive(Clone, Copy, Debug, PartialEq, Eq, Structural)]
pub enum Edge {
    Left,
    Right,
    Top,
    Bottom,
}

/// The keyword by which a front end names an edge.
pub open spec fn keyword(edge: Edge) -> Seq<char> {
    match edge {
        Edge::Left => "left"@,
        Edge::Right => "right"@,
        Edge::Top => "top"@,
        Edge::Bottom => "bottom"@,
    }
}

/// The edge that a text names, if it is one of the four keywords, letter for
/// letter.
pub open spec fn edge_of(text: Seq<char>) -> Option<Edge> {
    if text == keyword(Edge::Left) {
        Some(Edge::Left)
    } else if text == keyword(Edge::Right) {
        Some(Edge::Right)
    } else if text == keyword(Edge::Top) {
        Some(Edge::Top)
    } else if text == keyword(Edge::Bottom) {
        Some(Edge::Bottom)
    } else {
        None
    }
}

/// Every edge is named by its own keyword and by no other text: the four
/// keywords differ from each other.
pub proof fn lemma_keyword_names_edge(edge: Edge, text: Seq<char>)
    ensures
        edge_of(text) == Some(edge) <==> text == keyword(edge),
{
    reveal_strlit("left");
    reveal_strlit("right");
    reveal_strlit("top");
    reveal_strlit("bottom");
    assert(keyword(Edge::Left).len() == 4);
    assert(keyword(Edge::Right).len() == 5);
    assert(keyword(Edge::Top).len() == 3);
    assert(keyword(Edge::Bottom).len() == 6);
}

impl Edge {
    /// Reads an edge from its keyword. Anything but the four keywords gives
    /// `None`.
    pub fn parse(text: &str) -> (edge: Option<Edge>)
        ensures
            edge == edge_of(text@),
    {
        if text_equals(text, "left") {
            Some(Edge::Left)
        } else if text_equals(text, "right") {
            Some(Edge::Right)
        } else if text_equals(text, "top") {
            Some(Edge::Top)
        } else if text_equals(text, "bottom") {
            Some(Edge::Bottom)
        } else {
            None
        }
    }
}

} // verus!
