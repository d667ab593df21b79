//! The syntax tree the engine reads.
//!
//! A tree is held as the list of its elements (nodes and tokens) in document
//! order: every element comes after its parent and before whatever follows the
//! parent's last descendant. An element is named by its position in that list.

use vstd::prelude::*;
use crate::hint::TextRange;
use crate::text::{chars_of, contains_char};

verus! {

/// The shapes of syntax the engine tells apart. Everything else is `Token`,
/// `Expr`, `Pat` or `Node`.
#[derive(Clone, Copy, Debug, PartialEq, Eq, Structural)]
pub enum SyntaxKind {
    /// Blanks and line breaks.
    Whitespace,
    /// A comment.
    Comment,
    /// The member-access operator `.`.
    Dot,
    /// The keyword `in`.
    InKw,
    /// Any other token.
    Token,
    /// A call `f(..)`.
    CallExpr,
    /// A method call `x.f(..)`.
    MethodCallExpr,
    /// A record literal `S { .. }`.
    RecordExpr,
    /// A bare path used as an expression.
    PathExpr,
    /// A borrow `&x`.
    RefExpr,
    /// An `if` expression.
    IfExpr,
    /// A `while` expression.
    WhileExpr,
    /// A `for` expression.
    ForExpr,
    /// Any other expression.
    Expr,
    /// A pattern that binds one identifier.
    IdentPat,
    /// Any other pattern.
    Pat,
    /// A written type.
    Type,
    /// A `let` statement.
    LetStmt,
    /// A parameter of a function or closure.
    Param,
    /// An arm of a `match`.
    MatchArm,
    /// The guard of an `if` or `while`.
    Condition,
    /// The parenthesised arguments of a call.
    ArgList,
    /// A name that refers to something declared elsewhere.
    NameRef,
    /// Any other node.
    Node,
}

impl SyntaxKind {
    /// Tokens are the leaves of the tree; they carry the text.
    pub open spec fn is_token(self) -> bool {
        self == SyntaxKind::Whitespace || self == SyntaxKind::Comment || self == SyntaxKind::Dot
            || self == SyntaxKind::InKw || self == SyntaxKind::Token
    }

    /// Whether a node of this kind is an expression.
    pub open spec fn is_expr(self) -> bool {
        self == SyntaxKind::CallExpr || self == SyntaxKind::MethodCallExpr || self
            == SyntaxKind::RecordExpr || self == SyntaxKind::PathExpr || self == SyntaxKind::RefExpr
            || self == SyntaxKind::IfExpr || self == SyntaxKind::WhileExpr || self
            == SyntaxKind::ForExpr || self == SyntaxKind::Expr
    }

    /// Whether a node of this kind is a pattern.
    pub open spec fn is_pat(self) -> bool {
        self == SyntaxKind::IdentPat || self == SyntaxKind::Pat
    }

    /// Whether a binding below a node of this kind takes its rule from that node.
    pub open spec fn is_binding_context(self) -> bool {
        self == SyntaxKind::LetStmt || self == SyntaxKind::Param || self == SyntaxKind::MatchArm
            || self == SyntaxKind::IfExpr || self == SyntaxKind::WhileExpr || self
            == SyntaxKind::ForExpr
    }

    /// Whether this is the kind of a token.
    pub fn token(self) -> (b: bool)
        ensures
            b == self.is_token(),
    {
        match self {
            SyntaxKind::Whitespace
            | SyntaxKind::Comment
            | SyntaxKind::Dot
            | SyntaxKind::InKw
            | SyntaxKind::Token => true,
            _ => false,
        }
    }

    /// Whether a node of this kind is an expression.
    pub fn expr(self) -> (b: bool)
        ensures
            b == self.is_expr(),
    {
        match self {
            SyntaxKind::CallExpr
            | SyntaxKind::MethodCallExpr
            | SyntaxKind::RecordExpr
            | SyntaxKind::PathExpr
            | SyntaxKind::RefExpr
            | SyntaxKind::IfExpr
            | SyntaxKind::WhileExpr
            | SyntaxKind::ForExpr
            | SyntaxKind::Expr => true,
            _ => false,
        }
    }

    /// Whether a node of this kind is a pattern.
    pub fn pat(self) -> (b: bool)
        ensures
            b == self.is_pat(),
    {
        match self {
            SyntaxKind::IdentPat | SyntaxKind::Pat => true,
            _ => false,
        }
    }

    /// Whether a binding below a node of this kind takes its rule from that node.
    pub fn binding_context(self) -> (b: bool)
        ensures
            b == self.is_binding_context(),
    {
        match self {
            SyntaxKind::LetStmt
            | SyntaxKind::Param
            | SyntaxKind::MatchArm
            | SyntaxKind::IfExpr
            | SyntaxKind::WhileExpr
            | SyntaxKind::ForExpr => true,
            _ => false,
        }
    }
}

/// One node or token of a tree.
#[derive(Debug)]
pub struct Element {
    pub kind: SyntaxKind,
    /// Position of the enclosing node; `None` for the root.
    pub parent: Option<usize>,
    /// The span of the file's text that the element covers.
    pub range: TextRange,
    /// The text of a token. Unused for a node, whose text is that of the tokens
    /// below it.
    pub text: String,
}

/// The mathematical value of an element: positions as integers, text as a
/// sequence of characters.
pub struct ElementView {
    pub kind: SyntaxKind,
    pub parent: Option<int>,
    pub range: TextRange,
    pub text: Seq<char>,
}

impl View for Element {
    type V = ElementView;

    open spec fn view(&self) -> ElementView {
        ElementView {
            kind: self.kind,
            parent: match self.parent {
                Some(p) => Some(p as int),
                None => None,
            },
            range: self.range,
            text: self.text@,
        }
    }
}

/// The values of a list of elements, in order.
pub open spec fn element_views(elements: Seq<Element>) -> Seq<ElementView> {
    elements.map_values(|el: Element| el@)
}

/// What a search among the children of a node looks for.
#[derive(Clone, Copy, Debug, PartialEq, Eq, Structural)]
pub enum Shape {
    /// An element of exactly this kind.
    Kind(SyntaxKind),
    /// Any expression.
    AnyExpr,
    /// Any pattern.
    AnyPat,
    /// A token other than a comment or whitespace within one line.
    SignificantToken,
}

impl Shape {
    /// Whether `el` is what the search looks for.
    pub open spec fn admits(self, el: ElementView) -> bool {
        match self {
            Shape::Kind(kind) => el.kind == kind,
            Shape::AnyExpr => el.kind.is_expr(),
            Shape::AnyPat => el.kind.is_pat(),
            Shape::SignificantToken => el.kind.is_token() && el.kind != SyntaxKind::Comment && !(
            el.kind == SyntaxKind::Whitespace && !el.text.contains('\n')),
        }
    }

    /// Whether `el` is what the search looks for.
    pub fn test(self, el: &Element) -> (b: bool)
        ensures
            b == self.admits(el@),
    {
        match self {
            Shape::Kind(kind) => el.kind == kind,
            Shape::AnyExpr => el.kind.expr(),
            Shape::AnyPat => el.kind.pat(),
            Shape::SignificantToken => {
                if !el.kind.token() || el.kind == SyntaxKind::Comment {
                    false
                } else if el.kind == SyntaxKind::Whitespace {
                    let chars = chars_of(el.text.as_str());
                    contains_char(chars.as_slice(), '\n')
                } else {
                    true
                }
            },
        }
    }
}

/// Whether element `j` lies below node `a`: `a` is its parent, or the parent of
/// its parent, and so on.
pub open spec fn is_below(els: Seq<ElementView>, a: int, j: int) -> bool
    decreases j,
{
    0 <= j < els.len() && match els[j].parent {
        Some(p) => 0 <= p < j && (p == a || is_below(els, a, p)),
        None => false,
    }
}

/// Whether `p` is the parent of element `j`.
pub open spec fn is_child(els: Seq<ElementView>, p: int, j: int) -> bool {
    &&& 0 <= j < els.len()
    &&& p < j
    &&& els[j].parent matches Some(q)
    &&& q == p
}

/// Element `j` is in its place: the root comes first; every other element has
/// a node before it as its parent, lies inside that node's span, and follows
/// directly on the parent or on one of the parent's descendants.
pub open spec fn well_placed(els: Seq<ElementView>, j: int) -> bool {
    &&& els[j].range.is_valid()
    &&& if j == 0 {
        els[j].parent is None
    } else {
        &&& els[j].parent matches Some(p)
        &&& 0 <= p < j
        &&& !els[p].kind.is_token()
        &&& els[p].range.covers(els[j].range)
        &&& (p == j - 1 || is_below(els, p, j - 1))
    }
}

/// The elements form one tree, listed in document order.
pub open spec fn well_formed(els: Seq<ElementView>) -> bool {
    forall|j: int| 0 <= j < els.len() ==> #[trigger] well_placed(els, j)
}

/// The first child of `p` at or after position `from` that `shape` admits.
pub open spec fn next_child(els: Seq<ElementView>, p: int, shape: Shape, from: int) -> Option<int>
    decreases els.len() - from,
{
    if from >= els.len() {
        None
    } else if is_child(els, p, from) && shape.admits(els[from]) {
        Some(from)
    } else {
        next_child(els, p, shape, from + 1)
    }
}

/// The first child of `p` that `shape` admits.
pub open spec fn first_child(els: Seq<ElementView>, p: int, shape: Shape) -> Option<int> {
    next_child(els, p, shape, 0)
}

/// The children of `p` at or after position `from` that `shape` admits, in order.
pub open spec fn children_from(els: Seq<ElementView>, p: int, shape: Shape, from: int) -> Seq<int>
    decreases els.len() - from,
{
    if from >= els.len() {
        Seq::empty()
    } else if is_child(els, p, from) && shape.admits(els[from]) {
        seq![from] + children_from(els, p, shape, from + 1)
    } else {
        children_from(els, p, shape, from + 1)
    }
}

/// The children of `p` that `shape` admits, in order.
pub open spec fn children(els: Seq<ElementView>, p: int, shape: Shape) -> Seq<int> {
    children_from(els, p, shape, 0)
}

/// The text of the tokens below `a` among the first `n` elements, in order.
pub open spec fn text_below(els: Seq<ElementView>, a: int, n: int) -> Seq<char>
    decreases n,
{
    if n <= 0 {
        Seq::empty()
    } else if n <= els.len() && els[n - 1].kind.is_token() && is_below(els, a, n - 1) {
        text_below(els, a, n - 1) + els[n - 1].text
    } else {
        text_below(els, a, n - 1)
    }
}

/// The source text of element `a`: a token's own text, a node's tokens put
/// together.
pub open spec fn text_of(els: Seq<ElementView>, a: int) -> Seq<char> {
    if els[a].kind.is_token() {
        els[a].text
    } else {
        text_below(els, a, els.len() as int)
    }
}

/// The nearest of `j` and the nodes above it whose kind decides how a binding
/// is treated.
pub open spec fn binding_context(els: Seq<ElementView>, j: int) -> Option<int>
    decreases j,
{
    if !(0 <= j < els.len()) {
        None
    } else if els[j].kind.is_binding_context() {
        Some(j)
    } else {
        match els[j].parent {
            Some(p) => if 0 <= p < j {
                binding_context(els, p)
            } else {
                None
            },
            None => None,
        }
    }
}

/// What a search among children finds is an element of the tree, at or after
/// the place where the search began, that the shape admits.
pub proof fn lemma_found_in_tree(els: Seq<ElementView>, p: int, shape: Shape, from: int)
    ensures
        next_child(els, p, shape, from) matches Some(j) ==> from <= j < els.len() && p < j
            && is_child(els, p, j) && shape.admits(els[j]),
    decreases els.len() - from,
{
    if from < els.len() && !(is_child(els, p, from) && shape.admits(els[from])) {
        lemma_found_in_tree(els, p, shape, from + 1);
    }
}

/// A descendant comes after its ancestor.
pub proof fn lemma_below_is_after(els: Seq<ElementView>, a: int, j: int)
    requires
        is_below(els, a, j),
    ensures
        a < j,
    decreases j,
{
    let p = els[j].parent->0;
    if p != a {
        lemma_below_is_after(els, a, p);
    }
}

/// What lies below a descendant of `a` lies below `a`.
pub proof fn lemma_below_transitive(els: Seq<ElementView>, a: int, b: int, c: int)
    requires
        is_below(els, a, b),
        is_below(els, b, c),
    ensures
        is_below(els, a, c),
    decreases c,
{
    let p = els[c].parent->0;
    if p != b {
        lemma_below_transitive(els, a, b, p);
    }
}

/// The descendants of a node are listed without a gap: once an element after
/// `a` is not below `a`, none of the later ones is.
pub proof fn lemma_beyond_subtree(els: Seq<ElementView>, a: int, s: int, k: int)
    requires
        well_formed(els),
        0 <= a < s <= k < els.len(),
        !is_below(els, a, s),
    ensures
        !is_below(els, a, k),
    decreases k - s,
{
    if k > s {
        lemma_beyond_subtree(els, a, s, k - 1);
        assert(well_placed(els, k));
        let p = els[k].parent->0;
        if is_below(els, a, k) {
            if p != k - 1 {
                if p == a {
                } else {
                    lemma_below_transitive(els, a, p, k - 1);
                }
            }
        }
    }
}

/// An element after `a` whose parent comes before `a` ends the descendants of `a`.
pub proof fn lemma_subtree_ends(els: Seq<ElementView>, a: int, s: int)
    requires
        well_formed(els),
        0 <= a < s < els.len(),
        els[s].parent matches Some(q) && q < a,
    ensures
        forall|k: int| s <= k < els.len() ==> !is_below(els, a, k) && !is_child(els, a, k),
{
    let q = els[s].parent->0;
    if is_below(els, a, s) {
        lemma_below_is_after(els, a, q);
    }
    assert forall|k: int| s <= k < els.len() implies !is_below(els, a, k) && !is_child(
        els,
        a,
        k,
    ) by {
        lemma_beyond_subtree(els, a, s, k);
    }
}

} // verus!
