//! A checked syntax tree and the walks the engine makes over it.

use vstd::prelude::*;
use vstd::string::StringExecFns;
use crate::hint::TextRange;
use crate::syntax::{
    binding_context, children, children_from, element_views, is_below, is_child,
    lemma_below_is_after, lemma_subtree_ends, next_child, text_below, text_of, well_formed,
    well_placed, Element, ElementView, Shape, SyntaxKind,
};

verus! {

/// The elements of one file in document order, known to form a tree.
#[derive(Debug)]
pub struct SyntaxTree {
    elements: Vec<Element>,
}

impl View for SyntaxTree {
    type V = Seq<ElementView>;

    closed spec fn view(&self) -> Seq<ElementView> {
        element_views(self.elements@)
    }
}

/// Positions as mathematical integers.
pub open spec fn positions(v: Seq<usize>) -> Seq<int> {
    v.map_values(|j: usize| j as int)
}

/// Nothing at or after `from` is a child of `p`, so no search finds one.
pub proof fn lemma_no_child_left(els: Seq<ElementView>, p: int, shape: Shape, from: int)
    requires
        forall|k: int| from <= k < els.len() ==> !is_child(els, p, k),
    ensures
        next_child(els, p, shape, from) is None,
        children_from(els, p, shape, from) == Seq::<int>::empty(),
    decreases els.len() - from,
{
    if from < els.len() {
        lemma_no_child_left(els, p, shape, from + 1);
    }
}

/// A search may start anywhere before the first child.
pub proof fn lemma_child_search_skips(els: Seq<ElementView>, p: int, shape: Shape, from: int, to: int)
    requires
        from <= to,
        forall|k: int| from <= k < to ==> !is_child(els, p, k),
    ensures
        next_child(els, p, shape, from) == next_child(els, p, shape, to),
        children_from(els, p, shape, from) == children_from(els, p, shape, to),
    decreases to - from,
{
    if from < to {
        lemma_child_search_skips(els, p, shape, from + 1, to);
        if from >= els.len() {
            lemma_no_child_left(els, p, shape, to);
        }
    }
}

/// No token at or after `from` lies below `a`, so the text gathered up to
/// `from` is all of it.
pub proof fn lemma_text_complete(els: Seq<ElementView>, a: int, from: int, n: int)
    requires
        0 <= from <= n,
        forall|k: int| from <= k < els.len() ==> !is_below(els, a, k),
    ensures
        text_below(els, a, n) == text_below(els, a, from),
    decreases n - from,
{
    if from < n {
        lemma_text_complete(els, a, from, n - 1);
    }
}

/// Nothing up to and including `a` lies below `a`.
pub proof fn lemma_text_starts_empty(els: Seq<ElementView>, a: int, n: int)
    requires
        n <= a + 1,
    ensures
        text_below(els, a, n) == Seq::<char>::empty(),
    decreases n,
{
    if n > 0 {
        lemma_text_starts_empty(els, a, n - 1);
        if is_below(els, a, n - 1) {
            lemma_below_is_after(els, a, n - 1);
        }
    }
}

/// Whether element `j` is in its place, given that those before it are.
fn element_well_placed(elements: &Vec<Element>, j: usize) -> (b: bool)
    requires
        j < elements.len(),
        forall|k: int| 0 <= k < j ==> #[trigger] well_placed(element_views(elements@), k),
    ensures
        b == well_placed(element_views(elements@), j as int),
{
    let ghost els = element_views(elements@);
    let el = &elements[j];
    assert(els[j as int] == el@);
    if el.range.start > el.range.end {
        return false;
    }
    if j == 0 {
        return el.parent.is_none();
    }
    match el.parent {
        None => false,
        Some(p) => {
            if p >= j {
                return false;
            }
            let parent = &elements[p];
            assert(els[p as int] == parent@);
            if parent.kind.token() || !parent.range.contains_range(&el.range) {
                return false;
            }
            let mut cur: usize = j - 1;
            while cur > p
                invariant
                    p < j,
                    cur < j,
                    j < elements.len(),
                    els == element_views(elements@),
                    forall|k: int| 0 <= k < j ==> #[trigger] well_placed(els, k),
                    (p == j - 1 || is_below(els, p as int, j - 1)) == (cur == p || is_below(
                        els,
                        p as int,
                        cur as int,
                    )),
                decreases cur,
            {
                assert(well_placed(els, cur as int));
                assert(els[cur as int] == elements[cur as int]@);
                match elements[cur].parent {
                    Some(q) => {
                        cur = q;
                    },
                    None => {
                        return false;
                    },
                }
            }
            proof {
                if is_below(els, p as int, cur as int) {
                    lemma_below_is_after(els, p as int, cur as int);
                }
            }
            cur == p
        },
    }
}

impl SyntaxTree {
    /// What holds of every `SyntaxTree`: its elements form one tree, listed in
    /// document order.
    #[verifier::type_invariant]
    pub open spec fn is_tree(&self) -> bool {
        well_formed(self@)
    }

    /// Takes the elements of a file if they form a tree in document order.
    pub fn new(elements: Vec<Element>) -> (tree: Option<SyntaxTree>)
        ensures
            tree is Some <==> well_formed(element_views(elements@)),
            tree matches Some(t) ==> t@ == element_views(elements@),
    {
        let n = elements.len();
        let mut j: usize = 0;
        while j < n
            invariant
                j <= n,
                n == elements.len(),
                forall|k: int| 0 <= k < j ==> #[trigger] well_placed(element_views(elements@), k),
            decreases n - j,
        {
            if !element_well_placed(&elements, j) {
                return None;
            }
            j += 1;
        }
        Some(SyntaxTree { elements })
    }

    /// Number of elements.
    pub fn len(&self) -> (n: usize)
        ensures
            n == self@.len(),
    {
        self.elements.len()
    }

    /// The element at position `i`.
    pub fn get(&self, i: usize) -> (el: &Element)
        requires
            i < self@.len(),
        ensures
            el@ == self@[i as int],
    {
        &self.elements[i]
    }

    /// The kind of the element at position `i`.
    pub fn kind(&self, i: usize) -> (kind: SyntaxKind)
        requires
            i < self@.len(),
        ensures
            kind == self@[i as int].kind,
    {
        self.elements[i].kind
    }

    /// The span of the element at position `i`.
    pub fn range(&self, i: usize) -> (range: TextRange)
        requires
            i < self@.len(),
        ensures
            range == self@[i as int].range,
    {
        self.elements[i].range
    }

    /// The first child of `p` at or after position `from` that `shape` admits.
    pub fn next_child(&self, p: usize, shape: Shape, from: usize) -> (found: Option<usize>)
        ensures
            match found {
                Some(j) => next_child(self@, p as int, shape, from as int) == Some(j as int),
                None => next_child(self@, p as int, shape, from as int) is None,
            },
    {
        proof {
            use_type_invariant(self);
        }
        let n = self.elements.len();
        if p >= n {
            proof {
                lemma_no_child_left(self@, p as int, shape, from as int);
            }
            return None;
        }
        let mut j: usize = if from > p {
            from
        } else {
            p + 1
        };
        proof {
            lemma_child_search_skips(self@, p as int, shape, from as int, j as int);
        }
        while j < n
            invariant
                p < j,
                p < n,
                n == self@.len(),
                well_formed(self@),
                self@ == element_views(self.elements@),
                next_child(self@, p as int, shape, from as int) == next_child(
                    self@,
                    p as int,
                    shape,
                    j as int,
                ),
            decreases n - j,
        {
            let el = &self.elements[j];
            match el.parent {
                Some(q) => {
                    if q < p {
                        proof {
                            lemma_subtree_ends(self@, p as int, j as int);
                            lemma_no_child_left(self@, p as int, shape, j as int);
                        }
                        return None;
                    }
                    if q == p && shape.test(el) {
                        return Some(j);
                    }
                },
                None => {},
            }
            j += 1;
        }
        None
    }

    /// The first child of `p` that `shape` admits.
    pub fn first_child(&self, p: usize, shape: Shape) -> (found: Option<usize>)
        ensures
            match found {
                Some(j) => crate::syntax::first_child(self@, p as int, shape) == Some(j as int),
                None => crate::syntax::first_child(self@, p as int, shape) is None,
            },
    {
        self.next_child(p, shape, 0)
    }

    /// The children of `p` that `shape` admits, in order.
    pub fn children(&self, p: usize, shape: Shape) -> (found: Vec<usize>)
        ensures
            positions(found@) == children(self@, p as int, shape),
    {
        proof {
            use_type_invariant(self);
        }
        let n = self.elements.len();
        let mut found: Vec<usize> = Vec::new();
        if p >= n {
            proof {
                lemma_no_child_left(self@, p as int, shape, 0);
                assert(positions(found@) =~= Seq::<int>::empty());
            }
            return found;
        }
        let mut j: usize = p + 1;
        proof {
            lemma_child_search_skips(self@, p as int, shape, 0, j as int);
            assert(positions(found@) =~= Seq::<int>::empty());
        }
        while j < n
            invariant
                p < j,
                p < n,
                n == self@.len(),
                well_formed(self@),
                self@ == element_views(self.elements@),
                children(self@, p as int, shape) == positions(found@) + children_from(
                    self@,
                    p as int,
                    shape,
                    j as int,
                ),
            decreases n - j,
        {
            let el = &self.elements[j];
            match el.parent {
                Some(q) => {
                    if q < p {
                        proof {
                            lemma_subtree_ends(self@, p as int, j as int);
                            lemma_no_child_left(self@, p as int, shape, j as int);
                        }
                        return found;
                    }
                    if q == p && shape.test(el) {
                        proof {
                            assert(positions(found@.push(j)) =~= positions(found@) + seq![j as int]);
                        }
                        found.push(j);
                    }
                },
                None => {},
            }
            j += 1;
        }
        found
    }

    /// The source text of element `a`.
    pub fn text_of(&self, a: usize) -> (text: String)
        requires
            a < self@.len(),
        ensures
            text@ == text_of(self@, a as int),
    {
        proof {
            use_type_invariant(self);
        }
        let n = self.elements.len();
        if self.elements[a].kind.token() {
            return self.elements[a].text.clone();
        }
        let mut text = String::new();
        let mut j: usize = a + 1;
        proof {
            lemma_text_starts_empty(self@, a as int, j as int);
        }
        while j < n
            invariant
                a < j <= n,
                n == self@.len(),
                well_formed(self@),
                self@ == element_views(self.elements@),
                !self@[a as int].kind.is_token(),
                text@ == text_below(self@, a as int, j as int),
                forall|k: int| a < k < j ==> is_below(self@, a as int, k),
            decreases n - j,
        {
            let el = &self.elements[j];
            assert(well_placed(self@, j as int));
            match el.parent {
                Some(q) => {
                    if q < a {
                        proof {
                            lemma_subtree_ends(self@, a as int, j as int);
                            lemma_text_complete(self@, a as int, j as int, n as int);
                        }
                        return text;
                    }
                    assert(is_below(self@, a as int, j as int)) by {
                        if q > a {
                            assert(is_below(self@, a as int, q as int));
                        }
                    }
                    if el.kind.token() {
                        text.append(el.text.as_str());
                    }
                },
                None => {},
            }
            j += 1;
        }
        text
    }

    /// The nearest of `j` and the nodes above it whose kind decides how a
    /// binding is treated.
    pub fn binding_context(&self, j: usize) -> (found: Option<usize>)
        ensures
            match found {
                Some(c) => binding_context(self@, j as int) == Some(c as int),
                None => binding_context(self@, j as int) is None,
            },
    {
        proof {
            use_type_invariant(self);
        }
        let n = self.elements.len();
        if j >= n {
            return None;
        }
        let mut cur: usize = j;
        loop
            invariant
                cur < n,
                n == self@.len(),
                well_formed(self@),
                self@ == element_views(self.elements@),
                binding_context(self@, j as int) == binding_context(self@, cur as int),
            decreases cur,
        {
            let el = &self.elements[cur];
            if el.kind.binding_context() {
                return Some(cur);
            }
            assert(well_placed(self@, cur as int));
            match el.parent {
                Some(p) => {
                    cur = p;
                },
                None => {
                    return None;
                },
            }
        }
    }
}

} // verus!
