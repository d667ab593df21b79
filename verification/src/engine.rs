//! The pass over a file that gathers its hints.

use vstd::prelude::*;
use crate::bind_hints::{bind_hints, get_bind_pat_hints};
use crate::chaining::{chaining_hints, get_chaining_hints};
use crate::config::InlayHintsConfig;
use crate::hint::{pending_views, PendingHint, PendingView};
use crate::param_hints::{get_param_name_hints, param_hints};
use crate::semantics::{Semantics, SemanticsView};
use crate::syntax::{ElementView, SyntaxKind};
use crate::tree::SyntaxTree;

verus! {

/// The hints that the element at `i` gives rise to: as an expression, a
/// chaining hint; as a call, parameter hints; as a binding, a type hint.
pub open spec fn node_hints(
    els: Seq<ElementView>,
    sema: SemanticsView,
    config: InlayHintsConfig,
    i: int,
) -> Seq<PendingView> {
    let kind = els[i].kind;
    let chaining = if kind.is_expr() {
        chaining_hints(els, sema, config, i)
    } else {
        Seq::empty()
    };
    let params = if kind == SyntaxKind::CallExpr || kind == SyntaxKind::MethodCallExpr {
        param_hints(els, sema, config, i)
    } else {
        Seq::empty()
    };
    let binding = if kind == SyntaxKind::IdentPat {
        bind_hints(els, sema, config, i)
    } else {
        Seq::empty()
    };
    chaining + params + binding
}

/// The hints of the first `n` elements, in document order.
pub open spec fn hints_upto(
    els: Seq<ElementView>,
    sema: SemanticsView,
    config: InlayHintsConfig,
    n: int,
) -> Seq<PendingView>
    decreases n,
{
    if n <= 0 {
        Seq::empty()
    } else {
        hints_upto(els, sema, config, n - 1) + node_hints(els, sema, config, n - 1)
    }
}

/// The hints of a file: those of each element, in document order. A node's
/// hints so come before the hints of what it contains.
pub open spec fn hints_of(els: Seq<ElementView>, sema: SemanticsView, config: InlayHintsConfig) -> Seq<
    PendingView,
> {
    hints_upto(els, sema, config, els.len() as int)
}

/// Gathers the hints of a file.
///
/// Every element is visited once, in document order. An element for which
/// the semantic engine has no answer gives no hint; the pass goes on.
pub fn inlay_hints(tree: &SyntaxTree, sema: &Semantics, config: &InlayHintsConfig) -> (hints: Vec<
    PendingHint,
>)
    ensures
        pending_views(hints@) == hints_of(tree@, sema@, *config),
{
    let mut res: Vec<PendingHint> = Vec::new();
    let n = tree.len();
    let mut node: usize = 0;
    assert(pending_views(res@) =~= Seq::<PendingView>::empty());
    while node < n
        invariant
            node <= n,
            n == tree@.len(),
            pending_views(res@) == hints_upto(tree@, sema@, *config, node as int),
        decreases n - node,
    {
        let kind = tree.kind(node);
        let ghost before = pending_views(res@);
        if kind.expr() {
            get_chaining_hints(&mut res, tree, sema, config, node);
        }
        match kind {
            SyntaxKind::CallExpr | SyntaxKind::MethodCallExpr => {
                get_param_name_hints(&mut res, tree, sema, config, node);
            },
            SyntaxKind::IdentPat => {
                get_bind_pat_hints(&mut res, tree, sema, config, node);
            },
            _ => {},
        }
        assert(pending_views(res@) =~= before + node_hints(tree@, sema@, *config, node as int));
        node += 1;
    }
    res
}

} // verus!
