//! Type hints inside a chain of calls.
//!
//! In a chain that is written over several lines only the type of the whole
//! is to be seen. Each step that is followed by a line break and a `.` gets
//! its type as a hint.

use vstd::prelude::*;
use crate::config::InlayHintsConfig;
use crate::hint::{lemma_pending_views_push, pending_views, InlayKind, PendingHint, PendingView};
use crate::label::{label_of, type_label};
use crate::semantics::{Adt, AdtView, Semantics, SemanticsView, TypeInfoView};
use crate::syntax::{lemma_found_in_tree, next_child, ElementView, Shape, SyntaxKind};
use crate::tree::SyntaxTree;

verus! {

/// Whether the element at `i` is followed, among the tokens beside it, by a
/// line break and then a `.`. Comments and whitespace within a line do not
/// count; nodes beside it are passed over.
pub open spec fn chaining_point(els: Seq<ElementView>, i: int) -> bool {
    match els[i].parent {
        Some(p) => match next_child(els, p, Shape::SignificantToken, i + 1) {
            Some(first) => els[first].kind == SyntaxKind::Whitespace && match next_child(
                els,
                p,
                Shape::SignificantToken,
                first + 1,
            ) {
                Some(second) => els[second].kind == SyntaxKind::Dot,
                None => false,
            },
            None => false,
        },
        None => false,
    }
}

/// Whether `ty` is a struct without fields.
pub open spec fn is_unit_struct(ty: TypeInfoView) -> bool {
    match ty.adt {
        Some(AdtView::Struct { name, fields }) => fields == 0,
        _ => false,
    }
}

/// The chaining hint of the expression at `expr`, if it has one: the
/// expression stands at a chaining point and its type is known. A record
/// literal gets none, nor does a path to a value of a struct without fields:
/// both name their type themselves.
pub open spec fn chaining_hints(
    els: Seq<ElementView>,
    sema: SemanticsView,
    config: InlayHintsConfig,
    expr: int,
) -> Seq<PendingView> {
    match sema.type_at(expr) {
        Some(ty) => if config.chaining_hints && els[expr].kind != SyntaxKind::RecordExpr
            && chaining_point(els, expr) && !ty.unknown && !(els[expr].kind == SyntaxKind::PathExpr
            && is_unit_struct(ty)) {
            seq![
                PendingView {
                    range: els[expr].range,
                    kind: InlayKind::ChainingHint,
                    label: label_of(config, ty, expr),
                },
            ]
        } else {
            Seq::empty()
        },
        None => Seq::empty(),
    }
}

/// Whether the element at `i` is followed by a line break and then a `.`.
pub fn at_chaining_point(tree: &SyntaxTree, i: usize) -> (b: bool)
    requires
        i < tree@.len(),
    ensures
        b == chaining_point(tree@, i as int),
{
    let p = match tree.get(i).parent {
        Some(p) => p,
        None => {
            return false;
        },
    };
    let n = tree.len();
    let first = match tree.next_child(p, Shape::SignificantToken, i + 1) {
        Some(first) => first,
        None => {
            return false;
        },
    };
    proof {
        lemma_found_in_tree(tree@, p as int, Shape::SignificantToken, i + 1);
    }
    if tree.kind(first) != SyntaxKind::Whitespace {
        return false;
    }
    match tree.next_child(p, Shape::SignificantToken, first + 1) {
        Some(second) => {
            proof {
                lemma_found_in_tree(tree@, p as int, Shape::SignificantToken, first + 1);
            }
            tree.kind(second) == SyntaxKind::Dot
        },
        None => false,
    }
}

/// Appends the chaining hint of the expression at `expr`, if it has one.
pub fn get_chaining_hints(
    acc: &mut Vec<PendingHint>,
    tree: &SyntaxTree,
    sema: &Semantics,
    config: &InlayHintsConfig,
    expr: usize,
)
    requires
        expr < tree@.len(),
    ensures
        pending_views(final(acc)@) == pending_views(old(acc)@) + chaining_hints(
            tree@,
            sema@,
            *config,
            expr as int,
        ),
{
    if !config.chaining_hints {
        return ;
    }
    let kind = tree.kind(expr);
    if kind == SyntaxKind::RecordExpr {
        return ;
    }
    // A chaining point is an expression whose next tokens are a line break
    // and a dot, whatever comments and blanks stand between.
    if !at_chaining_point(tree, expr) {
        return ;
    }
    let ty = match sema.type_of(expr) {
        Some(ty) => ty,
        None => {
            return ;
        },
    };
    if ty.unknown {
        return ;
    }
    if kind == SyntaxKind::PathExpr {
        if let Some(Adt::Struct { name, fields }) = &ty.adt {
            if *fields == 0 {
                return ;
            }
        }
    }
    let hint = PendingHint {
        range: tree.range(expr),
        kind: InlayKind::ChainingHint,
        label: type_label(config, ty, expr),
    };
    proof {
        lemma_pending_views_push(acc@, hint);
    }
    acc.push(hint);
}

} // verus!
