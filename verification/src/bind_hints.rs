//! Type hints on bindings.
//!
//! A pattern that binds one identifier gets its inferred type as a hint,
//! unless the type is already to be seen where the binding stands.

use vstd::prelude::*;
use crate::config::InlayHintsConfig;
use crate::hint::{lemma_pending_views_push, pending_views, InlayKind, PendingHint, PendingView};
use crate::label::{label_of, type_label};
use crate::semantics::{Adt, AdtView, Semantics, SemanticsView, TypeInfo, TypeInfoView};
use crate::syntax::{binding_context, first_child, text_of, ElementView, Shape, SyntaxKind};
use crate::text::{chars_eq, chars_of};
use crate::tree::SyntaxTree;

verus! {

/// Whether `ty` is an enum one of whose variants is named as the pattern is
/// written.
pub open spec fn names_variant(pat_text: Seq<char>, ty: TypeInfoView) -> bool {
    match ty.adt {
        Some(AdtView::Enum { name, variants }) => variants.contains(pat_text),
        _ => false,
    }
}

/// Whether `ty` is a struct without fields that is named as the pattern is
/// written.
pub open spec fn names_unit_struct(pat_text: Seq<char>, ty: TypeInfoView) -> bool {
    match ty.adt {
        Some(AdtView::Struct { name, fields }) => fields == 0 && name == pat_text,
        _ => false,
    }
}

/// Whether the guard of the `if` or `while` at `c` matches a pattern.
pub open spec fn guard_has_pattern(els: Seq<ElementView>, c: int) -> bool {
    match first_child(els, c, Shape::Kind(SyntaxKind::Condition)) {
        Some(guard) => first_child(els, guard, Shape::AnyPat) is Some,
        None => false,
    }
}

/// Whether the `for` at `c` names what it iterates over, and that has a type
/// other than `()`.
pub open spec fn loop_source_known(els: Seq<ElementView>, sema: SemanticsView, c: int) -> bool {
    first_child(els, c, Shape::Kind(SyntaxKind::InKw)) is Some && match first_child(
        els,
        c,
        Shape::AnyExpr,
    ) {
        Some(source) => match sema.type_at(source) {
            Some(ty) => !ty.unknown && !ty.unit,
            None => false,
        },
        None => false,
    }
}

/// The rule of the node `c` that a binding stands in.
///
/// - In a `let` or a parameter the hint is withheld if a type is written.
/// - In a match arm it is shown only for a binding that is written like a
///   variant of its own type.
/// - In the guard of an `if` or `while` likewise, and only if the guard
///   matches a pattern at all.
/// - In a `for` it is withheld unless the loop's source is known.
pub open spec fn hidden_in_context(
    els: Seq<ElementView>,
    sema: SemanticsView,
    c: int,
    pat_text: Seq<char>,
    ty: TypeInfoView,
) -> bool {
    match els[c].kind {
        SyntaxKind::LetStmt | SyntaxKind::Param => first_child(
            els,
            c,
            Shape::Kind(SyntaxKind::Type),
        ) is Some,
        SyntaxKind::MatchArm => !names_variant(pat_text, ty),
        SyntaxKind::IfExpr | SyntaxKind::WhileExpr => !(guard_has_pattern(els, c) && names_variant(
            pat_text,
            ty,
        )),
        SyntaxKind::ForExpr => !loop_source_known(els, sema, c),
        _ => false,
    }
}

/// Whether the type hint of the binding at `pat`, whose type is `ty`, is
/// withheld: the type is unknown, or the binding is written like the unit
/// struct that is its type, or the nearest enclosing `let`, parameter, match
/// arm, `if`, `while` or `for` says so. A binding in none of these is shown.
pub open spec fn type_hint_hidden(
    els: Seq<ElementView>,
    sema: SemanticsView,
    pat: int,
    ty: TypeInfoView,
) -> bool {
    ty.unknown || names_unit_struct(text_of(els, pat), ty) || match binding_context(els, pat) {
        Some(c) => hidden_in_context(els, sema, c, text_of(els, pat), ty),
        None => false,
    }
}

/// The type hint of the binding at `pat`, if it has one.
pub open spec fn bind_hints(
    els: Seq<ElementView>,
    sema: SemanticsView,
    config: InlayHintsConfig,
    pat: int,
) -> Seq<PendingView> {
    match sema.type_at(pat) {
        Some(ty) => if config.type_hints && !type_hint_hidden(els, sema, pat, ty) {
            seq![PendingView { range: els[pat].range, kind: InlayKind::TypeHint, label: label_of(config, ty, pat) }]
        } else {
            Seq::empty()
        },
        None => Seq::empty(),
    }
}

/// Whether `pat_ty` is an enum with a variant named `pat_text`.
fn text_names_variant(pat_text: &[char], pat_ty: &TypeInfo) -> (b: bool)
    ensures
        b == names_variant(pat_text@, pat_ty@),
{
    match &pat_ty.adt {
        Some(Adt::Enum { name, variants }) => {
            let ghost names = variants@.map_values(|variant: String| variant@);
            assert(pat_ty@.adt == Some(AdtView::Enum { name: name@, variants: names }));
            let mut k: usize = 0;
            while k < variants.len()
                invariant
                    k <= variants.len(),
                    names == variants@.map_values(|variant: String| variant@),
                    pat_ty@.adt == Some(AdtView::Enum { name: name@, variants: names }),
                    forall|i: int| 0 <= i < k ==> #[trigger] names[i] != pat_text@,
                decreases variants.len() - k,
            {
                let variant = chars_of(variants[k].as_str());
                if chars_eq(variant.as_slice(), pat_text) {
                    assert(names[k as int] == pat_text@);
                    return true;
                }
                k += 1;
            }
            false
        },
        _ => false,
    }
}

/// Whether the binding at `bind_pat` is written like a variant of the enum
/// `pat_ty`.
pub fn pat_is_enum_variant(tree: &SyntaxTree, bind_pat: usize, pat_ty: &TypeInfo) -> (b: bool)
    requires
        bind_pat < tree@.len(),
    ensures
        b == names_variant(text_of(tree@, bind_pat as int), pat_ty@),
{
    let pat_text = chars_of(tree.text_of(bind_pat).as_str());
    text_names_variant(pat_text.as_slice(), pat_ty)
}

/// Whether the type hint of the binding at `bind_pat`, whose type is `pat_ty`,
/// is withheld.
pub fn should_not_display_type_hint(
    tree: &SyntaxTree,
    sema: &Semantics,
    bind_pat: usize,
    pat_ty: &TypeInfo,
) -> (hidden: bool)
    requires
        bind_pat < tree@.len(),
    ensures
        hidden == type_hint_hidden(tree@, sema@, bind_pat as int, pat_ty@),
{
    if pat_ty.unknown {
        return true;
    }
    let pat_text = chars_of(tree.text_of(bind_pat).as_str());
    if let Some(Adt::Struct { name, fields }) = &pat_ty.adt {
        if *fields == 0 {
            let name = chars_of(name.as_str());
            if chars_eq(name.as_slice(), pat_text.as_slice()) {
                return true;
            }
        }
    }
    let c = match tree.binding_context(bind_pat) {
        Some(c) => c,
        None => {
            return false;
        },
    };
    proof {
        lemma_context_in_tree(tree@, bind_pat as int);
    }
    match tree.kind(c) {
        SyntaxKind::LetStmt | SyntaxKind::Param => tree.first_child(
            c,
            Shape::Kind(SyntaxKind::Type),
        ).is_some(),
        SyntaxKind::MatchArm => !text_names_variant(pat_text.as_slice(), pat_ty),
        SyntaxKind::IfExpr | SyntaxKind::WhileExpr => {
            let has_pattern = match tree.first_child(c, Shape::Kind(SyntaxKind::Condition)) {
                Some(guard) => tree.first_child(guard, Shape::AnyPat).is_some(),
                None => false,
            };
            !(has_pattern && text_names_variant(pat_text.as_slice(), pat_ty))
        },
        SyntaxKind::ForExpr => {
            // A hint is shown only if the loop says `in` and names a source
            // whose type is known and not `()`.
            if tree.first_child(c, Shape::Kind(SyntaxKind::InKw)).is_none() {
                return true;
            }
            match tree.first_child(c, Shape::AnyExpr) {
                Some(source) => match sema.type_of(source) {
                    Some(ty) => ty.unknown || ty.unit,
                    None => true,
                },
                None => true,
            }
        },
        _ => false,
    }
}

/// The node that decides on a binding is an element of the tree.
pub proof fn lemma_context_in_tree(els: Seq<ElementView>, j: int)
    ensures
        binding_context(els, j) matches Some(c) ==> 0 <= c <= j && c < els.len()
            && els[c].kind.is_binding_context(),
    decreases j,
{
    if 0 <= j < els.len() && !els[j].kind.is_binding_context() {
        match els[j].parent {
            Some(p) => {
                if 0 <= p < j {
                    lemma_context_in_tree(els, p);
                }
            },
            None => {},
        }
    }
}

/// Appends the type hint of the binding at `pat`, if it has one.
pub fn get_bind_pat_hints(
    acc: &mut Vec<PendingHint>,
    tree: &SyntaxTree,
    sema: &Semantics,
    config: &InlayHintsConfig,
    pat: usize,
)
    requires
        pat < tree@.len(),
    ensures
        pending_views(final(acc)@) == pending_views(old(acc)@) + bind_hints(
            tree@,
            sema@,
            *config,
            pat as int,
        ),
{
    if !config.type_hints {
        return ;
    }
    let ty = match sema.type_of(pat) {
        Some(ty) => ty,
        None => {
            return ;
        },
    };
    if should_not_display_type_hint(tree, sema, pat, ty) {
        return ;
    }
    let hint = PendingHint { range: tree.range(pat), kind: InlayKind::TypeHint, label: type_label(config, ty, pat) };
    proof {
        lemma_pending_views_push(acc@, hint);
    }
    acc.push(hint);
}

} // verus!
