//! What holds of the hints of every file.

use vstd::prelude::*;
use crate::bind_hints::bind_hints;
use crate::chaining::chaining_hints;
use crate::config::InlayHintsConfig;
use crate::engine::{hints_of, hints_upto, node_hints};
use crate::hint::{finished, pending_views, InlayKind, PendingHint, PendingView};
use crate::label::{item_budget, lemma_iterator_label_len, LabelView, ITERATOR_LABEL_OVERHEAD};
use crate::param_hints::{
    callable_of, lemma_children_in_tree, param_hints, param_hints_upto, shorter,
};
use crate::semantics::{CallableView, SemanticsView};
use crate::syntax::{
    children, first_child, is_below, lemma_below_is_after, well_formed, well_placed, ElementView,
    Shape, SyntaxKind,
};

verus! {

/// Running the engine twice on the same tree, the same answers of the
/// semantic engine and the same configuration gives the same hints in the
/// same order: the same spans, kinds and labels, whatever the semantic engine
/// renders for the types that the labels ask for.
pub proof fn lemma_same_input_same_hints(
    els: Seq<ElementView>,
    sema: SemanticsView,
    config: InlayHintsConfig,
    first: Seq<PendingHint>,
    second: Seq<PendingHint>,
)
    requires
        pending_views(first) == hints_of(els, sema, config),
        pending_views(second) == hints_of(els, sema, config),
    ensures
        first.len() == second.len(),
        forall|i: int| 0 <= i < first.len() ==> (#[trigger] first[i])@ == second[i]@,
        forall|i: int, rendered: Seq<char>|
            0 <= i < first.len() ==> #[trigger] finished(first[i]@, rendered) == finished(
                second[i]@,
                rendered,
            ),
{
    assert(pending_views(first).len() == pending_views(second).len());
    assert forall|i: int| 0 <= i < first.len() implies (#[trigger] first[i])@ == second[i]@ by {
        assert(pending_views(first)[i] == first[i]@);
        assert(pending_views(second)[i] == second[i]@);
    }
}

/// `config` with the hints of one kind switched off.
pub open spec fn without(config: InlayHintsConfig, kind: InlayKind) -> InlayHintsConfig {
    match kind {
        InlayKind::TypeHint => InlayHintsConfig { type_hints: false, ..config },
        InlayKind::ParameterHint => InlayHintsConfig { parameter_hints: false, ..config },
        InlayKind::ChainingHint => InlayHintsConfig { chaining_hints: false, ..config },
    }
}

/// Whether every hint in `hints` is of kind `kind`.
pub open spec fn all_of_kind(hints: Seq<PendingView>, kind: InlayKind) -> bool {
    forall|i: int| 0 <= i < hints.len() ==> (#[trigger] hints[i]).kind == kind
}

/// The hints in `hints` that are not of kind `kind`, in order.
pub open spec fn other_than(hints: Seq<PendingView>, kind: InlayKind) -> Seq<PendingView> {
    hints.filter(|h: PendingView| h.kind != kind)
}

/// Of hints that are all of one kind, taking out a kind leaves all or none.
proof fn lemma_other_than_uniform(hints: Seq<PendingView>, of: InlayKind, kind: InlayKind)
    requires
        all_of_kind(hints, of),
    ensures
        other_than(hints, kind) == if of == kind {
            Seq::empty()
        } else {
            hints
        },
    decreases hints.len(),
{
    reveal(Seq::filter);
    if hints.len() > 0 {
        let front = hints.drop_last();
        assert(all_of_kind(front, of)) by {
            assert forall|i: int| 0 <= i < front.len() implies (#[trigger] front[i]).kind == of by {
                assert(front[i] == hints[i]);
            }
        }
        lemma_other_than_uniform(front, of, kind);
        assert(hints.last().kind == of);
        if of != kind {
            assert(front.push(hints.last()) =~= hints);
        }
    }
}

/// The hints on the arguments of a call are parameter hints.
proof fn lemma_param_hints_kind(
    els: Seq<ElementView>,
    sema: SemanticsView,
    callable: CallableView,
    args: Seq<int>,
    k: int,
)
    ensures
        all_of_kind(param_hints_upto(els, sema, callable, args, k), InlayKind::ParameterHint),
    decreases k,
{
    if k > 0 {
        lemma_param_hints_kind(els, sema, callable, args, k - 1);
    }
}

/// Each detector gives hints of its own kind.
proof fn lemma_kinds(els: Seq<ElementView>, sema: SemanticsView, config: InlayHintsConfig, i: int)
    ensures
        all_of_kind(chaining_hints(els, sema, config, i), InlayKind::ChainingHint),
        all_of_kind(param_hints(els, sema, config, i), InlayKind::ParameterHint),
        all_of_kind(bind_hints(els, sema, config, i), InlayKind::TypeHint),
{
    match callable_of(els, sema, i) {
        Some(callable) => {
            assert forall|args: Seq<int>, k: int|
                all_of_kind(
                    #[trigger] param_hints_upto(els, sema, callable, args, k),
                    InlayKind::ParameterHint,
                ) by {
                lemma_param_hints_kind(els, sema, callable, args, k);
            }
        },
        None => {},
    }
}

/// Switching off a kind takes its hints from those of one element.
proof fn lemma_node_without(
    els: Seq<ElementView>,
    sema: SemanticsView,
    config: InlayHintsConfig,
    kind: InlayKind,
    i: int,
)
    ensures
        node_hints(els, sema, without(config, kind), i) == other_than(
            node_hints(els, sema, config, i),
            kind,
        ),
{
    let off = without(config, kind);
    let chaining = chaining_hints(els, sema, config, i);
    let params = param_hints(els, sema, config, i);
    let binding = bind_hints(els, sema, config, i);
    let empty = Seq::<PendingView>::empty();
    lemma_kinds(els, sema, config, i);
    lemma_other_than_uniform(chaining, InlayKind::ChainingHint, kind);
    lemma_other_than_uniform(params, InlayKind::ParameterHint, kind);
    lemma_other_than_uniform(binding, InlayKind::TypeHint, kind);
    lemma_other_than_uniform(empty, kind, kind);
    assert(chaining_hints(els, sema, off, i) == other_than(chaining, kind));
    assert(param_hints(els, sema, off, i) == other_than(params, kind));
    assert(bind_hints(els, sema, off, i) == other_than(binding, kind));
    let pred = |h: PendingView| h.kind != kind;
    let k = els[i].kind;
    let a = if k.is_expr() {
        chaining
    } else {
        empty
    };
    let b = if k == SyntaxKind::CallExpr || k
        == SyntaxKind::MethodCallExpr {
        params
    } else {
        empty
    };
    let c = if k == SyntaxKind::IdentPat {
        binding
    } else {
        empty
    };
    Seq::filter_distributes_over_add(a, b, pred);
    Seq::filter_distributes_over_add(a + b, c, pred);
}

/// Switching off the hints of one kind removes from the hints of a file those
/// of that kind, and changes nothing else: what is left keeps its order.
pub proof fn lemma_switching_off_removes_kind(
    els: Seq<ElementView>,
    sema: SemanticsView,
    config: InlayHintsConfig,
    kind: InlayKind,
)
    ensures
        hints_of(els, sema, without(config, kind)) == other_than(hints_of(els, sema, config), kind),
{
    lemma_upto_without(els, sema, config, kind, els.len() as int);
}

/// Switching off a kind takes its hints from those of the first `n` elements.
proof fn lemma_upto_without(
    els: Seq<ElementView>,
    sema: SemanticsView,
    config: InlayHintsConfig,
    kind: InlayKind,
    n: int,
)
    ensures
        hints_upto(els, sema, without(config, kind), n) == other_than(
            hints_upto(els, sema, config, n),
            kind,
        ),
    decreases n,
{
    reveal(Seq::filter);
    if n > 0 {
        lemma_upto_without(els, sema, config, kind, n - 1);
        lemma_node_without(els, sema, config, kind, n - 1);
        Seq::filter_distributes_over_add(
            hints_upto(els, sema, config, n - 1),
            node_hints(els, sema, config, n - 1),
            |h: PendingView| h.kind != kind,
        );
    }
}

/// With all three kinds switched off a file has no hints.
pub proof fn lemma_all_off_no_hints(els: Seq<ElementView>, sema: SemanticsView, config: InlayHintsConfig)
    requires
        !config.type_hints,
        !config.parameter_hints,
        !config.chaining_hints,
    ensures
        hints_of(els, sema, config) == Seq::<PendingView>::empty(),
{
    lemma_upto_all_off(els, sema, config, els.len() as int);
}

/// With every kind switched off the first `n` elements have no hints.
proof fn lemma_upto_all_off(els: Seq<ElementView>, sema: SemanticsView, config: InlayHintsConfig, n: int)
    requires
        !config.type_hints,
        !config.parameter_hints,
        !config.chaining_hints,
    ensures
        hints_upto(els, sema, config, n) == Seq::<PendingView>::empty(),
    decreases n,
{
    if n > 0 {
        lemma_upto_all_off(els, sema, config, n - 1);
        assert(node_hints(els, sema, config, n - 1) =~= Seq::<PendingView>::empty());
    }
}

/// The hints of the first `m` elements open the hints of the first `n`, for
/// `m <= n`.
pub proof fn lemma_hints_grow(
    els: Seq<ElementView>,
    sema: SemanticsView,
    config: InlayHintsConfig,
    m: int,
    n: int,
)
    requires
        m <= n,
    ensures
        hints_upto(els, sema, config, m).is_prefix_of(hints_upto(els, sema, config, n)),
    decreases n - m,
{
    if m < n {
        lemma_hints_grow(els, sema, config, m, n - 1);
    }
}

/// A node's span holds the span of whatever lies below the node.
pub proof fn lemma_span_nests(els: Seq<ElementView>, outer: int, inner: int)
    requires
        well_formed(els),
        is_below(els, outer, inner),
    ensures
        els[outer].range.covers(els[inner].range),
    decreases inner,
{
    lemma_below_is_after(els, outer, inner);
    assert(well_placed(els, inner));
    let p = els[inner].parent->0;
    if p != outer {
        lemma_span_nests(els, outer, p);
    }
}

/// The hints of a node come before the hints of what lies below it, and the
/// node's span holds the spans below it: of two hints on nested expressions
/// of a chain, the one with the wider span is first.
pub proof fn lemma_outer_before_inner(
    els: Seq<ElementView>,
    sema: SemanticsView,
    config: InlayHintsConfig,
    outer: int,
    inner: int,
)
    requires
        well_formed(els),
        0 <= outer,
        is_below(els, outer, inner),
    ensures
        outer < inner < els.len(),
        els[outer].range.covers(els[inner].range),
        (hints_upto(els, sema, config, outer) + node_hints(els, sema, config, outer)).is_prefix_of(
            hints_upto(els, sema, config, inner),
        ),
        (hints_upto(els, sema, config, inner) + node_hints(els, sema, config, inner)).is_prefix_of(
            hints_of(els, sema, config),
        ),
{
    lemma_below_is_after(els, outer, inner);
    lemma_span_nests(els, outer, inner);
    lemma_hints_grow(els, sema, config, outer + 1, inner);
    lemma_hints_grow(els, sema, config, inner + 1, els.len() as int);
}

/// Whether `hint` is on an element of the tree: its span is the element's.
pub open spec fn on_element(els: Seq<ElementView>, hint: PendingView) -> bool {
    exists|node: int| 0 <= node < els.len() && (#[trigger] els[node]).range == hint.range
}

/// Whether every hint in `hints` is on an element of the tree.
pub open spec fn all_on_elements(els: Seq<ElementView>, hints: Seq<PendingView>) -> bool {
    forall|i: int| 0 <= i < hints.len() ==> on_element(els, #[trigger] hints[i])
}

/// A parameter hint is on an argument of the call.
proof fn lemma_param_hints_on_elements(
    els: Seq<ElementView>,
    sema: SemanticsView,
    callable: CallableView,
    list: int,
    k: int,
)
    requires
        k <= children(els, list, Shape::AnyExpr).len(),
    ensures
        all_on_elements(
            els,
            param_hints_upto(els, sema, callable, children(els, list, Shape::AnyExpr), k),
        ),
    decreases k,
{
    if k > 0 {
        lemma_param_hints_on_elements(els, sema, callable, list, k - 1);
        lemma_children_in_tree(els, list, Shape::AnyExpr, 0, k - 1);
        let arg = children(els, list, Shape::AnyExpr)[k - 1];
        assert(els[arg].range == els[arg].range);
    }
}

/// The hints of the first `n` elements are on elements of the tree.
proof fn lemma_upto_on_elements(
    els: Seq<ElementView>,
    sema: SemanticsView,
    config: InlayHintsConfig,
    n: int,
)
    requires
        n <= els.len(),
    ensures
        all_on_elements(els, hints_upto(els, sema, config, n)),
    decreases n,
{
    if n > 0 {
        lemma_upto_on_elements(els, sema, config, n - 1);
        let i = n - 1;
        assert(els[i].range == els[i].range);
        assert(all_on_elements(els, chaining_hints(els, sema, config, i)));
        assert(all_on_elements(els, bind_hints(els, sema, config, i)));
        assert(all_on_elements(els, param_hints(els, sema, config, i))) by {
            match first_child(els, i, Shape::Kind(SyntaxKind::ArgList)) {
                Some(list) => match callable_of(els, sema, i) {
                    Some(callable) => {
                        let args = children(els, list, Shape::AnyExpr);
                        lemma_param_hints_on_elements(
                            els,
                            sema,
                            callable,
                            list,
                            shorter(callable.params.len(), args.len()),
                        );
                    },
                    None => {},
                },
                None => {},
            }
        }
    }
}

/// Every hint of a file is on an element of the file's tree: a type hint on
/// the binding, a chaining hint on the expression, a parameter hint on the
/// argument.
pub proof fn lemma_hints_are_on_elements(
    els: Seq<ElementView>,
    sema: SemanticsView,
    config: InlayHintsConfig,
)
    ensures
        all_on_elements(els, hints_of(els, sema, config)),
{
    lemma_upto_on_elements(els, sema, config, els.len() as int);
}

/// Whether the label asks for a type to be rendered within `budget`, or
/// asks for nothing.
pub open spec fn asks_within(label: LabelView, budget: Option<usize>) -> bool {
    match label {
        LabelView::Name(_) => true,
        LabelView::Type { max_length, .. } => max_length == budget,
        LabelView::IteratorItem { max_length, .. } => max_length == item_budget(budget),
    }
}

/// Whether every label in `hints` asks within `budget`.
pub open spec fn all_ask_within(hints: Seq<PendingView>, budget: Option<usize>) -> bool {
    forall|i: int| 0 <= i < hints.len() ==> asks_within((#[trigger] hints[i]).label, budget)
}

/// A parameter hint asks for no type.
proof fn lemma_param_hints_ask(
    els: Seq<ElementView>,
    sema: SemanticsView,
    callable: CallableView,
    args: Seq<int>,
    k: int,
    budget: Option<usize>,
)
    ensures
        all_ask_within(param_hints_upto(els, sema, callable, args, k), budget),
    decreases k,
{
    if k > 0 {
        lemma_param_hints_ask(els, sema, callable, args, k - 1, budget);
    }
}

/// The hints of the first `n` elements ask within the configured maximum.
proof fn lemma_upto_asks(els: Seq<ElementView>, sema: SemanticsView, config: InlayHintsConfig, n: int)
    ensures
        all_ask_within(hints_upto(els, sema, config, n), config.max_length),
    decreases n,
{
    if n > 0 {
        lemma_upto_asks(els, sema, config, n - 1);
        let budget = config.max_length;
        assert(all_ask_within(chaining_hints(els, sema, config, n - 1), budget));
        assert(all_ask_within(bind_hints(els, sema, config, n - 1), budget));
        assert(all_ask_within(param_hints(els, sema, config, n - 1), budget)) by {
            match callable_of(els, sema, n - 1) {
                Some(callable) => {
                    assert forall|args: Seq<int>, k: int|
                        all_ask_within(
                            #[trigger] param_hints_upto(els, sema, callable, args, k),
                            budget,
                        ) by {
                        lemma_param_hints_ask(els, sema, callable, args, k, budget);
                    }
                },
                None => {},
            }
        }
    }
}

/// Every type is asked for within the configured maximum, and the item of an
/// iterator within what the maximum leaves beside the words around it.
pub proof fn lemma_labels_ask_within_max(
    els: Seq<ElementView>,
    sema: SemanticsView,
    config: InlayHintsConfig,
)
    ensures
        all_ask_within(hints_of(els, sema, config), config.max_length),
{
    lemma_upto_asks(els, sema, config, els.len() as int);
}

/// Whether a label, finished with `rendered`, can be held to a maximum of
/// `max`: a name is no longer than `max`; a type was rendered within the
/// length asked for; and so was the item of an iterator, and `max` has room
/// for the words around it.
pub open spec fn kept_within(label: LabelView, rendered: Seq<char>, max: usize) -> bool {
    match label {
        LabelView::Name(name) => name.len() <= max,
        LabelView::Type { max_length, .. } => max_length matches Some(asked) ==> rendered.len()
            <= asked,
        LabelView::IteratorItem { max_length, .. } => max >= ITERATOR_LABEL_OVERHEAD && (
        max_length matches Some(asked) ==> rendered.len() <= asked),
    }
}

/// With a maximum length set, no finished label is longer than it, as far as
/// that is in the engine's hands: the semantic engine has to keep to the
/// length it is asked for. A name is never cut short, and the words around
/// the item of an iterator are never dropped, so a name longer than the
/// maximum and an iterator label under a maximum that is less than those
/// words are left out.
pub proof fn lemma_label_within_max(
    els: Seq<ElementView>,
    sema: SemanticsView,
    config: InlayHintsConfig,
    max: usize,
    i: int,
    rendered: Seq<char>,
)
    requires
        config.max_length == Some(max),
        0 <= i < hints_of(els, sema, config).len(),
        kept_within(hints_of(els, sema, config)[i].label, rendered, max),
    ensures
        finished(hints_of(els, sema, config)[i], rendered).label.len() <= max,
{
    lemma_labels_ask_within_max(els, sema, config);
    let label = hints_of(els, sema, config)[i].label;
    assert(asks_within(label, config.max_length));
    lemma_iterator_label_len(rendered);
}

} // verus!
