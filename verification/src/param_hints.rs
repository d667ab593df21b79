//! Parameter names on the arguments of a call.
//!
//! Each argument of a call is labelled with the name of the parameter it is
//! passed for, unless the call already tells the reader as much.

use vstd::prelude::*;
use crate::config::InlayHintsConfig;
use crate::hint::{lemma_pending_views_push, pending_views, InlayKind, PendingHint, PendingView};
use crate::label::{Label, LabelView};
use crate::semantics::{
    option_view, Adt, AdtView, Callable, CallableView, ParamPattern, ParamPatternView, Semantics,
    SemanticsView,
};
use crate::snake_case::{lower_snake_case, to_lower_snake_case};
use crate::syntax::{
    children, children_from, first_child, is_child, lemma_found_in_tree, text_of, ElementView,
    Shape, SyntaxKind,
};
use crate::text::{chars_eq, chars_of, ends_with, starts_with, strip_underscore, stripped};
use crate::tree::{positions, SyntaxTree};

verus! {

/// How the names of the parameters begin that take the text of a test
/// fixture. Such a parameter is never labelled.
pub const FIXTURE_MARKER: &'static str = "ra_fixture";

/// Names that say nothing of a parameter where it is the only one.
pub const OBVIOUS_WORDS: [&'static str; 5] = ["predicate", "value", "pat", "rhs", "other"];

/// Whether a parameter of this name needs no label where it is the only one:
/// a single character, or one of the obvious words.
pub open spec fn is_obvious(param: Seq<char>) -> bool {
    param.len() == 1 || exists|i: int|
        0 <= i < OBVIOUS_WORDS@.len() && (#[trigger] OBVIOUS_WORDS@[i])@ == param
}

/// Whether the first parameter repeats the name of the function: the function
/// is called as the parameter, or its name ends in `_` and the parameter's
/// name.
pub open spec fn similar_to_fn_name(param: Seq<char>, position: int, fn_name: Option<Seq<char>>) -> bool {
    position == 0 && match fn_name {
        Some(function) => function == param || (seq!['_'] + param).is_suffix_of(function),
        None => false,
    }
}

/// Whether the text that stands for an argument, as it is written, begins or
/// ends with the parameter's name.
pub open spec fn text_similar(repr: Option<Seq<char>>, param: Seq<char>) -> bool {
    match repr {
        Some(text) => param.is_prefix_of(text) || param.is_suffix_of(text),
        None => false,
    }
}

/// The text that stands for the argument at `arg` when it is compared with a
/// parameter's name: the method's name for a method call, what is borrowed
/// for a borrow, the source text for anything else.
pub open spec fn argument_text(els: Seq<ElementView>, arg: int) -> Option<Seq<char>>
    decreases els.len() - arg,
{
    if !(0 <= arg < els.len()) {
        None
    } else if els[arg].kind == SyntaxKind::MethodCallExpr {
        match first_child(els, arg, Shape::Kind(SyntaxKind::NameRef)) {
            Some(name) => Some(text_of(els, name)),
            None => None,
        }
    } else if els[arg].kind == SyntaxKind::RefExpr {
        match first_child(els, arg, Shape::AnyExpr) {
            Some(inner) => {
                proof {
                    lemma_found_in_tree(els, arg, Shape::AnyExpr, 0);
                }
                argument_text(els, inner)
            },
            None => None,
        }
    } else {
        Some(text_of(els, arg))
    }
}

/// Whether the argument at `arg` is of an enum type whose name, put in lower
/// snake case, is the parameter's name.
pub open spec fn enum_name_similar(sema: SemanticsView, arg: int, param: Seq<char>) -> bool {
    match sema.type_at(arg) {
        Some(ty) => match ty.adt {
            Some(AdtView::Enum { name, variants }) => lower_snake_case(name) == param,
            _ => false,
        },
        None => false,
    }
}

/// Whether the argument at `arg` already says what the parameter is called.
pub open spec fn argument_similar(els: Seq<ElementView>, sema: SemanticsView, arg: int, param: Seq<char>) -> bool {
    enum_name_similar(sema, arg, param) || text_similar(argument_text(els, arg), param)
}

/// Whether the argument at `arg` is labelled with `param_name`, the name of
/// the parameter it is passed for, which is number `position` among the named
/// parameters of `callable`.
///
/// With one leading underscore dropped from the name, a label is withheld if
/// the name is empty, is the name of the callee (one leading underscore
/// dropped there too), is said by the argument (whose text is taken as it is
/// written), repeats the callee's name in first position, or begins with
/// `ra_fixture`; and if the callable has one parameter and the name is
/// obvious.
pub open spec fn show_param_hint(
    els: Seq<ElementView>,
    sema: SemanticsView,
    callable: CallableView,
    param_name: Seq<char>,
    position: int,
    arg: int,
) -> bool {
    let param = stripped(param_name);
    let named_as_callee = match callable.name() {
        Some(function) => stripped(function) == param,
        None => false,
    };
    !(param.len() == 0 || named_as_callee || argument_similar(els, sema, arg, param)
        || similar_to_fn_name(param, position, callable.name()) || FIXTURE_MARKER@.is_prefix_of(
        param,
    )) && !(callable.params.len() == 1 && is_obvious(param))
}

/// What is called by the call at `call`: for a call, what the type of the
/// callee calls; for a method call, what the method resolves to.
pub open spec fn callable_of(els: Seq<ElementView>, sema: SemanticsView, call: int) -> Option<
    CallableView,
> {
    match els[call].kind {
        SyntaxKind::CallExpr => match first_child(els, call, Shape::AnyExpr) {
            Some(callee) => match sema.type_at(callee) {
                Some(ty) => ty.callable,
                None => None,
            },
            None => None,
        },
        SyntaxKind::MethodCallExpr => sema.method_call_at(call),
        _ => None,
    }
}

/// The name by which a parameter can be labelled: the receiver's text, or
/// the identifier that the parameter's pattern binds.
pub open spec fn label_name(param: Option<ParamPatternView>) -> Option<Seq<char>> {
    match param {
        Some(ParamPatternView::Receiver { text }) => Some(text),
        Some(ParamPatternView::Ident { name: Some(name) }) => Some(name),
        _ => None,
    }
}

/// How many of the first `k` parameters can be labelled.
pub open spec fn named_before(params: Seq<Option<ParamPatternView>>, k: int) -> nat
    decreases k,
{
    if k <= 0 {
        0
    } else if k <= params.len() && label_name(params[k - 1]) is Some {
        named_before(params, k - 1) + 1
    } else {
        named_before(params, k - 1)
    }
}

/// The hints on the first `k` of the arguments `args` of a call of `callable`.
/// Parameters and arguments are paired by position; a parameter that cannot
/// be labelled is left out and not counted.
pub open spec fn param_hints_upto(
    els: Seq<ElementView>,
    sema: SemanticsView,
    callable: CallableView,
    args: Seq<int>,
    k: int,
) -> Seq<PendingView>
    decreases k,
{
    if k <= 0 {
        Seq::empty()
    } else {
        let rest = param_hints_upto(els, sema, callable, args, k - 1);
        match label_name(callable.params[k - 1]) {
            Some(name) => if show_param_hint(
                els,
                sema,
                callable,
                name,
                named_before(callable.params, k - 1) as int,
                args[k - 1],
            ) {
                rest.push(
                    PendingView {
                        range: els[args[k - 1]].range,
                        kind: InlayKind::ParameterHint,
                        label: LabelView::Name(name),
                    },
                )
            } else {
                rest
            },
            None => rest,
        }
    }
}

/// The smaller of two lengths.
pub open spec fn shorter(a: nat, b: nat) -> int {
    if a <= b {
        a as int
    } else {
        b as int
    }
}

/// The parameter hints of the call at `call`: none if the call has no
/// argument list or what it calls is not resolved; else one for each
/// argument that has a parameter and is to be labelled, in order.
pub open spec fn param_hints(
    els: Seq<ElementView>,
    sema: SemanticsView,
    config: InlayHintsConfig,
    call: int,
) -> Seq<PendingView> {
    if !config.parameter_hints {
        Seq::empty()
    } else {
        match first_child(els, call, Shape::Kind(SyntaxKind::ArgList)) {
            Some(list) => match callable_of(els, sema, call) {
                Some(callable) => {
                    let args = children(els, list, Shape::AnyExpr);
                    param_hints_upto(
                        els,
                        sema,
                        callable,
                        args,
                        shorter(callable.params.len(), args.len()),
                    )
                },
                None => Seq::empty(),
            },
            None => Seq::empty(),
        }
    }
}

/// Every child found is an element of the tree.
pub proof fn lemma_children_in_tree(els: Seq<ElementView>, p: int, shape: Shape, from: int, k: int)
    requires
        0 <= k < children_from(els, p, shape, from).len(),
    ensures
        from <= children_from(els, p, shape, from)[k] < els.len(),
        is_child(els, p, children_from(els, p, shape, from)[k]),
    decreases els.len() - from,
{
    if from < els.len() {
        if is_child(els, p, from) && shape.admits(els[from]) {
            if k > 0 {
                lemma_children_in_tree(els, p, shape, from + 1, k - 1);
            }
        } else {
            lemma_children_in_tree(els, p, shape, from + 1, k);
        }
    }
}

/// Whether a parameter of this name needs no label where it is the only one.
pub fn is_obvious_param(param_name: &str) -> (obvious: bool)
    ensures
        obvious == is_obvious(param_name@),
{
    let name = chars_of(param_name);
    if name.len() == 1 {
        return true;
    }
    let mut i: usize = 0;
    while i < OBVIOUS_WORDS.len()
        invariant
            i <= OBVIOUS_WORDS@.len(),
            name@ == param_name@,
            forall|k: int| 0 <= k < i ==> (#[trigger] OBVIOUS_WORDS@[k])@ != name@,
        decreases OBVIOUS_WORDS@.len() - i,
    {
        let word = chars_of(OBVIOUS_WORDS[i]);
        if chars_eq(name.as_slice(), word.as_slice()) {
            return true;
        }
        i += 1;
    }
    false
}

/// Whether the parameter repeats the name of the function it is the first
/// parameter of.
pub fn is_param_name_similar_to_fn_name(
    param_name: &str,
    param_num: usize,
    fn_name: Option<&String>,
) -> (similar: bool)
    ensures
        similar == similar_to_fn_name(param_name@, param_num as int, option_view(fn_name)),
{
    // Only the first parameter is withheld, if it is called as the function
    // or the function's name ends in `_` and the parameter's name.
    match fn_name {
        Some(function) if param_num == 0 => {
            let function = chars_of(function.as_str());
            let param = chars_of(param_name);
            if chars_eq(function.as_slice(), param.as_slice()) {
                return true;
            }
            if function.len() <= param.len() {
                return false;
            }
            let cut = function.len() - param.len();
            let similar = function[cut - 1] == '_' && ends_with(
                function.as_slice(),
                param.as_slice(),
            );
            proof {
                let tail = seq!['_'] + param@;
                let end = function@.len() as int;
                if similar {
                    assert(function@.subrange(end - tail.len(), end) =~= tail);
                }
                if tail.is_suffix_of(function@) {
                    assert(function@[cut - 1] == tail[0]);
                    assert(function@.subrange(cut as int, end) =~= param@) by {
                        assert forall|i: int| 0 <= i < param@.len() implies function@.subrange(
                            cut as int,
                            end,
                        )[i] == param@[i] by {
                            assert(function@.subrange(end - tail.len(), end)[i + 1] == tail[i + 1]);
                        }
                    }
                }
            }
            similar
        },
        _ => false,
    }
}

/// The text that stands for the argument at `expr` when it is compared with a
/// parameter's name.
pub fn get_string_representation(tree: &SyntaxTree, expr: usize) -> (repr: Option<String>)
    requires
        expr < tree@.len(),
    ensures
        match repr {
            Some(text) => argument_text(tree@, expr as int) == Some(text@),
            None => argument_text(tree@, expr as int) is None,
        },
    decreases tree@.len() - expr,
{
    match tree.kind(expr) {
        SyntaxKind::MethodCallExpr => {
            match tree.first_child(expr, Shape::Kind(SyntaxKind::NameRef)) {
                Some(name) => {
                    proof {
                        lemma_found_in_tree(
                            tree@,
                            expr as int,
                            Shape::Kind(SyntaxKind::NameRef),
                            0,
                        );
                    }
                    Some(tree.text_of(name))
                },
                None => None,
            }
        },
        SyntaxKind::RefExpr => {
            match tree.first_child(expr, Shape::AnyExpr) {
                Some(inner) => {
                    proof {
                        lemma_found_in_tree(tree@, expr as int, Shape::AnyExpr, 0);
                    }
                    get_string_representation(tree, inner)
                },
                None => None,
            }
        },
        _ => Some(tree.text_of(expr)),
    }
}

/// Whether an enum type's name in lower snake case is the parameter's name.
pub fn snake_name_is(snake_name: &str, param_name: &str) -> (same: bool)
    ensures
        same == (snake_name@ == param_name@),
{
    chars_eq(chars_of(snake_name).as_slice(), chars_of(param_name).as_slice())
}

/// Whether the argument at `argument` is of an enum type whose name, put in
/// lower snake case, is the parameter's name.
pub fn is_enum_name_similar_to_param_name(
    sema: &Semantics,
    argument: usize,
    param_name: &str,
) -> (similar: bool)
    ensures
        similar == enum_name_similar(sema@, argument as int, param_name@),
{
    match sema.type_of(argument) {
        Some(ty) => match &ty.adt {
            Some(Adt::Enum { name, variants }) => {
                let snake_name = to_lower_snake_case(name.as_str());
                snake_name_is(snake_name.as_str(), param_name)
            },
            _ => false,
        },
        None => false,
    }
}

/// Whether the argument at `argument` already says what the parameter is
/// called.
pub fn is_argument_similar_to_param_name(
    tree: &SyntaxTree,
    sema: &Semantics,
    argument: usize,
    param_name: &str,
) -> (similar: bool)
    requires
        argument < tree@.len(),
    ensures
        similar == argument_similar(tree@, sema@, argument as int, param_name@),
{
    if is_enum_name_similar_to_param_name(sema, argument, param_name) {
        return true;
    }
    match get_string_representation(tree, argument) {
        None => false,
        Some(repr) => {
            let argument_string = chars_of(repr.as_str());
            let param = chars_of(param_name);
            starts_with(argument_string.as_slice(), param.as_slice()) || ends_with(
                argument_string.as_slice(),
                param.as_slice(),
            )
        },
    }
}

/// Whether the argument at `argument` is labelled with `param_name`.
pub fn should_show_param_name_hint(
    tree: &SyntaxTree,
    sema: &Semantics,
    callable: &Callable,
    param_name: &str,
    param_num: usize,
    argument: usize,
) -> (show: bool)
    requires
        argument < tree@.len(),
    ensures
        show == show_param_hint(
            tree@,
            sema@,
            callable@,
            param_name@,
            param_num as int,
            argument as int,
        ),
{
    let param_name = strip_underscore(param_name);
    let param = chars_of(param_name);
    let fn_name = callable.fn_name();
    let named_as_callee = match fn_name {
        Some(function) => {
            let function = chars_of(strip_underscore(function.as_str()));
            chars_eq(function.as_slice(), param.as_slice())
        },
        None => false,
    };
    if param.len() == 0 || named_as_callee || is_argument_similar_to_param_name(
        tree,
        sema,
        argument,
        param_name,
    ) || is_param_name_similar_to_fn_name(param_name, param_num, fn_name) || starts_with(
        param.as_slice(),
        chars_of(FIXTURE_MARKER).as_slice(),
    ) {
        return false;
    }
    // No label for the one parameter of `map`, `filter` and the like, nor
    // for other words that say nothing.
    !(callable.params.len() == 1 && is_obvious_param(param_name))
}

/// What is called by the call at `expr`.
pub fn get_callable<'a>(tree: &SyntaxTree, sema: &'a Semantics, expr: usize) -> (callable: Option<
    &'a Callable,
>)
    requires
        expr < tree@.len(),
    ensures
        option_view(callable) == callable_of(tree@, sema@, expr as int),
{
    match tree.kind(expr) {
        SyntaxKind::CallExpr => {
            let callee = match tree.first_child(expr, Shape::AnyExpr) {
                Some(callee) => callee,
                None => {
                    return None;
                },
            };
            match sema.type_of(callee) {
                Some(ty) => match &ty.callable {
                    Some(c) => Some(c),
                    None => None,
                },
                None => None,
            }
        },
        SyntaxKind::MethodCallExpr => sema.method_call(expr),
        _ => None,
    }
}

/// The name by which a parameter can be labelled.
fn param_label(param: &Option<ParamPattern>) -> (name: Option<&String>)
    ensures
        option_view(name) == label_name(option_view(*param)),
{
    match param {
        Some(ParamPattern::Receiver { text }) => Some(text),
        Some(ParamPattern::Ident { name: Some(name) }) => Some(name),
        _ => None,
    }
}

/// Appends the parameter hints of the call at `expr`.
pub fn get_param_name_hints(
    acc: &mut Vec<PendingHint>,
    tree: &SyntaxTree,
    sema: &Semantics,
    config: &InlayHintsConfig,
    expr: usize,
)
    requires
        expr < tree@.len(),
    ensures
        pending_views(final(acc)@) == pending_views(old(acc)@) + param_hints(
            tree@,
            sema@,
            *config,
            expr as int,
        ),
{
    if !config.parameter_hints {
        return ;
    }
    let list = match tree.first_child(expr, Shape::Kind(SyntaxKind::ArgList)) {
        Some(list) => list,
        None => {
            return ;
        },
    };
    let callable = match get_callable(tree, sema, expr) {
        Some(callable) => callable,
        None => {
            return ;
        },
    };
    let args = tree.children(list, Shape::AnyExpr);
    let ghost arg_positions = children(tree@, list as int, Shape::AnyExpr);
    let count = if callable.params.len() <= args.len() {
        callable.params.len()
    } else {
        args.len()
    };
    let mut position: usize = 0;
    let mut k: usize = 0;
    while k < count
        invariant
            k <= count,
            count <= args.len(),
            count <= callable.params.len(),
            position <= k,
            position == named_before(callable@.params, k as int),
            positions(args@) == arg_positions,
            arg_positions == children(tree@, list as int, Shape::AnyExpr),
            pending_views(acc@) == pending_views(old(acc)@) + param_hints_upto(
                tree@,
                sema@,
                callable@,
                arg_positions,
                k as int,
            ),
        decreases count - k,
    {
        let arg = args[k];
        proof {
            assert(positions(args@)[k as int] == arg);
            lemma_children_in_tree(tree@, list as int, Shape::AnyExpr, 0, k as int);
        }
        if let Some(name) = param_label(&callable.params[k]) {
            if should_show_param_name_hint(tree, sema, callable, name.as_str(), position, arg) {
                let hint = PendingHint {
                    range: tree.range(arg),
                    kind: InlayKind::ParameterHint,
                    label: Label::Name(name.clone()),
                };
                proof {
                    lemma_pending_views_push(acc@, hint);
                }
                acc.push(hint);
            }
            position += 1;
        }
        k += 1;
    }
}

} // verus!
