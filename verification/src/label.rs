//! The label of a hint.
//!
//! A parameter hint shows the parameter's name. A type hint shows the type
//! as the semantic engine renders it within a given length, with one
//! exception: an iterator type of the core library is shown by what it
//! yields, since the names of such types grow with every adapter put around
//! them.

use vstd::prelude::*;
use vstd::string::StringExecFns;
use crate::config::InlayHintsConfig;
use crate::semantics::{TypeInfo, TypeInfoView};
use crate::text::{chars_eq, chars_of};

verus! {

/// The crate whose iterator types are shown by what they yield.
pub const CORE_CRATE: &'static str = "core";

/// Number of characters that the words around the item of an iterator label take.
pub const ITERATOR_LABEL_OVERHEAD: usize = 22;

/// What the label of a hint is made of.
#[derive(Debug)]
pub enum Label {
    /// A name, shown as it is.
    Name(String),
    /// The type of the element at `node`, to be rendered in at most
    /// `max_length` characters.
    Type { node: usize, max_length: Option<usize> },
    /// The words `impl Iterator<Item = ` and `>` around the item type of the
    /// iterator that the element at `node` is, to be rendered in at most
    /// `max_length` characters.
    IteratorItem { node: usize, max_length: Option<usize> },
}

/// The mathematical value of a label.
pub enum LabelView {
    Name(Seq<char>),
    Type { node: int, max_length: Option<usize> },
    IteratorItem { node: int, max_length: Option<usize> },
}

impl View for Label {
    type V = LabelView;

    open spec fn view(&self) -> LabelView {
        match self {
            Label::Name(name) => LabelView::Name(name@),
            Label::Type { node, max_length } => LabelView::Type {
                node: *node as int,
                max_length: *max_length,
            },
            Label::IteratorItem { node, max_length } => LabelView::IteratorItem {
                node: *node as int,
                max_length: *max_length,
            },
        }
    }
}

/// The label of an iterator that yields `item`.
pub open spec fn iterator_label(item: Seq<char>) -> Seq<char> {
    "impl Iterator<Item = "@ + item + ">"@
}

/// The label of an iterator is its item and `ITERATOR_LABEL_OVERHEAD`
/// characters more.
pub proof fn lemma_iterator_label_len(item: Seq<char>)
    ensures
        iterator_label(item).len() == item.len() + ITERATOR_LABEL_OVERHEAD,
{
    reveal_strlit("impl Iterator<Item = ");
    reveal_strlit(">");
}

/// The text of a label, where `rendered` is what the semantic engine gave
/// for the type that the label asks for.
pub open spec fn label_text(label: LabelView, rendered: Seq<char>) -> Seq<char> {
    match label {
        LabelView::Name(name) => name,
        LabelView::Type { .. } => rendered,
        LabelView::IteratorItem { .. } => iterator_label(rendered),
    }
}

/// The length that is left for the item of an iterator label: the maximum
/// less the words around the item, and not below zero.
pub open spec fn item_budget(max_length: Option<usize>) -> Option<usize> {
    match max_length {
        Some(len) => Some(
            if len >= ITERATOR_LABEL_OVERHEAD {
                (len - ITERATOR_LABEL_OVERHEAD) as usize
            } else {
                0usize
            },
        ),
        None => None,
    }
}

/// Whether `ty` is shown as an iterator: the type under its reference layers
/// is nominal and defined in the crate `core`, that crate exports `Iterator`
/// from its `iter` module, the type implements it, and its `Item` is
/// resolved.
pub open spec fn shown_as_iterator(ty: TypeInfoView) -> bool {
    match ty.iterator {
        Some(facts) => facts.crate_name == Some(CORE_CRATE@) && facts.trait_is_public
            && facts.implemented && facts.item_resolved,
        None => false,
    }
}

/// The label of a hint that shows `ty`, the type of the element at `node`:
/// the item of an iterator of the core library, rendered within what the
/// configured maximum leaves beside the words around it; any other type
/// itself, rendered within the configured maximum.
pub open spec fn label_of(config: InlayHintsConfig, ty: TypeInfoView, node: int) -> LabelView {
    if shown_as_iterator(ty) {
        LabelView::IteratorItem { node, max_length: item_budget(config.max_length) }
    } else {
        LabelView::Type { node, max_length: config.max_length }
    }
}

impl Label {
    /// The text of the label, where `rendered` is what the semantic engine
    /// gave for the type that the label asks for.
    pub fn text(self, rendered: &str) -> (text: String)
        ensures
            text@ == label_text(self@, rendered@),
    {
        match self {
            Label::Name(name) => name,
            Label::Type { .. } => rendered.to_owned(),
            Label::IteratorItem { .. } => {
                let mut label = "impl Iterator<Item = ".to_owned();
                label.append(rendered);
                label.append(">");
                label
            },
        }
    }
}

/// The length within which the item of an iterator label is to be rendered.
pub fn item_max_length(config: &InlayHintsConfig) -> (budget: Option<usize>)
    ensures
        budget == item_budget(config.max_length),
{
    match config.max_length {
        Some(len) => Some(
            if len >= ITERATOR_LABEL_OVERHEAD {
                len - ITERATOR_LABEL_OVERHEAD
            } else {
                0
            },
        ),
        None => None,
    }
}

/// The label `impl Iterator<Item = ..>` for an iterator type of the core
/// library, the type of the element at `node`; `None` for any other type.
pub fn hint_iterator(config: &InlayHintsConfig, ty: &TypeInfo, node: usize) -> (label: Option<
    Label,
>)
    ensures
        match label {
            Some(l) => shown_as_iterator(ty@) && l@ == (LabelView::IteratorItem {
                node: node as int,
                max_length: item_budget(config.max_length),
            }),
            None => !shown_as_iterator(ty@),
        },
{
    let facts = match &ty.iterator {
        Some(facts) => facts,
        None => {
            return None;
        },
    };
    let in_core = match &facts.crate_name {
        Some(name) => {
            let name = chars_of(name.as_str());
            let core = chars_of(CORE_CRATE);
            chars_eq(name.as_slice(), core.as_slice())
        },
        None => false,
    };
    if !in_core || !facts.trait_is_public || !facts.implemented || !facts.item_resolved {
        return None;
    }
    Some(Label::IteratorItem { node, max_length: item_max_length(config) })
}

/// The label of a hint that shows `ty`, the type of the element at `node`.
pub fn type_label(config: &InlayHintsConfig, ty: &TypeInfo, node: usize) -> (label: Label)
    ensures
        label@ == label_of(*config, ty@, node as int),
{
    match hint_iterator(config, ty, node) {
        Some(label) => label,
        None => Label::Type { node, max_length: config.max_length },
    }
}

} // verus!
