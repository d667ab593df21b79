//! The hints the engine produces.

use vstd::prelude::*;
use crate::label::{label_text, Label, LabelView};

verus! {

/// What a hint tells the reader. The engine treats all kinds alike; the kind is
/// carried to the editor, which may style each differently.
#[derive(Clone, Copy, Debug, PartialEq, Eq, Structural)]
pub enum InlayKind {
    TypeHint,
    ParameterHint,
    ChainingHint,
}

/// A half-open span of byte offsets into the text of a file.
#[derive(Clone, Copy, Debug, PartialEq, Eq, Structural)]
pub struct TextRange {
    pub start: u32,
    pub end: u32,
}

impl TextRange {
    /// A span is valid when it does not end before it starts.
    pub open spec fn is_valid(self) -> bool {
        self.start <= self.end
    }

    /// Whether every offset of `inner` lies in `self`.
    pub open spec fn covers(self, inner: TextRange) -> bool {
        self.start <= inner.start && inner.end <= self.end
    }

    /// The span from `start` to `end`.
    pub fn new(start: u32, end: u32) -> (range: TextRange)
        requires
            start <= end,
        ensures
            range.start == start,
            range.end == end,
            range.is_valid(),
    {
        TextRange { start, end }
    }

    /// Whether every offset of `inner` lies in `self`.
    pub fn contains_range(&self, inner: &TextRange) -> (b: bool)
        ensures
            b == self.covers(*inner),
    {
        self.start <= inner.start && inner.end <= self.end
    }
}

/// A read-only label attached to a span of the text.
#[derive(Debug)]
pub struct InlayHint {
    pub range: TextRange,
    pub kind: InlayKind,
    pub label: String,
}

/// The mathematical value of a hint: its label as a sequence of characters.
pub struct HintView {
    pub range: TextRange,
    pub kind: InlayKind,
    pub label: Seq<char>,
}

impl View for InlayHint {
    type V = HintView;

    open spec fn view(&self) -> HintView {
        HintView { range: self.range, kind: self.kind, label: self.label@ }
    }
}

/// A hint whose label may still have to be rendered. The engine decides where
/// a hint goes and what it shows; the text of a type comes from the semantic
/// engine, which is asked for it with the length that the label leaves.
#[derive(Debug)]
pub struct PendingHint {
    pub range: TextRange,
    pub kind: InlayKind,
    pub label: Label,
}

/// The mathematical value of a pending hint.
pub struct PendingView {
    pub range: TextRange,
    pub kind: InlayKind,
    pub label: LabelView,
}

impl View for PendingHint {
    type V = PendingView;

    open spec fn view(&self) -> PendingView {
        PendingView { range: self.range, kind: self.kind, label: self.label@ }
    }
}

/// The hint that `pending` becomes once `rendered` is what the semantic
/// engine gave for its label.
pub open spec fn finished(pending: PendingView, rendered: Seq<char>) -> HintView {
    HintView {
        range: pending.range,
        kind: pending.kind,
        label: label_text(pending.label, rendered),
    }
}

impl PendingHint {
    /// The hint with its label written out. `rendered` is what the semantic
    /// engine gave for the type that the label asks for; a label that is a
    /// name asks for nothing and makes no use of it.
    pub fn finish(self, rendered: &str) -> (hint: InlayHint)
        ensures
            hint@ == finished(self@, rendered@),
    {
        let label = self.label.text(rendered);
        InlayHint { range: self.range, kind: self.kind, label }
    }
}

/// The values of a list of pending hints, in order.
pub open spec fn pending_views(hints: Seq<PendingHint>) -> Seq<PendingView> {
    hints.map_values(|h: PendingHint| h@)
}

/// Appending one hint to a list appends its value to the list's values.
pub proof fn lemma_pending_views_push(hints: Seq<PendingHint>, hint: PendingHint)
    ensures
        pending_views(hints.push(hint)) == pending_views(hints).push(hint@),
{
    assert(pending_views(hints.push(hint)) =~= pending_views(hints).push(hint@));
}

} // verus!
