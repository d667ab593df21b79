//! What the semantic engine knows about the elements of a tree.
//!
//! The engine that infers types and resolves calls is not part of this
//! library. Its answers are handed in as plain values, keyed by the position
//! of the element they are about.

use vstd::prelude::*;

verus! {

/// A nominal type, as far as hints depend on it.
#[derive(Debug)]
pub enum Adt {
    Struct { name: String, fields: usize },
    Enum { name: String, variants: Vec<String> },
    Union,
}

/// What is known of a type with regard to the `Iterator` trait. Present for a
/// type that is nominal once all its reference layers are removed.
#[derive(Debug)]
pub struct IteratorFacts {
    /// The declared name of the crate that defines that nominal type, if it has one.
    pub crate_name: Option<String>,
    /// Whether that crate has an `iter` module in which `Iterator` is public.
    pub trait_is_public: bool,
    /// Whether the type, with its reference layers, implements that trait.
    pub implemented: bool,
    /// Whether the trait's `Item` for this type can be resolved.
    pub item_resolved: bool,
}

/// How a parameter is written in the declaration of a callable.
#[derive(Debug)]
pub enum ParamPattern {
    /// The receiver, with its text (`self`, `&self`, `&mut self`).
    Receiver { text: String },
    /// A pattern that binds one identifier, with the identifier if it is there.
    Ident { name: Option<String> },
    /// Any other pattern.
    Other,
}

/// What kind of thing is called.
#[derive(Debug)]
pub enum CallableKind {
    Function { name: String },
    TupleStruct,
    TupleEnumVariant,
    Closure,
}

/// Something that can be called, with its parameters in declaration order.
/// A parameter whose declaration is not at hand is `None`.
///
/// The parameters are those that the arguments of the call are passed for,
/// one by one. Where a method is called on a receiver (`x.f(a)`), the
/// receiver is not among them: the first parameter is the one for `a`. Where
/// the same method is called by its path (`T::f(x, a)`), the receiver is the
/// first of them. The number of parameters and the position of each are
/// counted over this list.
#[derive(Debug)]
pub struct Callable {
    pub kind: CallableKind,
    pub params: Vec<Option<ParamPattern>>,
}

/// A resolved type.
#[derive(Debug)]
pub struct TypeInfo {
    /// The type could not be inferred.
    pub unknown: bool,
    /// The type is `()`.
    pub unit: bool,
    /// The nominal type this is, if it is one.
    pub adt: Option<Adt>,
    /// What is called when a value of this type is called, if it can be.
    pub callable: Option<Callable>,
    pub iterator: Option<IteratorFacts>,
}

/// The answers of the semantic engine for one tree.
#[derive(Debug)]
pub struct Semantics {
    /// For an expression or a pattern, its type.
    pub types: Vec<Option<TypeInfo>>,
    /// For a method call, what it calls.
    pub method_calls: Vec<Option<Callable>>,
}

/// The mathematical value of an `Adt`.
pub enum AdtView {
    Struct { name: Seq<char>, fields: nat },
    Enum { name: Seq<char>, variants: Seq<Seq<char>> },
    Union,
}

/// The mathematical value of `IteratorFacts`.
pub struct IteratorFactsView {
    pub crate_name: Option<Seq<char>>,
    pub trait_is_public: bool,
    pub implemented: bool,
    pub item_resolved: bool,
}

/// The mathematical value of a `ParamPattern`.
pub enum ParamPatternView {
    Receiver { text: Seq<char> },
    Ident { name: Option<Seq<char>> },
    Other,
}

/// The mathematical value of a `CallableKind`.
pub enum CallableKindView {
    Function { name: Seq<char> },
    TupleStruct,
    TupleEnumVariant,
    Closure,
}

/// The mathematical value of a `Callable`.
pub struct CallableView {
    pub kind: CallableKindView,
    pub params: Seq<Option<ParamPatternView>>,
}

/// The mathematical value of a `TypeInfo`.
pub struct TypeInfoView {
    pub unknown: bool,
    pub unit: bool,
    pub adt: Option<AdtView>,
    pub callable: Option<CallableView>,
    pub iterator: Option<IteratorFactsView>,
}

/// The mathematical value of the answers for one tree.
pub struct SemanticsView {
    pub types: Seq<Option<TypeInfoView>>,
    pub method_calls: Seq<Option<CallableView>>,
}

/// The value of what may be there.
pub open spec fn option_view<T: View>(value: Option<T>) -> Option<T::V> {
    match value {
        Some(it) => Some(it@),
        None => None,
    }
}

/// The values of a list of what may be there, in order.
pub open spec fn option_views<T: View>(values: Seq<Option<T>>) -> Seq<Option<T::V>> {
    values.map_values(|value: Option<T>| option_view(value))
}

impl View for Adt {
    type V = AdtView;

    open spec fn view(&self) -> AdtView {
        match self {
            Adt::Struct { name, fields } => AdtView::Struct { name: name@, fields: *fields as nat },
            Adt::Enum { name, variants } => AdtView::Enum {
                name: name@,
                variants: variants@.map_values(|variant: String| variant@),
            },
            Adt::Union => AdtView::Union,
        }
    }
}

impl View for IteratorFacts {
    type V = IteratorFactsView;

    open spec fn view(&self) -> IteratorFactsView {
        IteratorFactsView {
            crate_name: option_view(self.crate_name),
            trait_is_public: self.trait_is_public,
            implemented: self.implemented,
            item_resolved: self.item_resolved,
        }
    }
}

impl View for ParamPattern {
    type V = ParamPatternView;

    open spec fn view(&self) -> ParamPatternView {
        match self {
            ParamPattern::Receiver { text } => ParamPatternView::Receiver { text: text@ },
            ParamPattern::Ident { name } => ParamPatternView::Ident { name: option_view(*name) },
            ParamPattern::Other => ParamPatternView::Other,
        }
    }
}

impl View for CallableKind {
    type V = CallableKindView;

    open spec fn view(&self) -> CallableKindView {
        match self {
            CallableKind::Function { name } => CallableKindView::Function { name: name@ },
            CallableKind::TupleStruct => CallableKindView::TupleStruct,
            CallableKind::TupleEnumVariant => CallableKindView::TupleEnumVariant,
            CallableKind::Closure => CallableKindView::Closure,
        }
    }
}

impl View for Callable {
    type V = CallableView;

    open spec fn view(&self) -> CallableView {
        CallableView { kind: self.kind@, params: option_views(self.params@) }
    }
}

impl View for TypeInfo {
    type V = TypeInfoView;

    open spec fn view(&self) -> TypeInfoView {
        TypeInfoView {
            unknown: self.unknown,
            unit: self.unit,
            adt: option_view(self.adt),
            callable: option_view(self.callable),
            iterator: option_view(self.iterator),
        }
    }
}

impl View for Semantics {
    type V = SemanticsView;

    open spec fn view(&self) -> SemanticsView {
        SemanticsView {
            types: option_views(self.types@),
            method_calls: option_views(self.method_calls@),
        }
    }
}

impl CallableView {
    /// The name of the callee, if it has one.
    pub open spec fn name(self) -> Option<Seq<char>> {
        match self.kind {
            CallableKindView::Function { name } => Some(name),
            _ => None,
        }
    }
}

impl SemanticsView {
    /// The type of the element at `node`, if the engine resolved one.
    pub open spec fn type_at(self, node: int) -> Option<TypeInfoView> {
        if 0 <= node < self.types.len() {
            self.types[node]
        } else {
            None
        }
    }

    /// What the method call at `node` calls, if the engine resolved it.
    pub open spec fn method_call_at(self, node: int) -> Option<CallableView> {
        if 0 <= node < self.method_calls.len() {
            self.method_calls[node]
        } else {
            None
        }
    }
}

impl Callable {
    /// The name of the callee, if it has one.
    pub fn fn_name(&self) -> (name: Option<&String>)
        ensures
            option_view(name) == self@.name(),
    {
        match &self.kind {
            CallableKind::Function { name } => Some(name),
            _ => None,
        }
    }
}

impl Semantics {
    /// Answers for nothing.
    pub fn new() -> (sema: Semantics)
        ensures
            sema@.types.len() == 0,
            sema@.method_calls.len() == 0,
            forall|node: int| sema@.type_at(node) is None,
            forall|node: int| sema@.method_call_at(node) is None,
    {
        Semantics { types: Vec::new(), method_calls: Vec::new() }
    }

    /// The type of the element at `node`, if the engine resolved one.
    pub fn type_of(&self, node: usize) -> (ty: Option<&TypeInfo>)
        ensures
            option_view(ty) == self@.type_at(node as int),
    {
        if node < self.types.len() {
            match &self.types[node] {
                Some(t) => Some(t),
                None => None,
            }
        } else {
            None
        }
    }

    /// What the method call at `node` calls, if the engine resolved it.
    pub fn method_call(&self, node: usize) -> (callable: Option<&Callable>)
        ensures
            option_view(callable) == self@.method_call_at(node as int),
    {
        if node < self.method_calls.len() {
            match &self.method_calls[node] {
                Some(c) => Some(c),
                None => None,
            }
        } else {
            None
        }
    }

    /// Records the type of the element at `node`.
    pub fn set_type(&mut self, node: usize, ty: TypeInfo)
        ensures
            final(self)@.type_at(node as int) == Some(ty@),
            forall|other: int|
                other != node ==> final(self)@.type_at(other) == old(self)@.type_at(other),
            final(self)@.types.len() == if node < old(self)@.types.len() {
                old(self)@.types.len()
            } else {
                (node + 1) as nat
            },
            final(self)@.method_calls == old(self)@.method_calls,
    {
        while self.types.len() <= node
            invariant
                self.method_calls == old(self).method_calls,
                self.types.len() >= old(self).types.len(),
                self.types.len() > old(self).types.len() ==> self.types.len() <= node + 1,
                forall|other: int| self@.type_at(other) == old(self)@.type_at(other),
            decreases node + 1 - self.types.len(),
        {
            self.types.push(None);
        }
        self.types[node] = Some(ty);
    }

    /// Records what the method call at `node` calls.
    pub fn set_method_call(&mut self, node: usize, callable: Callable)
        ensures
            final(self)@.method_call_at(node as int) == Some(callable@),
            forall|other: int|
                other != node ==> final(self)@.method_call_at(other) == old(self)@.method_call_at(
                    other,
                ),
            final(self)@.method_calls.len() == if node < old(self)@.method_calls.len() {
                old(self)@.method_calls.len()
            } else {
                (node + 1) as nat
            },
            final(self)@.types == old(self)@.types,
    {
        while self.method_calls.len() <= node
            invariant
                self.types == old(self).types,
                self.method_calls.len() >= old(self).method_calls.len(),
                self.method_calls.len() > old(self).method_calls.len() ==> self.method_calls.len()
                    <= node + 1,
                forall|other: int| self@.method_call_at(other) == old(self)@.method_call_at(other),
            decreases node + 1 - self.method_calls.len(),
        {
            self.method_calls.push(None);
        }
        self.method_calls[node] = Some(callable);
    }
}

} // verus!
