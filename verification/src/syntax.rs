//! The structural input language of the engine.
//!
//! A host front end turns program text into these values; the engine
//! never sees raw text. Identifiers, bounds, attributes and method
//! bodies are carried as verbatim token strings, because the engine
//! re-emits them unchanged; only the shape of the impl target type is
//! modelled structurally, since classification and name synthesis
//! recurse over it.

use vstd::prelude::*;
use crate::diagnostics::Span;

verus! {

/// A type expression in the impl target position, as the host parsed
/// it. The first nine variants are the supported shapes; the remaining
/// ones are recognized so that classification can reject them by name.
#[derive(Debug, PartialEq, Eq)]
pub enum TypeExpr {
    /// A (possibly qualified) path; the strings are the path segments
    /// in source order.
    Path(Span, Vec<String>),
    Reference(Span, Box<TypeExpr>),
    Pointer(Span, Box<TypeExpr>),
    Array(Span, Box<TypeExpr>),
    Slice(Span, Box<TypeExpr>),
    Tuple(Span, Vec<TypeExpr>),
    Paren(Span, Box<TypeExpr>),
    Group(Span, Box<TypeExpr>),
    Never(Span),
    BareFn(Span),
    ImplTrait(Span),
    Infer(Span),
    MacroType(Span),
    TraitObject(Span),
    /// Any shape the host could not place in the variants above; the
    /// classifier rejects it, so no future shape is silently accepted.
    Other(Span),
}

/// The mathematical model of a [`TypeExpr`].
pub enum TypeView {
    Path(Span, Seq<Seq<char>>),
    Reference(Span, Box<TypeView>),
    Pointer(Span, Box<TypeView>),
    Array(Span, Box<TypeView>),
    Slice(Span, Box<TypeView>),
    Tuple(Span, Seq<TypeView>),
    Paren(Span, Box<TypeView>),
    Group(Span, Box<TypeView>),
    Never(Span),
    BareFn(Span),
    ImplTrait(Span),
    Infer(Span),
    MacroType(Span),
    TraitObject(Span),
    Other(Span),
}

pub open spec fn type_view(t: TypeExpr) -> TypeView
    decreases t, 1int, 0int,
{
    match t {
        TypeExpr::Path(span, segs) => TypeView::Path(span, segs.deep_view()),
        TypeExpr::Reference(span, inner) => TypeView::Reference(span, Box::new(type_view(*inner))),
        TypeExpr::Pointer(span, inner) => TypeView::Pointer(span, Box::new(type_view(*inner))),
        TypeExpr::Array(span, inner) => TypeView::Array(span, Box::new(type_view(*inner))),
        TypeExpr::Slice(span, inner) => TypeView::Slice(span, Box::new(type_view(*inner))),
        TypeExpr::Tuple(span, elems) => TypeView::Tuple(span, type_views(elems@, 0)),
        TypeExpr::Paren(span, inner) => TypeView::Paren(span, Box::new(type_view(*inner))),
        TypeExpr::Group(span, inner) => TypeView::Group(span, Box::new(type_view(*inner))),
        TypeExpr::Never(span) => TypeView::Never(span),
        TypeExpr::BareFn(span) => TypeView::BareFn(span),
        TypeExpr::ImplTrait(span) => TypeView::ImplTrait(span),
        TypeExpr::Infer(span) => TypeView::Infer(span),
        TypeExpr::MacroType(span) => TypeView::MacroType(span),
        TypeExpr::TraitObject(span) => TypeView::TraitObject(span),
        TypeExpr::Other(span) => TypeView::Other(span),
    }
}

/// The views of `elems[i..]`, in order.
pub open spec fn type_views(elems: Seq<TypeExpr>, i: int) -> Seq<TypeView>
    decreases elems, 0int, elems.len() - i,
{
    if i < 0 || i >= elems.len() {
        Seq::empty()
    } else {
        seq![type_view(elems[i])] + type_views(elems, i + 1)
    }
}

impl View for TypeExpr {
    type V = TypeView;

    open spec fn view(&self) -> TypeView {
        type_view(*self)
    }
}

pub proof fn lemma_type_views_len(elems: Seq<TypeExpr>, i: int)
    requires
        0 <= i <= elems.len(),
    ensures
        type_views(elems, i).len() == elems.len() - i,
    decreases elems.len() - i,
{
    if i < elems.len() {
        lemma_type_views_len(elems, i + 1);
    }
}

pub proof fn lemma_type_views_index(elems: Seq<TypeExpr>, i: int, j: int)
    requires
        0 <= i <= j < elems.len(),
    ensures
        type_views(elems, i)[j - i] == type_view(elems[j]),
    decreases j - i,
{
    lemma_type_views_len(elems, i);
    if i < j {
        lemma_type_views_index(elems, i + 1, j);
    }
}

/// The receiver form of a method.
#[derive(Debug, Clone, Copy, PartialEq, Eq, Structural)]
pub enum Receiver {
    Value,
    Shared,
    Exclusive,
}

/// A method's full signature. Everything but the receiver form is
/// carried as verbatim tokens: the engine re-emits signatures, it does
/// not interpret them.
#[derive(Debug, Clone, PartialEq, Eq)]
pub struct MethodSig {
    pub name: String,
    pub generics: Vec<String>,
    pub receiver: Receiver,
    pub params: Vec<String>,
    pub return_type: Option<String>,
}

/// The mathematical model of a [`MethodSig`].
pub struct MethodSigView {
    pub name: Seq<char>,
    pub generics: Seq<Seq<char>>,
    pub receiver: Receiver,
    pub params: Seq<Seq<char>>,
    pub return_type: Option<Seq<char>>,
}

impl View for MethodSig {
    type V = MethodSigView;

    open spec fn view(&self) -> MethodSigView {
        MethodSigView {
            name: self.name@,
            generics: self.generics.deep_view(),
            receiver: self.receiver,
            params: self.params.deep_view(),
            return_type: self.return_type.deep_view(),
        }
    }
}

/// A method definition inside the input block.
#[derive(Debug, Clone, PartialEq, Eq)]
pub struct MethodDef {
    pub span: Span,
    pub attributes: Vec<String>,
    pub signature: MethodSig,
    /// The body's tokens, kept verbatim; the engine never reads them.
    pub body: String,
}

/// A member of the input block. Only methods are supported; the other
/// variants exist so that rejection can name the offending member.
#[derive(Debug, Clone, PartialEq, Eq)]
pub enum Member {
    Method(MethodDef),
    AssociatedConst(Span, String),
    AssociatedType(Span, String),
    NestedItem(Span, String),
}

/// The generic parameter list and where-clause of the input block,
/// as verbatim tokens, threaded through to every emitted artifact.
#[derive(Debug, Clone, PartialEq, Eq)]
pub struct Generics {
    pub params: Vec<String>,
    pub where_clause: Vec<String>,
}

/// The mathematical model of [`Generics`].
pub struct GenericsView {
    pub params: Seq<Seq<char>>,
    pub where_clause: Seq<Seq<char>>,
}

impl View for Generics {
    type V = GenericsView;

    open spec fn view(&self) -> GenericsView {
        GenericsView { params: self.params.deep_view(), where_clause: self.where_clause.deep_view() }
    }
}

/// The impl block a transformation request is written against.
#[derive(Debug, PartialEq, Eq)]
pub struct ImplBlock {
    /// The span of the whole block, used to anchor block-level errors.
    pub span: Span,
    /// Pass-through attributes on the block.
    pub attributes: Vec<String>,
    pub generics: Generics,
    pub target_type: TypeExpr,
    pub members: Vec<Member>,
    /// True when the block implements a trait rather than defining
    /// inherent methods; such a block is rejected.
    pub is_trait_impl: bool,
}

/// Clones a token list; the result carries the same strings.
pub fn clone_tokens(v: &Vec<String>) -> (r: Vec<String>)
    ensures
        r@ == v@,
{
    let r = v.clone();
    proof {
        assert forall|i: int| 0 <= i < v@.len() implies r@[i] == v@[i] by {
            assert(cloned::<String>(v@[i], r@[i]));
        }
        assert(r@ =~= v@);
    }
    r
}

/// Clones a type expression; the clone models identically.
pub fn clone_type(t: &TypeExpr) -> (r: TypeExpr)
    ensures
        type_view(r) == type_view(*t),
    decreases t, 1int, 0int,
{
    match t {
        TypeExpr::Path(span, segs) => {
            let cloned = clone_tokens(segs);
            proof {
                assert(cloned.deep_view() =~= segs.deep_view());
            }
            TypeExpr::Path(*span, cloned)
        },
        TypeExpr::Reference(span, inner) => TypeExpr::Reference(*span, Box::new(clone_type(inner))),
        TypeExpr::Pointer(span, inner) => TypeExpr::Pointer(*span, Box::new(clone_type(inner))),
        TypeExpr::Array(span, inner) => TypeExpr::Array(*span, Box::new(clone_type(inner))),
        TypeExpr::Slice(span, inner) => TypeExpr::Slice(*span, Box::new(clone_type(inner))),
        TypeExpr::Tuple(span, elems) => {
            let cloned = clone_type_list(elems, 0);
            TypeExpr::Tuple(*span, cloned)
        },
        TypeExpr::Paren(span, inner) => TypeExpr::Paren(*span, Box::new(clone_type(inner))),
        TypeExpr::Group(span, inner) => TypeExpr::Group(*span, Box::new(clone_type(inner))),
        TypeExpr::Never(span) => TypeExpr::Never(*span),
        TypeExpr::BareFn(span) => TypeExpr::BareFn(*span),
        TypeExpr::ImplTrait(span) => TypeExpr::ImplTrait(*span),
        TypeExpr::Infer(span) => TypeExpr::Infer(*span),
        TypeExpr::MacroType(span) => TypeExpr::MacroType(*span),
        TypeExpr::TraitObject(span) => TypeExpr::TraitObject(*span),
        TypeExpr::Other(span) => TypeExpr::Other(*span),
    }
}

fn clone_type_list(elems: &Vec<TypeExpr>, i: usize) -> (r: Vec<TypeExpr>)
    requires
        i <= elems.len(),
    ensures
        type_views(r@, 0) == type_views(elems@, i as int),
    decreases elems, 0int, elems@.len() - i,
{
    proof {
        lemma_type_views_len(elems@, 0);
    }
    if i >= elems.len() {
        let empty: Vec<TypeExpr> = Vec::new();
        proof {
            assert(type_views(empty@, 0) =~= type_views(elems@, i as int));
        }
        empty
    } else {
        let first = clone_type(&elems[i]);
        proof {
            lemma_type_views_index(elems@, 0, i as int);
        }
        let mut rest = clone_type_list(elems, i + 1);
        let ghost pre = rest@;
        rest.insert(0, first);
        proof {
            lemma_type_views_len(rest@, 0);
            lemma_type_views_len(pre, 0);
            assert forall|k: int| 0 <= k < rest@.len() implies type_views(rest@, 0)[k] == (seq![
                type_view(first),
            ] + type_views(pre, 0))[k] by {
                lemma_type_views_index(rest@, 0, k);
                if k > 0 {
                    lemma_type_views_index(pre, 0, k - 1);
                }
            }
            assert(type_views(rest@, 0) =~= seq![type_view(first)] + type_views(pre, 0));
            assert(type_views(elems@, i as int) == seq![type_view(elems@[i as int])] + type_views(
                elems@,
                i as int + 1,
            ));
        }
        rest
    }
}

/// Clones a method signature; the result models to the same signature.
pub fn clone_sig(s: &MethodSig) -> (r: MethodSig)
    ensures
        r@ == s@,
{
    let r = MethodSig {
        name: s.name.clone(),
        generics: clone_tokens(&s.generics),
        receiver: s.receiver,
        params: clone_tokens(&s.params),
        return_type: match &s.return_type {
            Some(t) => Some(t.clone()),
            None => None,
        },
    };
    proof {
        assert(r.generics.deep_view() =~= s.generics.deep_view());
        assert(r.params.deep_view() =~= s.params.deep_view());
    }
    r
}

/// Clones the generics of a block; the result models identically.
pub fn clone_generics(g: &Generics) -> (r: Generics)
    ensures
        r@ == g@,
{
    Generics { params: clone_tokens(&g.params), where_clause: clone_tokens(&g.where_clause) }
}

} // verus!
