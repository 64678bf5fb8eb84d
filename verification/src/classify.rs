//! The type classifier: maps a type expression in the impl target
//! position onto a closed set of nine structural variants, or rejects
//! it with a diagnostic anchored at the unsupported construct.
//!
//! Classification is purely structural: it does not resolve aliases or
//! generic substitutions, and there is no silent fallback — every shape
//! outside the nine supported ones is an explicit error arm.

use vstd::prelude::*;
use vstd::string::StringExecFns;
use crate::diagnostics::{Diagnostic, DiagnosticView, ErrorKind, Span};
use crate::syntax::{lemma_type_views_index, lemma_type_views_len, type_views, TypeExpr, TypeView};

verus! {

/// The classified shape of a supported impl target. Derived once per
/// request and immutable afterwards.
#[derive(Debug, PartialEq, Eq)]
pub enum TypeDescriptor {
    /// A path type, reduced to its terminal segment's name.
    Path(String),
    Reference(Box<TypeDescriptor>),
    Pointer(Box<TypeDescriptor>),
    Array(Box<TypeDescriptor>),
    Slice(Box<TypeDescriptor>),
    Tuple(Vec<TypeDescriptor>),
    Paren(Box<TypeDescriptor>),
    Group(Box<TypeDescriptor>),
    Never,
}

/// The mathematical model of a [`TypeDescriptor`].
pub enum DescriptorView {
    Path(Seq<char>),
    Reference(Box<DescriptorView>),
    Pointer(Box<DescriptorView>),
    Array(Box<DescriptorView>),
    Slice(Box<DescriptorView>),
    Tuple(Seq<DescriptorView>),
    Paren(Box<DescriptorView>),
    Group(Box<DescriptorView>),
    Never,
}

pub open spec fn descriptor_view(d: TypeDescriptor) -> DescriptorView
    decreases d, 1int, 0int,
{
    match d {
        TypeDescriptor::Path(name) => DescriptorView::Path(name@),
        TypeDescriptor::Reference(inner) => DescriptorView::Reference(
            Box::new(descriptor_view(*inner)),
        ),
        TypeDescriptor::Pointer(inner) => DescriptorView::Pointer(
            Box::new(descriptor_view(*inner)),
        ),
        TypeDescriptor::Array(inner) => DescriptorView::Array(Box::new(descriptor_view(*inner))),
        TypeDescriptor::Slice(inner) => DescriptorView::Slice(Box::new(descriptor_view(*inner))),
        TypeDescriptor::Tuple(elems) => DescriptorView::Tuple(descriptor_views(elems@, 0)),
        TypeDescriptor::Paren(inner) => DescriptorView::Paren(Box::new(descriptor_view(*inner))),
        TypeDescriptor::Group(inner) => DescriptorView::Group(Box::new(descriptor_view(*inner))),
        TypeDescriptor::Never => DescriptorView::Never,
    }
}

/// The views of `elems[i..]`, in order.
pub open spec fn descriptor_views(elems: Seq<TypeDescriptor>, i: int) -> Seq<DescriptorView>
    decreases elems, 0int, elems.len() - i,
{
    if i < 0 || i >= elems.len() {
        Seq::empty()
    } else {
        seq![descriptor_view(elems[i])] + descriptor_views(elems, i + 1)
    }
}

impl View for TypeDescriptor {
    type V = DescriptorView;

    open spec fn view(&self) -> DescriptorView {
        descriptor_view(*self)
    }
}

pub proof fn lemma_descriptor_views_len(elems: Seq<TypeDescriptor>, i: int)
    requires
        0 <= i <= elems.len(),
    ensures
        descriptor_views(elems, i).len() == elems.len() - i,
    decreases elems.len() - i,
{
    if i < elems.len() {
        lemma_descriptor_views_len(elems, i + 1);
    }
}

pub proof fn lemma_descriptor_views_index(elems: Seq<TypeDescriptor>, i: int, j: int)
    requires
        0 <= i <= j < elems.len(),
    ensures
        descriptor_views(elems, i)[j - i] == descriptor_view(elems[j]),
    decreases j - i,
{
    lemma_descriptor_views_len(elems, i);
    if i < j {
        lemma_descriptor_views_index(elems, i + 1, j);
    }
}

/// Law: classification is deterministic, pure and idempotent —
/// structurally equal type expressions always classify to the same
/// result, on any two invocations.
pub proof fn lemma_classification_deterministic(a: TypeView, b: TypeView)
    requires
        a == b,
    ensures
        spec_classify(a) == spec_classify(b),
{
}

/// What classification, in the model, makes of a type expression:
/// either the descriptor's model or the exact diagnostic.
pub open spec fn spec_classify(t: TypeView) -> Result<DescriptorView, DiagnosticView>
    decreases t, 1int, 0int,
{
    match t {
        TypeView::Path(span, segs) => if segs.len() == 0 {
            Err(DiagnosticView {
                kind: ErrorKind::EmptyPathError,
                span,
                message: "path type with no segments"@,
            })
        } else {
            Ok(DescriptorView::Path(segs.last()))
        },
        TypeView::Reference(_, inner) => match spec_classify(*inner) {
            Ok(d) => Ok(DescriptorView::Reference(Box::new(d))),
            Err(e) => Err(e),
        },
        TypeView::Pointer(_, inner) => match spec_classify(*inner) {
            Ok(d) => Ok(DescriptorView::Pointer(Box::new(d))),
            Err(e) => Err(e),
        },
        TypeView::Array(_, inner) => match spec_classify(*inner) {
            Ok(d) => Ok(DescriptorView::Array(Box::new(d))),
            Err(e) => Err(e),
        },
        TypeView::Slice(_, inner) => match spec_classify(*inner) {
            Ok(d) => Ok(DescriptorView::Slice(Box::new(d))),
            Err(e) => Err(e),
        },
        TypeView::Tuple(_, elems) => match spec_classify_list(elems, 0) {
            Ok(ds) => Ok(DescriptorView::Tuple(ds)),
            Err(e) => Err(e),
        },
        TypeView::Paren(_, inner) => match spec_classify(*inner) {
            Ok(d) => Ok(DescriptorView::Paren(Box::new(d))),
            Err(e) => Err(e),
        },
        TypeView::Group(_, inner) => match spec_classify(*inner) {
            Ok(d) => Ok(DescriptorView::Group(Box::new(d))),
            Err(e) => Err(e),
        },
        TypeView::Never(_) => Ok(DescriptorView::Never),
        TypeView::BareFn(span) => Err(unsupported_target(span, "function pointer type"@)),
        TypeView::ImplTrait(span) => Err(unsupported_target(span, "opaque type"@)),
        TypeView::Infer(span) => Err(unsupported_target(span, "inferred type"@)),
        TypeView::MacroType(span) => Err(unsupported_target(span, "macro-produced type"@)),
        TypeView::TraitObject(span) => Err(unsupported_target(span, "trait object type"@)),
        TypeView::Other(span) => Err(unsupported_target(span, "unrecognized type"@)),
    }
}

/// The classification of `elems[i..]`: the models of all elements in
/// order, or the diagnostic of the leftmost unsupported one.
pub open spec fn spec_classify_list(elems: Seq<TypeView>, i: int) -> Result<
    Seq<DescriptorView>,
    DiagnosticView,
>
    decreases elems, 0int, elems.len() - i,
{
    if i < 0 || i >= elems.len() {
        Ok(Seq::empty())
    } else {
        match spec_classify(elems[i]) {
            Ok(d) => match spec_classify_list(elems, i + 1) {
                Ok(rest) => Ok(seq![d] + rest),
                Err(e) => Err(e),
            },
            Err(e) => Err(e),
        }
    }
}

pub open spec fn unsupported_target(span: Span, construct: Seq<char>) -> DiagnosticView {
    DiagnosticView {
        kind: ErrorKind::UnsupportedTargetError,
        span,
        message: "unsupported impl target: "@ + construct,
    }
}

fn unsupported_target_diag(span: Span, construct: &str) -> (r: Diagnostic)
    ensures
        r@ == unsupported_target(span, construct@),
{
    let mut message = "unsupported impl target: ".to_owned();
    message.append(construct);
    Diagnostic { kind: ErrorKind::UnsupportedTargetError, span, message }
}

/// Classifies a type expression onto the nine supported shapes, or
/// fails with a diagnostic naming the unsupported construct. The result
/// is a pure function of the input's model: classifying the same type
/// expression twice yields identical descriptors.
pub fn classify(t: &TypeExpr) -> (r: Result<TypeDescriptor, Diagnostic>)
    ensures
        match r {
            Ok(d) => spec_classify(t@) == Ok::<DescriptorView, DiagnosticView>(d@),
            Err(e) => spec_classify(t@) == Err::<DescriptorView, DiagnosticView>(e@),
        },
    decreases t, 1int, 0int,
{
    match t {
        TypeExpr::Path(span, segs) => if segs.len() == 0 {
            Err(Diagnostic {
                kind: ErrorKind::EmptyPathError,
                span: *span,
                message: "path type with no segments".to_owned(),
            })
        } else {
            let name = segs[segs.len() - 1].clone();
            proof {
                assert(segs.deep_view().len() == segs@.len());
                assert(segs.deep_view().last() == segs@[segs@.len() - 1]@);
            }
            Ok(TypeDescriptor::Path(name))
        },
        TypeExpr::Reference(_, inner) => match classify(inner) {
            Ok(d) => Ok(TypeDescriptor::Reference(Box::new(d))),
            Err(e) => Err(e),
        },
        TypeExpr::Pointer(_, inner) => match classify(inner) {
            Ok(d) => Ok(TypeDescriptor::Pointer(Box::new(d))),
            Err(e) => Err(e),
        },
        TypeExpr::Array(_, inner) => match classify(inner) {
            Ok(d) => Ok(TypeDescriptor::Array(Box::new(d))),
            Err(e) => Err(e),
        },
        TypeExpr::Slice(_, inner) => match classify(inner) {
            Ok(d) => Ok(TypeDescriptor::Slice(Box::new(d))),
            Err(e) => Err(e),
        },
        TypeExpr::Tuple(_, elems) => match classify_list(elems, 0) {
            Ok(ds) => Ok(TypeDescriptor::Tuple(ds)),
            Err(e) => Err(e),
        },
        TypeExpr::Paren(_, inner) => match classify(inner) {
            Ok(d) => Ok(TypeDescriptor::Paren(Box::new(d))),
            Err(e) => Err(e),
        },
        TypeExpr::Group(_, inner) => match classify(inner) {
            Ok(d) => Ok(TypeDescriptor::Group(Box::new(d))),
            Err(e) => Err(e),
        },
        TypeExpr::Never(_) => Ok(TypeDescriptor::Never),
        TypeExpr::BareFn(span) => Err(unsupported_target_diag(*span, "function pointer type")),
        TypeExpr::ImplTrait(span) => Err(unsupported_target_diag(*span, "opaque type")),
        TypeExpr::Infer(span) => Err(unsupported_target_diag(*span, "inferred type")),
        TypeExpr::MacroType(span) => Err(unsupported_target_diag(*span, "macro-produced type")),
        TypeExpr::TraitObject(span) => Err(unsupported_target_diag(*span, "trait object type")),
        TypeExpr::Other(span) => Err(unsupported_target_diag(*span, "unrecognized type")),
    }
}

fn classify_list(elems: &Vec<TypeExpr>, i: usize) -> (r: Result<Vec<TypeDescriptor>, Diagnostic>)
    requires
        i <= elems.len(),
    ensures
        match r {
            Ok(ds) => spec_classify_list(type_views(elems@, 0), i as int) == Ok::<
                Seq<DescriptorView>,
                DiagnosticView,
            >(descriptor_views(ds@, 0)),
            Err(e) => spec_classify_list(type_views(elems@, 0), i as int) == Err::<
                Seq<DescriptorView>,
                DiagnosticView,
            >(e@),
        },
    decreases elems, 0int, elems@.len() - i,
{
    proof {
        lemma_type_views_len(elems@, 0);
    }
    let ghost tv = type_views(elems@, 0);
    if i >= elems.len() {
        let empty: Vec<TypeDescriptor> = Vec::new();
        proof {
            assert(descriptor_views(empty@, 0) =~= Seq::<DescriptorView>::empty());
        }
        Ok(empty)
    } else {
        proof {
            lemma_type_views_index(elems@, 0, i as int);
            assert(tv[i as int] == crate::syntax::type_view(elems@[i as int]));
        }
        match classify(&elems[i]) {
            Ok(d) => match classify_list(elems, i + 1) {
                Ok(mut rest) => {
                    let ghost pre = rest@;
                    let ghost dv = descriptor_view(d);
                    rest.insert(0, d);
                    proof {
                        assert(rest@ =~= seq![rest@[0]] + pre);
                        lemma_descriptor_views_len(rest@, 0);
                        lemma_descriptor_views_len(pre, 0);
                        assert forall|k: int| 0 <= k < rest@.len() implies descriptor_views(
                            rest@,
                            0,
                        )[k] == (seq![dv] + descriptor_views(pre, 0))[k] by {
                            lemma_descriptor_views_index(rest@, 0, k);
                            if k > 0 {
                                lemma_descriptor_views_index(pre, 0, k - 1);
                            }
                        }
                        assert(descriptor_views(rest@, 0) =~= seq![dv] + descriptor_views(pre, 0));
                    }
                    Ok(rest)
                },
                Err(e) => Err(e),
            },
            Err(e) => Err(e),
        }
    }
}

} // verus!
