//! The name synthesizer: derives the default trait identifier from a
//! classified target type by a pure recursive fold, used only when the
//! configuration carries no explicit name override.
//!
//! Every synthesized name is the bottom-up composition of the shape's
//! fixed prefixes over the terminal path names, with the literal suffix
//! `Ext` appended at the end.

use vstd::prelude::*;
use vstd::string::StringExecFns;
use crate::classify::{
    descriptor_view, descriptor_views, lemma_descriptor_views_index, lemma_descriptor_views_len,
    DescriptorView, TypeDescriptor,
};

verus! {

/// The name a descriptor synthesizes to, before the `Ext` suffix.
pub open spec fn base_name_seq(d: DescriptorView) -> Seq<char>
    decreases d, 1int, 0int,
{
    match d {
        DescriptorView::Path(name) => name,
        DescriptorView::Reference(inner) => "Ref"@ + base_name_seq(*inner),
        DescriptorView::Pointer(inner) => "PointerTo"@ + base_name_seq(*inner),
        DescriptorView::Array(inner) => "ListOf"@ + base_name_seq(*inner),
        DescriptorView::Slice(inner) => "SliceOf"@ + base_name_seq(*inner),
        DescriptorView::Paren(inner) => "Paren"@ + base_name_seq(*inner),
        DescriptorView::Group(inner) => "Group"@ + base_name_seq(*inner),
        DescriptorView::Tuple(elems) => "TupleOf"@ + tuple_name_seq(elems, 0),
        DescriptorView::Never => "Never"@,
    }
}

/// The concatenation, in left-to-right order, of the base names of
/// `elems[i..]`.
pub open spec fn tuple_name_seq(elems: Seq<DescriptorView>, i: int) -> Seq<char>
    decreases elems, 0int, elems.len() - i,
{
    if i < 0 || i >= elems.len() {
        Seq::empty()
    } else {
        base_name_seq(elems[i]) + tuple_name_seq(elems, i + 1)
    }
}

/// The complete generated name: the base name with `Ext` appended.
pub open spec fn generated_name_seq(d: DescriptorView) -> Seq<char> {
    base_name_seq(d) + "Ext"@
}

fn synthesize_base(d: &TypeDescriptor) -> (r: String)
    ensures
        r@ == base_name_seq(descriptor_view(*d)),
    decreases d, 1int, 0int,
{
    match d {
        TypeDescriptor::Path(name) => name.clone(),
        TypeDescriptor::Reference(inner) => {
            let mut s = "Ref".to_owned();
            let rest = synthesize_base(inner);
            s.append(rest.as_str());
            s
        },
        TypeDescriptor::Pointer(inner) => {
            let mut s = "PointerTo".to_owned();
            let rest = synthesize_base(inner);
            s.append(rest.as_str());
            s
        },
        TypeDescriptor::Array(inner) => {
            let mut s = "ListOf".to_owned();
            let rest = synthesize_base(inner);
            s.append(rest.as_str());
            s
        },
        TypeDescriptor::Slice(inner) => {
            let mut s = "SliceOf".to_owned();
            let rest = synthesize_base(inner);
            s.append(rest.as_str());
            s
        },
        TypeDescriptor::Paren(inner) => {
            let mut s = "Paren".to_owned();
            let rest = synthesize_base(inner);
            s.append(rest.as_str());
            s
        },
        TypeDescriptor::Group(inner) => {
            let mut s = "Group".to_owned();
            let rest = synthesize_base(inner);
            s.append(rest.as_str());
            s
        },
        TypeDescriptor::Tuple(elems) => {
            let mut s = "TupleOf".to_owned();
            let rest = synthesize_tuple(elems, 0);
            s.append(rest.as_str());
            s
        },
        TypeDescriptor::Never => "Never".to_owned(),
    }
}

fn synthesize_tuple(elems: &Vec<TypeDescriptor>, i: usize) -> (r: String)
    requires
        i <= elems.len(),
    ensures
        r@ == tuple_name_seq(descriptor_views(elems@, 0), i as int),
    decreases elems, 0int, elems@.len() - i,
{
    proof {
        lemma_descriptor_views_len(elems@, 0);
    }
    if i >= elems.len() {
        String::new()
    } else {
        proof {
            lemma_descriptor_views_index(elems@, 0, i as int);
        }
        let mut s = synthesize_base(&elems[i]);
        let rest = synthesize_tuple(elems, i + 1);
        s.append(rest.as_str());
        s
    }
}

/// Synthesizes the default trait name of a classified target type. The
/// result is a pure function of the descriptor's model, so two calls on
/// structurally equal descriptors return identical names, and it always
/// carries the `Ext` suffix.
pub fn synthesize_name(d: &TypeDescriptor) -> (r: String)
    ensures
        r@ == generated_name_seq(d@),
{
    let mut s = synthesize_base(d);
    s.append("Ext");
    s
}

/// Law: name synthesis is deterministic and pure — structurally equal
/// descriptors always synthesize the same generated name, on any two
/// invocations.
pub proof fn lemma_name_synthesis_deterministic(a: DescriptorView, b: DescriptorView)
    requires
        a == b,
    ensures
        generated_name_seq(a) == generated_name_seq(b),
{
}

/// Law: the empty tuple synthesizes exactly the base `TupleOf`.
pub proof fn lemma_empty_tuple_name(elems: Seq<DescriptorView>)
    requires
        elems.len() == 0,
    ensures
        base_name_seq(DescriptorView::Tuple(elems)) == "TupleOf"@,
{
    assert("TupleOf"@ + tuple_name_seq(elems, 0) =~= "TupleOf"@);
}

/// Law: a pair's base name concatenates the element names after
/// `TupleOf` in left-to-right order — never the reverse.
pub proof fn lemma_pair_tuple_name(elems: Seq<DescriptorView>)
    requires
        elems.len() == 2,
    ensures
        base_name_seq(DescriptorView::Tuple(elems)) == "TupleOf"@ + base_name_seq(elems[0])
            + base_name_seq(elems[1]),
{
    assert(tuple_name_seq(elems, 2) =~= Seq::<char>::empty());
    assert(tuple_name_seq(elems, 1) + Seq::<char>::empty() =~= tuple_name_seq(elems, 1));
    assert("TupleOf"@ + tuple_name_seq(elems, 0) =~= "TupleOf"@ + base_name_seq(elems[0])
        + base_name_seq(elems[1]));
}

/// Law: every generated name ends in the literal suffix `Ext`.
pub proof fn lemma_generated_name_ends_in_ext(d: DescriptorView)
    ensures
        generated_name_seq(d).len() >= 3,
        generated_name_seq(d).subrange(
            generated_name_seq(d).len() - 3,
            generated_name_seq(d).len() as int,
        ) == "Ext"@,
{
    reveal_strlit("Ext");
    assert(generated_name_seq(d).subrange(
        generated_name_seq(d).len() - 3,
        generated_name_seq(d).len() as int,
    ) =~= "Ext"@);
}

} // verus!
