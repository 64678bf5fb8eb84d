//! The method transformer: converts each member of the input block into
//! a signature-only trait item, preserving attributes, signature and
//! order, and discarding the body — the item becomes a required, not a
//! provided, trait method. Any member that is not a method is a hard
//! failure naming the offending member.

use vstd::prelude::*;
use vstd::string::StringExecFns;
use crate::diagnostics::{Diagnostic, DiagnosticView, ErrorKind, Span};
use crate::syntax::{clone_sig, clone_tokens, Member, MethodSig};

verus! {

/// A signature-only item of the emitted trait declaration. Body
/// erasure is structural: a trait item carries no body at all, only
/// the attributes and the full signature of the method it came from.
#[derive(Debug, PartialEq, Eq)]
pub struct TraitItem {
    pub attributes: Vec<String>,
    pub signature: MethodSig,
    /// Always set on emitted items: the declaration marks each item so
    /// the host's default-lint machinery does not flag signature-only
    /// items (a cosmetic concern, not a behavioral one).
    pub lints_suppressed: bool,
}

pub open spec fn unsupported_member(span: Span, name: Seq<char>) -> DiagnosticView {
    DiagnosticView {
        kind: ErrorKind::UnsupportedMemberError,
        span,
        message: "unsupported non-method member: "@ + name,
    }
}

/// The diagnostic of the leftmost non-method member of `ms[i..]`, if
/// any.
pub open spec fn spec_members_err(ms: Seq<Member>, i: int) -> Option<DiagnosticView>
    decreases ms.len() - i,
{
    if i < 0 || i >= ms.len() {
        None
    } else {
        match ms[i] {
            Member::Method(_) => spec_members_err(ms, i + 1),
            Member::AssociatedConst(span, name) => Some(unsupported_member(span, name@)),
            Member::AssociatedType(span, name) => Some(unsupported_member(span, name@)),
            Member::NestedItem(span, name) => Some(unsupported_member(span, name@)),
        }
    }
}

/// Every member is a method, and `items` holds, in the same order, one
/// signature-only item per member with the same attributes and the
/// identical signature.
pub open spec fn trait_items_match(items: Seq<TraitItem>, ms: Seq<Member>) -> bool {
    &&& items.len() == ms.len()
    &&& forall|j: int| #![trigger ms[j]] 0 <= j < ms.len() ==> {
        &&& ms[j] matches Member::Method(m)
        &&& items[j].attributes.deep_view() == m.attributes.deep_view()
        &&& items[j].signature@ == m.signature@
        &&& items[j].lints_suppressed
    }
}

fn unsupported_member_diag(span: Span, name: &String) -> (r: Diagnostic)
    ensures
        r@ == unsupported_member(span, name@),
{
    let mut message = "unsupported non-method member: ".to_owned();
    message.append(name.as_str());
    Diagnostic { kind: ErrorKind::UnsupportedMemberError, span, message }
}

/// Converts the block's ordered member sequence into trait items,
/// preserving order, or fails on the leftmost member that is not a
/// method.
pub fn transform_members(members: &Vec<Member>) -> (r: Result<Vec<TraitItem>, Diagnostic>)
    ensures
        match r {
            Ok(items) => spec_members_err(members@, 0) is None && trait_items_match(
                items@,
                members@,
            ),
            Err(e) => spec_members_err(members@, 0) == Some(e@),
        },
{
    let mut items: Vec<TraitItem> = Vec::new();
    let mut i: usize = 0;
    while i < members.len()
        invariant
            i <= members.len(),
            items@.len() == i as int,
            spec_members_err(members@, 0) == spec_members_err(members@, i as int),
            forall|j: int| #![trigger members@[j]] 0 <= j < i as int ==> {
                &&& members@[j] matches Member::Method(m)
                &&& items@[j].attributes.deep_view() == m.attributes.deep_view()
                &&& items@[j].signature@ == m.signature@
                &&& items@[j].lints_suppressed
            },
        decreases members.len() - i,
    {
        match &members[i] {
            Member::Method(m) => {
                let item = TraitItem {
                    attributes: clone_tokens(&m.attributes),
                    signature: clone_sig(&m.signature),
                    lints_suppressed: true,
                };
                proof {
                    assert(item.attributes.deep_view() =~= m.attributes.deep_view());
                }
                items.push(item);
            },
            Member::AssociatedConst(span, name) => {
                return Err(unsupported_member_diag(*span, name));
            },
            Member::AssociatedType(span, name) => {
                return Err(unsupported_member_diag(*span, name));
            },
            Member::NestedItem(span, name) => {
                return Err(unsupported_member_diag(*span, name));
            },
        }
        i += 1;
    }
    Ok(items)
}

} // verus!
