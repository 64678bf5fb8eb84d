//! The configuration parser: folds the flat, comma-separated directive
//! list attached to a transformation request into a [`Configuration`].
//!
//! Recognized directives are `name = <identifier>`, `sealed = <bool>`
//! and `supertraits = <bound> (+ <bound>)*`; an optional bare
//! visibility may stand before them. Unknown directive names and
//! malformed directive values are hard failures. Directives may appear
//! in any order; when the same directive appears more than once, the
//! last occurrence wins (a documented choice — duplicates are not
//! rejected). A visibility anywhere but as the leading item is
//! rejected.

use vstd::prelude::*;
use vstd::string::StringExecFns;
use crate::diagnostics::{Diagnostic, DiagnosticView, ErrorKind, Span};
use crate::syntax::clone_tokens;

verus! {

/// The visibility the emitted trait declaration carries.
#[derive(Debug, PartialEq, Eq)]
pub enum Visibility {
    Private,
    Crate,
    Public,
    /// Explicit path-scoped visibility; the string is the verbatim
    /// path token.
    Scoped(String),
}

/// The mathematical model of a [`Visibility`].
pub enum VisibilityView {
    Private,
    Crate,
    Public,
    Scoped(Seq<char>),
}

impl View for Visibility {
    type V = VisibilityView;

    open spec fn view(&self) -> VisibilityView {
        match self {
            Visibility::Private => VisibilityView::Private,
            Visibility::Crate => VisibilityView::Crate,
            Visibility::Public => VisibilityView::Public,
            Visibility::Scoped(p) => VisibilityView::Scoped(p@),
        }
    }
}

/// Clones a visibility; the clone is equal to the original.
pub fn clone_visibility(v: &Visibility) -> (r: Visibility)
    ensures
        r == *v,
{
    match v {
        Visibility::Private => Visibility::Private,
        Visibility::Crate => Visibility::Crate,
        Visibility::Public => Visibility::Public,
        Visibility::Scoped(p) => Visibility::Scoped(p.clone()),
    }
}

/// The value of a single directive, as the host lexed it.
#[derive(Debug, PartialEq, Eq)]
pub enum DirectiveValue {
    IdentValue(String),
    BoolValue(bool),
    /// The bounds of a `supertraits` directive, one verbatim token per
    /// `+`-separated bound, in source order.
    BoundsValue(Vec<String>),
}

/// One item of the directive list.
#[derive(Debug, PartialEq, Eq)]
pub enum ConfigItem {
    /// A bare visibility token; only valid as the leading item.
    VisibilityItem(Span, Visibility),
    /// `key = value`.
    Directive(Span, String, DirectiveValue),
}

/// The parsed configuration of a transformation request.
#[derive(Debug, PartialEq, Eq)]
pub struct Configuration {
    pub visibility: Visibility,
    pub trait_name_override: Option<String>,
    pub sealed: bool,
    pub extra_supertraits: Vec<String>,
}

/// The mathematical model of a [`Configuration`].
pub struct ConfigurationView {
    pub visibility: VisibilityView,
    pub trait_name_override: Option<Seq<char>>,
    pub sealed: bool,
    pub extra_supertraits: Seq<Seq<char>>,
}

impl View for Configuration {
    type V = ConfigurationView;

    open spec fn view(&self) -> ConfigurationView {
        ConfigurationView {
            visibility: self.visibility@,
            trait_name_override: self.trait_name_override.deep_view(),
            sealed: self.sealed,
            extra_supertraits: self.extra_supertraits.deep_view(),
        }
    }
}

/// The default configuration: private visibility, no name override,
/// sealed, no extra supertraits.
pub open spec fn default_config_view() -> ConfigurationView {
    ConfigurationView {
        visibility: VisibilityView::Private,
        trait_name_override: None,
        sealed: true,
        extra_supertraits: Seq::empty(),
    }
}

pub open spec fn misplaced_visibility(span: Span) -> DiagnosticView {
    DiagnosticView {
        kind: ErrorKind::ConfigurationError,
        span,
        message: "a visibility must be the leading item of the directive list"@,
    }
}

pub open spec fn unknown_directive(span: Span, key: Seq<char>) -> DiagnosticView {
    DiagnosticView {
        kind: ErrorKind::ConfigurationError,
        span,
        message: "unknown directive: "@ + key,
    }
}

pub open spec fn malformed_directive(span: Span, key: Seq<char>) -> DiagnosticView {
    DiagnosticView {
        kind: ErrorKind::ConfigurationError,
        span,
        message: "malformed value for directive: "@ + key,
    }
}

/// What parsing, in the model, makes of the directive items `items[i..]`
/// folded over the accumulated configuration `acc`.
pub open spec fn spec_parse_config(items: Seq<ConfigItem>, i: int, acc: ConfigurationView) -> Result<
    ConfigurationView,
    DiagnosticView,
>
    decreases items.len() - i,
{
    if i < 0 || i >= items.len() {
        Ok(acc)
    } else {
        match items[i] {
            ConfigItem::VisibilityItem(span, v) => if i == 0 {
                spec_parse_config(
                    items,
                    i + 1,
                    ConfigurationView { visibility: v@, ..acc },
                )
            } else {
                Err(misplaced_visibility(span))
            },
            ConfigItem::Directive(span, key, value) => if key@ == "name"@ {
                match value {
                    DirectiveValue::IdentValue(ident) => spec_parse_config(
                        items,
                        i + 1,
                        ConfigurationView { trait_name_override: Some(ident@), ..acc },
                    ),
                    _ => Err(malformed_directive(span, key@)),
                }
            } else if key@ == "sealed"@ {
                match value {
                    DirectiveValue::BoolValue(b) => spec_parse_config(
                        items,
                        i + 1,
                        ConfigurationView { sealed: b, ..acc },
                    ),
                    _ => Err(malformed_directive(span, key@)),
                }
            } else if key@ == "supertraits"@ {
                match value {
                    DirectiveValue::BoundsValue(bounds) => spec_parse_config(
                        items,
                        i + 1,
                        ConfigurationView { extra_supertraits: bounds.deep_view(), ..acc },
                    ),
                    _ => Err(malformed_directive(span, key@)),
                }
            } else {
                Err(unknown_directive(span, key@))
            },
        }
    }
}

fn string_is(key: &String, lit: &str) -> (r: bool)
    ensures
        r == (key@ == lit@),
{
    let owned: String = lit.to_owned();
    *key == owned
}

fn malformed_directive_diag(span: Span, key: &String) -> (r: Diagnostic)
    ensures
        r@ == malformed_directive(span, key@),
{
    let mut message = "malformed value for directive: ".to_owned();
    message.append(key.as_str());
    Diagnostic { kind: ErrorKind::ConfigurationError, span, message }
}

/// Parses the directive list into a configuration. An absent (empty)
/// list yields the default configuration; a repeated directive is
/// resolved last-write-wins.
pub fn parse_config(items: &Vec<ConfigItem>) -> (r: Result<Configuration, Diagnostic>)
    ensures
        match r {
            Ok(c) => spec_parse_config(items@, 0, default_config_view()) == Ok::<
                ConfigurationView,
                DiagnosticView,
            >(c@),
            Err(e) => spec_parse_config(items@, 0, default_config_view()) == Err::<
                ConfigurationView,
                DiagnosticView,
            >(e@),
        },
{
    let mut acc = Configuration {
        visibility: Visibility::Private,
        trait_name_override: None,
        sealed: true,
        extra_supertraits: Vec::new(),
    };
    proof {
        assert(acc.extra_supertraits.deep_view() =~= Seq::<Seq<char>>::empty());
    }
    let mut i: usize = 0;
    while i < items.len()
        invariant
            i <= items.len(),
            spec_parse_config(items@, 0, default_config_view()) == spec_parse_config(
                items@,
                i as int,
                acc@,
            ),
        decreases items.len() - i,
    {
        match &items[i] {
            ConfigItem::VisibilityItem(span, v) => {
                if i == 0 {
                    acc.visibility = clone_visibility(v);
                } else {
                    return Err(Diagnostic {
                        kind: ErrorKind::ConfigurationError,
                        span: *span,
                        message: "a visibility must be the leading item of the directive list"
                            .to_owned(),
                    });
                }
            },
            ConfigItem::Directive(span, key, value) => {
                if string_is(key, "name") {
                    match value {
                        DirectiveValue::IdentValue(ident) => {
                            acc.trait_name_override = Some(ident.clone());
                        },
                        _ => {
                            return Err(malformed_directive_diag(*span, key));
                        },
                    }
                } else if string_is(key, "sealed") {
                    match value {
                        DirectiveValue::BoolValue(b) => {
                            acc.sealed = *b;
                        },
                        _ => {
                            return Err(malformed_directive_diag(*span, key));
                        },
                    }
                } else if string_is(key, "supertraits") {
                    match value {
                        DirectiveValue::BoundsValue(bounds) => {
                            acc.extra_supertraits = clone_tokens(bounds);
                            proof {
                                assert(acc.extra_supertraits.deep_view()
                                    =~= bounds.deep_view());
                            }
                        },
                        _ => {
                            return Err(malformed_directive_diag(*span, key));
                        },
                    }
                } else {
                    let mut message = "unknown directive: ".to_owned();
                    message.append(key.as_str());
                    return Err(Diagnostic {
                        kind: ErrorKind::ConfigurationError,
                        span: *span,
                        message,
                    });
                }
            },
        }
        i += 1;
    }
    Ok(acc)
}

} // verus!
