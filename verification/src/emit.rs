//! The artifact emitter and the engine's entry points.
//!
//! A successful transformation yields exactly one trait declaration,
//! exactly one trait implementation, and — iff the configuration is
//! sealed — one sealing module. They are emitted together or not at
//! all: any failure aborts the whole request before any artifact is
//! produced.

use vstd::prelude::*;
use vstd::string::StringExecFns;
use crate::classify::{classify, spec_classify, DescriptorView};
use crate::config::{
    default_config_view, parse_config, spec_parse_config, ConfigItem, Configuration,
    ConfigurationView, Visibility,
};
use crate::diagnostics::{Diagnostic, DiagnosticView, ErrorKind, Span};
use crate::members::{spec_members_err, trait_items_match, transform_members, TraitItem};
use crate::names::{generated_name_seq, synthesize_name};
use crate::syntax::{
    clone_generics, clone_tokens, clone_type, type_view, Generics, ImplBlock, Member, TypeExpr,
};

verus! {

/// The emitted trait declaration: the new extension trait, holding the
/// signature-only items.
#[derive(Debug, PartialEq, Eq)]
pub struct TraitDeclaration {
    /// The block's pass-through attributes, re-emitted on the
    /// declaration.
    pub attributes: Vec<String>,
    pub visibility: Visibility,
    pub name: String,
    /// The generic parameters and where-clause, copied from the block.
    pub generics: Generics,
    /// The supertrait bounds in order: the sealing marker bound first
    /// when sealed, then the configured extra supertraits. The host
    /// joins them with the conjunction operator.
    pub supertraits: Vec<String>,
    pub items: Vec<TraitItem>,
}

/// The emitted trait implementation: implements the resolved trait for
/// the original target type, with the original member list — bodies
/// intact — as its body.
#[derive(Debug, PartialEq, Eq)]
pub struct TraitImplementation {
    pub trait_name: String,
    pub generics: Generics,
    pub target_type: TypeExpr,
    pub members: Vec<Member>,
}

/// The emitted sealing module: a uniquely named module holding a
/// zero-method marker trait and its single implementation for the
/// target type. The marker is exactly the bound injected into the
/// declaration's supertrait list, so only the original target type can
/// ever implement the generated trait.
#[derive(Debug, PartialEq, Eq)]
pub struct SealingModule {
    /// The module's name, derived from the resolved trait name by a
    /// fixed prefix.
    pub name: String,
    /// The marker trait's name; always `Sealed`.
    pub marker_name: String,
    /// The block's generics and where-clause, reused by the marker
    /// implementation.
    pub generics: Generics,
    pub target_type: TypeExpr,
}

/// Everything a successful transformation emits.
#[derive(Debug, PartialEq, Eq)]
pub struct GeneratedArtifacts {
    pub declaration: TraitDeclaration,
    pub implementation: TraitImplementation,
    /// Present iff the configuration is sealed.
    pub sealing: Option<SealingModule>,
}

/// A complete transformation request: the parsed configuration and the
/// impl block it applies to.
#[derive(Debug, PartialEq, Eq)]
pub struct TransformationRequest {
    pub config: Configuration,
    pub block: ImplBlock,
}

/// The sealing module's name: a fixed prefix on the resolved trait
/// name.
pub open spec fn seal_module_name_seq(trait_name: Seq<char>) -> Seq<char> {
    "sealed_"@ + trait_name
}

/// The marker bound injected into the supertrait list when sealed.
pub open spec fn seal_bound_seq(trait_name: Seq<char>) -> Seq<char> {
    seal_module_name_seq(trait_name) + "::Sealed"@
}

/// The declaration's supertrait list: the sealing marker bound first
/// iff sealed, then the configured extra supertraits, in order.
pub open spec fn spec_supertraits(cfg: ConfigurationView, trait_name: Seq<char>) -> Seq<Seq<char>> {
    if cfg.sealed {
        seq![seal_bound_seq(trait_name)] + cfg.extra_supertraits
    } else {
        cfg.extra_supertraits
    }
}

/// The resolved trait name: the explicit override verbatim when one is
/// set — the synthesizer is not consulted — and the synthesized name
/// otherwise.
pub open spec fn resolved_name_seq(cfg: ConfigurationView, d: DescriptorView) -> Seq<char> {
    match cfg.trait_name_override {
        Some(n) => n,
        None => generated_name_seq(d),
    }
}

pub open spec fn trait_impl_rejection(span: Span) -> DiagnosticView {
    DiagnosticView {
        kind: ErrorKind::UnsupportedTraitImplError,
        span,
        message: "the block is a trait implementation, not an inherent impl"@,
    }
}

/// The diagnostic a block is rejected with, if any: a trait impl is
/// rejected first, then an unsupported target type, then the leftmost
/// non-method member.
pub open spec fn spec_transform_err(block: ImplBlock) -> Option<DiagnosticView> {
    if block.is_trait_impl {
        Some(trait_impl_rejection(block.span))
    } else {
        match spec_classify(type_view(block.target_type)) {
            Err(e) => Some(e),
            Ok(_) => spec_members_err(block.members@, 0),
        }
    }
}

/// Relates the emitted artifacts to the configuration and the block:
/// the declaration carries the block's pass-through attributes, the
/// configured visibility, the resolved name, the block's generics, the
/// supertrait list and the signature-only items; the implementation implements the resolved
/// trait for the original target type with the original members —
/// bodies intact; the sealing module is present iff sealed, and seals
/// exactly the target type.
pub open spec fn artifacts_match(
    cfg: ConfigurationView,
    block: ImplBlock,
    a: GeneratedArtifacts,
) -> bool {
    match spec_classify(type_view(block.target_type)) {
        Ok(dv) => {
            let name = resolved_name_seq(cfg, dv);
            &&& a.declaration.attributes@ == block.attributes@
            &&& a.declaration.visibility@ == cfg.visibility
            &&& a.declaration.name@ == name
            &&& a.declaration.generics@ == block.generics@
            &&& a.declaration.supertraits.deep_view() == spec_supertraits(cfg, name)
            &&& trait_items_match(a.declaration.items@, block.members@)
            &&& a.implementation.trait_name@ == name
            &&& a.implementation.generics@ == block.generics@
            &&& a.implementation.target_type == block.target_type
            &&& a.implementation.members@ == block.members@
            &&& (cfg.sealed <==> a.sealing is Some)
            &&& match a.sealing {
                Some(sm) => {
                    &&& sm.name@ == seal_module_name_seq(name)
                    &&& sm.marker_name@ == "Sealed"@
                    &&& sm.generics@ == block.generics@
                    &&& type_view(sm.target_type) == type_view(block.target_type)
                },
                None => true,
            }
        },
        Err(_) => false,
    }
}

/// Law: the explicit name override always wins — when one is set, the
/// resolved name is the override verbatim, whatever the target type's
/// shape; the synthesized name enters the result only when no override
/// is set.
pub proof fn lemma_override_wins(cfg: ConfigurationView, d: DescriptorView, name: Seq<char>)
    requires
        cfg.trait_name_override == Some(name),
    ensures
        resolved_name_seq(cfg, d) == name,
{
}

/// Law: the sealing invariant. When sealed, the supertrait list leads
/// with the sealing marker bound, followed by the extra supertraits;
/// when unsealed, it is exactly the extra supertraits and no marker
/// bound is injected.
pub proof fn lemma_sealing_invariant(cfg: ConfigurationView, trait_name: Seq<char>)
    ensures
        cfg.sealed ==> spec_supertraits(cfg, trait_name).len() == cfg.extra_supertraits.len() + 1
            && spec_supertraits(cfg, trait_name)[0] == seal_bound_seq(trait_name)
            && spec_supertraits(cfg, trait_name).skip(1) == cfg.extra_supertraits,
        !cfg.sealed ==> spec_supertraits(cfg, trait_name) == cfg.extra_supertraits,
{
    if cfg.sealed {
        assert(spec_supertraits(cfg, trait_name).skip(1) =~= cfg.extra_supertraits);
    }
}

/// Transforms a request into the generated artifacts, or rejects it
/// with a single diagnostic. The whole result is a pure function of
/// the request: there is no hidden state, no partial success and no
/// silent fallback.
pub fn transform(req: TransformationRequest) -> (r: Result<GeneratedArtifacts, Diagnostic>)
    ensures
        match r {
            Ok(a) => spec_transform_err(req.block) is None && artifacts_match(
                req.config@,
                req.block,
                a,
            ),
            Err(e) => spec_transform_err(req.block) == Some(e@),
        },
{
    let TransformationRequest { config, block } = req;
    if block.is_trait_impl {
        return Err(Diagnostic {
            kind: ErrorKind::UnsupportedTraitImplError,
            span: block.span,
            message: "the block is a trait implementation, not an inherent impl".to_owned(),
        });
    }
    let descriptor = match classify(&block.target_type) {
        Ok(d) => d,
        Err(e) => {
            return Err(e);
        },
    };
    let items = match transform_members(&block.members) {
        Ok(items) => items,
        Err(e) => {
            return Err(e);
        },
    };
    let name = match &config.trait_name_override {
        Some(n) => n.clone(),
        None => synthesize_name(&descriptor),
    };
    let mut supertraits = clone_tokens(&config.extra_supertraits);
    let ghost extras = supertraits@;
    let sealing: Option<SealingModule> = if config.sealed {
        let mut module_name = "sealed_".to_owned();
        module_name.append(name.as_str());
        let mut bound = module_name.clone();
        bound.append("::Sealed");
        supertraits.insert(0, bound);
        Some(SealingModule {
            name: module_name,
            marker_name: "Sealed".to_owned(),
            generics: clone_generics(&block.generics),
            target_type: clone_type(&block.target_type),
        })
    } else {
        None
    };
    proof {
        let name_v = resolved_name_seq(config@, descriptor@);
        assert(name@ == name_v);
        if config.sealed {
            assert(supertraits@ =~= seq![supertraits@[0]] + extras);
        }
        assert(supertraits.deep_view() =~= spec_supertraits(config@, name_v));
    }
    let declaration = TraitDeclaration {
        attributes: block.attributes,
        visibility: config.visibility,
        name: name.clone(),
        generics: clone_generics(&block.generics),
        supertraits,
        items,
    };
    let implementation = TraitImplementation {
        trait_name: name,
        generics: block.generics,
        target_type: block.target_type,
        members: block.members,
    };
    Ok(GeneratedArtifacts { declaration, implementation, sealing })
}

/// Runs the whole engine on one request: parses the directive list,
/// then transforms the block. Configuration errors abort before
/// classification; every failure yields exactly one diagnostic and no
/// artifacts.
pub fn run(items: &Vec<ConfigItem>, block: ImplBlock) -> (r: Result<GeneratedArtifacts, Diagnostic>)
    ensures
        match spec_parse_config(items@, 0, default_config_view()) {
            Err(ev) => r matches Err(e) && e@ == ev,
            Ok(cv) => match r {
                Ok(a) => spec_transform_err(block) is None && artifacts_match(cv, block, a),
                Err(e) => spec_transform_err(block) == Some(e@),
            },
        },
{
    let config = match parse_config(items) {
        Ok(c) => c,
        Err(e) => {
            return Err(e);
        },
    };
    transform(TransformationRequest { config, block })
}

} // verus!
