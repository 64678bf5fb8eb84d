//! The decision kernel of the credentials provider chain.
//!
//! The host evaluates a series of credential providers one at a time,
//! asynchronously. What happens after each evaluation — hand the loaded
//! credentials back, try the next provider, or stop with the error —
//! is decided here, as is the ordered bookkeeping of the chain itself.
//! The host performs one evaluation per step and follows the returned
//! [`ChainStep`]; the evaluation, the outside provider trait and the
//! logging stay with the host.

use vstd::prelude::*;

verus! {

/// How one provider's evaluation ended, as the host observed it: the
/// credentials were loaded, the provider declined (its not-loaded
/// error), or it failed with any other error.
#[derive(Debug, Clone, Copy, PartialEq, Eq, Structural)]
pub enum ProviderOutcome {
    Loaded,
    NotLoaded,
    Fatal,
}

/// What the chain does next after one provider's outcome.
#[derive(Debug, Clone, Copy, PartialEq, Eq, Structural)]
pub enum ChainStep {
    ReturnCredentials,
    TryNext,
    ReturnError,
}

pub open spec fn spec_chain_step(outcome: ProviderOutcome) -> ChainStep {
    match outcome {
        ProviderOutcome::Loaded => ChainStep::ReturnCredentials,
        ProviderOutcome::NotLoaded => ChainStep::TryNext,
        ProviderOutcome::Fatal => ChainStep::ReturnError,
    }
}

/// What the chain does with one provider's outcome: loaded credentials
/// are returned immediately and no later provider is consulted; a
/// provider that declined is skipped in favour of the next one; any
/// other error stops the chain at once and is returned.
pub fn chain_step(outcome: &ProviderOutcome) -> (r: ChainStep)
    ensures
        r == spec_chain_step(*outcome),
        r is ReturnCredentials <==> *outcome is Loaded,
        r is TryNext <==> *outcome is NotLoaded,
        r is ReturnError <==> *outcome is Fatal,
{
    match outcome {
        ProviderOutcome::Loaded => ChainStep::ReturnCredentials,
        ProviderOutcome::NotLoaded => ChainStep::TryNext,
        ProviderOutcome::Fatal => ChainStep::ReturnError,
    }
}

/// The chain's verdict over a whole outcome sequence: the index of the
/// provider the chain stops at — the first whose outcome is not a
/// decline — or `None` when every provider declined, which is the
/// exhausted-chain error case. Earlier providers are all declines, so
/// the chain evaluates strictly in order and never passes over a
/// success or a fatal error.
pub fn chain_verdict(outcomes: &Vec<ProviderOutcome>) -> (r: Option<usize>)
    ensures
        match r {
            Some(i) => {
                &&& i < outcomes@.len()
                &&& !(outcomes@[i as int] is NotLoaded)
                &&& forall|j: int| 0 <= j < i ==> outcomes@[j] is NotLoaded
            },
            None => forall|j: int| 0 <= j < outcomes@.len() ==> outcomes@[j] is NotLoaded,
        },
{
    let mut i: usize = 0;
    while i < outcomes.len()
        invariant
            i <= outcomes.len(),
            forall|j: int| 0 <= j < i ==> outcomes@[j] is NotLoaded,
        decreases outcomes.len() - i,
    {
        match outcomes[i] {
            ProviderOutcome::NotLoaded => {
                i += 1;
            },
            _ => {
                return Some(i);
            },
        }
    }
    None
}

/// Law: the verdict agrees with the per-outcome step — the chain skips
/// exactly the providers whose step is "try the next one".
pub proof fn lemma_step_skips_exactly_declines(outcome: ProviderOutcome)
    ensures
        spec_chain_step(outcome) is TryNext <==> outcome is NotLoaded,
{
}

/// The chain itself, as the engine models it: the ordered provider
/// labels, first to last. The host pairs each label with the provider
/// object it evaluates.
#[derive(Debug, PartialEq, Eq)]
pub struct ProviderChain {
    pub providers: Vec<String>,
}

impl ProviderChain {
    /// A chain that begins by evaluating the named provider, and
    /// nothing else yet.
    pub fn first_try(name: String) -> (r: ProviderChain)
        ensures
            r.providers@ == seq![name],
    {
        let mut providers: Vec<String> = Vec::new();
        providers.push(name);
        proof {
            assert(providers@ =~= seq![name]);
        }
        ProviderChain { providers }
    }

    /// Adds a fallback provider at the end of the chain; the existing
    /// providers keep their order and are still evaluated first.
    pub fn or_else(self, name: String) -> (r: ProviderChain)
        ensures
            r.providers@ == self.providers@.push(name),
    {
        let mut providers = self.providers;
        providers.push(name);
        ProviderChain { providers }
    }
}

} // verus!
