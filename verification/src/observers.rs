//! What a list of effects amounts to for those who watch the contract: the token holders, the
//! readers of its events, and the readers of its storage.

use crate::effects::{Effect, Event};
use crate::types::Address;
use vstd::prelude::*;

verus! {

/// The token transfers among some effects, in order.
pub open spec fn moved(effects: Seq<Effect>) -> Seq<Effect>
    decreases effects.len(),
{
    if effects.len() == 0 {
        seq![]
    } else {
        let before = moved(effects.drop_last());
        match effects.last() {
            Effect::Collect { .. } | Effect::Refund { .. } | Effect::Pay { .. } => before.push(
                effects.last(),
            ),
            _ => before,
        }
    }
}

/// The events that some effects publish, in order.
pub open spec fn told(effects: Seq<Effect>) -> Seq<Event>
    decreases effects.len(),
{
    if effects.len() == 0 {
        seq![]
    } else {
        let before = told(effects.drop_last());
        match effects.last() {
            Effect::Publish { event } => before.push(event),
            _ => before,
        }
    }
}

/// The storage writes among some effects, in order.
pub open spec fn written(effects: Seq<Effect>) -> Seq<Effect>
    decreases effects.len(),
{
    if effects.len() == 0 {
        seq![]
    } else {
        let before = written(effects.drop_last());
        match effects.last() {
            Effect::SetOracle { .. } | Effect::SetAdmin { .. } | Effect::SetToken { .. }
            | Effect::SetMatchCount { .. } | Effect::SetPaused { .. } | Effect::PutMatch { .. }
            | Effect::PutGameId { .. } => before.push(effects.last()),
            _ => before,
        }
    }
}

/// The extensions of the life of stored entries among some effects, in order.
pub open spec fn extended(effects: Seq<Effect>) -> Seq<Effect>
    decreases effects.len(),
{
    if effects.len() == 0 {
        seq![]
    } else {
        let before = extended(effects.drop_last());
        match effects.last() {
            Effect::ExtendTtl { .. } => before.push(effects.last()),
            _ => before,
        }
    }
}

/// The tokens that some effects ask for their decimals, in order.
pub open spec fn asked(effects: Seq<Effect>) -> Seq<Address>
    decreases effects.len(),
{
    if effects.len() == 0 {
        seq![]
    } else {
        let before = asked(effects.drop_last());
        match effects.last() {
            Effect::ReadDecimals { token } => before.push(token),
            _ => before,
        }
    }
}

/// Whether no token moves after something was stored.
pub open spec fn pays_before_it_stores(effects: Seq<Effect>) -> bool {
    forall|i: int, j: int|
        0 <= i < j < effects.len() && #[trigger] effects[i] is PutMatch ==> !(
        #[trigger] effects[j] is Collect || effects[j] is Refund || effects[j] is Pay)
}

pub(crate) broadcast proof fn lemma_moved_push(s: Seq<Effect>, effect: Effect)
    ensures
        #[trigger] moved(s.push(effect)) == match effect {
            Effect::Collect { .. } | Effect::Refund { .. } | Effect::Pay { .. } => moved(s).push(
                effect,
            ),
            _ => moved(s),
        },
{
    assert(s.push(effect).drop_last() =~= s);
}

pub(crate) broadcast proof fn lemma_told_push(s: Seq<Effect>, effect: Effect)
    ensures
        #[trigger] told(s.push(effect)) == match effect {
            Effect::Publish { event } => told(s).push(event),
            _ => told(s),
        },
{
    assert(s.push(effect).drop_last() =~= s);
}

pub(crate) broadcast proof fn lemma_written_push(s: Seq<Effect>, effect: Effect)
    ensures
        #[trigger] written(s.push(effect)) == match effect {
            Effect::SetOracle { .. } | Effect::SetAdmin { .. } | Effect::SetToken { .. }
            | Effect::SetMatchCount { .. } | Effect::SetPaused { .. } | Effect::PutMatch { .. }
            | Effect::PutGameId { .. } => written(s).push(effect),
            _ => written(s),
        },
{
    assert(s.push(effect).drop_last() =~= s);
}

pub(crate) broadcast proof fn lemma_extended_push(s: Seq<Effect>, effect: Effect)
    ensures
        #[trigger] extended(s.push(effect)) == match effect {
            Effect::ExtendTtl { .. } => extended(s).push(effect),
            _ => extended(s),
        },
{
    assert(s.push(effect).drop_last() =~= s);
}

pub(crate) broadcast proof fn lemma_asked_push(s: Seq<Effect>, effect: Effect)
    ensures
        #[trigger] asked(s.push(effect)) == match effect {
            Effect::ReadDecimals { token } => asked(s).push(token),
            _ => asked(s),
        },
{
    assert(s.push(effect).drop_last() =~= s);
}

} // verus!
