//! What the effects of a call move to whom, piece by piece.

use crate::effects::{Effect, Event};
use crate::ledger::{paid_to, pays};
use crate::rules::{kept, only_if, published, stored};
use crate::types::{Address, DataKey, Match};
use vstd::prelude::*;

verus! {

pub(crate) proof fn lemma_paid_two(a: Seq<Effect>, b: Seq<Effect>, address: Address)
    ensures
        paid_to(a + b, address) == paid_to(a, address) + paid_to(b, address),
    decreases b.len(),
{
    if b.len() == 0 {
        assert(a + b =~= a);
    } else {
        lemma_paid_two(a, b.drop_last(), address);
        assert((a + b).drop_last() =~= a + b.drop_last());
        assert((a + b).last() == b.last());
    }
}

pub(crate) proof fn lemma_paid_one(effect: Effect, address: Address)
    ensures
        paid_to(seq![effect], address) == pays(effect, address),
{
    reveal_with_fuel(paid_to, 2);
    assert(seq![effect].drop_last() =~= Seq::<Effect>::empty());
}

pub(crate) proof fn lemma_paid_only_if(condition: bool, effect: Effect, address: Address)
    ensures
        paid_to(only_if(condition, effect), address) == if condition {
            pays(effect, address)
        } else {
            0
        },
{
    if condition {
        lemma_paid_one(effect, address);
    }
}

/// Two token transfers at most, then one match and one event.
pub(crate) proof fn lemma_paid_by_settlement(
    first: bool,
    a: Effect,
    second: bool,
    b: Effect,
    match_id: u64,
    m: Match,
    event: Event,
    address: Address,
)
    ensures
        paid_to(
            only_if(first, a) + only_if(second, b) + stored(match_id, m) + published(event),
            address,
        ) == (if first {
            pays(a, address)
        } else {
            0
        }) + (if second {
            pays(b, address)
        } else {
            0
        }),
{
    let put = Effect::PutMatch { match_id, record: m };
    let keep = kept(DataKey::Match(match_id));
    lemma_paid_two(
        only_if(first, a) + only_if(second, b) + stored(match_id, m),
        published(event),
        address,
    );
    lemma_paid_two(only_if(first, a) + only_if(second, b), stored(match_id, m), address);
    lemma_paid_two(only_if(first, a), only_if(second, b), address);
    lemma_paid_two(seq![put], seq![keep], address);
    assert(stored(match_id, m) =~= seq![put] + seq![keep]);
    lemma_paid_only_if(first, a, address);
    lemma_paid_only_if(second, b, address);
    lemma_paid_one(put, address);
    lemma_paid_one(keep, address);
    lemma_paid_one(Effect::Publish { event }, address);
}

} // verus!
