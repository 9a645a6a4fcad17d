//! What the effects of each call amount to, taken together.

use crate::effects::{DepositRequest, Effect, Event};
use crate::ledger::{Call, Ledger};
use crate::rules::{
    cancelled, claim_timeout_effects, completed, create_match_effects, deposit_effects, funded,
    initialize_effects, kept, new_match, only_if, payout, published, share, stored,
    with_deposit, with_result,
};
use crate::types::{Address, DataKey, Instance, Match, MatchState, Winner};
use vstd::prelude::*;

verus! {

pub(crate) proof fn lemma_perform_two(l: Ledger, a: Seq<Effect>, b: Seq<Effect>)
    ensures
        l.perform_all(a + b) == l.perform_all(a).perform_all(b),
    decreases b.len(),
{
    if b.len() == 0 {
        assert(a + b =~= a);
    } else {
        lemma_perform_two(l, a, b.drop_last());
        assert((a + b).drop_last() =~= a + b.drop_last());
        assert((a + b).last() == b.last());
    }
}

pub(crate) proof fn lemma_perform_one(l: Ledger, effect: Effect)
    ensures
        l.perform_all(seq![effect]) == l.perform(effect),
{
    assert(seq![effect].drop_last() =~= Seq::<Effect>::empty());
    reveal_with_fuel(Ledger::perform_all, 2);
}

pub(crate) proof fn lemma_perform_only_if(l: Ledger, condition: bool, effect: Effect)
    ensures
        l.perform_all(only_if(condition, effect)) == if condition {
            l.perform(effect)
        } else {
            l
        },
{
    if condition {
        lemma_perform_one(l, effect);
    }
}

pub(crate) proof fn lemma_perform_stored(l: Ledger, match_id: u64, m: Match)
    ensures
        l.perform_all(stored(match_id, m)) == (Ledger {
            matches: l.matches.insert(match_id, m),
            ..l
        }),
{
    let put = Effect::PutMatch { match_id, record: m };
    let keep = kept(DataKey::Match(match_id));
    assert(stored(match_id, m) =~= seq![put] + seq![keep]);
    lemma_perform_two(l, seq![put], seq![keep]);
    lemma_perform_one(l, put);
    lemma_perform_one(l.perform(put), keep);
}

/// The ledger after a call that writes one match and moves some tokens.
pub open spec fn rewritten(
    l: Ledger,
    match_id: u64,
    m: Match,
    collected: int,
    paid: int,
) -> Ledger {
    Ledger {
        matches: l.matches.insert(match_id, m),
        collected: l.collected + collected,
        paid: l.paid + paid,
        ..l
    }
}

/// The ledger after a call that is accepted.
pub open spec fn outcome(l: Ledger, call: Call) -> Ledger {
    match call {
        Call::Initialize { oracle, admin, token } => Ledger {
            instance: Instance {
                oracle: Some(oracle),
                admin: Some(admin),
                token: Some(token),
                match_count: Some(0),
                paused: Some(false),
            },
            ..l
        },
        Call::UpdateOracle { new_oracle } => Ledger {
            instance: Instance { oracle: Some(new_oracle), ..l.instance },
            ..l
        },
        Call::TransferAdmin { new_admin, .. } => Ledger {
            instance: Instance { admin: Some(new_admin), ..l.instance },
            ..l
        },
        Call::Pause { .. } => Ledger {
            instance: Instance { paused: Some(true), ..l.instance },
            ..l
        },
        Call::Unpause { .. } => Ledger {
            instance: Instance { paused: Some(false), ..l.instance },
            ..l
        },
        Call::CreateMatch {
            sequence,
            player1,
            player2,
            stake_amount,
            token,
            game_id,
            platform,
        } => Ledger {
            instance: Instance { match_count: Some((l.size() + 1) as u64), ..l.instance },
            matches: l.matches.insert(
                l.size(),
                new_match(
                    l.instance,
                    sequence,
                    player1,
                    player2,
                    stake_amount,
                    token,
                    game_id,
                    platform,
                ),
            ),
            games: l.games.insert(game_id@, l.size()),
            ..l
        },
        Call::Deposit { match_id, player, sequence, .. } => {
            let m = l.matches[match_id];
            rewritten(l, match_id, with_deposit(m, player, sequence), m.stake_amount as int, 0)
        },
        Call::SubmitResult { match_id, winner, sequence, .. } => rewritten(
            l,
            match_id,
            with_result(l.matches[match_id], winner, sequence),
            0,
            0,
        ),
        Call::OverrideResult { match_id, new_winner, .. } => rewritten(
            l,
            match_id,
            Match { pending_winner: Some(new_winner), ..l.matches[match_id] },
            0,
            0,
        ),
        Call::FinalizeResult { match_id, sequence } => {
            let m = l.matches[match_id];
            rewritten(l, match_id, completed(m, sequence), 0, 2 * m.stake_amount)
        },
        Call::ClaimTimeout { match_id, .. } => {
            let m = l.matches[match_id];
            rewritten(
                l,
                match_id,
                Match { state: MatchState::Cancelled, ..m },
                0,
                2 * m.stake_amount,
            )
        },
        Call::CancelMatch { match_id, sequence, .. } => {
            let m = l.matches[match_id];
            rewritten(
                l,
                match_id,
                cancelled(m, sequence),
                0,
                share(m.player1_deposited, m.stake_amount) + share(
                    m.player2_deposited,
                    m.stake_amount,
                ),
            )
        },
        Call::EmergencyDrain { balance, .. } => Ledger {
            paid: l.paid + if balance > 0 {
                balance as int
            } else {
                0
            },
            ..l
        },
    }
}

pub(crate) proof fn lemma_initialize(l: Ledger, oracle: Address, admin: Address, token: Address)
    ensures
        l.perform_all(initialize_effects(oracle, admin, token)) == outcome(
            l,
            Call::Initialize { oracle, admin, token },
        ),
{
    reveal_with_fuel(Ledger::perform_all, 7);
    let e = initialize_effects(oracle, admin, token);
    assert(e.drop_last() =~= e.take(5));
    assert(e.take(5).drop_last() =~= e.take(4));
    assert(e.take(4).drop_last() =~= e.take(3));
    assert(e.take(3).drop_last() =~= e.take(2));
    assert(e.take(2).drop_last() =~= e.take(1));
    assert(e.take(1).drop_last() =~= e.take(0));
}

/// One setting and one event.
pub(crate) proof fn lemma_setting(l: Ledger, effect: Effect, event: Event)
    ensures
        l.perform_all(seq![effect] + published(event)) == l.perform(effect),
{
    lemma_perform_two(l, seq![effect], published(event));
    lemma_perform_one(l, effect);
    lemma_perform_one(l.perform(effect), Effect::Publish { event });
}

pub(crate) proof fn lemma_create_match(l: Ledger, m: Match)
    ensures
        l.perform_all(create_match_effects(m)) == (Ledger {
            instance: Instance { match_count: Some((m.id + 1) as u64), ..l.instance },
            matches: l.matches.insert(m.id, m),
            games: l.games.insert(m.game_id@, m.id),
            ..l
        }),
{
    let a = stored(m.id, m);
    let put = Effect::PutGameId { game_id: m.game_id, match_id: m.id };
    let keep = kept(DataKey::GameId(m.game_id));
    let set = Effect::SetMatchCount { count: (m.id + 1) as u64 };
    let event = Effect::Publish {
        event: Event::MatchCreated {
            match_id: m.id,
            player1: m.player1,
            player2: m.player2,
            stake_amount: m.stake_amount,
            game_id: m.game_id,
        },
    };
    assert(create_match_effects(m) =~= a + seq![put] + seq![keep] + seq![set] + seq![event]);
    lemma_perform_two(l, a + seq![put] + seq![keep] + seq![set], seq![event]);
    lemma_perform_two(l, a + seq![put] + seq![keep], seq![set]);
    lemma_perform_two(l, a + seq![put], seq![keep]);
    lemma_perform_two(l, a, seq![put]);
    lemma_perform_stored(l, m.id, m);
    let l1 = l.perform_all(a);
    lemma_perform_one(l1, put);
    let l2 = l1.perform(put);
    lemma_perform_one(l2, keep);
    lemma_perform_one(l2, set);
    lemma_perform_one(l2.perform(set), event);
}

/// Two token transfers at most, then one match and one event.
pub(crate) proof fn lemma_settlement(
    l: Ledger,
    first: bool,
    a: Effect,
    second: bool,
    b: Effect,
    match_id: u64,
    m: Match,
    event: Event,
)
    ensures
        l.perform_all(
            only_if(first, a) + only_if(second, b) + stored(match_id, m) + published(event),
        ) == {
            let l1 = if first {
                l.perform(a)
            } else {
                l
            };
            let l2 = if second {
                l1.perform(b)
            } else {
                l1
            };
            Ledger { matches: l2.matches.insert(match_id, m), ..l2 }
        },
{
    let l1 = if first {
        l.perform(a)
    } else {
        l
    };
    let l2 = if second {
        l1.perform(b)
    } else {
        l1
    };
    lemma_perform_two(
        l,
        only_if(first, a) + only_if(second, b) + stored(match_id, m),
        published(event),
    );
    lemma_perform_two(l, only_if(first, a) + only_if(second, b), stored(match_id, m));
    lemma_perform_two(l, only_if(first, a), only_if(second, b));
    lemma_perform_only_if(l, first, a);
    lemma_perform_only_if(l1, second, b);
    lemma_perform_stored(l2, match_id, m);
    lemma_perform_one(
        Ledger { matches: l2.matches.insert(match_id, m), ..l2 },
        Effect::Publish { event },
    );
}

pub(crate) proof fn lemma_deposit(l: Ledger, request: DepositRequest, sequence: u32)
    ensures
        l.perform_all(deposit_effects(request, sequence)) == rewritten(
            l,
            request.match_id,
            with_deposit(request.record, request.player, sequence),
            request.record.stake_amount as int,
            0,
        ),
{
    let m = request.record;
    let updated = with_deposit(m, request.player, sequence);
    let all = deposit_effects(request, sequence);
    let collect = Effect::Collect {
        token: m.token,
        from: request.player,
        amount: m.stake_amount,
    };
    let active = Effect::Publish { event: Event::MatchActivated { match_id: request.match_id } };
    let a = seq![collect];
    let b = only_if(funded(updated), active);
    let d = stored(request.match_id, updated);
    let event = all[all.len() - 3];
    assert(all =~= a + b + seq![event] + d);
    lemma_perform_two(l, a + b + seq![event], d);
    lemma_perform_two(l, a + b, seq![event]);
    lemma_perform_two(l, a, b);
    lemma_perform_one(l, collect);
    let l1 = l.perform(collect);
    lemma_perform_only_if(l1, funded(updated), active);
    lemma_perform_one(l1, event);
    lemma_perform_stored(l1, request.match_id, updated);
}

/// What an accepted call amounts to.
pub(crate) proof fn lemma_step(l: Ledger, call: Call)
    requires
        l.planned(call) is Some,
    ensures
        l.step(call) == outcome(l, call),
{
    match call {
        Call::Initialize { oracle, admin, token } => {
            lemma_initialize(l, oracle, admin, token);
        },
        Call::UpdateOracle { new_oracle } => {
            lemma_setting(
                l,
                Effect::SetOracle { oracle: new_oracle },
                Event::OracleUpdated {
                    old_oracle: l.instance.oracle->0,
                    new_oracle,
                    admin: l.instance.admin->0,
                },
            );
        },
        Call::TransferAdmin { caller, new_admin } => {
            lemma_setting(
                l,
                Effect::SetAdmin { admin: new_admin },
                Event::AdminTransferred { old_admin: caller, new_admin },
            );
        },
        Call::Pause { sequence } => {
            lemma_setting(
                l,
                Effect::SetPaused { paused: true },
                Event::Paused { admin: l.instance.admin->0, sequence },
            );
        },
        Call::Unpause { sequence } => {
            lemma_setting(
                l,
                Effect::SetPaused { paused: false },
                Event::Unpaused { admin: l.instance.admin->0, sequence },
            );
        },
        Call::CreateMatch {
            sequence,
            player1,
            player2,
            stake_amount,
            token,
            game_id,
            platform,
        } => {
            lemma_create_match(
                l,
                new_match(
                    l.instance,
                    sequence,
                    player1,
                    player2,
                    stake_amount,
                    token,
                    game_id,
                    platform,
                ),
            );
        },
        Call::Deposit { match_id, player, sequence, .. } => {
            lemma_deposit(
                l,
                DepositRequest { match_id, player, record: l.matches[match_id] },
                sequence,
            );
        },
        Call::SubmitResult { match_id, winner, sequence, .. } => {
            let m = with_result(l.matches[match_id], winner, sequence);
            let event = Event::ResultPending { match_id, winner, sequence };
            lemma_perform_two(l, stored(match_id, m), published(event));
            lemma_perform_stored(l, match_id, m);
            lemma_perform_one(l.perform_all(stored(match_id, m)), Effect::Publish { event });
        },
        Call::OverrideResult { match_id, new_winner, .. } => {
            let old_m = l.matches[match_id];
            let m = Match { pending_winner: Some(new_winner), ..old_m };
            let event = Event::ResultOverridden {
                match_id,
                old_winner: old_m.pending_winner,
                new_winner,
            };
            lemma_perform_two(l, stored(match_id, m), published(event));
            lemma_perform_stored(l, match_id, m);
            lemma_perform_one(l.perform_all(stored(match_id, m)), Effect::Publish { event });
        },
        Call::FinalizeResult { match_id, sequence } => {
            let m = l.matches[match_id];
            let winner = m.pending_winner->0;
            let amount = payout(m, winner) as i128;
            lemma_settlement(
                l,
                winner != Winner::Player2,
                Effect::Pay { token: m.token, to: m.player1, amount },
                winner != Winner::Player1,
                Effect::Pay { token: m.token, to: m.player2, amount },
                match_id,
                completed(m, sequence),
                Event::MatchCompleted { match_id, winner, payout: amount },
            );
        },
        Call::ClaimTimeout { match_id, caller, .. } => {
            let m = l.matches[match_id];
            let a = Effect::Pay { token: m.token, to: m.player1, amount: m.stake_amount };
            let b = Effect::Pay { token: m.token, to: m.player2, amount: m.stake_amount };
            let event = Event::MatchTimedOut { match_id, caller };
            let record = Match { state: MatchState::Cancelled, ..m };
            lemma_settlement(l, true, a, true, b, match_id, record, event);
            assert(claim_timeout_effects(m, match_id, caller) =~= only_if(true, a) + only_if(
                true,
                b,
            ) + stored(match_id, record) + published(event));
        },
        Call::CancelMatch { match_id, caller, sequence } => {
            let m = l.matches[match_id];
            lemma_settlement(
                l,
                m.player1_deposited,
                Effect::Refund { token: m.token, to: m.player1, amount: m.stake_amount },
                m.player2_deposited,
                Effect::Refund { token: m.token, to: m.player2, amount: m.stake_amount },
                match_id,
                cancelled(m, sequence),
                Event::MatchCancelled {
                    match_id,
                    caller,
                    player1_refund: share(m.player1_deposited, m.stake_amount),
                    player2_refund: share(m.player2_deposited, m.stake_amount),
                },
            );
        },
        Call::EmergencyDrain { to, caller, balance } => {
            let pay = Effect::Pay { token: l.instance.token->0, to, amount: balance };
            let event = Event::Drained { balance, to, admin: caller };
            lemma_perform_two(l, only_if(balance > 0, pay), published(event));
            lemma_perform_only_if(l, balance > 0, pay);
            lemma_perform_one(
                l.perform_all(only_if(balance > 0, pay)),
                Effect::Publish { event },
            );
        },
    }
}

} // verus!
