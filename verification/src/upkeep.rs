//! That the effects of every call keep alive what they store, piece by piece.

use crate::effects::{DepositRequest, Effect, Event};
use crate::ledger::{kept_alive, Call, Ledger};
use crate::rules::{
    cancelled, completed, create_match_effects, deposit_effects, funded, kept, new_match,
    only_if, payout, published, share, stored, with_deposit, with_result,
};
use crate::types::{DataKey, Match, MatchState, Side, Winner};
use vstd::prelude::*;

verus! {

pub(crate) proof fn lemma_kept_alive_two(a: Seq<Effect>, b: Seq<Effect>)
    requires
        kept_alive(a),
        kept_alive(b),
    ensures
        kept_alive(a + b),
{
    reveal(kept_alive);
    let c = a + b;
    assert forall|i: int| 0 <= i < c.len() implies match #[trigger] c[i] {
        Effect::PutMatch { match_id, .. } => i + 1 < c.len() && c[i + 1] == kept(
            DataKey::Match(match_id),
        ),
        Effect::PutGameId { game_id, .. } => i + 1 < c.len() && c[i + 1] == kept(
            DataKey::GameId(game_id),
        ),
        _ => true,
    } by {
        if i < a.len() {
            assert(c[i] == a[i]);
            if i + 1 < a.len() {
                assert(c[i + 1] == a[i + 1]);
            }
        } else {
            assert(c[i] == b[i - a.len()]);
        }
    }
}

/// Whether an effect stores something that has a life of its own.
pub open spec fn puts(effect: Effect) -> bool {
    effect is PutMatch || effect is PutGameId
}

pub(crate) proof fn lemma_kept_alive_one(effect: Effect)
    requires
        !puts(effect),
    ensures
        kept_alive(seq![effect]),
        kept_alive(seq![]),
{
    reveal(kept_alive);
}

pub(crate) proof fn lemma_kept_alive_stored(match_id: u64, m: Match)
    ensures
        kept_alive(stored(match_id, m)),
{
    reveal(kept_alive);
}

/// One setting and one event.
pub(crate) proof fn lemma_kept_alive_setting(effect: Effect, event: Event)
    requires
        !puts(effect),
    ensures
        kept_alive(seq![effect] + published(event)),
{
    lemma_kept_alive_one(effect);
    lemma_kept_alive_one(Effect::Publish { event });
    lemma_kept_alive_two(seq![effect], published(event));
}

/// Some transfers, then one match and one event.
pub(crate) proof fn lemma_kept_alive_settlement(
    transfers: Seq<Effect>,
    match_id: u64,
    m: Match,
    event: Event,
)
    requires
        kept_alive(transfers),
    ensures
        kept_alive(transfers + stored(match_id, m) + published(event)),
{
    lemma_kept_alive_stored(match_id, m);
    lemma_kept_alive_two(transfers, stored(match_id, m));
    lemma_kept_alive_one(Effect::Publish { event });
    lemma_kept_alive_two(transfers + stored(match_id, m), published(event));
}

pub(crate) proof fn lemma_kept_alive_transfers(first: bool, a: Effect, second: bool, b: Effect)
    requires
        !puts(a),
        !puts(b),
    ensures
        kept_alive(only_if(first, a) + only_if(second, b)),
{
    lemma_kept_alive_one(a);
    lemma_kept_alive_one(b);
    lemma_kept_alive_two(only_if(first, a), only_if(second, b));
}

pub(crate) proof fn lemma_kept_alive_creation(m: Match)
    ensures
        kept_alive(create_match_effects(m)),
{
    let event = Event::MatchCreated {
        match_id: m.id,
        player1: m.player1,
        player2: m.player2,
        stake_amount: m.stake_amount,
        game_id: m.game_id,
    };
    let named = seq![
        Effect::PutGameId { game_id: m.game_id, match_id: m.id },
        kept(DataKey::GameId(m.game_id)),
        Effect::SetMatchCount { count: (m.id + 1) as u64 },
    ];
    assert(kept_alive(named)) by {
        reveal(kept_alive);
    }
    lemma_kept_alive_stored(m.id, m);
    lemma_kept_alive_two(stored(m.id, m), named);
    lemma_kept_alive_one(Effect::Publish { event });
    lemma_kept_alive_two(stored(m.id, m) + named, published(event));
}

pub(crate) proof fn lemma_kept_alive_deposit(request: DepositRequest, sequence: u32)
    ensures
        kept_alive(deposit_effects(request, sequence)),
{
    let m = request.record;
    let updated = with_deposit(m, request.player, sequence);
    let collect = Effect::Collect {
        token: m.token,
        from: request.player,
        amount: m.stake_amount,
    };
    let active = Effect::Publish { event: Event::MatchActivated { match_id: request.match_id } };
    let event = Event::Deposited {
        match_id: request.match_id,
        player: request.player,
        amount: m.stake_amount,
        side: if request.player == m.player1 {
            Side::Player1
        } else {
            Side::Player2
        },
    };
    lemma_kept_alive_one(collect);
    lemma_kept_alive_one(active);
    lemma_kept_alive_two(seq![collect], only_if(funded(updated), active));
    lemma_kept_alive_one(Effect::Publish { event });
    lemma_kept_alive_two(
        seq![collect] + only_if(funded(updated), active),
        published(event),
    );
    lemma_kept_alive_stored(request.match_id, updated);
    lemma_kept_alive_two(
        seq![collect] + only_if(funded(updated), active) + published(event),
        stored(request.match_id, updated),
    );
}

/// What holds of the pieces holds of the effects of every call.
pub(crate) proof fn lemma_kept_alive(l: Ledger, call: Call)
    requires
        l.planned(call) is Some,
    ensures
        kept_alive(l.planned(call)->0),
{
    match call {
        Call::Initialize { oracle, admin, token } => {
            reveal(kept_alive);
        },
        Call::UpdateOracle { new_oracle } => {
            lemma_kept_alive_setting(
                Effect::SetOracle { oracle: new_oracle },
                Event::OracleUpdated {
                    old_oracle: l.instance.oracle->0,
                    new_oracle,
                    admin: l.instance.admin->0,
                },
            );
        },
        Call::TransferAdmin { caller, new_admin } => {
            lemma_kept_alive_setting(
                Effect::SetAdmin { admin: new_admin },
                Event::AdminTransferred { old_admin: caller, new_admin },
            );
        },
        Call::Pause { sequence } => {
            lemma_kept_alive_setting(
                Effect::SetPaused { paused: true },
                Event::Paused { admin: l.instance.admin->0, sequence },
            );
        },
        Call::Unpause { sequence } => {
            lemma_kept_alive_setting(
                Effect::SetPaused { paused: false },
                Event::Unpaused { admin: l.instance.admin->0, sequence },
            );
        },
        Call::CreateMatch {
            sequence,
            player1,
            player2,
            stake_amount,
            token,
            game_id,
            platform,
        } => {
            lemma_kept_alive_creation(
                new_match(
                    l.instance,
                    sequence,
                    player1,
                    player2,
                    stake_amount,
                    token,
                    game_id,
                    platform,
                ),
            );
        },
        Call::Deposit { match_id, player, sequence, .. } => {
            lemma_kept_alive_deposit(
                DepositRequest { match_id, player, record: l.matches[match_id] },
                sequence,
            );
        },
        Call::SubmitResult { match_id, winner, sequence, .. } => {
            let event = Event::ResultPending { match_id, winner, sequence };
            lemma_kept_alive_stored(match_id, with_result(l.matches[match_id], winner, sequence));
            lemma_kept_alive_one(Effect::Publish { event });
            lemma_kept_alive_two(
                stored(match_id, with_result(l.matches[match_id], winner, sequence)),
                published(event),
            );
        },
        Call::OverrideResult { match_id, new_winner, .. } => {
            let m = l.matches[match_id];
            let updated = Match { pending_winner: Some(new_winner), ..m };
            let event = Event::ResultOverridden {
                match_id,
                old_winner: m.pending_winner,
                new_winner,
            };
            lemma_kept_alive_stored(match_id, updated);
            lemma_kept_alive_one(Effect::Publish { event });
            lemma_kept_alive_two(stored(match_id, updated), published(event));
        },
        Call::FinalizeResult { match_id, sequence } => {
            let m = l.matches[match_id];
            let winner = m.pending_winner->0;
            let amount = payout(m, winner) as i128;
            let a = Effect::Pay { token: m.token, to: m.player1, amount };
            let b = Effect::Pay { token: m.token, to: m.player2, amount };
            lemma_kept_alive_transfers(
                winner != Winner::Player2,
                a,
                winner != Winner::Player1,
                b,
            );
            lemma_kept_alive_settlement(
                only_if(winner != Winner::Player2, a) + only_if(winner != Winner::Player1, b),
                match_id,
                completed(m, sequence),
                Event::MatchCompleted { match_id, winner, payout: amount },
            );
        },
        Call::ClaimTimeout { match_id, caller, .. } => {
            let m = l.matches[match_id];
            let transfers = seq![
                Effect::Pay { token: m.token, to: m.player1, amount: m.stake_amount },
                Effect::Pay { token: m.token, to: m.player2, amount: m.stake_amount },
            ];
            assert(kept_alive(transfers)) by {
                reveal(kept_alive);
            }
            lemma_kept_alive_settlement(
                transfers,
                match_id,
                Match { state: MatchState::Cancelled, ..m },
                Event::MatchTimedOut { match_id, caller },
            );
        },
        Call::CancelMatch { match_id, caller, sequence } => {
            let m = l.matches[match_id];
            let a = Effect::Refund { token: m.token, to: m.player1, amount: m.stake_amount };
            let b = Effect::Refund { token: m.token, to: m.player2, amount: m.stake_amount };
            lemma_kept_alive_transfers(m.player1_deposited, a, m.player2_deposited, b);
            lemma_kept_alive_settlement(
                only_if(m.player1_deposited, a) + only_if(m.player2_deposited, b),
                match_id,
                cancelled(m, sequence),
                Event::MatchCancelled {
                    match_id,
                    caller,
                    player1_refund: share(m.player1_deposited, m.stake_amount),
                    player2_refund: share(m.player2_deposited, m.stake_amount),
                },
            );
        },
        Call::EmergencyDrain { to, caller, balance } => {
            let pay = Effect::Pay { token: l.instance.token->0, to, amount: balance };
            let event = Event::Drained { balance, to, admin: caller };
            lemma_kept_alive_one(pay);
            lemma_kept_alive_one(Effect::Publish { event });
            lemma_kept_alive_two(only_if(balance > 0, pay), published(event));
        },
    }
}

} // verus!
