//! What an accepted call does: which tokens move, what is stored and kept alive, and what the
//! world is told, for whatever match it is about.

use crate::effects::{DepositRequest, DrainRequest, Effect, Event};
use crate::observers::{
    asked, extended, lemma_asked_push, lemma_extended_push, lemma_moved_push, lemma_told_push,
    lemma_written_push, moved, pays_before_it_stores, told, written,
};
use crate::rules::{
    cancel_match_effects, claim_timeout_effects, create_match_effects, deposit_effects,
    drain_effects, finalize_result_effects, initialize_effects, new_match,
    override_result_effects, pause_effects, submit_result_effects, transfer_admin_effects,
    unpause_effects, update_oracle_effects,
};
use crate::types::{
    Address, DataKey, GameId, Instance, Match, MatchState, Platform, Side, Winner,
    MATCH_TTL_LEDGERS,
};
use vstd::prelude::*;

verus! {

broadcast use {
    lemma_moved_push,
    lemma_told_push,
    lemma_written_push,
    lemma_extended_push,
    lemma_asked_push,
};

/// Whether some effects write exactly one match, under `match_id`, and extend its life and no
/// other.
pub open spec fn stores_one_match(effects: Seq<Effect>, match_id: u64) -> bool {
    &&& written(effects).len() == 1
    &&& written(effects)[0] matches Effect::PutMatch { match_id: id, .. } && id == match_id
    &&& extended(effects) == seq![
        Effect::ExtendTtl {
            key: DataKey::Match(match_id),
            threshold: MATCH_TTL_LEDGERS,
            extend_to: MATCH_TTL_LEDGERS,
        },
    ]
    &&& asked(effects).len() == 0
    &&& pays_before_it_stores(effects)
}

/// The match that some effects write first.
pub open spec fn stored_match(effects: Seq<Effect>) -> Match {
    written(effects)[0]->record
}

/// Whether some effects only change settings.
pub open spec fn touches_no_match(effects: Seq<Effect>) -> bool {
    &&& moved(effects).len() == 0
    &&& extended(effects).len() == 0
    &&& forall|i: int|
        0 <= i < written(effects).len() ==> !(#[trigger] written(effects)[i] is PutMatch
            || written(effects)[i] is PutGameId)
}

/// Whether two records agree on everything that the players have agreed on.
pub open spec fn same_terms(a: Match, b: Match) -> bool {
    &&& a.id == b.id
    &&& a.player1 == b.player1
    &&& a.player2 == b.player2
    &&& a.stake_amount == b.stake_amount
    &&& a.token == b.token
    &&& a.game_id == b.game_id
    &&& a.platform == b.platform
    &&& a.created_ledger == b.created_ledger
}

// Settings.

/// Initialization looks at the token and stores what it is given; no match has been created and
/// the contract runs. It is not announced.
pub proof fn law_what_initialization_does(oracle: Address, admin: Address, token: Address)
    ensures
        ({
            let effects = initialize_effects(oracle, admin, token);
            &&& asked(effects) == seq![token]
            &&& effects[0] is ReadDecimals
            &&& written(effects).len() == 5
            &&& written(effects).contains(Effect::SetOracle { oracle })
            &&& written(effects).contains(Effect::SetAdmin { admin })
            &&& written(effects).contains(Effect::SetToken { token })
            &&& written(effects).contains(Effect::SetMatchCount { count: 0 })
            &&& written(effects).contains(Effect::SetPaused { paused: false })
            &&& told(effects).len() == 0
            &&& touches_no_match(effects)
        }),
{
    let effects = initialize_effects(oracle, admin, token);
    let w = seq![
        Effect::SetOracle { oracle },
        Effect::SetAdmin { admin },
        Effect::SetToken { token },
        Effect::SetMatchCount { count: 0 },
        Effect::SetPaused { paused: false },
    ];
    assert(effects =~= Seq::<Effect>::empty()
        .push(Effect::ReadDecimals { token })
        .push(Effect::SetOracle { oracle })
        .push(Effect::SetAdmin { admin })
        .push(Effect::SetToken { token })
        .push(Effect::SetMatchCount { count: 0 })
        .push(Effect::SetPaused { paused: false }));
    assert(written(effects) =~= w);
    assert(w[0] == written(effects)[0] && w[1] == written(effects)[1] && w[2] == written(
        effects,
    )[2] && w[3] == written(effects)[3] && w[4] == written(effects)[4]);
}

/// Each change of a setting stores the new value, names old and new and who made the change, and
/// does nothing else.
pub proof fn law_what_a_change_of_the_settings_does(
    instance: Instance,
    caller: Address,
    address: Address,
    sequence: u32,
)
    requires
        instance.admin is Some,
        instance.oracle is Some,
    ensures
        ({
            let admin = instance.admin->0;
            let oracle = update_oracle_effects(instance, address);
            let handover = transfer_admin_effects(caller, address);
            let pause = pause_effects(instance, sequence);
            let unpause = unpause_effects(instance, sequence);
            &&& written(oracle) == seq![Effect::SetOracle { oracle: address }]
            &&& told(oracle) == seq![
                Event::OracleUpdated {
                    old_oracle: instance.oracle->0,
                    new_oracle: address,
                    admin,
                },
            ]
            &&& touches_no_match(oracle) && asked(oracle).len() == 0
            &&& written(handover) == seq![Effect::SetAdmin { admin: address }]
            &&& told(handover) == seq![
                Event::AdminTransferred { old_admin: caller, new_admin: address },
            ]
            &&& touches_no_match(handover) && asked(handover).len() == 0
            &&& written(pause) == seq![Effect::SetPaused { paused: true }]
            &&& told(pause) == seq![Event::Paused { admin, sequence }]
            &&& touches_no_match(pause) && asked(pause).len() == 0
            &&& written(unpause) == seq![Effect::SetPaused { paused: false }]
            &&& told(unpause) == seq![Event::Unpaused { admin, sequence }]
            &&& touches_no_match(unpause) && asked(unpause).len() == 0
        }),
{
    let admin = instance.admin->0;
    assert(update_oracle_effects(instance, address) =~= Seq::<Effect>::empty()
        .push(Effect::SetOracle { oracle: address })
        .push(Effect::Publish {
            event: Event::OracleUpdated {
                old_oracle: instance.oracle->0,
                new_oracle: address,
                admin,
            },
        }));
    assert(transfer_admin_effects(caller, address) =~= Seq::<Effect>::empty()
        .push(Effect::SetAdmin { admin: address })
        .push(Effect::Publish {
            event: Event::AdminTransferred { old_admin: caller, new_admin: address },
        }));
    assert(pause_effects(instance, sequence) =~= Seq::<Effect>::empty()
        .push(Effect::SetPaused { paused: true })
        .push(Effect::Publish { event: Event::Paused { admin, sequence } }));
    assert(unpause_effects(instance, sequence) =~= Seq::<Effect>::empty()
        .push(Effect::SetPaused { paused: false })
        .push(Effect::Publish { event: Event::Unpaused { admin, sequence } }));
}

/// A drain moves the whole balance to the given address, if there is any, and stores nothing. It
/// is announced even if there was nothing to move.
pub proof fn law_what_a_drain_does(request: DrainRequest, balance: i128)
    ensures
        ({
            let effects = drain_effects(request, balance);
            &&& balance > 0 ==> moved(effects) == seq![
                Effect::Pay { token: request.token, to: request.to, amount: balance },
            ]
            &&& balance <= 0 ==> moved(effects).len() == 0
            &&& told(effects) == seq![
                Event::Drained { balance, to: request.to, admin: request.admin },
            ]
            &&& written(effects).len() == 0
            &&& extended(effects).len() == 0
            &&& asked(effects).len() == 0
        }),
{
    let pay = Effect::Pay { token: request.token, to: request.to, amount: balance };
    let tell = Effect::Publish {
        event: Event::Drained { balance, to: request.to, admin: request.admin },
    };
    if balance > 0 {
        assert(drain_effects(request, balance) =~= Seq::<Effect>::empty()
            .push(pay)
            .push(tell));
    } else {
        assert(drain_effects(request, balance) =~= Seq::<Effect>::empty()
            .push(tell));
    }
}

// Matches.

/// A new match is stored exactly as its players agreed on it, under the next id and under its
/// game id, and announced to them as it is stored. It is pending, without deposits or a result.
pub proof fn law_what_a_creation_does(
    instance: Instance,
    sequence: u32,
    player1: Address,
    player2: Address,
    stake_amount: i128,
    token: Address,
    game_id: GameId,
    platform: Platform,
)
    requires
        instance.match_count is Some ==> instance.match_count->0 < u64::MAX,
    ensures
        ({
            let m = new_match(
                instance,
                sequence,
                player1,
                player2,
                stake_amount,
                token,
                game_id,
                platform,
            );
            let effects = create_match_effects(m);
            let next: u64 = if instance.match_count is Some {
                instance.match_count->0
            } else {
                0
            };
            &&& m.id == next
            &&& m.player1 == player1
            &&& m.player2 == player2
            &&& m.stake_amount == stake_amount
            &&& m.token == token
            &&& m.game_id == game_id
            &&& m.platform == platform
            &&& m.created_ledger == sequence
            &&& m.state == MatchState::Pending
            &&& !m.player1_deposited && !m.player2_deposited
            &&& m.activated_ledger == 0 && m.pending_result_ledger == 0
            &&& m.pending_winner is None && m.cancelled_ledger is None
                && m.completed_ledger is None
            &&& written(effects) == seq![
                Effect::PutMatch { match_id: next, record: m },
                Effect::PutGameId { game_id, match_id: next },
                Effect::SetMatchCount { count: (next + 1) as u64 },
            ]
            &&& extended(effects) == seq![
                Effect::ExtendTtl {
                    key: DataKey::Match(next),
                    threshold: MATCH_TTL_LEDGERS,
                    extend_to: MATCH_TTL_LEDGERS,
                },
                Effect::ExtendTtl {
                    key: DataKey::GameId(game_id),
                    threshold: MATCH_TTL_LEDGERS,
                    extend_to: MATCH_TTL_LEDGERS,
                },
            ]
            &&& told(effects) == seq![
                Event::MatchCreated { match_id: next, player1, player2, stake_amount, game_id },
            ]
            &&& moved(effects).len() == 0
            &&& asked(effects).len() == 0
        }),
{
    let m = new_match(
        instance,
        sequence,
        player1,
        player2,
        stake_amount,
        token,
        game_id,
        platform,
    );
    assert(create_match_effects(m) =~= Seq::<Effect>::empty()
        .push(Effect::PutMatch { match_id: m.id, record: m })
        .push(Effect::ExtendTtl {
            key: DataKey::Match(m.id),
            threshold: MATCH_TTL_LEDGERS,
            extend_to: MATCH_TTL_LEDGERS,
        })
        .push(Effect::PutGameId { game_id, match_id: m.id })
        .push(Effect::ExtendTtl {
            key: DataKey::GameId(game_id),
            threshold: MATCH_TTL_LEDGERS,
            extend_to: MATCH_TTL_LEDGERS,
        })
        .push(Effect::SetMatchCount { count: (m.id + 1) as u64 })
        .push(Effect::Publish {
            event: Event::MatchCreated {
                match_id: m.id,
                player1,
                player2,
                stake_amount,
                game_id,
            },
        }));
}

/// A deposit takes one stake from the player, sets their flag and leaves the other's: the first
/// flag is for the first player, the second for anyone else who is let in. If the other one was
/// set, the match is active from this ledger on, and that is announced too.
pub proof fn law_what_a_deposit_does(request: DepositRequest, sequence: u32)
    ensures
        ({
            let effects = deposit_effects(request, sequence);
            let m = request.record;
            let after = stored_match(effects);
            let first = request.player == m.player1;
            let starts = if first {
                m.player2_deposited
            } else {
                m.player1_deposited
            };
            let receipt = Event::Deposited {
                match_id: request.match_id,
                player: request.player,
                amount: m.stake_amount,
                side: if first {
                    Side::Player1
                } else {
                    Side::Player2
                },
            };
            &&& moved(effects) == seq![
                Effect::Collect { token: m.token, from: request.player, amount: m.stake_amount },
            ]
            &&& stores_one_match(effects, request.match_id)
            &&& same_terms(after, m)
            &&& after.player1_deposited == (first || m.player1_deposited)
            &&& after.player2_deposited == (!first || m.player2_deposited)
            &&& starts ==> after.state == MatchState::Active && after.activated_ledger == sequence
            &&& !starts ==> after.state == m.state && after.activated_ledger
                == m.activated_ledger
            &&& after.pending_result_ledger == m.pending_result_ledger
            &&& after.pending_winner == m.pending_winner
            &&& after.cancelled_ledger == m.cancelled_ledger
            &&& after.completed_ledger == m.completed_ledger
            &&& starts ==> told(effects) == seq![
                Event::MatchActivated { match_id: request.match_id },
                receipt,
            ]
            &&& !starts ==> told(effects) == seq![receipt]
        }),
{
    let effects = deposit_effects(request, sequence);
    let n = effects.len() as int;
    let collect = effects[0];
    let receipt = effects[n - 3];
    let put = effects[n - 2];
    let keep = effects[n - 1];
    if n == 5 {
        assert(effects =~= Seq::<Effect>::empty()
            .push(collect)
            .push(effects[1])
            .push(receipt)
            .push(put)
            .push(keep));
    } else {
        assert(effects =~= Seq::<Effect>::empty()
            .push(collect)
            .push(receipt)
            .push(put)
            .push(keep));
    }
}

/// A reported result is stored with the ledger of the report, from which its dispute window
/// counts. Nothing else about the match changes, and no token moves.
pub proof fn law_what_a_report_does(m: Match, match_id: u64, winner: Winner, sequence: u32)
    ensures
        ({
            let effects = submit_result_effects(m, match_id, winner, sequence);
            let after = stored_match(effects);
            &&& moved(effects).len() == 0
            &&& stores_one_match(effects, match_id)
            &&& same_terms(after, m)
            &&& after.state == MatchState::PendingResult
            &&& after.pending_result_ledger == sequence
            &&& after.pending_winner == Some(winner)
            &&& after.player1_deposited == m.player1_deposited
            &&& after.player2_deposited == m.player2_deposited
            &&& after.activated_ledger == m.activated_ledger
            &&& after.cancelled_ledger == m.cancelled_ledger
            &&& after.completed_ledger == m.completed_ledger
            &&& told(effects) == seq![Event::ResultPending { match_id, winner, sequence }]
        }),
{
    let effects = submit_result_effects(m, match_id, winner, sequence);
    assert(effects =~= Seq::<Effect>::empty()
        .push(effects[0])
        .push(effects[1])
        .push(effects[2]));
}

/// An override replaces the reported winner by another and leaves everything else, the ledger of
/// the report included. Both winners are announced, and no token moves.
pub proof fn law_what_an_override_does(m: Match, match_id: u64, new_winner: Winner)
    ensures
        ({
            let effects = override_result_effects(m, match_id, new_winner);
            let after = stored_match(effects);
            &&& moved(effects).len() == 0
            &&& stores_one_match(effects, match_id)
            &&& same_terms(after, m)
            &&& after.pending_winner == Some(new_winner)
            &&& after.pending_result_ledger == m.pending_result_ledger
            &&& after.state == m.state
            &&& after.player1_deposited == m.player1_deposited
            &&& after.player2_deposited == m.player2_deposited
            &&& after.activated_ledger == m.activated_ledger
            &&& after.cancelled_ledger == m.cancelled_ledger
            &&& after.completed_ledger == m.completed_ledger
            &&& told(effects) == seq![
                Event::ResultOverridden { match_id, old_winner: m.pending_winner, new_winner },
            ]
        }),
{
    let effects = override_result_effects(m, match_id, new_winner);
    assert(effects =~= Seq::<Effect>::empty()
        .push(effects[0])
        .push(effects[1])
        .push(effects[2]));
}

/// A payout gives both stakes to the reported winner, or one to each player after a draw, in the
/// token of the match. The match is completed at this ledger; its result and its deposits stay
/// on record.
pub proof fn law_what_a_payout_does(m: Match, match_id: u64, sequence: u32)
    requires
        m.pending_winner is Some,
        m.pending_winner == Some(Winner::Draw) || i128::MIN <= m.stake_amount + m.stake_amount
            <= i128::MAX,
    ensures
        ({
            let effects = finalize_result_effects(m, match_id, sequence);
            let after = stored_match(effects);
            let pot = (m.stake_amount + m.stake_amount) as i128;
            &&& match m.pending_winner->0 {
                Winner::Player1 => moved(effects) == seq![
                    Effect::Pay { token: m.token, to: m.player1, amount: pot },
                ],
                Winner::Player2 => moved(effects) == seq![
                    Effect::Pay { token: m.token, to: m.player2, amount: pot },
                ],
                Winner::Draw => moved(effects) == seq![
                    Effect::Pay { token: m.token, to: m.player1, amount: m.stake_amount },
                    Effect::Pay { token: m.token, to: m.player2, amount: m.stake_amount },
                ],
            }
            &&& stores_one_match(effects, match_id)
            &&& same_terms(after, m)
            &&& after.state == MatchState::Completed
            &&& after.completed_ledger == Some(sequence)
            &&& after.pending_winner == m.pending_winner
            &&& after.pending_result_ledger == m.pending_result_ledger
            &&& after.player1_deposited == m.player1_deposited
            &&& after.player2_deposited == m.player2_deposited
            &&& after.activated_ledger == m.activated_ledger
            &&& after.cancelled_ledger == m.cancelled_ledger
            &&& told(effects) == seq![
                Event::MatchCompleted {
                    match_id,
                    winner: m.pending_winner->0,
                    payout: if m.pending_winner == Some(Winner::Draw) {
                        m.stake_amount
                    } else {
                        pot
                    },
                },
            ]
        }),
{
    let effects = finalize_result_effects(m, match_id, sequence);
    if m.pending_winner == Some(Winner::Draw) {
        assert(effects =~= Seq::<Effect>::empty()
            .push(effects[0])
            .push(effects[1])
            .push(effects[2])
            .push(effects[3])
            .push(effects[4]));
    } else {
        assert(effects =~= Seq::<Effect>::empty()
            .push(effects[0])
            .push(effects[1])
            .push(effects[2])
            .push(effects[3]));
    }
}

/// A timeout pays one stake to each player, in the token of the match, and cancels the match
/// without recording a ledger of cancellation.
pub proof fn law_what_a_timeout_does(m: Match, match_id: u64, caller: Address)
    ensures
        ({
            let effects = claim_timeout_effects(m, match_id, caller);
            let after = stored_match(effects);
            &&& moved(effects) == seq![
                Effect::Pay { token: m.token, to: m.player1, amount: m.stake_amount },
                Effect::Pay { token: m.token, to: m.player2, amount: m.stake_amount },
            ]
            &&& stores_one_match(effects, match_id)
            &&& same_terms(after, m)
            &&& after.state == MatchState::Cancelled
            &&& after.cancelled_ledger == m.cancelled_ledger
            &&& after.pending_winner == m.pending_winner
            &&& after.pending_result_ledger == m.pending_result_ledger
            &&& after.player1_deposited == m.player1_deposited
            &&& after.player2_deposited == m.player2_deposited
            &&& after.activated_ledger == m.activated_ledger
            &&& after.completed_ledger == m.completed_ledger
            &&& told(effects) == seq![Event::MatchTimedOut { match_id, caller }]
        }),
{
    let effects = claim_timeout_effects(m, match_id, caller);
    assert(effects =~= Seq::<Effect>::empty()
        .push(effects[0])
        .push(effects[1])
        .push(effects[2])
        .push(effects[3])
        .push(effects[4]));
}

/// A cancellation refunds one stake to each player who has deposited, in the token of the match,
/// and nothing to one who has not; the announcement says so. The match is cancelled at this
/// ledger.
pub proof fn law_what_a_cancellation_does(
    m: Match,
    match_id: u64,
    caller: Address,
    sequence: u32,
)
    ensures
        ({
            let effects = cancel_match_effects(m, match_id, caller, sequence);
            let after = stored_match(effects);
            let refund1 = Effect::Refund { token: m.token, to: m.player1, amount: m.stake_amount };
            let refund2 = Effect::Refund { token: m.token, to: m.player2, amount: m.stake_amount };
            &&& moved(effects) == match (m.player1_deposited, m.player2_deposited) {
                (true, true) => seq![refund1, refund2],
                (true, false) => seq![refund1],
                (false, true) => seq![refund2],
                (false, false) => seq![],
            }
            &&& stores_one_match(effects, match_id)
            &&& same_terms(after, m)
            &&& after.state == MatchState::Cancelled
            &&& after.cancelled_ledger == Some(sequence)
            &&& after.pending_winner == m.pending_winner
            &&& after.pending_result_ledger == m.pending_result_ledger
            &&& after.player1_deposited == m.player1_deposited
            &&& after.player2_deposited == m.player2_deposited
            &&& after.activated_ledger == m.activated_ledger
            &&& after.completed_ledger == m.completed_ledger
            &&& told(effects) == seq![
                Event::MatchCancelled {
                    match_id,
                    caller,
                    player1_refund: if m.player1_deposited {
                        m.stake_amount
                    } else {
                        0
                    },
                    player2_refund: if m.player2_deposited {
                        m.stake_amount
                    } else {
                        0
                    },
                },
            ]
        }),
{
    let effects = cancel_match_effects(m, match_id, caller, sequence);
    let n = effects.len() as int;
    if n == 5 {
        assert(effects =~= Seq::<Effect>::empty()
            .push(effects[0])
            .push(effects[1])
            .push(effects[2])
            .push(effects[3])
            .push(effects[4]));
    } else if n == 4 {
        assert(effects =~= Seq::<Effect>::empty()
            .push(effects[0])
            .push(effects[1])
            .push(effects[2])
            .push(effects[3]));
    } else {
        assert(effects =~= Seq::<Effect>::empty()
            .push(effects[0])
            .push(effects[1])
            .push(effects[2]));
    }
}

} // verus!
