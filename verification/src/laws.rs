//! What holds of the contract as a whole.

use crate::effects::{Effect, Event};
use crate::errors::Error;
use crate::ledger::{about, arrow, drains, kept_alive, paid_to, sound, total_escrow, Call, Ledger};
use crate::rules::{
    admin_authorizes, cancel_match_refusal, cancelled, claim_timeout_effects,
    claim_timeout_refusal, completed, create_match_refusal, deposit_refusal,
    emergency_drain_refusal, escrow_balance, finalize_result_refusal, funded, initialized,
    known, only_if, override_result_refusal, page, paused, payout, plays, published, share,
    stored, submit_result_refusal, transfer_admin_refusal,
};
use crate::steps::lemma_step;
use crate::transfers::{
    lemma_paid_by_settlement, lemma_paid_one, lemma_paid_only_if, lemma_paid_two,
};
use crate::types::{
    Address, GameId, Instance, Match, MatchState, Platform, Winner, DISPUTE_WINDOW_LEDGERS,
    MAX_GAME_ID_LEN, MAX_LIMIT, TIMEOUT_LEDGERS,
};
use crate::upkeep::lemma_kept_alive;
use vstd::prelude::*;

verus! {

// The invariant.

/// The contract before its first call is well-formed and its books balance.
pub proof fn law_fresh_ledger()
    ensures
        Ledger::fresh().well_formed(),
        Ledger::fresh().solvent(),
{
}

/// Every call keeps the ledger well-formed.
pub proof fn law_calls_keep_the_invariant(l: Ledger, call: Call)
    requires
        l.well_formed(),
    ensures
        l.step(call).well_formed(),
{
    if l.planned(call) is Some {
        lemma_step(l, call);
        let after = l.step(call);
        match call {
            Call::CreateMatch { game_id, .. } => {
                assert forall|id: u64| #[trigger] after.matches.contains_key(id) implies sound(
                    after.matches[id],
                    id,
                    after.instance.token,
                ) && after.games.contains_key(after.matches[id].game_id@)
                    && after.games[after.matches[id].game_id@] == id by {
                    if id != l.size() {
                        assert(l.matches.contains_key(id));
                    }
                }
                assert forall|g: Seq<u8>| #[trigger]
                    after.games.contains_key(g) implies after.matches.contains_key(after.games[g])
                    && after.matches[after.games[g]].game_id@ == g by {
                    if g != game_id@ {
                        assert(l.games.contains_key(g));
                        assert(l.matches.contains_key(l.games[g]));
                    }
                }
            },
            _ => {
                assert forall|id: u64| #[trigger] after.matches.contains_key(id) implies sound(
                    after.matches[id],
                    id,
                    after.instance.token,
                ) && after.games.contains_key(after.matches[id].game_id@)
                    && after.games[after.matches[id].game_id@] == id by {
                    assert(l.matches.contains_key(id));
                }
                assert forall|g: Seq<u8>| #[trigger]
                    after.games.contains_key(g) implies after.matches.contains_key(after.games[g])
                    && after.matches[after.games[g]].game_id@ == g by {
                    assert(l.games.contains_key(g));
                    assert(l.matches.contains_key(l.games[g]));
                }
            },
        }
    }
}

/// Whatever calls are made of a new contract, in whatever order: its ledger is well-formed, and
/// its books balance unless it was drained.
pub proof fn law_every_reachable_ledger(calls: Seq<Call>)
    ensures
        Ledger::fresh().run(calls).well_formed(),
        (forall|i: int| 0 <= i < calls.len() ==> !drains(#[trigger] calls[i]))
            ==> Ledger::fresh().run(calls).solvent(),
    decreases calls.len(),
{
    if calls.len() == 0 {
        law_fresh_ledger();
    } else {
        let before = calls.drop_last();
        law_every_reachable_ledger(before);
        law_calls_keep_the_invariant(Ledger::fresh().run(before), calls.last());
        if forall|i: int| 0 <= i < calls.len() ==> !drains(#[trigger] calls[i]) {
            assert forall|i: int| 0 <= i < before.len() implies !drains(#[trigger] before[i]) by {
                assert(before[i] == calls[i]);
            }
            law_the_books_balance(Ledger::fresh().run(before), calls.last());
        }
    }
}

// The money.

proof fn lemma_total_escrow_changes(matches: Map<u64, Match>, n: nat, id: u64, m: Match)
    requires
        n <= u64::MAX,
    ensures
        total_escrow(matches.insert(id, m), n) == total_escrow(matches, n) + if id < n {
            escrow_balance(m) - escrow_balance(matches[id])
        } else {
            0
        },
    decreases n,
{
    if n > 0 {
        lemma_total_escrow_changes(matches, (n - 1) as nat, id, m);
    }
}

/// A call moves exactly what it changes the balance of its match by: what it collects is held
/// for the match afterwards, and what it pays was held for the match before.
pub proof fn law_a_call_settles_its_match(l: Ledger, call: Call, id: u64)
    requires
        l.well_formed(),
        l.matches.contains_key(id),
        about(call) == Some(id),
    ensures
        (l.step(call).collected - l.collected) - (l.step(call).paid - l.paid) == escrow_balance(
            l.step(call).matches[id],
        ) - escrow_balance(l.matches[id]),
{
    if l.planned(call) is Some {
        lemma_step(l, call);
    }
}

/// A call that is about another match, or about none, leaves a match as it is.
pub proof fn law_other_matches_are_untouched(l: Ledger, call: Call, id: u64)
    requires
        l.well_formed(),
        l.matches.contains_key(id),
        about(call) != Some(id),
    ensures
        l.step(call).matches.contains_key(id),
        l.step(call).matches[id] == l.matches[id],
{
    if l.planned(call) is Some {
        lemma_step(l, call);
    }
}

/// What the contract has collected and not paid out again is what it holds for its matches, as
/// long as it is not drained.
pub proof fn law_the_books_balance(l: Ledger, call: Call)
    requires
        l.well_formed(),
        l.solvent(),
        !drains(call),
    ensures
        l.step(call).solvent(),
{
    if l.planned(call) is Some {
        lemma_step(l, call);
        let after = l.step(call);
        match about(call) {
            Some(id) => {
                law_a_call_settles_its_match(l, call, id);
                lemma_total_escrow_changes(l.matches, l.size() as nat, id, after.matches[id]);
            },
            None => {
                if call is CreateMatch {
                    lemma_total_escrow_changes(
                        l.matches,
                        l.size() as nat,
                        l.size(),
                        after.matches[l.size()],
                    );
                }
            },
        }
    }
}

/// Tokens leave the contract only by a payout, a timeout, a cancellation or a drain. In
/// particular nothing is paid when a result is reported or overridden.
pub proof fn law_only_exits_pay(l: Ledger, call: Call)
    requires
        l.step(call).paid != l.paid,
    ensures
        call is FinalizeResult || call is ClaimTimeout || call is CancelMatch
            || call is EmergencyDrain,
{
    if l.planned(call) is Some {
        lemma_step(l, call);
    }
}

/// What is held for a match is no stake, one stake or two: none after its end, two while it is
/// played or its result waits, and never two while it waits for deposits.
pub proof fn law_a_match_holds_up_to_two_stakes(l: Ledger, id: u64)
    requires
        l.well_formed(),
        l.matches.contains_key(id),
    ensures
        ({
            let m = l.matches[id];
            match m.state {
                MatchState::Pending => escrow_balance(m) == 0 || escrow_balance(m)
                    == m.stake_amount,
                MatchState::Active | MatchState::PendingResult => escrow_balance(m) == 2
                    * m.stake_amount,
                MatchState::Completed | MatchState::Cancelled => escrow_balance(m) == 0,
            }
        }),
{
}

/// A drain moves the whole balance that the token reports, stores nothing, and is only
/// accepted from the admin while the contract is paused.
pub proof fn law_a_drain_needs_a_paused_contract(
    l: Ledger,
    to: Address,
    caller: Address,
    balance: i128,
)
    ensures
        ({
            let call = Call::EmergencyDrain { to, caller, balance };
            l.planned(call) is Some ==> {
                &&& paused(l.instance)
                &&& l.instance.admin == Some(caller)
                &&& l.demanded(call) == seq![caller]
                &&& paid_to(l.planned(call)->0, to) == if balance > 0 {
                    balance as int
                } else {
                    0
                }
                &&& l.step(call).instance == l.instance
                &&& l.step(call).matches == l.matches
                &&& l.step(call).games == l.games
            }
        }),
{
    let call = Call::EmergencyDrain { to, caller, balance };
    if l.planned(call) is Some {
        lemma_step(l, call);
        let pay = Effect::Pay { token: l.instance.token->0, to, amount: balance };
        let event = l.planned(call)->0.last();
        lemma_paid_two(only_if(balance > 0, pay), seq![event], to);
        lemma_paid_only_if(balance > 0, pay, to);
        lemma_paid_one(event, to);
        assert(l.planned(call)->0 =~= only_if(balance > 0, pay) + seq![event]);
    }
}

/// The payout: the reported winner receives both stakes and the other player nothing; after a
/// draw both players get their stakes back. Nobody else receives anything.
pub proof fn law_the_winner_takes_the_pot(l: Ledger, match_id: u64, sequence: u32, address: Address)
    requires
        l.well_formed(),
        l.planned(Call::FinalizeResult { match_id, sequence }) is Some,
    ensures
        ({
            let m = l.matches[match_id];
            let effects = l.planned(Call::FinalizeResult { match_id, sequence })->0;
            paid_to(effects, address) == if address == m.player1 {
                match m.pending_winner->0 {
                    Winner::Player1 => 2 * m.stake_amount,
                    Winner::Player2 => 0,
                    Winner::Draw => m.stake_amount as int,
                }
            } else if address == m.player2 {
                match m.pending_winner->0 {
                    Winner::Player1 => 0,
                    Winner::Player2 => 2 * m.stake_amount,
                    Winner::Draw => m.stake_amount as int,
                }
            } else {
                0
            }
        }),
{
    let m = l.matches[match_id];
    assert(l.matches.contains_key(match_id));
    let winner = m.pending_winner->0;
    let amount = payout(m, winner) as i128;
    lemma_paid_by_settlement(
        winner != Winner::Player2,
        Effect::Pay { token: m.token, to: m.player1, amount },
        winner != Winner::Player1,
        Effect::Pay { token: m.token, to: m.player2, amount },
        match_id,
        completed(m, sequence),
        Event::MatchCompleted { match_id, winner, payout: amount },
        address,
    );
}

/// A timeout gives both players their stakes back.
pub proof fn law_a_timeout_returns_the_stakes(
    l: Ledger,
    match_id: u64,
    caller: Address,
    sequence: u32,
    address: Address,
)
    requires
        l.well_formed(),
        l.planned(Call::ClaimTimeout { match_id, caller, sequence }) is Some,
    ensures
        ({
            let m = l.matches[match_id];
            paid_to(l.planned(Call::ClaimTimeout { match_id, caller, sequence })->0, address)
                == if address == m.player1 || address == m.player2 {
                m.stake_amount as int
            } else {
                0
            }
        }),
{
    let m = l.matches[match_id];
    assert(l.matches.contains_key(match_id));
    let a = Effect::Pay { token: m.token, to: m.player1, amount: m.stake_amount };
    let b = Effect::Pay { token: m.token, to: m.player2, amount: m.stake_amount };
    let event = Event::MatchTimedOut { match_id, caller };
    let record = Match { state: MatchState::Cancelled, ..m };
    lemma_paid_by_settlement(true, a, true, b, match_id, record, event, address);
    assert(claim_timeout_effects(m, match_id, caller) =~= only_if(true, a) + only_if(true, b)
        + stored(match_id, record) + published(event));
}

/// Cancelling a match returns to each player what they have deposited, no more and no less.
pub proof fn law_a_cancellation_returns_the_deposits(
    l: Ledger,
    match_id: u64,
    caller: Address,
    sequence: u32,
    address: Address,
)
    requires
        l.well_formed(),
        l.planned(Call::CancelMatch { match_id, caller, sequence }) is Some,
    ensures
        ({
            let m = l.matches[match_id];
            paid_to(l.planned(Call::CancelMatch { match_id, caller, sequence })->0, address)
                == if (address == m.player1 && m.player1_deposited) || (address == m.player2
                && m.player2_deposited) {
                m.stake_amount as int
            } else {
                0
            }
        }),
{
    let m = l.matches[match_id];
    assert(l.matches.contains_key(match_id));
    lemma_paid_by_settlement(
        m.player1_deposited,
        Effect::Refund { token: m.token, to: m.player1, amount: m.stake_amount },
        m.player2_deposited,
        Effect::Refund { token: m.token, to: m.player2, amount: m.stake_amount },
        match_id,
        cancelled(m, sequence),
        Event::MatchCancelled {
            match_id,
            caller,
            player1_refund: share(m.player1_deposited, m.stake_amount),
            player2_refund: share(m.player2_deposited, m.stake_amount),
        },
        address,
    );
}

/// No stake is stuck. A player of a pending match can cancel it at any time, a player of an
/// active match can claim the timeout at any ledger after it, and anyone can finalise a reported
/// result at any ledger from the end of the dispute window on. None of this depends on the
/// oracle, the admin or a pause. A pot that is no `i128` is left out: the contract cannot compute
/// it.
pub proof fn law_no_stake_is_stuck(l: Ledger, id: u64, player: Address, sequence: u32)
    requires
        l.well_formed(),
        l.matches.contains_key(id),
        player == l.matches[id].player1 || player == l.matches[id].player2,
    ensures
        l.matches[id].state == MatchState::Pending ==> l.planned(
            Call::CancelMatch { match_id: id, caller: player, sequence },
        ) is Some,
        l.matches[id].state == MatchState::Active && l.matches[id].activated_ledger
            + TIMEOUT_LEDGERS < sequence ==> l.planned(
            Call::ClaimTimeout { match_id: id, caller: player, sequence },
        ) is Some,
        l.matches[id].state == MatchState::PendingResult && l.matches[id].pending_result_ledger
            + DISPUTE_WINDOW_LEDGERS <= sequence && (l.matches[id].pending_winner == Some(
            Winner::Draw,
        ) || 2 * l.matches[id].stake_amount <= i128::MAX) ==> l.planned(
            Call::FinalizeResult { match_id: id, sequence },
        ) is Some,
        l.matches[id].state == MatchState::Completed || l.matches[id].state
            == MatchState::Cancelled ==> escrow_balance(l.matches[id]) == 0,
{
}

// The life of a match.

/// A match changes only along the arrows of the state diagram, and only by a call about it.
pub proof fn law_matches_follow_the_diagram(l: Ledger, call: Call, id: u64)
    requires
        l.well_formed(),
        l.matches.contains_key(id),
    ensures
        l.step(call).matches.contains_key(id),
        l.step(call).matches[id] == l.matches[id] || (about(call) == Some(id) && arrow(
            call,
            l.matches[id].state,
            l.step(call).matches[id].state,
        )),
{
    if l.planned(call) is Some {
        lemma_step(l, call);
    }
}

/// What appears as a new match is pending, without deposits.
pub proof fn law_new_matches_are_pending(l: Ledger, call: Call, id: u64)
    requires
        l.well_formed(),
        !l.matches.contains_key(id),
        l.step(call).matches.contains_key(id),
    ensures
        call is CreateMatch,
        id == l.size(),
        l.step(call).size() == l.size() + 1,
        l.step(call).matches[id].state == MatchState::Pending,
        escrow_balance(l.step(call).matches[id]) == 0,
{
    if l.planned(call) is Some {
        lemma_step(l, call);
    }
}

/// Completed and cancelled matches stay as they are, whatever calls follow.
pub proof fn law_terminal_matches_stay(l: Ledger, calls: Seq<Call>, id: u64)
    requires
        l.well_formed(),
        l.matches.contains_key(id),
        l.matches[id].state == MatchState::Completed || l.matches[id].state
            == MatchState::Cancelled,
    ensures
        l.run(calls).well_formed(),
        l.run(calls).matches.contains_key(id),
        l.run(calls).matches[id] == l.matches[id],
    decreases calls.len(),
{
    if calls.len() > 0 {
        law_terminal_matches_stay(l, calls.drop_last(), id);
        let before = l.run(calls.drop_last());
        law_calls_keep_the_invariant(before, calls.last());
        law_matches_follow_the_diagram(before, calls.last(), id);
    }
}

/// Nothing is stored and nothing moved by a call about a terminal match: it pays out once.
pub proof fn law_terminal_matches_move_nothing(l: Ledger, call: Call, id: u64)
    requires
        l.well_formed(),
        l.matches.contains_key(id),
        l.matches[id].state == MatchState::Completed || l.matches[id].state
            == MatchState::Cancelled,
        about(call) == Some(id),
    ensures
        l.planned(call) is None,
        l.step(call) == l,
{
}

/// A deposit is made once: whatever calls follow, the match remembers it and takes no second
/// one from the same player.
pub proof fn law_a_player_deposits_once(
    l: Ledger,
    calls: Seq<Call>,
    id: u64,
    player: Address,
    allowance: i128,
    sequence: u32,
)
    requires
        l.well_formed(),
        l.matches.contains_key(id),
        (player == l.matches[id].player1 && l.matches[id].player1_deposited) || (player
            == l.matches[id].player2 && l.matches[id].player2_deposited),
    ensures
        l.matches[id].player1_deposited ==> l.run(calls).matches[id].player1_deposited,
        l.matches[id].player2_deposited ==> l.run(calls).matches[id].player2_deposited,
        l.run(calls).planned(
            Call::Deposit { match_id: id, player, allowance, sequence },
        ) is None,
    decreases calls.len(),
{
    law_the_terms_of_a_match_are_fixed(l, calls, id);
    if calls.len() > 0 {
        let before = l.run(calls.drop_last());
        law_a_player_deposits_once(l, calls.drop_last(), id, player, allowance, sequence);
        law_the_terms_of_a_match_are_fixed(l, calls.drop_last(), id);
        if before.planned(calls.last()) is Some {
            lemma_step(before, calls.last());
        }
    }
}

/// What the players agreed on never changes.
pub proof fn law_the_terms_of_a_match_are_fixed(l: Ledger, calls: Seq<Call>, id: u64)
    requires
        l.well_formed(),
        l.matches.contains_key(id),
    ensures
        l.run(calls).well_formed(),
        l.run(calls).matches.contains_key(id),
        ({
            let before = l.matches[id];
            let after = l.run(calls).matches[id];
            &&& after.id == before.id
            &&& after.player1 == before.player1
            &&& after.player2 == before.player2
            &&& after.stake_amount == before.stake_amount
            &&& after.token == before.token
            &&& after.game_id == before.game_id
            &&& after.platform == before.platform
            &&& after.created_ledger == before.created_ledger
        }),
    decreases calls.len(),
{
    if calls.len() > 0 {
        law_the_terms_of_a_match_are_fixed(l, calls.drop_last(), id);
        let before = l.run(calls.drop_last());
        law_calls_keep_the_invariant(before, calls.last());
        if before.planned(calls.last()) is Some {
            lemma_step(before, calls.last());
        }
    }
}

/// A call that the state diagram has no arrow for is refused with `InvalidState` once it comes
/// from who may make it.
pub proof fn law_calls_in_the_wrong_state_are_refused(
    instance: Instance,
    m: Match,
    match_id: u64,
    caller: Address,
    sequence: u32,
)
    requires
        known(instance, match_id, Some(m)),
    ensures
        !paused(instance) && m.state != MatchState::Pending ==> deposit_refusal(
            instance,
            Some(m),
            match_id,
            caller,
        ) == Some(Error::InvalidState),
        !paused(instance) && instance.oracle == Some(caller) && m.state != MatchState::Active
            ==> submit_result_refusal(instance, Some(m), match_id, m.game_id@, caller) == Some(
            Error::InvalidState,
        ),
        instance.admin == Some(caller) && m.state != MatchState::PendingResult
            ==> override_result_refusal(instance, Some(m), match_id, caller, sequence) == Some(
            Error::InvalidState,
        ),
        m.state != MatchState::PendingResult ==> finalize_result_refusal(
            instance,
            Some(m),
            match_id,
            sequence,
        ) == Some(Error::InvalidState),
        m.state != MatchState::Active ==> claim_timeout_refusal(
            instance,
            Some(m),
            match_id,
            caller,
            sequence,
        ) == Some(Error::InvalidState),
        m.state != MatchState::Pending ==> cancel_match_refusal(
            instance,
            Some(m),
            match_id,
            caller,
        ) == Some(Error::InvalidState),
{
}

/// A match that was created can be read back under its id exactly as it was agreed on, with
/// nothing held for it, and its id under its game id.
pub proof fn law_a_created_match_reads_back(
    l: Ledger,
    sequence: u32,
    player1: Address,
    player2: Address,
    stake_amount: i128,
    token: Address,
    game_id: GameId,
    platform: Platform,
)
    requires
        l.well_formed(),
        l.planned(
            Call::CreateMatch {
                sequence,
                player1,
                player2,
                stake_amount,
                token,
                game_id,
                platform,
            },
        ) is Some,
    ensures
        ({
            let after = l.step(
                Call::CreateMatch {
                    sequence,
                    player1,
                    player2,
                    stake_amount,
                    token,
                    game_id,
                    platform,
                },
            );
            let id = l.instance.match_count->0;
            let m = after.matches[id];
            &&& l.instance.match_count is Some
            &&& after.instance.match_count == Some((id + 1) as u64)
            &&& after.matches.contains_key(id)
            &&& known(after.instance, id, after.entry(id))
            &&& m.id == id
            &&& m.player1 == player1
            &&& m.player2 == player2
            &&& m.stake_amount == stake_amount
            &&& m.token == token
            &&& m.game_id == game_id
            &&& m.platform == platform
            &&& m.created_ledger == sequence
            &&& m.state == MatchState::Pending
            &&& !m.player1_deposited && !m.player2_deposited
            &&& m.pending_winner is None && m.cancelled_ledger is None
                && m.completed_ledger is None
            &&& m.activated_ledger == 0 && m.pending_result_ledger == 0
            &&& escrow_balance(m) == 0
            &&& after.games.contains_key(game_id@) && after.games[game_id@] == id
            &&& after.collected == l.collected && after.paid == l.paid
        }),
{
    lemma_step(
        l,
        Call::CreateMatch {
            sequence,
            player1,
            player2,
            stake_amount,
            token,
            game_id,
            platform,
        },
    );
}

/// In a contract that runs, any two players can have a match created, for any positive stake in
/// its token and on any platform, under a game id that is not in use; and nobody else can.
pub proof fn law_a_match_can_be_created(
    l: Ledger,
    sequence: u32,
    player1: Address,
    player2: Address,
    stake_amount: i128,
    token: Address,
    game_id: GameId,
    platform: Platform,
)
    requires
        l.well_formed(),
        l.instance.match_count != Some(u64::MAX),
    ensures
        l.planned(
            Call::CreateMatch {
                sequence,
                player1,
                player2,
                stake_amount,
                token,
                game_id,
                platform,
            },
        ) is Some <==> {
            &&& l.instance.paused != Some(true)
            &&& stake_amount > 0
            &&& player1 != player2
            &&& 1 <= game_id@.len() <= MAX_GAME_ID_LEN
            &&& !l.games.contains_key(game_id@)
            &&& l.instance.token == Some(token)
        },
{
}

/// In a contract that runs, a player of a pending match can deposit as long as they have not yet,
/// given an allowance that covers the stake; and no other deposit is accepted.
pub proof fn law_a_player_can_deposit(
    l: Ledger,
    id: u64,
    player: Address,
    allowance: i128,
    sequence: u32,
)
    requires
        l.well_formed(),
        l.matches.contains_key(id),
    ensures
        ({
            let m = l.matches[id];
            l.planned(Call::Deposit { match_id: id, player, allowance, sequence }) is Some <==> {
                &&& l.instance.paused != Some(true)
                &&& m.state == MatchState::Pending
                &&& (player == m.player1 && !m.player1_deposited) || (player == m.player2
                    && !m.player2_deposited)
                &&& m.stake_amount <= allowance
            }
        }),
{
}

/// A deposit puts the stake of the one player into escrow and leaves the other's where it is.
pub proof fn law_a_deposit_is_held(
    l: Ledger,
    id: u64,
    player: Address,
    allowance: i128,
    sequence: u32,
)
    requires
        l.well_formed(),
        l.planned(Call::Deposit { match_id: id, player, allowance, sequence }) is Some,
    ensures
        ({
            let after = l.step(Call::Deposit { match_id: id, player, allowance, sequence });
            let (m, n) = (l.matches[id], after.matches[id]);
            &&& after.collected == l.collected + m.stake_amount
            &&& after.paid == l.paid
            &&& after.instance == l.instance && after.games == l.games
            &&& n.player1_deposited == (m.player1_deposited || player == m.player1)
            &&& n.player2_deposited == (m.player2_deposited || player == m.player2)
            &&& n.player1_deposited && n.player2_deposited ==> n.state == MatchState::Active
                && n.activated_ledger == sequence
            &&& !(n.player1_deposited && n.player2_deposited) ==> n.state == MatchState::Pending
                && n.activated_ledger == m.activated_ledger
        }),
{
    assert(l.matches.contains_key(id));
    lemma_step(l, Call::Deposit { match_id: id, player, allowance, sequence });
}

/// A new match never overwrites another one.
pub proof fn law_the_next_id_is_free(l: Ledger)
    requires
        l.well_formed(),
    ensures
        !l.matches.contains_key(l.size()),
        l.entry(l.size()) is None,
{
}

/// Two deposits, one by each player and in either order, start the match: it is active since
/// the second one and two stakes are held for it.
pub proof fn law_two_deposits_start_a_match(
    l: Ledger,
    id: u64,
    first: Address,
    second: Address,
    allowance1: i128,
    allowance2: i128,
    sequence1: u32,
    sequence2: u32,
)
    requires
        l.well_formed(),
        l.matches.contains_key(id),
        escrow_balance(l.matches[id]) == 0,
        first != second,
        l.planned(
            Call::Deposit {
                match_id: id,
                player: first,
                allowance: allowance1,
                sequence: sequence1,
            },
        ) is Some,
        second == l.matches[id].player1 || second == l.matches[id].player2,
        allowance2 >= l.matches[id].stake_amount,
    ensures
        ({
            let one = Call::Deposit {
                match_id: id,
                player: first,
                allowance: allowance1,
                sequence: sequence1,
            };
            let two = Call::Deposit {
                match_id: id,
                player: second,
                allowance: allowance2,
                sequence: sequence2,
            };
            let half = l.step(one);
            let after = half.step(two);
            let m = l.matches[id];
            &&& half.matches[id].state == MatchState::Pending
            &&& escrow_balance(half.matches[id]) == m.stake_amount
            &&& half.planned(two) is Some
            &&& after.matches[id].state == MatchState::Active
            &&& after.matches[id].activated_ledger == sequence2
            &&& funded(after.matches[id])
            &&& escrow_balance(after.matches[id]) == 2 * m.stake_amount
            &&& after.collected == l.collected + 2 * m.stake_amount
            &&& after.paid == l.paid
        }),
{
    let one = Call::Deposit {
        match_id: id,
        player: first,
        allowance: allowance1,
        sequence: sequence1,
    };
    let two = Call::Deposit {
        match_id: id,
        player: second,
        allowance: allowance2,
        sequence: sequence2,
    };
    lemma_step(l, one);
    let half = l.step(one);
    assert(half.planned(two) is Some);
    lemma_step(half, two);
}

/// In a contract that runs, the oracle can report the result of any match that is being played,
/// under its game id; and no other report is accepted.
pub proof fn law_a_result_can_be_reported(
    l: Ledger,
    id: u64,
    game: Seq<u8>,
    winner: Winner,
    caller: Address,
    sequence: u32,
)
    requires
        l.well_formed(),
        l.matches.contains_key(id),
    ensures
        l.planned(
            Call::SubmitResult { match_id: id, game, winner, caller, sequence },
        ) is Some <==> {
            &&& l.instance.paused != Some(true)
            &&& l.instance.oracle == Some(caller)
            &&& l.matches[id].state == MatchState::Active
            &&& l.matches[id].game_id@ == game
        },
{
}

/// A reported result is recorded with the ledger of the report, and nothing else changes. From
/// then on, whatever is done with other matches, and as long as fewer ledgers than the dispute
/// window has have elapsed since the report, it is not paid out, and whoever is the admin can
/// override it. The last ledger numbers are left out of the latter: there the window has no end.
pub proof fn law_a_reported_result_can_be_disputed(
    l: Ledger,
    id: u64,
    game: Seq<u8>,
    winner: Winner,
    oracle: Address,
    reported: u32,
    calls: Seq<Call>,
    sequence: u32,
    new_winner: Winner,
    admin: Address,
)
    requires
        l.well_formed(),
        l.planned(
            Call::SubmitResult { match_id: id, game, winner, caller: oracle, sequence: reported },
        ) is Some,
        forall|i: int| 0 <= i < calls.len() ==> about(#[trigger] calls[i]) != Some(id),
        sequence < reported + DISPUTE_WINDOW_LEDGERS,
    ensures
        ({
            let report = Call::SubmitResult {
                match_id: id,
                game,
                winner,
                caller: oracle,
                sequence: reported,
            };
            let after = l.step(report);
            let later = after.run(calls);
            &&& after.matches[id] == (Match {
                state: MatchState::PendingResult,
                pending_result_ledger: reported,
                pending_winner: Some(winner),
                ..l.matches[id]
            })
            &&& after.instance == l.instance && after.games == l.games
            &&& after.collected == l.collected && after.paid == l.paid
            &&& later.planned(Call::FinalizeResult { match_id: id, sequence }) is None
            &&& later.instance.admin == Some(admin) && reported + DISPUTE_WINDOW_LEDGERS
                <= u32::MAX ==> later.planned(
                Call::OverrideResult { match_id: id, new_winner, caller: admin, sequence },
            ) is Some
        }),
{
    let report = Call::SubmitResult {
        match_id: id,
        game,
        winner,
        caller: oracle,
        sequence: reported,
    };
    assert(l.matches.contains_key(id));
    lemma_step(l, report);
    law_calls_keep_the_invariant(l, report);
    lemma_untouched(l.step(report), calls, id);
}

/// The dispute window of any result, on any platform and for any stake: as long as fewer ledgers
/// than it has have elapsed since the report, the result can be overridden by the admin and is
/// not paid out; from then on it is paid out and can no longer be overridden. Left out are an end
/// of the window that is no ledger number and a pot that is no amount.
pub proof fn law_the_dispute_window_lasts(
    l: Ledger,
    id: u64,
    new_winner: Winner,
    admin: Address,
    sequence: u32,
)
    requires
        l.well_formed(),
        l.matches.contains_key(id),
        l.matches[id].state == MatchState::PendingResult,
        l.instance.admin == Some(admin),
        l.matches[id].pending_result_ledger + DISPUTE_WINDOW_LEDGERS <= u32::MAX,
    ensures
        ({
            let m = l.matches[id];
            let payout = Call::FinalizeResult { match_id: id, sequence };
            let dispute = Call::OverrideResult {
                match_id: id,
                new_winner,
                caller: admin,
                sequence,
            };
            let early = sequence < m.pending_result_ledger + DISPUTE_WINDOW_LEDGERS;
            &&& l.planned(dispute) is Some <==> early
            &&& early ==> l.planned(payout) is None && finalize_result_refusal(
                l.instance,
                Some(m),
                id,
                sequence,
            ) == Some(Error::DisputeWindowActive)
            &&& !early ==> override_result_refusal(
                l.instance,
                Some(m),
                id,
                admin,
                sequence,
            ) == Some(Error::DisputeWindowActive)
            &&& !early && (m.pending_winner == Some(Winner::Draw) || 2 * m.stake_amount
                <= i128::MAX) ==> l.planned(payout) is Some
        }),
{
}

/// The timeout of any match, on any platform and for any stake: a player can claim it if and
/// only if more ledgers than it has have elapsed since the match started. An earlier claim is
/// refused, and nobody else can claim it at all. An end of the timeout that is no ledger number
/// is left out.
pub proof fn law_the_timeout_lasts(l: Ledger, id: u64, caller: Address, sequence: u32)
    requires
        l.well_formed(),
        l.matches.contains_key(id),
        l.matches[id].state == MatchState::Active,
        l.matches[id].activated_ledger + TIMEOUT_LEDGERS <= u32::MAX,
    ensures
        ({
            let m = l.matches[id];
            let claim = Call::ClaimTimeout { match_id: id, caller, sequence };
            let player = caller == m.player1 || caller == m.player2;
            &&& l.planned(claim) is Some <==> player && sequence > m.activated_ledger
                + TIMEOUT_LEDGERS
            &&& player && sequence <= m.activated_ledger + TIMEOUT_LEDGERS
                ==> claim_timeout_refusal(l.instance, Some(m), id, caller, sequence) == Some(
                Error::MatchTimedOut,
            )
        }),
{
}

/// A match that has just started is safe from a timeout: whatever is done with other matches,
/// neither player can claim it until more ledgers than the timeout has have elapsed.
pub proof fn law_a_started_match_can_be_played(
    l: Ledger,
    id: u64,
    player: Address,
    allowance: i128,
    started: u32,
    calls: Seq<Call>,
    caller: Address,
    sequence: u32,
)
    requires
        l.well_formed(),
        l.planned(
            Call::Deposit { match_id: id, player, allowance, sequence: started },
        ) is Some,
        forall|i: int| 0 <= i < calls.len() ==> about(#[trigger] calls[i]) != Some(id),
        sequence <= started + TIMEOUT_LEDGERS,
    ensures
        l.step(Call::Deposit { match_id: id, player, allowance, sequence: started }).run(
            calls,
        ).planned(Call::ClaimTimeout { match_id: id, caller, sequence }) is None,
{
    let deposit = Call::Deposit { match_id: id, player, allowance, sequence: started };
    assert(l.matches.contains_key(id));
    lemma_step(l, deposit);
    law_calls_keep_the_invariant(l, deposit);
    lemma_untouched(l.step(deposit), calls, id);
}

/// At any ledger the admin can override a reported result or anyone can finalise it, but never
/// both: the one ends where the other begins.
pub proof fn law_the_dispute_window_separates_override_and_payout(
    instance: Instance,
    m: Match,
    match_id: u64,
    caller: Address,
    sequence: u32,
)
    requires
        known(instance, match_id, Some(m)),
        m.state == MatchState::PendingResult,
        m.pending_winner is Some,
        instance.admin == Some(caller),
    ensures
        override_result_refusal(instance, Some(m), match_id, caller, sequence) is None
            <==> sequence < m.pending_result_ledger + DISPUTE_WINDOW_LEDGERS,
        finalize_result_refusal(instance, Some(m), match_id, sequence) is None <==> sequence
            >= m.pending_result_ledger + DISPUTE_WINDOW_LEDGERS,
{
}

/// What the oracle reports is what is paid out, if nobody touches the match in between: at any
/// ledger from the end of the dispute window on, anyone can have the reported winner paid. A pot
/// that is no `i128` is left out: the contract cannot compute it.
pub proof fn law_a_reported_result_is_paid_out(
    l: Ledger,
    id: u64,
    game: Seq<u8>,
    winner: Winner,
    oracle: Address,
    reported: u32,
    calls: Seq<Call>,
    sequence: u32,
)
    requires
        l.well_formed(),
        l.planned(
            Call::SubmitResult { match_id: id, game, winner, caller: oracle, sequence: reported },
        ) is Some,
        forall|i: int| 0 <= i < calls.len() ==> about(#[trigger] calls[i]) != Some(id),
        reported + DISPUTE_WINDOW_LEDGERS <= sequence,
        winner == Winner::Draw || 2 * l.matches[id].stake_amount <= i128::MAX,
    ensures
        ({
            let m = l.matches[id];
            let later = l.step(
                Call::SubmitResult {
                    match_id: id,
                    game,
                    winner,
                    caller: oracle,
                    sequence: reported,
                },
            ).run(calls);
            let payout = Call::FinalizeResult { match_id: id, sequence };
            &&& later.planned(payout) is Some
            &&& later.step(payout).matches[id].state == MatchState::Completed
            &&& paid_to(later.planned(payout)->0, m.player1) == match winner {
                Winner::Player1 => 2 * m.stake_amount,
                Winner::Player2 => 0,
                Winner::Draw => m.stake_amount as int,
            }
            &&& paid_to(later.planned(payout)->0, m.player2) == match winner {
                Winner::Player1 => 0,
                Winner::Player2 => 2 * m.stake_amount,
                Winner::Draw => m.stake_amount as int,
            }
        }),
{
    let report = Call::SubmitResult {
        match_id: id,
        game,
        winner,
        caller: oracle,
        sequence: reported,
    };
    let payout = Call::FinalizeResult { match_id: id, sequence };
    assert(l.matches.contains_key(id));
    lemma_step(l, report);
    law_calls_keep_the_invariant(l, report);
    lemma_untouched(l.step(report), calls, id);
    let later = l.step(report).run(calls);
    assert(later.planned(payout) is Some);
    lemma_step(later, payout);
    law_the_winner_takes_the_pot(later, id, sequence, l.matches[id].player1);
    law_the_winner_takes_the_pot(later, id, sequence, l.matches[id].player2);
}

proof fn lemma_untouched(l: Ledger, calls: Seq<Call>, id: u64)
    requires
        l.well_formed(),
        l.matches.contains_key(id),
        forall|i: int| 0 <= i < calls.len() ==> about(#[trigger] calls[i]) != Some(id),
    ensures
        l.run(calls).well_formed(),
        l.run(calls).matches.contains_key(id),
        l.run(calls).matches[id] == l.matches[id],
    decreases calls.len(),
{
    if calls.len() > 0 {
        let before = calls.drop_last();
        assert forall|i: int| 0 <= i < before.len() implies about(#[trigger] before[i]) != Some(
            id,
        ) by {
            assert(before[i] == calls[i]);
        }
        lemma_untouched(l, before, id);
        law_calls_keep_the_invariant(l.run(before), calls.last());
        law_other_matches_are_untouched(l.run(before), calls.last(), id);
    }
}

/// An override replaces the reported winner and nothing else. In particular it does not open
/// the dispute window again.
pub proof fn law_an_override_replaces_the_winner(
    l: Ledger,
    id: u64,
    new_winner: Winner,
    caller: Address,
    sequence: u32,
)
    requires
        l.well_formed(),
        l.planned(Call::OverrideResult { match_id: id, new_winner, caller, sequence }) is Some,
    ensures
        ({
            let after = l.step(Call::OverrideResult { match_id: id, new_winner, caller, sequence });
            &&& after == (Ledger {
                matches: l.matches.insert(
                    id,
                    Match { pending_winner: Some(new_winner), ..l.matches[id] },
                ),
                ..l
            })
            &&& after.matches[id].pending_result_ledger == l.matches[id].pending_result_ledger
        }),
{
    lemma_step(l, Call::OverrideResult { match_id: id, new_winner, caller, sequence });
}

/// Whoever stores an entry keeps it alive: the life of every match and game id that a call
/// writes is extended right after the write.
pub proof fn law_every_stored_entry_is_kept_alive(l: Ledger, call: Call)
    requires
        l.planned(call) is Some,
    ensures
        kept_alive(l.planned(call)->0),
{
    lemma_kept_alive(l, call);
}

/// Every accepted call but the first is announced by an event.
pub proof fn law_every_accepted_call_is_announced(l: Ledger, call: Call)
    requires
        l.planned(call) is Some,
        !(call is Initialize),
    ensures
        exists|i: int|
            0 <= i < l.planned(call)->0.len() && #[trigger] l.planned(call)->0[i] is Publish,
{
    let effects = l.planned(call)->0;
    let i: int = if call is Deposit {
        effects.len() - 3
    } else {
        effects.len() - 1
    };
    assert(effects[i] is Publish);
}

// Who may do what.

/// While the contract is paused nobody creates a match, deposits a stake or submits a result.
pub proof fn law_a_pause_blocks_new_business(
    instance: Instance,
    entry: Option<Match>,
    match_id: u64,
    taken: bool,
    occupied: bool,
    player1: Address,
    player2: Address,
    stake_amount: i128,
    token: Address,
    game_id: Seq<u8>,
)
    requires
        paused(instance),
    ensures
        create_match_refusal(
            instance,
            taken,
            occupied,
            player1,
            player2,
            stake_amount,
            token,
            game_id,
        ) == Some(Error::ContractPaused),
        deposit_refusal(instance, entry, match_id, player1) == Some(Error::ContractPaused),
        submit_result_refusal(instance, entry, match_id, game_id, player1) == Some(
            Error::ContractPaused,
        ),
{
}

/// A pause changes nothing about how players recover their funds or how a reported result is
/// disputed and paid out.
pub proof fn law_a_pause_leaves_the_exits_open(
    instance: Instance,
    flag: Option<bool>,
    entry: Option<Match>,
    match_id: u64,
    caller: Address,
    sequence: u32,
)
    ensures
        ({
            let other = Instance { paused: flag, ..instance };
            &&& cancel_match_refusal(other, entry, match_id, caller) == cancel_match_refusal(
                instance,
                entry,
                match_id,
                caller,
            )
            &&& claim_timeout_refusal(other, entry, match_id, caller, sequence)
                == claim_timeout_refusal(instance, entry, match_id, caller, sequence)
            &&& finalize_result_refusal(other, entry, match_id, sequence)
                == finalize_result_refusal(instance, entry, match_id, sequence)
            &&& override_result_refusal(other, entry, match_id, caller, sequence)
                == override_result_refusal(instance, entry, match_id, caller, sequence)
        }),
{
}

/// Who has to authorize a call that is accepted: the admin for the settings, for an override and
/// for a drain, the oracle for a result, and a player of the match for anything that concerns
/// their stake. Only the first call and a payout need nobody.
pub proof fn law_every_call_has_its_authorizer(l: Ledger, call: Call)
    requires
        l.well_formed(),
        l.planned(call) is Some,
    ensures
        match call {
            Call::Initialize { .. } | Call::FinalizeResult { .. } => l.demanded(call) =~= seq![],
            Call::UpdateOracle { .. } | Call::TransferAdmin { .. } | Call::Pause { .. }
            | Call::Unpause { .. } | Call::OverrideResult { .. } | Call::EmergencyDrain { .. } =>
                l.demanded(call) =~= seq![l.instance.admin->0],
            Call::SubmitResult { .. } => l.demanded(call) =~= seq![l.instance.oracle->0],
            Call::CreateMatch { player1, .. } => l.demanded(call) =~= seq![player1],
            Call::Deposit { match_id, player, .. } => l.demanded(call) =~= seq![player] && plays(
                l.matches[match_id],
                player,
            ),
            Call::ClaimTimeout { match_id, caller, .. } | Call::CancelMatch {
                match_id,
                caller,
                ..
            } => l.demanded(call) =~= seq![caller] && plays(l.matches[match_id], caller),
        },
{
    match about(call) {
        Some(id) => {
            assert(l.matches.contains_key(id));
        },
        None => {},
    }
}

/// Once the contract is initialized, its token is fixed and it cannot be initialized again; the
/// oracle, the admin and the pause change only with the authorization of the admin.
pub proof fn law_the_admin_guards_the_settings(l: Ledger, call: Call)
    requires
        l.well_formed(),
        initialized(l.instance),
    ensures
        initialized(l.step(call).instance),
        l.step(call).instance.token == l.instance.token,
        call is Initialize ==> l.step(call) == l,
        (l.step(call).instance.oracle != l.instance.oracle || l.step(call).instance.admin
            != l.instance.admin || l.step(call).instance.paused != l.instance.paused)
            ==> l.demanded(call) == seq![l.instance.admin->0],
{
    if l.planned(call) is Some {
        lemma_step(l, call);
    }
}

/// A new admin replaces the old one, who can then neither hand the contract over, override a
/// result nor drain it, and is no longer asked to authorize a change of the settings.
pub proof fn law_a_handover_passes_the_powers_on(
    l: Ledger,
    caller: Address,
    new_admin: Address,
    next_admin: Address,
    entry: Option<Match>,
    match_id: u64,
    sequence: u32,
)
    requires
        l.planned(Call::TransferAdmin { caller, new_admin }) is Some,
    ensures
        ({
            let after = l.step(Call::TransferAdmin { caller, new_admin });
            &&& after.instance == (Instance { admin: Some(new_admin), ..l.instance })
            &&& new_admin != caller
            &&& transfer_admin_refusal(after.instance, caller, next_admin) == Some(
                Error::Unauthorized,
            )
            &&& override_result_refusal(after.instance, entry, match_id, caller, sequence) == Some(
                Error::Unauthorized,
            )
            &&& emergency_drain_refusal(after.instance, caller) == Some(Error::Unauthorized)
            &&& admin_authorizes(after.instance) == seq![new_admin]
        }),
{
    lemma_step(l, Call::TransferAdmin { caller, new_admin });
}

/// A new oracle replaces the old one, whose results are refused from then on.
pub proof fn law_a_new_oracle_replaces_the_old(
    l: Ledger,
    new_oracle: Address,
    entry: Option<Match>,
    match_id: u64,
    game: Seq<u8>,
)
    requires
        l.planned(Call::UpdateOracle { new_oracle }) is Some,
        l.instance.oracle != Some(new_oracle),
    ensures
        ({
            let after = l.step(Call::UpdateOracle { new_oracle });
            let refusal = submit_result_refusal(
                after.instance,
                entry,
                match_id,
                game,
                l.instance.oracle->0,
            );
            &&& after.instance == (Instance { oracle: Some(new_oracle), ..l.instance })
            &&& refusal is Some
            &&& !paused(l.instance) ==> refusal == Some(Error::Unauthorized)
        }),
{
    lemma_step(l, Call::UpdateOracle { new_oracle });
}

/// Unpausing undoes a pause: a running contract is then as it was before.
pub proof fn law_unpausing_undoes_a_pause(l: Ledger, sequence1: u32, sequence2: u32)
    requires
        l.well_formed(),
        initialized(l.instance),
        !paused(l.instance),
    ensures
        paused(l.step(Call::Pause { sequence: sequence1 }).instance),
        l.step(Call::Pause { sequence: sequence1 }).step(Call::Unpause { sequence: sequence2 })
            == l,
{
    let stopped = l.step(Call::Pause { sequence: sequence1 });
    lemma_step(l, Call::Pause { sequence: sequence1 });
    lemma_step(stopped, Call::Unpause { sequence: sequence2 });
    assert(l.instance.paused == Some(false));
}

/// The reported result of a match changes only by a submission that the oracle authorizes or an
/// override that the admin authorizes.
pub proof fn law_results_come_from_the_oracle_or_the_admin(l: Ledger, call: Call, id: u64)
    requires
        l.well_formed(),
        l.matches.contains_key(id),
        l.step(call).matches[id].pending_winner != l.matches[id].pending_winner,
    ensures
        (call is SubmitResult && l.demanded(call) == seq![l.instance.oracle->0]) || (
        call is OverrideResult && l.demanded(call) == seq![l.instance.admin->0]),
{
    if l.planned(call) is Some {
        lemma_step(l, call);
    }
}

/// Tokens are taken only from a player of the match, who authorizes it, and only the stake.
pub proof fn law_only_the_depositor_pays(l: Ledger, call: Call)
    requires
        l.well_formed(),
        l.step(call).collected != l.collected,
    ensures
        call matches Call::Deposit { match_id, player, allowance, sequence } && {
            let m = l.matches[match_id];
            &&& l.demanded(call) == seq![player]
            &&& player == m.player1 || player == m.player2
            &&& allowance >= m.stake_amount
            &&& l.step(call).collected == l.collected + m.stake_amount
            &&& l.planned(call)->0[0] == (Effect::Collect {
                token: m.token,
                from: player,
                amount: m.stake_amount,
            })
        },
{
    if l.planned(call) is Some {
        lemma_step(l, call);
    }
}

/// Two matches are never played under the same game id.
pub proof fn law_game_ids_are_unique(l: Ledger, id1: u64, id2: u64)
    requires
        l.well_formed(),
        l.matches.contains_key(id1),
        l.matches.contains_key(id2),
        l.matches[id1].game_id@ == l.matches[id2].game_id@,
    ensures
        id1 == id2,
{
}

/// The result of a game ends up on the match that is played under its game id, on no other.
pub proof fn law_a_result_lands_on_its_game(
    l: Ledger,
    match_id: u64,
    game: Seq<u8>,
    winner: Winner,
    caller: Address,
    sequence: u32,
)
    requires
        l.well_formed(),
        l.planned(Call::SubmitResult { match_id, game, winner, caller, sequence }) is Some,
    ensures
        l.games.contains_key(game),
        l.games[game] == match_id,
{
    assert(l.matches.contains_key(match_id));
}

// Pages.

/// A page holds exactly the ids of matches from `start` on, as many as fit.
pub proof fn law_a_page_holds_the_next_ids(count: u64, start: u64, limit: u32, id: u64)
    ensures
        page(count, start, limit).contains(id) <==> start <= id < count && id - start < limit && id
            - start < MAX_LIMIT,
        page(count, start, limit).len() <= limit,
        page(count, start, limit).len() <= MAX_LIMIT,
{
    let p = page(count, start, limit);
    if start <= id < count && id - start < limit && id - start < MAX_LIMIT {
        assert(p[id - start] == id);
    }
}

/// A page that is shorter than the requested limit is the last one. Left out is a page that was
/// cut at `MAX_LIMIT` ids because more were requested.
pub proof fn law_a_short_page_is_the_last(count: u64, start: u64, limit: u32, id: u64)
    requires
        limit <= MAX_LIMIT || count <= start + MAX_LIMIT,
        page(count, start, limit).len() < limit,
        start <= id < count,
    ensures
        page(count, start, limit).contains(id),
{
    assert(page(count, start, limit)[id - start] == id);
}

} // verus!
