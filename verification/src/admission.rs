//! When a call is accepted, with which error it is refused otherwise, and who has to authorize
//! it, for whatever the contract's storage holds.

use crate::effects::{
    decides, failure, topics_of, Decision, DepositRequest, Effect, Event,
};
use crate::errors::Error;
use crate::rules::{
    admin_authorizes, allowance_refusal, balance_in_range, caller_authorizes,
    cancel_match_authorizes, cancel_match_refusal, claim_in_range, claim_timeout_refusal,
    create_match_refusal, deposit_refusal, emergency_drain_refusal, escrow_balance,
    finalize_in_range, finalize_result_refusal, funded, initialized, known, match_count,
    override_in_range, override_result_refusal, page, pause_refusal, paused,
    submit_result_authorizes, submit_result_refusal, transfer_admin_refusal,
    update_oracle_refusal,
};
use crate::types::{
    is_game_id, Address, Instance, Match, MatchState, Winner, DISPUTE_WINDOW_LEDGERS,
    MATCH_TTL_LEDGERS, MAX_GAME_ID_LEN, MAX_LIMIT, TIMEOUT_LEDGERS,
};
use vstd::prelude::*;

verus! {

// Reading.

/// At a ledger every 5 seconds a stored entry lives for 30 days, a result can be disputed for
/// 24 hours and a match times out after 7 days.
pub proof fn law_the_periods_in_seconds()
    ensures
        MATCH_TTL_LEDGERS * 5 == 30 * 24 * 60 * 60,
        DISPUTE_WINDOW_LEDGERS * 5 == 24 * 60 * 60,
        TIMEOUT_LEDGERS * 5 == 7 * 24 * 60 * 60,
{
}

/// What instance storage says: the contract is initialized from the moment that it has an
/// oracle, paused only if that was stored, and it has as many matches as were counted.
pub proof fn law_the_instance_is_read_as_stored(instance: Instance)
    ensures
        initialized(instance) <==> instance.oracle is Some,
        paused(instance) <==> instance.paused is Some && instance.paused->0,
        instance.match_count is None ==> match_count(instance) == 0,
        instance.match_count is Some ==> Some(match_count(instance)) == instance.match_count,
{
}

/// A match is found if and only if its id was given out and something is stored under it.
pub proof fn law_a_match_is_found_under_its_id(
    instance: Instance,
    match_id: u64,
    entry: Option<Match>,
)
    ensures
        known(instance, match_id, entry) <==> entry is Some && instance.match_count is Some
            && match_id < instance.match_count->0,
{
}

/// What is held for a match is one stake for each deposit, and nothing once the match is over.
/// Only two deposits can add up to more than an amount holds.
pub proof fn law_a_match_holds_its_deposits(m: Match)
    ensures
        funded(m) <==> m.player1_deposited && m.player2_deposited,
        m.state == MatchState::Completed || m.state == MatchState::Cancelled ==> escrow_balance(m)
            == 0,
        m.state != MatchState::Completed && m.state != MatchState::Cancelled ==> {
            &&& m.player1_deposited && m.player2_deposited ==> escrow_balance(m) == m.stake_amount
                + m.stake_amount
            &&& m.player1_deposited != m.player2_deposited ==> escrow_balance(m) == m.stake_amount
            &&& !m.player1_deposited && !m.player2_deposited ==> escrow_balance(m) == 0
        },
        balance_in_range(None),
        !balance_in_range(Some(m)) <==> m.player1_deposited && m.player2_deposited && m.state
            != MatchState::Completed && m.state != MatchState::Cancelled && !(i128::MIN <= 2
            * m.stake_amount <= i128::MAX),
{
}

/// The ids of a page follow one another from `start` on, and a page ends only where the ids end,
/// at the requested limit or at the greatest number of ids in a page.
pub proof fn law_a_page_counts_up(count: u64, start: u64, limit: u32)
    ensures
        ({
            let ids = page(count, start, limit);
            &&& forall|i: int| 0 <= i < ids.len() ==> #[trigger] ids[i] == start + i
            &&& ids.len() <= limit && ids.len() <= 100
            &&& start + ids.len() <= count || ids.len() == 0
            &&& ids.len() == limit || ids.len() == 100 || start + ids.len() >= count
        }),
{
}

/// Two pages, of which the second starts where the first ends, are one longer page.
pub proof fn law_pages_join(count: u64, start: u64, first: u32, second: u32)
    requires
        first + second <= MAX_LIMIT,
        start + first <= u64::MAX,
    ensures
        page(count, start, first) + page(count, (start + first) as u64, second) == page(
            count,
            start,
            (first + second) as u32,
        ),
{
    let one = page(count, start, first);
    let two = page(count, (start + first) as u64, second);
    let both = page(count, start, (first + second) as u32);
    assert((one + two).len() == both.len());
    assert forall|i: int| 0 <= i < both.len() implies (one + two)[i] == both[i] by {
        if i >= one.len() {
            assert((one + two)[i] == two[i - one.len()]);
        }
    }
    assert(one + two =~= both);
}

// Names.

/// A game id is any 1 to 64 bytes.
pub proof fn law_any_short_name_is_a_game_id(raw: Seq<u8>)
    ensures
        is_game_id(raw) <==> raw.len() != 0 && raw.len() <= 64,
        MAX_GAME_ID_LEN == 64,
        MAX_LIMIT == 100,
{
}

/// An address reads as the characters of its text form and as nothing else.
pub proof fn law_an_address_reads_as_its_text(address: Address, text: Seq<char>)
    ensures
        address.reads(text) <==> text == address.strkey@.map_values(|b: u8| b as char),
{
    let own = address.strkey@.map_values(|b: u8| b as char);
    if address.reads(text) {
        assert forall|i: int| 0 <= i < own.len() implies own[i] == text[i] by {
            assert(address.strkey[i] as char == text[i]);
        }
        assert(text =~= own);
    }
    if text == own {
        assert forall|i: int| 0 <= i < 56 implies #[trigger] address.strkey[i] as char
            == text[i] by {
            assert(own[i] == address.strkey@[i] as char);
        }
    }
}

/// Two addresses that read as the same text are the same address.
pub proof fn law_a_text_names_one_address(a: Address, b: Address, text: Seq<char>)
    requires
        a.reads(text),
        b.reads(text),
    ensures
        a == b,
{
    assert forall|i: int| 0 <= i < 56 implies a.strkey[i] == b.strkey[i] by {
        assert(a.strkey[i] as char == text[i]);
        assert(b.strkey[i] as char == text[i]);
    }
    assert(a.strkey =~= b.strkey);
}

/// Which event it is, whatever it says.
pub open spec fn sort(event: Event) -> nat {
    match event {
        Event::OracleUpdated { .. } => 0,
        Event::AdminTransferred { .. } => 1,
        Event::Paused { .. } => 2,
        Event::Unpaused { .. } => 3,
        Event::MatchCreated { .. } => 4,
        Event::MatchActivated { .. } => 5,
        Event::Deposited { .. } => 6,
        Event::ResultPending { .. } => 7,
        Event::ResultOverridden { .. } => 8,
        Event::MatchCompleted { .. } => 9,
        Event::MatchTimedOut { .. } => 10,
        Event::MatchCancelled { .. } => 11,
        Event::Drained { .. } => 12,
    }
}

/// The topics of an event tell which event it is: they are the same for two events of one sort,
/// whatever these say, and differ for any others.
pub proof fn law_topics_tell_events_apart(a: Event, b: Event)
    ensures
        topics_of(a) == topics_of(b) <==> sort(a) == sort(b),
{
    reveal_strlit("oracle_updated");
    reveal_strlit("transfer");
    reveal_strlit("paused");
    reveal_strlit("unpaused");
    reveal_strlit("created");
    reveal_strlit("activated");
    reveal_strlit("deposit");
    reveal_strlit("pending");
    reveal_strlit("overridn");
    reveal_strlit("completed");
    reveal_strlit("timeout");
    reveal_strlit("cancelled");
    reveal_strlit("drain");
    let (s, t) = (topics_of(a).1, topics_of(b).1);
    if s == t {
        assert(s.len() == t.len() && s[0] == t[0] && s[1] == t[1]);
    }
}

/// A transfer that the token may refuse is one between the contract and a player who deposits
/// or gets a deposit back; there is no other error for an effect that fails.
pub proof fn law_only_stakes_may_be_refused(effect: Effect)
    ensures
        failure(effect) == Some(Error::TransferFailed) <==> effect is Collect || effect is Refund,
        failure(effect) is Some ==> failure(effect) == Some(Error::TransferFailed),
{
}

/// A decision is either refused with the one error or has exactly the one list of effects, and
/// demands exactly the given authorizations either way.
pub proof fn law_a_decision_is_unambiguous(
    decision: Decision<Vec<Effect>>,
    authorize: Seq<Address>,
    refusal: Option<Error>,
    effects: Seq<Effect>,
)
    requires
        decides(decision, authorize, refusal, effects),
    ensures
        decision.authorize@ == authorize,
        decision.result is Ok <==> refusal is None,
        decision.result is Ok ==> decision.result->Ok_0@ == effects,
        decision.result is Err ==> Some(decision.result->Err_0) == refusal,
{
}

// Settings.

/// The settings of a contract that has an admin can be changed, and that admin is asked; without
/// one nobody is asked and everything is refused.
pub proof fn law_when_the_settings_can_be_changed(instance: Instance)
    ensures
        update_oracle_refusal(instance) is None <==> instance.admin is Some
            && instance.oracle is Some,
        update_oracle_refusal(instance) is Some ==> update_oracle_refusal(instance) == Some(
            Error::Unauthorized,
        ),
        pause_refusal(instance) is None <==> instance.admin is Some,
        pause_refusal(instance) is Some ==> pause_refusal(instance) == Some(Error::Unauthorized),
        instance.admin is Some ==> admin_authorizes(instance) == seq![instance.admin->0],
        instance.admin is None ==> admin_authorizes(instance).len() == 0,
{
}

/// A caller is asked to sign if and only if they are the one who may call.
pub proof fn law_only_the_expected_caller_is_asked(expected: Option<Address>, caller: Address)
    ensures
        caller_authorizes(expected, caller).len() == 1 <==> expected == Some(caller),
        caller_authorizes(expected, caller).len() <= 1,
        forall|i: int|
            0 <= i < caller_authorizes(expected, caller).len() ==> caller_authorizes(
                expected,
                caller,
            )[i] == caller,
{
}

/// The admin can hand the contract over to anyone but themselves and the zero account.
pub proof fn law_when_the_contract_is_handed_over(
    instance: Instance,
    caller: Address,
    new_admin: Address,
)
    ensures
        ({
            let refusal = transfer_admin_refusal(instance, caller, new_admin);
            let zero = new_admin.strkey@.map_values(|b: u8| b as char)
                == "GAAAAAAAAAAAAAAAAAAAAAAAAAAAAAAAAAAAAAAAAAAAAAAAAAAAAWHF"@;
            &&& refusal is None <==> instance.admin == Some(caller) && new_admin != caller && !zero
            &&& refusal == Some(Error::Unauthorized) <==> instance.admin != Some(caller)
            &&& refusal == Some(Error::InvalidAdmin) <==> instance.admin == Some(caller) && (
            new_admin == caller || zero)
        }),
{
    law_an_address_reads_as_its_text(
        new_admin,
        "GAAAAAAAAAAAAAAAAAAAAAAAAAAAAAAAAAAAAAAAAAAAAAAAAAAAAWHF"@,
    );
}

/// A paused contract is drained by its admin and by nobody else; a running one is not.
pub proof fn law_when_the_contract_is_drained(instance: Instance, caller: Address)
    ensures
        ({
            let refusal = emergency_drain_refusal(instance, caller);
            let admin = instance.admin == Some(caller);
            let halted = instance.paused == Some(true);
            &&& refusal is None <==> admin && halted && instance.token is Some
            &&& refusal == Some(Error::NotPaused) <==> admin && !halted
            &&& refusal == Some(Error::Unauthorized) <==> !admin || (halted
                && instance.token is None)
        }),
{
}

// Matches.

/// A match can be created if and only if the contract runs, the stake is positive, the players
/// are two, the game id is a new one, the token is the contract's and the next id is free. The
/// error names the first of these that does not hold.
pub proof fn law_when_a_match_is_created(
    instance: Instance,
    taken: bool,
    occupied: bool,
    player1: Address,
    player2: Address,
    stake_amount: i128,
    token: Address,
    game_id: Seq<u8>,
)
    ensures
        ({
            let refusal = create_match_refusal(
                instance,
                taken,
                occupied,
                player1,
                player2,
                stake_amount,
                token,
                game_id,
            );
            let running = instance.paused != Some(true);
            let paying = running && stake_amount > 0;
            let paired = paying && player1 != player2;
            let named = paired && 1 <= game_id.len() <= MAX_GAME_ID_LEN;
            let fresh = named && !taken;
            let priced = fresh && instance.token == Some(token);
            let free = priced && !occupied;
            let counted = free && instance.match_count != Some(u64::MAX);
            &&& refusal is None <==> counted
            &&& refusal == Some(Error::ContractPaused) <==> !running
            &&& refusal == Some(Error::InvalidAmount) <==> running && !paying
            &&& refusal == Some(Error::InvalidPlayers) <==> paying && !paired
            &&& refusal == Some(Error::InvalidGameId) <==> paired && !named
            &&& refusal == Some(Error::DuplicateGameId) <==> named && !fresh
            &&& refusal == Some(Error::Unauthorized) <==> fresh && instance.token is None
            &&& refusal == Some(Error::InvalidToken) <==> fresh && !priced
                && instance.token is Some
            &&& refusal == Some(Error::AlreadyExists) <==> priced && !free
            &&& refusal == Some(Error::Overflow) <==> free && !counted
        }),
{
}

/// A deposit is admitted if and only if the contract runs and the match is there, pending, the
/// player's and still without their stake. The error names the first of these that does not hold.
pub proof fn law_when_a_deposit_is_admitted(
    instance: Instance,
    entry: Option<Match>,
    match_id: u64,
    player: Address,
)
    ensures
        ({
            let refusal = deposit_refusal(instance, entry, match_id, player);
            let m = entry->0;
            let running = instance.paused != Some(true);
            let there = running && entry is Some && instance.match_count is Some && match_id
                < instance.match_count->0;
            let pending = there && m.state == MatchState::Pending;
            let own = pending && (player == m.player1 || player == m.player2);
            let open = own && !(player == m.player1 && m.player1_deposited) && !(player
                != m.player1 && m.player2_deposited);
            &&& refusal is None <==> open
            &&& refusal == Some(Error::ContractPaused) <==> !running
            &&& refusal == Some(Error::MatchNotFound) <==> running && !there
            &&& refusal == Some(Error::InvalidState) <==> there && !pending
            &&& refusal == Some(Error::Unauthorized) <==> pending && !own
            &&& refusal == Some(Error::AlreadyFunded) <==> own && !open
        }),
{
}

/// A deposit goes on if and only if the allowance covers the stake.
pub proof fn law_when_an_allowance_suffices(request: DepositRequest, allowance: i128)
    ensures
        allowance_refusal(request, allowance) is None <==> request.record.stake_amount
            <= allowance,
        allowance_refusal(request, allowance) is Some ==> allowance_refusal(request, allowance)
            == Some(Error::InsufficientAllowance),
{
}

/// A result is recorded if and only if the contract runs, the oracle reports it, and the match
/// is there, played under that game id, active and funded. The error names the first of these
/// that does not hold. The oracle is asked to sign as soon as it is known to be the oracle.
pub proof fn law_when_a_result_is_recorded(
    instance: Instance,
    entry: Option<Match>,
    match_id: u64,
    game: Seq<u8>,
    caller: Address,
)
    ensures
        ({
            let refusal = submit_result_refusal(instance, entry, match_id, game, caller);
            let m = entry->0;
            let running = instance.paused != Some(true);
            let oracle = running && instance.oracle == Some(caller);
            let there = oracle && entry is Some && instance.match_count is Some && match_id
                < instance.match_count->0;
            let named = there && m.game_id@ == game;
            let active = named && m.state == MatchState::Active;
            let backed = active && m.player1_deposited && m.player2_deposited;
            &&& refusal is None <==> backed
            &&& refusal == Some(Error::ContractPaused) <==> !running
            &&& refusal == Some(Error::Unauthorized) <==> running && !oracle
            &&& refusal == Some(Error::MatchNotFound) <==> oracle && !there
            &&& refusal == Some(Error::GameIdMismatch) <==> there && !named
            &&& refusal == Some(Error::InvalidState) <==> named && !active
            &&& refusal == Some(Error::NotFunded) <==> active && !backed
            &&& oracle ==> submit_result_authorizes(instance, caller) == seq![caller]
            &&& !oracle ==> submit_result_authorizes(instance, caller).len() == 0
        }),
{
}

/// A result is overridden if and only if the admin does so, the match is there and has a result,
/// and fewer ledgers than the dispute window has have elapsed since it was reported. The call
/// is undefined only if it gets as far as an end of the window that is no ledger number.
pub proof fn law_when_a_result_is_overridden(
    instance: Instance,
    entry: Option<Match>,
    match_id: u64,
    caller: Address,
    sequence: u32,
)
    ensures
        ({
            let refusal = override_result_refusal(instance, entry, match_id, caller, sequence);
            let m = entry->0;
            let admin = instance.admin == Some(caller);
            let there = admin && entry is Some && instance.match_count is Some && match_id
                < instance.match_count->0;
            let decided = there && m.state == MatchState::PendingResult;
            let early = decided && sequence - m.pending_result_ledger < DISPUTE_WINDOW_LEDGERS;
            &&& refusal is None <==> early
            &&& refusal == Some(Error::Unauthorized) <==> !admin
            &&& refusal == Some(Error::MatchNotFound) <==> admin && !there
            &&& refusal == Some(Error::InvalidState) <==> there && !decided
            &&& refusal == Some(Error::DisputeWindowActive) <==> decided && !early
            &&& !override_in_range(instance, entry, match_id, caller) <==> decided
                && m.pending_result_ledger + DISPUTE_WINDOW_LEDGERS > u32::MAX
        }),
{
}

/// A result is paid out if and only if the match is there and has a result, and as many ledgers
/// as the dispute window has have elapsed since it was reported. The call is undefined only if
/// it gets as far as an end of the window that is no ledger number or a pot that is no amount.
pub proof fn law_when_a_result_is_paid_out(
    instance: Instance,
    entry: Option<Match>,
    match_id: u64,
    sequence: u32,
)
    ensures
        ({
            let refusal = finalize_result_refusal(instance, entry, match_id, sequence);
            let m = entry->0;
            let there = entry is Some && instance.match_count is Some && match_id
                < instance.match_count->0;
            let decided = there && m.state == MatchState::PendingResult;
            let late = decided && sequence - m.pending_result_ledger >= DISPUTE_WINDOW_LEDGERS;
            let won = late && m.pending_winner is Some;
            &&& refusal is None <==> won
            &&& refusal == Some(Error::MatchNotFound) <==> !there
            &&& refusal == Some(Error::InvalidState) <==> (there && !decided) || (late && !won)
            &&& refusal == Some(Error::DisputeWindowActive) <==> decided && !late
            &&& !finalize_in_range(instance, entry, match_id, sequence) <==> decided && (
            m.pending_result_ledger + DISPUTE_WINDOW_LEDGERS > u32::MAX || (won
                && m.pending_winner != Some(Winner::Draw) && !(i128::MIN <= m.stake_amount
                + m.stake_amount <= i128::MAX)))
        }),
{
}

/// A timeout is claimed if and only if the match is there and active, a player claims it, and
/// more ledgers than the timeout has have elapsed since the match started. The call is undefined
/// only if it gets as far as an end of the timeout that is no ledger number.
pub proof fn law_when_a_timeout_is_claimed(
    instance: Instance,
    entry: Option<Match>,
    match_id: u64,
    caller: Address,
    sequence: u32,
)
    ensures
        ({
            let refusal = claim_timeout_refusal(instance, entry, match_id, caller, sequence);
            let m = entry->0;
            let there = entry is Some && instance.match_count is Some && match_id
                < instance.match_count->0;
            let active = there && m.state == MatchState::Active;
            let own = active && (caller == m.player1 || caller == m.player2);
            let over = own && sequence - m.activated_ledger > TIMEOUT_LEDGERS;
            &&& refusal is None <==> over
            &&& refusal == Some(Error::MatchNotFound) <==> !there
            &&& refusal == Some(Error::InvalidState) <==> there && !active
            &&& refusal == Some(Error::Unauthorized) <==> active && !own
            &&& refusal == Some(Error::MatchTimedOut) <==> own && !over
            &&& !claim_in_range(instance, entry, match_id, caller) <==> own && m.activated_ledger
                + TIMEOUT_LEDGERS > u32::MAX
        }),
{
}

/// A match is cancelled if and only if it is there and pending and a player does so. Both
/// players have to sign if both have deposited, and the one who cancels otherwise.
pub proof fn law_when_a_match_is_cancelled(
    instance: Instance,
    entry: Option<Match>,
    match_id: u64,
    caller: Address,
)
    ensures
        ({
            let refusal = cancel_match_refusal(instance, entry, match_id, caller);
            let signers = cancel_match_authorizes(instance, entry, match_id, caller);
            let m = entry->0;
            let there = entry is Some && instance.match_count is Some && match_id
                < instance.match_count->0;
            let pending = there && m.state == MatchState::Pending;
            let own = pending && (caller == m.player1 || caller == m.player2);
            &&& refusal is None <==> own
            &&& refusal == Some(Error::MatchNotFound) <==> !there
            &&& refusal == Some(Error::InvalidState) <==> there && !pending
            &&& refusal == Some(Error::Unauthorized) <==> pending && !own
            &&& !own ==> signers.len() == 0
            &&& own && m.player1_deposited && m.player2_deposited ==> signers == seq![
                m.player1,
                m.player2,
            ]
            &&& own && !(m.player1_deposited && m.player2_deposited) ==> signers == seq![caller]
        }),
{
}

} // verus!
