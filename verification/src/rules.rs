//! The mathematical statement of every call: whom it must be authorized by, when it is refused
//! and with which error, and which effects it has otherwise.

use crate::effects::{DepositRequest, DrainRequest, Effect, Event};
use crate::errors::Error;
use crate::types::{
    is_game_id, zero_account, Address, DataKey, GameId, Instance, Match, MatchState, Platform,
    Side, Winner, DISPUTE_WINDOW_LEDGERS, MATCH_TTL_LEDGERS, MAX_LIMIT, TIMEOUT_LEDGERS,
};
use vstd::prelude::*;

verus! {

// Reading the instance record.

/// A contract that was never paused is not paused.
pub open spec fn paused(instance: Instance) -> bool {
    instance.paused == Some(true)
}

/// How many matches were ever created.
pub open spec fn match_count(instance: Instance) -> u64 {
    match instance.match_count {
        Some(count) => count,
        None => 0,
    }
}

// Reading a match.

/// Whether the match that a call names exists, where `entry` is what is stored under its id.
pub open spec fn known(instance: Instance, match_id: u64, entry: Option<Match>) -> bool {
    match_id < match_count(instance) && entry is Some
}

/// Whether `address` plays in the match.
pub open spec fn plays(m: Match, address: Address) -> bool {
    address == m.player1 || address == m.player2
}

/// Whether both players have deposited.
pub open spec fn funded(m: Match) -> bool {
    m.player1_deposited && m.player2_deposited
}

/// Whether nothing can happen to the match any more.
pub open spec fn terminal(m: Match) -> bool {
    m.state == MatchState::Completed || m.state == MatchState::Cancelled
}

/// What one player has at stake: the stake once it is deposited.
pub open spec fn share(deposited: bool, stake_amount: i128) -> i128 {
    if deposited {
        stake_amount
    } else {
        0
    }
}

/// What is held for the match: no, one or two stakes.
pub open spec fn escrow_balance(m: Match) -> int {
    if terminal(m) {
        0
    } else {
        share(m.player1_deposited, m.stake_amount) + share(m.player2_deposited, m.stake_amount)
    }
}

/// Whether the balance of the match is a 128-bit number.
pub open spec fn balance_in_range(entry: Option<Match>) -> bool {
    entry matches Some(m) ==> i128::MIN <= escrow_balance(m) <= i128::MAX
}

/// The first ledger at which the reported result can be paid out and no longer overridden.
pub open spec fn dispute_end(m: Match) -> int {
    m.pending_result_ledger + DISPUTE_WINDOW_LEDGERS
}

/// The last ledger at which it is too early to claim the timeout.
pub open spec fn timeout_end(m: Match) -> int {
    m.activated_ledger + TIMEOUT_LEDGERS
}

// Writing a match.

/// The effects that store a match and keep it alive.
pub open spec fn stored(match_id: u64, record: Match) -> Seq<Effect> {
    seq![Effect::PutMatch { match_id, record }, kept(DataKey::Match(match_id))]
}

/// The effect that keeps an entry alive.
pub open spec fn kept(key: DataKey) -> Effect {
    Effect::ExtendTtl { key, threshold: MATCH_TTL_LEDGERS, extend_to: MATCH_TTL_LEDGERS }
}

/// The effect that publishes an event.
pub open spec fn published(event: Event) -> Seq<Effect> {
    seq![Effect::Publish { event }]
}

/// One effect if `condition` holds and none otherwise.
pub open spec fn only_if(condition: bool, effect: Effect) -> Seq<Effect> {
    if condition {
        seq![effect]
    } else {
        seq![]
    }
}

// initialize

/// Whether the contract has been initialized.
pub open spec fn initialized(instance: Instance) -> bool {
    instance.oracle is Some
}

/// Initialization asks the token for its decimals and sets every key of instance storage.
pub open spec fn initialize_effects(
    oracle: Address,
    admin: Address,
    token: Address,
) -> Seq<Effect> {
    seq![
        Effect::ReadDecimals { token },
        Effect::SetOracle { oracle },
        Effect::SetAdmin { admin },
        Effect::SetToken { token },
        Effect::SetMatchCount { count: 0 },
        Effect::SetPaused { paused: false },
    ]
}

// Calls that the stored admin authorizes without being named.

/// The stored admin, if there is one.
pub open spec fn admin_authorizes(instance: Instance) -> Seq<Address> {
    match instance.admin {
        Some(admin) => seq![admin],
        None => seq![],
    }
}

// update_oracle

/// Only an initialized contract has an oracle to replace.
pub open spec fn update_oracle_refusal(instance: Instance) -> Option<Error> {
    if instance.admin is None || instance.oracle is None {
        Some(Error::Unauthorized)
    } else {
        None
    }
}

/// The new oracle is stored and announced.
pub open spec fn update_oracle_effects(instance: Instance, new_oracle: Address) -> Seq<Effect> {
    seq![Effect::SetOracle { oracle: new_oracle }] + published(
        Event::OracleUpdated {
            old_oracle: instance.oracle->0,
            new_oracle,
            admin: instance.admin->0,
        },
    )
}

// Calls that name their caller, who has to be someone in particular.

/// The caller is asked to authorize the call once it is known to be `expected`.
pub open spec fn caller_authorizes(expected: Option<Address>, caller: Address) -> Seq<Address> {
    if expected == Some(caller) {
        seq![caller]
    } else {
        seq![]
    }
}

// transfer_admin

/// Only the admin hands the contract over, and only to someone else who exists.
pub open spec fn transfer_admin_refusal(
    instance: Instance,
    caller: Address,
    new_admin: Address,
) -> Option<Error> {
    if instance.admin != Some(caller) {
        Some(Error::Unauthorized)
    } else if new_admin.reads(zero_account()) || new_admin == caller {
        Some(Error::InvalidAdmin)
    } else {
        None
    }
}

/// The new admin is stored and announced.
pub open spec fn transfer_admin_effects(caller: Address, new_admin: Address) -> Seq<Effect> {
    seq![Effect::SetAdmin { admin: new_admin }] + published(
        Event::AdminTransferred { old_admin: caller, new_admin },
    )
}

// pause and unpause

/// Only an initialized contract can be paused or unpaused.
pub open spec fn pause_refusal(instance: Instance) -> Option<Error> {
    if instance.admin is None {
        Some(Error::Unauthorized)
    } else {
        None
    }
}

/// The pause is stored and announced.
pub open spec fn pause_effects(instance: Instance, sequence: u32) -> Seq<Effect> {
    seq![Effect::SetPaused { paused: true }] + published(
        Event::Paused { admin: instance.admin->0, sequence },
    )
}

/// The end of the pause is stored and announced.
pub open spec fn unpause_effects(instance: Instance, sequence: u32) -> Seq<Effect> {
    seq![Effect::SetPaused { paused: false }] + published(
        Event::Unpaused { admin: instance.admin->0, sequence },
    )
}

// create_match

/// Only a running contract creates a match, with a stake in its token, between two players and
/// under a new game id. `taken`: whether a match is stored under the game id; `occupied`: whether
/// one is stored under the next match id.
pub open spec fn create_match_refusal(
    instance: Instance,
    taken: bool,
    occupied: bool,
    player1: Address,
    player2: Address,
    stake_amount: i128,
    token: Address,
    game_id: Seq<u8>,
) -> Option<Error> {
    if paused(instance) {
        Some(Error::ContractPaused)
    } else if stake_amount <= 0 {
        Some(Error::InvalidAmount)
    } else if player1 == player2 {
        Some(Error::InvalidPlayers)
    } else if !is_game_id(game_id) {
        Some(Error::InvalidGameId)
    } else if taken {
        Some(Error::DuplicateGameId)
    } else if instance.token is None {
        Some(Error::Unauthorized)
    } else if instance.token != Some(token) {
        Some(Error::InvalidToken)
    } else if occupied {
        Some(Error::AlreadyExists)
    } else if match_count(instance) == u64::MAX {
        Some(Error::Overflow)
    } else {
        None
    }
}

/// The record of a match that was created just now.
pub open spec fn new_match(
    instance: Instance,
    sequence: u32,
    player1: Address,
    player2: Address,
    stake_amount: i128,
    token: Address,
    game_id: GameId,
    platform: Platform,
) -> Match {
    Match {
        id: match_count(instance),
        player1,
        player2,
        stake_amount,
        token,
        game_id,
        platform,
        state: MatchState::Pending,
        player1_deposited: false,
        player2_deposited: false,
        created_ledger: sequence,
        activated_ledger: 0,
        pending_result_ledger: 0,
        pending_winner: None,
        cancelled_ledger: None,
        completed_ledger: None,
    }
}

/// The match is stored under its id and under its game id, counted and announced.
pub open spec fn create_match_effects(m: Match) -> Seq<Effect> {
    stored(m.id, m) + seq![
        Effect::PutGameId { game_id: m.game_id, match_id: m.id },
        kept(DataKey::GameId(m.game_id)),
        Effect::SetMatchCount { count: (m.id + 1) as u64 },
    ] + published(
        Event::MatchCreated {
            match_id: m.id,
            player1: m.player1,
            player2: m.player2,
            stake_amount: m.stake_amount,
            game_id: m.game_id,
        },
    )
}

// deposit

/// Whether `player`, who plays in the match, has deposited.
pub open spec fn has_deposited(m: Match, player: Address) -> bool {
    if player == m.player1 {
        m.player1_deposited
    } else {
        m.player2_deposited
    }
}

/// Only a player of a pending match who has not deposited yet can deposit.
pub open spec fn deposit_refusal(
    instance: Instance,
    entry: Option<Match>,
    match_id: u64,
    player: Address,
) -> Option<Error> {
    if paused(instance) {
        Some(Error::ContractPaused)
    } else if !known(instance, match_id, entry) {
        Some(Error::MatchNotFound)
    } else if entry->0.state != MatchState::Pending {
        Some(Error::InvalidState)
    } else if !plays(entry->0, player) {
        Some(Error::Unauthorized)
    } else if has_deposited(entry->0, player) {
        Some(Error::AlreadyFunded)
    } else {
        None
    }
}

/// The contract has to be allowed to take the stake.
pub open spec fn allowance_refusal(request: DepositRequest, allowance: i128) -> Option<Error> {
    if allowance < request.record.stake_amount {
        Some(Error::InsufficientAllowance)
    } else {
        None
    }
}

/// The match with one more deposit. The second deposit activates it.
pub open spec fn with_deposit(m: Match, player: Address, sequence: u32) -> Match {
    let m = if player == m.player1 {
        Match { player1_deposited: true, ..m }
    } else {
        Match { player2_deposited: true, ..m }
    };
    if funded(m) {
        Match { state: MatchState::Active, activated_ledger: sequence, ..m }
    } else {
        m
    }
}

/// The stake is moved, the deposit announced and the match stored.
pub open spec fn deposit_effects(request: DepositRequest, sequence: u32) -> Seq<Effect> {
    let m = request.record;
    let updated = with_deposit(m, request.player, sequence);
    seq![Effect::Collect { token: m.token, from: request.player, amount: m.stake_amount }]
        + only_if(
        funded(updated),
        Effect::Publish { event: Event::MatchActivated { match_id: request.match_id } },
    ) + published(
        Event::Deposited {
            match_id: request.match_id,
            player: request.player,
            amount: m.stake_amount,
            side: if request.player == m.player1 {
                Side::Player1
            } else {
                Side::Player2
            },
        },
    ) + stored(request.match_id, updated)
}

// submit_result

/// The oracle authorizes a result, unless the contract is paused.
pub open spec fn submit_result_authorizes(instance: Instance, caller: Address) -> Seq<Address> {
    if paused(instance) {
        seq![]
    } else {
        caller_authorizes(instance.oracle, caller)
    }
}

/// Only the oracle reports a result, only for a match that is being played, and only with its
/// game id.
pub open spec fn submit_result_refusal(
    instance: Instance,
    entry: Option<Match>,
    match_id: u64,
    game_id: Seq<u8>,
    caller: Address,
) -> Option<Error> {
    if paused(instance) {
        Some(Error::ContractPaused)
    } else if instance.oracle != Some(caller) {
        Some(Error::Unauthorized)
    } else if !known(instance, match_id, entry) {
        Some(Error::MatchNotFound)
    } else if entry->0.game_id@ != game_id {
        Some(Error::GameIdMismatch)
    } else if entry->0.state != MatchState::Active {
        Some(Error::InvalidState)
    } else if !funded(entry->0) {
        Some(Error::NotFunded)
    } else {
        None
    }
}

/// The match with a reported result, whose dispute window opens now.
pub open spec fn with_result(m: Match, winner: Winner, sequence: u32) -> Match {
    Match {
        state: MatchState::PendingResult,
        pending_result_ledger: sequence,
        pending_winner: Some(winner),
        ..m
    }
}

/// The match is stored with its result, which is announced.
pub open spec fn submit_result_effects(
    m: Match,
    match_id: u64,
    winner: Winner,
    sequence: u32,
) -> Seq<Effect> {
    stored(match_id, with_result(m, winner, sequence)) + published(
        Event::ResultPending { match_id, winner, sequence },
    )
}

// override_result

/// Whether the call gets as far as the dispute window.
pub open spec fn override_reaches_window(
    instance: Instance,
    entry: Option<Match>,
    match_id: u64,
    caller: Address,
) -> bool {
    &&& instance.admin == Some(caller)
    &&& known(instance, match_id, entry)
    &&& entry->0.state == MatchState::PendingResult
}

/// Whether every number that the call computes exists.
pub open spec fn override_in_range(
    instance: Instance,
    entry: Option<Match>,
    match_id: u64,
    caller: Address,
) -> bool {
    override_reaches_window(instance, entry, match_id, caller) ==> dispute_end(entry->0) <= u32::MAX
}

/// Only the admin overrides a result, and only while its dispute window is open.
pub open spec fn override_result_refusal(
    instance: Instance,
    entry: Option<Match>,
    match_id: u64,
    caller: Address,
    sequence: u32,
) -> Option<Error> {
    if instance.admin != Some(caller) {
        Some(Error::Unauthorized)
    } else if !known(instance, match_id, entry) {
        Some(Error::MatchNotFound)
    } else if entry->0.state != MatchState::PendingResult {
        Some(Error::InvalidState)
    } else if sequence >= dispute_end(entry->0) {
        Some(Error::DisputeWindowActive)
    } else {
        None
    }
}

/// The match is stored with its new winner, who is announced.
pub open spec fn override_result_effects(
    m: Match,
    match_id: u64,
    new_winner: Winner,
) -> Seq<Effect> {
    stored(match_id, Match { pending_winner: Some(new_winner), ..m }) + published(
        Event::ResultOverridden { match_id, old_winner: m.pending_winner, new_winner },
    )
}

// finalize_result

/// What each player who is paid receives: the whole pot, or a stake back if nobody won.
pub open spec fn payout(m: Match, winner: Winner) -> int {
    if winner == Winner::Draw {
        m.stake_amount as int
    } else {
        2 * m.stake_amount
    }
}

/// Whether every number that the call computes exists.
pub open spec fn finalize_in_range(
    instance: Instance,
    entry: Option<Match>,
    match_id: u64,
    sequence: u32,
) -> bool {
    known(instance, match_id, entry) && entry->0.state == MatchState::PendingResult ==> {
        let m = entry->0;
        &&& dispute_end(m) <= u32::MAX
        &&& sequence >= dispute_end(m) && m.pending_winner is Some ==> i128::MIN <= payout(
            m,
            m.pending_winner->0,
        ) <= i128::MAX
    }
}

/// A result is paid out once its dispute window has closed.
pub open spec fn finalize_result_refusal(
    instance: Instance,
    entry: Option<Match>,
    match_id: u64,
    sequence: u32,
) -> Option<Error> {
    if !known(instance, match_id, entry) {
        Some(Error::MatchNotFound)
    } else if entry->0.state != MatchState::PendingResult {
        Some(Error::InvalidState)
    } else if sequence < dispute_end(entry->0) {
        Some(Error::DisputeWindowActive)
    } else if entry->0.pending_winner is None {
        Some(Error::InvalidState)
    } else {
        None
    }
}

/// The match after its payout.
pub open spec fn completed(m: Match, sequence: u32) -> Match {
    Match { state: MatchState::Completed, completed_ledger: Some(sequence), ..m }
}

/// Who has won is paid, the match stored and the payout announced.
pub open spec fn finalize_result_effects(m: Match, match_id: u64, sequence: u32) -> Seq<Effect> {
    let winner = m.pending_winner->0;
    let amount = payout(m, winner) as i128;
    only_if(
        winner != Winner::Player2,
        Effect::Pay { token: m.token, to: m.player1, amount },
    ) + only_if(
        winner != Winner::Player1,
        Effect::Pay { token: m.token, to: m.player2, amount },
    ) + stored(match_id, completed(m, sequence)) + published(
        Event::MatchCompleted { match_id, winner, payout: amount },
    )
}

// claim_timeout

/// Whether the call gets as far as the timeout.
pub open spec fn claim_reaches_timeout(
    instance: Instance,
    entry: Option<Match>,
    match_id: u64,
    caller: Address,
) -> bool {
    &&& known(instance, match_id, entry)
    &&& entry->0.state == MatchState::Active
    &&& plays(entry->0, caller)
}

/// Whether every number that the call computes exists.
pub open spec fn claim_in_range(
    instance: Instance,
    entry: Option<Match>,
    match_id: u64,
    caller: Address,
) -> bool {
    claim_reaches_timeout(instance, entry, match_id, caller) ==> timeout_end(entry->0) <= u32::MAX
}

/// Only a player of an active match claims the timeout, and only when it is over.
pub open spec fn claim_timeout_refusal(
    instance: Instance,
    entry: Option<Match>,
    match_id: u64,
    caller: Address,
    sequence: u32,
) -> Option<Error> {
    if !known(instance, match_id, entry) {
        Some(Error::MatchNotFound)
    } else if entry->0.state != MatchState::Active {
        Some(Error::InvalidState)
    } else if !plays(entry->0, caller) {
        Some(Error::Unauthorized)
    } else if sequence <= timeout_end(entry->0) {
        Some(Error::MatchTimedOut)
    } else {
        None
    }
}

/// Both stakes are paid back, the match stored and the timeout announced.
pub open spec fn claim_timeout_effects(m: Match, match_id: u64, caller: Address) -> Seq<Effect> {
    seq![
        Effect::Pay { token: m.token, to: m.player1, amount: m.stake_amount },
        Effect::Pay { token: m.token, to: m.player2, amount: m.stake_amount },
    ] + stored(match_id, Match { state: MatchState::Cancelled, ..m }) + published(
        Event::MatchTimedOut { match_id, caller },
    )
}

// cancel_match

/// The caller, or both players where both have something to lose.
pub open spec fn cancel_match_authorizes(
    instance: Instance,
    entry: Option<Match>,
    match_id: u64,
    caller: Address,
) -> Seq<Address> {
    if cancel_match_refusal(instance, entry, match_id, caller) is Some {
        seq![]
    } else if funded(entry->0) {
        seq![entry->0.player1, entry->0.player2]
    } else {
        seq![caller]
    }
}

/// Only a player cancels a match, and only before it starts.
pub open spec fn cancel_match_refusal(
    instance: Instance,
    entry: Option<Match>,
    match_id: u64,
    caller: Address,
) -> Option<Error> {
    if !known(instance, match_id, entry) {
        Some(Error::MatchNotFound)
    } else if entry->0.state != MatchState::Pending {
        Some(Error::InvalidState)
    } else if !plays(entry->0, caller) {
        Some(Error::Unauthorized)
    } else {
        None
    }
}

/// The match after it was called off before the start.
pub open spec fn cancelled(m: Match, sequence: u32) -> Match {
    Match { state: MatchState::Cancelled, cancelled_ledger: Some(sequence), ..m }
}

/// What was deposited is refunded, the match stored and the cancellation announced.
pub open spec fn cancel_match_effects(
    m: Match,
    match_id: u64,
    caller: Address,
    sequence: u32,
) -> Seq<Effect> {
    only_if(
        m.player1_deposited,
        Effect::Refund { token: m.token, to: m.player1, amount: m.stake_amount },
    ) + only_if(
        m.player2_deposited,
        Effect::Refund { token: m.token, to: m.player2, amount: m.stake_amount },
    ) + stored(match_id, cancelled(m, sequence)) + published(
        Event::MatchCancelled {
            match_id,
            caller,
            player1_refund: share(m.player1_deposited, m.stake_amount),
            player2_refund: share(m.player2_deposited, m.stake_amount),
        },
    )
}

// emergency_drain

/// Only the admin drains the contract, and only while it is paused.
pub open spec fn emergency_drain_refusal(instance: Instance, caller: Address) -> Option<Error> {
    if instance.admin != Some(caller) {
        Some(Error::Unauthorized)
    } else if !paused(instance) {
        Some(Error::NotPaused)
    } else if instance.token is None {
        Some(Error::Unauthorized)
    } else {
        None
    }
}

/// What there is is moved, and the drain announced.
pub open spec fn drain_effects(request: DrainRequest, balance: i128) -> Seq<Effect> {
    only_if(
        balance > 0,
        Effect::Pay { token: request.token, to: request.to, amount: balance },
    ) + published(Event::Drained { balance, to: request.to, admin: request.admin })
}

// list_matches

/// Where a page ends: after `limit` ids, but at most `MAX_LIMIT`, or where the ids end.
pub open spec fn page_end(count: u64, start: u64, limit: u32) -> int {
    let size: int = if limit < MAX_LIMIT {
        limit as int
    } else {
        MAX_LIMIT as int
    };
    if start + size < count {
        start + size
    } else {
        count as int
    }
}

/// The ids from `start` up to the end of the page.
pub open spec fn page(count: u64, start: u64, limit: u32) -> Seq<u64> {
    let end = page_end(count, start, limit);
    if start < end {
        Seq::new((end - start) as nat, |i: int| (start + i) as u64)
    } else {
        seq![]
    }
}

} // verus!
