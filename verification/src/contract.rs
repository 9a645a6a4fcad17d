//! The entry points of the contract.
//!
//! The arguments that an entry point takes besides its caller's are what the host knows:
//! `instance` is what instance storage holds, `entry` is what persistent storage holds under
//! the match id, and `sequence` is the number of the current ledger.

use crate::effects::{decides, Creation, Decision, DepositRequest, DrainRequest, Effect, Event};
use crate::errors::Error;
use crate::host::{bytes_of, ids_of, no_ids, push_id, read_bytes};
use crate::rules::{
    admin_authorizes, allowance_refusal, balance_in_range, caller_authorizes,
    cancel_match_authorizes, cancel_match_effects, cancel_match_refusal, cancelled,
    claim_in_range, claim_timeout_effects, claim_timeout_refusal, completed,
    create_match_effects, create_match_refusal, deposit_effects, deposit_refusal, drain_effects,
    emergency_drain_refusal, escrow_balance, finalize_in_range, finalize_result_effects,
    finalize_result_refusal, funded, initialize_effects, initialized, kept, known, match_count,
    new_match, override_in_range, override_result_effects, override_result_refusal, page,
    pause_effects, pause_refusal, paused, published, stored, submit_result_authorizes,
    submit_result_effects, submit_result_refusal, transfer_admin_effects,
    transfer_admin_refusal, unpause_effects, update_oracle_effects, update_oracle_refusal,
    with_deposit, with_result,
};
use crate::types::{
    Address, DataKey, GameId, Instance, Match, MatchState, Platform, Side, Winner,
    DISPUTE_WINDOW_LEDGERS, MATCH_TTL_LEDGERS, MAX_LIMIT, TIMEOUT_LEDGERS,
};
use soroban_sdk::Env;
use vstd::prelude::*;

verus! {

/// The escrow contract.
pub struct EscrowContract;

/// The answer to a call that was refused before anyone was asked to authorize it.
fn refused<T>(error: Error) -> (decision: Decision<T>)
    ensures
        decision.authorize@ == Seq::<Address>::empty(),
        decision.result == Err::<T, Error>(error),
{
    Decision { authorize: Vec::new(), result: Err(error) }
}

/// The answer to a call that one address has to authorize.
fn authorized_by<T>(address: Address, result: Result<T, Error>) -> (decision: Decision<T>)
    ensures
        decision.authorize@ == seq![address],
        decision.result == result,
{
    let mut authorize: Vec<Address> = Vec::new();
    authorize.push(address);
    Decision { authorize, result }
}

/// Plans to store a match and to keep it alive.
fn plan_store(effects: &mut Vec<Effect>, match_id: u64, record: Match)
    ensures
        final(effects)@ == old(effects)@ + stored(match_id, record),
{
    effects.push(Effect::PutMatch { match_id, record });
    plan_keep(effects, DataKey::Match(match_id));
}

/// Plans to keep an entry alive.
fn plan_keep(effects: &mut Vec<Effect>, key: DataKey)
    ensures
        final(effects)@ == old(effects)@.push(kept(key)),
{
    effects.push(
        Effect::ExtendTtl { key, threshold: MATCH_TTL_LEDGERS, extend_to: MATCH_TTL_LEDGERS },
    );
}

/// Plans to publish an event.
fn plan_publish(effects: &mut Vec<Effect>, event: Event)
    ensures
        final(effects)@ == old(effects)@ + published(event),
{
    effects.push(Effect::Publish { event });
}

impl EscrowContract {
    /// Whether the contract is paused.
    pub fn is_paused(instance: &Instance) -> (yes: bool)
        ensures
            yes == paused(*instance),
    {
        match instance.paused {
            Some(paused) => paused,
            None => false,
        }
    }

    /// How many matches were ever created. The next match gets this id.
    pub fn get_match_count(instance: &Instance) -> (count: u64)
        ensures
            count == match_count(*instance),
    {
        match instance.match_count {
            Some(count) => count,
            None => 0,
        }
    }

    /// Refuses an id that no match was ever created under.
    pub fn validate_match_id(instance: &Instance, match_id: u64) -> (result: Result<(), Error>)
        ensures
            result == if match_id < match_count(*instance) {
                Ok::<(), Error>(())
            } else {
                Err::<(), Error>(Error::MatchNotFound)
            },
    {
        if match_id >= Self::get_match_count(instance) {
            return Err(Error::MatchNotFound);
        }
        Ok(())
    }

    /// The match that a call names.
    fn find(instance: &Instance, entry: Option<Match>, match_id: u64) -> (found: Result<
        Match,
        Error,
    >)
        ensures
            found == if known(*instance, match_id, entry) {
                Ok::<Match, Error>(entry->0)
            } else {
                Err::<Match, Error>(Error::MatchNotFound)
            },
    {
        match Self::validate_match_id(instance, match_id) {
            Ok(()) => match entry {
                Some(m) => Ok(m),
                None => Err(Error::MatchNotFound),
            },
            Err(error) => Err(error),
        }
    }

    /// Sets up the contract with its oracle, its admin and its token, once.
    pub fn initialize(
        instance: &Instance,
        oracle: Address,
        admin: Address,
        token: Address,
    ) -> (decision: Decision<Vec<Effect>>)
        requires
            !initialized(*instance),
        ensures
            decides(decision, seq![], None, initialize_effects(oracle, admin, token)),
    {
        let mut effects: Vec<Effect> = Vec::new();
        effects.push(Effect::ReadDecimals { token });
        effects.push(Effect::SetOracle { oracle });
        effects.push(Effect::SetAdmin { admin });
        effects.push(Effect::SetToken { token });
        effects.push(Effect::SetMatchCount { count: 0 });
        effects.push(Effect::SetPaused { paused: false });
        assert(effects@ =~= initialize_effects(oracle, admin, token));
        Decision { authorize: Vec::new(), result: Ok(effects) }
    }

    /// Whether the contract has been initialized.
    pub fn is_initialized(instance: &Instance) -> (yes: bool)
        ensures
            yes == initialized(*instance),
    {
        instance.oracle.is_some()
    }

    /// Replaces the oracle. The current admin has to authorize this.
    pub fn update_oracle(instance: &Instance, new_oracle: Address) -> (decision: Decision<
        Vec<Effect>,
    >)
        ensures
            decides(
                decision,
                admin_authorizes(*instance),
                update_oracle_refusal(*instance),
                update_oracle_effects(*instance, new_oracle),
            ),
    {
        let admin = match instance.admin {
            Some(admin) => admin,
            None => return refused(Error::Unauthorized),
        };
        let old_oracle = match instance.oracle {
            Some(oracle) => oracle,
            None => return authorized_by(admin, Err(Error::Unauthorized)),
        };
        let mut effects: Vec<Effect> = Vec::new();
        effects.push(Effect::SetOracle { oracle: new_oracle });
        plan_publish(&mut effects, Event::OracleUpdated { old_oracle, new_oracle, admin });
        assert(effects@ =~= update_oracle_effects(*instance, new_oracle));
        authorized_by(admin, Ok(effects))
    }

    /// Hands the contract over to a new admin. `caller` has to be the current admin.
    pub fn transfer_admin(
        instance: &Instance,
        caller: Address,
        new_admin: Address,
    ) -> (decision: Decision<Vec<Effect>>)
        ensures
            decides(
                decision,
                caller_authorizes(instance.admin, caller),
                transfer_admin_refusal(*instance, caller, new_admin),
                transfer_admin_effects(caller, new_admin),
            ),
    {
        let current_admin = match instance.admin {
            Some(admin) => admin,
            None => return refused(Error::Unauthorized),
        };
        if caller != current_admin {
            return refused(Error::Unauthorized);
        }
        if new_admin.is_zero_account() || new_admin == current_admin {
            return authorized_by(caller, Err(Error::InvalidAdmin));
        }
        let mut effects: Vec<Effect> = Vec::new();
        effects.push(Effect::SetAdmin { admin: new_admin });
        plan_publish(
            &mut effects,
            Event::AdminTransferred { old_admin: current_admin, new_admin },
        );
        assert(effects@ =~= transfer_admin_effects(caller, new_admin));
        authorized_by(caller, Ok(effects))
    }

    /// Pauses the contract: no match is created, no stake deposited and no result submitted.
    /// The current admin has to authorize this.
    pub fn pause(instance: &Instance, sequence: u32) -> (decision: Decision<Vec<Effect>>)
        ensures
            decides(
                decision,
                admin_authorizes(*instance),
                pause_refusal(*instance),
                pause_effects(*instance, sequence),
            ),
    {
        let admin = match instance.admin {
            Some(admin) => admin,
            None => return refused(Error::Unauthorized),
        };
        let mut effects: Vec<Effect> = Vec::new();
        effects.push(Effect::SetPaused { paused: true });
        plan_publish(&mut effects, Event::Paused { admin, sequence });
        assert(effects@ =~= pause_effects(*instance, sequence));
        authorized_by(admin, Ok(effects))
    }

    /// Ends the pause. The current admin has to authorize this.
    pub fn unpause(instance: &Instance, sequence: u32) -> (decision: Decision<Vec<Effect>>)
        ensures
            decides(
                decision,
                admin_authorizes(*instance),
                pause_refusal(*instance),
                unpause_effects(*instance, sequence),
            ),
    {
        let admin = match instance.admin {
            Some(admin) => admin,
            None => return refused(Error::Unauthorized),
        };
        let mut effects: Vec<Effect> = Vec::new();
        effects.push(Effect::SetPaused { paused: false });
        plan_publish(&mut effects, Event::Unpaused { admin, sequence });
        assert(effects@ =~= unpause_effects(*instance, sequence));
        authorized_by(admin, Ok(effects))
    }

    /// Creates a match between two players, who both have to deposit before it starts.
    /// `taken` says whether a match is stored under the game id, `occupied` whether one is
    /// stored under the next match id.
    pub fn create_match(
        instance: &Instance,
        sequence: u32,
        taken: bool,
        occupied: bool,
        player1: Address,
        player2: Address,
        stake_amount: i128,
        token: Address,
        game_id: &soroban_sdk::String,
        platform: Platform,
    ) -> (decision: Decision<Creation>)
        ensures
            decision.authorize@ == seq![player1],
            match create_match_refusal(
                *instance,
                taken,
                occupied,
                player1,
                player2,
                stake_amount,
                token,
                bytes_of(*game_id),
            ) {
                Some(error) => decision.result == Err::<Creation, Error>(error),
                None => {
                    &&& decision.result matches Ok(creation)
                    &&& creation.record.game_id@ == bytes_of(*game_id)
                    &&& creation.record == new_match(
                        *instance,
                        sequence,
                        player1,
                        player2,
                        stake_amount,
                        token,
                        creation.record.game_id,
                        platform,
                    )
                    &&& creation.effects@ == create_match_effects(creation.record)
                },
            },
    {
        if Self::is_paused(instance) {
            return authorized_by(player1, Err(Error::ContractPaused));
        }
        if stake_amount <= 0 {
            return authorized_by(player1, Err(Error::InvalidAmount));
        }
        if player1 == player2 {
            return authorized_by(player1, Err(Error::InvalidPlayers));
        }
        let game_id = match GameId::from_text(game_id) {
            Some(game_id) => game_id,
            None => return authorized_by(player1, Err(Error::InvalidGameId)),
        };
        if taken {
            return authorized_by(player1, Err(Error::DuplicateGameId));
        }
        let stored_token = match instance.token {
            Some(stored_token) => stored_token,
            None => return authorized_by(player1, Err(Error::Unauthorized)),
        };
        if token != stored_token {
            return authorized_by(player1, Err(Error::InvalidToken));
        }
        let id: u64 = Self::get_match_count(instance);
        if occupied {
            return authorized_by(player1, Err(Error::AlreadyExists));
        }
        let next_id: u64 = match id.checked_add(1) {
            Some(next_id) => next_id,
            None => return authorized_by(player1, Err(Error::Overflow)),
        };
        let record = Match {
            id,
            player1,
            player2,
            stake_amount,
            token,
            game_id,
            platform,
            state: MatchState::Pending,
            player1_deposited: false,
            player2_deposited: false,
            created_ledger: sequence,
            activated_ledger: 0,
            pending_result_ledger: 0,
            pending_winner: None,
            cancelled_ledger: None,
            completed_ledger: None,
        };
        let mut effects: Vec<Effect> = Vec::new();
        plan_store(&mut effects, id, record);
        effects.push(Effect::PutGameId { game_id, match_id: id });
        plan_keep(&mut effects, DataKey::GameId(game_id));
        effects.push(Effect::SetMatchCount { count: next_id });
        plan_publish(
            &mut effects,
            Event::MatchCreated { match_id: id, player1, player2, stake_amount, game_id },
        );
        assert(effects@ =~= create_match_effects(record));
        authorized_by(player1, Ok(Creation { record, effects }))
    }

    /// Asks for the stake of `player`. If the answer is a request, the host looks up the
    /// player's allowance and the deposit goes on in [`EscrowContract::settle_deposit`].
    pub fn deposit(
        instance: &Instance,
        entry: Option<Match>,
        match_id: u64,
        player: Address,
    ) -> (decision: Decision<DepositRequest>)
        ensures
            decision.authorize@ == seq![player],
            decision.result == match deposit_refusal(*instance, entry, match_id, player) {
                Some(error) => Err::<DepositRequest, Error>(error),
                None => Ok::<DepositRequest, Error>(
                    DepositRequest { match_id, player, record: entry->0 },
                ),
            },
    {
        if Self::is_paused(instance) {
            return authorized_by(player, Err(Error::ContractPaused));
        }
        let m = match Self::find(instance, entry, match_id) {
            Ok(m) => m,
            Err(error) => return authorized_by(player, Err(error)),
        };
        if m.state != MatchState::Pending {
            return authorized_by(player, Err(Error::InvalidState));
        }
        let is_p1 = player == m.player1;
        let is_p2 = player == m.player2;
        if !is_p1 && !is_p2 {
            return authorized_by(player, Err(Error::Unauthorized));
        }
        let already_deposited = if is_p1 {
            m.player1_deposited
        } else {
            m.player2_deposited
        };
        if already_deposited {
            return authorized_by(player, Err(Error::AlreadyFunded));
        }
        authorized_by(player, Ok(DepositRequest { match_id, player, record: m }))
    }

    /// Carries on with a deposit. `allowance` is how much of the match's token the player has
    /// approved for the contract.
    pub fn settle_deposit(request: DepositRequest, allowance: i128, sequence: u32) -> (result:
        Result<Vec<Effect>, Error>)
        ensures
            match allowance_refusal(request, allowance) {
                Some(error) => result == Err::<Vec<Effect>, Error>(error),
                None => result matches Ok(planned) && planned@ == deposit_effects(
                    request,
                    sequence,
                ),
            },
    {
        let mut m = request.record;
        let match_id = request.match_id;
        let player = request.player;
        if allowance < m.stake_amount {
            return Err(Error::InsufficientAllowance);
        }
        let mut effects: Vec<Effect> = Vec::new();
        effects.push(Effect::Collect { token: m.token, from: player, amount: m.stake_amount });
        let is_p1 = player == m.player1;
        if is_p1 {
            m.player1_deposited = true;
        } else {
            m.player2_deposited = true;
        }
        if m.player1_deposited && m.player2_deposited {
            m.state = MatchState::Active;
            m.activated_ledger = sequence;
            plan_publish(&mut effects, Event::MatchActivated { match_id });
        }
        let side = if is_p1 {
            Side::Player1
        } else {
            Side::Player2
        };
        plan_publish(
            &mut effects,
            Event::Deposited { match_id, player, amount: m.stake_amount, side },
        );
        plan_store(&mut effects, match_id, m);
        assert(m == with_deposit(request.record, player, sequence));
        assert(effects@ =~= deposit_effects(request, sequence));
        Ok(effects)
    }

    /// Records the result that the oracle reports and opens its dispute window. `game_id` has
    /// to be that of the match, so that a result cannot end up on another match.
    pub fn submit_result(
        instance: &Instance,
        entry: Option<Match>,
        match_id: u64,
        game_id: &soroban_sdk::String,
        winner: Winner,
        caller: Address,
        sequence: u32,
    ) -> (decision: Decision<Vec<Effect>>)
        ensures
            decides(
                decision,
                submit_result_authorizes(*instance, caller),
                submit_result_refusal(*instance, entry, match_id, bytes_of(*game_id), caller),
                submit_result_effects(entry->0, match_id, winner, sequence),
            ),
    {
        if Self::is_paused(instance) {
            return refused(Error::ContractPaused);
        }
        let oracle = match instance.oracle {
            Some(oracle) => oracle,
            None => return refused(Error::Unauthorized),
        };
        if caller != oracle {
            return refused(Error::Unauthorized);
        }
        let mut m = match Self::find(instance, entry, match_id) {
            Ok(m) => m,
            Err(error) => return authorized_by(caller, Err(error)),
        };
        if !m.game_id.is(&read_bytes(game_id)) {
            return authorized_by(caller, Err(Error::GameIdMismatch));
        }
        if m.state != MatchState::Active {
            return authorized_by(caller, Err(Error::InvalidState));
        }
        if !m.player1_deposited || !m.player2_deposited {
            return authorized_by(caller, Err(Error::NotFunded));
        }
        m.state = MatchState::PendingResult;
        m.pending_result_ledger = sequence;
        m.pending_winner = Some(winner);
        let mut effects: Vec<Effect> = Vec::new();
        plan_store(&mut effects, match_id, m);
        plan_publish(&mut effects, Event::ResultPending { match_id, winner, sequence });
        assert(m == with_result(entry->0, winner, sequence));
        assert(effects@ =~= submit_result_effects(entry->0, match_id, winner, sequence));
        authorized_by(caller, Ok(effects))
    }

    /// Whether [`EscrowContract::override_result`] is defined on these arguments: whether the
    /// end of the dispute window is a ledger number, where the call depends on it.
    pub fn can_override_result(
        instance: &Instance,
        entry: Option<Match>,
        match_id: u64,
        caller: Address,
    ) -> (yes: bool)
        ensures
            yes == override_in_range(*instance, entry, match_id, caller),
    {
        match (instance.admin, Self::find(instance, entry, match_id)) {
            (Some(admin), Ok(m)) => caller != admin || m.state != MatchState::PendingResult
                || m.pending_result_ledger <= u32::MAX - DISPUTE_WINDOW_LEDGERS,
            _ => true,
        }
    }

    /// Replaces the reported result while its dispute window is open. `caller` has to be the
    /// admin.
    pub fn override_result(
        instance: &Instance,
        entry: Option<Match>,
        match_id: u64,
        new_winner: Winner,
        caller: Address,
        sequence: u32,
    ) -> (decision: Decision<Vec<Effect>>)
        requires
            override_in_range(*instance, entry, match_id, caller),
        ensures
            decides(
                decision,
                caller_authorizes(instance.admin, caller),
                override_result_refusal(*instance, entry, match_id, caller, sequence),
                override_result_effects(entry->0, match_id, new_winner),
            ),
    {
        let admin = match instance.admin {
            Some(admin) => admin,
            None => return refused(Error::Unauthorized),
        };
        if caller != admin {
            return refused(Error::Unauthorized);
        }
        let mut m = match Self::find(instance, entry, match_id) {
            Ok(m) => m,
            Err(error) => return authorized_by(caller, Err(error)),
        };
        if m.state != MatchState::PendingResult {
            return authorized_by(caller, Err(Error::InvalidState));
        }
        if sequence >= m.pending_result_ledger + DISPUTE_WINDOW_LEDGERS {
            return authorized_by(caller, Err(Error::DisputeWindowActive));
        }
        let old_winner = m.pending_winner;
        m.pending_winner = Some(new_winner);
        let mut effects: Vec<Effect> = Vec::new();
        plan_store(&mut effects, match_id, m);
        plan_publish(
            &mut effects,
            Event::ResultOverridden { match_id, old_winner, new_winner },
        );
        assert(effects@ =~= override_result_effects(entry->0, match_id, new_winner));
        authorized_by(caller, Ok(effects))
    }

    /// Whether [`EscrowContract::finalize_result`] is defined on these arguments: whether the
    /// end of the dispute window is a ledger number and the payout an amount, where the call
    /// depends on them.
    pub fn can_finalize_result(
        instance: &Instance,
        entry: Option<Match>,
        match_id: u64,
        sequence: u32,
    ) -> (yes: bool)
        ensures
            yes == finalize_in_range(*instance, entry, match_id, sequence),
    {
        let m = match Self::find(instance, entry, match_id) {
            Ok(m) => m,
            Err(_) => return true,
        };
        if m.state != MatchState::PendingResult {
            return true;
        }
        if m.pending_result_ledger > u32::MAX - DISPUTE_WINDOW_LEDGERS {
            return false;
        }
        if sequence < m.pending_result_ledger + DISPUTE_WINDOW_LEDGERS {
            return true;
        }
        match m.pending_winner {
            None => true,
            Some(Winner::Draw) => true,
            Some(_) => m.stake_amount.checked_mul(2).is_some(),
        }
    }

    /// Pays out the reported result once its dispute window has closed. Anyone may call this.
    pub fn finalize_result(
        instance: &Instance,
        entry: Option<Match>,
        match_id: u64,
        sequence: u32,
    ) -> (decision: Decision<Vec<Effect>>)
        requires
            finalize_in_range(*instance, entry, match_id, sequence),
        ensures
            decides(
                decision,
                seq![],
                finalize_result_refusal(*instance, entry, match_id, sequence),
                finalize_result_effects(entry->0, match_id, sequence),
            ),
    {
        let mut m = match Self::find(instance, entry, match_id) {
            Ok(m) => m,
            Err(error) => return refused(error),
        };
        if m.state != MatchState::PendingResult {
            return refused(Error::InvalidState);
        }
        if sequence < m.pending_result_ledger + DISPUTE_WINDOW_LEDGERS {
            return refused(Error::DisputeWindowActive);
        }
        let winner = match m.pending_winner {
            Some(winner) => winner,
            None => return refused(Error::InvalidState),
        };
        let amount: i128 = match winner {
            Winner::Draw => m.stake_amount,
            _ => m.stake_amount * 2,
        };
        let mut effects: Vec<Effect> = Vec::new();
        match winner {
            Winner::Player1 => {
                effects.push(Effect::Pay { token: m.token, to: m.player1, amount });
            },
            Winner::Player2 => {
                effects.push(Effect::Pay { token: m.token, to: m.player2, amount });
            },
            Winner::Draw => {
                effects.push(Effect::Pay { token: m.token, to: m.player1, amount });
                effects.push(Effect::Pay { token: m.token, to: m.player2, amount });
            },
        }
        m.state = MatchState::Completed;
        m.completed_ledger = Some(sequence);
        plan_store(&mut effects, match_id, m);
        plan_publish(&mut effects, Event::MatchCompleted { match_id, winner, payout: amount });
        assert(m == completed(entry->0, sequence));
        assert(effects@ =~= finalize_result_effects(entry->0, match_id, sequence));
        Decision { authorize: Vec::new(), result: Ok(effects) }
    }

    /// Whether [`EscrowContract::claim_timeout`] is defined on these arguments: whether the end
    /// of the timeout is a ledger number, where the call depends on it.
    pub fn can_claim_timeout(
        instance: &Instance,
        entry: Option<Match>,
        match_id: u64,
        caller: Address,
    ) -> (yes: bool)
        ensures
            yes == claim_in_range(*instance, entry, match_id, caller),
    {
        match Self::find(instance, entry, match_id) {
            Ok(m) => m.state != MatchState::Active || (caller != m.player1 && caller != m.player2)
                || m.activated_ledger <= u32::MAX - TIMEOUT_LEDGERS,
            Err(_) => true,
        }
    }

    /// Calls off a match for which the oracle has not reported in time. Both players get
    /// their stakes back. `caller` has to be one of them.
    pub fn claim_timeout(
        instance: &Instance,
        entry: Option<Match>,
        match_id: u64,
        caller: Address,
        sequence: u32,
    ) -> (decision: Decision<Vec<Effect>>)
        requires
            claim_in_range(*instance, entry, match_id, caller),
        ensures
            decides(
                decision,
                seq![caller],
                claim_timeout_refusal(*instance, entry, match_id, caller, sequence),
                claim_timeout_effects(entry->0, match_id, caller),
            ),
    {
        let mut m = match Self::find(instance, entry, match_id) {
            Ok(m) => m,
            Err(error) => return authorized_by(caller, Err(error)),
        };
        if m.state != MatchState::Active {
            return authorized_by(caller, Err(Error::InvalidState));
        }
        let is_player = caller == m.player1 || caller == m.player2;
        if !is_player {
            return authorized_by(caller, Err(Error::Unauthorized));
        }
        if sequence <= m.activated_ledger + TIMEOUT_LEDGERS {
            return authorized_by(caller, Err(Error::MatchTimedOut));
        }
        let mut effects: Vec<Effect> = Vec::new();
        effects.push(Effect::Pay { token: m.token, to: m.player1, amount: m.stake_amount });
        effects.push(Effect::Pay { token: m.token, to: m.player2, amount: m.stake_amount });
        m.state = MatchState::Cancelled;
        plan_store(&mut effects, match_id, m);
        plan_publish(&mut effects, Event::MatchTimedOut { match_id, caller });
        assert(effects@ =~= claim_timeout_effects(entry->0, match_id, caller));
        authorized_by(caller, Ok(effects))
    }

    /// Calls off a match that has not started and returns what was deposited. The caller has
    /// to be a player and to authorize this; if both players have deposited, both have to.
    /// This works while the contract is paused, so that players can recover their funds.
    pub fn cancel_match(
        instance: &Instance,
        entry: Option<Match>,
        match_id: u64,
        caller: Address,
        sequence: u32,
    ) -> (decision: Decision<Vec<Effect>>)
        ensures
            decides(
                decision,
                cancel_match_authorizes(*instance, entry, match_id, caller),
                cancel_match_refusal(*instance, entry, match_id, caller),
                cancel_match_effects(entry->0, match_id, caller, sequence),
            ),
    {
        let mut m = match Self::find(instance, entry, match_id) {
            Ok(m) => m,
            Err(error) => return refused(error),
        };
        if m.state != MatchState::Pending {
            return refused(Error::InvalidState);
        }
        let is_p1 = caller == m.player1;
        let is_p2 = caller == m.player2;
        if !is_p1 && !is_p2 {
            return refused(Error::Unauthorized);
        }
        let mut authorize: Vec<Address> = Vec::new();
        if m.player1_deposited && m.player2_deposited {
            authorize.push(m.player1);
            authorize.push(m.player2);
        } else {
            authorize.push(caller);
        }
        let player1_refund: i128 = if m.player1_deposited {
            m.stake_amount
        } else {
            0
        };
        let player2_refund: i128 = if m.player2_deposited {
            m.stake_amount
        } else {
            0
        };
        let mut effects: Vec<Effect> = Vec::new();
        if m.player1_deposited {
            effects.push(Effect::Refund { token: m.token, to: m.player1, amount: m.stake_amount });
        }
        if m.player2_deposited {
            effects.push(Effect::Refund { token: m.token, to: m.player2, amount: m.stake_amount });
        }
        m.state = MatchState::Cancelled;
        m.cancelled_ledger = Some(sequence);
        plan_store(&mut effects, match_id, m);
        plan_publish(
            &mut effects,
            Event::MatchCancelled { match_id, caller, player1_refund, player2_refund },
        );
        assert(m == cancelled(entry->0, sequence));
        assert(authorize@ =~= cancel_match_authorizes(*instance, entry, match_id, caller));
        assert(effects@ =~= cancel_match_effects(entry->0, match_id, caller, sequence));
        Decision { authorize, result: Ok(effects) }
    }

    /// Asks to move everything that the contract holds to a safe address. The contract has to
    /// be paused and `caller` to be the admin. If the answer is a request, the host looks up
    /// the contract's balance and the drain goes on in [`EscrowContract::settle_drain`].
    pub fn emergency_drain(instance: &Instance, to: Address, caller: Address) -> (decision:
        Decision<DrainRequest>)
        ensures
            decision.authorize@ == caller_authorizes(instance.admin, caller),
            decision.result == match emergency_drain_refusal(*instance, caller) {
                Some(error) => Err::<DrainRequest, Error>(error),
                None => Ok::<DrainRequest, Error>(
                    DrainRequest { token: instance.token->0, to, admin: caller },
                ),
            },
    {
        let admin = match instance.admin {
            Some(admin) => admin,
            None => return refused(Error::Unauthorized),
        };
        if caller != admin {
            return refused(Error::Unauthorized);
        }
        if !Self::is_paused(instance) {
            return authorized_by(caller, Err(Error::NotPaused));
        }
        let token = match instance.token {
            Some(token) => token,
            None => return authorized_by(caller, Err(Error::Unauthorized)),
        };
        authorized_by(caller, Ok(DrainRequest { token, to, admin }))
    }

    /// Carries on with a drain. `balance` is the contract's balance of the token.
    pub fn settle_drain(request: DrainRequest, balance: i128) -> (effects: Vec<Effect>)
        ensures
            effects@ == drain_effects(request, balance),
    {
        let mut effects: Vec<Effect> = Vec::new();
        if balance > 0 {
            effects.push(Effect::Pay { token: request.token, to: request.to, amount: balance });
        }
        plan_publish(
            &mut effects,
            Event::Drained { balance, to: request.to, admin: request.admin },
        );
        assert(effects@ =~= drain_effects(request, balance));
        effects
    }

    /// The record of a match.
    pub fn get_match(instance: &Instance, entry: Option<Match>, match_id: u64) -> (result: Result<
        Match,
        Error,
    >)
        ensures
            result == if known(*instance, match_id, entry) {
                Ok::<Match, Error>(entry->0)
            } else {
                Err::<Match, Error>(Error::MatchNotFound)
            },
    {
        Self::find(instance, entry, match_id)
    }

    /// Whether both players have deposited.
    pub fn is_funded(entry: Option<Match>) -> (result: Result<bool, Error>)
        ensures
            result == match entry {
                Some(m) => Ok::<bool, Error>(funded(m)),
                None => Err::<bool, Error>(Error::MatchNotFound),
            },
    {
        match entry {
            Some(m) => Ok(m.player1_deposited && m.player2_deposited),
            None => Err(Error::MatchNotFound),
        }
    }

    /// Whether [`EscrowContract::get_escrow_balance`] is defined on this entry: whether the
    /// balance is an amount.
    pub fn can_get_escrow_balance(entry: Option<Match>) -> (yes: bool)
        ensures
            yes == balance_in_range(entry),
    {
        match entry {
            Some(m) => {
                m.state == MatchState::Completed || m.state == MatchState::Cancelled
                    || !m.player1_deposited || !m.player2_deposited 
                    || m.stake_amount.checked_mul(2).is_some()
            },
            None => true,
        }
    }

    /// What is held for a match: no, one or two stakes.
    pub fn get_escrow_balance(entry: Option<Match>) -> (result: Result<i128, Error>)
        requires
            balance_in_range(entry),
        ensures
            match entry {
                Some(m) => result matches Ok(balance) && balance == escrow_balance(m),
                None => result == Err::<i128, Error>(Error::MatchNotFound),
            },
    {
        let m = match entry {
            Some(m) => m,
            None => return Err(Error::MatchNotFound),
        };
        if m.state == MatchState::Completed || m.state == MatchState::Cancelled {
            return Ok(0);
        }
        let deposited: i128 = match (m.player1_deposited, m.player2_deposited) {
            (true, true) => 2,
            (true, false) | (false, true) => 1,
            (false, false) => 0,
        };
        Ok(deposited * m.stake_amount)
    }

    /// A page of match ids: those from `start` on, at most `limit` and at most 100 of them.
    pub fn list_matches(env: &Env, instance: &Instance, start: u64, limit: u32) -> (ids:
        soroban_sdk::Vec<u64>)
        ensures
            ids_of(ids) == page(match_count(*instance), start, limit),
    {
        let limit: u32 = if limit < MAX_LIMIT {
            limit
        } else {
            MAX_LIMIT
        };
        let count: u64 = Self::get_match_count(instance);
        let mut ids = no_ids(env);
        let last: u64 = start.saturating_add(limit as u64);
        let end: u64 = if last < count {
            last
        } else {
            count
        };
        let mut i: u64 = start;
        while i < end
            invariant
                start <= i,
                i <= end || i == start,
                end <= start + 100 || start >= end,
                ids_of(ids).len() == i - start,
                forall|j: int|
                    0 <= j < ids_of(ids).len() ==> #[trigger] ids_of(ids)[j] == start + j,
            decreases end - i,
        {
            push_id(&mut ids, i);
            i += 1;
        }
        assert(ids_of(ids) =~= page(count, start, limit));
        ids
    }
}

} // verus!
