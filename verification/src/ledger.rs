//! A model of the whole contract: everything that it has stored and every token that its calls
//! have moved, under any sequence of calls.

use crate::effects::{DepositRequest, DrainRequest, Effect};
use crate::rules::{
    admin_authorizes, allowance_refusal, caller_authorizes, cancel_match_authorizes,
    cancel_match_effects, cancel_match_refusal, claim_in_range, claim_timeout_effects,
    claim_timeout_refusal, create_match_effects, create_match_refusal, deposit_effects,
    deposit_refusal, drain_effects, emergency_drain_refusal, escrow_balance, finalize_in_range,
    finalize_result_effects, finalize_result_refusal, funded, initialize_effects, initialized,
    kept, match_count, new_match, override_in_range, override_result_effects,
    override_result_refusal, pause_effects, pause_refusal, submit_result_authorizes,
    submit_result_effects, submit_result_refusal, transfer_admin_effects,
    transfer_admin_refusal, unpause_effects, update_oracle_effects, update_oracle_refusal,
};
use crate::types::{
    is_game_id, Address, DataKey, GameId, Instance, Match, MatchState, Platform, Winner,
};
use vstd::prelude::*;

verus! {

/// Everything that the contract has stored, and the sums of what its calls have moved.
#[verifier::ext_equal]
pub struct Ledger {
    /// Instance storage.
    pub instance: Instance,
    /// The matches by their ids.
    pub matches: Map<u64, Match>,
    /// The ids of the matches by their game ids.
    pub games: Map<Seq<u8>, u64>,
    /// What was moved to the contract.
    pub collected: int,
    /// What was moved away from the contract.
    pub paid: int,
}

impl Ledger {
    /// The contract before its first call.
    pub open spec fn fresh() -> Ledger {
        Ledger {
            instance: Instance {
                oracle: None,
                admin: None,
                token: None,
                match_count: None,
                paused: None,
            },
            matches: Map::empty(),
            games: Map::empty(),
            collected: 0,
            paid: 0,
        }
    }

    /// What is stored under a match id.
    pub open spec fn entry(self, match_id: u64) -> Option<Match> {
        if self.matches.contains_key(match_id) {
            Some(self.matches[match_id])
        } else {
            None
        }
    }

    /// The ledger after one effect. Time to live, events and what the token was only asked do
    /// not show here.
    pub open spec fn perform(self, effect: Effect) -> Ledger {
        match effect {
            Effect::SetOracle { oracle } => Ledger {
                instance: Instance { oracle: Some(oracle), ..self.instance },
                ..self
            },
            Effect::SetAdmin { admin } => Ledger {
                instance: Instance { admin: Some(admin), ..self.instance },
                ..self
            },
            Effect::SetToken { token } => Ledger {
                instance: Instance { token: Some(token), ..self.instance },
                ..self
            },
            Effect::SetMatchCount { count } => Ledger {
                instance: Instance { match_count: Some(count), ..self.instance },
                ..self
            },
            Effect::SetPaused { paused } => Ledger {
                instance: Instance { paused: Some(paused), ..self.instance },
                ..self
            },
            Effect::PutMatch { match_id, record } => Ledger {
                matches: self.matches.insert(match_id, record),
                ..self
            },
            Effect::PutGameId { game_id, match_id } => Ledger {
                games: self.games.insert(game_id@, match_id),
                ..self
            },
            Effect::Collect { amount, .. } => Ledger {
                collected: self.collected + amount,
                ..self
            },
            Effect::Refund { amount, .. } => Ledger { paid: self.paid + amount, ..self },
            Effect::Pay { amount, .. } => Ledger { paid: self.paid + amount, ..self },
            Effect::ReadDecimals { .. } | Effect::ExtendTtl { .. } | Effect::Publish { .. } => self,
        }
    }

    /// The ledger after some effects, in order.
    pub open spec fn perform_all(self, effects: Seq<Effect>) -> Ledger
        decreases effects.len(),
    {
        if effects.len() == 0 {
            self
        } else {
            self.perform_all(effects.drop_last()).perform(effects.last())
        }
    }

    /// What a call asks of the host, where the contract accepts it. `None`: it is refused, or
    /// some number that it computes does not exist and it is aborted.
    pub open spec fn planned(self, call: Call) -> Option<Seq<Effect>> {
        let instance = self.instance;
        match call {
            Call::Initialize { oracle, admin, token } => if initialized(instance) {
                None
            } else {
                Some(initialize_effects(oracle, admin, token))
            },
            Call::UpdateOracle { new_oracle } => if update_oracle_refusal(instance) is Some {
                None
            } else {
                Some(update_oracle_effects(instance, new_oracle))
            },
            Call::TransferAdmin { caller, new_admin } => if transfer_admin_refusal(
                instance,
                caller,
                new_admin,
            ) is Some {
                None
            } else {
                Some(transfer_admin_effects(caller, new_admin))
            },
            Call::Pause { sequence } => if pause_refusal(instance) is Some {
                None
            } else {
                Some(pause_effects(instance, sequence))
            },
            Call::Unpause { sequence } => if pause_refusal(instance) is Some {
                None
            } else {
                Some(unpause_effects(instance, sequence))
            },
            Call::CreateMatch {
                sequence,
                player1,
                player2,
                stake_amount,
                token,
                game_id,
                platform,
            } => if create_match_refusal(
                instance,
                self.games.contains_key(game_id@),
                self.matches.contains_key(match_count(instance)),
                player1,
                player2,
                stake_amount,
                token,
                game_id@,
            ) is Some {
                None
            } else {
                Some(
                    create_match_effects(
                        new_match(
                            instance,
                            sequence,
                            player1,
                            player2,
                            stake_amount,
                            token,
                            game_id,
                            platform,
                        ),
                    ),
                )
            },
            Call::Deposit { match_id, player, allowance, sequence } => {
                let entry = self.entry(match_id);
                let request = DepositRequest { match_id, player, record: entry->0 };
                if deposit_refusal(instance, entry, match_id, player) is Some || allowance_refusal(
                    request,
                    allowance,
                ) is Some {
                    None
                } else {
                    Some(deposit_effects(request, sequence))
                }
            },
            Call::SubmitResult { match_id, game, winner, caller, sequence } => {
                let entry = self.entry(match_id);
                if submit_result_refusal(instance, entry, match_id, game, caller) is Some {
                    None
                } else {
                    Some(submit_result_effects(entry->0, match_id, winner, sequence))
                }
            },
            Call::OverrideResult { match_id, new_winner, caller, sequence } => {
                let entry = self.entry(match_id);
                if !override_in_range(instance, entry, match_id, caller)
                    || override_result_refusal(
                    instance,
                    entry,
                    match_id,
                    caller,
                    sequence,
                ) is Some {
                    None
                } else {
                    Some(override_result_effects(entry->0, match_id, new_winner))
                }
            },
            Call::FinalizeResult { match_id, sequence } => {
                let entry = self.entry(match_id);
                if !finalize_in_range(instance, entry, match_id, sequence)
                    || finalize_result_refusal(instance, entry, match_id, sequence) is Some {
                    None
                } else {
                    Some(finalize_result_effects(entry->0, match_id, sequence))
                }
            },
            Call::ClaimTimeout { match_id, caller, sequence } => {
                let entry = self.entry(match_id);
                if !claim_in_range(instance, entry, match_id, caller) || claim_timeout_refusal(
                    instance,
                    entry,
                    match_id,
                    caller,
                    sequence,
                ) is Some {
                    None
                } else {
                    Some(claim_timeout_effects(entry->0, match_id, caller))
                }
            },
            Call::CancelMatch { match_id, caller, sequence } => {
                let entry = self.entry(match_id);
                if cancel_match_refusal(instance, entry, match_id, caller) is Some {
                    None
                } else {
                    Some(cancel_match_effects(entry->0, match_id, caller, sequence))
                }
            },
            Call::EmergencyDrain { to, caller, balance } => if emergency_drain_refusal(
                instance,
                caller,
            ) is Some {
                None
            } else {
                Some(
                    drain_effects(
                        DrainRequest { token: instance.token->0, to, admin: caller },
                        balance,
                    ),
                )
            },
        }
    }

    /// Whose authorization a call demands.
    pub open spec fn demanded(self, call: Call) -> Seq<Address> {
        let instance = self.instance;
        match call {
            Call::Initialize { .. } | Call::FinalizeResult { .. } => seq![],
            Call::UpdateOracle { .. } | Call::Pause { .. } | Call::Unpause { .. } =>
                admin_authorizes(instance),
            Call::TransferAdmin { caller, .. } => caller_authorizes(instance.admin, caller),
            Call::CreateMatch { player1, .. } => seq![player1],
            Call::Deposit { player, .. } => seq![player],
            Call::SubmitResult { caller, .. } => submit_result_authorizes(instance, caller),
            Call::OverrideResult { caller, .. } => caller_authorizes(instance.admin, caller),
            Call::ClaimTimeout { caller, .. } => seq![caller],
            Call::CancelMatch { match_id, caller, .. } => cancel_match_authorizes(
                instance,
                self.entry(match_id),
                match_id,
                caller,
            ),
            Call::EmergencyDrain { caller, .. } => caller_authorizes(instance.admin, caller),
        }
    }

    /// The ledger after a call. One that is refused or aborted changes nothing.
    pub open spec fn step(self, call: Call) -> Ledger {
        match self.planned(call) {
            Some(effects) => self.perform_all(effects),
            None => self,
        }
    }

    /// The ledger after some calls, in order.
    pub open spec fn run(self, calls: Seq<Call>) -> Ledger
        decreases calls.len(),
    {
        if calls.len() == 0 {
            self
        } else {
            self.run(calls.drop_last()).step(calls.last())
        }
    }

    /// How many matches were ever created.
    pub open spec fn size(self) -> u64 {
        match_count(self.instance)
    }

    /// What holds of the ledger between calls.
    pub open spec fn well_formed(self) -> bool {
        &&& self.instance == Ledger::fresh().instance || ready(self.instance)
        &&& forall|id: u64| #[trigger] self.matches.contains_key(id) <==> id < self.size()
        &&& forall|id: u64| #[trigger]
            self.matches.contains_key(id) ==> sound(self.matches[id], id, self.instance.token)
        &&& forall|id: u64| #[trigger]
            self.matches.contains_key(id) ==> self.games.contains_key(
                self.matches[id].game_id@,
            ) && self.games[self.matches[id].game_id@] == id
        &&& forall|game_id: Seq<u8>| #[trigger]
            self.games.contains_key(game_id) ==> self.matches.contains_key(self.games[game_id])
                && self.matches[self.games[game_id]].game_id@ == game_id
    }

    /// Whether the contract's books balance: what was moved to it and not away from it again is
    /// what is held for the matches.
    pub open spec fn solvent(self) -> bool {
        self.collected - self.paid == total_escrow(self.matches, self.size() as nat)
    }
}

/// Whether every key of instance storage is set.
pub open spec fn ready(instance: Instance) -> bool {
    &&& instance.oracle is Some
    &&& instance.admin is Some
    &&& instance.token is Some
    &&& instance.match_count is Some
    &&& instance.paused is Some
}

/// What holds of the record of match `id` between calls.
pub open spec fn sound(m: Match, id: u64, token: Option<Address>) -> bool {
    &&& m.id == id
    &&& m.player1 != m.player2
    &&& m.stake_amount > 0
    &&& Some(m.token) == token
    &&& is_game_id(m.game_id@)
    &&& match m.state {
        MatchState::Pending => !funded(m) && m.pending_winner is None && m.cancelled_ledger is None
            && m.completed_ledger is None,
        MatchState::Active => funded(m) && m.pending_winner is None && m.cancelled_ledger is None
            && m.completed_ledger is None,
        MatchState::PendingResult => funded(m) && m.pending_winner is Some
            && m.cancelled_ledger is None && m.completed_ledger is None,
        MatchState::Completed => funded(m) && m.pending_winner is Some && m.cancelled_ledger is None
            && m.completed_ledger is Some,
        MatchState::Cancelled => m.pending_winner is None && m.completed_ledger is None && (
        m.cancelled_ledger is None <==> funded(m)),
    }
}

/// What is held for the matches `0 .. n` together.
pub open spec fn total_escrow(matches: Map<u64, Match>, n: nat) -> int
    decreases n,
{
    if n == 0 {
        0
    } else {
        total_escrow(matches, (n - 1) as nat) + escrow_balance(matches[(n - 1) as u64])
    }
}

/// A call of an entry point that can change something, with what the host knows besides the
/// ledger: the current ledger number, and what the token answers.
pub enum Call {
    Initialize { oracle: Address, admin: Address, token: Address },
    UpdateOracle { new_oracle: Address },
    TransferAdmin { caller: Address, new_admin: Address },
    Pause { sequence: u32 },
    Unpause { sequence: u32 },
    CreateMatch {
        sequence: u32,
        player1: Address,
        player2: Address,
        stake_amount: i128,
        token: Address,
        game_id: GameId,
        platform: Platform,
    },
    Deposit { match_id: u64, player: Address, allowance: i128, sequence: u32 },
    SubmitResult {
        match_id: u64,
        game: Seq<u8>,
        winner: Winner,
        caller: Address,
        sequence: u32,
    },
    OverrideResult { match_id: u64, new_winner: Winner, caller: Address, sequence: u32 },
    FinalizeResult { match_id: u64, sequence: u32 },
    ClaimTimeout { match_id: u64, caller: Address, sequence: u32 },
    CancelMatch { match_id: u64, caller: Address, sequence: u32 },
    EmergencyDrain { to: Address, caller: Address, balance: i128 },
}

/// The match that a call is about, if it is about one that exists.
pub open spec fn about(call: Call) -> Option<u64> {
    match call {
        Call::Deposit { match_id, .. } => Some(match_id),
        Call::SubmitResult { match_id, .. } => Some(match_id),
        Call::OverrideResult { match_id, .. } => Some(match_id),
        Call::FinalizeResult { match_id, .. } => Some(match_id),
        Call::ClaimTimeout { match_id, .. } => Some(match_id),
        Call::CancelMatch { match_id, .. } => Some(match_id),
        _ => None,
    }
}

/// The arrows of the state diagram: which call takes a match from which state to which.
pub open spec fn arrow(call: Call, from: MatchState, to: MatchState) -> bool {
    match call {
        Call::Deposit { .. } => from == MatchState::Pending && (to == MatchState::Pending || to
            == MatchState::Active),
        Call::SubmitResult { .. } => from == MatchState::Active && to == MatchState::PendingResult,
        Call::OverrideResult { .. } => from == MatchState::PendingResult && to
            == MatchState::PendingResult,
        Call::FinalizeResult { .. } => from == MatchState::PendingResult && to
            == MatchState::Completed,
        Call::ClaimTimeout { .. } => from == MatchState::Active && to == MatchState::Cancelled,
        Call::CancelMatch { .. } => from == MatchState::Pending && to == MatchState::Cancelled,
        _ => false,
    }
}

/// What one effect moves from the contract to `address`.
pub open spec fn pays(effect: Effect, address: Address) -> int {
    match effect {
        Effect::Refund { to, amount, .. } if to == address => amount as int,
        Effect::Pay { to, amount, .. } if to == address => amount as int,
        _ => 0,
    }
}

/// What some effects move from the contract to `address`.
pub open spec fn paid_to(effects: Seq<Effect>, address: Address) -> int
    decreases effects.len(),
{
    if effects.len() == 0 {
        0
    } else {
        paid_to(effects.drop_last(), address) + pays(effects.last(), address)
    }
}

/// Whether the life of every entry that some effects store is extended right after the write.
#[verifier::opaque]
pub open spec fn kept_alive(effects: Seq<Effect>) -> bool {
    forall|i: int|
        0 <= i < effects.len() ==> match #[trigger] effects[i] {
            Effect::PutMatch { match_id, .. } => i + 1 < effects.len() && effects[i + 1] == kept(
                DataKey::Match(match_id),
            ),
            Effect::PutGameId { game_id, .. } => i + 1 < effects.len() && effects[i + 1] == kept(
                DataKey::GameId(game_id),
            ),
            _ => true,
        }
}

/// Whether a call takes from the contract what belongs to the players.
pub open spec fn drains(call: Call) -> bool {
    call matches Call::EmergencyDrain { balance, .. } && balance > 0
}

} // verus!
