//! What a call asks of the host: authorizations, storage writes, token transfers, events.

use crate::errors::Error;
use crate::types::{Address, DataKey, GameId, Match, Side, Winner};
use vstd::prelude::*;

verus! {

/// One thing that the host has to do. The effects of a call are performed in order; if one
/// fails, the call fails as [`Effect::on_failure`] says and the host undoes the others.
#[derive(Clone, Copy, Debug, PartialEq, Eq)]
pub enum Effect {
    /// Ask the token for its decimals and drop the answer: an address that is no token fails.
    ReadDecimals { token: Address },
    /// Store the oracle.
    SetOracle { oracle: Address },
    /// Store the admin.
    SetAdmin { admin: Address },
    /// Store the contract's token.
    SetToken { token: Address },
    /// Store the number of matches ever created.
    SetMatchCount { count: u64 },
    /// Store whether the contract is paused.
    SetPaused { paused: bool },
    /// Store a match under its id.
    PutMatch { match_id: u64, record: Match },
    /// Store which match is played under a game id.
    PutGameId { game_id: GameId, match_id: u64 },
    /// If the entry lives for fewer than `threshold` ledgers, let it live for `extend_to`.
    ExtendTtl { key: DataKey, threshold: u32, extend_to: u32 },
    /// Move a stake from a player to the contract.
    Collect { token: Address, from: Address, amount: i128 },
    /// Move a stake from the contract back to a player who has deposited it.
    Refund { token: Address, to: Address, amount: i128 },
    /// Move an amount from the contract to an address.
    Pay { token: Address, to: Address, amount: i128 },
    /// Publish an event.
    Publish { event: Event },
}

/// The error that a call returns when an effect of it fails. A transfer of a stake may be refused
/// by the token; for everything else there is no error, and the host aborts the call.
pub open spec fn failure(effect: Effect) -> Option<Error> {
    match effect {
        Effect::Collect { .. } | Effect::Refund { .. } => Some(Error::TransferFailed),
        _ => None,
    }
}

impl Effect {
    /// The error that the call returns if the host could not perform this effect, if any.
    pub fn on_failure(&self) -> (error: Option<Error>)
        ensures
            error == failure(*self),
    {
        match self {
            Effect::Collect { .. } => Some(Error::TransferFailed),
            Effect::Refund { .. } => Some(Error::TransferFailed),
            _ => None,
        }
    }
}

/// What the contract tells the world.
#[derive(Clone, Copy, Debug, PartialEq, Eq)]
pub enum Event {
    OracleUpdated { old_oracle: Address, new_oracle: Address, admin: Address },
    AdminTransferred { old_admin: Address, new_admin: Address },
    Paused { admin: Address, sequence: u32 },
    Unpaused { admin: Address, sequence: u32 },
    MatchCreated {
        match_id: u64,
        player1: Address,
        player2: Address,
        stake_amount: i128,
        game_id: GameId,
    },
    MatchActivated { match_id: u64 },
    Deposited { match_id: u64, player: Address, amount: i128, side: Side },
    ResultPending { match_id: u64, winner: Winner, sequence: u32 },
    ResultOverridden { match_id: u64, old_winner: Option<Winner>, new_winner: Winner },
    MatchCompleted { match_id: u64, winner: Winner, payout: i128 },
    MatchTimedOut { match_id: u64, caller: Address },
    MatchCancelled { match_id: u64, caller: Address, player1_refund: i128, player2_refund: i128 },
    Drained { balance: i128, to: Address, admin: Address },
}

/// The two topics that an event is published under.
pub open spec fn topics_of(event: Event) -> (Seq<char>, Seq<char>) {
    match event {
        Event::OracleUpdated { .. } => ("admin"@, "oracle_updated"@),
        Event::AdminTransferred { .. } => ("admin"@, "transfer"@),
        Event::Paused { .. } => ("admin"@, "paused"@),
        Event::Unpaused { .. } => ("admin"@, "unpaused"@),
        Event::MatchCreated { .. } => ("match"@, "created"@),
        Event::MatchActivated { .. } => ("match"@, "activated"@),
        Event::Deposited { .. } => ("match"@, "deposit"@),
        Event::ResultPending { .. } => ("oracle"@, "pending"@),
        Event::ResultOverridden { .. } => ("oracle"@, "overridn"@),
        Event::MatchCompleted { .. } => ("match"@, "completed"@),
        Event::MatchTimedOut { .. } => ("match"@, "timeout"@),
        Event::MatchCancelled { .. } => ("match"@, "cancelled"@),
        Event::Drained { .. } => ("admin"@, "drain"@),
    }
}

impl Event {
    /// The two topics that the event is published under.
    pub fn topics(&self) -> (topics: (&'static str, &'static str))
        ensures
            (topics.0@, topics.1@) == topics_of(*self),
    {
        match self {
            Event::OracleUpdated { .. } => ("admin", "oracle_updated"),
            Event::AdminTransferred { .. } => ("admin", "transfer"),
            Event::Paused { .. } => ("admin", "paused"),
            Event::Unpaused { .. } => ("admin", "unpaused"),
            Event::MatchCreated { .. } => ("match", "created"),
            Event::MatchActivated { .. } => ("match", "activated"),
            Event::Deposited { .. } => ("match", "deposit"),
            Event::ResultPending { .. } => ("oracle", "pending"),
            Event::ResultOverridden { .. } => ("oracle", "overridn"),
            Event::MatchCompleted { .. } => ("match", "completed"),
            Event::MatchTimedOut { .. } => ("match", "timeout"),
            Event::MatchCancelled { .. } => ("match", "cancelled"),
            Event::Drained { .. } => ("admin", "drain"),
        }
    }
}

impl Side {
    /// The label of the player in a deposit event.
    pub fn label(&self) -> (label: &'static str)
        ensures
            label@ == match *self {
                Side::Player1 => "player1"@,
                Side::Player2 => "player2"@,
            },
    {
        match self {
            Side::Player1 => "player1",
            Side::Player2 => "player2",
        }
    }
}

/// The answer to a call. The host demands the authorization of every address in `authorize`,
/// in order, and aborts the call if one is missing; only then does `result` stand.
#[derive(Debug, PartialEq, Eq)]
pub struct Decision<T> {
    pub authorize: Vec<Address>,
    pub result: Result<T, Error>,
}

/// A match that is to be created, and the effects that create it.
#[derive(Debug, PartialEq, Eq)]
pub struct Creation {
    pub record: Match,
    pub effects: Vec<Effect>,
}

/// A deposit that the rules admit. The host looks up how much of `record.token` the contract
/// may take from `player` before the deposit goes on.
#[derive(Clone, Copy, Debug, PartialEq, Eq)]
pub struct DepositRequest {
    pub match_id: u64,
    pub player: Address,
    pub record: Match,
}

/// A drain that the rules admit. The host looks up the contract's balance of `token` before
/// the drain goes on.
#[derive(Clone, Copy, Debug, PartialEq, Eq)]
pub struct DrainRequest {
    pub token: Address,
    pub to: Address,
    pub admin: Address,
}

/// Whether `decision` demands exactly `authorize` and then is refused with `refusal`, or, where
/// that is `None`, plans exactly `effects`.
pub open spec fn decides(
    decision: Decision<Vec<Effect>>,
    authorize: Seq<Address>,
    refusal: Option<Error>,
    effects: Seq<Effect>,
) -> bool {
    &&& decision.authorize@ == authorize
    &&& match refusal {
        Some(error) => decision.result == Err::<Vec<Effect>, Error>(error),
        None => decision.result matches Ok(planned) && planned@ == effects,
    }
}

} // verus!
