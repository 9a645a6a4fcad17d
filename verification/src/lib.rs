//! Chess-match escrow for the Stellar network: the rules of the contract.
//!
//! Two players stake a token on a game. The stakes are held until an oracle reports the
//! result, the admin has had time to dispute it, and anyone finalises the payout.
//!
//! ```text
//! (none) -- create_match --> Pending -- deposit, twice --> Active -- claim_timeout --> Cancelled
//!                               |                            |
//!                          cancel_match                submit_result
//!                               |                            |
//!                               v                            v
//!                           Cancelled    override_result --> PendingResult
//!                                                            |
//!                                                      finalize_result
//!                                                            |
//!                                                            v
//!                                                        Completed
//! ```
//!
//! Every entry point of [`EscrowContract`] takes what the contract's storage holds as plain
//! values and answers with the authorizations it demands and either an error or the exact
//! list of [`Effect`]s that the host has to perform, in order.
//!
//! - [`types`]: addresses, game ids, matches and the instance record.
//! - [`errors`]: the reasons for refusing a call.
//! - [`effects`]: what a call asks of the host.
//! - [`rules`]: the mathematical statement of every call.
//! - [`contract`]: the executable entry points.
//! - [`host`]: the host's strings and vectors.
//! - [`ledger`]: a model of the whole contract under a sequence of calls.
//! - [`steps`], [`transfers`] and [`upkeep`]: what a call amounts to in that model.
//! - [`admission`]: when a call is accepted, and why it is refused otherwise.
//! - [`observers`] and [`deeds`]: what an accepted call does, as the outside sees it.
//! - [`laws`]: what holds of the contract as a whole.

pub mod admission;
pub mod contract;
pub mod deeds;
pub mod effects;
pub mod errors;
pub mod host;
pub mod laws;
pub mod ledger;
pub mod observers;
pub mod rules;
pub mod steps;
pub mod transfers;
pub mod types;
pub mod upkeep;

pub use contract::EscrowContract;
pub use effects::{Creation, Decision, DepositRequest, DrainRequest, Effect, Event};
pub use errors::Error;
pub use types::{Address, DataKey, GameId, Instance, Match, MatchState, Platform, Side, Winner};
