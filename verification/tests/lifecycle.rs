use escrow::{
    Address, DataKey, Decision, Effect, Error, EscrowContract, Event, GameId, Instance, Match,
    MatchState, Platform, Side, Winner,
};
use soroban_sdk::{Env, String};
use std::collections::HashMap;

const WINDOW: u32 = 17_280;
const TIMEOUT: u32 = 120_960;
const TTL: u32 = 518_400;

fn address(name: u8) -> Address {
    Address { strkey: [name; 56] }
}

const ORACLE: u8 = b'O';
const ADMIN: u8 = b'D';
const TOKEN: u8 = b'T';
const ALICE: u8 = b'1';
const BOB: u8 = b'2';

/// A host: what is stored, who holds how many tokens, and what was published.
struct Host {
    env: Env,
    instance: Instance,
    matches: HashMap<u64, Match>,
    games: HashMap<Vec<u8>, u64>,
    balances: HashMap<u8, i128>,
    contract: i128,
    allowance: i128,
    frozen: bool,
    events: Vec<Event>,
    kept: Vec<DataKey>,
    sequence: u32,
}

impl Host {
    fn new() -> Host {
        let mut balances = HashMap::new();
        balances.insert(ALICE, 1000);
        balances.insert(BOB, 1000);
        Host {
            env: Env::default(),
            instance: Instance {
                oracle: None,
                admin: None,
                token: None,
                match_count: None,
                paused: None,
            },
            matches: HashMap::new(),
            games: HashMap::new(),
            balances,
            contract: 0,
            allowance: i128::MAX,
            frozen: false,
            events: Vec::new(),
            kept: Vec::new(),
            sequence: 100,
        }
    }

    fn ready() -> Host {
        let mut host = Host::new();
        let decision = EscrowContract::initialize(
            &host.instance,
            address(ORACLE),
            address(ADMIN),
            address(TOKEN),
        );
        host.finish(decision, &[]).unwrap();
        host
    }

    fn finish(&mut self, decision: Decision<Vec<Effect>>, signers: &[u8]) -> Result<(), Error> {
        let expected: Vec<Address> = signers.iter().map(|s| address(*s)).collect();
        assert_eq!(decision.authorize, expected);
        self.perform(&decision.result?)
    }

    fn perform(&mut self, effects: &[Effect]) -> Result<(), Error> {
        if self.frozen {
            for effect in effects {
                if let Some(error) = effect.on_failure() {
                    return Err(error);
                }
            }
        }
        for effect in effects {
            match *effect {
                Effect::ReadDecimals { token } => assert_eq!(token, address(TOKEN)),
                Effect::SetOracle { oracle } => self.instance.oracle = Some(oracle),
                Effect::SetAdmin { admin } => self.instance.admin = Some(admin),
                Effect::SetToken { token } => self.instance.token = Some(token),
                Effect::SetMatchCount { count } => self.instance.match_count = Some(count),
                Effect::SetPaused { paused } => self.instance.paused = Some(paused),
                Effect::PutMatch { match_id, record } => {
                    self.matches.insert(match_id, record);
                }
                Effect::PutGameId { game_id, match_id } => {
                    self.games.insert(game_id.to_vec(), match_id);
                }
                Effect::ExtendTtl { key, threshold, extend_to } => {
                    assert_eq!((threshold, extend_to), (TTL, TTL));
                    self.kept.push(key);
                }
                Effect::Collect { token, from, amount } => {
                    assert_eq!(token, address(TOKEN));
                    *self.balances.entry(from.strkey[0]).or_insert(0) -= amount;
                    self.contract += amount;
                }
                Effect::Refund { token, to, amount } | Effect::Pay { token, to, amount } => {
                    assert_eq!(token, address(TOKEN));
                    *self.balances.entry(to.strkey[0]).or_insert(0) += amount;
                    self.contract -= amount;
                }
                Effect::Publish { event } => self.events.push(event),
            }
        }
        Ok(())
    }

    fn entry(&self, id: u64) -> Option<Match> {
        self.matches.get(&id).copied()
    }

    fn state(&self, id: u64) -> MatchState {
        self.entry(id).unwrap().state
    }

    fn balance(&self, who: u8) -> i128 {
        self.balances.get(&who).copied().unwrap_or(0)
    }

    fn escrow(&self, id: u64) -> i128 {
        EscrowContract::get_escrow_balance(self.entry(id)).unwrap()
    }

    fn books_balance(&self) -> bool {
        let held: i128 = self.matches.keys().map(|id| self.escrow(*id)).sum();
        held == self.contract
    }

    fn create(&mut self, game_id: &str) -> Result<u64, Error> {
        let next = EscrowContract::get_match_count(&self.instance);
        let decision = EscrowContract::create_match(
            &self.instance,
            self.sequence,
            self.games.contains_key(game_id.as_bytes()),
            self.matches.contains_key(&next),
            address(ALICE),
            address(BOB),
            100,
            address(TOKEN),
            &String::from_str(&self.env, game_id),
            Platform::Lichess,
        );
        assert_eq!(decision.authorize, vec![address(ALICE)]);
        let creation = decision.result?;
        self.perform(&creation.effects)?;
        Ok(creation.record.id)
    }

    fn deposit(&mut self, id: u64, player: u8) -> Result<(), Error> {
        let decision =
            EscrowContract::deposit(&self.instance, self.entry(id), id, address(player));
        assert_eq!(decision.authorize, vec![address(player)]);
        let request = decision.result?;
        let effects = EscrowContract::settle_deposit(request, self.allowance, self.sequence)?;
        self.perform(&effects)
    }

    fn submit(&mut self, id: u64, game_id: &str, winner: Winner) -> Result<(), Error> {
        let decision = EscrowContract::submit_result(
            &self.instance,
            self.entry(id),
            id,
            &String::from_str(&self.env, game_id),
            winner,
            address(ORACLE),
            self.sequence,
        );
        let authorize = decision.authorize.clone();
        assert!(authorize.is_empty() || authorize == vec![address(ORACLE)]);
        let effects = decision.result?;
        self.perform(&effects)
    }

    fn overrule(&mut self, id: u64, winner: Winner) -> Result<(), Error> {
        let decision = EscrowContract::override_result(
            &self.instance,
            self.entry(id),
            id,
            winner,
            address(ADMIN),
            self.sequence,
        );
        self.finish(decision, &[ADMIN])
    }

    fn finalize(&mut self, id: u64) -> Result<(), Error> {
        let decision =
            EscrowContract::finalize_result(&self.instance, self.entry(id), id, self.sequence);
        self.finish(decision, &[])
    }

    fn claim(&mut self, id: u64, caller: u8) -> Result<(), Error> {
        let decision = EscrowContract::claim_timeout(
            &self.instance,
            self.entry(id),
            id,
            address(caller),
            self.sequence,
        );
        self.finish(decision, &[caller])
    }

    fn cancel(&mut self, id: u64, caller: u8) -> Result<(), Error> {
        let decision = EscrowContract::cancel_match(
            &self.instance,
            self.entry(id),
            id,
            address(caller),
            self.sequence,
        );
        let effects = decision.result?;
        self.perform(&effects)
    }

    fn pause(&mut self) {
        let decision = EscrowContract::pause(&self.instance, self.sequence);
        self.finish(decision, &[ADMIN]).unwrap();
    }

    fn started() -> Host {
        let mut host = Host::ready();
        assert_eq!(host.create("game"), Ok(0));
        host.deposit(0, ALICE).unwrap();
        host.deposit(0, BOB).unwrap();
        host
    }
}

#[test]
fn initialization_sets_every_key() {
    let host = Host::ready();
    assert_eq!(
        host.instance,
        Instance {
            oracle: Some(address(ORACLE)),
            admin: Some(address(ADMIN)),
            token: Some(address(TOKEN)),
            match_count: Some(0),
            paused: Some(false),
        }
    );
    assert!(host.events.is_empty());
    assert!(EscrowContract::is_initialized(&host.instance));
}

#[test]
fn initialization_effects_in_order() {
    let host = Host::new();
    let decision =
        EscrowContract::initialize(&host.instance, address(b'a'), address(b'b'), address(b'c'));
    assert_eq!(
        decision.result,
        Ok(vec![
            Effect::ReadDecimals { token: address(b'c') },
            Effect::SetOracle { oracle: address(b'a') },
            Effect::SetAdmin { admin: address(b'b') },
            Effect::SetToken { token: address(b'c') },
            Effect::SetMatchCount { count: 0 },
            Effect::SetPaused { paused: false },
        ])
    );
}

#[test]
fn settings_are_changed_by_the_admin() {
    let mut host = Host::ready();
    let decision = EscrowContract::update_oracle(&host.instance, address(b'N'));
    host.finish(decision, &[ADMIN]).unwrap();
    assert_eq!(host.instance.oracle, Some(address(b'N')));
    host.pause();
    assert!(EscrowContract::is_paused(&host.instance));
    let decision = EscrowContract::unpause(&host.instance, 101);
    host.finish(decision, &[ADMIN]).unwrap();
    assert!(!EscrowContract::is_paused(&host.instance));
    let decision = EscrowContract::transfer_admin(&host.instance, address(ADMIN), address(b'E'));
    host.finish(decision, &[ADMIN]).unwrap();
    assert_eq!(host.instance.admin, Some(address(b'E')));
    assert_eq!(
        host.events,
        vec![
            Event::OracleUpdated {
                old_oracle: address(ORACLE),
                new_oracle: address(b'N'),
                admin: address(ADMIN),
            },
            Event::Paused { admin: address(ADMIN), sequence: 100 },
            Event::Unpaused { admin: address(ADMIN), sequence: 101 },
            Event::AdminTransferred { old_admin: address(ADMIN), new_admin: address(b'E') },
        ]
    );
}

#[test]
fn created_match_reads_back() {
    let mut host = Host::ready();
    host.sequence = 7;
    assert_eq!(host.create("game"), Ok(0));
    let expected = Match {
        id: 0,
        player1: address(ALICE),
        player2: address(BOB),
        stake_amount: 100,
        token: address(TOKEN),
        game_id: GameId::new(b"game").unwrap(),
        platform: Platform::Lichess,
        state: MatchState::Pending,
        player1_deposited: false,
        player2_deposited: false,
        created_ledger: 7,
        activated_ledger: 0,
        pending_result_ledger: 0,
        pending_winner: None,
        cancelled_ledger: None,
        completed_ledger: None,
    };
    assert_eq!(EscrowContract::get_match(&host.instance, host.entry(0), 0), Ok(expected));
    assert_eq!(EscrowContract::is_funded(host.entry(0)), Ok(false));
    assert_eq!(host.escrow(0), 0);
    assert_eq!(host.games.get(&b"game".to_vec()), Some(&0));
    let game_id = GameId::new(b"game").unwrap();
    assert_eq!(host.kept, vec![DataKey::Match(0), DataKey::GameId(game_id)]);
    assert_eq!(
        host.events,
        vec![Event::MatchCreated {
            match_id: 0,
            player1: address(ALICE),
            player2: address(BOB),
            stake_amount: 100,
            game_id,
        }]
    );
}

#[test]
fn ids_count_up_and_game_ids_are_unique() {
    let mut host = Host::ready();
    assert_eq!(host.create("a"), Ok(0));
    assert_eq!(host.create("b"), Ok(1));
    assert_eq!(host.create("a"), Err(Error::DuplicateGameId));
    assert_eq!(host.create("c"), Ok(2));
    assert_eq!(host.instance.match_count, Some(3));
}

#[test]
fn creation_effects_in_order() {
    let host = Host::ready();
    let decision = EscrowContract::create_match(
        &host.instance,
        5,
        false,
        false,
        address(ALICE),
        address(BOB),
        1,
        address(TOKEN),
        &String::from_str(&host.env, "g"),
        Platform::ChessDotCom,
    );
    let creation = decision.result.unwrap();
    let game_id = GameId::new(b"g").unwrap();
    assert_eq!(creation.record.platform, Platform::ChessDotCom);
    assert_eq!(
        creation.effects,
        vec![
            Effect::PutMatch { match_id: 0, record: creation.record },
            Effect::ExtendTtl { key: DataKey::Match(0), threshold: TTL, extend_to: TTL },
            Effect::PutGameId { game_id, match_id: 0 },
            Effect::ExtendTtl { key: DataKey::GameId(game_id), threshold: TTL, extend_to: TTL },
            Effect::SetMatchCount { count: 1 },
            Effect::Publish {
                event: Event::MatchCreated {
                    match_id: 0,
                    player1: address(ALICE),
                    player2: address(BOB),
                    stake_amount: 1,
                    game_id,
                },
            },
        ]
    );
}

#[test]
fn two_deposits_start_the_match() {
    let mut host = Host::ready();
    host.create("game").unwrap();
    host.deposit(0, BOB).unwrap();
    assert_eq!(host.state(0), MatchState::Pending);
    assert_eq!(host.escrow(0), 100);
    assert_eq!(EscrowContract::is_funded(host.entry(0)), Ok(false));
    assert_eq!(host.deposit(0, BOB), Err(Error::AlreadyFunded));
    host.sequence = 150;
    host.deposit(0, ALICE).unwrap();
    let m = host.entry(0).unwrap();
    assert_eq!(m.state, MatchState::Active);
    assert_eq!(m.activated_ledger, 150);
    assert_eq!(host.escrow(0), 200);
    assert_eq!(EscrowContract::is_funded(host.entry(0)), Ok(true));
    assert_eq!((host.balance(ALICE), host.balance(BOB), host.contract), (900, 900, 200));
    assert_eq!(
        host.events[1..],
        [
            Event::Deposited {
                match_id: 0,
                player: address(BOB),
                amount: 100,
                side: Side::Player2,
            },
            Event::MatchActivated { match_id: 0 },
            Event::Deposited {
                match_id: 0,
                player: address(ALICE),
                amount: 100,
                side: Side::Player1,
            },
        ]
    );
}

#[test]
fn refused_transfer_leaves_the_match_alone() {
    let mut host = Host::ready();
    host.create("game").unwrap();
    host.frozen = true;
    assert_eq!(host.deposit(0, ALICE), Err(Error::TransferFailed));
    assert_eq!(host.escrow(0), 0);
    host.frozen = false;
    host.deposit(0, ALICE).unwrap();
    host.frozen = true;
    assert_eq!(host.cancel(0, ALICE), Err(Error::TransferFailed));
    assert_eq!(host.state(0), MatchState::Pending);
}

#[test]
fn small_allowance_is_refused() {
    let mut host = Host::ready();
    host.create("game").unwrap();
    host.allowance = 99;
    assert_eq!(host.deposit(0, ALICE), Err(Error::InsufficientAllowance));
    assert_eq!(host.contract, 0);
}

#[test]
fn winner_takes_the_pot() {
    let mut host = Host::started();
    host.submit(0, "game", Winner::Player1).unwrap();
    assert_eq!(host.state(0), MatchState::PendingResult);
    assert_eq!(host.escrow(0), 200);
    host.sequence += WINDOW - 1;
    assert_eq!(host.finalize(0), Err(Error::DisputeWindowActive));
    host.sequence += 1;
    host.finalize(0).unwrap();
    let m = host.entry(0).unwrap();
    assert_eq!(m.state, MatchState::Completed);
    assert_eq!(m.completed_ledger, Some(host.sequence));
    assert_eq!((host.balance(ALICE), host.balance(BOB), host.contract), (1100, 900, 0));
    assert_eq!(host.escrow(0), 0);
    assert_eq!(
        host.events.last(),
        Some(&Event::MatchCompleted { match_id: 0, winner: Winner::Player1, payout: 200 })
    );
}

#[test]
fn second_player_can_win() {
    let mut host = Host::started();
    host.submit(0, "game", Winner::Player2).unwrap();
    host.sequence += WINDOW + 1;
    host.finalize(0).unwrap();
    assert_eq!((host.balance(ALICE), host.balance(BOB), host.contract), (900, 1100, 0));
}

#[test]
fn draw_returns_the_stakes() {
    let mut host = Host::started();
    host.submit(0, "game", Winner::Draw).unwrap();
    host.sequence += WINDOW + 1;
    host.finalize(0).unwrap();
    assert_eq!((host.balance(ALICE), host.balance(BOB), host.contract), (1000, 1000, 0));
    assert_eq!(
        host.events.last(),
        Some(&Event::MatchCompleted { match_id: 0, winner: Winner::Draw, payout: 100 })
    );
}

#[test]
fn override_decides_the_payout_and_keeps_the_window() {
    let mut host = Host::started();
    host.submit(0, "game", Winner::Player1).unwrap();
    let reported = host.entry(0).unwrap();
    host.sequence += WINDOW - 1;
    host.overrule(0, Winner::Player2).unwrap();
    let expected = Match { pending_winner: Some(Winner::Player2), ..reported };
    assert_eq!(host.entry(0), Some(expected));
    assert_eq!(
        host.events.last(),
        Some(&Event::ResultOverridden {
            match_id: 0,
            old_winner: Some(Winner::Player1),
            new_winner: Winner::Player2,
        })
    );
    host.sequence += 1;
    assert_eq!(host.overrule(0, Winner::Draw), Err(Error::DisputeWindowActive));
    host.finalize(0).unwrap();
    assert_eq!((host.balance(ALICE), host.balance(BOB)), (900, 1100));
}

#[test]
fn result_of_another_game_is_refused() {
    let mut host = Host::started();
    host.create("other").unwrap();
    assert_eq!(host.submit(0, "other", Winner::Player1), Err(Error::GameIdMismatch));
    host.submit(0, "game", Winner::Player1).unwrap();
    assert_eq!(
        host.events.last(),
        Some(&Event::ResultPending { match_id: 0, winner: Winner::Player1, sequence: 100 })
    );
}

#[test]
fn timeout_returns_the_stakes() {
    let mut host = Host::started();
    host.sequence += TIMEOUT;
    assert_eq!(host.claim(0, BOB), Err(Error::MatchTimedOut));
    host.sequence += 1;
    host.claim(0, BOB).unwrap();
    let m = host.entry(0).unwrap();
    assert_eq!(m.state, MatchState::Cancelled);
    assert_eq!(m.cancelled_ledger, None);
    assert_eq!((host.balance(ALICE), host.balance(BOB), host.contract), (1000, 1000, 0));
    assert_eq!(
        host.events.last(),
        Some(&Event::MatchTimedOut { match_id: 0, caller: address(BOB) })
    );
}

#[test]
fn cancellation_returns_what_was_deposited() {
    let mut host = Host::ready();
    host.create("game").unwrap();
    host.deposit(0, BOB).unwrap();
    host.cancel(0, ALICE).unwrap();
    let m = host.entry(0).unwrap();
    assert_eq!(m.state, MatchState::Cancelled);
    assert_eq!(m.cancelled_ledger, Some(100));
    assert_eq!((host.balance(ALICE), host.balance(BOB), host.contract), (1000, 1000, 0));
    assert_eq!(
        host.events.last(),
        Some(&Event::MatchCancelled {
            match_id: 0,
            caller: address(ALICE),
            player1_refund: 0,
            player2_refund: 100,
        })
    );
}

#[test]
fn cancellation_is_authorized_by_those_it_concerns() {
    let mut host = Host::ready();
    host.create("game").unwrap();
    let mut m = host.entry(0).unwrap();
    let ask = |m: Match| {
        EscrowContract::cancel_match(&host.instance, Some(m), 0, address(BOB), 1).authorize
    };
    assert_eq!(ask(m), vec![address(BOB)]);
    m.player1_deposited = true;
    assert_eq!(ask(m), vec![address(BOB)]);
    m.player2_deposited = true;
    assert_eq!(ask(m), vec![address(ALICE), address(BOB)]);
}

#[test]
fn cancelling_a_funded_pending_record_refunds_both() {
    let mut host = Host::ready();
    host.create("game").unwrap();
    let m = Match {
        player1_deposited: true,
        player2_deposited: true,
        ..host.entry(0).unwrap()
    };
    let effects = EscrowContract::cancel_match(&host.instance, Some(m), 0, address(BOB), 9)
        .result
        .unwrap();
    assert_eq!(
        effects[..2],
        [
            Effect::Refund { token: address(TOKEN), to: address(ALICE), amount: 100 },
            Effect::Refund { token: address(TOKEN), to: address(BOB), amount: 100 },
        ]
    );
    assert_eq!(effects.len(), 5);
}

#[test]
fn pause_blocks_new_business_but_not_the_exits() {
    let mut host = Host::started();
    host.create("waiting").unwrap();
    host.create("reported").unwrap();
    host.deposit(1, ALICE).unwrap();
    host.deposit(2, ALICE).unwrap();
    host.deposit(2, BOB).unwrap();
    host.submit(2, "reported", Winner::Draw).unwrap();
    host.pause();
    assert_eq!(host.create("new"), Err(Error::ContractPaused));
    assert_eq!(host.deposit(1, BOB), Err(Error::ContractPaused));
    assert_eq!(host.submit(0, "game", Winner::Draw), Err(Error::ContractPaused));
    host.cancel(1, ALICE).unwrap();
    host.overrule(2, Winner::Player1).unwrap();
    host.sequence += TIMEOUT + 1;
    host.finalize(2).unwrap();
    host.claim(0, ALICE).unwrap();
    assert_eq!(host.contract, 0);
}

#[test]
fn terminal_matches_stay() {
    let mut host = Host::started();
    host.submit(0, "game", Winner::Player1).unwrap();
    host.sequence += WINDOW + 1;
    host.finalize(0).unwrap();
    let done = host.entry(0);
    host.sequence += TIMEOUT + 1;
    assert_eq!(host.deposit(0, ALICE), Err(Error::InvalidState));
    assert_eq!(host.submit(0, "game", Winner::Player2), Err(Error::InvalidState));
    assert_eq!(host.overrule(0, Winner::Player2), Err(Error::InvalidState));
    assert_eq!(host.finalize(0), Err(Error::InvalidState));
    assert_eq!(host.claim(0, ALICE), Err(Error::InvalidState));
    assert_eq!(host.cancel(0, ALICE), Err(Error::InvalidState));
    assert_eq!(host.entry(0), done);
    assert_eq!(host.contract, 0);
}

#[test]
fn books_balance_at_every_step() {
    let mut host = Host::ready();
    for game in ["a", "b", "c", "d"] {
        host.create(game).unwrap();
        assert!(host.books_balance());
    }
    for id in 0..4 {
        host.deposit(id, ALICE).unwrap();
        assert!(host.books_balance());
    }
    host.cancel(3, BOB).unwrap();
    assert!(host.books_balance());
    for id in 0..3 {
        host.deposit(id, BOB).unwrap();
        assert!(host.books_balance());
    }
    assert_eq!(host.contract, 600);
    host.submit(0, "a", Winner::Player1).unwrap();
    host.submit(1, "b", Winner::Draw).unwrap();
    host.sequence += TIMEOUT + 1;
    host.finalize(0).unwrap();
    assert!(host.books_balance());
    host.finalize(1).unwrap();
    assert!(host.books_balance());
    host.claim(2, BOB).unwrap();
    assert!(host.books_balance());
    assert_eq!(host.contract, 0);
}

#[test]
fn drain_moves_the_whole_balance() {
    let mut host = Host::started();
    host.pause();
    let safe = address(b'S');
    let request = EscrowContract::emergency_drain(&host.instance, safe, address(ADMIN))
        .result
        .unwrap();
    assert_eq!(request.token, address(TOKEN));
    let effects = EscrowContract::settle_drain(request, host.contract);
    assert_eq!(
        effects,
        vec![
            Effect::Pay { token: address(TOKEN), to: safe, amount: 200 },
            Effect::Publish {
                event: Event::Drained { balance: 200, to: safe, admin: address(ADMIN) },
            },
        ]
    );
    host.perform(&effects).unwrap();
    assert_eq!((host.contract, host.balance(b'S')), (0, 200));
    let effects = EscrowContract::settle_drain(request, 0);
    assert_eq!(
        effects,
        vec![Effect::Publish {
            event: Event::Drained { balance: 0, to: safe, admin: address(ADMIN) },
        }]
    );
}

#[test]
fn payout_effects_in_order() {
    let mut host = Host::started();
    host.submit(0, "game", Winner::Draw).unwrap();
    host.sequence += WINDOW + 1;
    let m = host.entry(0).unwrap();
    let effects =
        EscrowContract::finalize_result(&host.instance, Some(m), 0, host.sequence).result.unwrap();
    let record = Match {
        state: MatchState::Completed,
        completed_ledger: Some(host.sequence),
        ..m
    };
    assert_eq!(
        effects,
        vec![
            Effect::Pay { token: address(TOKEN), to: address(ALICE), amount: 100 },
            Effect::Pay { token: address(TOKEN), to: address(BOB), amount: 100 },
            Effect::PutMatch { match_id: 0, record },
            Effect::ExtendTtl { key: DataKey::Match(0), threshold: TTL, extend_to: TTL },
            Effect::Publish {
                event: Event::MatchCompleted { match_id: 0, winner: Winner::Draw, payout: 100 },
            },
        ]
    );
}

#[test]
fn every_stored_match_is_kept_alive() {
    let mut host = Host::started();
    host.submit(0, "game", Winner::Draw).unwrap();
    host.overrule(0, Winner::Player1).unwrap();
    host.sequence += WINDOW + 1;
    host.finalize(0).unwrap();
    let matches = host.kept.iter().filter(|key| **key == DataKey::Match(0)).count();
    assert_eq!(matches, 6);
}

#[test]
fn handover_passes_the_powers_on() {
    let mut host = Host::ready();
    let decision =
        EscrowContract::transfer_admin(&host.instance, address(ADMIN), address(b'N'));
    host.finish(decision, &[ADMIN]).unwrap();
    let decision =
        EscrowContract::transfer_admin(&host.instance, address(ADMIN), address(ALICE));
    assert_eq!(host.finish(decision, &[]), Err(Error::Unauthorized));
    let decision = EscrowContract::emergency_drain(&host.instance, address(BOB), address(ADMIN));
    assert!(decision.authorize.is_empty());
    assert!(matches!(decision.result, Err(Error::Unauthorized)));
    let decision = EscrowContract::pause(&host.instance, 7);
    host.finish(decision, &[b'N']).unwrap();
    assert_eq!(host.instance.admin, Some(address(b'N')));
}

#[test]
fn results_of_a_replaced_oracle_are_refused() {
    let mut host = Host::started();
    let decision = EscrowContract::update_oracle(&host.instance, address(b'N'));
    host.finish(decision, &[ADMIN]).unwrap();
    assert_eq!(host.submit(0, "game", Winner::Player1), Err(Error::Unauthorized));
    assert_eq!(host.state(0), MatchState::Active);
}

#[test]
fn unpausing_undoes_a_pause() {
    let mut host = Host::started();
    let before = host.instance;
    host.pause();
    assert!(EscrowContract::is_paused(&host.instance));
    let decision = EscrowContract::unpause(&host.instance, 200);
    host.finish(decision, &[ADMIN]).unwrap();
    assert_eq!(host.instance, before);
}

#[test]
fn window_ends_when_its_ledgers_have_elapsed() {
    let mut host = Host::started();
    host.sequence = 1000;
    host.submit(0, "game", Winner::Player1).unwrap();
    host.sequence = 18_280;
    assert_eq!(host.overrule(0, Winner::Player2), Err(Error::DisputeWindowActive));
    assert_eq!(host.entry(0).unwrap().pending_winner, Some(Winner::Player1));
    assert_eq!(host.finalize(0), Ok(()));
    assert_eq!((host.balance(ALICE), host.balance(BOB), host.contract), (1100, 900, 0));
}

#[test]
fn deposit_into_a_cancelled_match_changes_nothing() {
    let mut host = Host::ready();
    host.create("game").unwrap();
    host.deposit(0, ALICE).unwrap();
    host.cancel(0, ALICE).unwrap();
    let done = host.entry(0);
    assert_eq!(host.deposit(0, BOB), Err(Error::InvalidState));
    assert_eq!(host.entry(0), done);
    assert_eq!((host.balance(ALICE), host.balance(BOB), host.contract), (1000, 1000, 0));
}
