use escrow::{
    Address, DepositRequest, Error, EscrowContract, GameId, Instance, Match, MatchState, Platform,
    Winner,
};
use soroban_sdk::{Env, String};

const WINDOW: u32 = 17_280;
const TIMEOUT: u32 = 120_960;

fn address(name: u8) -> Address {
    Address { strkey: [name; 56] }
}

fn zero() -> Address {
    let mut strkey = [b'A'; 56];
    strkey[0] = b'G';
    strkey[53] = b'W';
    strkey[54] = b'H';
    strkey[55] = b'F';
    Address { strkey }
}

fn ready() -> Instance {
    Instance {
        oracle: Some(address(b'O')),
        admin: Some(address(b'D')),
        token: Some(address(b'T')),
        match_count: Some(1),
        paused: Some(false),
    }
}

fn fresh() -> Instance {
    Instance { oracle: None, admin: None, token: None, match_count: None, paused: None }
}

fn paused() -> Instance {
    Instance { paused: Some(true), ..ready() }
}

fn pending() -> Match {
    Match {
        id: 0,
        player1: address(b'1'),
        player2: address(b'2'),
        stake_amount: 100,
        token: address(b'T'),
        game_id: GameId::new(b"game").unwrap(),
        platform: Platform::Lichess,
        state: MatchState::Pending,
        player1_deposited: false,
        player2_deposited: false,
        created_ledger: 10,
        activated_ledger: 0,
        pending_result_ledger: 0,
        pending_winner: None,
        cancelled_ledger: None,
        completed_ledger: None,
    }
}

fn active() -> Match {
    Match {
        state: MatchState::Active,
        player1_deposited: true,
        player2_deposited: true,
        activated_ledger: 1000,
        ..pending()
    }
}

fn reported() -> Match {
    Match {
        state: MatchState::PendingResult,
        pending_result_ledger: 2000,
        pending_winner: Some(Winner::Player1),
        ..active()
    }
}

fn in_state(state: MatchState) -> Match {
    Match { state, ..active() }
}

fn create(
    instance: &Instance,
    taken: bool,
    occupied: bool,
    player2: u8,
    stake: i128,
    token: u8,
    game_id: &[u8],
) -> Result<u64, Error> {
    let env = Env::default();
    let decision = EscrowContract::create_match(
        instance,
        10,
        taken,
        occupied,
        address(b'1'),
        address(player2),
        stake,
        address(token),
        &String::from_bytes(&env, game_id),
        Platform::ChessDotCom,
    );
    assert_eq!(decision.authorize, vec![address(b'1')]);
    decision.result.map(|creation| creation.record.id)
}

fn submit(instance: &Instance, entry: Option<Match>, game_id: &str, caller: u8) -> Option<Error> {
    let env = Env::default();
    EscrowContract::submit_result(
        instance,
        entry,
        0,
        &String::from_str(&env, game_id),
        Winner::Player1,
        address(caller),
        2000,
    )
    .result
    .err()
}

fn deposit(instance: &Instance, entry: Option<Match>, match_id: u64, player: u8) -> Option<Error> {
    let decision = EscrowContract::deposit(instance, entry, match_id, address(player));
    assert_eq!(decision.authorize, vec![address(player)]);
    decision.result.err()
}

fn overridden(
    instance: &Instance,
    entry: Option<Match>,
    caller: u8,
    sequence: u32,
) -> Option<Error> {
    EscrowContract::override_result(instance, entry, 0, Winner::Draw, address(caller), sequence)
        .result
        .err()
}

fn finalized(entry: Option<Match>, sequence: u32) -> Option<Error> {
    let decision = EscrowContract::finalize_result(&ready(), entry, 0, sequence);
    assert!(decision.authorize.is_empty());
    decision.result.err()
}

fn claimed(entry: Option<Match>, caller: u8, sequence: u32) -> Option<Error> {
    let decision =
        EscrowContract::claim_timeout(&ready(), entry, 0, address(caller), sequence);
    assert_eq!(decision.authorize, vec![address(caller)]);
    decision.result.err()
}

#[test]
fn settings_need_an_initialized_contract() {
    let update = EscrowContract::update_oracle(&fresh(), address(b'N'));
    assert!(update.authorize.is_empty());
    assert_eq!(update.result, Err(Error::Unauthorized));
    let no_oracle = Instance { oracle: None, ..ready() };
    let update = EscrowContract::update_oracle(&no_oracle, address(b'N'));
    assert_eq!(update.authorize, vec![address(b'D')]);
    assert_eq!(update.result, Err(Error::Unauthorized));
    assert_eq!(EscrowContract::pause(&fresh(), 1).result, Err(Error::Unauthorized));
    assert_eq!(EscrowContract::unpause(&fresh(), 1).result, Err(Error::Unauthorized));
}

#[test]
fn admin_is_handed_over_by_the_admin_to_someone_else() {
    let admin = address(b'D');
    let other = EscrowContract::transfer_admin(&ready(), address(b'X'), address(b'N'));
    assert!(other.authorize.is_empty());
    assert_eq!(other.result, Err(Error::Unauthorized));
    let unset = EscrowContract::transfer_admin(&fresh(), admin, address(b'N'));
    assert!(unset.authorize.is_empty());
    assert_eq!(unset.result, Err(Error::Unauthorized));
    let same = EscrowContract::transfer_admin(&ready(), admin, admin);
    assert_eq!(same.authorize, vec![admin]);
    assert_eq!(same.result, Err(Error::InvalidAdmin));
    let nobody = EscrowContract::transfer_admin(&ready(), admin, zero());
    assert_eq!(nobody.authorize, vec![admin]);
    assert_eq!(nobody.result, Err(Error::InvalidAdmin));
    assert!(EscrowContract::transfer_admin(&ready(), admin, address(b'N')).result.is_ok());
}

#[test]
fn creation_is_refused_in_this_order() {
    let ok = |i: &Instance| create(i, false, false, b'2', 100, b'T', b"game");
    assert_eq!(ok(&ready()), Ok(1));
    assert_eq!(create(&paused(), true, true, b'1', 0, b'X', b""), Err(Error::ContractPaused));
    assert_eq!(create(&ready(), true, true, b'1', 0, b'X', b""), Err(Error::InvalidAmount));
    assert_eq!(create(&ready(), true, true, b'1', -5, b'X', b""), Err(Error::InvalidAmount));
    assert_eq!(create(&ready(), true, true, b'1', 1, b'X', b""), Err(Error::InvalidPlayers));
    assert_eq!(create(&ready(), true, true, b'2', 1, b'X', b""), Err(Error::InvalidGameId));
    assert_eq!(create(&ready(), true, true, b'2', 1, b'X', &[1; 65]), Err(Error::InvalidGameId));
    assert_eq!(create(&ready(), true, true, b'2', 1, b'X', b"g"), Err(Error::DuplicateGameId));
    assert_eq!(create(&fresh(), false, true, b'2', 1, b'X', b"g"), Err(Error::Unauthorized));
    assert_eq!(create(&ready(), false, true, b'2', 1, b'X', b"g"), Err(Error::InvalidToken));
    assert_eq!(create(&ready(), false, true, b'2', 1, b'T', b"g"), Err(Error::AlreadyExists));
    let full = Instance { match_count: Some(u64::MAX), ..ready() };
    assert_eq!(ok(&full), Err(Error::Overflow));
    let almost = Instance { match_count: Some(u64::MAX - 1), ..ready() };
    assert_eq!(ok(&almost), Ok(u64::MAX - 1));
}

#[test]
fn deposits_are_refused() {
    let m = Some(pending());
    assert_eq!(deposit(&ready(), m, 0, b'1'), None);
    assert_eq!(deposit(&paused(), m, 0, b'1'), Some(Error::ContractPaused));
    assert_eq!(deposit(&ready(), m, 1, b'1'), Some(Error::MatchNotFound));
    assert_eq!(deposit(&ready(), None, 0, b'1'), Some(Error::MatchNotFound));
    let cancelled = Some(in_state(MatchState::Cancelled));
    assert_eq!(deposit(&ready(), cancelled, 0, b'1'), Some(Error::InvalidState));
    let completed = Some(in_state(MatchState::Completed));
    assert_eq!(deposit(&ready(), completed, 0, b'1'), Some(Error::InvalidState));
    assert_eq!(deposit(&ready(), Some(active()), 0, b'1'), Some(Error::InvalidState));
    assert_eq!(deposit(&ready(), Some(reported()), 0, b'1'), Some(Error::InvalidState));
    assert_eq!(deposit(&ready(), m, 0, b'X'), Some(Error::Unauthorized));
    let half = Some(Match { player1_deposited: true, ..pending() });
    assert_eq!(deposit(&ready(), half, 0, b'1'), Some(Error::AlreadyFunded));
    assert_eq!(deposit(&ready(), half, 0, b'2'), None);
    let other = Some(Match { player2_deposited: true, ..pending() });
    assert_eq!(deposit(&ready(), other, 0, b'2'), Some(Error::AlreadyFunded));
}

#[test]
fn deposit_needs_an_allowance() {
    let request = DepositRequest { match_id: 0, player: address(b'1'), record: pending() };
    assert_eq!(
        EscrowContract::settle_deposit(request, 99, 20),
        Err(Error::InsufficientAllowance)
    );
    assert!(EscrowContract::settle_deposit(request, 100, 20).is_ok());
}

#[test]
fn results_are_refused() {
    let m = Some(active());
    assert_eq!(submit(&ready(), m, "game", b'O'), None);
    assert_eq!(submit(&paused(), m, "game", b'O'), Some(Error::ContractPaused));
    assert_eq!(submit(&ready(), m, "game", b'X'), Some(Error::Unauthorized));
    assert_eq!(submit(&fresh(), m, "game", b'O'), Some(Error::Unauthorized));
    assert_eq!(submit(&ready(), None, "game", b'O'), Some(Error::MatchNotFound));
    let none = Instance { match_count: Some(0), ..ready() };
    assert_eq!(submit(&none, m, "game", b'O'), Some(Error::MatchNotFound));
    assert_eq!(submit(&ready(), m, "other", b'O'), Some(Error::GameIdMismatch));
    assert_eq!(submit(&ready(), m, "", b'O'), Some(Error::GameIdMismatch));
    assert_eq!(submit(&ready(), Some(pending()), "game", b'O'), Some(Error::InvalidState));
    assert_eq!(submit(&ready(), Some(reported()), "game", b'O'), Some(Error::InvalidState));
    let unfunded = Some(Match { player2_deposited: false, ..active() });
    assert_eq!(submit(&ready(), unfunded, "game", b'O'), Some(Error::NotFunded));
}

#[test]
fn result_is_authorized_by_the_oracle_once_it_is_known() {
    let env = Env::default();
    let game = String::from_str(&env, "wrong");
    let ask = |instance: &Instance, caller: u8| {
        EscrowContract::submit_result(
            instance,
            None,
            0,
            &game,
            Winner::Draw,
            address(caller),
            1,
        )
        .authorize
    };
    assert_eq!(ask(&ready(), b'O'), vec![address(b'O')]);
    assert!(ask(&ready(), b'X').is_empty());
    assert!(ask(&paused(), b'O').is_empty());
}

#[test]
fn overrides_are_refused() {
    let m = Some(reported());
    assert_eq!(overridden(&ready(), m, b'D', 2000), None);
    assert_eq!(overridden(&ready(), m, b'D', 1999 + WINDOW), None);
    assert_eq!(
        overridden(&ready(), m, b'D', 2000 + WINDOW),
        Some(Error::DisputeWindowActive)
    );
    assert_eq!(overridden(&ready(), m, b'O', 2000), Some(Error::Unauthorized));
    assert_eq!(overridden(&fresh(), m, b'D', 2000), Some(Error::Unauthorized));
    assert_eq!(overridden(&ready(), None, b'D', 2000), Some(Error::MatchNotFound));
    assert_eq!(overridden(&ready(), Some(active()), b'D', 2000), Some(Error::InvalidState));
}

#[test]
fn payouts_are_refused() {
    let m = Some(reported());
    assert_eq!(finalized(m, 2000 + WINDOW), None);
    assert_eq!(finalized(m, 1999 + WINDOW), Some(Error::DisputeWindowActive));
    assert_eq!(finalized(None, 2000 + WINDOW), Some(Error::MatchNotFound));
    assert_eq!(finalized(Some(active()), 2000 + WINDOW), Some(Error::InvalidState));
    let nobody = Some(Match { pending_winner: None, ..reported() });
    assert_eq!(finalized(nobody, 2000 + WINDOW), Some(Error::InvalidState));
    assert_eq!(finalized(nobody, 1999 + WINDOW), Some(Error::DisputeWindowActive));
}

#[test]
fn timeouts_are_refused() {
    let m = Some(active());
    assert_eq!(claimed(m, b'1', 1001 + TIMEOUT), None);
    assert_eq!(claimed(m, b'2', 1001 + TIMEOUT), None);
    assert_eq!(claimed(m, b'1', 1000 + TIMEOUT), Some(Error::MatchTimedOut));
    assert_eq!(claimed(m, b'X', 1001 + TIMEOUT), Some(Error::Unauthorized));
    assert_eq!(claimed(None, b'1', 1001 + TIMEOUT), Some(Error::MatchNotFound));
    assert_eq!(claimed(Some(pending()), b'1', 1001 + TIMEOUT), Some(Error::InvalidState));
    assert_eq!(claimed(Some(reported()), b'1', 1001 + TIMEOUT), Some(Error::InvalidState));
}

#[test]
fn cancellations_are_refused() {
    let ask = |entry: Option<Match>, caller: u8| {
        let decision = EscrowContract::cancel_match(&ready(), entry, 0, address(caller), 20);
        assert!(decision.authorize.is_empty());
        decision.result.err()
    };
    assert_eq!(ask(Some(pending()), b'X'), Some(Error::Unauthorized));
    assert_eq!(ask(None, b'1'), Some(Error::MatchNotFound));
    assert_eq!(ask(Some(active()), b'1'), Some(Error::InvalidState));
    assert_eq!(ask(Some(in_state(MatchState::Cancelled)), b'1'), Some(Error::InvalidState));
}

#[test]
fn drains_are_refused() {
    let ask = |instance: &Instance, caller: u8| {
        EscrowContract::emergency_drain(instance, address(b'S'), address(caller))
    };
    let stranger = ask(&paused(), b'X');
    assert!(stranger.authorize.is_empty());
    assert_eq!(stranger.result, Err(Error::Unauthorized));
    let running = ask(&ready(), b'D');
    assert_eq!(running.authorize, vec![address(b'D')]);
    assert_eq!(running.result, Err(Error::NotPaused));
    let tokenless = Instance { token: None, ..paused() };
    assert_eq!(ask(&tokenless, b'D').result, Err(Error::Unauthorized));
    assert_eq!(ask(&fresh(), b'D').result, Err(Error::Unauthorized));
    assert!(ask(&paused(), b'D').result.is_ok());
}

#[test]
fn reads_of_unknown_matches_are_refused() {
    assert_eq!(EscrowContract::get_match(&ready(), None, 0), Err(Error::MatchNotFound));
    assert_eq!(
        EscrowContract::get_match(&ready(), Some(pending()), 1),
        Err(Error::MatchNotFound)
    );
    assert_eq!(EscrowContract::get_match(&ready(), Some(pending()), 0), Ok(pending()));
    assert_eq!(EscrowContract::is_funded(None), Err(Error::MatchNotFound));
    assert_eq!(EscrowContract::get_escrow_balance(None), Err(Error::MatchNotFound));
}

#[test]
fn terminal_matches_refuse_every_call() {
    for state in [MatchState::Completed, MatchState::Cancelled] {
        let m = Some(in_state(state));
        assert!(deposit(&ready(), m, 0, b'1').is_some());
        assert_eq!(submit(&ready(), m, "game", b'O'), Some(Error::InvalidState));
        assert_eq!(overridden(&ready(), m, b'D', 1), Some(Error::InvalidState));
        assert_eq!(finalized(m, u32::MAX), Some(Error::InvalidState));
        assert_eq!(claimed(m, b'1', u32::MAX), Some(Error::InvalidState));
    }
}

#[test]
fn numbers_out_of_range_are_told() {
    let late = Match { pending_result_ledger: u32::MAX - WINDOW + 1, ..reported() };
    let i = ready();
    let admin = address(b'D');
    assert!(!EscrowContract::can_override_result(&i, Some(late), 0, admin));
    assert!(EscrowContract::can_override_result(&i, Some(late), 0, address(b'X')));
    assert!(EscrowContract::can_override_result(&i, Some(late), 1, admin));
    assert!(EscrowContract::can_override_result(&i, None, 0, admin));
    assert!(EscrowContract::can_override_result(&i, Some(reported()), 0, admin));
    let last = Match { pending_result_ledger: u32::MAX - WINDOW, ..reported() };
    assert!(EscrowContract::can_override_result(&i, Some(last), 0, admin));

    assert!(!EscrowContract::can_finalize_result(&i, Some(late), 0, u32::MAX));
    assert!(EscrowContract::can_finalize_result(&i, Some(last), 0, u32::MAX));
    let rich = Match { stake_amount: i128::MAX / 2 + 1, ..reported() };
    assert!(!EscrowContract::can_finalize_result(&i, Some(rich), 0, 2000 + WINDOW));
    assert!(EscrowContract::can_finalize_result(&i, Some(rich), 0, 1999 + WINDOW));
    let drawn = Match { pending_winner: Some(Winner::Draw), ..rich };
    assert!(EscrowContract::can_finalize_result(&i, Some(drawn), 0, 2000 + WINDOW));

    let late = Match { activated_ledger: u32::MAX - TIMEOUT + 1, ..active() };
    assert!(!EscrowContract::can_claim_timeout(&i, Some(late), 0, address(b'1')));
    assert!(EscrowContract::can_claim_timeout(&i, Some(late), 0, address(b'X')));
    assert!(EscrowContract::can_claim_timeout(&i, Some(active()), 0, address(b'1')));

    assert!(!EscrowContract::can_get_escrow_balance(Some(rich)));
    let half = Match { player1_deposited: false, ..rich };
    assert!(EscrowContract::can_get_escrow_balance(Some(half)));
    let done = Match { state: MatchState::Completed, ..rich };
    assert!(EscrowContract::can_get_escrow_balance(Some(done)));
    assert!(EscrowContract::can_get_escrow_balance(None));
}
