use escrow::{
    Address, Effect, Error, EscrowContract, Event, GameId, Instance, Side, Winner,
};
use soroban_sdk::{Env, String};

const ZERO: &str = "GAAAAAAAAAAAAAAAAAAAAAAAAAAAAAAAAAAAAAAAAAAAAAAAAAAAAWHF";

fn address(name: u8) -> Address {
    Address { strkey: [name; 56] }
}

fn instance_with(count: Option<u64>) -> Instance {
    Instance {
        oracle: None,
        admin: None,
        token: None,
        match_count: count,
        paused: None,
    }
}

fn ids(env: &Env, count: Option<u64>, start: u64, limit: u32) -> Vec<u64> {
    EscrowContract::list_matches(env, &instance_with(count), start, limit)
        .iter()
        .collect()
}

#[test]
fn addresses_compare_by_their_text() {
    let mut other = address(b'A');
    assert!(address(b'A') == other);
    other.strkey[55] = b'B';
    assert!(address(b'A') != other);
    other = address(b'A');
    other.strkey[0] = b'B';
    assert!(address(b'A') != other);
}

#[test]
fn address_is_read_from_its_text() {
    let env = Env::default();
    let zero = Address::from_text(&String::from_str(&env, ZERO)).unwrap();
    assert_eq!(&zero.strkey[..], ZERO.as_bytes());
    assert_eq!(Address::from_text(&String::from_str(&env, "G")), None);
    assert_eq!(Address::from_text(&String::from_bytes(&env, &[b'G'; 57])), None);
}

#[test]
fn host_address_becomes_its_text() {
    let env = Env::default();
    let host = soroban_sdk::Address::from_str(&env, ZERO);
    let plain = Address::from_text(&host.to_string()).unwrap();
    assert!(plain.is_zero_account());
    let contract = "CAAAAAAAAAAAAAAAAAAAAAAAAAAAAAAAAAAAAAAAAAAAAAAAAAAAD2KM";
    let host = soroban_sdk::Address::from_str(&env, contract);
    let plain = Address::from_text(&host.to_string()).unwrap();
    assert_eq!(&plain.strkey[..], contract.as_bytes());
    assert!(!plain.is_zero_account());
}

#[test]
fn zero_account_is_recognised() {
    let env = Env::default();
    let zero = Address::from_text(&String::from_str(&env, ZERO)).unwrap();
    assert!(zero.is_zero_account());
    let mut almost = zero;
    almost.strkey[55] = b'A';
    assert!(!almost.is_zero_account());
    almost = zero;
    almost.strkey[0] = b'C';
    assert!(!almost.is_zero_account());
    assert!(!address(b'A').is_zero_account());
}

#[test]
fn game_ids_have_between_1_and_64_bytes() {
    assert!(GameId::new(b"").is_none());
    assert!(GameId::new(b"a").is_some());
    assert!(GameId::new(&[7; 64]).is_some());
    assert!(GameId::new(&[7; 65]).is_none());
}

#[test]
fn game_ids_keep_their_bytes() {
    let id = GameId::new(b"abc").unwrap();
    assert_eq!(id.to_vec(), b"abc".to_vec());
    assert!(id.is(b"abc"));
    assert!(!id.is(b"ab"));
    assert!(!id.is(b"abcd"));
    assert!(!id.is(b"abd"));
    assert_eq!(id, GameId::new(b"abc").unwrap());
    assert_ne!(id, GameId::new(b"abc\0").unwrap());
}

#[test]
fn game_ids_are_read_from_host_strings() {
    let env = Env::default();
    let id = GameId::from_text(&String::from_str(&env, "lichess-42")).unwrap();
    assert_eq!(id.to_vec(), b"lichess-42".to_vec());
    assert!(GameId::from_text(&String::from_str(&env, "")).is_none());
    let bytes: Vec<u8> = (128..192).collect();
    let id = GameId::from_text(&String::from_bytes(&env, &bytes)).unwrap();
    assert_eq!(id.to_vec(), bytes);
    let long = String::from_bytes(&env, &[1; 65]);
    assert!(GameId::from_text(&long).is_none());
}

#[test]
fn first_page() {
    let env = Env::default();
    assert_eq!(ids(&env, Some(5), 0, 3), vec![0, 1, 2]);
}

#[test]
fn last_page_is_short() {
    let env = Env::default();
    assert_eq!(ids(&env, Some(5), 3, 3), vec![3, 4]);
}

#[test]
fn page_past_the_end_is_empty() {
    let env = Env::default();
    assert_eq!(ids(&env, Some(5), 5, 3), Vec::<u64>::new());
    assert_eq!(ids(&env, Some(5), u64::MAX, 3), Vec::<u64>::new());
    assert_eq!(ids(&env, Some(5), 0, 0), Vec::<u64>::new());
    assert_eq!(ids(&env, None, 0, 10), Vec::<u64>::new());
}

#[test]
fn page_holds_at_most_100_ids() {
    let env = Env::default();
    let page = ids(&env, Some(250), 95, 200);
    assert_eq!(page, (95..195).collect::<Vec<u64>>());
}

#[test]
fn page_at_the_greatest_ids() {
    let env = Env::default();
    let page = ids(&env, Some(u64::MAX), u64::MAX - 2, 10);
    assert_eq!(page, vec![u64::MAX - 2, u64::MAX - 1]);
}

#[test]
fn pages_cover_every_id_once() {
    let env = Env::default();
    let mut seen = Vec::new();
    loop {
        let page = ids(&env, Some(17), seen.len() as u64, 5);
        seen.extend(page.iter().copied());
        if page.len() < 5 {
            break;
        }
    }
    assert_eq!(seen, (0..17).collect::<Vec<u64>>());
}

#[test]
fn reading_the_instance_record() {
    let mut instance = instance_with(None);
    assert!(!EscrowContract::is_paused(&instance));
    assert!(!EscrowContract::is_initialized(&instance));
    assert_eq!(EscrowContract::get_match_count(&instance), 0);
    instance.paused = Some(true);
    instance.match_count = Some(2);
    instance.oracle = Some(address(b'O'));
    assert!(EscrowContract::is_paused(&instance));
    assert!(EscrowContract::is_initialized(&instance));
    assert_eq!(EscrowContract::get_match_count(&instance), 2);
    assert_eq!(EscrowContract::validate_match_id(&instance, 1), Ok(()));
    assert_eq!(
        EscrowContract::validate_match_id(&instance, 2),
        Err(Error::MatchNotFound)
    );
}

#[test]
fn events_have_their_topics() {
    let a = address(b'A');
    let game_id = GameId::new(b"g").unwrap();
    let cases = vec![
        (
            Event::OracleUpdated { old_oracle: a, new_oracle: a, admin: a },
            ("admin", "oracle_updated"),
        ),
        (Event::AdminTransferred { old_admin: a, new_admin: a }, ("admin", "transfer")),
        (Event::Paused { admin: a, sequence: 1 }, ("admin", "paused")),
        (Event::Unpaused { admin: a, sequence: 1 }, ("admin", "unpaused")),
        (
            Event::MatchCreated {
                match_id: 0,
                player1: a,
                player2: a,
                stake_amount: 1,
                game_id,
            },
            ("match", "created"),
        ),
        (Event::MatchActivated { match_id: 0 }, ("match", "activated")),
        (
            Event::Deposited { match_id: 0, player: a, amount: 1, side: Side::Player1 },
            ("match", "deposit"),
        ),
        (
            Event::ResultPending { match_id: 0, winner: Winner::Draw, sequence: 1 },
            ("oracle", "pending"),
        ),
        (
            Event::ResultOverridden { match_id: 0, old_winner: None, new_winner: Winner::Draw },
            ("oracle", "overridn"),
        ),
        (
            Event::MatchCompleted { match_id: 0, winner: Winner::Draw, payout: 1 },
            ("match", "completed"),
        ),
        (Event::MatchTimedOut { match_id: 0, caller: a }, ("match", "timeout")),
        (
            Event::MatchCancelled {
                match_id: 0,
                caller: a,
                player1_refund: 0,
                player2_refund: 0,
            },
            ("match", "cancelled"),
        ),
        (Event::Drained { balance: 0, to: a, admin: a }, ("admin", "drain")),
    ];
    for (event, topics) in cases {
        assert_eq!(event.topics(), topics);
    }
}

#[test]
fn players_have_their_labels() {
    assert_eq!(Side::Player1.label(), "player1");
    assert_eq!(Side::Player2.label(), "player2");
}

#[test]
fn only_a_refused_stake_transfer_is_an_error() {
    let a = address(b'A');
    let collect = Effect::Collect { token: a, from: a, amount: 1 };
    let refund = Effect::Refund { token: a, to: a, amount: 1 };
    let pay = Effect::Pay { token: a, to: a, amount: 1 };
    assert_eq!(collect.on_failure(), Some(Error::TransferFailed));
    assert_eq!(refund.on_failure(), Some(Error::TransferFailed));
    assert_eq!(pay.on_failure(), None);
    assert_eq!(Effect::ReadDecimals { token: a }.on_failure(), None);
}
