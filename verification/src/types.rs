//! The plain values that the rules read and write.

use crate::host::{bytes_of, read_bytes};
use vstd::prelude::*;

verus! {

/// About 30 days at 5 s per ledger. Both the threshold below which the life of a stored entry
/// is extended and what it is extended to.
pub const MATCH_TTL_LEDGERS: u32 = 518_400;

/// Greatest length of a game id, in bytes.
pub const MAX_GAME_ID_LEN: usize = 64;

/// Dispute window: about 24 hours at 5 s per ledger. A reported result can be overridden before
/// this many ledgers have elapsed, and paid out once they have.
pub const DISPUTE_WINDOW_LEDGERS: u32 = 17_280;

/// Match timeout: about 7 days at 5 s per ledger.
pub const TIMEOUT_LEDGERS: u32 = 120_960;

/// Greatest number of ids in one page of matches.
pub const MAX_LIMIT: u32 = 100;

/// Length of the text form of an address.
pub const STRKEY_LEN: usize = 56;

/// An account or a contract on the network, by the 56 characters of its text form ("strkey").
#[derive(Clone, Copy, Debug, Eq)]
pub struct Address {
    pub strkey: [u8; 56],
}

impl PartialEq for Address {
    fn eq(&self, other: &Self) -> (same: bool) {
        let mut i: usize = 0;
        while i < STRKEY_LEN
            invariant
                i <= STRKEY_LEN,
                forall|j: int| 0 <= j < i ==> self.strkey[j] == other.strkey[j],
            decreases STRKEY_LEN - i,
        {
            if self.strkey[i] != other.strkey[i] {
                return false;
            }
            i += 1;
        }
        assert(self.strkey =~= other.strkey);
        true
    }
}

impl vstd::std_specs::cmp::PartialEqSpecImpl for Address {
    open spec fn obeys_eq_spec() -> bool {
        true
    }

    open spec fn eq_spec(&self, other: &Self) -> bool {
        *self == *other
    }
}

/// The text form of the account whose key is all zeros.
pub open spec fn zero_account() -> Seq<char> {
    "GAAAAAAAAAAAAAAAAAAAAAAAAAAAAAAAAAAAAAAAAAAAAAAAAAAAAWHF"@
}

impl Address {
    /// Whether the text form is `text`.
    pub open spec fn reads(self, text: Seq<char>) -> bool {
        &&& text.len() == STRKEY_LEN
        &&& forall|i: int| 0 <= i < STRKEY_LEN ==> #[trigger] self.strkey[i] as char == text[i]
    }

    /// The address with this text form, if it is as long as one.
    pub fn from_text(text: &soroban_sdk::String) -> (address: Option<Address>)
        ensures
            address is Some <==> bytes_of(*text).len() == STRKEY_LEN,
            address matches Some(a) ==> a.strkey@ == bytes_of(*text),
    {
        let bytes = read_bytes(text);
        if bytes.len() != STRKEY_LEN {
            return None;
        }
        let mut strkey: [u8; 56] = [0u8; 56];
        let mut i: usize = 0;
        while i < STRKEY_LEN
            invariant
                i <= STRKEY_LEN == bytes.len(),
                forall|j: int| 0 <= j < i ==> strkey[j] == bytes[j],
            decreases STRKEY_LEN - i,
        {
            strkey[i] = bytes[i];
            i += 1;
        }
        assert(strkey@ =~= bytes@);
        Some(Address { strkey })
    }

    /// Whether this is the zero account, which nobody can sign for.
    pub fn is_zero_account(&self) -> (zero: bool)
        ensures
            zero == self.reads(zero_account()),
    {
        let text = "GAAAAAAAAAAAAAAAAAAAAAAAAAAAAAAAAAAAAAAAAAAAAAAAAAAAAWHF";
        proof {
            reveal_strlit("GAAAAAAAAAAAAAAAAAAAAAAAAAAAAAAAAAAAAAAAAAAAAAAAAAAAAWHF");
        }
        let mut i: usize = 0;
        while i < STRKEY_LEN
            invariant
                i <= STRKEY_LEN,
                text@ == zero_account(),
                text@.len() == STRKEY_LEN,
                text.is_ascii(),
                forall|j: int| 0 <= j < i ==> #[trigger] self.strkey[j] as char == text@[j],
            decreases STRKEY_LEN - i,
        {
            if self.strkey[i] as char != text.get_char(i) {
                return false;
            }
            i += 1;
        }
        true
    }
}

/// The name that a chess platform gives to a game: between 1 and 64 bytes.
#[derive(Clone, Copy, Debug, PartialEq, Eq)]
pub struct GameId {
    len: usize,
    bytes: [u8; 64],
}

impl View for GameId {
    type V = Seq<u8>;

    closed spec fn view(&self) -> Seq<u8> {
        self.bytes@.take(self.len as int)
    }
}

/// Whether `raw` can be a game id.
pub open spec fn is_game_id(raw: Seq<u8>) -> bool {
    1 <= raw.len() <= MAX_GAME_ID_LEN
}

impl GameId {
    /// What lies past the end is zero, so that two ids with the same bytes are the same value.
    #[verifier::type_invariant]
    spec fn well_formed(self) -> bool {
        &&& 1 <= self.len <= 64
        &&& forall|i: int| self.len <= i < 64 ==> self.bytes[i] == 0
    }

    /// The game id with these bytes, if they can be one.
    pub fn new(raw: &[u8]) -> (id: Option<GameId>)
        ensures
            id is Some <==> is_game_id(raw@),
            id matches Some(g) ==> g@ == raw@,
    {
        if raw.len() == 0 || raw.len() > MAX_GAME_ID_LEN {
            return None;
        }
        let mut bytes: [u8; 64] = [0u8; 64];
        let mut i: usize = 0;
        while i < raw.len()
            invariant
                i <= raw.len() <= 64,
                forall|j: int| 0 <= j < i ==> bytes[j] == raw[j],
                forall|j: int| i <= j < 64 ==> bytes[j] == 0,
            decreases raw.len() - i,
        {
            bytes[i] = raw[i];
            i += 1;
        }
        let id = GameId { len: raw.len(), bytes };
        assert(id@ =~= raw@);
        Some(id)
    }

    /// The game id that a host string holds, if it can be one.
    pub fn from_text(text: &soroban_sdk::String) -> (id: Option<GameId>)
        ensures
            id is Some <==> is_game_id(bytes_of(*text)),
            id matches Some(g) ==> g@ == bytes_of(*text),
    {
        GameId::new(&read_bytes(text))
    }

    /// Whether this is the game id with these bytes.
    pub fn is(&self, raw: &[u8]) -> (same: bool)
        ensures
            same == (self@ == raw@),
    {
        proof {
            use_type_invariant(self);
        }
        if raw.len() != self.len {
            return false;
        }
        let mut i: usize = 0;
        while i < raw.len()
            invariant
                i <= raw.len() == self.len <= 64,
                forall|j: int| 0 <= j < i ==> self.bytes[j] == raw[j],
            decreases raw.len() - i,
        {
            if self.bytes[i] != raw[i] {
                assert(self@[i as int] != raw@[i as int]);
                return false;
            }
            i += 1;
        }
        assert(self@ =~= raw@);
        true
    }

    /// The bytes of the game id.
    pub fn to_vec(&self) -> (raw: Vec<u8>)
        ensures
            raw@ == self@,
            is_game_id(raw@),
    {
        proof {
            use_type_invariant(self);
        }
        let mut raw: Vec<u8> = Vec::new();
        let mut i: usize = 0;
        while i < self.len
            invariant
                i <= self.len,
                1 <= self.len <= 64,
                raw@ == self.bytes@.take(i as int),
            decreases self.len - i,
        {
            raw.push(self.bytes[i]);
            i += 1;
        }
        raw
    }
}

/// The chess platform that hosts a game.
#[derive(Clone, Copy, Debug, PartialEq, Eq, Structural)]
pub enum Platform {
    Lichess,
    ChessDotCom,
}

/// How a game ended.
#[derive(Clone, Copy, Debug, PartialEq, Eq, Structural)]
pub enum Winner {
    Player1,
    Player2,
    Draw,
}

/// Which of the two players.
#[derive(Clone, Copy, Debug, PartialEq, Eq, Structural)]
pub enum Side {
    Player1,
    Player2,
}

/// Where a match stands in its life.
#[derive(Clone, Copy, Debug, PartialEq, Eq, Structural)]
pub enum MatchState {
    /// Created; at least one deposit is missing.
    Pending,
    /// Both stakes are held.
    Active,
    /// The oracle has reported; the result can still be disputed or waits for its payout.
    PendingResult,
    /// Paid out.
    Completed,
    /// Called off; every stake has been returned.
    Cancelled,
}

/// The full record of one match.
#[derive(Clone, Copy, Debug, PartialEq, Eq)]
pub struct Match {
    pub id: u64,
    pub player1: Address,
    pub player2: Address,
    pub stake_amount: i128,
    pub token: Address,
    pub game_id: GameId,
    pub platform: Platform,
    pub state: MatchState,
    pub player1_deposited: bool,
    pub player2_deposited: bool,
    pub created_ledger: u32,
    pub activated_ledger: u32,
    pub pending_result_ledger: u32,
    pub pending_winner: Option<Winner>,
    pub cancelled_ledger: Option<u32>,
    pub completed_ledger: Option<u32>,
}

/// What the contract's instance storage holds: for each key its value, or `None` where it was
/// never set.
#[derive(Clone, Copy, Debug, PartialEq, Eq)]
pub struct Instance {
    pub oracle: Option<Address>,
    pub admin: Option<Address>,
    pub token: Option<Address>,
    pub match_count: Option<u64>,
    pub paused: Option<bool>,
}

/// The key of an entry in the contract's persistent storage.
#[derive(Clone, Copy, Debug, PartialEq, Eq)]
pub enum DataKey {
    /// The record of a match.
    Match(u64),
    /// The id of the match that is played under a game id.
    GameId(GameId),
}

} // verus!
