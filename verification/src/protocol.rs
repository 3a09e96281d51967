//! Message payloads exchanged with users and with the match evaluator,
//! together with guess validation and feedback interpretation.

use vstd::prelude::*;
use vstd::string::StrSliceExecFns;

use crate::ids::{ActorId, MessageId};

verus! {

/// A guess must be exactly this many letters long.
pub const WORD_LEN: usize = 5;

/// Terminal outcome of a finished game.
#[derive(Clone, Copy, PartialEq, Eq, Structural, Debug)]
pub enum GameStatus {
    Win,
    Lose,
}

/// Rejection of an inbound action; the triggering action has no other effect.
#[derive(Clone, Copy, PartialEq, Eq, Structural, Debug)]
pub enum GamesSessionError {
    /// The configured evaluator identity is the reserved zero id.
    InvalidInitConfig,
    /// A start request arrived while the user's game is still running.
    AlreadyInProgress,
    /// The user has no running session to act on.
    NoActiveSession,
    /// The session is waiting for the evaluator; new requests are not queued.
    AwaitingReply,
    /// The guess is not exactly five ASCII letters.
    InvalidWord,
}

/// An action a user addresses to the coordinator.
#[derive(Clone, PartialEq, Debug)]
pub enum GamesSessionAction {
    StartGame,
    CheckWord { word: String },
    CheckGameStatus { user: ActorId, session_id: MessageId },
}

/// A request the coordinator sends to the match evaluator.
#[derive(Clone, PartialEq, Debug)]
pub enum WordleAction {
    StartGame { user: ActorId },
    CheckWord { user: ActorId, word: String },
}

/// The coordinator's reply to the originating user.
#[derive(Clone, PartialEq, Debug)]
pub enum GamesSessionResponse {
    StartSuccess,
    CheckWordResult { correct_positions: Vec<u8>, contained_in_word: Vec<u8> },
    GameOver(GameStatus),
}

/// A reply the match evaluator sends back, correlated to an earlier request.
#[derive(PartialEq, Debug)]
pub enum WordleEvent {
    GameStarted { user: ActorId },
    WordChecked { user: ActorId, correct_positions: Vec<u8>, contained_in_word: Vec<u8> },
}

/// The feedback vector that reports an exact match at every position.
pub open spec fn winning_positions() -> Seq<u8> {
    seq![0u8, 1u8, 2u8, 3u8, 4u8]
}

pub open spec fn is_ascii_letter(c: char) -> bool {
    ('a' <= c && c <= 'z') || ('A' <= c && c <= 'Z')
}

/// A guess is accepted when it is exactly `WORD_LEN` ASCII letters.
pub open spec fn valid_word(w: Seq<char>) -> bool {
    w.len() == WORD_LEN && (forall|i: int| 0 <= i < w.len() ==> is_ascii_letter(#[trigger] w[i]))
}

/// Decides whether a guess passes length and charset validation.
pub fn is_valid_word(word: &str) -> (r: bool)
    ensures
        r == valid_word(word@),
{
    let n = word.unicode_len();
    if n != WORD_LEN {
        return false;
    }
    let mut i: usize = 0;
    while i < n
        invariant
            n == word@.len(),
            n == WORD_LEN,
            0 <= i <= n,
            forall|j: int| 0 <= j < i ==> is_ascii_letter(#[trigger] word@[j]),
        decreases n - i,
    {
        let c = word.get_char(i);
        if !((c >= 'a' && c <= 'z') || (c >= 'A' && c <= 'Z')) {
            assert(!is_ascii_letter(word@[i as int]));
            return false;
        }
        i += 1;
    }
    true
}

/// Copies a feedback vector; used where a reply keeps its own storage.
pub fn copy_bytes(v: &Vec<u8>) -> (r: Vec<u8>)
    ensures
        r@ == v@,
{
    let mut out: Vec<u8> = Vec::new();
    let mut i: usize = 0;
    while i < v.len()
        invariant
            0 <= i <= v@.len(),
            out@ == v@.take(i as int),
        decreases v@.len() - i,
    {
        out.push(v[i]);
        proof {
            assert(out@ =~= v@.take(i + 1 as int));
        }
        i += 1;
    }
    proof {
        assert(out@ =~= v@);
    }
    out
}

/// Compares a feedback vector with the all-positions-correct vector.
pub fn covers_all_positions(v: &Vec<u8>) -> (r: bool)
    ensures
        r == (v@ == winning_positions()),
{
    if v.len() != WORD_LEN {
        return false;
    }
    let mut i: usize = 0;
    while i < WORD_LEN
        invariant
            v@.len() == WORD_LEN,
            0 <= i <= WORD_LEN,
            forall|j: int| 0 <= j < i ==> v@[j] == winning_positions()[j],
        decreases WORD_LEN - i,
    {
        let b = v[i];
        if b != i as u8 {
            assert(v@[i as int] != winning_positions()[i as int]);
            return false;
        }
        i += 1;
    }
    proof {
        assert(v@ =~= winning_positions());
    }
    true
}

impl WordleEvent {
    /// The user whose session this reply belongs to.
    pub open spec fn user(&self) -> ActorId {
        match *self {
            WordleEvent::GameStarted { user } => user,
            WordleEvent::WordChecked { user, .. } => user,
        }
    }

    pub fn get_user(&self) -> (r: &ActorId)
        ensures
            *r == self.user(),
    {
        match self {
            WordleEvent::GameStarted { user } => user,
            WordleEvent::WordChecked { user, .. } => user,
        }
    }

    /// Whether the reported feedback is an exact match at every position.
    /// A start acknowledgment carries no feedback, so it is excluded.
    pub fn has_guessed(&self) -> (r: bool)
        requires
            *self matches WordleEvent::WordChecked { .. },
        ensures
            match *self {
                WordleEvent::WordChecked { correct_positions, .. } => r == (correct_positions@
                    == winning_positions()),
                _ => true,
            },
    {
        match self {
            WordleEvent::GameStarted { .. } => false,
            WordleEvent::WordChecked { correct_positions, .. } => covers_all_positions(
                correct_positions,
            ),
        }
    }
}

impl Clone for WordleEvent {
    fn clone(&self) -> (r: Self)
        ensures
            match *self {
                WordleEvent::GameStarted { user } => r == (WordleEvent::GameStarted { user }),
                WordleEvent::WordChecked { user, correct_positions, contained_in_word } => (r
                    matches WordleEvent::WordChecked {
                    user: u2,
                    correct_positions: cp2,
                    contained_in_word: cw2,
                } && u2 == user && cp2@ == correct_positions@ && cw2@ == contained_in_word@),
            },
    {
        match self {
            WordleEvent::GameStarted { user } => WordleEvent::GameStarted { user: *user },
            WordleEvent::WordChecked { user, correct_positions, contained_in_word } => {
                WordleEvent::WordChecked {
                    user: *user,
                    correct_positions: copy_bytes(correct_positions),
                    contained_in_word: copy_bytes(contained_in_word),
                }
            },
        }
    }
}

/// Relates a user-facing response to the evaluator reply it reports.
pub open spec fn response_of_event(r: GamesSessionResponse, e: WordleEvent) -> bool {
    match e {
        WordleEvent::GameStarted { .. } => r == GamesSessionResponse::StartSuccess,
        WordleEvent::WordChecked { correct_positions, contained_in_word, .. } => (r
            matches GamesSessionResponse::CheckWordResult {
            correct_positions: cp2,
            contained_in_word: cw2,
        } && cp2@ == correct_positions@ && cw2@ == contained_in_word@),
    }
}

impl GamesSessionResponse {
    /// The interim response that relays an evaluator reply to the user.
    pub fn of_event(event: &WordleEvent) -> (r: GamesSessionResponse)
        ensures
            response_of_event(r, *event),
    {
        match event {
            WordleEvent::GameStarted { .. } => GamesSessionResponse::StartSuccess,
            WordleEvent::WordChecked { correct_positions, contained_in_word, .. } => {
                GamesSessionResponse::CheckWordResult {
                    correct_positions: copy_bytes(correct_positions),
                    contained_in_word: copy_bytes(contained_in_word),
                }
            },
        }
    }
}

impl<'a> From<&'a WordleEvent> for GamesSessionResponse {
    fn from(event: &'a WordleEvent) -> (r: Self)
        ensures
            response_of_event(r, *event),
    {
        GamesSessionResponse::of_event(event)
    }
}

impl<'a> vstd::std_specs::convert::FromSpecImpl<&'a WordleEvent> for GamesSessionResponse {
    open spec fn obeys_from_spec() -> bool {
        false
    }

    open spec fn from_spec(v: &'a WordleEvent) -> Self {
        arbitrary()
    }
}

} // verus!
