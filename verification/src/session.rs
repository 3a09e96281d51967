//! One user's session: its record, its status, and the transitions the
//! coordinator applies to it.

use vstd::prelude::*;

use crate::ids::MessageId;
use crate::protocol::{winning_positions, GameStatus, WordleEvent};

verus! {

/// A game ends in a loss after this many guesses without a win.
pub const MAX_TRIES: u8 = 5;

/// Where a session stands in the request/reply exchange.
#[derive(PartialEq, Debug)]
pub enum SessionStatus {
    /// No game has been played yet.
    Init,
    /// A game is running and the next guess is awaited.
    WaitUserInput,
    /// A start request is with the evaluator; its acknowledgment is awaited.
    WaitWordleStartReply,
    /// A guess is with the evaluator; its feedback is awaited.
    WaitWordleCheckWordReply,
    /// Transient carrier for a reply being consumed; never stored.
    ReplyReceived(WordleEvent),
    /// The game finished; a new one may be started.
    GameOver(GameStatus),
}

/// A status the store may hold between invocations.
pub open spec fn storable(st: SessionStatus) -> bool {
    !(st matches SessionStatus::ReplyReceived(_))
}

/// The session is blocked on an evaluator reply.
pub open spec fn is_wait_reply(st: SessionStatus) -> bool {
    st matches SessionStatus::WaitWordleStartReply || st
        matches SessionStatus::WaitWordleCheckWordReply
}

impl Clone for SessionStatus {
    fn clone(&self) -> (r: Self)
        ensures
            storable(*self) ==> r == *self,
    {
        match self {
            SessionStatus::Init => SessionStatus::Init,
            SessionStatus::WaitUserInput => SessionStatus::WaitUserInput,
            SessionStatus::WaitWordleStartReply => SessionStatus::WaitWordleStartReply,
            SessionStatus::WaitWordleCheckWordReply => SessionStatus::WaitWordleCheckWordReply,
            SessionStatus::ReplyReceived(e) => SessionStatus::ReplyReceived(e.clone()),
            SessionStatus::GameOver(g) => SessionStatus::GameOver(*g),
        }
    }
}

impl Default for SessionStatus {
    fn default() -> (r: Self)
        ensures
            r == SessionStatus::Init,
    {
        SessionStatus::Init
    }
}

/// The record the coordinator keeps for one user.
#[derive(PartialEq, Debug)]
pub struct SessionInfo {
    /// Id of the inbound action that initiated the current wait.
    pub session_id: MessageId,
    /// Id of the originating user request; the final reply targets it.
    pub original_msg_id: MessageId,
    /// Id of the outbound request to the evaluator; a reply is accepted
    /// only when it correlates with this id.
    pub send_to_wordle_msg_id: MessageId,
    /// Guesses consumed so far in the running game.
    pub tries: u8,
    pub session_status: SessionStatus,
}

/// Every stored record satisfies this: its status is storable, the try
/// counter is bounded, and a session that still accepts guesses has a
/// guess left.
pub open spec fn session_ok(info: SessionInfo) -> bool {
    &&& storable(info.session_status)
    &&& info.tries <= MAX_TRIES
    &&& (info.session_status matches SessionStatus::WaitUserInput || info.session_status
        matches SessionStatus::WaitWordleStartReply) ==> info.tries < MAX_TRIES
}

impl SessionInfo {
    pub fn is_wait_reply_status(&self) -> (r: bool)
        ensures
            r == is_wait_reply(self.session_status),
    {
        matches!(
            self.session_status,
            SessionStatus::WaitWordleCheckWordReply | SessionStatus::WaitWordleStartReply
        )
    }
}

impl Clone for SessionInfo {
    fn clone(&self) -> (r: Self)
        ensures
            storable(self.session_status) ==> r == *self,
    {
        SessionInfo {
            session_id: self.session_id,
            original_msg_id: self.original_msg_id,
            send_to_wordle_msg_id: self.send_to_wordle_msg_id,
            tries: self.tries,
            session_status: self.session_status.clone(),
        }
    }
}

impl Default for SessionInfo {
    fn default() -> (r: Self)
        ensures
            r.session_id.id == 0,
            r.original_msg_id.id == 0,
            r.send_to_wordle_msg_id.id == 0,
            r.tries == 0,
            r.session_status == SessionStatus::Init,
    {
        SessionInfo {
            session_id: MessageId { id: 0 },
            original_msg_id: MessageId { id: 0 },
            send_to_wordle_msg_id: MessageId { id: 0 },
            tries: 0,
            session_status: SessionStatus::Init,
        }
    }
}

/// The record a freshly started game gets: the start action initiates the
/// wait, no guess is consumed yet, and the start acknowledgment is awaited.
pub open spec fn start_session(msg_id: MessageId, outbound_msg_id: MessageId) -> SessionInfo {
    SessionInfo {
        session_id: msg_id,
        original_msg_id: msg_id,
        send_to_wordle_msg_id: outbound_msg_id,
        tries: 0,
        session_status: SessionStatus::WaitWordleStartReply,
    }
}

/// The record after a guess is forwarded: the guess action initiates the
/// new wait, one more try is consumed, and the feedback is awaited.
pub open spec fn guess_session(
    prev: SessionInfo,
    msg_id: MessageId,
    outbound_msg_id: MessageId,
) -> SessionInfo {
    SessionInfo {
        session_id: msg_id,
        original_msg_id: msg_id,
        send_to_wordle_msg_id: outbound_msg_id,
        tries: (prev.tries + 1) as u8,
        session_status: SessionStatus::WaitWordleCheckWordReply,
    }
}

/// The status a correlated evaluator reply leaves the session in: a start
/// acknowledgment opens the game for input; feedback either wins the game,
/// loses it when the last try is spent, or returns to awaiting input.
pub open spec fn reply_status(prev: SessionInfo, e: WordleEvent) -> SessionStatus {
    match e {
        WordleEvent::GameStarted { .. } => SessionStatus::WaitUserInput,
        WordleEvent::WordChecked { correct_positions, .. } => {
            if correct_positions@ == winning_positions() {
                SessionStatus::GameOver(GameStatus::Win)
            } else if prev.tries >= MAX_TRIES {
                SessionStatus::GameOver(GameStatus::Lose)
            } else {
                SessionStatus::WaitUserInput
            }
        },
    }
}

/// The record after a correlated evaluator reply: only the status moves.
pub open spec fn replied_session(prev: SessionInfo, e: WordleEvent) -> SessionInfo {
    SessionInfo { session_status: reply_status(prev, e), ..prev }
}

/// The record after the timeout fallback fires: the game is forfeited.
pub open spec fn timed_out_session(prev: SessionInfo) -> SessionInfo {
    SessionInfo { session_status: SessionStatus::GameOver(GameStatus::Lose), ..prev }
}

} // verus!
