//! The games-session coordinator: the addressable entry point that owns the
//! session store, demultiplexes inbound actions by user, issues requests to
//! the match evaluator, and routes its asynchronous replies back into the
//! per-user state machine.
//!
//! Every handler is a pure transition over the store: the surrounding
//! runtime delivers one message at a time, performs the returned request or
//! user reply, and hands the next inbound message back in.  The contracts
//! pin each transition down exactly: which store the handler leaves behind,
//! which request or reply it returns, and on which inputs it rejects.

use vstd::prelude::*;

use crate::ids::{ActorId, MessageId};
use crate::protocol::{
    is_valid_word, valid_word, winning_positions, GameStatus, GamesSessionError,
    GamesSessionAction, GamesSessionResponse, WordleAction, WordleEvent,
};
use crate::session::{
    guess_session, is_wait_reply, replied_session, session_ok, start_session, storable,
    timed_out_session, SessionInfo, SessionStatus, MAX_TRIES,
};
use crate::store::{
    has_session, lemma_found_index, lemma_push_entry, lemma_update_entry, others_unchanged,
    session_index, session_of, sessions_ok,
};

verus! {

/// Names the coordinator's message interface as one item: it is initialized
/// with `GamesSessionInit`, answers `GamesSessionAction` with
/// `GamesSessionResponse`, and its state reads back as `GamesSessionState`.
pub struct GamesSessionMetadata;

/// Initialization parameters: the identity of the match evaluator actor.
#[derive(Clone, Copy, PartialEq, Eq, Structural, Debug)]
pub struct GamesSessionInit {
    pub wordle_program_id: ActorId,
}

impl GamesSessionInit {
    /// The evaluator identity must not be the reserved zero id.
    pub open spec fn valid(&self) -> bool {
        self.wordle_program_id.id != 0
    }

    pub fn is_valid(&self) -> (r: bool)
        ensures
            r == self.valid(),
    {
        !self.wordle_program_id.is_zero()
    }

    /// Startup aborts on an invalid configuration, so callers establish
    /// validity first; the invalid input is excluded here.
    pub fn assert_valid(&self)
        requires
            self.valid(),
    {
    }
}

impl Default for GamesSessionInit {
    fn default() -> (r: Self)
        ensures
            r.wordle_program_id.id == 0,
    {
        GamesSessionInit { wordle_program_id: ActorId { id: 0 } }
    }
}

/// The coordinator's whole state: the fixed evaluator identity and the
/// session store, one entry per user in insertion order.
pub struct GamesSession {
    pub wordle_program_id: ActorId,
    pub sessions: Vec<(ActorId, SessionInfo)>,
}

/// A full state snapshot, as handed out by the read-only state query.
#[derive(Debug, PartialEq)]
pub struct GamesSessionState {
    pub wordle_program_id: ActorId,
    pub game_sessions: Vec<(ActorId, SessionInfo)>,
}

/// What a handled action asks the runtime to do next.
#[derive(Debug, PartialEq)]
pub enum HandleOutcome {
    /// Send this request to the match evaluator; the user's reply follows
    /// once the correlated evaluator reply is processed.
    Request(WordleAction),
    /// Answer the status query immediately; nothing was mutated.
    Status(SessionStatus),
}

/// A reply owed to the user who originated the exchange.
#[derive(Debug, PartialEq)]
pub struct UserReply {
    pub user: ActorId,
    /// The user request this reply answers.
    pub original_msg_id: MessageId,
    pub response: GamesSessionResponse,
}

/// A start request is accepted while the user has no session, or a session
/// that never left `Init`, or one whose game is over.
pub open spec fn can_start(s: Seq<(ActorId, SessionInfo)>, u: ActorId) -> bool {
    ||| !has_session(s, u)
    ||| session_of(s, u).session_status matches SessionStatus::Init
    ||| session_of(s, u).session_status matches SessionStatus::GameOver(_)
}

/// How `start_game` leaves the store and what it returns.
pub open spec fn start_game_post(
    s0: Seq<(ActorId, SessionInfo)>,
    s1: Seq<(ActorId, SessionInfo)>,
    u: ActorId,
    msg_id: MessageId,
    outbound_msg_id: MessageId,
    r: Result<WordleAction, GamesSessionError>,
) -> bool {
    if can_start(s0, u) {
        &&& r matches Ok(a) && a == (WordleAction::StartGame { user: u })
        &&& (if has_session(s0, u) {
            s1 == s0.update(session_index(s0, u), (u, start_session(msg_id, outbound_msg_id)))
        } else {
            s1 == s0.push((u, start_session(msg_id, outbound_msg_id)))
        })
        &&& has_session(s1, u)
        &&& session_of(s1, u) == start_session(msg_id, outbound_msg_id)
    } else {
        &&& r matches Err(e) && e == GamesSessionError::AlreadyInProgress
        &&& s1 == s0
    }
}

/// Which rejection, if any, a guess runs into, in the order the checks are
/// made: no record, a pending exchange, a not-yet-started or finished game,
/// and last the word validation.
pub open spec fn check_word_decision(
    s: Seq<(ActorId, SessionInfo)>,
    u: ActorId,
    w: Seq<char>,
) -> Option<GamesSessionError> {
    if !has_session(s, u) {
        Some(GamesSessionError::NoActiveSession)
    } else {
        let st = session_of(s, u).session_status;
        if is_wait_reply(st) || !storable(st) {
            Some(GamesSessionError::AwaitingReply)
        } else if st matches SessionStatus::Init || st matches SessionStatus::GameOver(_) {
            Some(GamesSessionError::NoActiveSession)
        } else if !valid_word(w) {
            Some(GamesSessionError::InvalidWord)
        } else {
            None
        }
    }
}

/// How `check_word` leaves the store and what it returns.
pub open spec fn check_word_post(
    s0: Seq<(ActorId, SessionInfo)>,
    s1: Seq<(ActorId, SessionInfo)>,
    u: ActorId,
    msg_id: MessageId,
    w: Seq<char>,
    outbound_msg_id: MessageId,
    r: Result<WordleAction, GamesSessionError>,
) -> bool {
    match check_word_decision(s0, u, w) {
        Some(e) => (r matches Err(e2) && e2 == e) && s1 == s0,
        None => {
            &&& r matches Ok(a) && a matches WordleAction::CheckWord { user: u2, word: w2 } && u2
                == u && w2@ == w
            &&& s1 == s0.update(
                session_index(s0, u),
                (u, guess_session(session_of(s0, u), msg_id, outbound_msg_id)),
            )
            &&& has_session(s1, u)
            &&& session_of(s1, u) == guess_session(session_of(s0, u), msg_id, outbound_msg_id)
        },
    }
}

/// An evaluator reply is consumed only by the session of the user it names,
/// only when it answers that session's outstanding request, and only in the
/// wait state matching its kind; any other reply is dropped.
pub open spec fn reply_correlates(
    s: Seq<(ActorId, SessionInfo)>,
    replied_to: MessageId,
    e: WordleEvent,
) -> bool {
    has_session(s, e.user()) && {
        let info = session_of(s, e.user());
        info.send_to_wordle_msg_id == replied_to && match e {
            WordleEvent::GameStarted { .. } => info.session_status
                matches SessionStatus::WaitWordleStartReply,
            WordleEvent::WordChecked { .. } => info.session_status
                matches SessionStatus::WaitWordleCheckWordReply,
        }
    }
}

/// The user-facing response that reports a correlated reply: the start
/// acknowledgment, the win or the loss, or the interim feedback.
pub open spec fn response_for_reply(
    resp: GamesSessionResponse,
    prev: SessionInfo,
    e: WordleEvent,
) -> bool {
    match e {
        WordleEvent::GameStarted { .. } => resp == GamesSessionResponse::StartSuccess,
        WordleEvent::WordChecked { correct_positions, contained_in_word, .. } => {
            if correct_positions@ == winning_positions() {
                resp == GamesSessionResponse::GameOver(GameStatus::Win)
            } else if prev.tries >= MAX_TRIES {
                resp == GamesSessionResponse::GameOver(GameStatus::Lose)
            } else {
                (resp matches GamesSessionResponse::CheckWordResult {
                    correct_positions: cp2,
                    contained_in_word: cw2,
                } && cp2@ == correct_positions@ && cw2@ == contained_in_word@)
            }
        },
    }
}

/// How `handle_wordle_reply` leaves the store and what it returns.
pub open spec fn reply_post(
    s0: Seq<(ActorId, SessionInfo)>,
    s1: Seq<(ActorId, SessionInfo)>,
    replied_to: MessageId,
    e: WordleEvent,
    r: Option<UserReply>,
) -> bool {
    if reply_correlates(s0, replied_to, e) {
        &&& r matches Some(ur)
        &&& ur.user == e.user()
        &&& ur.original_msg_id == session_of(s0, e.user()).original_msg_id
        &&& response_for_reply(ur.response, session_of(s0, e.user()), e)
        &&& s1 == s0.update(
            session_index(s0, e.user()),
            (e.user(), replied_session(session_of(s0, e.user()), e)),
        )
        &&& has_session(s1, e.user())
        &&& session_of(s1, e.user()) == replied_session(session_of(s0, e.user()), e)
    } else {
        r is None && s1 == s0
    }
}

/// The timeout fallback fires only against the wait it was scheduled for:
/// the session must still be waiting on the exchange named by `session_id`.
/// A timer that outlived its exchange is stale and does nothing.
pub open spec fn timeout_applies(
    s: Seq<(ActorId, SessionInfo)>,
    u: ActorId,
    session_id: MessageId,
) -> bool {
    has_session(s, u) && session_of(s, u).session_id == session_id && is_wait_reply(
        session_of(s, u).session_status,
    )
}

/// How `handle_timeout` leaves the store and what it returns.
pub open spec fn timeout_post(
    s0: Seq<(ActorId, SessionInfo)>,
    s1: Seq<(ActorId, SessionInfo)>,
    u: ActorId,
    session_id: MessageId,
    r: Option<UserReply>,
) -> bool {
    if timeout_applies(s0, u, session_id) {
        &&& r matches Some(ur)
        &&& ur.user == u
        &&& ur.original_msg_id == session_of(s0, u).original_msg_id
        &&& ur.response == GamesSessionResponse::GameOver(GameStatus::Lose)
        &&& s1 == s0.update(session_index(s0, u), (u, timed_out_session(session_of(s0, u))))
        &&& has_session(s1, u)
        &&& session_of(s1, u) == timed_out_session(session_of(s0, u))
    } else {
        r is None && s1 == s0
    }
}

/// How the read-only status query answers.
pub open spec fn status_post(
    s: Seq<(ActorId, SessionInfo)>,
    u: ActorId,
    r: Result<SessionStatus, GamesSessionError>,
) -> bool {
    if has_session(s, u) {
        r matches Ok(st) && st == session_of(s, u).session_status
    } else {
        r matches Err(e) && e == GamesSessionError::NoActiveSession
    }
}

impl GamesSession {
    /// The store never holds two records for one user, and every record is
    /// sound: its status is storable, its try counter bounded, and a game
    /// still accepting guesses has a guess left.
    pub open spec fn wf(&self) -> bool {
        sessions_ok(self.sessions@)
    }

    /// Builds the coordinator from its initialization parameters; rejects
    /// the reserved zero evaluator identity.
    pub fn new(init: GamesSessionInit) -> (r: Result<GamesSession, GamesSessionError>)
        ensures
            match r {
                Ok(gs) => init.valid() && gs.wf() && gs.wordle_program_id
                    == init.wordle_program_id && gs.sessions@ == Seq::<
                    (ActorId, SessionInfo),
                >::empty(),
                Err(e) => !init.valid() && e == GamesSessionError::InvalidInitConfig,
            },
    {
        if init.is_valid() {
            Ok(GamesSession { wordle_program_id: init.wordle_program_id, sessions: Vec::new() })
        } else {
            Err(GamesSessionError::InvalidInitConfig)
        }
    }

    /// Index of the user's entry, if one exists.
    fn find_user(&self, user: ActorId) -> (r: Option<usize>)
        ensures
            match r {
                Some(i) => i < self.sessions@.len() && self.sessions@[i as int].0 == user,
                None => forall|j: int|
                    0 <= j < self.sessions@.len() ==> (#[trigger] self.sessions@[j]).0 != user,
            },
    {
        let mut i: usize = 0;
        while i < self.sessions.len()
            invariant
                0 <= i <= self.sessions@.len(),
                forall|j: int| 0 <= j < i ==> (#[trigger] self.sessions@[j]).0 != user,
            decreases self.sessions@.len() - i,
        {
            if self.sessions[i].0 == user {
                return Some(i);
            }
            i += 1;
        }
        None
    }

    /// Starts a game for `user`: stores a fresh record waiting on the start
    /// acknowledgment and returns the start request for the evaluator, or
    /// rejects the action when a game is already running.
    pub fn start_game(
        &mut self,
        user: ActorId,
        msg_id: MessageId,
        outbound_msg_id: MessageId,
    ) -> (r: Result<WordleAction, GamesSessionError>)
        requires
            old(self).wf(),
        ensures
            final(self).wf(),
            final(self).wordle_program_id == old(self).wordle_program_id,
            others_unchanged(old(self).sessions@, final(self).sessions@, user),
            start_game_post(
                old(self).sessions@,
                final(self).sessions@,
                user,
                msg_id,
                outbound_msg_id,
                r,
            ),
    {
        let ghost s0 = self.sessions@;
        let info = SessionInfo {
            session_id: msg_id,
            original_msg_id: msg_id,
            send_to_wordle_msg_id: outbound_msg_id,
            tries: 0,
            session_status: SessionStatus::WaitWordleStartReply,
        };
        match self.find_user(user) {
            Some(i) => {
                proof {
                    lemma_found_index(s0, user, i as int);
                }
                let startable = matches!(
                    self.sessions[i].1.session_status,
                    SessionStatus::Init | SessionStatus::GameOver(_)
                );
                if startable {
                    proof {
                        lemma_update_entry(s0, i as int, info);
                    }
                    self.sessions[i] = (user, info);
                    Ok(WordleAction::StartGame { user })
                } else {
                    Err(GamesSessionError::AlreadyInProgress)
                }
            },
            None => {
                proof {
                    if has_session(s0, user) {
                        let j = session_index(s0, user);
                        assert(0 <= j < s0.len() && s0[j].0 == user);
                    }
                    lemma_push_entry(s0, user, info);
                }
                self.sessions.push((user, info));
                Ok(WordleAction::StartGame { user })
            },
        }
    }

    /// Accepts a guess for `user`'s running game: consumes a try, stores
    /// the record waiting on the feedback, and returns the check request
    /// for the evaluator; or rejects the action, leaving the store as it
    /// was, with the error `check_word_decision` names.
    pub fn check_word(
        &mut self,
        user: ActorId,
        msg_id: MessageId,
        word: String,
        outbound_msg_id: MessageId,
    ) -> (r: Result<WordleAction, GamesSessionError>)
        requires
            old(self).wf(),
        ensures
            final(self).wf(),
            final(self).wordle_program_id == old(self).wordle_program_id,
            others_unchanged(old(self).sessions@, final(self).sessions@, user),
            check_word_post(
                old(self).sessions@,
                final(self).sessions@,
                user,
                msg_id,
                word@,
                outbound_msg_id,
                r,
            ),
    {
        let ghost s0 = self.sessions@;
        match self.find_user(user) {
            None => {
                proof {
                    if has_session(s0, user) {
                        let j = session_index(s0, user);
                        assert(0 <= j < s0.len() && s0[j].0 == user);
                    }
                }
                Err(GamesSessionError::NoActiveSession)
            },
            Some(i) => {
                proof {
                    lemma_found_index(s0, user, i as int);
                }
                if self.sessions[i].1.is_wait_reply_status() || matches!(
                    self.sessions[i].1.session_status,
                    SessionStatus::ReplyReceived(_)
                ) {
                    Err(GamesSessionError::AwaitingReply)
                } else if matches!(
                    self.sessions[i].1.session_status,
                    SessionStatus::Init | SessionStatus::GameOver(_)
                ) {
                    Err(GamesSessionError::NoActiveSession)
                } else if !is_valid_word(word.as_str()) {
                    Err(GamesSessionError::InvalidWord)
                } else {
                    proof {
                        assert(session_ok(s0[i as int].1));
                    }
                    let tries = self.sessions[i].1.tries;
                    let info = SessionInfo {
                        session_id: msg_id,
                        original_msg_id: msg_id,
                        send_to_wordle_msg_id: outbound_msg_id,
                        tries: tries + 1,
                        session_status: SessionStatus::WaitWordleCheckWordReply,
                    };
                    proof {
                        lemma_update_entry(s0, i as int, info);
                    }
                    self.sessions[i] = (user, info);
                    Ok(WordleAction::CheckWord { user, word })
                }
            },
        }
    }

    /// Answers the read-only status query for `user` without mutating
    /// anything; a user with no record is rejected.
    pub fn check_game_status(&self, user: ActorId) -> (r: Result<
        SessionStatus,
        GamesSessionError,
    >)
        requires
            self.wf(),
        ensures
            status_post(self.sessions@, user, r),
    {
        let ghost s0 = self.sessions@;
        match self.find_user(user) {
            None => {
                proof {
                    if has_session(s0, user) {
                        let j = session_index(s0, user);
                        assert(0 <= j < s0.len() && s0[j].0 == user);
                    }
                }
                Err(GamesSessionError::NoActiveSession)
            },
            Some(i) => {
                proof {
                    lemma_found_index(s0, user, i as int);
                    assert(session_ok(s0[i as int].1));
                }
                Ok(self.sessions[i].1.session_status.clone())
            },
        }
    }

    /// Consumes an evaluator reply: locates the session whose outstanding
    /// request the reply answers and applies the transition — the start
    /// acknowledgment opens the game, feedback wins it, loses it on the
    /// last try, or reports interim results.  An uncorrelated reply is
    /// dropped and nothing changes.
    pub fn handle_wordle_reply(&mut self, replied_to: MessageId, event: WordleEvent) -> (r: Option<
        UserReply,
    >)
        requires
            old(self).wf(),
        ensures
            final(self).wf(),
            final(self).wordle_program_id == old(self).wordle_program_id,
            others_unchanged(old(self).sessions@, final(self).sessions@, event.user()),
            reply_post(old(self).sessions@, final(self).sessions@, replied_to, event, r),
    {
        let ghost s0 = self.sessions@;
        let user = *event.get_user();
        match self.find_user(user) {
            None => {
                proof {
                    if has_session(s0, user) {
                        let j = session_index(s0, user);
                        assert(0 <= j < s0.len() && s0[j].0 == user);
                    }
                }
                None
            },
            Some(i) => {
                proof {
                    lemma_found_index(s0, user, i as int);
                    assert(session_ok(s0[i as int].1));
                }
                let correlated = self.sessions[i].1.send_to_wordle_msg_id == replied_to
                    && match &event {
                    WordleEvent::GameStarted { .. } => matches!(
                        self.sessions[i].1.session_status,
                        SessionStatus::WaitWordleStartReply
                    ),
                    WordleEvent::WordChecked { .. } => matches!(
                        self.sessions[i].1.session_status,
                        SessionStatus::WaitWordleCheckWordReply
                    ),
                };
                if !correlated {
                    return None;
                }
                let session_id = self.sessions[i].1.session_id;
                let original_msg_id = self.sessions[i].1.original_msg_id;
                let send_id = self.sessions[i].1.send_to_wordle_msg_id;
                let tries = self.sessions[i].1.tries;
                let (new_status, response): (SessionStatus, GamesSessionResponse) = match event {
                    WordleEvent::GameStarted { .. } => (
                        SessionStatus::WaitUserInput,
                        GamesSessionResponse::StartSuccess,
                    ),
                    WordleEvent::WordChecked { user: _, correct_positions, contained_in_word } => {
                        if crate::protocol::covers_all_positions(&correct_positions) {
                            (
                                SessionStatus::GameOver(GameStatus::Win),
                                GamesSessionResponse::GameOver(GameStatus::Win),
                            )
                        } else if tries >= MAX_TRIES {
                            (
                                SessionStatus::GameOver(GameStatus::Lose),
                                GamesSessionResponse::GameOver(GameStatus::Lose),
                            )
                        } else {
                            (
                                SessionStatus::WaitUserInput,
                                GamesSessionResponse::CheckWordResult {
                                    correct_positions,
                                    contained_in_word,
                                },
                            )
                        }
                    },
                };
                let info = SessionInfo {
                    session_id,
                    original_msg_id,
                    send_to_wordle_msg_id: send_id,
                    tries,
                    session_status: new_status,
                };
                proof {
                    lemma_update_entry(s0, i as int, info);
                }
                self.sessions[i] = (user, info);
                Some(UserReply { user, original_msg_id, response })
            },
        }
    }

    /// Applies the timeout fallback for the exchange named by `session_id`:
    /// a session still waiting on it is forced to a loss and the user is
    /// told; a stale or unknown timer does nothing.
    pub fn handle_timeout(&mut self, user: ActorId, session_id: MessageId) -> (r: Option<
        UserReply,
    >)
        requires
            old(self).wf(),
        ensures
            final(self).wf(),
            final(self).wordle_program_id == old(self).wordle_program_id,
            others_unchanged(old(self).sessions@, final(self).sessions@, user),
            timeout_post(old(self).sessions@, final(self).sessions@, user, session_id, r),
    {
        let ghost s0 = self.sessions@;
        match self.find_user(user) {
            None => {
                proof {
                    if has_session(s0, user) {
                        let j = session_index(s0, user);
                        assert(0 <= j < s0.len() && s0[j].0 == user);
                    }
                }
                None
            },
            Some(i) => {
                proof {
                    lemma_found_index(s0, user, i as int);
                    assert(session_ok(s0[i as int].1));
                }
                let still_waiting = self.sessions[i].1.session_id == session_id
                    && self.sessions[i].1.is_wait_reply_status();
                if !still_waiting {
                    return None;
                }
                let original_msg_id = self.sessions[i].1.original_msg_id;
                let send_id = self.sessions[i].1.send_to_wordle_msg_id;
                let tries = self.sessions[i].1.tries;
                let info = SessionInfo {
                    session_id,
                    original_msg_id,
                    send_to_wordle_msg_id: send_id,
                    tries,
                    session_status: SessionStatus::GameOver(GameStatus::Lose),
                };
                proof {
                    lemma_update_entry(s0, i as int, info);
                }
                self.sessions[i] = (user, info);
                Some(
                    UserReply {
                        user,
                        original_msg_id,
                        response: GamesSessionResponse::GameOver(GameStatus::Lose),
                    },
                )
            },
        }
    }

    /// Dispatches one inbound user action: a start or a guess becomes a
    /// request to the evaluator, the status query is answered in place.
    pub fn handle_action(
        &mut self,
        sender: ActorId,
        msg_id: MessageId,
        action: GamesSessionAction,
        outbound_msg_id: MessageId,
    ) -> (r: Result<HandleOutcome, GamesSessionError>)
        requires
            old(self).wf(),
        ensures
            final(self).wf(),
            final(self).wordle_program_id == old(self).wordle_program_id,
            match action {
                GamesSessionAction::StartGame => {
                    &&& others_unchanged(old(self).sessions@, final(self).sessions@, sender)
                    &&& match r {
                        Ok(o) => o matches HandleOutcome::Request(a) && start_game_post(
                            old(self).sessions@,
                            final(self).sessions@,
                            sender,
                            msg_id,
                            outbound_msg_id,
                            Ok(a),
                        ),
                        Err(e) => start_game_post(
                            old(self).sessions@,
                            final(self).sessions@,
                            sender,
                            msg_id,
                            outbound_msg_id,
                            Err(e),
                        ),
                    }
                },
                GamesSessionAction::CheckWord { word } => {
                    &&& others_unchanged(old(self).sessions@, final(self).sessions@, sender)
                    &&& match r {
                        Ok(o) => o matches HandleOutcome::Request(a) && check_word_post(
                            old(self).sessions@,
                            final(self).sessions@,
                            sender,
                            msg_id,
                            word@,
                            outbound_msg_id,
                            Ok(a),
                        ),
                        Err(e) => check_word_post(
                            old(self).sessions@,
                            final(self).sessions@,
                            sender,
                            msg_id,
                            word@,
                            outbound_msg_id,
                            Err(e),
                        ),
                    }
                },
                GamesSessionAction::CheckGameStatus { user, session_id } => {
                    &&& final(self).sessions@ == old(self).sessions@
                    &&& match r {
                        Ok(o) => o matches HandleOutcome::Status(st) && status_post(
                            old(self).sessions@,
                            user,
                            Ok(st),
                        ),
                        Err(e) => status_post(old(self).sessions@, user, Err(e)),
                    }
                },
            },
    {
        match action {
            GamesSessionAction::StartGame => {
                match self.start_game(sender, msg_id, outbound_msg_id) {
                    Ok(a) => Ok(HandleOutcome::Request(a)),
                    Err(e) => Err(e),
                }
            },
            GamesSessionAction::CheckWord { word } => {
                match self.check_word(sender, msg_id, word, outbound_msg_id) {
                    Ok(a) => Ok(HandleOutcome::Request(a)),
                    Err(e) => Err(e),
                }
            },
            GamesSessionAction::CheckGameStatus { user, session_id: _ } => {
                match self.check_game_status(user) {
                    Ok(st) => Ok(HandleOutcome::Status(st)),
                    Err(e) => Err(e),
                }
            },
        }
    }
}

/// Copies the store entry by entry; the copy is exact wherever the records
/// are sound (a well-formed store guarantees that everywhere).
fn snapshot_sessions(gs: &GamesSession) -> (r: Vec<(ActorId, SessionInfo)>)
    ensures
        sessions_ok(gs.sessions@) ==> r@ == gs.sessions@,
{
    let mut out: Vec<(ActorId, SessionInfo)> = Vec::new();
    let mut i: usize = 0;
    while i < gs.sessions.len()
        invariant
            0 <= i <= gs.sessions@.len(),
            out@.len() == i,
            sessions_ok(gs.sessions@) ==> out@ =~= gs.sessions@.take(i as int),
        decreases gs.sessions@.len() - i,
    {
        let user = gs.sessions[i].0;
        let info = gs.sessions[i].1.clone();
        out.push((user, info));
        proof {
            if sessions_ok(gs.sessions@) {
                assert(session_ok(gs.sessions@[i as int].1));
                assert(out@ =~= gs.sessions@.take(i + 1 as int));
            }
        }
        i += 1;
    }
    proof {
        if sessions_ok(gs.sessions@) {
            assert(out@ =~= gs.sessions@);
        }
    }
    out
}

impl GamesSessionState {
    /// The full snapshot of a well-formed coordinator, sessions in
    /// insertion order.
    pub fn of_session(gs: &GamesSession) -> (r: GamesSessionState)
        requires
            gs.wf(),
        ensures
            r.wordle_program_id == gs.wordle_program_id,
            r.game_sessions@ == gs.sessions@,
    {
        GamesSessionState { wordle_program_id: gs.wordle_program_id, game_sessions: snapshot_sessions(gs) }
    }
}

impl Default for GamesSession {
    fn default() -> (r: Self)
        ensures
            r.wf(),
            r.wordle_program_id.id == 0,
            r.sessions@ == Seq::<(ActorId, SessionInfo)>::empty(),
    {
        GamesSession { wordle_program_id: ActorId { id: 0 }, sessions: Vec::new() }
    }
}

impl Default for GamesSessionState {
    fn default() -> (r: Self)
        ensures
            r.wordle_program_id.id == 0,
            r.game_sessions@ == Seq::<(ActorId, SessionInfo)>::empty(),
    {
        GamesSessionState { wordle_program_id: ActorId { id: 0 }, game_sessions: Vec::new() }
    }
}

impl From<GamesSessionInit> for GamesSession {
    fn from(init: GamesSessionInit) -> (r: Self)
        ensures
            r.wf(),
            r.wordle_program_id == init.wordle_program_id,
            r.sessions@ == Seq::<(ActorId, SessionInfo)>::empty(),
    {
        GamesSession { wordle_program_id: init.wordle_program_id, sessions: Vec::new() }
    }
}

impl vstd::std_specs::convert::FromSpecImpl<GamesSessionInit> for GamesSession {
    open spec fn obeys_from_spec() -> bool {
        false
    }

    open spec fn from_spec(v: GamesSessionInit) -> Self {
        arbitrary()
    }
}

impl<'a> From<&'a GamesSession> for GamesSessionState {
    fn from(gs: &'a GamesSession) -> (r: Self)
        ensures
            gs.wf() ==> r.wordle_program_id == gs.wordle_program_id && r.game_sessions@
                == gs.sessions@,
    {
        GamesSessionState { wordle_program_id: gs.wordle_program_id, game_sessions: snapshot_sessions(gs) }
    }
}

impl<'a> vstd::std_specs::convert::FromSpecImpl<&'a GamesSession> for GamesSessionState {
    open spec fn obeys_from_spec() -> bool {
        false
    }

    open spec fn from_spec(v: &'a GamesSession) -> Self {
        arbitrary()
    }
}

} // verus!
