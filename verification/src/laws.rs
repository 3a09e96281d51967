//! Laws of the coordinator that relate several transitions, stated over the
//! same spec functions the handlers' contracts use.
//!
//! Single-transition laws — a permitted start resets the try counter, a
//! start during a running game is rejected unchanged, an invalid guess is
//! rejected before any try is consumed or any request issued, actions of
//! users without a record are rejected, and every mutation leaves all other
//! users' records untouched — are ensured directly on the handlers in
//! `coordinator`; the proofs here cover what spans more than one call.

use vstd::prelude::*;

use crate::coordinator::{can_start, check_word_decision};
use crate::ids::ActorId;
use crate::protocol::{winning_positions, GameStatus, GamesSessionError, WordleEvent};
use crate::session::{reply_status, SessionInfo, SessionStatus};
use crate::store::{has_session, others_unchanged, session_of};

verus! {

/// Cross-user isolation: every mutating handler ensures `others_unchanged`
/// for the user it acts for, and that relation means exactly that any other
/// user's session — whether one exists, and what it holds — reads the same
/// after the call as before.  Sessions of different users cannot affect
/// each other.
pub proof fn lemma_cross_user_isolation(
    s0: Seq<(ActorId, SessionInfo)>,
    s1: Seq<(ActorId, SessionInfo)>,
    u: ActorId,
    v: ActorId,
)
    requires
        others_unchanged(s0, s1, u),
        v != u,
    ensures
        has_session(s1, v) == has_session(s0, v),
        has_session(s0, v) ==> session_of(s1, v) == session_of(s0, v),
{
}

/// Rejections are idempotent: a rejected start leaves the store as it was,
/// so the same start against the resulting store is rejected with the same
/// error again — the state cannot drift under repeated invalid starts.
pub proof fn lemma_start_rejection_idempotent(
    s0: Seq<(ActorId, SessionInfo)>,
    s1: Seq<(ActorId, SessionInfo)>,
    u: ActorId,
)
    requires
        !can_start(s0, u),
        s1 == s0,
    ensures
        !can_start(s1, u),
{
}

/// Rejections are idempotent: a rejected guess leaves the store as it was,
/// so the same guess against the resulting store runs into the same
/// rejection again — the state cannot drift under repeated invalid guesses.
pub proof fn lemma_check_word_rejection_idempotent(
    s0: Seq<(ActorId, SessionInfo)>,
    s1: Seq<(ActorId, SessionInfo)>,
    u: ActorId,
    w: Seq<char>,
    e: GamesSessionError,
)
    requires
        check_word_decision(s0, u, w) == Some(e),
        s1 == s0,
    ensures
        check_word_decision(s1, u, w) == Some(e),
{
}

/// Win detection does not consult the try counter: feedback that reports an
/// exact match at every position wins the game from any session record,
/// even one whose last try is already spent.
pub proof fn lemma_win_regardless_of_tries(prev: SessionInfo, e: WordleEvent)
    requires
        e matches WordleEvent::WordChecked { correct_positions, .. } && correct_positions@
            == winning_positions(),
    ensures
        reply_status(prev, e) == SessionStatus::GameOver(GameStatus::Win),
{
}

} // verus!
