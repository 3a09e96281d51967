//! A session coordinator for a wordle-style guessing game, organised as a
//! message-driven state machine.
//!
//! The coordinator keeps one session per user, forwards each start or guess
//! request to an external match evaluator that owns the secret word, and
//! advances the session when the correlated reply arrives.  Guesses are
//! bounded by a fixed try limit; positional feedback from the evaluator
//! decides win, loss, or continuation.  All transitions, their error cases,
//! and the isolation of sessions belonging to different users are stated in
//! contracts and proved.

pub mod ids;
pub mod protocol;
pub mod session;
pub mod store;
pub mod coordinator;
pub mod laws;
