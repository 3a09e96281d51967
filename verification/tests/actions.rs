//! Single-action behaviour: validation, rejections and their idempotence,
//! cross-user isolation, the dispatcher, and the small protocol helpers.

use gamessession::coordinator::{
    GamesSession, GamesSessionInit, GamesSessionState, HandleOutcome,
};
use gamessession::ids::{ActorId, MessageId};
use gamessession::protocol::{
    covers_all_positions, is_valid_word, GameStatus, GamesSessionAction, GamesSessionError,
    GamesSessionResponse, WordleAction, WordleEvent,
};
use gamessession::session::{SessionInfo, SessionStatus};

fn new_session() -> GamesSession {
    let init = GamesSessionInit { wordle_program_id: ActorId::new(2) };
    GamesSession::new(init).unwrap()
}

fn uid(n: u64) -> ActorId {
    ActorId::new(n)
}

fn mid(n: u64) -> MessageId {
    MessageId::new(n)
}

fn started(gs: &mut GamesSession, user: ActorId, msg_id: u64) {
    let out_id = mid(msg_id + 1000);
    gs.start_game(user, mid(msg_id), out_id).unwrap();
    gs.handle_wordle_reply(out_id, WordleEvent::GameStarted { user }).unwrap();
}

#[test]
fn init_rejects_zero_identity() {
    let init = GamesSessionInit { wordle_program_id: ActorId::zero() };
    assert!(!init.is_valid());
    let r = GamesSession::new(init);
    assert!(matches!(r, Err(GamesSessionError::InvalidInitConfig)));

    let good = GamesSessionInit { wordle_program_id: ActorId::new(9) };
    let gs = GamesSession::new(good).unwrap();
    assert_eq!(gs.wordle_program_id, ActorId::new(9));
    assert!(gs.sessions.is_empty());

    let from_init = GamesSession::from(good);
    assert_eq!(from_init.wordle_program_id, ActorId::new(9));
    assert!(from_init.sessions.is_empty());
}

#[test]
fn word_validation_is_length_and_charset() {
    assert!(is_valid_word("house"));
    assert!(is_valid_word("HUMAN"));
    assert!(!is_valid_word(""));
    assert!(!is_valid_word("hous"));
    assert!(!is_valid_word("houses"));
    assert!(!is_valid_word("hous3"));
    assert!(!is_valid_word("hou e"));
    assert!(!is_valid_word("hous\u{e9}"));
}

#[test]
fn invalid_guess_is_rejected_without_consuming_a_try() {
    let mut gs = new_session();
    let user = uid(50);
    started(&mut gs, user, 1);

    for w in ["hous", "houses", "hou5e", ""] {
        let before = GamesSessionState::of_session(&gs);
        let r = gs.check_word(user, mid(7), w.to_string(), mid(1007));
        assert_eq!(r, Err(GamesSessionError::InvalidWord));
        let after = GamesSessionState::of_session(&gs);
        assert_eq!(before, after);
        assert_eq!(gs.sessions[0].1.tries, 0);
    }
}

#[test]
fn rejection_is_idempotent() {
    let mut gs = new_session();
    let user = uid(50);
    started(&mut gs, user, 1);

    // the same invalid guess twice: same error, no state drift
    let first = gs.check_word(user, mid(2), "no".to_string(), mid(1002));
    let snap1 = GamesSessionState::of_session(&gs);
    let second = gs.check_word(user, mid(3), "no".to_string(), mid(1003));
    let snap2 = GamesSessionState::of_session(&gs);
    assert_eq!(first, Err(GamesSessionError::InvalidWord));
    assert_eq!(first, second);
    assert_eq!(snap1, snap2);

    // the same premature start twice, likewise
    let first = gs.start_game(user, mid(4), mid(1004));
    let snap1 = GamesSessionState::of_session(&gs);
    let second = gs.start_game(user, mid(5), mid(1005));
    let snap2 = GamesSessionState::of_session(&gs);
    assert_eq!(first, Err(GamesSessionError::AlreadyInProgress));
    assert_eq!(first, second);
    assert_eq!(snap1, snap2);
}

#[test]
fn start_rejected_in_every_running_state() {
    let mut gs = new_session();
    let user = uid(50);

    // waiting on the start acknowledgment
    gs.start_game(user, mid(1), mid(101)).unwrap();
    assert_eq!(
        gs.start_game(user, mid(2), mid(102)),
        Err(GamesSessionError::AlreadyInProgress)
    );
    gs.handle_wordle_reply(mid(101), WordleEvent::GameStarted { user }).unwrap();

    // awaiting user input
    assert_eq!(
        gs.start_game(user, mid(3), mid(103)),
        Err(GamesSessionError::AlreadyInProgress)
    );

    // waiting on feedback
    gs.check_word(user, mid(4), "house".to_string(), mid(104)).unwrap();
    assert_eq!(
        gs.start_game(user, mid(5), mid(105)),
        Err(GamesSessionError::AlreadyInProgress)
    );
}

#[test]
fn guess_rejected_while_awaiting_reply() {
    let mut gs = new_session();
    let user = uid(50);
    gs.start_game(user, mid(1), mid(101)).unwrap();
    let r = gs.check_word(user, mid(2), "house".to_string(), mid(102));
    assert_eq!(r, Err(GamesSessionError::AwaitingReply));

    gs.handle_wordle_reply(mid(101), WordleEvent::GameStarted { user }).unwrap();
    gs.check_word(user, mid(3), "house".to_string(), mid(103)).unwrap();
    let r = gs.check_word(user, mid(4), "human".to_string(), mid(104));
    assert_eq!(r, Err(GamesSessionError::AwaitingReply));
}

#[test]
fn guess_rejected_after_game_over() {
    let mut gs = new_session();
    let user = uid(50);
    started(&mut gs, user, 1);
    gs.check_word(user, mid(2), "human".to_string(), mid(102)).unwrap();
    gs.handle_wordle_reply(
        mid(102),
        WordleEvent::WordChecked {
            user,
            correct_positions: vec![0, 1, 2, 3, 4],
            contained_in_word: vec![],
        },
    )
    .unwrap();
    let r = gs.check_word(user, mid(3), "house".to_string(), mid(103));
    assert_eq!(r, Err(GamesSessionError::NoActiveSession));
}

#[test]
fn unknown_user_is_rejected() {
    let mut gs = new_session();
    started(&mut gs, uid(50), 1);

    let stranger = uid(51);
    let r = gs.check_word(stranger, mid(2), "house".to_string(), mid(102));
    assert_eq!(r, Err(GamesSessionError::NoActiveSession));
    let r = gs.check_game_status(stranger);
    assert_eq!(r, Err(GamesSessionError::NoActiveSession));
    assert!(gs.handle_timeout(stranger, mid(2)).is_none());
}

#[test]
fn sessions_of_different_users_are_independent() {
    let mut gs = new_session();
    let alice = uid(50);
    let bob = uid(51);

    started(&mut gs, alice, 1);
    gs.start_game(bob, mid(2), mid(102)).unwrap();

    // alice guesses; bob's record is untouched
    let bob_before = gs.sessions[1].1.clone();
    gs.check_word(alice, mid(3), "house".to_string(), mid(103)).unwrap();
    assert_eq!(gs.sessions[1].0, bob);
    assert_eq!(gs.sessions[1].1, bob_before);

    // bob's acknowledgment lands; alice's record is untouched
    let alice_before = gs.sessions[0].1.clone();
    gs.handle_wordle_reply(mid(102), WordleEvent::GameStarted { user: bob }).unwrap();
    assert_eq!(gs.sessions[0].0, alice);
    assert_eq!(gs.sessions[0].1, alice_before);

    // alice times out; bob's record is untouched
    let bob_before = gs.sessions[1].1.clone();
    gs.handle_timeout(alice, mid(3)).unwrap();
    assert_eq!(gs.sessions[1].1, bob_before);
    assert_eq!(gs.check_game_status(bob), Ok(SessionStatus::WaitUserInput));
    assert_eq!(
        gs.check_game_status(alice),
        Ok(SessionStatus::GameOver(GameStatus::Lose))
    );
}

#[test]
fn dispatcher_routes_every_action() {
    let mut gs = new_session();
    let user = uid(50);

    let r = gs.handle_action(user, mid(1), GamesSessionAction::StartGame, mid(101)).unwrap();
    assert_eq!(r, HandleOutcome::Request(WordleAction::StartGame { user }));
    gs.handle_wordle_reply(mid(101), WordleEvent::GameStarted { user }).unwrap();

    let r = gs
        .handle_action(
            user,
            mid(2),
            GamesSessionAction::CheckWord { word: "house".to_string() },
            mid(102),
        )
        .unwrap();
    assert_eq!(
        r,
        HandleOutcome::Request(WordleAction::CheckWord { user, word: "house".to_string() })
    );

    let r = gs
        .handle_action(
            uid(7),
            mid(3),
            GamesSessionAction::CheckGameStatus { user, session_id: mid(2) },
            mid(103),
        )
        .unwrap();
    assert_eq!(r, HandleOutcome::Status(SessionStatus::WaitWordleCheckWordReply));

    let r = gs.handle_action(
        uid(7),
        mid(4),
        GamesSessionAction::CheckGameStatus { user: uid(7), session_id: mid(4) },
        mid(104),
    );
    assert_eq!(r, Err(GamesSessionError::NoActiveSession));
}

#[test]
fn event_reports_its_user_and_win() {
    let started_event = WordleEvent::GameStarted { user: uid(5) };
    assert_eq!(*started_event.get_user(), uid(5));

    let won = WordleEvent::WordChecked {
        user: uid(5),
        correct_positions: vec![0, 1, 2, 3, 4],
        contained_in_word: vec![],
    };
    assert_eq!(*won.get_user(), uid(5));
    assert!(won.has_guessed());

    let missed = WordleEvent::WordChecked {
        user: uid(5),
        correct_positions: vec![0, 1, 3, 4],
        contained_in_word: vec![2],
    };
    assert!(!missed.has_guessed());

    // the win check expects the canonical ascending feedback vector
    assert!(covers_all_positions(&vec![0, 1, 2, 3, 4]));
    assert!(!covers_all_positions(&vec![4, 3, 2, 1, 0]));
    assert!(!covers_all_positions(&vec![0, 1, 2, 3]));
    assert!(!covers_all_positions(&vec![0, 1, 2, 3, 4, 4]));
}

#[test]
fn response_mirrors_the_event() {
    let user = uid(5);
    let r = GamesSessionResponse::from(&WordleEvent::GameStarted { user });
    assert_eq!(r, GamesSessionResponse::StartSuccess);

    let checked = WordleEvent::WordChecked {
        user,
        correct_positions: vec![1, 2],
        contained_in_word: vec![0, 4],
    };
    let r = GamesSessionResponse::from(&checked);
    assert_eq!(
        r,
        GamesSessionResponse::CheckWordResult {
            correct_positions: vec![1, 2],
            contained_in_word: vec![0, 4],
        }
    );
    let again = checked.clone();
    assert_eq!(checked, again);
}

#[test]
fn wait_reply_status_is_exactly_the_two_waits() {
    let mut info = SessionInfo::default();
    assert_eq!(info.session_status, SessionStatus::Init);
    assert_eq!(info.tries, 0);
    assert!(!info.is_wait_reply_status());

    info.session_status = SessionStatus::WaitWordleStartReply;
    assert!(info.is_wait_reply_status());
    info.session_status = SessionStatus::WaitWordleCheckWordReply;
    assert!(info.is_wait_reply_status());
    info.session_status = SessionStatus::WaitUserInput;
    assert!(!info.is_wait_reply_status());
    info.session_status = SessionStatus::GameOver(GameStatus::Win);
    assert!(!info.is_wait_reply_status());
}
