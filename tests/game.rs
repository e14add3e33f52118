use kanjilab_server::game::{AnswerError, Game, GameState, QuestionError, QuestionOutcome};
use kanjilab_server::structures::{GameSettings, QuestionInfo};

fn settings(rounds_count: u64, round_duration: u64) -> GameSettings {
    GameSettings { rounds_count, round_duration, ..GameSettings::default() }
}

fn question(readings: &[&str]) -> QuestionInfo {
    QuestionInfo {
        readings: readings.iter().map(|r| r.to_string()).collect(),
        content: "{\"word\":\"狸\"}".to_string(),
    }
}

fn opened(outcome: Result<QuestionOutcome, QuestionError>) -> u64 {
    match outcome {
        Ok(QuestionOutcome::RoundOpened(token)) => token,
        other => panic!("round did not open: {:?}", other),
    }
}

#[test]
fn start_game_only_from_lobby() {
    let mut game = Game::new();
    assert_eq!(game.get_game_state(), GameState::Lobby);
    assert!(game.start_game(settings(3, 30)));
    assert_eq!(game.get_game_state(), GameState::GameStarting);
    assert_eq!(game.get_rounds_count(), 3);
    assert_eq!(game.get_round_duration(), 30);
    assert!(!game.start_game(settings(5, 10)));
    assert_eq!(game.get_rounds_count(), 3);
    assert_eq!(game.get_game_state(), GameState::GameStarting);
}

#[test]
fn stop_game_refused_in_lobby() {
    let mut game = Game::new();
    assert!(!game.stop_game());
    assert_eq!(game.get_game_state(), GameState::Lobby);
}

#[test]
fn round_index_advances_and_resets_on_start() {
    let mut game = Game::new();
    assert!(game.start_game(settings(3, 30)));
    assert_eq!(game.get_current_round(), 0);
    let t0 = opened(game.set_current_question(question(&["a"])));
    assert_eq!(game.get_game_state(), GameState::AnswerQuestion);
    assert!(game.on_round_timer(t0));
    assert_eq!(game.get_game_state(), GameState::WaitingQuestion);
    assert_eq!(game.get_current_round(), 1);
    let t1 = opened(game.set_current_question(question(&["b"])));
    assert!(game.on_round_timer(t1));
    assert_eq!(game.get_current_round(), 2);
    let t2 = opened(game.set_current_question(question(&["c"])));
    assert!(game.on_round_timer(t2));
    assert_eq!(game.get_game_state(), GameState::Lobby);
    assert_eq!(game.get_current_round(), 2);
    assert!(game.start_game(settings(3, 30)));
    assert_eq!(game.get_current_round(), 0);
    assert!(game.get_question_for_round(0).is_none());
}

#[test]
fn stale_timer_token_changes_nothing() {
    let mut game = Game::new();
    assert!(game.start_game(settings(2, 30)));
    let t0 = opened(game.set_current_question(question(&["a"])));
    assert!(!game.on_round_timer(t0.wrapping_add(1)));
    assert_eq!(game.get_game_state(), GameState::AnswerQuestion);
    assert!(game.on_round_timer(t0));
    assert!(!game.on_round_timer(t0));
    assert_eq!(game.get_game_state(), GameState::WaitingQuestion);
}

#[test]
fn record_answer_scores_and_rejects_duplicates() {
    let mut game = Game::new();
    assert!(matches!(game.record_answer("b", "tanuki", 5), Err(AnswerError::NoCurrentQuestion)));
    assert!(game.start_game(settings(3, 30)));
    assert!(matches!(game.record_answer("b", "tanuki", 5), Err(AnswerError::NoCurrentQuestion)));
    opened(game.set_current_question(question(&["tanuki", "ri"])));
    assert!(matches!(game.record_answer("b", "tanuki", 7), Ok(true)));
    assert!(matches!(game.record_answer("b", "tanuki", 8), Err(AnswerError::AlreadyAnswered)));
    assert!(matches!(game.record_answer("c", "kitsune", 9), Ok(false)));
    let answers = game.get_answers_for_round(0);
    assert_eq!(answers.len(), 2);
    assert_eq!(answers[0].id, "b");
    assert_eq!(answers[0].answer, "tanuki");
    assert!(answers[0].is_correct);
    assert_eq!(answers[0].answer_time, 7);
    assert_eq!(answers[1].id, "c");
    assert!(!answers[1].is_correct);
    assert!(game.get_answers_for_round(1).is_empty());
}

#[test]
fn answer_matching_is_exact() {
    let mut game = Game::new();
    assert!(game.start_game(settings(1, 30)));
    opened(game.set_current_question(question(&["tanuki"])));
    assert!(matches!(game.record_answer("b", "Tanuki", 1), Ok(false)));
}

#[test]
fn all_clients_answered_counts_answers() {
    let mut game = Game::new();
    assert!(!game.all_clients_answered(0));
    assert!(game.start_game(settings(3, 30)));
    opened(game.set_current_question(question(&["x"])));
    assert!(!game.all_clients_answered(2));
    game.record_answer("a", "x", 1).ok();
    assert!(!game.all_clients_answered(2));
    game.record_answer("b", "y", 2).ok();
    assert!(game.all_clients_answered(2));
    assert!(!game.all_clients_answered(3));
}

#[test]
fn end_round_early_decides_round() {
    let mut game = Game::new();
    assert!(!game.end_round_early());
    assert!(game.start_game(settings(2, 30)));
    let t0 = opened(game.set_current_question(question(&["x"])));
    assert!(game.end_round_early());
    assert_eq!(game.get_game_state(), GameState::WaitingQuestion);
    assert_eq!(game.armed_timer(), None);
    assert!(!game.on_round_timer(t0));
    assert_eq!(game.get_current_round(), 1);
}

#[test]
fn second_question_for_round_rejected() {
    let mut game = Game::new();
    assert!(matches!(game.set_current_question(question(&["x"])), Err(QuestionError::NotExpected)));
    assert!(game.start_game(settings(2, 30)));
    opened(game.set_current_question(question(&["x"])));
    assert!(matches!(game.set_current_question(question(&["y"])), Err(QuestionError::AlreadyExists)));
    let q = game.get_question_for_round(0).unwrap();
    assert_eq!(q.readings, vec!["x".to_string()]);
}

#[test]
fn stop_during_round_goes_to_lobby() {
    let mut game = Game::new();
    assert!(game.start_game(settings(5, 30)));
    let t0 = opened(game.set_current_question(question(&["x"])));
    assert!(game.stop_game());
    assert_eq!(game.get_game_state(), GameState::Lobby);
    assert!(!game.on_round_timer(t0));
    assert_eq!(game.get_current_round(), 0);
}

#[test]
fn stop_while_waiting_is_deferred_to_next_question() {
    let mut game = Game::new();
    assert!(game.start_game(settings(5, 30)));
    assert!(game.stop_game());
    assert_eq!(game.get_game_state(), GameState::GameStarting);
    assert!(matches!(game.set_current_question(question(&["x"])), Ok(QuestionOutcome::GameEnded)));
    assert_eq!(game.get_game_state(), GameState::Lobby);
    assert!(game.get_question_for_round(0).is_none());
}

#[test]
fn zero_rounds_count_ends_after_first_round() {
    let mut game = Game::new();
    assert!(game.start_game(settings(0, 30)));
    let t0 = opened(game.set_current_question(question(&["x"])));
    assert!(game.on_round_timer(t0));
    assert_eq!(game.get_game_state(), GameState::Lobby);
}

#[test]
fn set_game_settings_replaces_whole() {
    let mut game = Game::new();
    let mut s = settings(4, 12);
    s.word_part = Some("木".to_string());
    game.set_game_settings(s.clone());
    assert_eq!(game.get_game_settings(), s);
    assert_eq!(game.get_game_state(), GameState::Lobby);
}

#[test]
fn set_game_state_moves_phase() {
    let mut game = Game::new();
    game.set_game_state(GameState::WatchingQuestion);
    assert_eq!(game.get_game_state(), GameState::WatchingQuestion);
    assert!(GameState::WatchingQuestion.is_running());
    assert!(!GameState::Lobby.is_running());
}

#[test]
fn all_answers_lists_each_round() {
    let mut game = Game::new();
    assert!(game.get_all_answers().is_empty());
    assert!(game.start_game(settings(3, 30)));
    let t0 = opened(game.set_current_question(question(&["a"])));
    game.record_answer("p", "a", 1).ok();
    assert!(game.on_round_timer(t0));
    opened(game.set_current_question(question(&["b"])));
    let ledger = game.get_all_answers();
    assert_eq!(ledger.len(), 2);
    assert_eq!(ledger[0].question.readings, vec!["a".to_string()]);
    assert_eq!(ledger[0].answers.len(), 1);
    assert_eq!(ledger[0].answers[0].id, "p");
    assert_eq!(ledger[1].question.readings, vec!["b".to_string()]);
    assert!(ledger[1].answers.is_empty());
}
