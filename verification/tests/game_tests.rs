use pong::game::Key;
use pong::game::MatchState;
use pong::game::Phase;
use pong::game::Player;
use pong::HEIGHT;
use pong::PADDLE_HEIGHT;
use pong::WIDTH;

#[test]
fn new_match_is_centred_scoreless_and_running() {
    let m = MatchState::new();
    assert_eq!(m.left_paddle.x, 2);
    assert_eq!(m.right_paddle.x, WIDTH - 3);
    assert_eq!(m.left_paddle.y, HEIGHT / 2 - PADDLE_HEIGHT / 2);
    assert_eq!(m.right_paddle.y, HEIGHT / 2 - PADDLE_HEIGHT / 2);
    assert_eq!(m.left_score, 0);
    assert_eq!(m.right_score, 0);
    assert_eq!(m.phase, Phase::Running);
}

#[test]
fn arrow_keys_steer_the_right_paddle() {
    let mut m = MatchState::new();
    let y0 = m.right_paddle.y;
    m.handle_key(Key::ArrowUp, true);
    assert_eq!(m.right_paddle.y, y0 - 1);
    assert_eq!(m.left_paddle.y, y0);
    m.handle_key(Key::ArrowDown, true);
    m.handle_key(Key::ArrowDown, true);
    assert_eq!(m.right_paddle.y, y0 + 1);
    assert_eq!(m.phase, Phase::Running);
}

#[test]
fn w_and_s_steer_the_left_paddle() {
    let mut m = MatchState::new();
    let y0 = m.left_paddle.y;
    m.handle_key(Key::CharW, true);
    assert_eq!(m.left_paddle.y, y0 - 1);
    assert_eq!(m.right_paddle.y, y0);
    m.handle_key(Key::CharS, true);
    m.handle_key(Key::CharS, true);
    assert_eq!(m.left_paddle.y, y0 + 1);
}

#[test]
fn modified_or_unmapped_keys_change_nothing() {
    let mut m = MatchState::new();
    let before = m;
    m.handle_key(Key::ArrowUp, false);
    assert_eq!(m, before);
    m.handle_key(Key::CharQ, false);
    assert_eq!(m, before);
    m.handle_key(Key::Other, true);
    assert_eq!(m, before);
}

#[test]
fn quit_key_ends_the_match() {
    let mut m = MatchState::new();
    m.handle_key(Key::CharQ, true);
    assert_eq!(m.phase, Phase::Ended);
    assert_eq!(m.left_score, 0);
    assert_eq!(m.right_score, 0);
}

#[test]
fn left_exit_scores_one_for_player_two_and_demands_a_reset() {
    let mut m = MatchState::new();
    let reset = m.score_step(true, false);
    assert!(reset);
    assert_eq!(m.left_score, 0);
    assert_eq!(m.right_score, 1);
    assert_eq!(m.phase, Phase::Running);
}

#[test]
fn right_exit_scores_one_for_player_one_and_demands_a_reset() {
    let mut m = MatchState::new();
    let reset = m.score_step(false, true);
    assert!(reset);
    assert_eq!(m.left_score, 1);
    assert_eq!(m.right_score, 0);
    assert_eq!(m.phase, Phase::Running);
}

#[test]
fn no_exit_scores_nothing_and_demands_no_reset() {
    let mut m = MatchState::new();
    let reset = m.score_step(false, false);
    assert!(!reset);
    assert_eq!(m.left_score, 0);
    assert_eq!(m.right_score, 0);
    assert_eq!(m.phase, Phase::Running);
}

#[test]
fn five_left_exits_end_the_match_with_player_two_winning() {
    let mut m = MatchState::new();
    for round in 1..=4u32 {
        let reset = m.score_step(true, false);
        assert!(reset);
        assert_eq!(m.left_score, 0);
        assert_eq!(m.right_score, round);
        assert_eq!(m.phase, Phase::Running);
    }
    let reset = m.score_step(true, false);
    assert!(reset);
    assert_eq!(m.left_score, 0);
    assert_eq!(m.right_score, 5);
    assert_eq!(m.phase, Phase::Ended);
    assert_eq!(m.winner(), Player::Two);
}

#[test]
fn winner_is_player_one_only_with_the_strictly_higher_score() {
    let mut m = MatchState::new();
    for _ in 0..5 {
        m.score_step(false, true);
    }
    assert_eq!(m.phase, Phase::Ended);
    assert_eq!(m.winner(), Player::One);
}

#[test]
fn a_tied_score_is_announced_for_player_two() {
    let mut m = MatchState::new();
    m.left_score = 3;
    m.right_score = 3;
    assert_eq!(m.winner(), Player::Two);
}
