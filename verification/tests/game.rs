use pong::logic::{
    detect_scoring, handle_collisions, move_ball, reset_ball, tick, update_score, GameState,
    Position, Score, Scored, Scorer, Shape, Velocity,
};
use pong::vec2::Vec2i;

#[test]
fn fresh_game_has_the_expected_layout() {
    let s = GameState::new(800, 600);
    assert_eq!(s.player.position, Position(Vec2i::new(350, 0)));
    assert_eq!(s.ai.position, Position(Vec2i::new(-350, 0)));
    assert_eq!(s.player.shape, Shape(Vec2i::new(10, 50)));
    assert_eq!(s.ball.position, Position(Vec2i::new(0, 0)));
    assert_eq!(s.ball.velocity, Velocity(Vec2i::new(-1, 1)));
    assert_eq!(s.ball.shape, Shape(Vec2i::new(5, 5)));
    assert_eq!(s.top_gutter.position, Position(Vec2i::new(0, 252)));
    assert_eq!(s.bottom_gutter.position, Position(Vec2i::new(0, -252)));
    assert_eq!(s.top_gutter.shape, Shape(Vec2i::new(800, 96)));
    assert_eq!(s.score, Score { player: 0, ai: 0 });
}

#[test]
fn ball_crossing_the_left_bound_scores_for_player_and_resets() {
    // Ball from the origin with velocity (-1, 1) in an 800-wide window:
    // motion alone carries it past x == -400, the player is credited,
    // and the ball restarts rightward from the origin.
    let mut position = Position(Vec2i::new(0, 0));
    let mut velocity = Velocity(Vec2i::new(-1, 1));
    let mut score = Score { player: 0, ai: 0 };
    let mut fired = None;
    let mut steps: i64 = 0;
    while fired.is_none() && steps < 1000 {
        move_ball(&mut position, &velocity);
        fired = detect_scoring(&position, 800);
        steps += 1;
    }
    assert_eq!(fired, Some(Scored(Scorer::Player)));
    assert_eq!(steps, 81);
    assert_eq!(position, Position(Vec2i::new(-405, 405)));
    let event = fired.unwrap();
    reset_ball(&mut position, &mut velocity, &event);
    update_score(&mut score, &event);
    assert_eq!(position, Position(Vec2i::new(0, 0)));
    assert_eq!(velocity, Velocity(Vec2i::new(1, 1)));
    assert_eq!(score, Score { player: 1, ai: 0 });
}

#[test]
fn ball_under_the_top_gutter_bounces_down() {
    // The ball's circle overlaps the top gutter from below: the vertical
    // velocity flips, the horizontal one is untouched.
    let mut s = GameState::new(800, 600);
    s.ball.position = Position(Vec2i::new(0, 200));
    s.ball.velocity = Velocity(Vec2i::new(-1, 1));
    handle_collisions(&mut s);
    assert_eq!(s.ball.velocity, Velocity(Vec2i::new(-1, -1)));
    // Only the velocity changes: no push-out of the overlap.
    assert_eq!(s.ball.position, Position(Vec2i::new(0, 200)));
}

#[test]
fn ball_over_the_bottom_gutter_bounces_up() {
    let mut s = GameState::new(800, 600);
    s.ball.position = Position(Vec2i::new(0, -200));
    s.ball.velocity = Velocity(Vec2i::new(1, -1));
    handle_collisions(&mut s);
    assert_eq!(s.ball.velocity, Velocity(Vec2i::new(1, 1)));
}

#[test]
fn overlapping_two_entities_compounds_in_order() {
    // The ball overlaps the player paddle on its left face and a gutter
    // box from below in the same frame: the paddle hit flips x, then the
    // gutter hit flips y.
    let mut s = GameState::new(800, 600);
    s.player.position = Position(Vec2i::new(349, 170));
    s.top_gutter.position = Position(Vec2i::new(340, 223));
    s.ball.position = Position(Vec2i::new(340, 170));
    s.ball.velocity = Velocity(Vec2i::new(1, 1));
    handle_collisions(&mut s);
    assert_eq!(s.ball.velocity, Velocity(Vec2i::new(-1, -1)));
}

#[test]
fn tick_that_scores_for_ai_resets_ball_and_bumps_ai_counter() {
    let mut s = GameState::new(800, 600);
    s.ball.position = Position(Vec2i::new(398, 0));
    s.ball.velocity = Velocity(Vec2i::new(1, 1));
    let scored = tick(&mut s, false, false, 800, 600);
    assert_eq!(scored, Some(Scored(Scorer::Ai)));
    assert_eq!(s.score, Score { player: 0, ai: 1 });
    assert_eq!(s.ball.position, Position(Vec2i::new(0, 0)));
    assert_eq!(s.ball.velocity, Velocity(Vec2i::new(-1, 1)));
}

#[test]
fn tick_without_event_leaves_score_alone() {
    let mut s = GameState::new(800, 600);
    let scored = tick(&mut s, false, false, 800, 600);
    assert_eq!(scored, None);
    assert_eq!(s.score, Score { player: 0, ai: 0 });
    assert_eq!(s.ball.position, Position(Vec2i::new(-5, 5)));
}

#[test]
fn input_moves_the_player_paddle_in_the_same_tick() {
    let mut s = GameState::new(800, 600);
    let _ = tick(&mut s, true, false, 800, 600);
    assert_eq!(s.player.velocity, Velocity(Vec2i::new(0, 1)));
    assert_eq!(s.player.position, Position(Vec2i::new(350, 5)));
}

#[test]
fn player_paddle_never_leaves_the_travel_limit() {
    // Hold "up" for hundreds of frames: the paddle's height always stays
    // strictly inside the limit for a 600-high window.
    let mut s = GameState::new(800, 600);
    for _ in 0..300 {
        let _ = tick(&mut s, true, false, 800, 600);
        assert!(s.player.position.0.y.abs() < 179);
    }
    // It climbs as far as the limit admits and then pushes against it.
    assert_eq!(s.player.position.0.y, 175);
}

#[test]
fn ball_bounces_off_the_top_gutter_in_play() {
    // Fresh game, nobody touches the controls. The ball climbs up-left
    // by (-5, 5) a frame until frame 40, where its circle first reaches
    // the top gutter (edge at y == 204) and its climb turns into a dive.
    // The opponent paddle chases it upward until its own travel limit
    // (179 for this window) rejects any further step, at height 175.
    let mut s = GameState::new(800, 600);
    for _ in 0..40 {
        let _ = tick(&mut s, false, false, 800, 600);
    }
    assert_eq!(s.ball.position, Position(Vec2i::new(-200, 200)));
    assert_eq!(s.ball.velocity, Velocity(Vec2i::new(-1, -1)));
    assert_eq!(s.ai.position, Position(Vec2i::new(-350, 175)));
    assert_eq!(s.player.position, Position(Vec2i::new(350, 0)));
    assert_eq!(s.score, Score { player: 0, ai: 0 });
}

#[test]
fn opponent_paddle_returns_the_ball_in_play() {
    // Continuing the same untouched game: after the gutter bounce the
    // opponent paddle settles five units above the falling ball, and at
    // frame 68 the ball reaches the paddle's right face and is sent back
    // toward the player. Nobody has scored.
    let mut s = GameState::new(800, 600);
    for _ in 0..68 {
        let _ = tick(&mut s, false, false, 800, 600);
    }
    assert_eq!(s.ball.position, Position(Vec2i::new(-340, 60)));
    assert_eq!(s.ball.velocity, Velocity(Vec2i::new(1, -1)));
    assert_eq!(s.ai.position, Position(Vec2i::new(-350, 65)));
    assert_eq!(s.score, Score { player: 0, ai: 0 });
}

#[test]
fn opponent_follows_the_ball_after_a_tick() {
    let mut s = GameState::new(800, 600);
    s.ball.position = Position(Vec2i::new(0, 100));
    s.ball.velocity = Velocity(Vec2i::new(0, 0));
    let _ = tick(&mut s, false, false, 800, 600);
    assert_eq!(s.ai.velocity, Velocity(Vec2i::new(0, 1)));
}
