//! The game's rules: state, per-frame phases and the tick that runs them.
//!
//! A frame runs five phases in a fixed order: input sets the player paddle's
//! velocity; motion advances paddles (clamped to the playfield) and the
//! ball; collision reflects the ball's velocity off paddles and gutters;
//! scoring detects a ball past the horizontal bounds, resets it and bumps
//! the score; and the opponent phase picks the rule-controlled paddle's
//! velocity for the next frame from the ball's position.

use vstd::prelude::*;

use crate::collision::{
    collide_with_side, collision_of, reflected, Aabb2d, BoundingCircle, Collision, COORD_MAX,
};
use crate::vec2::{abs_i, within, V2, Vec2i, VEL_MAX, WORLD_MAX};

verus! {

/// Diameter of the ball's rendered square, and also the radius of its
/// collision circle: the circle deliberately uses the full width.
pub const BALL_SIZE: i64 = 5;

/// Width of a paddle.
pub const PADDLE_WIDTH: i64 = 10;

/// Height of a paddle.
pub const PADDLE_HEIGHT: i64 = 50;

/// World units a paddle travels per frame and unit of velocity.
pub const PADDLE_SPEED: i64 = 5;

/// World units the ball travels per frame and unit of velocity.
pub const BALL_SPEED: i64 = 5;

/// Height of each boundary gutter.
pub const GUTTER_HEIGHT: i64 = 96;

/// Horizontal distance of each paddle from its side of the window.
pub const PADDLE_PADDING: i64 = 50;

/// An entity's size: width and height. Fixed at creation.
#[derive(Clone, Copy, PartialEq, Eq, Structural, Debug)]
pub struct Shape(pub Vec2i);

/// An entity's logical world-space center.
#[derive(Clone, Copy, PartialEq, Eq, Structural, Debug)]
pub struct Position(pub Vec2i);

/// An entity's velocity in units per frame.
#[derive(Clone, Copy, PartialEq, Eq, Structural, Debug)]
pub struct Velocity(pub Vec2i);

impl View for Shape {
    type V = V2;

    open spec fn view(&self) -> V2 {
        self.0@
    }
}

impl View for Position {
    type V = V2;

    open spec fn view(&self) -> V2 {
        self.0@
    }
}

impl View for Velocity {
    type V = V2;

    open spec fn view(&self) -> V2 {
        self.0@
    }
}

/// The running score of both sides.
#[derive(Clone, Copy, PartialEq, Eq, Structural, Debug, Default)]
pub struct Score {
    pub player: u32,
    pub ai: u32,
}

/// Which side is credited when the ball leaves the playfield.
#[derive(Clone, Copy, PartialEq, Eq, Structural, Debug)]
pub enum Scorer {
    Ai,
    Player,
}

/// The scoring event of a frame: at most one fires per frame, and it is
/// consumed within that same frame by the ball reset and the score update.
#[derive(Clone, Copy, PartialEq, Eq, Structural, Debug)]
pub struct Scored(pub Scorer);

/// A paddle: position, velocity and fixed shape.
#[derive(Clone, Copy, PartialEq, Eq, Structural, Debug)]
pub struct Paddle {
    pub position: Position,
    pub velocity: Velocity,
    pub shape: Shape,
}

/// The ball: position, velocity and fixed shape.
#[derive(Clone, Copy, PartialEq, Eq, Structural, Debug)]
pub struct Ball {
    pub position: Position,
    pub velocity: Velocity,
    pub shape: Shape,
}

/// A static boundary wall at the top or bottom of the playfield.
#[derive(Clone, Copy, PartialEq, Eq, Structural, Debug)]
pub struct Gutter {
    pub position: Position,
    pub shape: Shape,
}

/// The whole authoritative game state.
#[derive(Clone, Copy, PartialEq, Eq, Structural, Debug)]
pub struct GameState {
    pub player: Paddle,
    pub ai: Paddle,
    pub ball: Ball,
    pub top_gutter: Gutter,
    pub bottom_gutter: Gutter,
    pub score: Score,
}

/// Model of a paddle.
pub struct PaddleModel {
    pub position: V2,
    pub velocity: V2,
    pub shape: V2,
}

/// Model of the ball.
pub struct BallModel {
    pub position: V2,
    pub velocity: V2,
    pub shape: V2,
}

/// Model of a gutter.
pub struct GutterModel {
    pub position: V2,
    pub shape: V2,
}

/// Model of the whole game state.
pub struct GameModel {
    pub player: PaddleModel,
    pub ai: PaddleModel,
    pub ball: BallModel,
    pub top_gutter: GutterModel,
    pub bottom_gutter: GutterModel,
    pub score_player: int,
    pub score_ai: int,
}

impl View for Paddle {
    type V = PaddleModel;

    open spec fn view(&self) -> PaddleModel {
        PaddleModel { position: self.position@, velocity: self.velocity@, shape: self.shape@ }
    }
}

impl View for Ball {
    type V = BallModel;

    open spec fn view(&self) -> BallModel {
        BallModel { position: self.position@, velocity: self.velocity@, shape: self.shape@ }
    }
}

impl View for Gutter {
    type V = GutterModel;

    open spec fn view(&self) -> GutterModel {
        GutterModel { position: self.position@, shape: self.shape@ }
    }
}

impl View for GameState {
    type V = GameModel;

    open spec fn view(&self) -> GameModel {
        GameModel {
            player: self.player@,
            ai: self.ai@,
            ball: self.ball@,
            top_gutter: self.top_gutter@,
            bottom_gutter: self.bottom_gutter@,
            score_player: self.score.player as int,
            score_ai: self.score.ai as int,
        }
    }
}

/// Positions, velocities and shapes are small enough for every frame's
/// arithmetic to stay inside `i64`. Shapes are also non-negative.
pub open spec fn wf(m: GameModel) -> bool {
    &&& within(m.player.position, WORLD_MAX as int)
    &&& within(m.player.velocity, VEL_MAX as int)
    &&& box_shape(m.player.shape)
    &&& within(m.ai.position, WORLD_MAX as int)
    &&& within(m.ai.velocity, VEL_MAX as int)
    &&& box_shape(m.ai.shape)
    &&& within(m.ball.position, WORLD_MAX as int)
    &&& within(m.ball.velocity, VEL_MAX as int)
    &&& box_shape(m.ball.shape)
    &&& within(m.top_gutter.position, WORLD_MAX as int)
    &&& box_shape(m.top_gutter.shape)
    &&& within(m.bottom_gutter.position, WORLD_MAX as int)
    &&& box_shape(m.bottom_gutter.shape)
}

/// A shape's components are non-negative and bounded.
pub open spec fn box_shape(s: V2) -> bool {
    0 <= s.x <= WORLD_MAX && 0 <= s.y <= WORLD_MAX
}

/// Velocity after one reading of the input controls: "up" wins over
/// "down", neither pressed means no vertical motion; the horizontal
/// component is untouched.
pub open spec fn input_velocity(v: V2, up: bool, down: bool) -> V2 {
    V2 { x: v.x, y: if up { 1 } else if down { -1 } else { 0 } }
}

/// A position advanced by one frame of a velocity at the given speed.
pub open spec fn stepped(p: V2, v: V2, speed: int) -> V2 {
    V2 { x: p.x + v.x * speed, y: p.y + v.y * speed }
}

/// The highest center height a paddle may reach in a window of the given
/// height: half the window, less the gutter and half the paddle.
pub open spec fn max_paddle_y(window_height: int) -> int {
    window_height / 2 - GUTTER_HEIGHT - PADDLE_HEIGHT / 2
}

/// A paddle's position after one frame: the stepped position when its
/// height stays strictly inside the travel limit, the old position
/// otherwise (the move is rejected whole, not clipped).
pub open spec fn paddle_moved(p: V2, v: V2, max_y: int) -> V2 {
    let n = stepped(p, v, PADDLE_SPEED as int);
    if abs_i(n.y) < max_y {
        n
    } else {
        p
    }
}

/// The sign of a model integer: -1, 0 or 1.
pub open spec fn sign(x: int) -> int {
    if x > 0 {
        1
    } else if x < 0 {
        -1
    } else {
        0
    }
}

/// Who scored for a ball at horizontal position `x` in a window of width
/// `w`: past the right edge the ball went by the player, so the opponent
/// scores; past the left edge the player scores; otherwise nobody.
pub open spec fn detected(x: int, w: int) -> Option<Scorer> {
    if x > w / 2 {
        Some(Scorer::Ai)
    } else if x < -(w / 2) {
        Some(Scorer::Player)
    } else {
        None
    }
}

/// The velocity the ball restarts with: back toward the side that just
/// conceded.
pub open spec fn reset_velocity(s: Scorer) -> V2 {
    match s {
        Scorer::Ai => V2 { x: -1, y: 1 },
        Scorer::Player => V2 { x: 1, y: 1 },
    }
}

/// The scorer a possible event credits, if any.
pub open spec fn scored_of(r: Option<Scored>) -> Option<Scorer> {
    match r {
        Some(sc) => Some(sc.0),
        None => None,
    }
}

/// Half of each shape component: a shape's box half-extents.
pub open spec fn half_of(s: V2) -> V2 {
    V2 { x: s.x / 2, y: s.y / 2 }
}

/// The ball's velocity after resolving one obstacle: reflected off the
/// struck face when the ball's circle overlaps the obstacle's box,
/// unchanged otherwise.
pub open spec fn bounced(
    v: V2,
    ball_pos: V2,
    radius: int,
    obstacle_pos: V2,
    obstacle_shape: V2,
) -> V2 {
    match collision_of(ball_pos, radius, obstacle_pos, half_of(obstacle_shape)) {
        Some(side) => reflected(v, side),
        None => v,
    }
}

/// The ball's velocity after testing every other solid entity, in the
/// fixed order: player paddle, opponent paddle, top gutter, bottom
/// gutter. A later hit sees the velocity the earlier one left.
pub open spec fn ball_velocity_after_collisions(m: GameModel) -> V2 {
    let r = m.ball.shape.x;
    let v1 = bounced(m.ball.velocity, m.ball.position, r, m.player.position, m.player.shape);
    let v2 = bounced(v1, m.ball.position, r, m.ai.position, m.ai.shape);
    let v3 = bounced(v2, m.ball.position, r, m.top_gutter.position, m.top_gutter.shape);
    bounced(v3, m.ball.position, r, m.bottom_gutter.position, m.bottom_gutter.shape)
}

/// Everything the collision phase reads is small enough for the
/// intersection arithmetic.
pub open spec fn collision_ready(m: GameModel) -> bool {
    &&& within(m.ball.position, COORD_MAX as int)
    &&& within(m.ball.velocity, VEL_MAX as int)
    &&& 0 <= m.ball.shape.x <= COORD_MAX
    &&& within(m.player.position, COORD_MAX as int)
    &&& box_shape(m.player.shape)
    &&& within(m.ai.position, COORD_MAX as int)
    &&& box_shape(m.ai.shape)
    &&& within(m.top_gutter.position, COORD_MAX as int)
    &&& box_shape(m.top_gutter.shape)
    &&& within(m.bottom_gutter.position, COORD_MAX as int)
    &&& box_shape(m.bottom_gutter.shape)
}

/// The input phase: the player paddle's velocity reflects the controls.
pub open spec fn with_input(m: GameModel, up: bool, down: bool) -> GameModel {
    GameModel {
        player: PaddleModel {
            velocity: input_velocity(m.player.velocity, up, down),
            ..m.player
        },
        ..m
    }
}

/// The paddle motion phase: both paddles advance under the travel limit
/// of a window of height `h`.
pub open spec fn with_paddles_moved(m: GameModel, h: int) -> GameModel {
    let my = max_paddle_y(h);
    GameModel {
        player: PaddleModel {
            position: paddle_moved(m.player.position, m.player.velocity, my),
            ..m.player
        },
        ai: PaddleModel { position: paddle_moved(m.ai.position, m.ai.velocity, my), ..m.ai },
        ..m
    }
}

/// The ball motion phase.
pub open spec fn with_ball_moved(m: GameModel) -> GameModel {
    GameModel {
        ball: BallModel {
            position: stepped(m.ball.position, m.ball.velocity, BALL_SPEED as int),
            ..m.ball
        },
        ..m
    }
}

/// The collision phase: only the ball's velocity changes.
pub open spec fn with_collisions(m: GameModel) -> GameModel {
    GameModel { ball: BallModel { velocity: ball_velocity_after_collisions(m), ..m.ball }, ..m }
}

/// The scoring phase: when the ball sits past a horizontal bound, the
/// event fires, the ball restarts at the origin toward the conceding
/// side, and exactly one counter grows by exactly one. Otherwise nothing
/// changes and no event fires.
pub open spec fn with_scoring(m: GameModel, w: int) -> (GameModel, Option<Scorer>) {
    match detected(m.ball.position.x, w) {
        None => (m, None),
        Some(s) => (
            GameModel {
                ball: BallModel {
                    position: V2 { x: 0, y: 0 },
                    velocity: reset_velocity(s),
                    ..m.ball
                },
                score_player: m.score_player + if s == Scorer::Player {
                    1int
                } else {
                    0
                },
                score_ai: m.score_ai + if s == Scorer::Ai {
                    1int
                } else {
                    0
                },
                ..m
            },
            Some(s),
        ),
    }
}

/// The opponent phase: the rule-controlled paddle's vertical velocity
/// becomes the sign of the ball's height above it.
pub open spec fn with_opponent(m: GameModel) -> GameModel {
    GameModel {
        ai: PaddleModel {
            velocity: V2 { x: m.ai.velocity.x, y: sign(m.ball.position.y - m.ai.position.y) },
            ..m.ai
        },
        ..m
    }
}

/// One whole frame: input, paddle and ball motion, collisions, scoring,
/// opponent control, in that order, with the scoring event of the frame.
pub open spec fn ticked(m: GameModel, up: bool, down: bool, w: int, h: int) -> (
    GameModel,
    Option<Scorer>,
) {
    let m1 = with_input(m, up, down);
    let m2 = with_paddles_moved(m1, h);
    let m3 = with_ball_moved(m2);
    let m4 = with_collisions(m3);
    let (m5, ev) = with_scoring(m4, w);
    (with_opponent(m5), ev)
}

/// The state the game starts from in a window of size `w` by `h`:
/// paddles at mid-height inside either edge, ball at the origin moving
/// up-left, a gutter along the top and bottom edges, no points scored.
pub open spec fn initial_state(w: int, h: int) -> GameModel {
    GameModel {
        player: PaddleModel {
            position: V2 { x: w / 2 - PADDLE_PADDING, y: 0 },
            velocity: V2 { x: 0, y: 0 },
            shape: V2 { x: PADDLE_WIDTH as int, y: PADDLE_HEIGHT as int },
        },
        ai: PaddleModel {
            position: V2 { x: -(w / 2) + PADDLE_PADDING, y: 0 },
            velocity: V2 { x: 0, y: 0 },
            shape: V2 { x: PADDLE_WIDTH as int, y: PADDLE_HEIGHT as int },
        },
        ball: BallModel {
            position: V2 { x: 0, y: 0 },
            velocity: V2 { x: -1, y: 1 },
            shape: V2 { x: BALL_SIZE as int, y: BALL_SIZE as int },
        },
        top_gutter: GutterModel {
            position: V2 { x: 0, y: h / 2 - GUTTER_HEIGHT / 2 },
            shape: V2 { x: w, y: GUTTER_HEIGHT as int },
        },
        bottom_gutter: GutterModel {
            position: V2 { x: 0, y: -(h / 2) + GUTTER_HEIGHT / 2 },
            shape: V2 { x: w, y: GUTTER_HEIGHT as int },
        },
        score_player: 0,
        score_ai: 0,
    }
}

/// Sets the player paddle's velocity from the two input controls.
/// Holding "up" gives +1, else holding "down" gives -1, else 0; any prior
/// vertical velocity is overwritten, never accumulated.
pub fn handle_player_input(velocity: &mut Velocity, up_pressed: bool, down_pressed: bool)
    ensures
        final (velocity)@ == input_velocity(old(velocity)@, up_pressed, down_pressed),
{
    if up_pressed {
        velocity.0.y = 1;
    } else if down_pressed {
        velocity.0.y = -1;
    } else {
        velocity.0.y = 0;
    }
}

/// Advances one paddle by its velocity, rejecting any move that would put
/// its height at or past the travel limit.
pub fn move_paddle(position: &mut Position, velocity: &Velocity, max_y: i64)
    requires
        within(old(position)@, WORLD_MAX as int),
        within(velocity@, VEL_MAX as int),
    ensures
        final (position)@ == paddle_moved(old(position)@, velocity@, max_y as int),
{
    let new_x = position.0.x + velocity.0.x * PADDLE_SPEED;
    let new_y = position.0.y + velocity.0.y * PADDLE_SPEED;
    let abs_new_y = if new_y < 0 { -new_y } else { new_y };
    if abs_new_y < max_y {
        position.0.x = new_x;
        position.0.y = new_y;
    }
}

/// The paddle travel limit for a window of the given height.
pub fn paddle_max_y(window_height: u32) -> (r: i64)
    ensures
        r == max_paddle_y(window_height as int),
{
    (window_height / 2) as i64 - GUTTER_HEIGHT - PADDLE_HEIGHT / 2
}

/// Advances the ball by its velocity, unconditionally: its bounds are
/// enforced by collisions and scoring, not by a clamp.
pub fn move_ball(position: &mut Position, velocity: &Velocity)
    requires
        within(old(position)@, WORLD_MAX as int),
        within(velocity@, VEL_MAX as int),
    ensures
        final (position)@ == stepped(old(position)@, velocity@, BALL_SPEED as int),
{
    position.0.x = position.0.x + velocity.0.x * BALL_SPEED;
    position.0.y = position.0.y + velocity.0.y * BALL_SPEED;
}

/// Reads the ball's position against the playfield's horizontal bounds
/// and emits the scoring event, if either side scored this frame.
pub fn detect_scoring(ball: &Position, window_width: u32) -> (r: Option<Scored>)
    ensures
        scored_of(r) == detected(ball@.x, window_width as int),
{
    let half_width = (window_width / 2) as i64;
    if ball.0.x > half_width {
        Some(Scored(Scorer::Ai))
    } else if ball.0.x < -half_width {
        Some(Scored(Scorer::Player))
    } else {
        None
    }
}

/// Puts the ball back at the origin, moving toward whichever side just
/// conceded the point.
pub fn reset_ball(position: &mut Position, velocity: &mut Velocity, scored: &Scored)
    ensures
        final (position)@ == (V2 { x: 0, y: 0 }),
        final (velocity)@ == reset_velocity(scored.0),
{
    match scored.0 {
        Scorer::Ai => {
            position.0 = Vec2i::new(0, 0);
            velocity.0 = Vec2i::new(-1, 1);
        },
        Scorer::Player => {
            position.0 = Vec2i::new(0, 0);
            velocity.0 = Vec2i::new(1, 1);
        },
    }
}

/// Credits the scoring side with exactly one point; the other side's
/// count is untouched.
pub fn update_score(score: &mut Score, scored: &Scored)
    requires
        old(score).player < u32::MAX,
        old(score).ai < u32::MAX,
    ensures
        scored.0 == Scorer::Player ==> final (score).player == old(score).player + 1
            && final (score).ai == old(score).ai,
        scored.0 == Scorer::Ai ==> final (score).ai == old(score).ai + 1 && final (score).player
            == old(score).player,
{
    match scored.0 {
        Scorer::Ai => {
            score.ai = score.ai + 1;
        },
        Scorer::Player => {
            score.player = score.player + 1;
        },
    }
}

/// Resolves the ball against one obstacle: tests the ball's circle
/// against the obstacle's box and reflects the velocity off the struck
/// face, if any.
pub fn bounce(
    velocity: &mut Velocity,
    ball_position: &Position,
    radius: i64,
    obstacle_position: &Position,
    obstacle_shape: &Shape,
)
    requires
        within(old(velocity)@, VEL_MAX as int),
        within(ball_position@, COORD_MAX as int),
        0 <= radius <= COORD_MAX,
        within(obstacle_position@, COORD_MAX as int),
        box_shape(obstacle_shape@),
    ensures
        final (velocity)@ == bounced(
            old(velocity)@,
            ball_position@,
            radius as int,
            obstacle_position@,
            obstacle_shape@,
        ),
{
    let half = Vec2i::new(obstacle_shape.0.x / 2, obstacle_shape.0.y / 2);
    let ball = BoundingCircle::new(ball_position.0, radius);
    let wall = Aabb2d::new(obstacle_position.0, half);
    if let Some(side) = collide_with_side(ball, wall) {
        match side {
            Collision::Left => {
                velocity.0.x = -velocity.0.x;
            },
            Collision::Right => {
                velocity.0.x = -velocity.0.x;
            },
            Collision::Top => {
                velocity.0.y = -velocity.0.y;
            },
            Collision::Bottom => {
                velocity.0.y = -velocity.0.y;
            },
        }
    }
}

/// Tests the ball against every other solid entity — both paddles, then
/// both gutters — reflecting its velocity on each hit in that order.
/// Only the velocity changes: the ball is never pushed out of an overlap.
pub fn handle_collisions(state: &mut GameState)
    requires
        collision_ready(old(state)@),
    ensures
        final (state)@ == with_collisions(old(state)@),
{
    bounce(
        &mut state.ball.velocity,
        &state.ball.position,
        state.ball.shape.0.x,
        &state.player.position,
        &state.player.shape,
    );
    bounce(
        &mut state.ball.velocity,
        &state.ball.position,
        state.ball.shape.0.x,
        &state.ai.position,
        &state.ai.shape,
    );
    bounce(
        &mut state.ball.velocity,
        &state.ball.position,
        state.ball.shape.0.x,
        &state.top_gutter.position,
        &state.top_gutter.shape,
    );
    bounce(
        &mut state.ball.velocity,
        &state.ball.position,
        state.ball.shape.0.x,
        &state.bottom_gutter.position,
        &state.bottom_gutter.shape,
    );
}

/// Advances both paddles, player first, under the same travel limit.
pub fn move_paddles(state: &mut GameState, window_height: u32)
    requires
        within(old(state)@.player.position, WORLD_MAX as int),
        within(old(state)@.player.velocity, VEL_MAX as int),
        within(old(state)@.ai.position, WORLD_MAX as int),
        within(old(state)@.ai.velocity, VEL_MAX as int),
    ensures
        final (state)@ == with_paddles_moved(old(state)@, window_height as int),
{
    let max_y = paddle_max_y(window_height);
    move_paddle(&mut state.player.position, &state.player.velocity, max_y);
    move_paddle(&mut state.ai.position, &state.ai.velocity, max_y);
}

/// Sets the opponent paddle's vertical velocity to the sign of the ball's
/// height above it: it tracks the ball one step at a time and stands
/// still when vertically aligned with it.
pub fn move_ai(velocity: &mut Velocity, position: &Position, ball_position: &Position)
    ensures
        final (velocity)@ == (V2 {
            x: old(velocity)@.x,
            y: sign(ball_position@.y - position@.y),
        }),
        ball_position@.y > position@.y ==> final (velocity)@.y == 1,
        ball_position@.y < position@.y ==> final (velocity)@.y == -1,
        ball_position@.y == position@.y ==> final (velocity)@.y == 0,
{
    if ball_position.0.y > position.0.y {
        velocity.0.y = 1;
    } else if ball_position.0.y < position.0.y {
        velocity.0.y = -1;
    } else {
        velocity.0.y = 0;
    }
}

/// A paddle motion update never violates the travel limit: whatever
/// velocity is asked of it, a paddle whose height is strictly inside the
/// limit before the update is strictly inside it after.
pub proof fn lemma_paddle_clamp_holds(p: V2, v: V2, max_y: int)
    requires
        abs_i(p.y) < max_y,
    ensures
        abs_i(paddle_moved(p, v, max_y).y) < max_y,
{
}

/// Whenever the scoring phase fires an event, it leaves the ball at the
/// origin with velocity `(-1, 1)` or `(1, 1)`, matching the scorer; and
/// it credits exactly one point to exactly one side, so the score never
/// goes down.
pub proof fn lemma_scoring_resets_and_counts_once(m: GameModel, w: int)
    ensures
        with_scoring(m, w).1 matches Some(s) ==> with_scoring(m, w).0.ball.position == (V2 {
            x: 0,
            y: 0,
        }) && with_scoring(m, w).0.ball.velocity == reset_velocity(s),
        reset_velocity(Scorer::Ai) == (V2 { x: -1, y: 1 }),
        reset_velocity(Scorer::Player) == (V2 { x: 1, y: 1 }),
        with_scoring(m, w).0.score_player >= m.score_player,
        with_scoring(m, w).0.score_ai >= m.score_ai,
        with_scoring(m, w).0.score_player + with_scoring(m, w).0.score_ai == m.score_player
            + m.score_ai + if with_scoring(m, w).1 matches Some(_) {
            1int
        } else {
            0
        },
{
}

impl GameState {
    /// Builds the state the game starts from, for a window of the given
    /// size: both paddles level with the center, the ball at the origin
    /// moving up-left, the two gutters hugging the top and bottom edges,
    /// and a blank score.
    pub fn new(window_width: u32, window_height: u32) -> (s: GameState)
        requires
            window_width <= WORLD_MAX,
            window_height <= WORLD_MAX,
        ensures
            s@ == initial_state(window_width as int, window_height as int),
            wf(s@),
    {
        let half_width = (window_width / 2) as i64;
        let half_height = (window_height / 2) as i64;
        let paddle_shape = Shape(Vec2i::new(PADDLE_WIDTH, PADDLE_HEIGHT));
        let gutter_shape = Shape(Vec2i::new(window_width as i64, GUTTER_HEIGHT));
        GameState {
            player: Paddle {
                position: Position(Vec2i::new(half_width - PADDLE_PADDING, 0)),
                velocity: Velocity(Vec2i::new(0, 0)),
                shape: paddle_shape,
            },
            ai: Paddle {
                position: Position(Vec2i::new(-half_width + PADDLE_PADDING, 0)),
                velocity: Velocity(Vec2i::new(0, 0)),
                shape: paddle_shape,
            },
            ball: Ball {
                position: Position(Vec2i::new(0, 0)),
                velocity: Velocity(Vec2i::new(-1, 1)),
                shape: Shape(Vec2i::new(BALL_SIZE, BALL_SIZE)),
            },
            top_gutter: Gutter {
                position: Position(Vec2i::new(0, half_height - GUTTER_HEIGHT / 2)),
                shape: gutter_shape,
            },
            bottom_gutter: Gutter {
                position: Position(Vec2i::new(0, -half_height + GUTTER_HEIGHT / 2)),
                shape: gutter_shape,
            },
            score: Score { player: 0, ai: 0 },
        }
    }
}

/// Runs one whole frame over the state, in the fixed phase order, and
/// hands back the frame's scoring event, if one fired.
///
/// The contract carries the game's standing guarantees: the score never
/// goes down and exactly one counter grows by exactly one per event; a
/// frame whose event fired leaves the ball at the origin moving toward
/// the conceding side; a paddle that starts inside the travel limit ends
/// inside it, whatever the inputs; the opponent paddle leaves the frame
/// tracking the ball; and once scoring has resolved, the ball sits
/// within the window's horizontal bounds.
pub fn tick(
    state: &mut GameState,
    up_pressed: bool,
    down_pressed: bool,
    window_width: u32,
    window_height: u32,
) -> (scored: Option<Scored>)
    requires
        wf(old(state)@),
        old(state).score.player < u32::MAX,
        old(state).score.ai < u32::MAX,
    ensures
        final (state)@ == ticked(
            old(state)@,
            up_pressed,
            down_pressed,
            window_width as int,
            window_height as int,
        ).0,
        scored_of(scored) == ticked(
            old(state)@,
            up_pressed,
            down_pressed,
            window_width as int,
            window_height as int,
        ).1,
        final (state).score.player >= old(state).score.player,
        final (state).score.ai >= old(state).score.ai,
        final (state).score.player + final (state).score.ai == old(state).score.player + old(
            state,
        ).score.ai + if scored matches Some(_) {
            1int
        } else {
            0
        },
        scored_of(scored) == Some(Scorer::Player) ==> final (state).score.player == old(
            state,
        ).score.player + 1 && final (state).score.ai == old(state).score.ai,
        scored_of(scored) == Some(Scorer::Ai) ==> final (state).score.ai == old(state).score.ai + 1
            && final (state).score.player == old(state).score.player,
        scored matches None ==> final (state).score == old(state).score,
        scored matches Some(_) ==> final (state)@.ball.position == (V2 { x: 0, y: 0 }),
        scored_of(scored) == Some(Scorer::Ai) ==> final (state)@.ball.velocity == (V2 {
            x: -1,
            y: 1,
        }),
        scored_of(scored) == Some(Scorer::Player) ==> final (state)@.ball.velocity == (V2 {
            x: 1,
            y: 1,
        }),
        abs_i(old(state)@.player.position.y) < max_paddle_y(window_height as int) ==> abs_i(
            final (state)@.player.position.y,
        ) < max_paddle_y(window_height as int),
        abs_i(old(state)@.ai.position.y) < max_paddle_y(window_height as int) ==> abs_i(
            final (state)@.ai.position.y,
        ) < max_paddle_y(window_height as int),
        final (state)@.ai.velocity.y == sign(
            final (state)@.ball.position.y - final (state)@.ai.position.y,
        ),
        -(window_width as int / 2) <= final (state)@.ball.position.x <= window_width as int / 2,
{
    handle_player_input(&mut state.player.velocity, up_pressed, down_pressed);
    move_paddles(state, window_height);
    move_ball(&mut state.ball.position, &state.ball.velocity);
    handle_collisions(state);
    let scored = detect_scoring(&state.ball.position, window_width);
    if let Some(sc) = scored {
        reset_ball(&mut state.ball.position, &mut state.ball.velocity, &sc);
        update_score(&mut state.score, &sc);
    }
    move_ai(&mut state.ai.velocity, &state.ai.position, &state.ball.position);
    scored
}

} // verus!
