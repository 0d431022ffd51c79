//! Simulation core of a two-paddle ball game.
//!
//! The library owns the authoritative game state: two paddles (one
//! human-controlled, one rule-controlled), one ball, two static boundary
//! gutters and the score. Each call to [`logic::tick`] advances that state by
//! one frame: input is turned into paddle velocity, paddles and ball move,
//! the ball bounces off paddles and gutters, a ball leaving the playfield
//! horizontally scores for one side and is reset, and the opponent paddle
//! picks its velocity for the next frame.
//!
//! All coordinates are integers in world space. Every rule is stated as a
//! contract over a mathematical model of the state and proved.

pub mod collision;
pub mod logic;
pub mod vec2;
