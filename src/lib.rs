//! Core of a two-player paddle-and-ball game for a text-mode display:
//! colors and the character grid, paddles, the ball and its collision
//! rules, the game phase and the tick and key dispatch.
pub mod color;
pub mod screen;
pub mod paddle;
pub mod ball;
pub mod config;
pub mod location;
pub mod render;
pub mod game;
pub mod dispatch;
