//! Core of a single-screen brick-breaking arcade game.
//!
//! A ball bounces among walls, a player-controlled paddle, and a grid of
//! destructible bricks. The library owns the per-tick simulation: collision
//! resolution, score and lives bookkeeping, and the terminal win/lose
//! decision. Rendering, input capture, and frame scheduling belong to the
//! host, which talks to the session through plain-value accessors and
//! mutators.

pub mod bricks;
pub mod config;
pub mod entities;
pub mod game;
pub mod laws;

pub use bricks::Bricks;
pub use config::Config;
pub use config::ConfigError;
pub use entities::Ball;
pub use entities::Brick;
pub use entities::Paddle;
pub use entities::Rgb;
pub use entities::Shape;
pub use entities::UserInput;
pub use game::Game;
pub use game::Status;
