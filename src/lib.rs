//! The decision engine of a planet in the game of `common_game`: it charges the
//! planet's energy cells from sunrays, builds and launches rockets against
//! asteroids, and answers the queries of visiting explorers.
//!
//! `game` declares what is used of `common_game` and the model of its planet
//! state; `reserve` holds the index-order scans over the energy cells; `ai` the
//! engine and its handlers; `laws` the properties proved of the handlers.

pub mod ai;
pub mod game;
pub mod kinds;
pub mod laws;
pub mod protocol;
pub mod reserve;
