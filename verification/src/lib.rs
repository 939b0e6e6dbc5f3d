//! The rules of a two-player game of Pong, with every function verified.
//!
//! A tick of the game is exact. Lengths and speeds are whole numbers of
//! equal parts of a thousandth of a pixel, and a paddle that returns the
//! ball makes the parts as fine as the spin that it gives needs; see
//! [`units`] and [`entity`]. The rules are stated once as mathematics, in
//! [`scene`], and [`game_state`] plays by them.
//!
//! The parts can become only so fine before a tick would leave machine
//! integers. Nothing in a tick rounds; a driver that wants to play on from
//! there asks for the nearest state in thousandths of a pixel, which is the
//! one place where a length is rounded.

pub mod entity;
pub mod game;
pub mod game_state;
pub mod math;
pub mod scene;
pub mod units;
