//! Decision logic of a one-on-one Rocket League bot: which team a car plays
//! for, which car is the opponent, the two-state strategy machine (kickoff and
//! attack-the-ball) and the fixed controller settings each strategy asks for.
//!
//! Everything that works on floating-point game data (positions, angles,
//! steering, clamping of analogue inputs) lives in the application around
//! this library; it hands the library the yes/no facts it has read off a game
//! tick and receives the decisions back.

pub mod team;
pub mod strategy;
