//! Decision logic of a trading middleman bot for an online game.
//!
//! The bot reads the output of screen detectors, decides where to point and
//! click, keeps track of the traders of each trade channel, works out which
//! gold pouches pay a debt, and steps through each trade as a state machine
//! whose actions a host program carries out.

pub mod text;
pub mod detect;
pub mod pointer;
pub mod pouches;
pub mod traders;
pub mod records;
pub mod replies;
pub mod flows;
