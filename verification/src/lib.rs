//! A deterministic rock-paper-scissors ledger.
//!
//! A player's move is resolved against a counter-move derived from a hash of
//! public inputs, the outcome is added to a cumulative score, and the match is
//! appended to a bounded history that keeps only the most recent entries. The
//! whole record lives in one fixed-size binary blob.

pub mod account;
pub mod codec;
pub mod entropy;
pub mod error;
pub mod game;
pub mod history;
pub mod instruction;
pub mod outcome;
pub mod provisioning;
pub mod record;

pub use account::{
    initialize, make_play, make_play_with, pay_for_plays, withdraw_treasury, GameState,
};
pub use codec::{decode, encode};
pub use error::ErrorCode;
pub use game::play;
pub use history::append;
pub use instruction::{apply_move, authorize, process_instruction, Admission, PlaySummary};
pub use outcome::{resolve, MatchResult, Resolution};
pub use record::{GameData, GameRecord};
