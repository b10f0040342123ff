//! The stored row shapes the backend exchanges with its storage
//! collaborator.
//!
//! The library holds them as plain values; the process around it adds
//! whatever serialization or query derives its storage layer wants on
//! its own copies.

use vstd::prelude::*;

verus! {

/// A calendar date as plain values. The storage collaborator works in
/// its own date type; the library reads only the year, month and day.
#[derive(Clone, Copy, PartialEq, Eq, Structural)]
pub struct Date {
    pub year: i32,
    pub month: u8,
    pub day: u8,
}

impl Date {
    /// A plausible calendar date: month and day in range.
    pub open spec fn wf(&self) -> bool {
        1 <= self.month <= 12 && 1 <= self.day <= 31
    }
}

pub struct Position {
    pub id: i64,
    pub hash_1: i64,
    pub hash_2: i64,
}

pub struct LineMove {
    pub id: i64,
    pub move_id: i64,
    pub tag_id: i64,
    pub line_id: i64,
    pub ply: i16,
}

pub struct Player {
    pub id: i32,
    pub first_name: String,
    pub last_name: String,
    pub middlename: Option<String>,
}

pub struct Event {
    pub id: i32,
    pub name: String,
    pub city: String,
    pub country: String,
    pub year: i16,
}

pub struct Site {
    pub id: i32,
    pub name: String,
}

pub struct Game {
    pub id: i32,
    pub white_player_id: i32,
    pub white_player_rating: i16,
    pub black_player_id: i32,
    pub black_player_rating: i16,
    pub event_id: i32,
    pub site_id: i32,
    pub date: Date,
    pub round: i16,
    pub result: String,
}

} // verus!
