//! Common chess datatypes: piece codes and the small integer aliases
//! that the material-signature codec works in.

use vstd::prelude::*;

verus! {

// General types
pub type UByte = u8;
pub type UShort = u16;
pub type UInt = u32;
pub type SInt = i32;

// Piece types
pub type Piece = i8;
pub type Color = i8;

// Piece codes. A piece code packs a colour and a kind: the black codes
// are the white codes plus 8.

pub const KING: Piece = 1;
pub const QUEEN: Piece = 2;
pub const ROOK: Piece = 3;
pub const BISHOP: Piece = 4;
pub const KNIGHT: Piece = 5;
pub const PAWN: Piece = 6;

pub const EMPTY: Piece = 7;
pub const END_OF_BOARD: Piece = 0;

pub const WK: Piece = 1;
pub const WQ: Piece = 2;
pub const WR: Piece = 3;
pub const WB: Piece = 4;
pub const WN: Piece = 5;
pub const WP: Piece = 6;
pub const BK: Piece = 9;
pub const BQ: Piece = 10;
pub const BR: Piece = 11;
pub const BB: Piece = 12;
pub const BN: Piece = 13;
pub const BP: Piece = 14;

} // verus!
