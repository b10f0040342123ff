//! Material signatures.
//!
//! A material signature is a 32-bit unsigned integer whose low 24 bits
//! hold ten counters, one per piece kind and side (kings excluded):
//! pawn counters are 4 bits wide, all other counters 2 bits. From most
//! significant bits down:
//!
//! bits 22-23: WQ    bits 10-11: BQ
//! bits 20-21: WR    bits  8- 9: BR
//! bits 18-19: WB    bits  6- 7: BB
//! bits 16-17: WN    bits  4- 5: BN
//! bits 12-15: WP    bits  0- 3: BP
//!
//! So pawn counts 0 to 15 are representable, but for the other pieces
//! only counts up to 3; writes of larger non-pawn counts saturate at 3.

use vstd::prelude::*;

use crate::common::Piece;
use crate::common::UInt;
use crate::common::WQ;
use crate::common::WR;
use crate::common::WB;
use crate::common::WN;
use crate::common::WP;
use crate::common::BQ;
use crate::common::BR;
use crate::common::BB;
use crate::common::BN;
use crate::common::BP;

verus! {

pub type MaterialSignature = u32;

// Shifts:

pub const SHIFT_BP: u32 = 0;
pub const SHIFT_BN: u32 = 4;
pub const SHIFT_BB: u32 = 6;
pub const SHIFT_BR: u32 = 8;
pub const SHIFT_BQ: u32 = 10;
pub const SHIFT_WP: u32 = 12;
pub const SHIFT_WN: u32 = 16;
pub const SHIFT_WB: u32 = 18;
pub const SHIFT_WR: u32 = 20;
pub const SHIFT_WQ: u32 = 22;

// Masks:

pub const MASK_BP: u32 = 0x0000000F;
pub const MASK_BN: u32 = 0x00000030;
pub const MASK_BB: u32 = 0x000000C0;
pub const MASK_BR: u32 = 0x00000300;
pub const MASK_BQ: u32 = 0x00000C00;
pub const MASK_WP: u32 = 0x0000F000;
pub const MASK_WN: u32 = 0x00030000;
pub const MASK_WB: u32 = 0x000C0000;
pub const MASK_WR: u32 = 0x00300000;
pub const MASK_WQ: u32 = 0x00C00000;

/// A signature is valid when it uses only its low 24 bits.
pub open spec fn valid_signature(m: MaterialSignature) -> bool {
    m < 0x1000000
}

// The mathematical model of a signature: the value of each of its ten
// counters.

pub open spec fn spec_count_wq(m: MaterialSignature) -> u32 {
    (m & MASK_WQ) >> SHIFT_WQ
}

pub open spec fn spec_count_wr(m: MaterialSignature) -> u32 {
    (m & MASK_WR) >> SHIFT_WR
}

pub open spec fn spec_count_wb(m: MaterialSignature) -> u32 {
    (m & MASK_WB) >> SHIFT_WB
}

pub open spec fn spec_count_wn(m: MaterialSignature) -> u32 {
    (m & MASK_WN) >> SHIFT_WN
}

pub open spec fn spec_count_wp(m: MaterialSignature) -> u32 {
    (m & MASK_WP) >> SHIFT_WP
}

pub open spec fn spec_count_bq(m: MaterialSignature) -> u32 {
    (m & MASK_BQ) >> SHIFT_BQ
}

pub open spec fn spec_count_br(m: MaterialSignature) -> u32 {
    (m & MASK_BR) >> SHIFT_BR
}

pub open spec fn spec_count_bb(m: MaterialSignature) -> u32 {
    (m & MASK_BB) >> SHIFT_BB
}

pub open spec fn spec_count_bn(m: MaterialSignature) -> u32 {
    (m & MASK_BN) >> SHIFT_BN
}

pub open spec fn spec_count_bp(m: MaterialSignature) -> u32 {
    (m & MASK_BP) >> SHIFT_BP
}

/// The ten piece codes that own a counter (kings have none).
pub open spec fn is_valid_piece(p: Piece) -> bool {
    ||| p == WQ
    ||| p == WR
    ||| p == WB
    ||| p == WN
    ||| p == WP
    ||| p == BQ
    ||| p == BR
    ||| p == BB
    ||| p == BN
    ||| p == BP
}

/// The counter of piece `p` in signature `m`; 0 for a code with no counter.
pub open spec fn spec_get_count(m: MaterialSignature, p: Piece) -> u32 {
    if p == WQ {
        spec_count_wq(m)
    } else if p == WR {
        spec_count_wr(m)
    } else if p == WB {
        spec_count_wb(m)
    } else if p == WN {
        spec_count_wn(m)
    } else if p == WP {
        spec_count_wp(m)
    } else if p == BQ {
        spec_count_bq(m)
    } else if p == BR {
        spec_count_br(m)
    } else if p == BB {
        spec_count_bb(m)
    } else if p == BN {
        spec_count_bn(m)
    } else if p == BP {
        spec_count_bp(m)
    } else {
        0
    }
}

/// Every counter fits its field: 3 for the 2-bit fields, 15 for pawns.
pub proof fn lemma_counter_bounds(m: MaterialSignature)
    ensures
        spec_count_wq(m) <= 3,
        spec_count_wr(m) <= 3,
        spec_count_wb(m) <= 3,
        spec_count_wn(m) <= 3,
        spec_count_wp(m) <= 15,
        spec_count_bq(m) <= 3,
        spec_count_br(m) <= 3,
        spec_count_bb(m) <= 3,
        spec_count_bn(m) <= 3,
        spec_count_bp(m) <= 15,
{
    assert((m & MASK_WQ) >> SHIFT_WQ <= 3 && (m & MASK_WR) >> SHIFT_WR <= 3
        && (m & MASK_WB) >> SHIFT_WB <= 3 && (m & MASK_WN) >> SHIFT_WN <= 3
        && (m & MASK_WP) >> SHIFT_WP <= 15 && (m & MASK_BQ) >> SHIFT_BQ <= 3
        && (m & MASK_BR) >> SHIFT_BR <= 3 && (m & MASK_BB) >> SHIFT_BB <= 3
        && (m & MASK_BN) >> SHIFT_BN <= 3 && (m & MASK_BP) >> SHIFT_BP <= 15) by (bit_vector);
}

/// A masked field is nonzero exactly when its counter is nonzero.
proof fn lemma_has_iff_count(m: MaterialSignature)
    ensures
        (m & MASK_WQ != 0) <==> spec_count_wq(m) != 0,
        (m & MASK_WR != 0) <==> spec_count_wr(m) != 0,
        (m & MASK_WB != 0) <==> spec_count_wb(m) != 0,
        (m & MASK_WN != 0) <==> spec_count_wn(m) != 0,
        (m & MASK_WP != 0) <==> spec_count_wp(m) != 0,
        (m & MASK_BQ != 0) <==> spec_count_bq(m) != 0,
        (m & MASK_BR != 0) <==> spec_count_br(m) != 0,
        (m & MASK_BB != 0) <==> spec_count_bb(m) != 0,
        (m & MASK_BN != 0) <==> spec_count_bn(m) != 0,
        (m & MASK_BP != 0) <==> spec_count_bp(m) != 0,
{
    assert(((m & MASK_WQ != 0) <==> (m & MASK_WQ) >> SHIFT_WQ != 0)
        && ((m & MASK_WR != 0) <==> (m & MASK_WR) >> SHIFT_WR != 0)
        && ((m & MASK_WB != 0) <==> (m & MASK_WB) >> SHIFT_WB != 0)
        && ((m & MASK_WN != 0) <==> (m & MASK_WN) >> SHIFT_WN != 0)
        && ((m & MASK_WP != 0) <==> (m & MASK_WP) >> SHIFT_WP != 0)
        && ((m & MASK_BQ != 0) <==> (m & MASK_BQ) >> SHIFT_BQ != 0)
        && ((m & MASK_BR != 0) <==> (m & MASK_BR) >> SHIFT_BR != 0)
        && ((m & MASK_BB != 0) <==> (m & MASK_BB) >> SHIFT_BB != 0)
        && ((m & MASK_BN != 0) <==> (m & MASK_BN) >> SHIFT_BN != 0)
        && ((m & MASK_BP != 0) <==> (m & MASK_BP) >> SHIFT_BP != 0)) by (bit_vector);
}

/// Exchange the two sides: the low 12 bits (black) and the next 12 bits
/// (white) trade places.
pub open spec fn spec_flip(m: MaterialSignature) -> MaterialSignature {
    (m >> 12) | ((m & 0x00000FFF) << 12)
}

/// Swapping sides maps each white counter onto the matching black
/// counter and back, stays within 24 bits, and is its own inverse.
pub fn flip_color(x: MaterialSignature) -> (r: MaterialSignature)
    requires
        valid_signature(x),
    ensures
        r == spec_flip(x),
        valid_signature(r),
        spec_count_wq(r) == spec_count_bq(x),
        spec_count_wr(r) == spec_count_br(x),
        spec_count_wb(r) == spec_count_bb(x),
        spec_count_wn(r) == spec_count_bn(x),
        spec_count_wp(r) == spec_count_bp(x),
        spec_count_bq(r) == spec_count_wq(x),
        spec_count_br(r) == spec_count_wr(x),
        spec_count_bb(r) == spec_count_wb(x),
        spec_count_bn(r) == spec_count_wn(x),
        spec_count_bp(r) == spec_count_wp(x),
{
    proof {
        lemma_flip_swaps_counters(x);
    }
    (x >> 12u32) | ((x & 0x00000FFF) << 12)
}

proof fn lemma_flip_swaps_counters(x: MaterialSignature)
    requires
        valid_signature(x),
    ensures
        spec_flip(x) < 0x1000000,
        spec_count_wq(spec_flip(x)) == spec_count_bq(x),
        spec_count_wr(spec_flip(x)) == spec_count_br(x),
        spec_count_wb(spec_flip(x)) == spec_count_bb(x),
        spec_count_wn(spec_flip(x)) == spec_count_bn(x),
        spec_count_wp(spec_flip(x)) == spec_count_bp(x),
        spec_count_bq(spec_flip(x)) == spec_count_wq(x),
        spec_count_br(spec_flip(x)) == spec_count_wr(x),
        spec_count_bb(spec_flip(x)) == spec_count_wb(x),
        spec_count_bn(spec_flip(x)) == spec_count_wn(x),
        spec_count_bp(spec_flip(x)) == spec_count_wp(x),
{
    let r = spec_flip(x);
    assert(x < 0x1000000 ==> ((x >> 12) | ((x & 0x00000FFF) << 12)) < 0x1000000) by (bit_vector);
    assert(x < 0x1000000 ==> {
        let f = (x >> 12) | ((x & 0x00000FFF) << 12);
        &&& (f & MASK_WQ) >> SHIFT_WQ == (x & MASK_BQ) >> SHIFT_BQ
        &&& (f & MASK_WR) >> SHIFT_WR == (x & MASK_BR) >> SHIFT_BR
        &&& (f & MASK_WB) >> SHIFT_WB == (x & MASK_BB) >> SHIFT_BB
        &&& (f & MASK_WN) >> SHIFT_WN == (x & MASK_BN) >> SHIFT_BN
        &&& (f & MASK_WP) >> SHIFT_WP == (x & MASK_BP) >> SHIFT_BP
        &&& (f & MASK_BQ) >> SHIFT_BQ == (x & MASK_WQ) >> SHIFT_WQ
        &&& (f & MASK_BR) >> SHIFT_BR == (x & MASK_WR) >> SHIFT_WR
        &&& (f & MASK_BB) >> SHIFT_BB == (x & MASK_WB) >> SHIFT_WB
        &&& (f & MASK_BN) >> SHIFT_BN == (x & MASK_WN) >> SHIFT_WN
        &&& (f & MASK_BP) >> SHIFT_BP == (x & MASK_WP) >> SHIFT_WP
    }) by (bit_vector);
}

/// Law: flipping colours twice gives back the signature, for every
/// valid (24-bit) signature.
pub proof fn lemma_flip_involution(m: MaterialSignature)
    requires
        valid_signature(m),
    ensures
        spec_flip(spec_flip(m)) == m,
{
    assert(m < 0x1000000 ==> {
        let f = (m >> 12) | ((m & 0x00000FFF) << 12);
        ((f >> 12) | ((f & 0x00000FFF) << 12)) == m
    }) by (bit_vector);
}

// Quick tests for non-zero counts of a piece type:

pub fn has_wq(x: MaterialSignature) -> (r: MaterialSignature)
    ensures
        r == x & MASK_WQ,
        (r != 0) <==> spec_count_wq(x) != 0,
{
    proof { lemma_has_iff_count(x); }
    x & MASK_WQ
}

pub fn has_bq(x: MaterialSignature) -> (r: MaterialSignature)
    ensures
        r == x & MASK_BQ,
        (r != 0) <==> spec_count_bq(x) != 0,
{
    proof { lemma_has_iff_count(x); }
    x & MASK_BQ
}

pub fn has_wr(x: MaterialSignature) -> (r: MaterialSignature)
    ensures
        r == x & MASK_WR,
        (r != 0) <==> spec_count_wr(x) != 0,
{
    proof { lemma_has_iff_count(x); }
    x & MASK_WR
}

pub fn has_br(x: MaterialSignature) -> (r: MaterialSignature)
    ensures
        r == x & MASK_BR,
        (r != 0) <==> spec_count_br(x) != 0,
{
    proof { lemma_has_iff_count(x); }
    x & MASK_BR
}

pub fn has_wb(x: MaterialSignature) -> (r: MaterialSignature)
    ensures
        r == x & MASK_WB,
        (r != 0) <==> spec_count_wb(x) != 0,
{
    proof { lemma_has_iff_count(x); }
    x & MASK_WB
}

pub fn has_bb(x: MaterialSignature) -> (r: MaterialSignature)
    ensures
        r == x & MASK_BB,
        (r != 0) <==> spec_count_bb(x) != 0,
{
    proof { lemma_has_iff_count(x); }
    x & MASK_BB
}

pub fn has_wn(x: MaterialSignature) -> (r: MaterialSignature)
    ensures
        r == x & MASK_WN,
        (r != 0) <==> spec_count_wn(x) != 0,
{
    proof { lemma_has_iff_count(x); }
    x & MASK_WN
}

pub fn has_bn(x: MaterialSignature) -> (r: MaterialSignature)
    ensures
        r == x & MASK_BN,
        (r != 0) <==> spec_count_bn(x) != 0,
{
    proof { lemma_has_iff_count(x); }
    x & MASK_BN
}

pub fn has_wp(x: MaterialSignature) -> (r: MaterialSignature)
    ensures
        r == x & MASK_WP,
        (r != 0) <==> spec_count_wp(x) != 0,
{
    proof { lemma_has_iff_count(x); }
    x & MASK_WP
}

pub fn has_bp(x: MaterialSignature) -> (r: MaterialSignature)
    ensures
        r == x & MASK_BP,
        (r != 0) <==> spec_count_bp(x) != 0,
{
    proof { lemma_has_iff_count(x); }
    x & MASK_BP
}

pub fn has_queens(x: MaterialSignature) -> (r: MaterialSignature)
    ensures
        r == x & (MASK_WQ | MASK_BQ),
        (r != 0) <==> (spec_count_wq(x) != 0 || spec_count_bq(x) != 0),
{
    proof {
        lemma_has_iff_count(x);
        assert((x & (MASK_WQ | MASK_BQ) != 0) <==> (x & MASK_WQ != 0 || x & MASK_BQ != 0))
            by (bit_vector);
    }
    x & (MASK_WQ | MASK_BQ)
}

pub fn has_rooks(x: MaterialSignature) -> (r: MaterialSignature)
    ensures
        r == x & (MASK_WR | MASK_BR),
        (r != 0) <==> (spec_count_wr(x) != 0 || spec_count_br(x) != 0),
{
    proof {
        lemma_has_iff_count(x);
        assert((x & (MASK_WR | MASK_BR) != 0) <==> (x & MASK_WR != 0 || x & MASK_BR != 0))
            by (bit_vector);
    }
    x & (MASK_WR | MASK_BR)
}

pub fn has_bishops(x: MaterialSignature) -> (r: MaterialSignature)
    ensures
        r == x & (MASK_WB | MASK_BB),
        (r != 0) <==> (spec_count_wb(x) != 0 || spec_count_bb(x) != 0),
{
    proof {
        lemma_has_iff_count(x);
        assert((x & (MASK_WB | MASK_BB) != 0) <==> (x & MASK_WB != 0 || x & MASK_BB != 0))
            by (bit_vector);
    }
    x & (MASK_WB | MASK_BB)
}

pub fn has_knights(x: MaterialSignature) -> (r: MaterialSignature)
    ensures
        r == x & (MASK_WN | MASK_BN),
        (r != 0) <==> (spec_count_wn(x) != 0 || spec_count_bn(x) != 0),
{
    proof {
        lemma_has_iff_count(x);
        assert((x & (MASK_WN | MASK_BN) != 0) <==> (x & MASK_WN != 0 || x & MASK_BN != 0))
            by (bit_vector);
    }
    x & (MASK_WN | MASK_BN)
}

pub fn has_pawn(x: MaterialSignature) -> (r: MaterialSignature)
    ensures
        r == x & (MASK_WP | MASK_BP),
        (r != 0) <==> (spec_count_wp(x) != 0 || spec_count_bp(x) != 0),
{
    proof {
        lemma_has_iff_count(x);
        assert((x & (MASK_WP | MASK_BP) != 0) <==> (x & MASK_WP != 0 || x & MASK_BP != 0))
            by (bit_vector);
    }
    x & (MASK_WP | MASK_BP)
}

// Extraction of a particular count:

pub fn count_wq(x: MaterialSignature) -> (r: u32)
    ensures
        r == spec_count_wq(x),
        r <= 3,
{
    proof { lemma_counter_bounds(x); }
    (x & MASK_WQ) >> SHIFT_WQ
}

pub fn count_bq(x: MaterialSignature) -> (r: u32)
    ensures
        r == spec_count_bq(x),
        r <= 3,
{
    proof { lemma_counter_bounds(x); }
    (x & MASK_BQ) >> SHIFT_BQ
}

pub fn count_wr(x: MaterialSignature) -> (r: u32)
    ensures
        r == spec_count_wr(x),
        r <= 3,
{
    proof { lemma_counter_bounds(x); }
    (x & MASK_WR) >> SHIFT_WR
}

pub fn count_br(x: MaterialSignature) -> (r: u32)
    ensures
        r == spec_count_br(x),
        r <= 3,
{
    proof { lemma_counter_bounds(x); }
    (x & MASK_BR) >> SHIFT_BR
}

pub fn count_wb(x: MaterialSignature) -> (r: u32)
    ensures
        r == spec_count_wb(x),
        r <= 3,
{
    proof { lemma_counter_bounds(x); }
    (x & MASK_WB) >> SHIFT_WB
}

pub fn count_bb(x: MaterialSignature) -> (r: u32)
    ensures
        r == spec_count_bb(x),
        r <= 3,
{
    proof { lemma_counter_bounds(x); }
    (x & MASK_BB) >> SHIFT_BB
}

pub fn count_wn(x: MaterialSignature) -> (r: u32)
    ensures
        r == spec_count_wn(x),
        r <= 3,
{
    proof { lemma_counter_bounds(x); }
    (x & MASK_WN) >> SHIFT_WN
}

pub fn count_bn(x: MaterialSignature) -> (r: u32)
    ensures
        r == spec_count_bn(x),
        r <= 3,
{
    proof { lemma_counter_bounds(x); }
    (x & MASK_BN) >> SHIFT_BN
}

pub fn count_wp(x: MaterialSignature) -> (r: u32)
    ensures
        r == spec_count_wp(x),
        r <= 15,
{
    proof { lemma_counter_bounds(x); }
    (x & MASK_WP) >> SHIFT_WP
}

pub fn count_bp(x: MaterialSignature) -> (r: u32)
    ensures
        r == spec_count_bp(x),
        r <= 15,
{
    proof { lemma_counter_bounds(x); }
    (x & MASK_BP) >> SHIFT_BP
}

/// The counter of piece `p`, or 0 when `p` has no counter.
pub fn get_count(m: MaterialSignature, p: Piece) -> (r: u32)
    ensures
        r == spec_get_count(m, p),
        r <= 15,
{
    proof { lemma_counter_bounds(m); }
    if p == WQ {
        count_wq(m)
    } else if p == WR {
        count_wr(m)
    } else if p == WB {
        count_wb(m)
    } else if p == WN {
        count_wn(m)
    } else if p == WP {
        count_wp(m)
    } else if p == BQ {
        count_bq(m)
    } else if p == BR {
        count_br(m)
    } else if p == BB {
        count_bb(m)
    } else if p == BN {
        count_bn(m)
    } else if p == BP {
        count_bp(m)
    } else {
        0
    }
}

/// The value that `set_count` actually stores: non-pawn counters
/// saturate at 3, pawn counters pass through.
pub open spec fn spec_clamped(p: Piece, count: u32) -> u32 {
    if p == WP || p == BP {
        count
    } else if count > 3 {
        3
    } else {
        count
    }
}

/// Write counter `p` to `count` (saturated at 3 for non-pawn pieces),
/// leaving every other counter exactly as it was.
pub fn set_count(m: MaterialSignature, p: Piece, count: UInt) -> (r: MaterialSignature)
    requires
        is_valid_piece(p),
        (p == WP || p == BP) ==> count <= 15,
    ensures
        spec_get_count(r, p) == spec_clamped(p, count),
        forall|q: Piece|
            is_valid_piece(q) && q != p ==> #[trigger] spec_get_count(r, q) == spec_get_count(
                m,
                q,
            ),
{
    let c: u32 = if p != WP && p != BP && count > 3 {
        3
    } else {
        count
    };
    if p == WP {
        let r = (m & !MASK_WP) | (c << SHIFT_WP);
        proof { lemma_set_field(m, c, MASK_WP, SHIFT_WP); }
        r
    } else if p == BP {
        let r = (m & !MASK_BP) | (c << SHIFT_BP);
        proof { lemma_set_field(m, c, MASK_BP, SHIFT_BP); }
        r
    } else if p == WQ {
        let r = (m & !MASK_WQ) | (c << SHIFT_WQ);
        proof { lemma_set_field(m, c, MASK_WQ, SHIFT_WQ); }
        r
    } else if p == WR {
        let r = (m & !MASK_WR) | (c << SHIFT_WR);
        proof { lemma_set_field(m, c, MASK_WR, SHIFT_WR); }
        r
    } else if p == WB {
        let r = (m & !MASK_WB) | (c << SHIFT_WB);
        proof { lemma_set_field(m, c, MASK_WB, SHIFT_WB); }
        r
    } else if p == WN {
        let r = (m & !MASK_WN) | (c << SHIFT_WN);
        proof { lemma_set_field(m, c, MASK_WN, SHIFT_WN); }
        r
    } else if p == BQ {
        let r = (m & !MASK_BQ) | (c << SHIFT_BQ);
        proof { lemma_set_field(m, c, MASK_BQ, SHIFT_BQ); }
        r
    } else if p == BR {
        let r = (m & !MASK_BR) | (c << SHIFT_BR);
        proof { lemma_set_field(m, c, MASK_BR, SHIFT_BR); }
        r
    } else if p == BB {
        let r = (m & !MASK_BB) | (c << SHIFT_BB);
        proof { lemma_set_field(m, c, MASK_BB, SHIFT_BB); }
        r
    } else {
        let r = (m & !MASK_BN) | (c << SHIFT_BN);
        proof { lemma_set_field(m, c, MASK_BN, SHIFT_BN); }
        r
    }
}

/// Clearing one counter field and writing a in-range value into it
/// sets that counter and leaves all ten fields outside the mask alone.
proof fn lemma_set_field(m: u32, c: u32, mask: u32, shift: u32)
    requires
        (mask == MASK_WQ && shift == SHIFT_WQ && c <= 3)
        || (mask == MASK_WR && shift == SHIFT_WR && c <= 3)
        || (mask == MASK_WB && shift == SHIFT_WB && c <= 3)
        || (mask == MASK_WN && shift == SHIFT_WN && c <= 3)
        || (mask == MASK_WP && shift == SHIFT_WP && c <= 15)
        || (mask == MASK_BQ && shift == SHIFT_BQ && c <= 3)
        || (mask == MASK_BR && shift == SHIFT_BR && c <= 3)
        || (mask == MASK_BB && shift == SHIFT_BB && c <= 3)
        || (mask == MASK_BN && shift == SHIFT_BN && c <= 3)
        || (mask == MASK_BP && shift == SHIFT_BP && c <= 15),
    ensures
        ((m & !mask) | (c << shift)) & mask == c << shift,
        ((((m & !mask) | (c << shift)) & mask) >> shift) == c,
        mask != MASK_WQ ==> spec_count_wq((m & !mask) | (c << shift)) == spec_count_wq(m),
        mask != MASK_WR ==> spec_count_wr((m & !mask) | (c << shift)) == spec_count_wr(m),
        mask != MASK_WB ==> spec_count_wb((m & !mask) | (c << shift)) == spec_count_wb(m),
        mask != MASK_WN ==> spec_count_wn((m & !mask) | (c << shift)) == spec_count_wn(m),
        mask != MASK_WP ==> spec_count_wp((m & !mask) | (c << shift)) == spec_count_wp(m),
        mask != MASK_BQ ==> spec_count_bq((m & !mask) | (c << shift)) == spec_count_bq(m),
        mask != MASK_BR ==> spec_count_br((m & !mask) | (c << shift)) == spec_count_br(m),
        mask != MASK_BB ==> spec_count_bb((m & !mask) | (c << shift)) == spec_count_bb(m),
        mask != MASK_BN ==> spec_count_bn((m & !mask) | (c << shift)) == spec_count_bn(m),
        mask != MASK_BP ==> spec_count_bp((m & !mask) | (c << shift)) == spec_count_bp(m),
{
    assert(((mask == MASK_WQ && shift == SHIFT_WQ && c <= 3)
        || (mask == MASK_WR && shift == SHIFT_WR && c <= 3)
        || (mask == MASK_WB && shift == SHIFT_WB && c <= 3)
        || (mask == MASK_WN && shift == SHIFT_WN && c <= 3)
        || (mask == MASK_WP && shift == SHIFT_WP && c <= 15)
        || (mask == MASK_BQ && shift == SHIFT_BQ && c <= 3)
        || (mask == MASK_BR && shift == SHIFT_BR && c <= 3)
        || (mask == MASK_BB && shift == SHIFT_BB && c <= 3)
        || (mask == MASK_BN && shift == SHIFT_BN && c <= 3)
        || (mask == MASK_BP && shift == SHIFT_BP && c <= 15)) ==> {
        let r = (m & !mask) | (c << shift);
        &&& r & mask == c << shift
        &&& ((r & mask) >> shift) == c
        &&& (mask != MASK_WQ ==> (r & MASK_WQ) >> SHIFT_WQ == (m & MASK_WQ) >> SHIFT_WQ)
        &&& (mask != MASK_WR ==> (r & MASK_WR) >> SHIFT_WR == (m & MASK_WR) >> SHIFT_WR)
        &&& (mask != MASK_WB ==> (r & MASK_WB) >> SHIFT_WB == (m & MASK_WB) >> SHIFT_WB)
        &&& (mask != MASK_WN ==> (r & MASK_WN) >> SHIFT_WN == (m & MASK_WN) >> SHIFT_WN)
        &&& (mask != MASK_WP ==> (r & MASK_WP) >> SHIFT_WP == (m & MASK_WP) >> SHIFT_WP)
        &&& (mask != MASK_BQ ==> (r & MASK_BQ) >> SHIFT_BQ == (m & MASK_BQ) >> SHIFT_BQ)
        &&& (mask != MASK_BR ==> (r & MASK_BR) >> SHIFT_BR == (m & MASK_BR) >> SHIFT_BR)
        &&& (mask != MASK_BB ==> (r & MASK_BB) >> SHIFT_BB == (m & MASK_BB) >> SHIFT_BB)
        &&& (mask != MASK_BN ==> (r & MASK_BN) >> SHIFT_BN == (m & MASK_BN) >> SHIFT_BN)
        &&& (mask != MASK_BP ==> (r & MASK_BP) >> SHIFT_BP == (m & MASK_BP) >> SHIFT_BP)
    }) by (bit_vector);
}

// Common constant matsigs:

pub const EMPTY: MaterialSignature = 0;

pub const STD_START: MaterialSignature = (1 << SHIFT_WQ) | (1 << SHIFT_BQ) | (2 << SHIFT_WR) | (2
    << SHIFT_BR) | (2 << SHIFT_WB) | (2 << SHIFT_BB) | (2 << SHIFT_WN) | (2 << SHIFT_BN) | (8
    << SHIFT_WP) | (8 << SHIFT_BP);

// String rendering:

/// `n` copies of the character `c`.
pub open spec fn char_repeat(c: char, n: nat) -> Seq<char> {
    Seq::new(n, |i: int| c)
}

/// The decimal digits of a pawn count (at most 15) followed by the `0`
/// marker, or nothing when the count is zero.
pub open spec fn spec_pawn_digits(p: u32) -> Seq<char> {
    if p == 1 {
        seq!['1', '0']
    } else if p == 2 {
        seq!['2', '0']
    } else if p == 3 {
        seq!['3', '0']
    } else if p == 4 {
        seq!['4', '0']
    } else if p == 5 {
        seq!['5', '0']
    } else if p == 6 {
        seq!['6', '0']
    } else if p == 7 {
        seq!['7', '0']
    } else if p == 8 {
        seq!['8', '0']
    } else if p == 9 {
        seq!['9', '0']
    } else if p == 10 {
        seq!['1', '0', '0']
    } else if p == 11 {
        seq!['1', '1', '0']
    } else if p == 12 {
        seq!['1', '2', '0']
    } else if p == 13 {
        seq!['1', '3', '0']
    } else if p == 14 {
        seq!['1', '4', '0']
    } else if p == 15 {
        seq!['1', '5', '0']
    } else {
        Seq::empty()
    }
}

/// One side of the rendering: piece letters in the fixed order queen,
/// rook, bishop, knight, then the pawn count and its marker.
pub open spec fn spec_side_string(q: u32, r: u32, b: u32, n: u32, p: u32) -> Seq<char> {
    char_repeat('Q', q as nat) + char_repeat('R', r as nat) + char_repeat('B', b as nat)
        + char_repeat('N', n as nat) + spec_pawn_digits(p)
}

/// The full rendering: white's side, a colon, black's side.
pub open spec fn spec_render(m: MaterialSignature) -> Seq<char> {
    spec_side_string(
        spec_count_wq(m),
        spec_count_wr(m),
        spec_count_wb(m),
        spec_count_wn(m),
        spec_count_wp(m),
    ) + seq![':'] + spec_side_string(
        spec_count_bq(m),
        spec_count_br(m),
        spec_count_bb(m),
        spec_count_bn(m),
        spec_count_bp(m),
    )
}

/// Append `n` copies of the one-character string `ch` to `s`.
fn append_repeat(s: &mut String, ch: &str, n: u32)
    requires
        ch@.len() == 1,
    ensures
        final(s)@ == old(s)@ + char_repeat(ch@[0], n as nat),
{
    let ghost base = s@;
    let mut i: u32 = 0;
    while i < n
        invariant
            i <= n,
            ch@.len() == 1,
            s@ == base + char_repeat(ch@[0], i as nat),
        decreases n - i,
    {
        s.append(ch);
        i = i + 1;
        proof {
            assert(base + char_repeat(ch@[0], (i - 1) as nat) + ch@
                =~= base + char_repeat(ch@[0], i as nat));
        }
    }
    proof {
        assert(s@ == base + char_repeat(ch@[0], n as nat));
    }
}

/// Append the rendering of one pawn counter to `s`.
fn append_pawn_digits(s: &mut String, p: u32)
    requires
        p <= 15,
    ensures
        final(s)@ == old(s)@ + spec_pawn_digits(p),
{
    proof {
        reveal_strlit("10");
        reveal_strlit("20");
        reveal_strlit("30");
        reveal_strlit("40");
        reveal_strlit("50");
        reveal_strlit("60");
        reveal_strlit("70");
        reveal_strlit("80");
        reveal_strlit("90");
        reveal_strlit("100");
        reveal_strlit("110");
        reveal_strlit("120");
        reveal_strlit("130");
        reveal_strlit("140");
        reveal_strlit("150");
    }
    if p == 1 {
        s.append("10");
    } else if p == 2 {
        s.append("20");
    } else if p == 3 {
        s.append("30");
    } else if p == 4 {
        s.append("40");
    } else if p == 5 {
        s.append("50");
    } else if p == 6 {
        s.append("60");
    } else if p == 7 {
        s.append("70");
    } else if p == 8 {
        s.append("80");
    } else if p == 9 {
        s.append("90");
    } else if p == 10 {
        s.append("100");
    } else if p == 11 {
        s.append("110");
    } else if p == 12 {
        s.append("120");
    } else if p == 13 {
        s.append("130");
    } else if p == 14 {
        s.append("140");
    } else if p == 15 {
        s.append("150");
    }
    proof {
        assert(final(s)@ =~= old(s)@ + spec_pawn_digits(p));
    }
}

/// Render a signature: white's letters in queen, rook, bishop, knight
/// order, white's pawn count with its `0` marker if any pawns, a colon,
/// then black's side the same way. An all-zero signature renders `":"`.
pub fn make_string(m: MaterialSignature) -> (s: String)
    ensures
        s@ == spec_render(m),
{
    proof {
        reveal_strlit("Q");
        reveal_strlit("R");
        reveal_strlit("B");
        reveal_strlit("N");
        reveal_strlit(":");
        lemma_counter_bounds(m);
    }
    let mut s = String::new();
    append_repeat(&mut s, "Q", count_wq(m));
    append_repeat(&mut s, "R", count_wr(m));
    append_repeat(&mut s, "B", count_wb(m));
    append_repeat(&mut s, "N", count_wn(m));
    append_pawn_digits(&mut s, count_wp(m));
    s.append(":");
    append_repeat(&mut s, "Q", count_bq(m));
    append_repeat(&mut s, "R", count_br(m));
    append_repeat(&mut s, "B", count_bb(m));
    append_repeat(&mut s, "N", count_bn(m));
    append_pawn_digits(&mut s, count_bp(m));
    proof {
        assert(s@ =~= spec_render(m));
    }
    s
}

/// Whether a game whose current material is `start` could still reach
/// material `target`. Pawns never reappear, so pawn counts must be
/// non-increasing. With underpromotions any other piece may reappear;
/// with queen-only promotions any queen may; otherwise every counter
/// must be non-increasing.
pub open spec fn spec_reachable(
    start: MaterialSignature,
    target: MaterialSignature,
    promos: bool,
    upromo: bool,
) -> bool {
    &&& spec_count_wp(start) >= spec_count_wp(target)
    &&& spec_count_bp(start) >= spec_count_bp(target)
    &&& (upromo || {
        &&& spec_count_wr(start) >= spec_count_wr(target)
        &&& spec_count_br(start) >= spec_count_br(target)
        &&& spec_count_wb(start) >= spec_count_wb(target)
        &&& spec_count_bb(start) >= spec_count_bb(target)
        &&& spec_count_wn(start) >= spec_count_wn(target)
        &&& spec_count_bn(start) >= spec_count_bn(target)
        &&& (promos || {
            &&& spec_count_wq(start) >= spec_count_wq(target)
            &&& spec_count_bq(start) >= spec_count_bq(target)
        })
    })
}

/// Monotone pruning test for material searches: `true` exactly when
/// `target` is still reachable from `start` under the given promotion
/// allowances.
pub fn is_reachable(
    m_start: MaterialSignature,
    m_target: MaterialSignature,
    promos: bool,
    upromo: bool,
) -> (r: bool)
    ensures
        r == spec_reachable(m_start, m_target, promos, upromo),
{
    if count_wp(m_start) < count_wp(m_target) {
        return false;
    }
    if count_bp(m_start) < count_bp(m_target) {
        return false;
    }

    // If there are underpromotions, only the pawn counts can be checked:
    if upromo {
        return true;
    }

    // No underpromotions, so check non-queen piece counts:
    if count_wr(m_start) < count_wr(m_target) {
        return false;
    }
    if count_br(m_start) < count_br(m_target) {
        return false;
    }
    if count_wb(m_start) < count_wb(m_target) {
        return false;
    }
    if count_bb(m_start) < count_bb(m_target) {
        return false;
    }
    if count_wn(m_start) < count_wn(m_target) {
        return false;
    }
    if count_bn(m_start) < count_bn(m_target) {
        return false;
    }

    // If there were promotions (to queens), queen counts cannot be checked:
    if promos {
        return true;
    }

    // Check queen counts:
    if count_wq(m_start) < count_wq(m_target) {
        return false;
    }
    if count_bq(m_start) < count_bq(m_target) {
        return false;
    }

    true
}

} // verus!
