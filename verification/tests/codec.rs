use delila::common::{BP, BQ, BR, WP, WQ, WR};
use delila::matsig::{flip_color, get_count, is_reachable, make_string, set_count, EMPTY, STD_START};

#[test]
fn test_flip_involution() {
    for x in [
        0u32,
        0b0000_0000_1111_0000_1111_0000_1111_0000,
        0b0000_0000_0101_0101_0101_0101_0101_0101,
        0x00FFFFFF,
        0x00A5C3E1,
    ] {
        assert_eq!(flip_color(flip_color(x)), x);
    }
}

#[test]
fn test_set_count_preserves_others() {
    let mut sig = 0u32;
    sig = set_count(sig, WP, 8);
    sig = set_count(sig, WR, 2);
    sig = set_count(sig, BQ, 1);
    let updated = set_count(sig, WQ, 3);
    assert_eq!(get_count(updated, WQ), 3);
    assert_eq!(get_count(updated, WP), 8);
    assert_eq!(get_count(updated, WR), 2);
    assert_eq!(get_count(updated, BQ), 1);
    assert_eq!(get_count(updated, BR), 0);
}

#[test]
fn test_pawn_count_full_range() {
    for c in 0..=15u32 {
        let sig = set_count(0, WP, c);
        assert_eq!(get_count(sig, WP), c);
        let sig = set_count(0, BP, c);
        assert_eq!(get_count(sig, BP), c);
    }
}

#[test]
fn test_reachability_monotone() {
    // Start: 8 white pawns and 2 white rooks on the board.
    let mut start = 0u32;
    start = set_count(start, WP, 8);
    start = set_count(start, WR, 2);

    // Target requiring 8 pawns and 1 rook is reachable without promotions.
    let mut target = 0u32;
    target = set_count(target, WP, 8);
    target = set_count(target, WR, 1);
    assert!(is_reachable(start, target, false, false));

    // Target requiring 3 rooks is not.
    let mut target3 = 0u32;
    target3 = set_count(target3, WP, 8);
    target3 = set_count(target3, WR, 3);
    assert!(!is_reachable(start, target3, false, false));
}

#[test]
fn test_reachability_promotions() {
    // Pawns never increase, whatever the promotion allowances.
    let start = set_count(0, WP, 2);
    let target = set_count(0, WP, 3);
    assert!(!is_reachable(start, target, true, true));

    // With underpromotions only pawn counts are checked.
    let start = set_count(0, WP, 4);
    let mut target = set_count(0, WP, 2);
    target = set_count(target, WR, 3);
    assert!(is_reachable(start, target, false, true));
    assert!(!is_reachable(start, target, false, false));

    // With queen-only promotions, queen counts are not checked.
    let start = set_count(0, WP, 4);
    let target = set_count(0, WQ, 3);
    assert!(is_reachable(start, target, true, false));
    assert!(!is_reachable(start, target, false, false));
}

#[test]
fn test_make_string_one_sided() {
    // 1 queen, 2 rooks, 8 pawns for white; nothing for black.
    let mut sig = 0u32;
    sig = set_count(sig, WQ, 1);
    sig = set_count(sig, WR, 2);
    sig = set_count(sig, WP, 8);
    assert_eq!("QRR80:", make_string(sig));
}

#[test]
fn test_make_string_two_digit_pawns() {
    let mut sig = 0u32;
    sig = set_count(sig, WP, 12);
    sig = set_count(sig, BP, 10);
    assert_eq!("120:100", make_string(sig));
}

#[test]
fn test_standard_start_constants() {
    assert_eq!(":", make_string(EMPTY));
    assert_eq!("QRRBBNN80:QRRBBNN80", make_string(STD_START));
    assert_eq!(flip_color(STD_START), STD_START);
    assert!(is_reachable(STD_START, EMPTY, false, false));
    assert!(!is_reachable(EMPTY, STD_START, true, true));
}
