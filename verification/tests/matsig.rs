use delila::common::{BB, BN, BP, BQ, BR, WB, WN, WP, WQ, WR};
use delila::matsig::{
    count_bb, count_bn, count_bp, count_bq, count_br, count_wb, count_wn, count_wp, count_wq,
    count_wr, flip_color, get_count, has_bb, has_bn, has_bp, has_bq, has_br, has_wb, has_wn,
    has_wp, has_wq, has_wr, make_string, set_count,
};

#[test]
fn test_flipcolor() {
    let x = 0b0000_0000_1111_0000_1111_0000_1111_0000;
    let y = 0b0000_0000_0000_1111_0000_1111_0000_1111;
    assert_eq!(y, flip_color(x));

    let x = 0b0000_0000_1111_0000_1111_0100_1011_0100;
    let y = 0b0000_0000_0100_1011_0100_1111_0000_1111;
    assert_eq!(y, flip_color(x));
}

#[test]
fn test_has_wq_count_wq() {
    let none = 0b0000_0000_0011_1111_1111_1111_1111_1111;
    assert!(has_wq(none) == 0);
    assert_eq!(count_wq(none), 0);
    let some = 0b0000_0000_1100_0000_0000_0000_0000_0000;
    assert!(has_wq(some) > 0);
    assert_eq!(count_wq(some), 3);
}

#[test]
fn test_has_bq_count_bq() {
    let none = 0b0000_0000_1111_1111_1111_0011_1111_1111;
    assert!(has_bq(none) == 0);
    assert_eq!(count_bq(none), 0);
    let some = 0b0000_0000_0000_0000_0000_1100_0000_0000;
    assert!(has_bq(some) > 0);
    assert_eq!(count_bq(some), 3);
}

#[test]
fn test_has_wr_count_wr() {
    let none = 0b0000_0000_1100_1111_1111_1111_1111_1111;
    assert!(has_wr(none) == 0);
    assert_eq!(count_wr(none), 0);
    let some = 0b0000_0000_0011_0000_0000_0000_0000_0000;
    assert!(has_wr(some) > 0);
    assert_eq!(count_wr(some), 3);
}

#[test]
fn test_has_br_count_br() {
    let none = 0b0000_0000_1111_1111_1111_1100_1111_1111;
    assert!(has_br(none) == 0);
    assert_eq!(count_br(none), 0);
    let some = 0b0000_0000_0000_0000_0000_0011_0000_0000;
    assert!(has_br(some) > 0);
    assert_eq!(count_br(some), 3);
}

#[test]
fn test_has_wb_count_wb() {
    let none = 0b0000_0000_1111_0011_1111_1111_1111_1111;
    assert!(has_wb(none) == 0);
    assert_eq!(count_wb(none), 0);
    let some = 0b0000_0000_0000_1100_0000_0000_0000_0000;
    assert!(has_wb(some) > 0);
    assert_eq!(count_wb(some), 3);
}

#[test]
fn test_has_bb_count_bb() {
    let none = 0b0000_0000_1111_1111_1111_1111_0011_1111;
    assert!(has_bb(none) == 0);
    assert_eq!(count_bb(none), 0);
    let some = 0b0000_0000_0000_0000_0000_0000_1100_0000;
    assert!(has_bb(some) > 0);
    assert_eq!(count_bb(some), 3);
}

#[test]
fn test_has_wn_count_wn() {
    let none = 0b0000_0000_1111_1100_1111_1111_1111_1111;
    assert!(has_wn(none) == 0);
    assert_eq!(count_wn(none), 0);
    let some = 0b0000_0000_0000_0011_0000_0000_0000_0000;
    assert!(has_wn(some) > 0);
    assert_eq!(count_wn(some), 3);
}

#[test]
fn test_has_bn_count_wn() {
    let none = 0b0000_0000_1111_1111_1111_1111_1100_1111;
    assert!(has_bn(none) == 0);
    assert_eq!(count_bn(none), 0);
    let some = 0b0000_0000_0000_0000_0000_0000_0011_0000;
    assert!(has_bn(some) > 0);
    assert_eq!(count_bn(some), 3);
}

#[test]
fn test_has_wp_count_wp() {
    let none = 0b0000_0000_1111_1111_0000_1111_1111_1111;
    assert!(has_wp(none) == 0);
    assert_eq!(count_wp(none), 0);
    let some = 0b0000_0000_0000_0000_1111_0000_0000_0000;
    assert!(has_wp(some) > 0);
    assert_eq!(count_wp(some), 15);
}

#[test]
fn test_has_bp_count_bp() {
    let none = 0b0000_0000_1111_1111_1111_1111_1111_0000;
    assert!(has_bp(none) == 0);
    assert_eq!(count_bp(none), 0);
    let some = 0b0000_0000_0000_0000_0000_0000_0000_1111;
    assert!(has_bp(some) > 0);
    assert_eq!(count_bp(some), 15);
}

#[test]
fn test_get_count() {
    let none = 0b0000_0000_0000_0000_0000_0000_0000_0000;
    assert!(get_count(none, WP) == 0);
    assert!(get_count(none, WN) == 0);
    assert!(get_count(none, WB) == 0);
    assert!(get_count(none, WR) == 0);
    assert!(get_count(none, WQ) == 0);
    assert!(get_count(none, BP) == 0);
    assert!(get_count(none, BN) == 0);
    assert!(get_count(none, BB) == 0);
    assert!(get_count(none, BR) == 0);
    assert!(get_count(none, BQ) == 0);

    let some = 0b0000_0000_0000_0000_1111_0000_0000_0000;
    assert_eq!(get_count(some, WP), 15);
    let some = 0b0000_0000_0000_0011_0000_0000_0000_0000;
    assert_eq!(get_count(some, WN), 3);
    let some = 0b0000_0000_0000_1100_0000_0000_0000_0000;
    assert_eq!(get_count(some, WB), 3);
    let some = 0b0000_0000_0011_0000_0000_0000_0000_0000;
    assert_eq!(get_count(some, WR), 3);
    let some = 0b0000_0000_1100_0000_0000_0000_0000_0000;
    assert_eq!(get_count(some, WQ), 3);

    let some = 0b0000_0000_0000_0000_0000_0000_0000_1111;
    assert_eq!(get_count(some, BP), 15);
    let some = 0b0000_0000_0000_0000_0000_0000_0011_0000;
    assert_eq!(get_count(some, BN), 3);
    let some = 0b0000_0000_0000_0000_0000_0000_1100_0000;
    assert_eq!(get_count(some, BB), 3);
    let some = 0b0000_0000_0000_0000_0000_0011_0000_0000;
    assert_eq!(get_count(some, BR), 3);
    let some = 0b0000_0000_0000_0000_0000_1100_0000_0000;
    assert_eq!(get_count(some, BQ), 3);
}

#[test]
fn test_set_count() {
    for p in [WP, BP] {
        let none = 0b0000_0000_0000_0000_0000_0000_0000_0000;
        let none = set_count(none, p, 1);
        assert_eq!(get_count(none, p), 1);
        let none = set_count(none, p, 8);
        assert_eq!(get_count(none, p), 8);
    }

    for p in [WN, WB, WR, WQ, BN, BB, BR, BQ] {
        let none = 0b0000_0000_0000_0000_0000_0000_0000_0000;
        let none = set_count(none, p, 1);
        assert_eq!(get_count(none, p), 1);
        let none = set_count(none, p, 3);
        assert_eq!(get_count(none, p), 3);
        let none = set_count(none, p, 15);
        assert_eq!(get_count(none, p), 3);
    }
}

#[test]
fn test_make_string() {
    let none = 0b0000_0000_0000_0000_0000_0000_0000_0000;
    assert_eq!(":", make_string(none));
    let none = 0b0000_0000_1111_1111_1111_1111_1111_1111;
    assert_eq!("QQQRRRBBBNNN150:QQQRRRBBBNNN150", make_string(none));
    let none = 0b0000_0000_0101_0101_0101_0101_0101_0101;
    assert_eq!("QRBN50:QRBN50", make_string(none));
}
