use goal_tracker::numeral::{parse_u32, render_decimal};

#[test]
fn decimal_rendering_agrees_with_std() {
    for n in [0_u32, 1, 9, 10, 11, 99, 100, 101, 1000, 65535, 4294967294, u32::MAX] {
        assert_eq!(render_decimal(n), n.to_string());
    }
    for n in 0..2000_u32 {
        assert_eq!(render_decimal(n), n.to_string());
    }
}

#[test]
fn decimal_rendering_has_no_leading_zeros() {
    assert_eq!(render_decimal(0), "0");
    assert_eq!(render_decimal(7), "7");
    assert_eq!(render_decimal(70), "70");
    assert_eq!(render_decimal(4294967295), "4294967295");
}

#[test]
fn parsing_agrees_with_std() {
    let samples = [
        "", "0", "7", "007", "+7", "-7", "+", "-", "++7", "+-7", "7+", " 7", "7 ", "1a", "a1",
        "4294967295", "4294967296", "04294967295", "00000000000000000000001", "42949672950",
        "99999999999999999999", "٣", "７", "1_000", "0x10", "1.0", "1e3", "+0", "+4294967295",
        "+4294967296", "12345", "3000000000", "4294967289", "4294967299",
    ];
    for s in samples {
        assert_eq!(parse_u32(s), s.parse::<u32>().ok(), "{:?}", s);
    }
}

#[test]
fn parsing_reads_what_rendering_wrote() {
    for n in [0_u32, 1, 9, 10, 123, 4294967295] {
        assert_eq!(parse_u32(render_decimal(n).as_str()), Some(n));
    }
}

#[test]
fn parsing_refuses_what_is_no_number() {
    assert_eq!(parse_u32(""), None);
    assert_eq!(parse_u32("+"), None);
    assert_eq!(parse_u32("seven"), None);
    assert_eq!(parse_u32("4294967296"), None);
    assert_eq!(parse_u32("4294967295"), Some(u32::MAX));
    assert_eq!(parse_u32("+12"), Some(12));
}
