use cdi_device_plugin::text::{decimal_string, rank, rank_bytes, Rank};

#[test]
fn decimal_of_small_and_large_numbers() {
    assert_eq!(decimal_string(0), "0");
    assert_eq!(decimal_string(7), "7");
    assert_eq!(decimal_string(9), "9");
    assert_eq!(decimal_string(10), "10");
    assert_eq!(decimal_string(105), "105");
    assert_eq!(decimal_string(12345), "12345");
    assert_eq!(decimal_string(usize::MAX), usize::MAX.to_string());
}

#[test]
fn decimal_agrees_with_the_standard_rendering() {
    for n in 0usize..2000 {
        assert_eq!(decimal_string(n), n.to_string());
    }
}

#[test]
fn rank_of_byte_strings() {
    assert_eq!(rank_bytes(b"", b""), Rank::Same);
    assert_eq!(rank_bytes(b"", b"a"), Rank::Before);
    assert_eq!(rank_bytes(b"a", b""), Rank::After);
    assert_eq!(rank_bytes(b"abc", b"abd"), Rank::Before);
    assert_eq!(rank_bytes(b"abd", b"abc"), Rank::After);
    assert_eq!(rank_bytes(b"abc", b"abc"), Rank::Same);
    assert_eq!(rank_bytes(b"ab", b"abc"), Rank::Before);
    assert_eq!(rank_bytes(&[0xff], &[0x00, 0x01]), Rank::After);
}

#[test]
fn rank_of_ids_is_not_numeric() {
    assert_eq!(rank("nvidia.com/gpu=10", "nvidia.com/gpu=2"), Rank::Before);
    assert_eq!(rank("nvidia.com/gpu=2", "nvidia.com/gpu=10"), Rank::After);
    assert_eq!(rank("nvidia.com/gpu=1", "nvidia.com/gpu=10"), Rank::Before);
    assert_eq!(rank("nvidia.com/gpu=3", "nvidia.com/gpu=3"), Rank::Same);
}

#[test]
fn rank_agrees_with_the_order_of_strings() {
    let samples = ["", "a", "ab", "b", "z", "é", "日本", "a=10", "a=2", "A", "~", "\u{10ffff}"];
    for a in samples {
        for b in samples {
            let expected = if a < b {
                Rank::Before
            } else if a > b {
                Rank::After
            } else {
                Rank::Same
            };
            assert_eq!(rank(a, b), expected);
        }
    }
}
