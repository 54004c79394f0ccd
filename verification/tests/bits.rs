use xoodoo_p::bits::rotate_left;

#[test]
fn rotate_left_wraps_the_top_bit_to_the_bottom() {
    assert_eq!(rotate_left(0x8000_0001, 1), 0x0000_0003);
}

#[test]
fn rotate_left_by_each_amount_of_the_round() {
    assert_eq!(rotate_left(0x1234_5678, 5), 0x468A_CF02);
    assert_eq!(rotate_left(0x1234_5678, 8), 0x3456_7812);
    assert_eq!(rotate_left(0x1234_5678, 11), 0xA2B3_C091);
    assert_eq!(rotate_left(0x1234_5678, 14), 0x159E_048D);
}

#[test]
fn rotate_left_by_the_largest_amount() {
    assert_eq!(rotate_left(0xDEAD_BEEF, 31), 0xEF56_DF77);
}

#[test]
fn rotate_left_agrees_with_the_standard_library() {
    let words: [u32; 5] = [0, 1, 0x8000_0000, 0xFFFF_FFFF, 0x0F1E_2D3C];
    for x in words {
        for n in 1..32u32 {
            assert_eq!(rotate_left(x, n), x.rotate_left(n));
        }
    }
}

#[test]
fn rotate_left_moves_every_bit_by_the_amount() {
    let x: u32 = 0xC3A5_0F71;
    for n in 1..32u32 {
        let r = rotate_left(x, n);
        for i in 0..32u32 {
            assert_eq!((r >> ((i + n) % 32)) & 1, (x >> i) & 1);
        }
    }
}
