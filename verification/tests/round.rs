use xoodoo_p::round::round;

#[test]
fn round_of_zero_state_without_constant_is_zero() {
    let mut st = [0u32; 12];
    round(&mut st, 0);
    assert_eq!(st, [0u32; 12]);
}

#[test]
fn round_adds_the_constant_to_lane_zero_alone() {
    let mut st = [0u32; 12];
    round(&mut st, 0x58);
    assert_eq!(st, [0x58, 0, 0, 0, 0xB0, 0, 0, 0, 0, 0, 0, 0]);
}

#[test]
fn round_on_a_dense_state() {
    let mut st: [u32; 12] = [
        0x89ABCDEF, 0x8ACF1356, 0x8BF258BD, 0x8D159E24,
        0x8E38E38B, 0x8F5C28F2, 0x907F6E59, 0x91A2B3C0,
        0x92C5F927, 0x93E93E8E, 0x950C83F5, 0x962FC95C,
    ];
    round(&mut st, 0x12);
    assert_eq!(st, [
        0x71BDFDCC, 0x8C501632, 0xE1F19279, 0x10655EFF,
        0xDA9214B2, 0xC0948858, 0xA36C6BE8, 0x9CA8F061,
        0x1FEB5C24, 0x56495A26, 0x2485D6B6, 0x970C6B79,
    ]);
}

#[test]
fn round_spreads_one_bit_of_plane_a() {
    let mut st = [0u32; 12];
    st[0] = 1;
    round(&mut st, 0);
    assert_eq!(st, [
        0x00000001, 0x02014020, 0x00000000, 0x00000000,
        0x00000002, 0x00008040, 0x00008040, 0x00000000,
        0x00402000, 0x00000000, 0x00000000, 0x01000002,
    ]);
}

#[test]
fn round_spreads_one_bit_of_plane_b() {
    let mut st = [0u32; 12];
    st[7] = 1;
    round(&mut st, 0);
    assert_eq!(st, [
        0x02014020, 0x00000000, 0x00000000, 0x00000000,
        0x00008042, 0x00008040, 0x00000000, 0x00000000,
        0x00000000, 0x00000000, 0x01000102, 0x00402000,
    ]);
}

#[test]
fn round_spreads_one_bit_of_plane_c() {
    let mut st = [0u32; 12];
    st[10] = 1;
    round(&mut st, 0);
    assert_eq!(st, [
        0x00000000, 0x00000000, 0x00000800, 0x02014020,
        0x00008040, 0x00000000, 0x00000000, 0x00008040,
        0x00080000, 0x01000002, 0x00402000, 0x00000000,
    ]);
}

#[test]
fn round_gives_the_same_state_each_time() {
    let start: [u32; 12] = [7, 6, 5, 4, 3, 2, 1, 0, 0xFFFF_FFFF, 0x8000_0000, 0x7FFF_FFFF, 1];
    let mut a = start;
    let mut b = start;
    round(&mut a, 0x3C0);
    round(&mut b, 0x3C0);
    assert_eq!(a, b);
    assert_ne!(a, start);
}

#[test]
fn round_with_each_constant_differs_in_lane_zero() {
    let keys: [u32; 12] = [0x58, 0x38, 0x3C0, 0xD0, 0x120, 0x14, 0x60, 0x2C, 0x380, 0xF0, 0x1A0, 0x12];
    let start: [u32; 12] = [
        0x89ABCDEF, 0x8ACF1356, 0x8BF258BD, 0x8D159E24,
        0x8E38E38B, 0x8F5C28F2, 0x907F6E59, 0x91A2B3C0,
        0x92C5F927, 0x93E93E8E, 0x950C83F5, 0x962FC95C,
    ];
    for i in 0..12 {
        for j in (i + 1)..12 {
            let mut a = start;
            let mut b = start;
            round(&mut a, keys[i]);
            round(&mut b, keys[j]);
            assert_ne!(a[0], b[0]);
            assert_eq!(a[1..4], b[1..4]);
        }
    }
}

#[test]
fn round_takes_different_states_to_different_states() {
    let mut seen: Vec<[u32; 12]> = Vec::new();
    for lane in 0..12 {
        for bit in 0..32 {
            let mut st = [0u32; 12];
            st[lane] = 1u32 << bit;
            round(&mut st, 0x58);
            assert!(!seen.contains(&st));
            seen.push(st);
        }
    }
    assert_eq!(seen.len(), 384);
}
