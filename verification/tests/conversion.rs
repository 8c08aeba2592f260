use si70xx::conversion::{
    code_from_response, humidity_from_code, temperature_from_code, HUMIDITY_FLOOR_CODE,
};

fn humidity_by_formula(code: u16) -> i64 {
    (12500 * i64::from(code)).div_euclid(65536) - 600
}

fn temperature_by_formula(code: u16) -> i64 {
    (17572 * i64::from(code)).div_euclid(65536) - 4685
}

#[test]
fn response_is_read_most_significant_byte_first() {
    assert_eq!(code_from_response([0x6A, 0x37]), 0x6A37);
    assert_eq!(code_from_response([0x6A, 0x37]), 27191);
    assert_eq!(code_from_response([0x63, 0x57]), 25431);
    assert_eq!(code_from_response([0x00, 0x01]), 1);
    assert_eq!(code_from_response([0x01, 0x00]), 256);
    assert_eq!(code_from_response([0x00, 0x00]), 0);
    assert_eq!(code_from_response([0xFF, 0xFF]), 65535);
}

#[test]
fn response_agrees_with_from_be_bytes_on_every_pair() {
    for high in 0..=255u8 {
        for low in 0..=255u8 {
            assert_eq!(code_from_response([high, low]), u16::from_be_bytes([high, low]));
        }
    }
}

#[test]
fn humidity_of_code_6a37() {
    // 12500 * 27191 = 339_887_500, and 339_887_500 / 65536 = 5186 rem 17_804.
    assert_eq!(humidity_from_code(0x6A37), 5186 - 600);
    assert_eq!(humidity_from_code(27191), 4586);
}

#[test]
fn humidity_of_45_78_percent() {
    assert_eq!(humidity_from_code(27147), 4577);
    assert_eq!(humidity_from_code(27148), 4578);
    assert_eq!(humidity_from_code(27152), 4578);
    assert_eq!(humidity_from_code(27153), 4579);
}

#[test]
fn temperature_of_code_6357() {
    // 17572 * 25431 = 446_873_532, and 446_873_532 / 65536 = 6818 rem 49_084.
    assert_eq!(temperature_from_code(0x6357), 6818 - 4685);
    assert_eq!(temperature_from_code(25431), 2133);
}

#[test]
fn temperature_of_23_33_degrees() {
    assert_eq!(temperature_from_code(26174), 2332);
    assert_eq!(temperature_from_code(26175), 2333);
    assert_eq!(temperature_from_code(26177), 2333);
    assert_eq!(temperature_from_code(26178), 2334);
}

#[test]
fn humidity_at_the_ends_of_the_code_range() {
    assert_eq!(humidity_from_code(65535), 11899);
    assert_eq!(humidity_from_code(0x8000), 5650);
    assert_eq!(humidity_from_code(HUMIDITY_FLOOR_CODE), 0);
    assert_eq!(HUMIDITY_FLOOR_CODE, 3146);
}

#[test]
fn humidity_is_not_clamped_at_the_top() {
    assert_eq!(humidity_from_code(55574), 9999);
    assert_eq!(humidity_from_code(55575), 10000);
    assert_eq!(humidity_from_code(60000), 10844);
}

#[test]
fn negative_humidity_is_reported_modulo_65536() {
    assert_eq!(humidity_from_code(0), 64936);
    assert_eq!(humidity_from_code(0), (-600i16) as u16);
    assert_eq!(humidity_from_code(1), 64936);
    assert_eq!(humidity_from_code(3145), 65535);
    assert_eq!(humidity_from_code(3145), (-1i16) as u16);
}

#[test]
fn temperature_at_the_ends_of_the_code_range() {
    assert_eq!(temperature_from_code(0), -4685);
    assert_eq!(temperature_from_code(65535), 12886);
    assert_eq!(temperature_from_code(0x8000), 4101);
    assert_eq!(temperature_from_code(17473), -1);
    assert_eq!(temperature_from_code(17474), 0);
}

#[test]
fn humidity_follows_the_formula_for_every_code() {
    for code in 0..=u16::MAX {
        let expected = humidity_by_formula(code);
        let got = humidity_from_code(code);
        assert_eq!(i64::from(got), expected.rem_euclid(65536), "code {}", code);
        if code >= HUMIDITY_FLOOR_CODE {
            assert_eq!(i64::from(got), expected, "code {}", code);
        } else {
            assert!(expected < 0, "code {}", code);
            assert_eq!(i64::from(got as i16), expected, "code {}", code);
        }
    }
}

#[test]
fn temperature_follows_the_formula_for_every_code() {
    for code in 0..=u16::MAX {
        assert_eq!(
            i64::from(temperature_from_code(code)),
            temperature_by_formula(code),
            "code {}",
            code
        );
    }
}

#[test]
fn humidity_never_decreases_from_the_floor_code_on() {
    let mut last = humidity_from_code(HUMIDITY_FLOOR_CODE);
    for code in HUMIDITY_FLOOR_CODE..=u16::MAX {
        let next = humidity_from_code(code);
        assert!(last <= next, "code {}", code);
        last = next;
    }
}

#[test]
fn signed_humidity_never_decreases() {
    let mut last = humidity_from_code(0) as i16;
    for code in 0..=u16::MAX {
        let next = humidity_from_code(code) as i16;
        assert!(last <= next, "code {}", code);
        last = next;
    }
}

#[test]
fn temperature_never_decreases() {
    let mut last = temperature_from_code(0);
    for code in 0..=u16::MAX {
        let next = temperature_from_code(code);
        assert!(last <= next, "code {}", code);
        last = next;
    }
}

#[test]
fn conversions_give_the_same_value_each_time() {
    for code in [0u16, 1, 3145, 3146, 27191, 25431, 65535] {
        assert_eq!(humidity_from_code(code), humidity_from_code(code));
        assert_eq!(temperature_from_code(code), temperature_from_code(code));
    }
}
