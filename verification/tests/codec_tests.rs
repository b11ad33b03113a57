use polygon_fetch::codec::{decode_correction, decode_trade_id, encode_conditions};
use polygon_fetch::error::{FetchError, PermanentCause};

fn encode(codes: &[u16], max: u16) -> Result<u64, FetchError> {
    let v: Vec<u16> = codes.to_vec();
    encode_conditions(&v, max)
}

#[test]
fn encode_conditions_exact_value() {
    // Padded to [12, 3, 0, 0], sorted to [0, 0, 3, 12]; lanes are 8 bits
    // wide, least significant first: 3 << 16 | 12 << 24.
    let r = encode(&[12, 3], 256).unwrap();
    assert_eq!(r, 3 * 65536 + 12 * 16777216);
}

#[test]
fn encode_conditions_wide_lane_exact_value() {
    // With a maximum of 512 the lanes are 9 bits wide: [1] packs into the
    // top lane as 1 << 27.
    let r = encode(&[1], 512).unwrap();
    assert_eq!(r, 1u64 << 27);
}

#[test]
fn encode_conditions_empty_is_zero() {
    assert_eq!(encode(&[], 256).unwrap(), 0);
    assert_eq!(encode(&[], 512).unwrap(), 0);
}

#[test]
fn encode_conditions_permutation_invariant() {
    let perms: [[u16; 3]; 6] = [
        [1, 7, 10],
        [1, 10, 7],
        [7, 1, 10],
        [7, 10, 1],
        [10, 1, 7],
        [10, 7, 1],
    ];
    let expected = encode(&perms[0], 256).unwrap();
    for p in perms.iter() {
        assert_eq!(encode(p, 256).unwrap(), expected);
    }
    let four: [[u16; 4]; 4] = [
        [5, 5, 200, 0],
        [5, 200, 5, 0],
        [200, 0, 5, 5],
        [0, 5, 5, 200],
    ];
    let expected4 = encode(&four[0], 512).unwrap();
    for p in four.iter() {
        assert_eq!(encode(p, 512).unwrap(), expected4);
    }
}

#[test]
fn encode_conditions_rejects_five_codes() {
    let r = encode(&[1, 2, 3, 4, 5], 256);
    assert!(matches!(
        r,
        Err(FetchError::Permanent(PermanentCause::TooManyConditions))
    ));
}

#[test]
fn encode_conditions_rejects_code_at_maximum() {
    let r = encode(&[256], 256);
    assert!(matches!(
        r,
        Err(FetchError::Permanent(PermanentCause::ConditionTooLarge))
    ));
    let r = encode(&[512], 512);
    assert!(matches!(
        r,
        Err(FetchError::Permanent(PermanentCause::ConditionTooLarge))
    ));
    assert!(encode(&[511], 512).is_ok());
}

#[test]
fn decode_correction_allow_list() {
    assert_eq!(decode_correction(0).unwrap(), 0);
    assert_eq!(decode_correction(1).unwrap(), 1);
    assert_eq!(decode_correction(7).unwrap(), 2);
    assert_eq!(decode_correction(8).unwrap(), 3);
    assert_eq!(decode_correction(10).unwrap(), 4);
    assert_eq!(decode_correction(11).unwrap(), 5);
    assert_eq!(decode_correction(12).unwrap(), 6);
}

#[test]
fn decode_correction_rejects_everything_else() {
    for v in [2u8, 3, 4, 5, 6, 9, 13, 99, 255] {
        assert!(matches!(
            decode_correction(v),
            Err(FetchError::Permanent(PermanentCause::UnknownCorrection))
        ));
    }
}

#[test]
fn trade_id_short_token_is_deterministic() {
    // "AB" packs big-endian, zero-padded to eight bytes.
    let first = decode_trade_id("AB").unwrap();
    let second = decode_trade_id("AB").unwrap();
    assert_eq!(first, second);
    assert_eq!(first, 0x4142_0000_0000_0000);
}

#[test]
fn trade_id_short_tokens_pack_big_endian() {
    assert_eq!(decode_trade_id("").unwrap(), 0);
    assert_eq!(decode_trade_id("AAPL").unwrap(), 0x4141_504C_0000_0000);
    assert_eq!(decode_trade_id("12345678").unwrap(), 0x3132_3334_3536_3738);
}

#[test]
fn trade_id_decimal_strings_parse() {
    assert_eq!(decode_trade_id("123456789").unwrap(), 123_456_789);
    assert_eq!(
        decode_trade_id("18446744073709551615").unwrap(),
        u64::MAX
    );
}

#[test]
fn trade_id_rejects_twenty_one_characters() {
    let r = decode_trade_id("123456789012345678901");
    assert!(matches!(
        r,
        Err(FetchError::Permanent(PermanentCause::TradeIdTooLong))
    ));
}

#[test]
fn trade_id_rejects_non_decimal_long_tokens() {
    let r = decode_trade_id("12345678X");
    assert!(matches!(
        r,
        Err(FetchError::Permanent(PermanentCause::TradeIdNotDecimal))
    ));
}

#[test]
fn trade_id_rejects_decimal_overflow() {
    // One more than u64::MAX, still twenty characters.
    let r = decode_trade_id("18446744073709551616");
    assert!(matches!(
        r,
        Err(FetchError::Permanent(PermanentCause::TradeIdNotDecimal))
    ));
}
