use btc_analyser::digits::decimal_text;
use btc_analyser::units::{signed_label, unsigned_label, Btc, BTC_DECIMALS, SATOSHIS_PER_BTC};

#[test]
fn two_and_a_half_bitcoin_is_exact() {
    let btc = Btc::from_unsigned(250_000_000);
    assert!(!btc.is_negative());
    assert_eq!(btc.whole_bitcoins(), 2);
    assert_eq!(btc.fraction_satoshis(), 50_000_000);
    assert_eq!(btc.text(), "2.5");
    assert_eq!(btc.label(), "2.5 BTC");
    assert_eq!(250_000_000_f64 / SATOSHIS_PER_BTC as f64, 2.5);
}

#[test]
fn scale_is_one_hundred_million() {
    assert_eq!(SATOSHIS_PER_BTC, 100_000_000);
    assert_eq!(BTC_DECIMALS, 8);
}

#[test]
fn split_and_recombine_gives_the_satoshis_back() {
    for satoshis in [0u128, 1, 99_999_999, 100_000_000, 100_000_001, 2_100_000_000_000_000, u128::MAX] {
        let btc = Btc::from_unsigned(satoshis);
        assert!(btc.fraction_satoshis() < SATOSHIS_PER_BTC);
        assert_eq!(
            btc.whole_bitcoins() * SATOSHIS_PER_BTC as u128 + btc.fraction_satoshis() as u128,
            satoshis
        );
    }
}

#[test]
fn whole_amounts_have_no_point() {
    assert_eq!(unsigned_label(0), "0 BTC");
    assert_eq!(unsigned_label(100_000_000), "1 BTC");
    assert_eq!(unsigned_label(2_100_000_000_000_000), "21000000 BTC");
}

#[test]
fn fractions_keep_their_leading_zeros_and_drop_the_trailing_ones() {
    assert_eq!(unsigned_label(1), "0.00000001 BTC");
    assert_eq!(unsigned_label(10), "0.0000001 BTC");
    assert_eq!(unsigned_label(50_000_000), "0.5 BTC");
    assert_eq!(unsigned_label(100_000_001), "1.00000001 BTC");
    assert_eq!(unsigned_label(123_456_789), "1.23456789 BTC");
    assert_eq!(unsigned_label(40_000_000), "0.4 BTC");
    assert_eq!(unsigned_label(1_020_300), "0.010203 BTC");
}

#[test]
fn text_agrees_with_the_shortest_decimal_of_the_quotient() {
    for satoshis in [0u64, 1, 7, 40_000_000, 60_000_000, 100_000_000, 123_456_789, 250_000_000, 2_099_999_997_690_000] {
        let quotient = satoshis as f64 / SATOSHIS_PER_BTC as f64;
        assert_eq!(Btc::from_unsigned(satoshis as u128).text(), format!("{}", quotient));
    }
}

#[test]
fn negative_amounts_carry_a_sign() {
    let btc = Btc::from_satoshis(-150_000_000);
    assert!(btc.is_negative());
    assert_eq!(btc.whole_bitcoins(), 1);
    assert_eq!(btc.fraction_satoshis(), 50_000_000);
    assert_eq!(signed_label(-150_000_000), "-1.5 BTC");
    assert_eq!(signed_label(-1), "-0.00000001 BTC");
    assert_eq!(signed_label(0), "0 BTC");
    assert_eq!(signed_label(300_000_000), "3 BTC");
}

#[test]
fn extremes_of_the_signed_range() {
    assert_eq!(
        signed_label(i128::MIN),
        "-1701411834604692317316873037158.84105728 BTC"
    );
    assert_eq!(
        signed_label(i128::MAX),
        "1701411834604692317316873037158.84105727 BTC"
    );
    assert_eq!(
        unsigned_label(u128::MAX),
        "3402823669209384634633746074317.68211455 BTC"
    );
}

#[test]
fn decimal_text_of_numbers() {
    assert_eq!(decimal_text(0), "0");
    assert_eq!(decimal_text(7), "7");
    assert_eq!(decimal_text(10), "10");
    assert_eq!(decimal_text(1_234_567_890), "1234567890");
    assert_eq!(decimal_text(u128::MAX), u128::MAX.to_string());
}
