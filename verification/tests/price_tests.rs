use stable_fun::price::Price;
use stable_fun::ErrorCode;
use stable_fun::price::MAX_MANTISSA;
use stable_fun::price::MAX_SCALE;
use switchboard_on_demand::prelude::rust_decimal::prelude::ToPrimitive;
use switchboard_on_demand::prelude::rust_decimal::Decimal;

fn price(mantissa: i128, scale: u32) -> Price {
    Price::new(mantissa, scale).unwrap()
}

fn mint(mantissa: i128, scale: u32, quantity: u64) -> u64 {
    price(mantissa, scale).mint_quantity(quantity).unwrap()
}

fn redeem(mantissa: i128, scale: u32, quantity: u64) -> u64 {
    price(mantissa, scale).redeem_quantity(quantity).unwrap()
}

#[test]
fn new_keeps_mantissa_and_scale() {
    let p = price(1_000_123_456_789_012_345, 18);
    assert_eq!(p.mantissa(), 1_000_123_456_789_012_345);
    assert_eq!(p.scale(), 18);
}

#[test]
fn new_accepts_the_bounds() {
    assert!(Price::new(MAX_MANTISSA, MAX_SCALE).is_some());
    assert!(Price::new(-MAX_MANTISSA, 0).is_some());
    assert!(Price::new(0, 0).is_some());
}

#[test]
fn new_refuses_a_mantissa_past_96_bits() {
    assert!(Price::new(MAX_MANTISSA + 1, 0).is_none());
    assert!(Price::new(-MAX_MANTISSA - 1, 0).is_none());
    assert!(Price::new(i128::MAX, 18).is_none());
    assert!(Price::new(i128::MIN, 18).is_none());
}

#[test]
fn new_refuses_a_scale_past_28() {
    assert!(Price::new(1, 29).is_none());
    assert!(Price::new(1, u32::MAX).is_none());
}

#[test]
fn the_bounds_are_those_of_a_decimal() {
    assert_eq!(MAX_MANTISSA, Decimal::MAX.mantissa());
    assert_eq!(MAX_SCALE, Decimal::MAX_SCALE);
}

#[test]
fn minting_divides_by_the_price() {
    assert_eq!(mint(5, 1, 1000), 2000);
    assert_eq!(mint(2, 0, 1), 1);
    assert_eq!(mint(3, 0, 7), 2);
    assert_eq!(mint(1_500_000_000_000_000_000, 18, 123_456_789), 82_304_526);
    assert_eq!(mint(1_000_123_456_789_012_345, 18, 1_000_000), 999_877);
}

#[test]
fn redeeming_multiplies_by_the_price() {
    assert_eq!(redeem(5, 1, 1000), 500);
    assert_eq!(redeem(2, 0, 3), 6);
    assert_eq!(redeem(3, 0, 7), 21);
    assert_eq!(redeem(1_500_000_000_000_000_000, 18, 123_456_789), 185_185_184);
    assert_eq!(redeem(1_000_123_456_789_012_345, 18, 1_000_000), 1_000_123);
}

#[test]
fn a_half_rounds_away_from_zero() {
    // 3 / 2 = 1.5, 5 / 2 = 2.5, 1 / 0.4 = 2.5
    assert_eq!(mint(2, 0, 3), 2);
    assert_eq!(mint(2, 0, 5), 3);
    assert_eq!(mint(4, 1, 1), 3);
    // 1 * 0.5 = 0.5, 3 * 0.5 = 1.5
    assert_eq!(redeem(5, 1, 1), 1);
    assert_eq!(redeem(5, 1, 3), 2);
}

#[test]
fn less_than_a_half_rounds_down() {
    // 1 * 0.4 = 0.4, 1 / 3 = 0.33..
    assert_eq!(redeem(4, 1, 1), 0);
    assert_eq!(mint(3, 0, 1), 0);
    // 2 / 3 = 0.66..
    assert_eq!(mint(3, 0, 2), 1);
}

#[test]
fn a_price_of_one_keeps_the_quantity() {
    for scale in 0..=28u32 {
        let one = price(10i128.pow(scale), scale);
        for quantity in [0u64, 1, 2, 999, 4_294_967_295, 4_294_967_296, u64::MAX - 1, u64::MAX] {
            assert_eq!(one.mint_quantity(quantity), Ok(quantity));
            assert_eq!(one.redeem_quantity(quantity), Ok(quantity));
        }
    }
}

#[test]
fn a_zero_price_is_no_exchange_rate() {
    let zero = price(0, 18);
    assert_eq!(zero.mint_quantity(1), Err(ErrorCode::InvalidExchangeRate));
    assert_eq!(zero.mint_quantity(u64::MAX), Err(ErrorCode::InvalidExchangeRate));
    assert_eq!(zero.mint_quantity(0), Err(ErrorCode::InvalidExchangeRate));
    assert_eq!(zero.redeem_quantity(1), Err(ErrorCode::InvalidExchangeRate));
    assert_eq!(zero.redeem_quantity(u64::MAX), Err(ErrorCode::InvalidExchangeRate));
    assert_eq!(price(0, 0).redeem_quantity(0), Err(ErrorCode::InvalidExchangeRate));
}

#[test]
fn a_negative_price_is_no_exchange_rate() {
    let negative = price(-1_500_000_000_000_000_000, 18);
    assert_eq!(negative.mint_quantity(0), Err(ErrorCode::InvalidExchangeRate));
    assert_eq!(negative.mint_quantity(1000), Err(ErrorCode::InvalidExchangeRate));
    assert_eq!(negative.redeem_quantity(1000), Err(ErrorCode::InvalidExchangeRate));
    assert_eq!(price(-2, 0).redeem_quantity(10), Err(ErrorCode::InvalidExchangeRate));
    assert_eq!(price(-1, 28).mint_quantity(1), Err(ErrorCode::InvalidExchangeRate));
    assert_eq!(
        price(-MAX_MANTISSA, 0).mint_quantity(u64::MAX),
        Err(ErrorCode::InvalidExchangeRate)
    );
    assert_eq!(
        price(-MAX_MANTISSA, 0).redeem_quantity(u64::MAX),
        Err(ErrorCode::InvalidExchangeRate)
    );
}

#[test]
fn the_smallest_price_is_an_exchange_rate() {
    assert_eq!(mint(1, 28, 0), 0);
    assert_eq!(redeem(1, 28, 10_000_000_000_000_000_000), 0);
    assert_eq!(redeem(1, 19, 10_000_000_000_000_000_000), 1);
}

#[test]
fn a_quantity_of_zero_gives_nothing() {
    assert_eq!(mint(1, 28, 0), 0);
    assert_eq!(redeem(MAX_MANTISSA, 0, 0), 0);
}

#[test]
fn amounts_stop_at_the_upper_bound() {
    assert_eq!(mint(1, 28, u64::MAX), u64::MAX);
    assert_eq!(mint(1, 28, 1), u64::MAX);
    assert_eq!(mint(5, 1, u64::MAX), u64::MAX);
    assert_eq!(redeem(3, 0, u64::MAX), u64::MAX);
    assert_eq!(redeem(MAX_MANTISSA, 0, u64::MAX), u64::MAX);
    assert_eq!(redeem(MAX_MANTISSA, 28, u64::MAX), u64::MAX);
    assert_eq!(redeem(4_294_967_297, 0, 4_294_967_296), u64::MAX);
    assert_eq!(redeem(18_446_744_073_709_551_616, 0, u64::MAX), u64::MAX);
}

#[test]
fn wide_products_are_exact() {
    assert_eq!(mint(3, 0, u64::MAX), 6_148_914_691_236_517_205);
    assert_eq!(mint(MAX_MANTISSA, 28, u64::MAX), 2_328_306_436_538_696_289);
    assert_eq!(
        mint(MAX_MANTISSA, 28, 10_000_000_000_000_000_000),
        1_262_177_448_353_618_889
    );
    assert_eq!(
        mint(999_999_999_999_999_999, 18, 12_345_678_901_234_567_890),
        12_345_678_901_234_567_902
    );
    assert_eq!(
        redeem(999_999_999_999_999_999, 18, 12_345_678_901_234_567_890),
        12_345_678_901_234_567_878
    );
    assert_eq!(
        redeem(7_922_816_251_426_433_759_354_395_033, 28, u64::MAX),
        14_615_016_373_309_029_181
    );
    assert_eq!(mint(MAX_MANTISSA, 0, u64::MAX), 0);
    assert_eq!(mint(4_294_967_297, 0, 4_294_967_296), 1);
    assert_eq!(mint(18_446_744_073_709_551_616, 0, u64::MAX), 1);
    assert_eq!(mint(1, 0, 9_007_199_254_740_993), 9_007_199_254_740_993);
    assert_eq!(redeem(1, 0, 9_007_199_254_740_993), 9_007_199_254_740_993);
}

#[test]
fn a_larger_quantity_never_gives_less() {
    let prices = [price(1_000_123_456_789_012_345, 18), price(3, 0), price(7, 1), price(1, 28)];
    let quantities = [0u64, 1, 2, 3, 10, 1000, 4_294_967_296, u64::MAX / 3, u64::MAX];
    for p in prices.iter() {
        for pair in quantities.windows(2) {
            assert!(p.mint_quantity(pair[0]).unwrap() <= p.mint_quantity(pair[1]).unwrap());
            assert!(p.redeem_quantity(pair[0]).unwrap() <= p.redeem_quantity(pair[1]).unwrap());
        }
    }
}

#[test]
fn the_amount_is_the_nearest_whole_number() {
    // |amount * price - quantity| <= price / 2, over the integers
    let cases = [(1000u64, 7i128, 0u32), (999, 13, 1), (123_456_789, 987_654_321, 9), (5, 2, 0)];
    for (quantity, mantissa, scale) in cases {
        let amount = mint(mantissa, scale, quantity) as i128;
        let n = quantity as i128 * 10i128.pow(scale);
        let twice = 2 * (amount * mantissa - n);
        assert!(-mantissa < twice && twice <= mantissa);
    }
}

#[test]
fn amounts_agree_with_floating_point_on_plain_prices() {
    let prices = [
        Decimal::new(15, 1),
        Decimal::new(5, 1),
        Decimal::new(2, 0),
        Decimal::new(125, 2),
        Decimal::from_i128_with_scale(1_000_000_000_000_000_000, 18),
        Decimal::from_i128_with_scale(250_000_000_000_000_000, 18),
    ];
    let quantities = [0u64, 1, 2, 3, 7, 10, 999, 1_000_000, 123_456_789];
    for d in prices {
        let p = price(d.mantissa(), d.scale());
        let f = d.to_f64().unwrap();
        for quantity in quantities {
            assert_eq!(p.mint_quantity(quantity), Ok(((quantity as f64) / f).round() as u64));
            assert_eq!(p.redeem_quantity(quantity), Ok(((quantity as f64) * f).round() as u64));
        }
    }
}

#[test]
fn the_upper_bound_agrees_with_floating_point() {
    let tiny = 1e-28f64;
    assert_eq!(mint(1, 28, 7), ((7u64 as f64) / tiny).round() as u64);
    let large = 79228162514264337593543950335f64;
    assert_eq!(redeem(MAX_MANTISSA, 0, u64::MAX), ((u64::MAX as f64) * large).round() as u64);
}
