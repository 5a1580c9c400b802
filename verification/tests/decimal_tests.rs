use arb_core::decimal::Decimal;

fn to_rd(d: &Decimal) -> rust_decimal::Decimal {
    rust_decimal::Decimal::from_i128_with_scale(d.mantissa(), d.scale())
}

#[test]
fn new_carries_mantissa_and_scale() {
    let d = Decimal::new(3141, 3);
    assert_eq!(d.mantissa(), 3141);
    assert_eq!(d.scale(), 3);
    assert_eq!(to_rd(&d).to_string(), "3.141");
}

#[test]
fn zero_is_zero() {
    let z = Decimal::zero();
    assert!(z.is_zero());
    assert!(!z.is_positive());
    assert!(!z.is_negative());
}

#[test]
fn signs_follow_mantissa() {
    assert!(Decimal::new(5, 2).is_positive());
    assert!(Decimal::new(-5, 2).is_negative());
    assert!(!Decimal::new(-5, 2).is_positive());
}

#[test]
fn checked_add_aligns_scales_exactly() {
    let a = Decimal::new(15, 1); // 1.5
    let b = Decimal::new(225, 2); // 2.25
    let c = a.checked_add(&b).unwrap();
    assert_eq!(c.mantissa(), 375);
    assert_eq!(c.scale(), 2);
}

#[test]
fn checked_sub_is_exact() {
    let a = Decimal::new(50200, 0);
    let b = Decimal::new(50010, 0);
    let c = a.checked_sub(&b).unwrap();
    assert_eq!(c.mantissa(), 190);
    assert_eq!(c.scale(), 0);
}

#[test]
fn checked_mul_adds_scales() {
    let a = Decimal::new(1, 2); // 0.01
    let b = Decimal::new(190, 0);
    let c = a.checked_mul(&b).unwrap();
    assert_eq!(c.mantissa(), 190);
    assert_eq!(c.scale(), 2); // 1.90
}

#[test]
fn mul_overflowing_the_envelope_is_refused() {
    let a = Decimal::new(1, 20);
    let b = Decimal::new(1, 20);
    assert!(a.checked_mul(&b).is_none()); // scale 40 is out of range
}

#[test]
fn div_by_100_shifts_the_scale() {
    let a = Decimal::new(1, 1); // 0.1
    let c = a.div_by_100();
    assert_eq!(c.mantissa(), 1);
    assert_eq!(c.scale(), 3); // 0.001
}

#[test]
fn half_is_exact() {
    let a = Decimal::new(3, 0);
    let h = a.half();
    assert_eq!(h.mantissa(), 15);
    assert_eq!(h.scale(), 1); // 1.5
}

#[test]
fn neg_and_abs() {
    let a = Decimal::new(-7, 1);
    assert_eq!(a.neg().mantissa(), 7);
    assert_eq!(a.abs().mantissa(), 7);
    assert_eq!(a.abs().scale(), 1);
}

#[test]
fn lt_compares_by_value_across_scales() {
    let a = Decimal::new(10, 1); // 1.0
    let b = Decimal::new(100, 2); // 1.00
    let c = Decimal::new(101, 2); // 1.01
    assert!(!a.lt(&b));
    assert!(!b.lt(&a));
    assert!(a.eq_value(&b));
    assert!(a.lt(&c));
    assert!(!c.lt(&a));
}

#[test]
fn lt_agrees_with_rust_decimal() {
    let pairs = [(15i64, 1u32, 2i64, 0u32), (-3, 2, 1, 3), (50010, 0, 50200, 0)];
    for (m1, s1, m2, s2) in pairs {
        let a = Decimal::new(m1, s1);
        let b = Decimal::new(m2, s2);
        assert_eq!(a.lt(&b), to_rd(&a) < to_rd(&b));
    }
}

#[test]
fn spread_and_mid_price() {
    let t = arb_core::types::Ticker {
        exchange: arb_core::types::Exchange::Bybit,
        pair: arb_core::types::TradingPair::new("BTC", "USDT"),
        bid: Decimal::new(50000, 0),
        ask: Decimal::new(50010, 0),
        last: Decimal::new(50005, 0),
        volume_24h: Decimal::new(1000, 0),
        timestamp: 1,
    };
    let s = t.spread().unwrap();
    assert_eq!(s.mantissa(), 10);
    assert_eq!(s.scale(), 0);
    let m = t.mid_price().unwrap();
    assert!(to_rd(&m) == "50005".parse::<rust_decimal::Decimal>().unwrap());
}
