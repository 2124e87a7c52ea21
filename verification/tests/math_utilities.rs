use billios::math::utilities::GetNumPower;

#[test]
fn test_get_power() {
    assert_eq!(100, GetNumPower::power_n(2, Some(10)));
    assert_eq!(100, GetNumPower::power_n(2, None));
}

#[test]
fn test_get_power_10() {
    assert_eq!(100, GetNumPower::power_10(2));
    assert_eq!(1000, GetNumPower::power_10(3));
}

#[test]
fn test_power_zero_is_one() {
    assert_eq!(1, GetNumPower::power_10(0));
    assert_eq!(1, GetNumPower::power_n(0, None));
    assert_eq!(1, GetNumPower::power_n(0, Some(7)));
}

#[test]
fn test_power_n_other_bases() {
    assert_eq!(8, GetNumPower::power_n(3, Some(2)));
    assert_eq!(125, GetNumPower::power_n(3, Some(5)));
    assert_eq!(2_147_483_648, GetNumPower::power_n(31, Some(2)));
    assert_eq!(1, GetNumPower::power_n(200, Some(1)));
    assert_eq!(0, GetNumPower::power_n(5, Some(0)));
}

#[test]
fn test_power_10_largest_exponent() {
    assert_eq!(1_000_000_000, GetNumPower::power_10(9));
}

#[test]
fn test_power_10_each_exponent() {
    let mut expected: u32 = 1;
    for n in 0..=9u32 {
        assert_eq!(expected, GetNumPower::power_10(n));
        assert_eq!(expected, GetNumPower::power_n(n, None));
        if n < 9 {
            expected *= 10;
        }
    }
}
