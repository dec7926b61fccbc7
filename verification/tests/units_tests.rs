use prog_rs::units::{convert_to_unit, Scaled, UnitMode, PREFIX_COUNT};

#[test]
fn decimal_scales_one_and_a_half_million_to_mega() {
    let scaled = UnitMode::Decimal.scale(1_500_000_000);
    assert_eq!(scaled, Scaled { milli: 1_500, steps: 2 });
    assert_eq!(UnitMode::Decimal.prefix(scaled.steps), "M");
}

#[test]
fn binary_scales_two_thousand_forty_eight_to_kibi() {
    let scaled = UnitMode::Binary.scale(2_048_000);
    assert_eq!(scaled, Scaled { milli: 2_000, steps: 1 });
    assert_eq!(UnitMode::Binary.prefix(scaled.steps), "Ki");
}

#[test]
fn convert_to_unit_uses_the_binary_table() {
    assert_eq!(convert_to_unit(2_048_000), (2_000, "Ki"));
    assert_eq!(convert_to_unit(5 * 1024 * 1024 * 1000), (5_000, "Mi"));
    assert_eq!(convert_to_unit(0), (0, ""));
}

#[test]
fn a_value_at_the_threshold_is_not_scaled() {
    assert_eq!(UnitMode::Decimal.scale(1_000_000), Scaled { milli: 1_000_000, steps: 0 });
    assert_eq!(UnitMode::Decimal.scale(1_000_001), Scaled { milli: 1_000, steps: 1 });
    assert_eq!(UnitMode::Binary.scale(1_024_000), Scaled { milli: 1_024_000, steps: 0 });
    assert_eq!(UnitMode::Binary.scale(1_024_001), Scaled { milli: 1_000, steps: 1 });
}

#[test]
fn scaling_stops_at_the_last_prefix() {
    let scaled = UnitMode::Decimal.scale(u128::MAX);
    assert_eq!(scaled.steps, PREFIX_COUNT - 1);
    assert_eq!(scaled.milli, u128::MAX / 1_000_000_000_000_000_000_000_000);
    assert_eq!(UnitMode::Decimal.prefix(scaled.steps), "Y");
    assert_eq!(UnitMode::Binary.scale(u128::MAX).steps, 8);
}

#[test]
fn scaled_value_is_the_quotient_by_a_power_of_the_threshold() {
    let values: [u128; 6] = [0, 999, 123_456_789, 1 << 40, 987_654_321_987_654_321, 1 << 100];
    for mode in [UnitMode::Decimal, UnitMode::Binary] {
        for value in values {
            let scaled = mode.scale(value);
            let mut divisor: u128 = 1;
            for _ in 0..scaled.steps {
                divisor *= mode.threshold();
            }
            assert_eq!(scaled.milli, value / divisor);
            if scaled.steps < 8 {
                assert!(scaled.milli <= 1000 * mode.threshold());
            }
            if scaled.steps > 0 {
                assert!(value / (divisor / mode.threshold()) > 1000 * mode.threshold());
            }
        }
    }
}

#[test]
fn prefix_tables() {
    let decimal = ["", "K", "M", "G", "T", "P", "E", "Z", "Y"];
    let binary = ["", "Ki", "Mi", "Gi", "Ti", "Pi", "Ei", "Zi", "Yi"];
    for index in 0..PREFIX_COUNT {
        assert_eq!(UnitMode::Decimal.prefix(index), decimal[index]);
        assert_eq!(UnitMode::Binary.prefix(index), binary[index]);
    }
    assert_eq!(UnitMode::Decimal.threshold(), 1000);
    assert_eq!(UnitMode::Binary.threshold(), 1024);
}
