use aicc_core::pwm_driver::{calc_channel_base_reg, calc_duty_cycle, calc_prescaler};

#[test]
fn prescaler_for_the_deployed_frequency() {
    // round(25_000_000 / 4096 / 50) - 1 = 121.
    assert_eq!(121, calc_prescaler(50));
}

#[test]
fn prescaler_clamps_to_the_register() {
    // 1 Hz would need a divider far beyond 8 bits.
    assert_eq!(255, calc_prescaler(1));
    // Beyond the hardware's range the divider bottoms out at 0.
    assert_eq!(0, calc_prescaler(25_000_000));
}

#[test]
fn channel_registers_start_at_the_base() {
    assert_eq!(6, calc_channel_base_reg(0));
    assert_eq!(10, calc_channel_base_reg(1));
    assert_eq!(66, calc_channel_base_reg(15));
}

#[test]
fn duty_cycle_rounds_the_percentage() {
    assert_eq!(0, calc_duty_cycle(0));
    assert_eq!(2048, calc_duty_cycle(500_000));
    assert_eq!(4096, calc_duty_cycle(1_000_000));
    // round(0.085 * 4096) = 348, the deployed steering neutral.
    assert_eq!(348, calc_duty_cycle(85_000));
    // round(0.075 * 4096) = 307, the deployed throttle neutral.
    assert_eq!(307, calc_duty_cycle(75_000));
}

#[test]
fn duty_cycle_clamps_out_of_range_percentages() {
    assert_eq!(0, calc_duty_cycle(-250_000));
    assert_eq!(0xffff, calc_duty_cycle(i32::MAX));
}

#[test]
fn duty_cycle_is_monotonic_in_samples() {
    let mut last: u16 = 0;
    let mut p: i32 = -100_000;
    while p <= 1_100_000 {
        let d = calc_duty_cycle(p);
        assert!(last <= d);
        last = d;
        p += 1_000;
    }
}
