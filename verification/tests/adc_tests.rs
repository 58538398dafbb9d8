use mfs_rust::adc::{battery_millivolts, convert_to_millivolts, AdcSettings, SampleTime, VREFINT_MV};

#[test]
fn reference_sample_is_the_reference_voltage() {
    assert_eq!(convert_to_millivolts(1500, 1500), 1212);
    assert_eq!(VREFINT_MV, 1212);
}

#[test]
fn millivolts_round_down() {
    // 1000 * 1212 / 1500 = 808
    assert_eq!(convert_to_millivolts(1500, 1000), 808);
    // 1 * 1212 / 1000 = 1.212
    assert_eq!(convert_to_millivolts(1000, 1), 1);
    assert_eq!(convert_to_millivolts(1000, 0), 0);
}

#[test]
fn millivolts_of_full_scale_oversampled_reading() {
    // 0xfff0 * 1212 / 24000 = 3308.76, rounded down to 3308.
    assert_eq!(convert_to_millivolts(24000, 0xfff0), 3308);
}

#[test]
fn millivolts_are_cut_to_16_bits() {
    // 65535 * 1212 / 1 = 79428420, whose low 16 bits are 0xfb44.
    assert_eq!(convert_to_millivolts(1, 65535), (79_428_420u32 % 65536) as u16);
    assert_eq!(convert_to_millivolts(1, 65535), 0xfb44);
}

#[test]
fn driver_settings() {
    let s = AdcSettings::oversampled();
    assert_eq!(s.sample_time, SampleTime::Cycles79_5);
    assert_eq!(s.oversampling_ratio, 3);
    assert_eq!(s.oversampling_shift, 0);
    assert!(s.oversampling_enabled);
}

#[test]
fn driver_settings_sum_16_samples_up_to_0xfff0() {
    let s = AdcSettings::oversampled();
    assert_eq!(s.oversampling_factor(), 16);
    assert_eq!(s.full_scale(), 0xfff0);
}

#[test]
fn oversampling_table() {
    for ratio in 0u8..=7 {
        for shift in 0u8..=8 {
            let s = AdcSettings {
                sample_time: SampleTime::Cycles1_5,
                oversampling_ratio: ratio,
                oversampling_shift: shift,
                oversampling_enabled: true,
            };
            assert_eq!(s.oversampling_factor(), 2u32.pow(ratio as u32 + 1));
            assert_eq!(s.full_scale(), (0xfffu32 * 2u32.pow(ratio as u32 + 1)) >> shift);
        }
    }
}

#[test]
fn ratio_code_7_with_shift_8_keeps_12_bits_times_2() {
    let s = AdcSettings {
        sample_time: SampleTime::Cycles160_5,
        oversampling_ratio: 7,
        oversampling_shift: 8,
        oversampling_enabled: true,
    };
    assert_eq!(s.oversampling_factor(), 256);
    assert_eq!(s.full_scale(), 0xfff);
}

#[test]
fn battery_voltage_is_three_times_the_channel() {
    // 1500 * 1212 / 1500 = 1212 mV on the channel, 3636 mV at the battery.
    assert_eq!(battery_millivolts(1500, 1500), 3636);
    // A channel reading above a third of u16 still fits.
    assert_eq!(battery_millivolts(1000, 20000), 3 * 24240);
}
