use mfs_rust::rheo::{
    command_byte, gain_from_reading, gain_ratio, wiper_from_reply, GainRatio, WiperCommand,
    RHEO_ADDR, RHEO_DECREMENT, RHEO_INCREMENT, RHEO_NONVOLATILE_WIPER0_ADDR, RHEO_READ,
    RHEO_VOLATILE_WIPER0_ADDR, RHEO_WRITE,
};

#[test]
fn rheo_address_is_0x2f() {
    assert_eq!(RHEO_ADDR, 0x2f);
}

#[test]
fn command_bytes_of_wiper0() {
    assert_eq!(command_byte(RHEO_VOLATILE_WIPER0_ADDR, RHEO_READ), 0x0c);
    assert_eq!(command_byte(RHEO_VOLATILE_WIPER0_ADDR, RHEO_INCREMENT), 0x04);
    assert_eq!(command_byte(RHEO_VOLATILE_WIPER0_ADDR, RHEO_DECREMENT), 0x08);
    assert_eq!(command_byte(RHEO_VOLATILE_WIPER0_ADDR, RHEO_WRITE), 0x00);
}

#[test]
fn command_byte_of_nonvolatile_wiper0_read() {
    assert_eq!(command_byte(RHEO_NONVOLATILE_WIPER0_ADDR, RHEO_READ), 0x2c);
}

#[test]
fn command_byte_fields_come_back() {
    for addr in 0u8..16 {
        for cmd in 0u8..4 {
            let b = command_byte(addr, cmd);
            assert_eq!(b >> 4, addr);
            assert_eq!((b >> 2) & 0b11, cmd);
            assert_eq!(b & 0b11, 0);
        }
    }
}

#[test]
fn frames_of_each_command() {
    assert_eq!(WiperCommand::Read.frame(), vec![0x0c]);
    assert_eq!(WiperCommand::Increment.frame(), vec![0x04]);
    assert_eq!(WiperCommand::Decrement.frame(), vec![0x08]);
    assert_eq!(WiperCommand::Write(64).frame(), vec![0x00, 64]);
    assert_eq!(WiperCommand::Write(1).frame(), vec![0x00, 1]);
}

#[test]
fn reply_lengths() {
    assert_eq!(WiperCommand::Read.reply_len(), 2);
    assert_eq!(WiperCommand::Increment.reply_len(), 0);
    assert_eq!(WiperCommand::Decrement.reply_len(), 0);
    assert_eq!(WiperCommand::Write(5).reply_len(), 0);
}

#[test]
fn read_reply_gives_second_byte() {
    assert_eq!(wiper_from_reply(Ok(()), [0x01, 0x40]), Ok(0x40));
    assert_eq!(wiper_from_reply(Ok(()), [0x00, 0x00]), Ok(0));
}

#[test]
fn failed_read_is_an_error() {
    assert_eq!(wiper_from_reply(Err(()), [0x01, 0x40]), Err(()));
}

#[test]
fn gain_at_ends_of_track() {
    assert_eq!(gain_ratio(0), GainRatio { numerator: 12_809_600, denominator: 9_600 });
    assert_eq!(
        gain_ratio(128),
        GainRatio { numerator: 14_089_600, denominator: 1_289_600 }
    );
    assert_eq!(
        gain_ratio(255),
        GainRatio { numerator: 15_359_600, denominator: 2_559_600 }
    );
}

#[test]
fn gain_value_matches_formula() {
    // 1 + 100e3 / (75 + 1e4 * 64 / 128) = 1 + 100000 / 5075
    let g = gain_ratio(64);
    let value = g.numerator as f64 / g.denominator as f64;
    let expected = 1.0 + 100.0e3 / (75.0 + 1e4 * (64.0 / 128.0));
    assert!((value - expected).abs() < 1e-9);
}

#[test]
fn gain_decreases_along_the_track() {
    for w in 0u8..255 {
        let a = gain_ratio(w);
        let b = gain_ratio(w + 1);
        assert!(
            (a.numerator as u64) * (b.denominator as u64)
                > (b.numerator as u64) * (a.denominator as u64)
        );
    }
}

#[test]
fn gain_range_over_the_track() {
    for w in 0u8..=128 {
        let g = gain_ratio(w);
        assert!(g.numerator > 10 * g.denominator);
        assert!(g.numerator <= 1335 * g.denominator);
    }
}

#[test]
fn gain_from_reading_of_position() {
    assert_eq!(gain_from_reading(Ok(128)), Ok(gain_ratio(128)));
    assert_eq!(gain_from_reading(Err(())), Err(()));
}
