use sgp30::checksum::crc8;
use sgp30::commands::{command, Command, CommandCode};
use sgp30::error::{BusError, Sgp30Error};
use sgp30::params::ParamBytes;
use sgp30::response::ResponseBytes;

#[test]
fn crc8_test() {
    let data = [0xBE, 0xEF];
    let checksum = crc8(&data);
    assert_eq!(checksum, 0x92);
}

#[test]
fn checksum_of_empty_input_is_initial_value() {
    assert_eq!(crc8(&[]), 0xFF);
}

#[test]
fn checksum_depends_on_byte_order() {
    assert_eq!(crc8(&[0xEF, 0xBE]), 0xCE);
    assert_ne!(crc8(&[0xBE, 0xEF]), crc8(&[0xEF, 0xBE]));
}

#[test]
fn checksum_changes_with_either_byte() {
    let base = crc8(&[0x12, 0x34]);
    assert_eq!(base, 0x37);
    for b in 0..=255u8 {
        if b != 0x34 {
            assert_ne!(crc8(&[0x12, b]), base);
        }
        if b != 0x12 {
            assert_ne!(crc8(&[b, 0x34]), base);
        }
    }
}

#[test]
fn checksum_swap_unchanged_only_for_equal_or_ef_apart() {
    for a in 0..=255u8 {
        for b in [0x00u8, 0x12, 0xEF, 0xFF, a, a ^ 0xEF] {
            let same = crc8(&[a, b]) == crc8(&[b, a]);
            assert_eq!(same, a ^ b == 0 || a ^ b == 0xEF);
        }
    }
}

#[test]
fn checksum_is_deterministic() {
    for a in [0x00u8, 0x7F, 0x80, 0xFF] {
        for b in [0x00u8, 0x31, 0xC4, 0xFF] {
            assert_eq!(crc8(&[a, b]), crc8(&[a, b]));
        }
    }
}

#[test]
fn command_table_entries() {
    let c = command(CommandCode::MeasureTest);
    assert_eq!(c.code, 0x2032);
    assert_eq!(c.duration_cycles, 200);
    assert_eq!(c.max_duration_cycles, 220);
    let c = command(CommandCode::GetSerialId);
    assert_eq!(c.code, 0x3682);
    assert_eq!(c.duration_cycles, 1);
    assert_eq!(c.max_duration_cycles, 2);
}

#[test]
fn command_frames_for_every_code() {
    let expected = [
        (CommandCode::InitAirQuality, [0x20, 0x03, 0x0E]),
        (CommandCode::MeasureAirQuality, [0x20, 0x08, 0xE4]),
        (CommandCode::GetBaseline, [0x20, 0x15, 0xEB]),
        (CommandCode::SetBaseline, [0x20, 0x1E, 0x01]),
        (CommandCode::SetHumidity, [0x20, 0x61, 0xD7]),
        (CommandCode::MeasureTest, [0x20, 0x32, 0xFA]),
        (CommandCode::GetFeatureSetVer, [0x20, 0x2F, 0xF5]),
        (CommandCode::MeasureRawSignals, [0x20, 0x50, 0x23]),
        (CommandCode::GetSerialId, [0x36, 0x82, 0x71]),
    ];
    for (code, frame) in expected {
        assert_eq!(code.with_crc(), frame);
        assert_eq!(code.without_crc(), [frame[0], frame[1]]);
    }
}

#[test]
fn command_frame_checksum_validates() {
    let codes = [
        CommandCode::InitAirQuality,
        CommandCode::MeasureAirQuality,
        CommandCode::GetBaseline,
        CommandCode::SetBaseline,
        CommandCode::SetHumidity,
        CommandCode::MeasureTest,
        CommandCode::GetFeatureSetVer,
        CommandCode::MeasureRawSignals,
        CommandCode::GetSerialId,
    ];
    for code in codes {
        let frame = code.with_crc();
        let word = u16::try_from(ResponseBytes::<3, true> { data: Some(frame) });
        assert_eq!(word, Ok(command(code).code));
    }
}

#[test]
fn descriptor_encodes_its_own_code() {
    let c = Command {
        code: 0xABCD,
        duration_cycles: 5,
        max_duration_cycles: 6,
    };
    assert_eq!(c.without_crc(), [0xAB, 0xCD]);
    assert_eq!(c.with_crc(), [0xAB, 0xCD, 0x6F]);
}

#[test]
fn params_from_words() {
    let p: ParamBytes<0> = ParamBytes::from(());
    assert_eq!(p.0, []);
    let p: ParamBytes<3> = ParamBytes::from(0x1234u16);
    assert_eq!(p.0, [0x12, 0x34, 0x37]);
    let p: ParamBytes<6> = ParamBytes::from((0x1234u16, 0xABCDu16));
    assert_eq!(p.0, [0x12, 0x34, 0x37, 0xAB, 0xCD, 0x6F]);
    let p: ParamBytes<9> = ParamBytes::from((0x0000u16, 0xFFFFu16, 0x0190u16));
    assert_eq!(p.0, [0x00, 0x00, 0x81, 0xFF, 0xFF, 0xAC, 0x01, 0x90, 0x4C]);
}

#[test]
fn params_from_byte_pairs() {
    let bytes = [0x12u8, 0x34, 0xAB, 0xCD];
    let p = ParamBytes::<6>::try_from(&bytes[..]).ok().unwrap();
    assert_eq!(p.0, [0x12, 0x34, 0x37, 0xAB, 0xCD, 0x6F]);
    let p = ParamBytes::<9>::try_from(&bytes[..]).ok().unwrap();
    assert_eq!(p.0, [0x12, 0x34, 0x37, 0xAB, 0xCD, 0x6F, 0x00, 0x00, 0x81]);
    let p = ParamBytes::<6>::try_from(&bytes[..0]).ok().unwrap();
    assert_eq!(p.0, [0x00, 0x00, 0x81, 0x00, 0x00, 0x81]);
    let p = ParamBytes::<0>::try_from(&bytes[..0]).ok().unwrap();
    assert_eq!(p.0, []);
}

#[test]
fn params_from_byte_pairs_rejects_bad_shapes() {
    let bytes = [0x12u8, 0x34, 0xAB, 0xCD];
    assert!(ParamBytes::<4>::try_from(&bytes[..]).is_err());
    assert!(ParamBytes::<6>::try_from(&bytes[..3]).is_err());
    assert!(ParamBytes::<3>::try_from(&bytes[..]).is_err());
}

#[test]
fn response_word_checked() {
    let ok = ResponseBytes::<3, true> { data: Some([0x12, 0x34, 0x37]) };
    assert_eq!(u16::try_from(ok), Ok(0x1234));
    let bad = ResponseBytes::<3, true> { data: Some([0x12, 0x34, 0x38]) };
    assert_eq!(u16::try_from(bad), Err(Sgp30Error::Crc));
    let none = ResponseBytes::<3, true>::default();
    assert_eq!(u16::try_from(none), Err(Sgp30Error::MissingData));
}

#[test]
fn response_word_unchecked() {
    let r = ResponseBytes::<2, false> { data: Some([0xAB, 0xCD]) };
    assert_eq!(u16::try_from(r), Ok(0xABCD));
    let none = ResponseBytes::<2, false> { data: None };
    assert_eq!(u16::try_from(none), Err(Sgp30Error::MissingData));
}

#[test]
fn response_word_pair() {
    let r = ResponseBytes::<6, true> { data: Some([0x12, 0x34, 0x37, 0xAB, 0xCD, 0x6F]) };
    assert_eq!(<(u16, u16)>::try_from(r), Ok((0x1234, 0xABCD)));
    let r = ResponseBytes::<6, true> { data: Some([0x12, 0x34, 0x37, 0xAB, 0xCD, 0x00]) };
    assert_eq!(<(u16, u16)>::try_from(r), Err(Sgp30Error::Crc));
    let r = ResponseBytes::<6, true> { data: None };
    assert_eq!(<(u16, u16)>::try_from(r), Err(Sgp30Error::MissingData));
}

#[test]
fn response_single_byte_corruption_fails() {
    let good = [0x12u8, 0x34, 0x37, 0xAB, 0xCD, 0x6F];
    for i in 0..6 {
        for x in [0x00u8, 0x01, 0x80, 0xFF] {
            if x == good[i] {
                continue;
            }
            let mut bytes = good;
            bytes[i] = x;
            let r = ResponseBytes::<6, true> { data: Some(bytes) };
            assert_eq!(<(u16, u16)>::try_from(r), Err(Sgp30Error::Crc));
            let r = ResponseBytes::<6, true> { data: Some(bytes) };
            assert_eq!(<[u8; 6]>::try_from(r), Err(Sgp30Error::Crc));
        }
    }
}

#[test]
fn response_raw_bytes() {
    let bytes = [0x00u8, 0x00, 0x81, 0xFF, 0xFF, 0xAC, 0x01, 0x90, 0x4C];
    let r = ResponseBytes::<9, true> { data: Some(bytes) };
    assert_eq!(<[u8; 9]>::try_from(r), Ok(bytes));
    let mut bad = bytes;
    bad[8] = 0x4D;
    let r = ResponseBytes::<9, true> { data: Some(bad) };
    assert_eq!(<[u8; 9]>::try_from(r), Err(Sgp30Error::Crc));
    let r = ResponseBytes::<9, false> { data: Some(bad) };
    assert_eq!(<[u8; 9]>::try_from(r), Ok(bad));
    let r = ResponseBytes::<9, false> { data: None };
    assert_eq!(<[u8; 9]>::try_from(r), Err(Sgp30Error::MissingData));
    let r = ResponseBytes::<9, true> { data: None };
    assert_eq!(<[u8; 9]>::try_from(r), Err(Sgp30Error::MissingData));
}

#[test]
fn response_raw_bytes_partial_group_fails() {
    let r = ResponseBytes::<4, true> { data: Some([0x12, 0x34, 0x37, 0x00]) };
    assert_eq!(<[u8; 4]>::try_from(r), Err(Sgp30Error::Crc));
}

#[test]
fn response_empty_to_unit() {
    let r = ResponseBytes::<0, false>::default();
    let unit: () = r.into();
    assert_eq!(unit, ());
    let r = ResponseBytes::<0, false> { data: Some([]) };
    let unit: () = <()>::from(r);
    assert_eq!(unit, ());
}

#[test]
fn response_ignore_crc_keeps_data() {
    let r = ResponseBytes::<3, true> { data: Some([1, 2, 3]) }.ignore_crc();
    assert_eq!(r.data, Some([1, 2, 3]));
}

#[test]
fn bus_error_kinds_are_distinct() {
    assert_ne!(Sgp30Error::I2c(BusError::Bus), Sgp30Error::I2c(BusError::Timeout));
    assert_ne!(Sgp30Error::Crc, Sgp30Error::MissingData);
    assert_eq!(Sgp30Error::InvalidCommandCode(7), Sgp30Error::InvalidCommandCode(7));
}

#[test]
fn framed_params_are_checksummed_groups() {
    let bytes = [0x01u8, 0x90];
    let p = ParamBytes::<9>::try_from(&bytes[..]).ok().unwrap();
    let r = ResponseBytes::<9, true> { data: Some(p.0) };
    assert_eq!(<[u8; 9]>::try_from(r), Ok([0x01, 0x90, 0x4C, 0x00, 0x00, 0x81, 0x00, 0x00, 0x81]));
}
