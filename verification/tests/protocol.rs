use digital_dash::receiver::trim_trailing_nuls;
use digital_dash::och_block::c40_to_celsius;
use digital_dash::{Command, OchBlock, ProtocolError, SIGNATURE, VERSION};

#[test]
fn test_command_parsing() {
    assert_eq!(Command::from_byte(b'Q'), Command::QuerySignature);
    assert_eq!(Command::from_byte(b'S'), Command::QueryVersion);
    assert_eq!(Command::from_byte(b'r'), Command::ReadOch);
    assert_eq!(Command::from_byte(b'p'), Command::ReadPage);
    assert_eq!(Command::from_byte(b'b'), Command::BurnPage);
    assert_eq!(Command::from_byte(b'd'), Command::GetCrc);
    assert_eq!(Command::from_byte(b'F'), Command::Flags);

    if let Command::Unknown(b) = Command::from_byte(b'X') {
        assert_eq!(b, b'X');
    } else {
        panic!("Expected Unknown command");
    }
}

#[test]
fn test_command_to_byte() {
    assert_eq!(Command::QuerySignature.to_byte(), b'Q');
    assert_eq!(Command::ReadOch.to_byte(), b'r');
    assert_eq!(Command::Unknown(b'Z').to_byte(), b'Z');
}

#[test]
fn test_signature_format() {
    assert_eq!(SIGNATURE.len(), 32);
    assert_eq!(&SIGNATURE[..17], b"speeduino-travis\0");
    for i in 17..32 {
        assert_eq!(SIGNATURE[i], 0);
    }
}

#[test]
fn test_version_format() {
    assert_eq!(VERSION.len(), 32);
    assert!(VERSION.starts_with(b"Travis Digital Dash v1.0"));
    let null_pos = VERSION.iter().position(|&b| b == 0).unwrap();
    for i in null_pos..32 {
        assert_eq!(VERSION[i], 0);
    }
}

#[test]
fn test_och_block_size() {
    assert_eq!(OchBlock::SIZE, 87);
    assert_eq!(core::mem::size_of::<OchBlock>(), 87);
}

#[test]
fn test_rpm_encoding() {
    let mut och = OchBlock::new();
    och.set_rpm(3000);
    let bytes = och.as_bytes();
    assert_eq!(u16::from_le_bytes([bytes[0], bytes[1]]), 3000);
}

#[test]
fn test_speed_encoding() {
    let mut och = OchBlock::new();
    och.set_speed_kph(100);
    let bytes = och.as_bytes();
    assert_eq!(u16::from_le_bytes([bytes[19], bytes[20]]), 100);
}

#[test]
fn test_temperature_encoding() {
    let mut och = OchBlock::new();
    och.set_coolant_temp_c40(125);
    assert_eq!(och.as_bytes()[7], 125);
    och.set_oil_temp_c40(30);
    assert_eq!(och.as_bytes()[3], 30);
}

#[test]
fn test_map_boost_encoding() {
    let mut och = OchBlock::new();

    och.set_map_kpa(100);
    let bytes = och.as_bytes();
    assert_eq!(i16::from_le_bytes([bytes[4], bytes[5]]), 100);

    och.set_map_kpa(150);
    let bytes = och.as_bytes();
    assert_eq!(i16::from_le_bytes([bytes[4], bytes[5]]), 150);

    och.set_map_kpa(50);
    let bytes = och.as_bytes();
    assert_eq!(i16::from_le_bytes([bytes[4], bytes[5]]), 50);
}

#[test]
fn test_odometer_encoding() {
    let mut och = OchBlock::new();
    och.set_odometer_bytes(2200.5f32.to_le_bytes());
    let bytes = och.as_bytes();
    let odo = f32::from_le_bytes([bytes[60], bytes[61], bytes[62], bytes[63]]);
    assert!((odo - 2200.5).abs() < 0.01);
}

#[test]
fn test_boolean_indicators() {
    let mut och = OchBlock::new();
    och.set_turn_left(true);
    och.set_cel(false);
    och.set_high_beam(true);
    let bytes = och.as_bytes();
    assert_eq!(bytes[40], 1);
    assert_eq!(bytes[42], 0);
    assert_eq!(bytes[43], 1);
}

#[test]
fn test_clear() {
    let mut och = OchBlock::new();
    och.set_rpm(5000);
    och.set_speed_kph(120);
    och.set_cel(true);
    och.clear();
    for byte in och.as_bytes() {
        assert_eq!(*byte, 0);
    }
}

#[test]
fn every_byte_round_trips_through_command() {
    for b in 0..=255u8 {
        assert_eq!(Command::from_byte(b).to_byte(), b);
    }
}

#[test]
fn unknown_command_carrying_known_byte_does_not_round_trip() {
    assert_eq!(Command::from_byte(Command::Unknown(b'Q').to_byte()), Command::QuerySignature);
}

#[test]
fn rpm_bytes_match_documented_example() {
    let mut och = OchBlock::new();
    och.set_rpm(3000);
    assert_eq!(&och.as_bytes()[0..2], &[0xB8, 0x0B]);
}

#[test]
fn negative_map_is_twos_complement() {
    let mut och = OchBlock::new();
    och.set_map_kpa(-20);
    assert_eq!(&och.as_bytes()[4..6], &[0xEC, 0xFF]);
    assert_eq!(och.map_kpa(), -20);
    och.set_map_kpa(i16::MIN);
    assert_eq!(och.map_kpa(), i16::MIN);
}

#[test]
fn getters_read_back_setters() {
    let mut och = OchBlock::new();
    och.set_rpm(6543);
    och.set_oil_temp_c40(140);
    och.set_map_kpa(-101);
    och.set_coolant_temp_c40(125);
    och.set_oil_pressure_psi(60);
    och.set_fuel_pressure_psi(43);
    och.set_fuel_level_pct(77);
    och.set_speed_kph(300);
    och.set_turn_left(true);
    och.set_turn_right(false);
    och.set_cel(true);
    och.set_high_beam(false);
    och.set_handbrake(true);
    assert_eq!(och.rpm(), 6543);
    assert_eq!(och.oil_temp_c40(), 140);
    assert_eq!(och.map_kpa(), -101);
    assert_eq!(och.coolant_temp_c40(), 125);
    assert_eq!(och.oil_pressure_psi(), 60);
    assert_eq!(och.fuel_pressure_psi(), 43);
    assert_eq!(och.fuel_level_pct(), 77);
    assert_eq!(och.speed_kph(), 300);
    assert!(och.turn_left());
    assert!(!och.turn_right());
    assert!(och.cel());
    assert!(!och.high_beam());
    assert!(och.handbrake());
}

#[test]
fn setter_leaves_other_bytes_alone() {
    let mut och = OchBlock::new();
    och.set_speed_kph(0xFFFF);
    for (i, b) in och.as_bytes().iter().enumerate() {
        if i == 19 || i == 20 {
            assert_eq!(*b, 0xFF);
        } else {
            assert_eq!(*b, 0);
        }
    }
}

#[test]
fn from_bytes_round_trips() {
    let mut raw = [0u8; 87];
    for (i, b) in raw.iter_mut().enumerate() {
        *b = i as u8;
    }
    let och = OchBlock::from_bytes(&raw);
    assert_eq!(och.as_bytes(), &raw[..]);
    assert_eq!(och.odometer_bytes(), [60, 61, 62, 63]);
}

#[test]
fn default_block_is_zero() {
    let och = OchBlock::default();
    assert!(och.as_bytes().iter().all(|&b| b == 0));
    assert_eq!(och.as_bytes().len(), OchBlock::SIZE);
}

#[test]
fn celsius_from_c40_encoding() {
    assert_eq!(c40_to_celsius(140), 100);
    assert_eq!(c40_to_celsius(0), -40);
    assert_eq!(c40_to_celsius(255), 215);
}

#[test]
fn trims_padding_of_replies() {
    assert_eq!(trim_trailing_nuls(&SIGNATURE), b"speeduino-travis");
    assert_eq!(trim_trailing_nuls(&VERSION), b"Travis Digital Dash v1.0");
    assert_eq!(trim_trailing_nuls(&[0, 0, 0]), b"");
    assert_eq!(trim_trailing_nuls(&[1, 0, 2]), &[1, 0, 2]);
}

#[test]
fn protocol_error_messages() {
    assert_eq!(ProtocolError::Timeout.as_str(), "Timeout");
    assert_eq!(ProtocolError::InvalidCommand.as_str(), "Invalid command");
    assert_eq!(ProtocolError::BufferOverflow.as_str(), "Buffer overflow");
    assert_eq!(ProtocolError::ChecksumError.as_str(), "Checksum error");
    assert_eq!(ProtocolError::IoError.as_str(), "I/O error");
}
