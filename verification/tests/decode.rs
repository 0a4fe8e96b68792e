use co2mon_rs::checksum;
use co2mon_rs::decrypt;
use co2mon_rs::get_topic_suffix;
use co2mon_rs::is_encrypted;
use co2mon_rs::parse_record;
use co2mon_rs::Config;
use co2mon_rs::Errors;
use co2mon_rs::Metrics;
use co2mon_rs::Record;

#[test]
fn test_decrypt() {
    let data: [u8; 8] = [1, 2, 3, 4, 5, 6, 7, 8];
    let key: [u8; 8] = [8, 7, 6, 5, 4, 3, 2, 1];
    let expected: [u8; 8] = [29, 25, 234, 11, 153, 45, 237, 42];
    assert_eq!(decrypt(&key, data), expected);
}

#[test]
fn test_is_encrypted() {
    let encrypted: [u8; 8] = [1, 2, 3, 4, 5, 6, 7, 8];
    let not_encrypted: [u8; 8] = [1, 2, 3, 4, 0x0d, 6, 7, 8];
    assert!(is_encrypted(encrypted));
    assert!(!is_encrypted(not_encrypted));
}

#[test]
fn test_decrypt_deterministic() {
    let data: [u8; 8] = [0x42, 0x11, 0x2e, 0x81, 0x0d, 0, 0, 0];
    let key: [u8; 8] = [9, 9, 9, 9, 9, 9, 9, 9];
    let first = decrypt(&key, data);
    for _ in 0..10 {
        assert_eq!(decrypt(&key, data), first);
    }
}

#[test]
fn test_is_encrypted_boundary() {
    // False exactly for marker byte 0x0d, true for every other value,
    // independent of all other bytes.
    for b in 0..=255u8 {
        let frame: [u8; 8] = [0xff, 0x00, 0x42, 0x99, b, 0x01, 0x02, 0x03];
        assert_eq!(is_encrypted(frame), b != 0x0d);
    }
}

#[test]
fn test_validate_accepts_valid_frame() {
    let frame: [u8; 8] = [1, 2, 3, 6, 0x0d, 0, 0, 0];
    assert_eq!(checksum(frame), Ok(frame));
    // The sum is reduced modulo 256.
    let wrapping: [u8; 8] = [200, 200, 200, 88, 0x0d, 0, 0, 0];
    assert_eq!(checksum(wrapping), Ok(wrapping));
}

#[test]
fn test_validate_rejects_checksum_mismatch() {
    let frame: [u8; 8] = [1, 2, 3, 7, 0x0d, 0, 0, 0];
    assert_eq!(checksum(frame), Err(Errors::ChecksumError));
}

#[test]
fn test_validate_rejects_bit_flips() {
    // Flipping any single bit in the checksum window, without fixing
    // byte 3, must be caught.
    let frame: [u8; 8] = [0x50, 0x03, 0x20, 0x73, 0x0d, 0, 0, 0];
    assert_eq!(checksum(frame), Ok(frame));
    for i in 0..3 {
        for bit in 0..8 {
            let mut flipped = frame;
            flipped[i] ^= 1u8 << bit;
            assert_eq!(checksum(flipped), Err(Errors::ChecksumError));
        }
    }
}

#[test]
fn test_validate_rejects_residual_obfuscation() {
    // A frame whose checksum matches is still rejected whenever the
    // marker byte is anything but 0x0d.
    for b in 0..=255u8 {
        let frame: [u8; 8] = [1, 2, 3, 6, b, 0, 0, 0];
        if b == 0x0d {
            assert_eq!(checksum(frame), Ok(frame));
        } else {
            assert_eq!(checksum(frame), Err(Errors::ChecksumError));
        }
    }
}

#[test]
fn test_validate_idempotent() {
    let valid: [u8; 8] = [1, 2, 3, 6, 0x0d, 0, 0, 0];
    let invalid: [u8; 8] = [1, 2, 3, 7, 0x0d, 0, 0, 0];
    for _ in 0..5 {
        assert_eq!(checksum(valid), Ok(valid));
        assert_eq!(checksum(invalid), Err(Errors::ChecksumError));
    }
}

#[test]
fn test_parse_record_temperature() {
    match parse_record(Record { key: 0x42, value: 4382 }) {
        Some(Metrics::Temp { value, unit }) => {
            assert_eq!(value, 4382);
            assert_eq!(unit, "\u{b0}C");
            // 4382 / 16 - 273.15 = 0.725, roughly 0.7 degrees.
            let celsius = value as f32 / 16.0 - 273.15;
            assert!((celsius - 0.725).abs() < 1e-3);
        }
        other => panic!("expected a temperature, got {:?}", other),
    }
}

#[test]
fn test_parse_record_humidity() {
    match parse_record(Record { key: 0x44, value: 55 }) {
        Some(Metrics::Hum { value, unit }) => {
            assert_eq!(value, 55);
            assert_eq!(unit, "%");
            let percent = value as f32 / 100.0;
            assert_eq!(percent, 0.55);
        }
        other => panic!("expected a humidity reading, got {:?}", other),
    }
}

#[test]
fn test_parse_record_co2() {
    match parse_record(Record { key: 0x50, value: 800 }) {
        Some(Metrics::CO2 { value, unit }) => {
            assert_eq!(value, 800);
            assert_eq!(unit, "PPM");
        }
        other => panic!("expected a CO2 reading, got {:?}", other),
    }
}

#[test]
fn test_parse_record_unknown_tags() {
    // Every tag outside the closed set produces no measurement.
    for key in 0..=255u8 {
        if key == 0x42 || key == 0x44 || key == 0x50 {
            continue;
        }
        assert_eq!(parse_record(Record { key, value: 1234 }), None);
    }
}

#[test]
fn test_topic_suffixes() {
    let temp = parse_record(Record { key: 0x42, value: 4382 }).unwrap();
    let hum = parse_record(Record { key: 0x44, value: 55 }).unwrap();
    let co2 = parse_record(Record { key: 0x50, value: 800 }).unwrap();
    assert_eq!(get_topic_suffix(&temp), "temp");
    assert_eq!(get_topic_suffix(&hum), "hum");
    assert_eq!(get_topic_suffix(&co2), "co2");
}

#[test]
fn test_record_from_frame() {
    let frame: [u8; 8] = [0x50, 0x11, 0x2e, 0, 0x0d, 0, 0, 0];
    let record = Record::from_frame(&frame);
    assert_eq!(record.key, 0x50);
    assert_eq!(record.value, 0x112e);
}

#[test]
fn test_errors_message() {
    assert_eq!(Errors::ChecksumError.message(), "Checksum Failed!");
}

#[test]
fn test_config_default() {
    let config = Config::default();
    assert_eq!(config.vid, 0x04d9);
    assert_eq!(config.pid, 0xa052);
}

#[test]
fn test_decrypt_pipeline_round() {
    // A full pipeline pass over a deobfuscated frame: validate, extract,
    // classify.
    let frame: [u8; 8] = [0x50, 0x03, 0x20, 0x73, 0x0d, 0, 0, 0];
    let validated = checksum(frame).expect("frame is valid");
    let record = Record::from_frame(&validated);
    match parse_record(record) {
        Some(Metrics::CO2 { value, unit }) => {
            assert_eq!(value, 0x0320);
            assert_eq!(unit, "PPM");
        }
        other => panic!("expected a CO2 reading, got {:?}", other),
    }
}
