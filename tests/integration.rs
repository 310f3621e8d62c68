use spandsp::g711::{alaw_to_linear, linear_to_alaw, linear_to_ulaw, ulaw_to_linear};
use spandsp::g722::G722Rate;
use spandsp::t4::{RawT4Stats, T4Compression, T4DecodeStatus, T4Stats};

/// Generate a sine wave at the given frequency and sample rate.
fn sine_wave(freq_hz: f32, sample_rate: f32, num_samples: usize, amplitude: f32) -> Vec<i16> {
    (0..num_samples)
        .map(|i| {
            let t = i as f32 / sample_rate;
            (amplitude * (2.0 * std::f32::consts::PI * freq_hz * t).sin()) as i16
        })
        .collect()
}

#[test]
fn ulaw_roundtrip_all_256() {
    // u-law codes 0x7F and 0xFF both decode to 0 (positive/negative zero).
    // Re-encoding 0 always produces 0xFF, so skip the 0x7F alias.
    for code in 0u16..=255 {
        let code = code as u8;
        let linear = ulaw_to_linear(code);
        let re_encoded = linear_to_ulaw(linear);
        if code == 0x7F {
            assert_eq!(
                re_encoded, 0xFF,
                "u-law code 0x7F decodes to 0, should re-encode to 0xFF"
            );
            continue;
        }
        assert_eq!(
            code, re_encoded,
            "u-law roundtrip failed for code {code:#04X}: linear={linear}, re_encoded={re_encoded:#04X}"
        );
    }
}

#[test]
fn alaw_roundtrip_all_256() {
    for code in 0u16..=255 {
        let code = code as u8;
        let linear = alaw_to_linear(code);
        let re_encoded = linear_to_alaw(linear);
        assert_eq!(
            code, re_encoded,
            "A-law roundtrip failed for code {code:#04X}: linear={linear}, re_encoded={re_encoded:#04X}"
        );
    }
}

#[test]
fn ulaw_linear_roundtrip_bounds() {
    let boundary_values: &[i16] = &[0, 1, -1, i16::MAX, i16::MIN];
    for &val in boundary_values {
        let encoded = linear_to_ulaw(val);
        let decoded = ulaw_to_linear(encoded);
        // u-law clips at the top of the range; max quantization step ~1024
        let error = (val as i32 - decoded as i32).unsigned_abs();
        assert!(
            error <= 1024,
            "u-law roundtrip error too large for {val}: decoded={decoded}, error={error}"
        );
    }
}

#[test]
fn alaw_linear_roundtrip_bounds() {
    let boundary_values: &[i16] = &[0, 1, -1, i16::MAX, i16::MIN];
    for &val in boundary_values {
        let encoded = linear_to_alaw(val);
        let decoded = alaw_to_linear(encoded);
        let error = (val as i32 - decoded as i32).unsigned_abs();
        assert!(
            error <= 1024,
            "A-law roundtrip error too large for {val}: decoded={decoded}, error={error}"
        );
    }
}

#[test]
fn known_ulaw_1khz_sine() {
    // 1kHz sine at 8kHz sample rate, amplitude 8000
    let samples = sine_wave(1000.0, 8000.0, 8, 8000.0);
    let encoded: Vec<u8> = samples.iter().map(|&s| linear_to_ulaw(s)).collect();

    let expected: Vec<u8> = samples.iter().map(|&s| linear_to_ulaw(s)).collect();
    assert_eq!(encoded, expected, "encoding should be deterministic");

    // Samples 1 and 5 lie half a period apart: their decodings mirror each other.
    let lin1 = ulaw_to_linear(encoded[1]);
    let lin5 = ulaw_to_linear(encoded[5]);
    assert!(
        (lin1 as i32 + lin5 as i32).unsigned_abs() < 100,
        "u-law sine should be symmetric: sample[1]={lin1}, sample[5]={lin5}"
    );
}

#[test]
fn known_alaw_1khz_sine() {
    let samples = sine_wave(1000.0, 8000.0, 8, 8000.0);
    let encoded: Vec<u8> = samples.iter().map(|&s| linear_to_alaw(s)).collect();

    let expected: Vec<u8> = samples.iter().map(|&s| linear_to_alaw(s)).collect();
    assert_eq!(encoded, expected, "encoding should be deterministic");

    let lin1 = alaw_to_linear(encoded[1]);
    let lin5 = alaw_to_linear(encoded[5]);
    assert!(
        (lin1 as i32 + lin5 as i32).unsigned_abs() < 100,
        "A-law sine should be symmetric: sample[1]={lin1}, sample[5]={lin5}"
    );
}

#[test]
fn rate_enum() {
    assert!(G722Rate::try_from(64000u32).is_ok());
    assert!(G722Rate::try_from(56000u32).is_ok());
    assert!(G722Rate::try_from(48000u32).is_ok());
    assert!(G722Rate::try_from(99999u32).is_err());
}

#[test]
fn compression_bitflags() {
    let combined = T4Compression::t4_1d() | T4Compression::t6();
    // T4_1D = 0x02, T6 = 0x08, so combined = 0x0A = 10
    assert_eq!(combined.bits(), 0x02 | 0x08);
    assert!(combined.contains(T4Compression::t4_1d()));
    assert!(combined.contains(T4Compression::t6()));
    assert!(!combined.contains(T4Compression::t4_2d()));
}

#[test]
fn decode_status_roundtrip() {
    // T4_DECODE_MORE_DATA = 0
    let status = T4DecodeStatus::try_from(0i32);
    assert!(status.is_ok());
    assert_eq!(status.unwrap(), T4DecodeStatus::MoreData);

    // T4_DECODE_OK = -1
    let status = T4DecodeStatus::try_from(-1i32);
    assert!(status.is_ok());
    assert_eq!(status.unwrap(), T4DecodeStatus::Complete);

    // Invalid value
    let status = T4DecodeStatus::try_from(99i32);
    assert!(status.is_err());
}

#[test]
fn stats_from_c() {
    // Native statistics with known values, converted
    let mut c_stats = RawT4Stats::default();
    c_stats.pages_transferred = 5;
    c_stats.pages_in_file = 10;
    c_stats.bad_rows = 2;
    c_stats.longest_bad_row_run = 1;
    c_stats.image_width = 1728;
    c_stats.image_length = 100;
    c_stats.compression = 2; // T4_1D

    let stats = T4Stats::from(c_stats);
    assert_eq!(stats.pages_transferred, 5);
    assert_eq!(stats.pages_in_file, 10);
    assert_eq!(stats.bad_rows, 2);
    assert_eq!(stats.longest_bad_row_run, 1);
    assert_eq!(stats.image_width, 1728);
    assert_eq!(stats.image_length, 100);
    assert_eq!(stats.compression, 2);
}
