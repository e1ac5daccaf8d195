use hull::utils::{format_size, format_tick};

#[test]
fn test_format_tick() {
    // Below threshold
    assert_eq!(format_tick(0), "0");
    assert_eq!(format_tick(99_999), "99999");
    assert_eq!(format_tick(12345), "12345");

    // At and above threshold (scientific notation)
    assert_eq!(format_tick(100_000), "1.000e5");
    assert_eq!(format_tick(123_456), "1.235e5"); // checks rounding
    assert_eq!(format_tick(999_999), "1.000e6");
    assert_eq!(format_tick(1_000_000), "1.000e6");
    assert_eq!(format_tick(5_432_109), "5.432e6"); // checks rounding
}

#[test]
fn test_format_size() {
    const KIB: u64 = 1024;
    const MIB: u64 = 1024 * KIB;
    const GIB: u64 = 1024 * MIB;
    const TIB: u64 = 1024 * GIB;

    // --- Test Bytes ---
    assert_eq!(format_size(0), "0 bytes");
    assert_eq!(format_size(1), "1 bytes");
    assert_eq!(format_size(512), "512 bytes");
    // Test the upper boundary for bytes
    assert_eq!(format_size(1024), "1024 bytes");

    // --- Test KiB ---
    // Test just over the KiB boundary (shows rounding)
    assert_eq!(format_size(KIB + 1), "1.001 KiB");
    // Test a typical KiB value
    assert_eq!(format_size(1536), "1.500 KiB");
    // Test a larger KiB value
    assert_eq!(format_size(100 * KIB), "100.000 KiB");
    // Test the upper boundary for KiB
    assert_eq!(format_size(MIB), "1024.000 KiB");

    // --- Test MiB ---
    // Test just over the MiB boundary (shows rounding)
    assert_eq!(format_size(MIB + 1), "1.000 MiB");
    // Test a typical MiB value
    assert_eq!(format_size(MIB + MIB / 2), "1.500 MiB");
    // Test a larger MiB value
    assert_eq!(format_size(256 * MIB), "256.000 MiB");
    // Test the upper boundary for MiB
    assert_eq!(format_size(GIB), "1024.000 MiB");

    // --- Test GiB ---
    // Test just over the GiB boundary
    assert_eq!(format_size(GIB + 1), "1.000 GiB");
    // Test a typical GiB value
    assert_eq!(format_size(GIB + GIB / 4), "1.250 GiB");
    // Test a larger GiB value
    assert_eq!(format_size(500 * GIB), "500.000 GiB");
    // Test the upper boundary for GiB
    assert_eq!(format_size(TIB), "1024.000 GiB");

    // --- Test TiB ---
    // Test just over the TiB boundary
    assert_eq!(format_size(TIB + 1), "1.000 TiB");
    // Test a typical TiB value
    assert_eq!(format_size(TIB + TIB / 2), "1.500 TiB");
    // Test a very large value
    assert_eq!(format_size(123 * TIB), "123.000 TiB");
}

/// Every count is written as the standard formatter writes the float that
/// is nearest to it.
#[test]
fn format_tick_agrees_with_float_formatting() {
    let samples: [u64; 16] = [
        100_000,
        100_049,
        100_050,
        100_051,
        100_150,
        999_949,
        999_950,
        1_234_500_000,
        9_007_199_254_740_992,
        9_007_199_254_740_993,
        9_007_199_254_740_995,
        99_995_000_000_000_000,
        9_999_500_000_000_000_000,
        18_446_744_073_709_550_591,
        18_446_744_073_709_551_615,
        10_000_000_000_000_000_000,
    ];
    for tick in samples {
        assert_eq!(format_tick(tick), format!("{:.3e}", tick as f64), "tick {}", tick);
    }
}

/// Every size is written as the standard formatter writes the quotient of
/// floats.
#[test]
fn format_size_agrees_with_float_formatting() {
    let units: [(u64, &str); 4] =
        [(1 << 10, "KiB"), (1 << 20, "MiB"), (1 << 30, "GiB"), (1 << 40, "TiB")];
    let samples: [u64; 14] = [
        1025,
        1088,
        1216,
        2047,
        1_048_576,
        1_049_088,
        1_073_741_824,
        1_074_266_112,
        1_099_511_627_776,
        1_100_048_498_688,
        9_007_199_254_740_993,
        18_446_744_073_709_551_615,
        123_456_789_012_345,
        5_000_000_000,
    ];
    for byte in samples {
        let mut unit = units[0];
        for candidate in units {
            if byte > candidate.0 {
                unit = candidate;
            }
        }
        let expected = format!("{:.3} {}", byte as f64 / unit.0 as f64, unit.1);
        assert_eq!(format_size(byte), expected, "size {}", byte);
    }
}

#[test]
fn format_tick_rounds_ties_to_even() {
    assert_eq!(format_tick(100_050), "1.000e5");
    assert_eq!(format_tick(100_150), "1.002e5");
    assert_eq!(format_tick(999_950), "1.000e6");
    assert_eq!(format_tick(u64::MAX), "1.845e19");
}

#[test]
fn format_size_rounds_ties_to_even() {
    // 1088 / 1024 = 1.0625 and 1216 / 1024 = 1.1875, both exactly
    assert_eq!(format_size(1088), "1.062 KiB");
    assert_eq!(format_size(1216), "1.188 KiB");
    assert_eq!(format_size(u64::MAX), "16777216.000 TiB");
}

/// A small generator of numbers that gives the same ones every time.
fn next(state: &mut u64) -> u64 {
    *state = state.wrapping_mul(6364136223846793005).wrapping_add(1442695040888963407);
    let mut x = *state;
    x ^= x >> 33;
    x = x.wrapping_mul(0xff51afd7ed558ccd);
    x ^= x >> 33;
    x
}

#[test]
fn format_tick_agrees_with_float_formatting_on_a_sweep() {
    let mut state = 7;
    for _ in 0..20_000 {
        let bits = next(&mut state) % 64 + 1;
        let tick = next(&mut state) >> (64 - bits);
        let expected =
            if tick < 100_000 { tick.to_string() } else { format!("{:.3e}", tick as f64) };
        assert_eq!(format_tick(tick), expected, "tick {}", tick);
    }
    // around the ties of the fourth digit, at every power of ten
    let mut unit: u64 = 100;
    while let Some(larger) = unit.checked_mul(10) {
        for digits in [1000u64, 1001, 1002, 5554, 9998, 9999] {
            let Some(tie) = digits.checked_mul(unit).and_then(|n| n.checked_add(unit / 2)) else {
                continue;
            };
            for tick in [tie - 1, tie, tie.saturating_add(1)] {
                assert_eq!(format_tick(tick), format!("{:.3e}", tick as f64), "tick {}", tick);
            }
        }
        unit = larger;
    }
}

#[test]
fn format_size_agrees_with_float_formatting_on_a_sweep() {
    let units: [(u64, &str); 4] =
        [(1 << 10, "KiB"), (1 << 20, "MiB"), (1 << 30, "GiB"), (1 << 40, "TiB")];
    let mut state = 11;
    for _ in 0..20_000 {
        let bits = next(&mut state) % 64 + 1;
        let byte = next(&mut state) >> (64 - bits);
        let expected = if byte <= 1024 {
            format!("{} bytes", byte)
        } else {
            let mut unit = units[0];
            for candidate in units {
                if byte > candidate.0 {
                    unit = candidate;
                }
            }
            format!("{:.3} {}", byte as f64 / unit.0 as f64, unit.1)
        };
        assert_eq!(format_size(byte), expected, "size {}", byte);
    }
    // every tie of the third decimal in the first KiB above one
    for byte in 1025..=4096u64 {
        assert_eq!(format_size(byte), format!("{:.3} KiB", byte as f64 / 1024.0), "size {}", byte);
    }
}
