use vortex::resources::{CpuCores, CpuLimit, CpuTime, MemoryLimit, MemorySize, ResourceStats};

fn cores(c: f64) -> CpuCores {
    CpuCores::from_hundred_thousandths((c * 100_000.0).round() as i64)
}

fn as_f64(c: CpuCores) -> f64 {
    c.as_hundred_thousandths() as f64 / 100_000.0
}

fn as_kb(m: MemorySize) -> f64 {
    m.as_bytes() as f64 / 1024.0
}

fn as_mb(m: MemorySize) -> f64 {
    m.as_bytes() as f64 / (1024.0 * 1024.0)
}

fn as_gb(m: MemorySize) -> f64 {
    m.as_bytes() as f64 / (1024.0 * 1024.0 * 1024.0)
}

fn shown(bytes: u64) -> String {
    const GB: u64 = 1024 * 1024 * 1024;
    const MB: u64 = 1024 * 1024;
    const KB: u64 = 1024;
    let m = MemorySize::from_bytes(bytes);
    if bytes >= GB {
        format!("{:.2} GB", as_gb(m))
    } else if bytes >= MB {
        format!("{:.2} MB", as_mb(m))
    } else if bytes >= KB {
        format!("{:.2} KB", as_kb(m))
    } else {
        format!("{} bytes", bytes)
    }
}

#[test]
fn memory_size_conversions() {
    let size = MemorySize::from_mb(512);
    assert_eq!(size.as_bytes(), 536_870_912);
    assert_eq!(as_mb(size), 512.0);
}

#[test]
fn memory_size_arithmetic() {
    let a = MemorySize::from_mb(256);
    let b = MemorySize::from_mb(256);
    let sum = a + b;
    assert_eq!(as_mb(sum), 512.0);
}

#[test]
fn memory_size_display() {
    assert_eq!(MemorySize::from_gb(2).to_string(), "2.00 GB");
    assert_eq!(MemorySize::from_mb(512).to_string(), "512.00 MB");
    assert_eq!(MemorySize::from_bytes(100).to_string(), "100 bytes");
}

#[test]
fn cpu_quota_conversion() {
    let c = cores(1.0);
    let (quota, period) = c.to_quota();
    assert_eq!(quota, 100_000);
    assert_eq!(period, 100_000);

    let c = cores(0.5);
    let (quota, period) = c.to_quota();
    assert_eq!(quota, 50_000);
    assert_eq!(period, 100_000);
}

#[test]
fn test_memory_size_conversions() {
    let size = MemorySize::from_mb(512);

    // Check byte conversion
    assert_eq!(size.as_bytes(), 536_870_912);

    // Check other unit conversions
    assert_eq!(as_kb(size), 524_288.0);
    assert_eq!(as_mb(size), 512.0);
    assert_eq!(as_gb(size), 0.5);
}

#[test]
fn test_memory_size_from_different_units() {
    // From bytes
    let from_bytes = MemorySize::from_bytes(1_073_741_824);
    assert_eq!(as_gb(from_bytes), 1.0);

    // From KB
    let from_kb = MemorySize::from_kb(1_048_576);
    assert_eq!(as_gb(from_kb), 1.0);

    // From MB
    let from_mb = MemorySize::from_mb(1024);
    assert_eq!(as_gb(from_mb), 1.0);

    // From GB
    let from_gb = MemorySize::from_gb(1);
    assert_eq!(from_gb.as_bytes(), 1_073_741_824);
}

#[test]
fn test_memory_size_arithmetic() {
    let a = MemorySize::from_mb(256);
    let b = MemorySize::from_mb(256);
    let c = a + b;

    assert_eq!(as_mb(c), 512.0);

    let d = MemorySize::from_mb(1024);
    let e = MemorySize::from_mb(512);
    let f = d - e;

    assert_eq!(as_mb(f), 512.0);
}

#[test]
fn test_memory_size_display() {
    assert_eq!(MemorySize::from_bytes(1024).to_string(), "1.00 KB");
    assert_eq!(MemorySize::from_kb(1024).to_string(), "1.00 MB");
    assert_eq!(MemorySize::from_mb(1024).to_string(), "1.00 GB");
    assert_eq!(MemorySize::from_mb(512).to_string(), "512.00 MB");
}

#[test]
fn test_cpu_cores_quota() {
    // 1.0 cores
    let c = cores(1.0);
    let (quota, period) = c.to_quota();
    assert_eq!(quota, 100_000);
    assert_eq!(period, 100_000);

    // 1.5 cores
    let c = cores(1.5);
    let (quota, period) = c.to_quota();
    assert_eq!(quota, 150_000);
    assert_eq!(period, 100_000);

    // 0.5 cores
    let c = cores(0.5);
    let (quota, period) = c.to_quota();
    assert_eq!(quota, 50_000);
    assert_eq!(period, 100_000);

    // 2.0 cores
    let c = cores(2.0);
    let (quota, period) = c.to_quota();
    assert_eq!(quota, 200_000);
    assert_eq!(period, 100_000);
}

#[test]
fn test_cpu_cores_as_f64() {
    let c = cores(1.0);
    assert_eq!(as_f64(c), 1.0);

    let c = cores(1.5);
    assert_eq!(as_f64(c), 1.5);

    let c = cores(0.5);
    assert_eq!(as_f64(c), 0.5);
}

#[test]
fn test_cpu_limit() {
    let limit = CpuLimit::new(cores(1.5));
    assert_eq!(as_f64(limit.cores), 1.5);
}

#[test]
fn test_memory_limit() {
    let limit = MemoryLimit::new(MemorySize::from_mb(512));
    assert_eq!(as_mb(limit.limit), 512.0);
    assert!(limit.swap.is_none());

    let limit_with_swap =
        MemoryLimit::with_swap(MemorySize::from_mb(512), MemorySize::from_mb(256));
    assert_eq!(as_mb(limit_with_swap.limit), 512.0);
    assert_eq!(as_mb(limit_with_swap.swap.unwrap()), 256.0);
}

#[test]
fn test_resource_stats_default() {
    let stats = ResourceStats::default();
    assert_eq!(stats.cpu_usage.as_secs(), 0);
    assert_eq!(stats.cpu_throttled.as_secs(), 0);
    assert_eq!(stats.memory_current.as_bytes(), 0);
    assert_eq!(stats.memory_peak.as_bytes(), 0);
}

#[test]
fn test_memory_size_comparison() {
    let small = MemorySize::from_mb(256);
    let large = MemorySize::from_mb(512);

    assert!(small < large);
    assert!(large > small);
    assert_eq!(small, MemorySize::from_mb(256));
}

#[test]
fn test_memory_size_zero() {
    let zero = MemorySize::from_bytes(0);
    assert_eq!(zero.as_bytes(), 0);
    assert_eq!(as_mb(zero), 0.0);
}

#[test]
fn test_cpu_cores_zero() {
    let zero = cores(0.0);
    assert_eq!(as_f64(zero), 0.0);

    let (quota, period) = zero.to_quota();
    assert_eq!(quota, 0);
    assert_eq!(period, 100_000);
}

#[test]
fn memory_sizes_saturate() {
    let max = MemorySize::from_bytes(u64::MAX);
    assert_eq!((max + MemorySize::from_bytes(1)).as_bytes(), u64::MAX);
    assert_eq!((max + max).as_bytes(), u64::MAX);
    assert_eq!((MemorySize::from_bytes(1) - MemorySize::from_bytes(2)).as_bytes(), 0);
    assert_eq!((MemorySize::from_bytes(7) - MemorySize::from_bytes(2)).as_bytes(), 5);
    assert_eq!((MemorySize::from_bytes(3) + MemorySize::from_bytes(4)).as_bytes(), 7);
    assert_eq!(MemorySize::from_bytes(3).saturating_add(MemorySize::from_bytes(4)).as_bytes(), 7);
    assert_eq!(MemorySize::from_bytes(3).saturating_sub(MemorySize::from_bytes(4)).as_bytes(), 0);
    assert_eq!(MemorySize::from_kb(u64::MAX).as_bytes(), u64::MAX);
    assert_eq!(MemorySize::from_mb(u64::MAX / 1024).as_bytes(), u64::MAX);
    assert_eq!(MemorySize::from_gb(1 << 34).as_bytes(), u64::MAX);
    assert_eq!(MemorySize::from_gb((1 << 34) - 1).as_bytes(), ((1u64 << 34) - 1) << 30);
    assert_eq!(MemorySize::from_kb(3).as_bytes(), 3072);
    assert_eq!(MemorySize::default().as_bytes(), 0);
}

#[test]
fn memory_display_at_unit_boundaries() {
    assert_eq!(MemorySize::from_bytes(0).to_string(), "0 bytes");
    assert_eq!(MemorySize::from_bytes(1023).to_string(), "1023 bytes");
    assert_eq!(MemorySize::from_bytes(1024).to_string(), "1.00 KB");
    assert_eq!(MemorySize::from_bytes(1024 * 1024 - 1).to_string(), "1024.00 KB");
    assert_eq!(MemorySize::from_mb(1).to_string(), "1.00 MB");
    assert_eq!(MemorySize::from_gb(1).to_string(), "1.00 GB");
    assert_eq!(MemorySize::from_gb(2).to_string(), "2.00 GB");
    assert_eq!(MemorySize::from_bytes(1536).to_string(), "1.50 KB");
}

#[test]
fn memory_display_rounds_half_to_even() {
    // 1.125 GB and 1.375 GB lie exactly between two hundredths.
    assert_eq!(MemorySize::from_bytes(9 << 27).to_string(), "1.12 GB");
    assert_eq!(MemorySize::from_bytes(11 << 27).to_string(), "1.38 GB");
    assert_eq!(MemorySize::from_bytes(1024 + 128).to_string(), "1.12 KB");
    assert_eq!(MemorySize::from_bytes(1024 + 384).to_string(), "1.38 KB");
}

#[test]
fn memory_display_agrees_with_floating_point() {
    let mut samples: Vec<u64> = vec![
        0, 1, 999, 1023, 1024, 1025, 1500, 1536, 10_000, 1_048_575, 1_048_576, 1_048_577,
        123_456_789, 1_073_741_823, 1_073_741_824, 1_073_741_825, 5_000_000_000,
        (1 << 53) - 1, 1 << 53, (1 << 53) + 1, (1 << 53) + 2, (1 << 53) + 3,
        (1 << 60) + 12345, u64::MAX - 1, u64::MAX, u64::MAX / 3, u64::MAX / 7,
        9 << 27, 11 << 27, 13 << 27, (9 << 27) + 1, (9 << 27) - 1,
    ];
    let mut x: u64 = 0x9E37_79B9_7F4A_7C15;
    for _ in 0..20_000 {
        x ^= x << 13;
        x ^= x >> 7;
        x ^= x << 17;
        samples.push(x);
        samples.push(x >> 11);
        samples.push(x >> 24);
        samples.push(x >> 37);
        samples.push(x >> 50);
    }
    for bytes in samples {
        assert_eq!(MemorySize::from_bytes(bytes).to_string(), shown(bytes), "{} bytes", bytes);
    }
}

#[test]
fn cpu_time_units() {
    assert_eq!(CpuTime::from_micros(1_500_000).as_micros(), 1_500_000);
    assert_eq!(CpuTime::from_micros(1_500_000).as_millis(), 1_500);
    assert_eq!(CpuTime::from_micros(1_500_000).as_secs(), 1);
    assert_eq!(CpuTime::from_millis(500).as_micros(), 500_000);
    assert_eq!(CpuTime::from_secs(10).as_micros(), 10_000_000);
    assert_eq!(CpuTime::from_secs(u64::MAX).as_micros(), u64::MAX);
    assert_eq!(CpuTime::from_millis(u64::MAX).as_micros(), u64::MAX);
    assert_eq!(CpuTime::from_micros(3).saturating_add(CpuTime::from_micros(4)).as_micros(), 7);
    assert_eq!(
        CpuTime::from_micros(u64::MAX).saturating_add(CpuTime::from_micros(4)).as_micros(),
        u64::MAX
    );
    assert_eq!(CpuTime::default().as_micros(), 0);
    assert!(CpuTime::from_secs(1) < CpuTime::from_secs(2));
}

#[test]
fn cpu_cores_from_millicores() {
    assert_eq!(CpuCores::from_millicores(1, 500).to_quota(), (150_000, 100_000));
    assert_eq!(CpuCores::from_millicores(0, 250).to_quota(), (25_000, 100_000));
    assert_eq!(CpuCores::from_millicores(2, 0).as_hundred_thousandths(), 200_000);
    assert_eq!(CpuCores::from_millicores(u32::MAX, u32::MAX).as_hundred_thousandths(),
        u32::MAX as i64 * 100_000 + u32::MAX as i64 * 100);
}

#[test]
fn cpu_time_is_shown_as_a_duration() {
    assert_eq!(CpuTime::from_micros(0).to_string(), "0ns");
    assert_eq!(CpuTime::from_micros(5).to_string(), "5\u{b5}s");
    assert_eq!(CpuTime::from_micros(999).to_string(), "999\u{b5}s");
    assert_eq!(CpuTime::from_millis(250).to_string(), "250ms");
    assert_eq!(CpuTime::from_micros(100_001).to_string(), "100.001ms");
    assert_eq!(CpuTime::from_micros(1_500).to_string(), "1.5ms");
    assert_eq!(CpuTime::from_micros(1_050).to_string(), "1.05ms");
    assert_eq!(CpuTime::from_secs(10).to_string(), "10s");
    assert_eq!(CpuTime::from_micros(1_500_000).to_string(), "1.5s");
    assert_eq!(CpuTime::from_micros(1_000_001).to_string(), "1.000001s");
    assert_eq!(CpuTime::from_micros(12_345_678).to_string(), "12.345678s");
    let mut samples: Vec<u64> = vec![0, 1, 10, 999, 1000, 1001, 1010, 1100, 999_999, 1_000_000,
        1_000_010, 1_001_000, 1_100_000, 60_000_000, u64::MAX, u64::MAX - 1];
    let mut x: u64 = 0x1234_5678_9ABC_DEF1;
    for _ in 0..5_000 {
        x ^= x << 13;
        x ^= x >> 7;
        x ^= x << 17;
        samples.push(x);
        samples.push(x >> 20);
        samples.push(x >> 40);
        samples.push(x >> 50);
        samples.push((x >> 44) * 1000);
        samples.push((x >> 50) * 100_000);
    }
    for micros in samples {
        let expected = format!("{:?}", std::time::Duration::from_micros(micros));
        assert_eq!(CpuTime::from_micros(micros).to_string(), expected, "{} microseconds", micros);
    }
}

#[test]
fn memory_sizes_are_ordered_by_their_bytes() {
    let samples = [0u64, 1, 2, 1023, 1024, 1 << 20, 1 << 30, u64::MAX - 1, u64::MAX];
    for a in samples {
        for b in samples {
            let (x, y) = (MemorySize::from_bytes(a), MemorySize::from_bytes(b));
            assert_eq!(x < y, a < b);
            assert_eq!(x <= y, a <= b);
            assert_eq!(x > y, a > b);
            assert_eq!(x >= y, a >= b);
            assert_eq!(x == y, a == b);
            assert_eq!(x.partial_cmp(&y), a.partial_cmp(&b));
            assert_eq!(x.cmp(&y), a.cmp(&b));
            assert_eq!(x.max(y).as_bytes(), a.max(b));
            assert_eq!(x.min(y).as_bytes(), a.min(b));
        }
    }
}
