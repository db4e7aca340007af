use navigator_assistant::cache::ReadingCache;
use navigator_assistant::hardware::{ADCData, AxisData, SensorSnapshot};
use navigator_assistant::packages::{reading, Sensors};
use navigator_assistant::sampler::{DeviceFault, Pacing, Sampler, ADC_MIN_INTERVAL_MS};

fn snapshot(t: f32) -> SensorSnapshot {
    SensorSnapshot {
        temperature: t.to_bits(),
        pressure: 1,
        accelerometer: AxisData { x: 2, y: 3, z: 4 },
        gyro: AxisData { x: 5, y: 6, z: 7 },
        magnetometer: AxisData { x: 8, y: 9, z: 10 },
        adc: ADCData { channel: [11, 12, 13, 14] },
    }
}

#[test]
fn cache_reads_zero_before_publish() {
    let c = ReadingCache::new();
    assert_eq!(c.read(), SensorSnapshot::zeroed());
}

#[test]
fn cache_read_returns_last_publish_whole() {
    let mut c = ReadingCache::new();
    c.publish(snapshot(1.0));
    c.publish(snapshot(2.0));
    assert_eq!(c.read(), snapshot(2.0));
}

#[test]
fn zero_interval_disables_sampling() {
    assert!(Sampler::new(0).is_none());
    assert_eq!(Sampler::new(100).unwrap().interval_ms(), 100);
}

#[test]
fn pacing_sleeps_rest_or_overruns() {
    let s = Sampler::new(100).unwrap();
    assert_eq!(s.pacing(30), Pacing::Sleep(70));
    assert_eq!(s.pacing(100), Pacing::Sleep(0));
    assert_eq!(s.pacing(101), Pacing::Overrun);
}

#[test]
fn overrun_tick_does_not_sleep_and_warns_once() {
    let s = Sampler::new(10).unwrap();
    let mut c = ReadingCache::new();
    let a = s.tick(&mut c, Ok(snapshot(1.0)), 25, "t".to_string()).unwrap();
    assert_eq!(a.pacing, Pacing::Overrun);
    let b = s.tick(&mut c, Ok(snapshot(1.0)), 5, "t".to_string()).unwrap();
    assert_eq!(b.pacing, Pacing::Sleep(5));
}

#[test]
fn short_interval_zeroes_adc() {
    assert!(!Sampler::new(ADC_MIN_INTERVAL_MS - 1).unwrap().reads_adc());
    assert!(Sampler::new(ADC_MIN_INTERVAL_MS).unwrap().reads_adc());
    let s = Sampler::new(10).unwrap();
    let mut c = ReadingCache::new();
    s.tick(&mut c, Ok(snapshot(3.0)), 1, "t".to_string()).unwrap();
    let mut want = snapshot(3.0);
    want.adc = ADCData::zeroed();
    assert_eq!(c.read(), want);
}

#[test]
fn device_failure_publishes_nothing() {
    let s = Sampler::new(100).unwrap();
    let mut c = ReadingCache::new();
    c.publish(snapshot(1.0));
    let r = s.tick(&mut c, Err(DeviceFault::ReadFailed), 1, "t".to_string());
    assert_eq!(r, Err(DeviceFault::ReadFailed));
    assert_eq!(c.read(), snapshot(1.0));
}

#[test]
fn tick_broadcasts_all_sensors_of_published_snapshot() {
    let s = Sampler::new(100).unwrap();
    let mut c = ReadingCache::new();
    let a = s.tick(&mut c, Ok(snapshot(4.0)), 10, "t9".to_string()).unwrap();
    assert_eq!(a.envelope, reading(Sensors::All, &snapshot(4.0), "t9".to_string()));
}

#[test]
fn scenario_fixed_snapshot_over_350ms() {
    let s = Sampler::new(100).unwrap();
    let mut c = ReadingCache::new();
    let fixed = snapshot(21.0);
    let mut broadcasts = Vec::new();
    let mut now: u64 = 0;
    while now <= 350 {
        let a = s.tick(&mut c, Ok(fixed), 2, format!("{}", now)).unwrap();
        broadcasts.push(a.envelope);
        match a.pacing {
            Pacing::Sleep(ms) => now += 2 + ms,
            Pacing::Overrun => now += 2,
        }
    }
    assert_eq!(c.read(), fixed);
    assert!(broadcasts.len() >= 3);
}
