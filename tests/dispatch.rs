use navigator_assistant::cache::ReadingCache;
use navigator_assistant::dispatch::{Command, DeviceOp, DeviceReply};
use navigator_assistant::errors::Error;
use navigator_assistant::hardware::{ADCData, AxisData, PwmChannel, SensorSnapshot, UserLed};
use navigator_assistant::packages::{pwm_channel_value, reading, Sensors};
use navigator_assistant::structures::{
    ApiPwmChannelValue, ApiUserLed, NeoPixelRGB, Operation, OutputDevices, Pwm, Value,
};

fn snap(t: u32) -> SensorSnapshot {
    SensorSnapshot {
        temperature: t,
        pressure: t + 1,
        accelerometer: AxisData { x: 1, y: 2, z: 3 },
        gyro: AxisData { x: 4, y: 5, z: 6 },
        magnetometer: AxisData { x: 7, y: 8, z: 9 },
        adc: ADCData { channel: [1, 2, 3, 4] },
    }
}

#[test]
fn live_read_uses_device_once() {
    let mut cache = ReadingCache::new();
    cache.publish(snap(100));
    for sensor in [Sensors::Temperature, Sensors::Adc, Sensors::All] {
        let cmd = Command::Read { sensor, cached: false };
        assert_eq!(cmd.device_op().unwrap(), Some(DeviceOp::Read(sensor)));
        let env = cmd.envelope(DeviceReply::Snapshot(snap(7)), &cache, "t".to_string()).unwrap();
        assert_eq!(env, reading(sensor, &snap(7), "t".to_string()));
    }
    let cmd = Command::Read { sensor: Sensors::Temperature, cached: false };
    let env = cmd.envelope(DeviceReply::Snapshot(snap(7)), &cache, "t".to_string()).unwrap();
    match env.operation {
        Operation::Input(i) => assert_eq!(i.input[0].value, Value::Single(7)),
        _ => panic!("not a reading"),
    }
}

#[test]
fn live_read_without_device_answer_is_internal_error() {
    let cache = ReadingCache::new();
    let cmd = Command::Read { sensor: Sensors::Pressure, cached: false };
    match cmd.envelope(DeviceReply::Nothing, &cache, "t".to_string()) {
        Err(Error::Internal(_)) => {}
        other => panic!("unexpected {:?}", other),
    }
}

#[test]
fn cached_read_never_touches_device() {
    let mut cache = ReadingCache::new();
    cache.publish(snap(100));
    let cmd = Command::Read { sensor: Sensors::Pressure, cached: true };
    assert_eq!(cmd.device_op().unwrap(), None);
    let a = cmd.envelope(DeviceReply::Nothing, &cache, "t".to_string()).unwrap();
    let b = cmd.envelope(DeviceReply::Snapshot(snap(5)), &cache, "t".to_string()).unwrap();
    assert_eq!(a, b);
    assert_eq!(a, reading(Sensors::Pressure, &snap(100), "t".to_string()));
}

#[test]
fn scenario_pwm_channel_three_to_500() {
    let cache = ReadingCache::new();
    let cmd = Command::PwmChannelValue(ApiPwmChannelValue { channel: PwmChannel::Ch3, value: 500 });
    assert_eq!(cmd.device_op().unwrap(), Some(DeviceOp::SetPwmChannelValue(PwmChannel::Ch3, 500)));
    let env = cmd.envelope(DeviceReply::Done, &cache, "t".to_string()).unwrap();
    assert_eq!(env, pwm_channel_value(PwmChannel::Ch3, 500, "t".to_string()).unwrap());
    match &env.operation {
        Operation::Output(o) => assert_eq!(
            o.output,
            vec![OutputDevices::PWM(Pwm {
                channel: Some(vec![PwmChannel::Ch3]),
                value: Some(vec![500]),
                frequency: None,
                enable: None,
            })]
        ),
        _ => panic!("not an actuator result"),
    }
}

#[test]
fn out_of_range_pwm_is_rejected_before_device() {
    let cache = ReadingCache::new();
    let cmd = Command::PwmChannelValue(ApiPwmChannelValue { channel: PwmChannel::Ch1, value: 5000 });
    match cmd.device_op() {
        Err(Error::BadRequest(_)) => {}
        other => panic!("unexpected {:?}", other),
    }
    match cmd.envelope(DeviceReply::Done, &cache, "t".to_string()) {
        Err(Error::BadRequest(_)) => {}
        other => panic!("unexpected {:?}", other),
    }
}

#[test]
fn actuator_commands_map_to_one_write() {
    let led = Command::SetLed(ApiUserLed { userled: UserLed::Led3, value: true });
    assert_eq!(led.device_op().unwrap(), Some(DeviceOp::SetLed(UserLed::Led3, true)));
    let px = Command::SetNeopixel(vec![[1, 2, 3], [4, 5, 6]]);
    assert_eq!(
        px.device_op().unwrap(),
        Some(DeviceOp::SetNeopixel(vec![[1, 2, 3], [4, 5, 6]]))
    );
    assert_eq!(Command::PwmEnable(false).device_op().unwrap(), Some(DeviceOp::PwmEnable(false)));
    assert_eq!(Command::GetLedAll.device_op().unwrap(), Some(DeviceOp::ReadLeds));
    assert_eq!(Command::Init.device_op().unwrap(), Some(DeviceOp::Init));
    assert_eq!(Command::PwmFrequency(7).device_op().unwrap(), Some(DeviceOp::SetPwmFrequency(7)));
}

#[test]
fn led_report_needs_led_reply() {
    let cache = ReadingCache::new();
    let env = Command::GetLedAll
        .envelope(DeviceReply::Leds([false, true, false]), &cache, "t".to_string())
        .unwrap();
    match &env.operation {
        Operation::Output(o) => match &o.output[0] {
            OutputDevices::UserLED(l) => assert_eq!(l.value, vec![false, true, false]),
            _ => panic!("not a LED result"),
        },
        _ => panic!("not an actuator result"),
    }
    match Command::GetLedAll.envelope(DeviceReply::Done, &cache, "t".to_string()) {
        Err(Error::Internal(_)) => {}
        other => panic!("unexpected {:?}", other),
    }
}

#[test]
fn envelope_carries_given_timestamp() {
    let cache = ReadingCache::new();
    let env = Command::PwmEnable(true)
        .envelope(DeviceReply::Done, &cache, "2024-01-01 00:00:00 UTC".to_string())
        .unwrap();
    match &env.operation {
        Operation::Output(o) => assert_eq!(o.timestamp, "2024-01-01 00:00:00 UTC"),
        _ => panic!("not an actuator result"),
    }
}

#[test]
fn pixel_list_envelope() {
    let cache = ReadingCache::new();
    let env = Command::SetNeopixel(vec![[1, 2, 3], [4, 5, 6]])
        .envelope(DeviceReply::Done, &cache, "t".to_string())
        .unwrap();
    match &env.operation {
        Operation::Output(o) => match &o.output[0] {
            OutputDevices::NeoPixel(n) => assert_eq!(
                n.value,
                vec![
                    NeoPixelRGB { red: 1, green: 2, blue: 3 },
                    NeoPixelRGB { red: 4, green: 5, blue: 6 },
                ]
            ),
            _ => panic!("not a pixel result"),
        },
        _ => panic!("not an actuator result"),
    }
}
