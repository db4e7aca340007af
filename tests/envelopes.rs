use navigator_assistant::hardware::{ADCData, AxisData, PwmChannel, SensorSnapshot, UserLed};
use navigator_assistant::packages::{
    get_led_all, init, pwm_channel_value, pwm_enable, reading, set_led, set_neopixel,
    set_pwm_freq_hz, Sensors,
};
use navigator_assistant::errors::Error;
use navigator_assistant::structures::{
    AnsPackage, InputDeviceType, InputDevices, InputRequest, NeoPixelRGB, Operation,
    OutputDevices, Pwm, ServerMetadata, Value,
};

fn sample() -> SensorSnapshot {
    SensorSnapshot {
        temperature: 25.5f32.to_bits(),
        pressure: 101.3f32.to_bits(),
        accelerometer: AxisData { x: 1.0f32.to_bits(), y: 2.0f32.to_bits(), z: 9.8f32.to_bits() },
        gyro: AxisData { x: 4, y: 5, z: 6 },
        magnetometer: AxisData { x: 7, y: 8, z: 9 },
        adc: ADCData { channel: [10, 11, 12, 13] },
    }
}

fn input_of(p: &AnsPackage) -> &InputRequest {
    match &p.operation {
        Operation::Input(i) => i,
        _ => panic!("not a reading"),
    }
}

fn single_output(p: &AnsPackage) -> (&str, &OutputDevices) {
    match &p.operation {
        Operation::Output(o) => {
            assert_eq!(o.output.len(), 1);
            (o.timestamp.as_str(), &o.output[0])
        }
        _ => panic!("not an actuator result"),
    }
}

#[test]
fn reading_temperature_only() {
    let p = reading(Sensors::Temperature, &sample(), "t0".to_string());
    assert_eq!(p.model, "Navigator_v4");
    let i = input_of(&p);
    assert_eq!(i.timestamp, "t0");
    assert_eq!(i.input.len(), 1);
    assert_eq!(i.input[0].input_type, InputDeviceType::Temperature);
    assert_eq!(i.input[0].unit, "C");
    assert_eq!(i.input[0].value, Value::Single(25.5f32.to_bits()));
}

#[test]
fn reading_all_in_order_with_units() {
    let s = sample();
    let p = reading(Sensors::All, &s, "t1".to_string());
    let i = input_of(&p);
    let types: Vec<InputDeviceType> = i.input.iter().map(|d| d.input_type).collect();
    assert_eq!(
        types,
        vec![
            InputDeviceType::Temperature,
            InputDeviceType::Pressure,
            InputDeviceType::Accelerometer,
            InputDeviceType::Gyroscope,
            InputDeviceType::Magnetometer,
            InputDeviceType::Adc,
        ]
    );
    let units: Vec<&str> = i.input.iter().map(|d| d.unit.as_str()).collect();
    assert_eq!(units, vec!["C", "kPa", "m/s2", "rad/s", "uT", "V"]);
    assert_eq!(i.input[1].value, Value::Single(101.3f32.to_bits()));
    assert_eq!(
        i.input[2].value,
        Value::Array(vec![1.0f32.to_bits(), 2.0f32.to_bits(), 9.8f32.to_bits()])
    );
    assert_eq!(i.input[3].value, Value::Array(vec![4, 5, 6]));
    assert_eq!(i.input[4].value, Value::Array(vec![7, 8, 9]));
    assert_eq!(i.input[5].value, Value::Array(vec![10, 11, 12, 13]));
}

#[test]
fn input_devices_units() {
    assert_eq!(InputDevices::new(InputDeviceType::Altitude, Value::Single(0)).unit, "m");
    assert_eq!(InputDevices::new(InputDeviceType::Pressure, Value::Single(0)).unit, "kPa");
}

#[test]
fn input_request_default_is_empty() {
    let r = InputRequest::default();
    assert_eq!(r.timestamp, "");
    assert!(r.input.is_empty());
}

#[test]
fn pwm_channel_value_envelope() {
    let p = pwm_channel_value(PwmChannel::Ch3, 500, "t".to_string()).unwrap();
    let (ts, out) = single_output(&p);
    assert_eq!(ts, "t");
    assert_eq!(
        out,
        &OutputDevices::PWM(Pwm {
            channel: Some(vec![PwmChannel::Ch3]),
            value: Some(vec![500]),
            frequency: None,
            enable: None,
        })
    );
}

#[test]
fn pwm_channel_value_range_edges() {
    assert!(pwm_channel_value(PwmChannel::Ch1, 4095, "t".to_string()).is_ok());
    assert!(pwm_channel_value(PwmChannel::Ch1, 0, "t".to_string()).is_ok());
    match pwm_channel_value(PwmChannel::Ch1, 4096, "t".to_string()) {
        Err(Error::BadRequest(_)) => {}
        other => panic!("unexpected {:?}", other),
    }
}

#[test]
fn pwm_enable_and_frequency_envelopes() {
    let p = pwm_enable(true, "t".to_string());
    let (_, out) = single_output(&p);
    assert_eq!(
        out,
        &OutputDevices::PWM(Pwm { channel: None, value: None, frequency: None, enable: Some(true) })
    );
    let f = set_pwm_freq_hz(50.0f32.to_bits(), "t".to_string());
    let (_, out) = single_output(&f);
    assert_eq!(
        out,
        &OutputDevices::PWM(Pwm {
            channel: None,
            value: None,
            frequency: Some(50.0f32.to_bits()),
            enable: None,
        })
    );
}

#[test]
fn led_envelopes() {
    let p = set_led(UserLed::Led2, true, "t".to_string());
    match single_output(&p).1 {
        OutputDevices::UserLED(l) => {
            assert_eq!(l.channel, vec![UserLed::Led2]);
            assert_eq!(l.value, vec![true]);
        }
        _ => panic!("not a LED result"),
    }
    let all = get_led_all([true, false, true], "t".to_string());
    match single_output(&all).1 {
        OutputDevices::UserLED(l) => {
            assert_eq!(l.channel, vec![UserLed::Led1, UserLed::Led2, UserLed::Led3]);
            assert_eq!(l.value, vec![true, false, true]);
        }
        _ => panic!("not a LED result"),
    }
}

#[test]
fn neopixel_envelope_keeps_order() {
    let p = set_neopixel(vec![[1, 2, 3], [4, 5, 6]], "t".to_string());
    match single_output(&p).1 {
        OutputDevices::NeoPixel(n) => assert_eq!(
            n.value,
            vec![
                NeoPixelRGB { red: 1, green: 2, blue: 3 },
                NeoPixelRGB { red: 4, green: 5, blue: 6 },
            ]
        ),
        _ => panic!("not a pixel result"),
    }
    let empty = set_neopixel(vec![], "t".to_string());
    match single_output(&empty).1 {
        OutputDevices::NeoPixel(n) => assert!(n.value.is_empty()),
        _ => panic!("not a pixel result"),
    }
}

#[test]
fn init_is_settings() {
    let p = init();
    assert_eq!(p.model, "Navigator_v4");
    assert_eq!(p.operation, Operation::Settings);
}

#[test]
fn server_metadata_default() {
    let m = ServerMetadata::default();
    assert_eq!(m.name, "Navigator Assistant");
    assert_eq!(m.api, "/docs");
    assert!(!m.new_page);
}

#[test]
fn envelope_logical_names() {
    let s = sample();
    assert_eq!(reading(Sensors::Temperature, &s, "t".to_string()).name(), "temperature");
    assert_eq!(
        reading(Sensors::All, &s, "t".to_string()).name(),
        "temperature,pressure,accelerometer,gyroscope,magnetometer,adc"
    );
    assert_eq!(pwm_channel_value(PwmChannel::Ch3, 500, "t".to_string()).unwrap().name(), "pwm");
    assert_eq!(set_led(UserLed::Led1, true, "t".to_string()).name(), "userled");
    assert_eq!(set_neopixel(vec![], "t".to_string()).name(), "neopixel");
    assert_eq!(init().name(), "settings");
}
