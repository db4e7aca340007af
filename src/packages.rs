//! The operation envelope builder: every sensor read and actuator write
//! becomes one envelope, built here as a value.

use vstd::prelude::*;
use crate::errors::Error;
use crate::hardware::{PwmChannel, SensorSnapshot, UserLed, PWM_MAX_VALUE};
use crate::structures::{
    output_package, AnsPackage, InputDeviceType, InputDeviceView, InputDevices, InputRequest,
    NeoPixel, NeoPixelRGB, Operation, OperationView, OutputDevices, OutputView, PackageView, Pwm,
    PwmView, UserLED, UserLEDView, Value, ValueView, MODEL, unit_of,
};
use crate::text::{all_ascii, ascii_lower_code, lower_of, str_eq, to_lowercase};
use crate::hardware::UnknownName;
use vstd::string::StringExecFns;

verus! {

/// A sensor selector: one sensor class, or all of them.
#[derive(Clone, Copy, Debug, PartialEq, Eq, Structural)]
pub enum Sensors {
    All,
    Temperature,
    Pressure,
    Accelerometer,
    Gyroscope,
    Magnetometer,
    Adc,
}

/// The selector that a lower-case name names.
pub open spec fn sensor_named(s: Seq<char>) -> Option<Sensors> {
    if s == "all"@ {
        Some(Sensors::All)
    } else if s == "temperature"@ {
        Some(Sensors::Temperature)
    } else if s == "pressure"@ {
        Some(Sensors::Pressure)
    } else if s == "accelerometer"@ {
        Some(Sensors::Accelerometer)
    } else if s == "gyroscope"@ {
        Some(Sensors::Gyroscope)
    } else if s == "magnetometer"@ {
        Some(Sensors::Magnetometer)
    } else if s == "adc"@ {
        Some(Sensors::Adc)
    } else {
        None
    }
}

impl Sensors {
    /// Selects sensors by a name that is already lower case.
    pub fn from_lowercase(s: &str) -> (r: Option<Sensors>)
        ensures
            r == sensor_named(s@),
    {
        if str_eq(s, "all") {
            Some(Sensors::All)
        } else if str_eq(s, "temperature") {
            Some(Sensors::Temperature)
        } else if str_eq(s, "pressure") {
            Some(Sensors::Pressure)
        } else if str_eq(s, "accelerometer") {
            Some(Sensors::Accelerometer)
        } else if str_eq(s, "gyroscope") {
            Some(Sensors::Gyroscope)
        } else if str_eq(s, "magnetometer") {
            Some(Sensors::Magnetometer)
        } else if str_eq(s, "adc") {
            Some(Sensors::Adc)
        } else {
            None
        }
    }

    /// Selects sensors by name, ignoring case (`"ADC"` is `Adc`).
    pub fn from_str(s: &str) -> (r: Result<Sensors, UnknownName>)
        ensures
            match sensor_named(lower_of(s@)) {
                Some(c) => r == Ok::<Sensors, UnknownName>(c),
                None => r is Err && r->Err_0.name@ == lower_of(s@),
            },
            all_ascii(s@) ==> lower_of(s@).len() == s@.len() && forall|i: int|
                0 <= i < s@.len() ==> (#[trigger] lower_of(s@)[i] as u32) == ascii_lower_code(
                    s@[i] as u32,
                ),
    {
        let lower = to_lowercase(s);
        match Sensors::from_lowercase(lower.as_str()) {
            Some(c) => Ok(c),
            None => Err(UnknownName { name: lower }),
        }
    }
}

/// The sensor classes a selector reports, in report order.
pub open spec fn selected(sel: Sensors) -> Seq<InputDeviceType> {
    match sel {
        Sensors::All => seq![
            InputDeviceType::Temperature,
            InputDeviceType::Pressure,
            InputDeviceType::Accelerometer,
            InputDeviceType::Gyroscope,
            InputDeviceType::Magnetometer,
            InputDeviceType::Adc,
        ],
        Sensors::Temperature => seq![InputDeviceType::Temperature],
        Sensors::Pressure => seq![InputDeviceType::Pressure],
        Sensors::Accelerometer => seq![InputDeviceType::Accelerometer],
        Sensors::Gyroscope => seq![InputDeviceType::Gyroscope],
        Sensors::Magnetometer => seq![InputDeviceType::Magnetometer],
        Sensors::Adc => seq![InputDeviceType::Adc],
    }
}

/// The field of a snapshot that reports a sensor class (no sensor of the
/// board reports altitude: it reads as an empty vector).
pub open spec fn value_of(t: InputDeviceType, s: SensorSnapshot) -> ValueView {
    match t {
        InputDeviceType::Temperature => ValueView::Single(s.temperature),
        InputDeviceType::Pressure => ValueView::Single(s.pressure),
        InputDeviceType::Altitude => ValueView::Array(Seq::empty()),
        InputDeviceType::Accelerometer => ValueView::Array(
            seq![s.accelerometer.x, s.accelerometer.y, s.accelerometer.z],
        ),
        InputDeviceType::Gyroscope => ValueView::Array(seq![s.gyro.x, s.gyro.y, s.gyro.z]),
        InputDeviceType::Magnetometer => ValueView::Array(
            seq![s.magnetometer.x, s.magnetometer.y, s.magnetometer.z],
        ),
        InputDeviceType::Adc => ValueView::Array(s.adc.channel@),
    }
}

/// How one sensor class of a snapshot is reported.
pub open spec fn report_of(t: InputDeviceType, s: SensorSnapshot) -> InputDeviceView {
    InputDeviceView { input_type: t, unit: unit_of(t), value: value_of(t, s) }
}

/// The envelope reporting the selected sensors of a snapshot.
pub open spec fn reading_package(sel: Sensors, s: SensorSnapshot, timestamp: Seq<char>) -> PackageView {
    PackageView {
        model: MODEL@,
        operation: OperationView::Input {
            timestamp,
            input: selected(sel).map_values(|t: InputDeviceType| report_of(t, s)),
        },
    }
}

/// The sensor classes a selector reports, in report order.
pub fn selected_types(sel: Sensors) -> (r: Vec<InputDeviceType>)
    ensures
        r@ == selected(sel),
{
    let mut v: Vec<InputDeviceType> = Vec::new();
    match sel {
        Sensors::All => {
            v.push(InputDeviceType::Temperature);
            v.push(InputDeviceType::Pressure);
            v.push(InputDeviceType::Accelerometer);
            v.push(InputDeviceType::Gyroscope);
            v.push(InputDeviceType::Magnetometer);
            v.push(InputDeviceType::Adc);
        },
        Sensors::Temperature => v.push(InputDeviceType::Temperature),
        Sensors::Pressure => v.push(InputDeviceType::Pressure),
        Sensors::Accelerometer => v.push(InputDeviceType::Accelerometer),
        Sensors::Gyroscope => v.push(InputDeviceType::Gyroscope),
        Sensors::Magnetometer => v.push(InputDeviceType::Magnetometer),
        Sensors::Adc => v.push(InputDeviceType::Adc),
    }
    assert(v@ =~= selected(sel));
    v
}

/// The value of a snapshot that reports a sensor class.
pub fn value_for(t: InputDeviceType, s: &SensorSnapshot) -> (r: Value)
    ensures
        r@ == value_of(t, *s),
{
    match t {
        InputDeviceType::Temperature => Value::Single(s.temperature),
        InputDeviceType::Pressure => Value::Single(s.pressure),
        InputDeviceType::Altitude => {
            let r = Value::Array(Vec::new());
            assert(r@->Array_0 =~= Seq::<u32>::empty());
            r
        },
        InputDeviceType::Accelerometer => Value::Array(s.accelerometer.to_vec()),
        InputDeviceType::Gyroscope => Value::Array(s.gyro.to_vec()),
        InputDeviceType::Magnetometer => Value::Array(s.magnetometer.to_vec()),
        InputDeviceType::Adc => Value::Array(s.adc.to_vec()),
    }
}

/// The envelope reporting the selected sensors of `snapshot`, stamped with
/// `timestamp`.
pub fn reading(selection: Sensors, snapshot: &SensorSnapshot, timestamp: String) -> (r: AnsPackage)
    ensures
        r@ == reading_package(selection, *snapshot, timestamp@),
{
    let types = selected_types(selection);
    let mut input: Vec<InputDevices> = Vec::new();
    let ghost want = selected(selection).map_values(|t: InputDeviceType| report_of(t, *snapshot));
    let mut i: usize = 0;
    while i < types.len()
        invariant
            types@ == selected(selection),
            want == selected(selection).map_values(|t: InputDeviceType| report_of(t, *snapshot)),
            i <= types@.len(),
            input@.map_values(|d: InputDevices| d@) =~= want.take(i as int),
        decreases types@.len() - i,
    {
        let t = types[i];
        let d = InputDevices::new(t, value_for(t, snapshot));
        assert(d@ == report_of(t, *snapshot));
        assert(want[i as int] == report_of(t, *snapshot));
        let ghost before = input@;
        input.push(d);
        assert(input@.map_values(|d: InputDevices| d@) =~= before.map_values(
            |d: InputDevices| d@,
        ).push(d@));
        assert(input@.map_values(|d: InputDevices| d@) =~= want.take(i as int + 1));
        i = i + 1;
    }
    assert(want.take(i as int) =~= want);
    AnsPackage::new(Operation::Input(InputRequest { timestamp, input }))
}

/// The envelope of a PWM write that touched only the given fields.
pub open spec fn pwm_package(
    timestamp: Seq<char>,
    channel: Option<Seq<PwmChannel>>,
    value: Option<Seq<u16>>,
    frequency: Option<u32>,
    enable: Option<bool>,
) -> PackageView {
    output_package(
        timestamp,
        OutputView::PWM(PwmView { channel, value, frequency, enable }),
    )
}

/// The envelope of a write of `value` to one PWM channel. A value above
/// `PWM_MAX_VALUE` is a malformed request.
pub fn pwm_channel_value(channel: PwmChannel, value: u16, timestamp: String) -> (r: Result<AnsPackage, Error>)
    ensures
        value <= PWM_MAX_VALUE ==> r is Ok && r->Ok_0@ == pwm_package(
            timestamp@,
            Some(seq![channel]),
            Some(seq![value]),
            None,
            None,
        ),
        value > PWM_MAX_VALUE ==> r is Err && r->Err_0 is BadRequest,
{
    if value > PWM_MAX_VALUE {
        return Err(Error::BadRequest(String::from_str("PWM value is above 4095")));
    }
    let mut channels: Vec<PwmChannel> = Vec::new();
    channels.push(channel);
    let mut values: Vec<u16> = Vec::new();
    values.push(value);
    let pwm = Pwm { channel: Some(channels), value: Some(values), frequency: None, enable: None };
    let r = AnsPackage::output(timestamp, OutputDevices::PWM(pwm));
    assert(channels@ =~= seq![channel]);
    assert(values@ =~= seq![value]);
    Ok(r)
}

/// The envelope of enabling or disabling the PWM outputs.
pub fn pwm_enable(state: bool, timestamp: String) -> (r: AnsPackage)
    ensures
        r@ == pwm_package(timestamp@, None, None, None, Some(state)),
{
    let pwm = Pwm { channel: None, value: None, frequency: None, enable: Some(state) };
    AnsPackage::output(timestamp, OutputDevices::PWM(pwm))
}

/// The envelope of setting the PWM frequency (`frequency` is the bit pattern
/// of a single-precision value in hertz).
pub fn set_pwm_freq_hz(frequency: u32, timestamp: String) -> (r: AnsPackage)
    ensures
        r@ == pwm_package(timestamp@, None, None, Some(frequency), None),
{
    let pwm = Pwm { channel: None, value: None, frequency: Some(frequency), enable: None };
    AnsPackage::output(timestamp, OutputDevices::PWM(pwm))
}

/// The envelope of switching one user LED.
pub fn set_led(select: UserLed, state: bool, timestamp: String) -> (r: AnsPackage)
    ensures
        r@ == output_package(
            timestamp@,
            OutputView::UserLED(UserLEDView { channel: seq![select], value: seq![state] }),
        ),
{
    let mut channel: Vec<UserLed> = Vec::new();
    channel.push(select);
    let mut value: Vec<bool> = Vec::new();
    value.push(state);
    assert(channel@ =~= seq![select]);
    assert(value@ =~= seq![state]);
    AnsPackage::output(timestamp, OutputDevices::UserLED(UserLED { channel, value }))
}

/// The envelope reporting the state of the three user LEDs, in LED order.
pub fn get_led_all(states: [bool; 3], timestamp: String) -> (r: AnsPackage)
    ensures
        r@ == output_package(
            timestamp@,
            OutputView::UserLED(
                UserLEDView {
                    channel: seq![UserLed::Led1, UserLed::Led2, UserLed::Led3],
                    value: states@,
                },
            ),
        ),
{
    let mut channel: Vec<UserLed> = Vec::new();
    channel.push(UserLed::Led1);
    channel.push(UserLed::Led2);
    channel.push(UserLed::Led3);
    let mut value: Vec<bool> = Vec::new();
    value.push(states[0]);
    value.push(states[1]);
    value.push(states[2]);
    assert(channel@ =~= seq![UserLed::Led1, UserLed::Led2, UserLed::Led3]);
    assert(value@ =~= states@);
    AnsPackage::output(timestamp, OutputDevices::UserLED(UserLED { channel, value }))
}

/// The pixel colors of `[red, green, blue]` triples, in order.
pub open spec fn colors_of(rgb: Seq<[u8; 3]>) -> Seq<NeoPixelRGB> {
    rgb.map_values(|c: [u8; 3]| NeoPixelRGB { red: c@[0], green: c@[1], blue: c@[2] })
}

/// The envelope of writing colors to the addressable pixels.
pub fn set_neopixel(rgb_array: Vec<[u8; 3]>, timestamp: String) -> (r: AnsPackage)
    ensures
        r@ == output_package(timestamp@, OutputView::NeoPixel(colors_of(rgb_array@))),
{
    let mut value: Vec<NeoPixelRGB> = Vec::new();
    let mut i: usize = 0;
    while i < rgb_array.len()
        invariant
            i <= rgb_array@.len(),
            value@ =~= colors_of(rgb_array@).take(i as int),
        decreases rgb_array@.len() - i,
    {
        value.push(NeoPixelRGB::from(rgb_array[i]));
        i = i + 1;
    }
    assert(colors_of(rgb_array@).take(i as int) =~= colors_of(rgb_array@));
    AnsPackage::output(timestamp, OutputDevices::NeoPixel(NeoPixel { value }))
}

/// The envelope of a settings operation (the board was initialized).
pub fn init() -> (r: AnsPackage)
    ensures
        r@ == (PackageView { model: MODEL@, operation: OperationView::Settings }),
{
    AnsPackage::new(Operation::Settings)
}

} // verus!
