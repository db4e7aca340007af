//! The operation envelope and the payloads it carries.

use vstd::prelude::*;
use vstd::string::StringExecFns;
use crate::hardware::{PwmChannel, UserLed};

verus! {

/// The board model named in every envelope.
pub const MODEL: &'static str = "Navigator_v4";

/// The uniform, versioned wrapper of every operation result that crosses the
/// gateway's boundary or is broadcast.
#[derive(Clone, Debug, PartialEq, Eq)]
pub struct AnsPackage {
    pub model: String,
    pub operation: Operation,
}

/// What an envelope reports: a sensor read, an actuator write, or settings.
#[derive(Clone, Debug, PartialEq, Eq)]
pub enum Operation {
    Input(InputRequest),
    Output(OutputRequest),
    Settings,
}

/// The result of an actuator write.
#[derive(Clone, Debug, PartialEq, Eq)]
pub struct OutputRequest {
    pub timestamp: String,
    pub output: Vec<OutputDevices>,
}

/// One actuator class and what was written to it.
#[derive(Clone, Debug, PartialEq, Eq)]
pub enum OutputDevices {
    PWM(Pwm),
    UserLED(UserLED),
    NeoPixel(NeoPixel),
}

/// A PWM write; absent fields were not touched. The frequency is the bit
/// pattern of a single-precision value in hertz.
#[derive(Clone, Debug, PartialEq, Eq)]
pub struct Pwm {
    pub channel: Option<Vec<PwmChannel>>,
    pub value: Option<Vec<u16>>,
    pub frequency: Option<u32>,
    pub enable: Option<bool>,
}

/// The state of some user LEDs, pairwise.
#[derive(Clone, Debug, PartialEq, Eq)]
pub struct UserLED {
    pub channel: Vec<UserLed>,
    pub value: Vec<bool>,
}

/// The colors written to the addressable pixels, in order.
#[derive(Clone, Debug, PartialEq, Eq)]
pub struct NeoPixel {
    pub value: Vec<NeoPixelRGB>,
}

/// One pixel color.
#[derive(Clone, Copy, Debug, PartialEq, Eq, Structural)]
pub struct NeoPixelRGB {
    pub red: u8,
    pub green: u8,
    pub blue: u8,
}

impl NeoPixelRGB {
    /// The color of a `[red, green, blue]` triple.
    pub fn from(colors: [u8; 3]) -> (r: NeoPixelRGB)
        ensures
            r == (NeoPixelRGB { red: colors[0], green: colors[1], blue: colors[2] }),
    {
        NeoPixelRGB { red: colors[0], green: colors[1], blue: colors[2] }
    }
}

/// The result of a sensor read.
#[derive(Clone, Debug, PartialEq, Eq)]
pub struct InputRequest {
    pub timestamp: String,
    pub input: Vec<InputDevices>,
}

impl Default for InputRequest {
    fn default() -> (r: InputRequest)
        ensures
            r.timestamp@.len() == 0,
            r.input@.len() == 0,
    {
        InputRequest { timestamp: String::new(), input: Vec::new() }
    }
}

/// The sensor classes that a reading may report.
#[derive(Clone, Copy, Debug, PartialEq, Eq, Structural)]
pub enum InputDeviceType {
    Temperature,
    Pressure,
    Altitude,
    Accelerometer,
    Gyroscope,
    Magnetometer,
    Adc,
}

/// A reported value: one number, or a vector of them (bit patterns).
#[derive(Clone, Debug, PartialEq, Eq)]
pub enum Value {
    Single(u32),
    Array(Vec<u32>),
}

/// The mathematical content of a `Value`.
pub enum ValueView {
    Single(u32),
    Array(Seq<u32>),
}

impl View for Value {
    type V = ValueView;

    open spec fn view(&self) -> ValueView {
        match self {
            Value::Single(x) => ValueView::Single(*x),
            Value::Array(v) => ValueView::Array(v@),
        }
    }
}

/// One sensor's reading, with its unit.
#[derive(Clone, Debug, PartialEq, Eq)]
pub struct InputDevices {
    pub input_type: InputDeviceType,
    pub unit: String,
    pub value: Value,
}

/// The unit in which a sensor class reports.
pub open spec fn unit_of(t: InputDeviceType) -> Seq<char> {
    match t {
        InputDeviceType::Temperature => "C"@,
        InputDeviceType::Pressure => "kPa"@,
        InputDeviceType::Altitude => "m"@,
        InputDeviceType::Accelerometer => "m/s2"@,
        InputDeviceType::Gyroscope => "rad/s"@,
        InputDeviceType::Magnetometer => "uT"@,
        InputDeviceType::Adc => "V"@,
    }
}

impl InputDevices {
    /// A reading of the given class, labelled with that class's unit.
    pub fn new(input_type: InputDeviceType, value: Value) -> (r: InputDevices)
        ensures
            r.input_type == input_type,
            r.unit@ == unit_of(input_type),
            r.value@ == value@,
    {
        let unit = match input_type {
            InputDeviceType::Temperature => String::from_str("C"),
            InputDeviceType::Pressure => String::from_str("kPa"),
            InputDeviceType::Altitude => String::from_str("m"),
            InputDeviceType::Accelerometer => String::from_str("m/s2"),
            InputDeviceType::Gyroscope => String::from_str("rad/s"),
            InputDeviceType::Magnetometer => String::from_str("uT"),
            InputDeviceType::Adc => String::from_str("V"),
        };
        InputDevices { input_type, unit, value }
    }
}

/// Descriptive metadata served for discovery.
#[derive(Clone, Debug, PartialEq, Eq)]
pub struct ServerMetadata {
    pub name: &'static str,
    pub description: &'static str,
    pub icon: &'static str,
    pub company: &'static str,
    pub version: &'static str,
    pub new_page: bool,
    pub webpage: &'static str,
    pub api: &'static str,
}

impl Default for ServerMetadata {
    fn default() -> (r: ServerMetadata)
        ensures
            r.name@ == "Navigator Assistant"@,
            r.description@ == "A navigator extension to expose navigator to web."@,
            r.icon@ == "mdi-compass-outline"@,
            r.company@ == "BlueRobotics"@,
            r.version@ == "0.0.1"@,
            !r.new_page,
            r.webpage@ == "https://github.com/RaulTrombin/navigator-assistant"@,
            r.api@ == "/docs"@,
    {
        ServerMetadata {
            name: "Navigator Assistant",
            description: "A navigator extension to expose navigator to web.",
            icon: "mdi-compass-outline",
            company: "BlueRobotics",
            version: "0.0.1",
            new_page: false,
            webpage: "https://github.com/RaulTrombin/navigator-assistant",
            api: "/docs",
        }
    }
}

/// The body of a user-LED write request.
#[derive(Clone, Copy, Debug, PartialEq, Eq, Structural)]
pub struct ApiUserLed {
    pub userled: UserLed,
    pub value: bool,
}

/// The body of a pixel-color write request.
#[derive(Clone, Copy, Debug, PartialEq, Eq, Structural)]
pub struct ApiNeopixel {
    pub red: u8,
    pub green: u8,
    pub blue: u8,
}

/// The body of a PWM channel-value write request.
#[derive(Clone, Copy, Debug, PartialEq, Eq, Structural)]
pub struct ApiPwmChannelValue {
    pub channel: PwmChannel,
    pub value: u16,
}

/// The body of a PWM enable request.
#[derive(Clone, Copy, Debug, PartialEq, Eq, Structural)]
pub struct ApiPwmEnable {
    pub enable: bool,
}

/// The mathematical content of a PWM write.
pub struct PwmView {
    pub channel: Option<Seq<PwmChannel>>,
    pub value: Option<Seq<u16>>,
    pub frequency: Option<u32>,
    pub enable: Option<bool>,
}

/// The mathematical content of a user-LED report.
pub struct UserLEDView {
    pub channel: Seq<UserLed>,
    pub value: Seq<bool>,
}

/// The mathematical content of one actuator write.
pub enum OutputView {
    PWM(PwmView),
    UserLED(UserLEDView),
    NeoPixel(Seq<NeoPixelRGB>),
}

/// The mathematical content of one sensor's reading.
pub struct InputDeviceView {
    pub input_type: InputDeviceType,
    pub unit: Seq<char>,
    pub value: ValueView,
}

/// The mathematical content of an operation.
pub enum OperationView {
    Input { timestamp: Seq<char>, input: Seq<InputDeviceView> },
    Output { timestamp: Seq<char>, output: Seq<OutputView> },
    Settings,
}

/// The mathematical content of an envelope.
pub struct PackageView {
    pub model: Seq<char>,
    pub operation: OperationView,
}

/// The contents of an optional vector.
pub open spec fn opt_seq<T>(o: Option<Vec<T>>) -> Option<Seq<T>> {
    match o {
        Some(v) => Some(v@),
        None => None,
    }
}

impl View for Pwm {
    type V = PwmView;

    open spec fn view(&self) -> PwmView {
        PwmView {
            channel: opt_seq(self.channel),
            value: opt_seq(self.value),
            frequency: self.frequency,
            enable: self.enable,
        }
    }
}

impl View for UserLED {
    type V = UserLEDView;

    open spec fn view(&self) -> UserLEDView {
        UserLEDView { channel: self.channel@, value: self.value@ }
    }
}

impl View for OutputDevices {
    type V = OutputView;

    open spec fn view(&self) -> OutputView {
        match self {
            OutputDevices::PWM(p) => OutputView::PWM(p@),
            OutputDevices::UserLED(l) => OutputView::UserLED(l@),
            OutputDevices::NeoPixel(n) => OutputView::NeoPixel(n.value@),
        }
    }
}

impl View for InputDevices {
    type V = InputDeviceView;

    open spec fn view(&self) -> InputDeviceView {
        InputDeviceView { input_type: self.input_type, unit: self.unit@, value: self.value@ }
    }
}

impl View for Operation {
    type V = OperationView;

    open spec fn view(&self) -> OperationView {
        match self {
            Operation::Input(i) => OperationView::Input {
                timestamp: i.timestamp@,
                input: i.input@.map_values(|d: InputDevices| d@),
            },
            Operation::Output(o) => OperationView::Output {
                timestamp: o.timestamp@,
                output: o.output@.map_values(|d: OutputDevices| d@),
            },
            Operation::Settings => OperationView::Settings,
        }
    }
}

impl View for AnsPackage {
    type V = PackageView;

    open spec fn view(&self) -> PackageView {
        PackageView { model: self.model@, operation: self.operation@ }
    }
}

/// An envelope reporting one actuator write.
pub open spec fn output_package(timestamp: Seq<char>, out: OutputView) -> PackageView {
    PackageView {
        model: MODEL@,
        operation: OperationView::Output { timestamp, output: seq![out] },
    }
}

impl AnsPackage {
    /// Wraps an operation for this board model.
    pub fn new(operation: Operation) -> (r: AnsPackage)
        ensures
            r@ == (PackageView { model: MODEL@, operation: operation@ }),
    {
        AnsPackage { model: String::from_str(MODEL), operation }
    }

    /// Wraps one actuator write stamped with `timestamp`.
    pub fn output(timestamp: String, device: OutputDevices) -> (r: AnsPackage)
        ensures
            r@ == output_package(timestamp@, device@),
    {
        let mut output: Vec<OutputDevices> = Vec::new();
        output.push(device);
        let r = AnsPackage::new(Operation::Output(OutputRequest { timestamp, output }));
        assert(r@.operation->output =~= seq![device@]);
        r
    }
}

/// The lower-case name of a sensor class.
pub open spec fn input_name(t: InputDeviceType) -> Seq<char> {
    match t {
        InputDeviceType::Temperature => "temperature"@,
        InputDeviceType::Pressure => "pressure"@,
        InputDeviceType::Altitude => "altitude"@,
        InputDeviceType::Accelerometer => "accelerometer"@,
        InputDeviceType::Gyroscope => "gyroscope"@,
        InputDeviceType::Magnetometer => "magnetometer"@,
        InputDeviceType::Adc => "adc"@,
    }
}

/// The lower-case name of an actuator class.
pub open spec fn output_name(o: OutputView) -> Seq<char> {
    match o {
        OutputView::PWM(_) => "pwm"@,
        OutputView::UserLED(_) => "userled"@,
        OutputView::NeoPixel(_) => "neopixel"@,
    }
}

/// The names joined with commas.
pub open spec fn join_names(names: Seq<Seq<char>>) -> Seq<char>
    decreases names.len(),
{
    if names.len() == 0 {
        Seq::empty()
    } else if names.len() == 1 {
        names[0]
    } else {
        join_names(names.drop_last()) + ","@ + names.last()
    }
}

/// The logical name of an envelope: the names of the sensor or actuator
/// classes it reports, in order and comma-separated, or `settings`.
pub open spec fn name_of(p: PackageView) -> Seq<char> {
    match p.operation {
        OperationView::Input { input, .. } => join_names(
            input.map_values(|d: InputDeviceView| input_name(d.input_type)),
        ),
        OperationView::Output { output, .. } => join_names(
            output.map_values(|o: OutputView| output_name(o)),
        ),
        OperationView::Settings => "settings"@,
    }
}

/// The lower-case name of a sensor class.
fn input_type_name(t: InputDeviceType) -> (r: &'static str)
    ensures
        r@ == input_name(t),
{
    match t {
        InputDeviceType::Temperature => "temperature",
        InputDeviceType::Pressure => "pressure",
        InputDeviceType::Altitude => "altitude",
        InputDeviceType::Accelerometer => "accelerometer",
        InputDeviceType::Gyroscope => "gyroscope",
        InputDeviceType::Magnetometer => "magnetometer",
        InputDeviceType::Adc => "adc",
    }
}

/// The lower-case name of an actuator class.
fn output_device_name(o: &OutputDevices) -> (r: &'static str)
    ensures
        r@ == output_name(o@),
{
    match o {
        OutputDevices::PWM(_) => "pwm",
        OutputDevices::UserLED(_) => "userled",
        OutputDevices::NeoPixel(_) => "neopixel",
    }
}

/// Appends `next` to names joined so far (`i` of them).
fn join_step(joined: String, i: usize, next: &str, names: Ghost<Seq<Seq<char>>>) -> (r: String)
    requires
        i < names@.len(),
        joined@ == join_names(names@.take(i as int)),
        next@ == names@[i as int],
    ensures
        r@ == join_names(names@.take(i as int + 1)),
{
    let ghost t = names@.take(i as int + 1);
    assert(t.drop_last() =~= names@.take(i as int));
    if i == 0 {
        String::from_str(next)
    } else {
        joined.concat(",").concat(next)
    }
}

impl AnsPackage {
    /// The logical name of this envelope, which a subscriber's filter may
    /// match as well as the serialized text.
    pub fn name(&self) -> (r: String)
        ensures
            r@ == name_of(self@),
    {
        match &self.operation {
            Operation::Input(req) => {
                let ghost names = self@.operation->input.map_values(
                    |d: InputDeviceView| input_name(d.input_type),
                );
                let mut r = String::new();
                let mut i: usize = 0;
                assert(names.take(0) =~= Seq::<Seq<char>>::empty());
                while i < req.input.len()
                    invariant
                        self.operation == Operation::Input(*req),
                        names == self@.operation->input.map_values(
                            |d: InputDeviceView| input_name(d.input_type),
                        ),
                        names.len() == req.input@.len(),
                        i <= names.len(),
                        r@ == join_names(names.take(i as int)),
                    decreases names.len() - i,
                {
                    assert(names[i as int] == input_name(req.input@[i as int].input_type));
                    r = join_step(r, i, input_type_name(req.input[i].input_type), Ghost(names));
                    i = i + 1;
                }
                assert(names.take(i as int) =~= names);
                r
            },
            Operation::Output(req) => {
                let ghost names = self@.operation->output.map_values(
                    |o: OutputView| output_name(o),
                );
                let mut r = String::new();
                let mut i: usize = 0;
                assert(names.take(0) =~= Seq::<Seq<char>>::empty());
                while i < req.output.len()
                    invariant
                        self.operation == Operation::Output(*req),
                        names == self@.operation->output.map_values(
                            |o: OutputView| output_name(o),
                        ),
                        names.len() == req.output@.len(),
                        i <= names.len(),
                        r@ == join_names(names.take(i as int)),
                    decreases names.len() - i,
                {
                    assert(names[i as int] == output_name(req.output@[i as int]@));
                    r = join_step(r, i, output_device_name(&req.output[i]), Ghost(names));
                    i = i + 1;
                }
                assert(names.take(i as int) =~= names);
                r
            },
            Operation::Settings => String::from_str("settings"),
        }
    }
}

} // verus!
