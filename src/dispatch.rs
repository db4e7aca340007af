//! The command dispatcher: a parsed command becomes at most one device
//! operation and exactly one envelope. The same command gives the same
//! envelope whichever surface (request/response or real-time text) it came
//! from.
//!
//! The caller performs the device operation, hands its reply back to
//! `Command::envelope`, and broadcasts the resulting envelope once.

use vstd::prelude::*;
use vstd::string::StringExecFns;
use crate::cache::ReadingCache;
use crate::errors::Error;
use crate::hardware::{PwmChannel, SensorSnapshot, UserLed, PWM_MAX_VALUE};
use crate::packages::{
    get_led_all, init, pwm_channel_value, pwm_enable, pwm_package, reading, reading_package,
    set_led, set_neopixel, set_pwm_freq_hz, Sensors,
};
use crate::packages::colors_of;
use crate::structures::{
    output_package, AnsPackage, ApiPwmChannelValue, ApiUserLed, OperationView, OutputView,
    PackageView, UserLEDView, MODEL,
};

verus! {

/// A parsed user instruction.
#[derive(Clone, Debug, PartialEq, Eq)]
pub enum Command {
    /// Read sensors, from the cache or live from the device.
    Read { sensor: Sensors, cached: bool },
    /// Report the state of all user LEDs.
    GetLedAll,
    SetLed(ApiUserLed),
    /// Write `[red, green, blue]` colors to the addressable pixels, in order.
    SetNeopixel(Vec<[u8; 3]>),
    PwmEnable(bool),
    /// Set the PWM frequency (bit pattern of a single-precision value in
    /// hertz, already validated).
    PwmFrequency(u32),
    PwmChannelValue(ApiPwmChannelValue),
    /// Initialize the board.
    Init,
}

/// The mathematical content of a command.
pub enum CommandView {
    Read { sensor: Sensors, cached: bool },
    GetLedAll,
    SetLed(ApiUserLed),
    SetNeopixel(Seq<[u8; 3]>),
    PwmEnable(bool),
    PwmFrequency(u32),
    PwmChannelValue(ApiPwmChannelValue),
    Init,
}

impl View for Command {
    type V = CommandView;

    open spec fn view(&self) -> CommandView {
        match self {
            Command::Read { sensor, cached } => CommandView::Read { sensor: *sensor, cached: *cached },
            Command::GetLedAll => CommandView::GetLedAll,
            Command::SetLed(l) => CommandView::SetLed(*l),
            Command::SetNeopixel(c) => CommandView::SetNeopixel(c@),
            Command::PwmEnable(b) => CommandView::PwmEnable(*b),
            Command::PwmFrequency(f) => CommandView::PwmFrequency(*f),
            Command::PwmChannelValue(p) => CommandView::PwmChannelValue(*p),
            Command::Init => CommandView::Init,
        }
    }
}

/// One operation on the device.
#[derive(Clone, Debug, PartialEq, Eq)]
pub enum DeviceOp {
    Read(Sensors),
    ReadLeds,
    SetLed(UserLed, bool),
    /// Write `[red, green, blue]` colors to the addressable pixels, in order.
    SetNeopixel(Vec<[u8; 3]>),
    PwmEnable(bool),
    SetPwmFrequency(u32),
    SetPwmChannelValue(PwmChannel, u16),
    Init,
}

/// The mathematical content of a device operation.
pub enum DeviceOpView {
    Read(Sensors),
    ReadLeds,
    SetLed(UserLed, bool),
    SetNeopixel(Seq<[u8; 3]>),
    PwmEnable(bool),
    SetPwmFrequency(u32),
    SetPwmChannelValue(PwmChannel, u16),
    Init,
}

impl View for DeviceOp {
    type V = DeviceOpView;

    open spec fn view(&self) -> DeviceOpView {
        match self {
            DeviceOp::Read(s) => DeviceOpView::Read(*s),
            DeviceOp::ReadLeds => DeviceOpView::ReadLeds,
            DeviceOp::SetLed(l, b) => DeviceOpView::SetLed(*l, *b),
            DeviceOp::SetNeopixel(c) => DeviceOpView::SetNeopixel(c@),
            DeviceOp::PwmEnable(b) => DeviceOpView::PwmEnable(*b),
            DeviceOp::SetPwmFrequency(f) => DeviceOpView::SetPwmFrequency(*f),
            DeviceOp::SetPwmChannelValue(c, v) => DeviceOpView::SetPwmChannelValue(*c, *v),
            DeviceOp::Init => DeviceOpView::Init,
        }
    }
}

/// The view of an optional device operation.
pub open spec fn op_view(o: Option<DeviceOp>) -> Option<DeviceOpView> {
    match o {
        Some(op) => Some(op@),
        None => None,
    }
}

/// What the device answered to an operation.
#[derive(Clone, Copy, Debug)]
pub enum DeviceReply {
    /// No operation was performed.
    Nothing,
    /// A read: the snapshot holds the read sensors (the others are zero).
    Snapshot(SensorSnapshot),
    /// The three user LEDs, in LED order.
    Leds([bool; 3]),
    /// A write completed.
    Done,
}

/// Whether a command asks for a value out of range.
pub open spec fn out_of_range(c: CommandView) -> bool {
    match c {
        CommandView::PwmChannelValue(p) => p.value > PWM_MAX_VALUE,
        _ => false,
    }
}

/// The one device operation a well-formed command needs; `None` for a
/// cached read, which touches only the cache.
pub open spec fn op_of(c: CommandView) -> Option<DeviceOpView> {
    match c {
        CommandView::Read { sensor, cached } => if cached {
            None
        } else {
            Some(DeviceOpView::Read(sensor))
        },
        CommandView::GetLedAll => Some(DeviceOpView::ReadLeds),
        CommandView::SetLed(l) => Some(DeviceOpView::SetLed(l.userled, l.value)),
        CommandView::SetNeopixel(c) => Some(DeviceOpView::SetNeopixel(c)),
        CommandView::PwmEnable(b) => Some(DeviceOpView::PwmEnable(b)),
        CommandView::PwmFrequency(f) => Some(DeviceOpView::SetPwmFrequency(f)),
        CommandView::PwmChannelValue(p) => Some(
            DeviceOpView::SetPwmChannelValue(p.channel, p.value),
        ),
        CommandView::Init => Some(DeviceOpView::Init),
    }
}

/// Whether the device's reply is of the kind the command's operation gives.
pub open spec fn reply_fits(c: CommandView, reply: DeviceReply) -> bool {
    match c {
        CommandView::Read { sensor, cached } => if cached {
            true
        } else {
            reply is Snapshot
        },
        CommandView::GetLedAll => reply is Leds,
        _ => reply is Done,
    }
}

/// The envelope of a command, given the device's fitting reply and the
/// cache's current snapshot.
pub open spec fn package_of(
    c: CommandView,
    reply: DeviceReply,
    cached: SensorSnapshot,
    timestamp: Seq<char>,
) -> PackageView {
    match c {
        CommandView::Read { sensor, cached: from_cache } => if from_cache {
            reading_package(sensor, cached, timestamp)
        } else {
            reading_package(sensor, reply->Snapshot_0, timestamp)
        },
        CommandView::GetLedAll => output_package(
            timestamp,
            OutputView::UserLED(
                UserLEDView {
                    channel: seq![UserLed::Led1, UserLed::Led2, UserLed::Led3],
                    value: reply->Leds_0@,
                },
            ),
        ),
        CommandView::SetLed(l) => output_package(
            timestamp,
            OutputView::UserLED(UserLEDView { channel: seq![l.userled], value: seq![l.value] }),
        ),
        CommandView::SetNeopixel(c) => output_package(timestamp, OutputView::NeoPixel(colors_of(c))),
        CommandView::PwmEnable(b) => pwm_package(timestamp, None, None, None, Some(b)),
        CommandView::PwmFrequency(f) => pwm_package(timestamp, None, None, Some(f), None),
        CommandView::PwmChannelValue(p) => pwm_package(
            timestamp,
            Some(seq![p.channel]),
            Some(seq![p.value]),
            None,
            None,
        ),
        CommandView::Init => PackageView { model: MODEL@, operation: OperationView::Settings },
    }
}

/// A copy of a list of colors.
fn copy_colors(colors: &Vec<[u8; 3]>) -> (r: Vec<[u8; 3]>)
    ensures
        r@ == colors@,
{
    let mut r: Vec<[u8; 3]> = Vec::new();
    let mut i: usize = 0;
    while i < colors.len()
        invariant
            i <= colors@.len(),
            r@ == colors@.take(i as int),
        decreases colors@.len() - i,
    {
        r.push(colors[i]);
        assert(r@ =~= colors@.take(i as int + 1));
        i = i + 1;
    }
    assert(colors@.take(i as int) =~= colors@);
    r
}

impl Command {
    /// The device operation this command needs, checked before the device
    /// is touched: a value out of range is a malformed request.
    pub fn device_op(&self) -> (r: Result<Option<DeviceOp>, Error>)
        ensures
            out_of_range(self@) ==> r is Err && r->Err_0 is BadRequest,
            !out_of_range(self@) ==> r is Ok && op_view(r->Ok_0) == op_of(self@),
    {
        match self {
            Command::Read { sensor, cached } => {
                if *cached {
                    Ok(None)
                } else {
                    Ok(Some(DeviceOp::Read(*sensor)))
                }
            },
            Command::GetLedAll => Ok(Some(DeviceOp::ReadLeds)),
            Command::SetLed(l) => Ok(Some(DeviceOp::SetLed(l.userled, l.value))),
            Command::SetNeopixel(c) => Ok(Some(DeviceOp::SetNeopixel(copy_colors(c)))),
            Command::PwmEnable(b) => Ok(Some(DeviceOp::PwmEnable(*b))),
            Command::PwmFrequency(f) => Ok(Some(DeviceOp::SetPwmFrequency(*f))),
            Command::PwmChannelValue(p) => {
                if p.value > PWM_MAX_VALUE {
                    Err(Error::BadRequest(String::from_str("PWM value is above 4095")))
                } else {
                    Ok(Some(DeviceOp::SetPwmChannelValue(p.channel, p.value)))
                }
            },
            Command::Init => Ok(Some(DeviceOp::Init)),
        }
    }

    /// The envelope reporting this command, stamped with `timestamp`. A
    /// cached read reports the cache's snapshot and ignores `reply`; every
    /// other command reports what the device did. A reply of the wrong kind
    /// is an internal error; a value out of range a malformed request.
    pub fn envelope(&self, reply: DeviceReply, cache: &ReadingCache, timestamp: String) -> (r: Result<AnsPackage, Error>)
        ensures
            out_of_range(self@) ==> r is Err && r->Err_0 is BadRequest,
            !out_of_range(self@) && !reply_fits(self@, reply) ==> r is Err && r->Err_0 is Internal,
            !out_of_range(self@) && reply_fits(self@, reply) ==> r is Ok && r->Ok_0@ == package_of(
                self@,
                reply,
                cache.latest(),
                timestamp@,
            ),
    {
        match self {
            Command::Read { sensor, cached } => {
                if *cached {
                    let snapshot = cache.read();
                    Ok(reading(*sensor, &snapshot, timestamp))
                } else {
                    match reply {
                        DeviceReply::Snapshot(s) => Ok(reading(*sensor, &s, timestamp)),
                        _ => Err(mismatch()),
                    }
                }
            },
            Command::GetLedAll => match reply {
                DeviceReply::Leds(states) => Ok(get_led_all(states, timestamp)),
                _ => Err(mismatch()),
            },
            _ => {
                let bad = match self {
                    Command::PwmChannelValue(p) => p.value > PWM_MAX_VALUE,
                    _ => false,
                };
                if bad {
                    return self.written(timestamp);
                }
                match reply {
                    DeviceReply::Done => self.written(timestamp),
                    _ => Err(mismatch()),
                }
            },
        }
    }

    /// The envelope of a completed write.
    fn written(&self, timestamp: String) -> (r: Result<AnsPackage, Error>)
        requires
            !(self@ is Read),
            !(self@ is GetLedAll),
        ensures
            out_of_range(self@) ==> r is Err && r->Err_0 is BadRequest,
            !out_of_range(self@) ==> r is Ok && r->Ok_0@ == package_of(
                self@,
                DeviceReply::Done,
                arbitrary(),
                timestamp@,
            ),
    {
        match self {
            Command::SetLed(l) => Ok(set_led(l.userled, l.value, timestamp)),
            Command::SetNeopixel(c) => Ok(set_neopixel(copy_colors(c), timestamp)),
            Command::PwmEnable(b) => Ok(pwm_enable(*b, timestamp)),
            Command::PwmFrequency(f) => Ok(set_pwm_freq_hz(*f, timestamp)),
            Command::PwmChannelValue(p) => pwm_channel_value(p.channel, p.value, timestamp),
            _ => Ok(init()),
        }
    }
}

/// The error for a device reply of the wrong kind.
fn mismatch() -> (r: Error)
    ensures
        r is Internal,
{
    Error::Internal(String::from_str("unexpected device reply"))
}

/// A live read needs exactly one device operation, a read of the selected
/// sensors, and its one envelope reports the device's values for them,
/// whatever the cache holds.
pub proof fn lemma_live_read(sensor: Sensors, device: SensorSnapshot, c1: SensorSnapshot, c2: SensorSnapshot, timestamp: Seq<char>)
    ensures
        op_of(CommandView::Read { sensor, cached: false }) == Some(DeviceOpView::Read(sensor)),
        reply_fits(CommandView::Read { sensor, cached: false }, DeviceReply::Snapshot(device)),
        package_of(CommandView::Read { sensor, cached: false }, DeviceReply::Snapshot(device), c1, timestamp)
            == reading_package(sensor, device, timestamp),
        package_of(CommandView::Read { sensor, cached: false }, DeviceReply::Snapshot(device), c1, timestamp)
            == package_of(CommandView::Read { sensor, cached: false }, DeviceReply::Snapshot(device), c2, timestamp),
{
}

/// A cached read touches no device: it needs no device operation, and its
/// envelope reports the cache's snapshot whatever reply is passed along.
pub proof fn lemma_cached_read(sensor: Sensors, cached: SensorSnapshot, r1: DeviceReply, r2: DeviceReply, timestamp: Seq<char>)
    ensures
        op_of(CommandView::Read { sensor, cached: true }) is None,
        reply_fits(CommandView::Read { sensor, cached: true }, r1),
        package_of(CommandView::Read { sensor, cached: true }, r1, cached, timestamp)
            == reading_package(sensor, cached, timestamp),
        package_of(CommandView::Read { sensor, cached: true }, r1, cached, timestamp)
            == package_of(CommandView::Read { sensor, cached: true }, r2, cached, timestamp),
{
}

} // verus!
