//! The board's selectors and the shape of one full sensor snapshot.
//!
//! Readings are carried as the IEEE-754 bit patterns of the single-precision
//! values the device reports: the core only stores, selects and forwards
//! them, and never computes with them.

use vstd::prelude::*;
use crate::text::{all_ascii, ascii_lower_code, lower_of, str_eq, to_lowercase};

verus! {

/// Largest duty value of a PWM channel: the PWM controller counts in 12 bits.
pub const PWM_MAX_VALUE: u16 = 4095;

/// One of the sixteen PWM outputs, or all of them at once.
#[derive(Clone, Copy, Debug, PartialEq, Eq, Structural)]
pub enum PwmChannel {
    Ch1,
    Ch2,
    Ch3,
    Ch4,
    Ch5,
    Ch6,
    Ch7,
    Ch8,
    Ch9,
    Ch10,
    Ch11,
    Ch12,
    Ch13,
    Ch14,
    Ch15,
    Ch16,
    All,
}

/// One of the three user LEDs.
#[derive(Clone, Copy, Debug, PartialEq, Eq, Structural)]
pub enum UserLed {
    Led1,
    Led2,
    Led3,
}

/// A name that no variant answers to (already lower-cased).
#[derive(Clone, Debug, PartialEq, Eq)]
pub struct UnknownName {
    pub name: String,
}

/// The channel that a lower-case name selects.
pub open spec fn channel_named(s: Seq<char>) -> Option<PwmChannel> {
    if s == "ch1"@ {
        Some(PwmChannel::Ch1)
    } else if s == "ch2"@ {
        Some(PwmChannel::Ch2)
    } else if s == "ch3"@ {
        Some(PwmChannel::Ch3)
    } else if s == "ch4"@ {
        Some(PwmChannel::Ch4)
    } else if s == "ch5"@ {
        Some(PwmChannel::Ch5)
    } else if s == "ch6"@ {
        Some(PwmChannel::Ch6)
    } else if s == "ch7"@ {
        Some(PwmChannel::Ch7)
    } else if s == "ch8"@ {
        Some(PwmChannel::Ch8)
    } else if s == "ch9"@ {
        Some(PwmChannel::Ch9)
    } else if s == "ch10"@ {
        Some(PwmChannel::Ch10)
    } else if s == "ch11"@ {
        Some(PwmChannel::Ch11)
    } else if s == "ch12"@ {
        Some(PwmChannel::Ch12)
    } else if s == "ch13"@ {
        Some(PwmChannel::Ch13)
    } else if s == "ch14"@ {
        Some(PwmChannel::Ch14)
    } else if s == "ch15"@ {
        Some(PwmChannel::Ch15)
    } else if s == "ch16"@ {
        Some(PwmChannel::Ch16)
    } else if s == "all"@ {
        Some(PwmChannel::All)
    } else {
        None
    }
}

impl PwmChannel {
    /// Selects a channel by a name that is already lower case.
    pub fn from_lowercase(s: &str) -> (r: Option<PwmChannel>)
        ensures
            r == channel_named(s@),
    {
        if str_eq(s, "ch1") {
            Some(PwmChannel::Ch1)
        } else if str_eq(s, "ch2") {
            Some(PwmChannel::Ch2)
        } else if str_eq(s, "ch3") {
            Some(PwmChannel::Ch3)
        } else if str_eq(s, "ch4") {
            Some(PwmChannel::Ch4)
        } else if str_eq(s, "ch5") {
            Some(PwmChannel::Ch5)
        } else if str_eq(s, "ch6") {
            Some(PwmChannel::Ch6)
        } else if str_eq(s, "ch7") {
            Some(PwmChannel::Ch7)
        } else if str_eq(s, "ch8") {
            Some(PwmChannel::Ch8)
        } else if str_eq(s, "ch9") {
            Some(PwmChannel::Ch9)
        } else if str_eq(s, "ch10") {
            Some(PwmChannel::Ch10)
        } else if str_eq(s, "ch11") {
            Some(PwmChannel::Ch11)
        } else if str_eq(s, "ch12") {
            Some(PwmChannel::Ch12)
        } else if str_eq(s, "ch13") {
            Some(PwmChannel::Ch13)
        } else if str_eq(s, "ch14") {
            Some(PwmChannel::Ch14)
        } else if str_eq(s, "ch15") {
            Some(PwmChannel::Ch15)
        } else if str_eq(s, "ch16") {
            Some(PwmChannel::Ch16)
        } else if str_eq(s, "all") {
            Some(PwmChannel::All)
        } else {
            None
        }
    }

    /// Selects a channel by name, ignoring case (`"CH3"` is `Ch3`).
    pub fn from_str(s: &str) -> (r: Result<PwmChannel, UnknownName>)
        ensures
            match channel_named(lower_of(s@)) {
                Some(c) => r == Ok::<PwmChannel, UnknownName>(c),
                None => r is Err && r->Err_0.name@ == lower_of(s@),
            },
            all_ascii(s@) ==> lower_of(s@).len() == s@.len() && forall|i: int|
                0 <= i < s@.len() ==> (#[trigger] lower_of(s@)[i] as u32) == ascii_lower_code(
                    s@[i] as u32,
                ),
    {
        let lower = to_lowercase(s);
        match PwmChannel::from_lowercase(lower.as_str()) {
            Some(c) => Ok(c),
            None => Err(UnknownName { name: lower }),
        }
    }
}

/// A three-axis reading (accelerometer, gyroscope or magnetometer).
#[derive(Clone, Copy, Debug, PartialEq, Eq, Structural)]
pub struct AxisData {
    pub x: u32,
    pub y: u32,
    pub z: u32,
}

/// The four ADC channels.
#[derive(Clone, Copy, Debug, PartialEq, Eq)]
pub struct ADCData {
    pub channel: [u32; 4],
}

/// One complete set of sensor readings captured at a single tick.
#[derive(Clone, Copy, Debug, PartialEq, Eq)]
pub struct SensorSnapshot {
    pub temperature: u32,
    pub pressure: u32,
    pub accelerometer: AxisData,
    pub gyro: AxisData,
    pub magnetometer: AxisData,
    pub adc: ADCData,
}

/// The all-zero axis reading.
pub open spec fn zero_axis() -> AxisData {
    AxisData { x: 0, y: 0, z: 0 }
}

/// The all-zero ADC reading (every bit pattern zero is `0.0`).
pub open spec fn zero_adc() -> ADCData {
    ADCData { channel: [0u32, 0u32, 0u32, 0u32] }
}

/// The snapshot served before the first one is published.
pub open spec fn zero_snapshot() -> SensorSnapshot {
    SensorSnapshot {
        temperature: 0,
        pressure: 0,
        accelerometer: zero_axis(),
        gyro: zero_axis(),
        magnetometer: zero_axis(),
        adc: zero_adc(),
    }
}

impl AxisData {
    /// The readings in x, y, z order.
    pub fn to_vec(&self) -> (r: Vec<u32>)
        ensures
            r@ == seq![self.x, self.y, self.z],
    {
        let mut v: Vec<u32> = Vec::new();
        v.push(self.x);
        v.push(self.y);
        v.push(self.z);
        v
    }
}

impl ADCData {
    /// A zero reading of every channel.
    pub fn zeroed() -> (r: ADCData)
        ensures
            r == zero_adc(),
    {
        ADCData { channel: [0, 0, 0, 0] }
    }

    /// The channels in order.
    pub fn to_vec(&self) -> (r: Vec<u32>)
        ensures
            r@ == self.channel@,
    {
        let mut v: Vec<u32> = Vec::new();
        v.push(self.channel[0]);
        v.push(self.channel[1]);
        v.push(self.channel[2]);
        v.push(self.channel[3]);
        assert(v@ =~= self.channel@);
        v
    }
}

impl SensorSnapshot {
    /// The snapshot with every reading zero.
    pub fn zeroed() -> (r: SensorSnapshot)
        ensures
            r == zero_snapshot(),
    {
        let a = AxisData { x: 0, y: 0, z: 0 };
        SensorSnapshot {
            temperature: 0,
            pressure: 0,
            accelerometer: a,
            gyro: a,
            magnetometer: a,
            adc: ADCData::zeroed(),
        }
    }
}

} // verus!
