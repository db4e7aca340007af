//! Startup settings of the sampler and of the log sink, with their defaults.

use vstd::prelude::*;
use vstd::string::StringExecFns;

verus! {

/// Milliseconds between log rows when none is given.
pub const DEFAULT_DATALOGGER_INTERVAL_MS: u64 = 60000;

/// Milliseconds between sampler ticks when none is given.
pub const DEFAULT_MONITOR_INTERVAL_MS: u64 = 10;

/// The header row of a newly created log file.
pub const CSV_HEADER: &'static str = "Time,ADC_Ch1,ADC_Ch2,ADC_Ch3,ADC_Ch4,Temperature,Pressure,Acc_X,Acc_Y,Acc_Z,Mag_X,Mag_Y,Mag_Z,Gyro_X,Gyro_Y,Gyro_Z";

/// Where and how often readings are logged; an interval of zero disables
/// logging.
#[derive(Clone, Debug, PartialEq, Eq)]
pub struct DataloggerSettings {
    pub directory: String,
    pub filename: String,
    pub interval: u64,
    pub enable: bool,
}

/// How often the sampler ticks; an interval of zero disables sampling.
#[derive(Clone, Copy, Debug, PartialEq, Eq, Structural)]
pub struct MonitorSettings {
    pub interval: u64,
    pub enable: bool,
}

/// The value given, or the default.
pub open spec fn or_default<T>(o: Option<T>, d: T) -> T {
    match o {
        Some(v) => v,
        None => d,
    }
}

impl DataloggerSettings {
    /// The settings given, each missing one at its default: the current
    /// directory, `data.csv`, one minute, disabled.
    pub fn from_options(
        directory: Option<String>,
        filename: Option<String>,
        interval: Option<u64>,
        enable: Option<bool>,
    ) -> (r: DataloggerSettings)
        ensures
            r.directory@ == match directory {
                Some(d) => d@,
                None => "./"@,
            },
            r.filename@ == match filename {
                Some(f) => f@,
                None => "data.csv"@,
            },
            r.interval == or_default(interval, DEFAULT_DATALOGGER_INTERVAL_MS),
            r.enable == or_default(enable, false),
    {
        DataloggerSettings {
            directory: match directory {
                Some(d) => d,
                None => String::from_str("./"),
            },
            filename: match filename {
                Some(f) => f,
                None => String::from_str("data.csv"),
            },
            interval: match interval {
                Some(i) => i,
                None => DEFAULT_DATALOGGER_INTERVAL_MS,
            },
            enable: match enable {
                Some(e) => e,
                None => false,
            },
        }
    }

    /// The log file's path: the directory, a slash, the file name.
    pub fn file_path(&self) -> (r: String)
        ensures
            r@ == self.directory@ + "/"@ + self.filename@,
    {
        self.directory.clone().concat("/").concat(self.filename.as_str())
    }

    /// Whether logging runs.
    pub fn is_active(&self) -> (r: bool)
        ensures
            r == (self.interval != 0),
    {
        self.interval != 0
    }
}

impl MonitorSettings {
    /// The settings given, each missing one at its default: ten
    /// milliseconds, disabled.
    pub fn from_options(interval: Option<u64>, enable: Option<bool>) -> (r: MonitorSettings)
        ensures
            r.interval == or_default(interval, DEFAULT_MONITOR_INTERVAL_MS),
            r.enable == or_default(enable, false),
    {
        MonitorSettings {
            interval: match interval {
                Some(i) => i,
                None => DEFAULT_MONITOR_INTERVAL_MS,
            },
            enable: match enable {
                Some(e) => e,
                None => false,
            },
        }
    }

    /// Whether the sampler runs.
    pub fn is_active(&self) -> (r: bool)
        ensures
            r == (self.interval != 0),
    {
        self.interval != 0
    }
}

} // verus!
