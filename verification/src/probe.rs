//! Debug probes, log channels, and the table of which probe carries which
//! channel.

use vstd::prelude::*;
use vstd::string::*;

verus! {

/// A kind of debug and flash probe.
#[derive(Clone, Copy, Debug, PartialEq, Eq, Structural)]
pub enum Probe {
    Bmp,
    Jlink,
    Openocd,
}

/// A log source that a device may expose.
#[derive(Clone, Copy, Debug, PartialEq, Eq, Structural)]
pub enum LogSource {
    /// Single-wire output.
    Swo,
    /// Debug-serial output.
    Dso,
}

/// A transport over which log output is retrieved.
#[derive(Clone, Copy, Debug, PartialEq, Eq, Structural)]
pub enum Log {
    SwoProbe,
    SwoSerial,
    DsoSerial,
}

/// The channels that one probe kind can carry.
#[derive(Clone, Copy, Debug, PartialEq, Eq, Structural)]
pub struct ProbeLogs {
    pub swo_probe: bool,
    pub swo_serial: bool,
    pub dso_serial: bool,
}

/// For each probe kind, the channels it can carry, whatever the device.
#[derive(Clone, Copy, Debug, PartialEq, Eq, Structural)]
pub struct LogTable {
    pub bmp: ProbeLogs,
    pub jlink: ProbeLogs,
    pub openocd: ProbeLogs,
}

impl Probe {
    /// The identifier by which the probe is selected.
    pub open spec fn spec_name(self) -> Seq<char> {
        match self {
            Probe::Bmp => "bmp"@,
            Probe::Jlink => "jlink"@,
            Probe::Openocd => "openocd"@,
        }
    }

    /// The identifier by which the probe is selected.
    pub fn name(self) -> (name: &'static str)
        ensures
            name@ == self.spec_name(),
    {
        match self {
            Probe::Bmp => "bmp",
            Probe::Jlink => "jlink",
            Probe::Openocd => "openocd",
        }
    }

    /// The probe kinds in column order.
    pub open spec fn spec_all() -> Seq<Probe> {
        seq![Probe::Bmp, Probe::Jlink, Probe::Openocd]
    }

    /// The probe kinds in column order.
    pub fn all() -> (probes: Vec<Probe>)
        ensures
            probes@ == Probe::spec_all(),
    {
        vec![Probe::Bmp, Probe::Jlink, Probe::Openocd]
    }
}

impl Log {
    /// The identifier by which the channel is shown.
    pub open spec fn spec_name(self) -> Seq<char> {
        match self {
            Log::SwoProbe => "swoprobe"@,
            Log::SwoSerial => "swoserial"@,
            Log::DsoSerial => "dsoserial"@,
        }
    }

    /// The identifier by which the channel is shown.
    pub fn name(self) -> (name: &'static str)
        ensures
            name@ == self.spec_name(),
    {
        match self {
            Log::SwoProbe => "swoprobe",
            Log::SwoSerial => "swoserial",
            Log::DsoSerial => "dsoserial",
        }
    }

    /// The log source that the device must expose for this channel.
    pub open spec fn spec_source(self) -> LogSource {
        match self {
            Log::SwoProbe => LogSource::Swo,
            Log::SwoSerial => LogSource::Swo,
            Log::DsoSerial => LogSource::Dso,
        }
    }

    /// The log source that the device must expose for this channel.
    pub fn source(self) -> (source: LogSource)
        ensures
            source == self.spec_source(),
    {
        match self {
            Log::SwoProbe => LogSource::Swo,
            Log::SwoSerial => LogSource::Swo,
            Log::DsoSerial => LogSource::Dso,
        }
    }

    /// The place of the channel in the fixed display order.
    pub open spec fn rank(self) -> int {
        match self {
            Log::SwoProbe => 0,
            Log::SwoSerial => 1,
            Log::DsoSerial => 2,
        }
    }

    /// The channels in display order.
    pub open spec fn spec_priority() -> Seq<Log> {
        seq![Log::SwoProbe, Log::SwoSerial, Log::DsoSerial]
    }

    /// The channels in display order.
    pub fn priority() -> (logs: Vec<Log>)
        ensures
            logs@ == Log::spec_priority(),
    {
        vec![Log::SwoProbe, Log::SwoSerial, Log::DsoSerial]
    }
}

impl ProbeLogs {
    /// Whether the channel is among those carried.
    pub open spec fn spec_carries(self, log: Log) -> bool {
        match log {
            Log::SwoProbe => self.swo_probe,
            Log::SwoSerial => self.swo_serial,
            Log::DsoSerial => self.dso_serial,
        }
    }

    /// Whether the channel is among those carried.
    pub fn carries(&self, log: Log) -> (carried: bool)
        ensures
            carried == self.spec_carries(log),
    {
        match log {
            Log::SwoProbe => self.swo_probe,
            Log::SwoSerial => self.swo_serial,
            Log::DsoSerial => self.dso_serial,
        }
    }
}

impl LogTable {
    /// The channels of one probe kind.
    pub open spec fn spec_logs(self, probe: Probe) -> ProbeLogs {
        match probe {
            Probe::Bmp => self.bmp,
            Probe::Jlink => self.jlink,
            Probe::Openocd => self.openocd,
        }
    }

    /// Whether the probe kind can carry the channel.
    pub open spec fn spec_carries(self, probe: Probe, log: Log) -> bool {
        self.spec_logs(probe).spec_carries(log)
    }

    /// Whether the probe kind can carry the channel.
    pub fn carries(&self, probe: Probe, log: Log) -> (carried: bool)
        ensures
            carried == self.spec_carries(probe, log),
    {
        match probe {
            Probe::Bmp => self.bmp.carries(log),
            Probe::Jlink => self.jlink.carries(log),
            Probe::Openocd => self.openocd.carries(log),
        }
    }

    /// The table of the probes as they are built: the Black Magic Probe reads
    /// single-wire output through a serial adapter, J-Link reads debug-serial
    /// output, and OpenOCD reads single-wire output itself or through a
    /// serial adapter.
    pub open spec fn spec_standard() -> LogTable {
        LogTable {
            bmp: ProbeLogs { swo_probe: false, swo_serial: true, dso_serial: false },
            jlink: ProbeLogs { swo_probe: false, swo_serial: false, dso_serial: true },
            openocd: ProbeLogs { swo_probe: true, swo_serial: true, dso_serial: false },
        }
    }

    /// The table of the probes as they are built.
    pub fn standard() -> (table: LogTable)
        ensures
            table == LogTable::spec_standard(),
    {
        LogTable {
            bmp: ProbeLogs { swo_probe: false, swo_serial: true, dso_serial: false },
            jlink: ProbeLogs { swo_probe: false, swo_serial: false, dso_serial: true },
            openocd: ProbeLogs { swo_probe: true, swo_serial: true, dso_serial: false },
        }
    }
}

} // verus!
