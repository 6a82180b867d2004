//! Devices and the registry of those that are known.

use crate::probe::{LogSource, Probe};
use vstd::prelude::*;
use vstd::string::*;
use vstd::utf8::is_ascii_chars;

verus! {

/// What a device needs to be driven by the Black Magic Probe.
#[derive(Clone, Debug)]
pub struct ProbeBmp {
    pub device: String,
}

/// What a device needs to be driven by J-Link.
#[derive(Clone, Debug)]
pub struct ProbeJlink {
    pub device: String,
}

/// What a device needs to be driven by OpenOCD.
#[derive(Clone, Debug)]
pub struct ProbeOpenocd {
    pub config: String,
}

/// Marks a device that exposes single-wire output.
#[derive(Clone, Copy, Debug)]
pub struct LogSwo {
    pub reset_freq: u32,
}

/// Marks a device that exposes debug-serial output.
#[derive(Clone, Copy, Debug)]
pub struct LogDso {
    pub baud_rate: u32,
}

/// A supported device.
#[derive(Clone, Debug)]
pub struct Device {
    pub name: String,
    pub probe_bmp: Option<ProbeBmp>,
    pub probe_jlink: Option<ProbeJlink>,
    pub probe_openocd: Option<ProbeOpenocd>,
    pub log_swo: Option<LogSwo>,
    pub log_dso: Option<LogDso>,
}

/// A device as this library reads it: its name, and which probe descriptors
/// and log sources it has.
pub struct DeviceView {
    pub name: Seq<char>,
    pub probe_bmp: bool,
    pub probe_jlink: bool,
    pub probe_openocd: bool,
    pub log_swo: bool,
    pub log_dso: bool,
}

impl DeviceView {
    /// Whether the device can be driven by the probe.
    pub open spec fn supports(self, probe: Probe) -> bool {
        match probe {
            Probe::Bmp => self.probe_bmp,
            Probe::Jlink => self.probe_jlink,
            Probe::Openocd => self.probe_openocd,
        }
    }

    /// Whether the device exposes the log source.
    pub open spec fn exposes(self, source: LogSource) -> bool {
        match source {
            LogSource::Swo => self.log_swo,
            LogSource::Dso => self.log_dso,
        }
    }
}

impl View for Device {
    type V = DeviceView;

    open spec fn view(&self) -> DeviceView {
        DeviceView {
            name: self.name@,
            probe_bmp: self.probe_bmp is Some,
            probe_jlink: self.probe_jlink is Some,
            probe_openocd: self.probe_openocd is Some,
            log_swo: self.log_swo is Some,
            log_dso: self.log_dso is Some,
        }
    }
}

impl Device {
    /// Whether the device can be driven by the probe.
    pub fn supports(&self, probe: Probe) -> (supported: bool)
        ensures
            supported == self@.supports(probe),
    {
        match probe {
            Probe::Bmp => self.probe_bmp.is_some(),
            Probe::Jlink => self.probe_jlink.is_some(),
            Probe::Openocd => self.probe_openocd.is_some(),
        }
    }

    /// Whether the device exposes the log source.
    pub fn exposes(&self, source: LogSource) -> (exposed: bool)
        ensures
            exposed == self@.exposes(source),
    {
        match source {
            LogSource::Swo => self.log_swo.is_some(),
            LogSource::Dso => self.log_dso.is_some(),
        }
    }
}

/// The devices of a list as this library reads them, in order.
pub open spec fn views(devices: Seq<Device>) -> Seq<DeviceView> {
    Seq::new(devices.len(), |i: int| devices[i]@)
}

/// No two devices have the same name.
pub open spec fn names_unique(devices: Seq<DeviceView>) -> bool {
    forall|i: int, j: int| 0 <= i < j < devices.len() ==> devices[i].name != devices[j].name
}

/// Every name is made of ASCII characters alone.
pub open spec fn names_plain(devices: Seq<DeviceView>) -> bool {
    forall|i: int| 0 <= i < devices.len() ==> is_ascii_chars(#[trigger] devices[i].name)
}

/// Whether every name is made of ASCII characters alone.
pub fn has_plain_names(devices: &Vec<Device>) -> (plain: bool)
    ensures
        plain == names_plain(views(devices@)),
{
    let mut i: usize = 0;
    while i < devices.len()
        invariant
            i <= devices.len(),
            forall|j: int| 0 <= j < i ==> is_ascii_chars(#[trigger] views(devices@)[j].name),
        decreases devices.len() - i,
    {
        if !devices[i].name.as_str().is_ascii() {
            proof {
                assert(!is_ascii_chars(views(devices@)[i as int].name));
            }
            return false;
        }
        i += 1;
    }
    true
}

/// A device of the STM32 families: driven by the Black Magic Probe and by
/// OpenOCD, with single-wire output.
pub open spec fn stm32_view(name: Seq<char>) -> DeviceView {
    DeviceView {
        name,
        probe_bmp: true,
        probe_jlink: false,
        probe_openocd: true,
        log_swo: true,
        log_dso: false,
    }
}

/// A device of the nRF52 family: driven by J-Link and by OpenOCD, with
/// single-wire and debug-serial output.
pub open spec fn nrf52_view(name: Seq<char>) -> DeviceView {
    DeviceView {
        name,
        probe_bmp: false,
        probe_jlink: true,
        probe_openocd: true,
        log_swo: true,
        log_dso: true,
    }
}

/// The known devices, in the order in which they are declared.
pub open spec fn spec_registry() -> Seq<DeviceView> {
    seq![
        stm32_view("stm32f100"@),
        stm32_view("stm32f103"@),
        stm32_view("stm32f107"@),
        stm32_view("stm32l4x1"@),
        stm32_view("stm32l4x6"@),
        nrf52_view("nrf52810"@),
        nrf52_view("nrf52832"@),
        nrf52_view("nrf52840"@),
    ]
}

/// The names of the known devices differ from one another and are made of
/// ASCII characters alone.
pub proof fn lemma_registry_names()
    ensures
        names_unique(spec_registry()),
        names_plain(spec_registry()),
{
    reveal_strlit("stm32f100");
    reveal_strlit("stm32f103");
    reveal_strlit("stm32f107");
    reveal_strlit("stm32l4x1");
    reveal_strlit("stm32l4x6");
    reveal_strlit("nrf52810");
    reveal_strlit("nrf52832");
    reveal_strlit("nrf52840");
    let r = spec_registry();
    assert(r[0].name[8] == '0' && r[1].name[8] == '3' && r[2].name[8] == '7');
    assert(r[3].name[8] == '1' && r[4].name[8] == '6' && r[3].name[5] == 'l');
    assert(r[0].name[5] == 'f' && r[1].name[5] == 'f' && r[2].name[5] == 'f' && r[4].name[5] == 'l');
    assert(r[5].name[6] == '1' && r[6].name[6] == '3' && r[7].name[6] == '4');
    assert(r[5].name.len() == 8 && r[6].name.len() == 8 && r[7].name.len() == 8);
    assert(r[0].name.len() == 9 && r[1].name.len() == 9 && r[2].name.len() == 9);
    assert(r[3].name.len() == 9 && r[4].name.len() == 9);
    assert forall|i: int| 0 <= i < r.len() implies is_ascii_chars(#[trigger] r[i].name) by {
        assert(r.len() == 8);
    }
}

fn stm32(name: &str, bmp_device: &str, openocd_config: &str, reset_freq: u32) -> (device: Device)
    ensures
        device@ == stm32_view(name@),
{
    Device {
        name: String::from_str(name),
        probe_bmp: Some(ProbeBmp { device: String::from_str(bmp_device) }),
        probe_jlink: None,
        probe_openocd: Some(ProbeOpenocd { config: String::from_str(openocd_config) }),
        log_swo: Some(LogSwo { reset_freq }),
        log_dso: None,
    }
}

fn nrf52(name: &str, jlink_device: &str) -> (device: Device)
    ensures
        device@ == nrf52_view(name@),
{
    Device {
        name: String::from_str(name),
        probe_bmp: None,
        probe_jlink: Some(ProbeJlink { device: String::from_str(jlink_device) }),
        probe_openocd: Some(ProbeOpenocd { config: String::from_str("target/nrf52.cfg") }),
        log_swo: Some(LogSwo { reset_freq: 32_000_000 }),
        log_dso: Some(LogDso { baud_rate: 115_200 }),
    }
}

/// The known devices, in the order in which they are declared. Their names
/// differ from one another and are made of ASCII characters alone.
pub fn registry() -> (devices: Vec<Device>)
    ensures
        views(devices@) == spec_registry(),
        names_unique(views(devices@)),
        names_plain(views(devices@)),
{
    let mut devices: Vec<Device> = Vec::new();
    devices.push(stm32("stm32f100", "stm32f1", "target/stm32f1x.cfg", 8_000_000));
    devices.push(stm32("stm32f103", "stm32f1", "target/stm32f1x.cfg", 8_000_000));
    devices.push(stm32("stm32f107", "stm32f1", "target/stm32f1x.cfg", 8_000_000));
    devices.push(stm32("stm32l4x1", "stm32l4", "target/stm32l4x.cfg", 4_000_000));
    devices.push(stm32("stm32l4x6", "stm32l4", "target/stm32l4x.cfg", 4_000_000));
    devices.push(nrf52("nrf52810", "nRF52810_xxAA"));
    devices.push(nrf52("nrf52832", "nRF52832_xxAA"));
    devices.push(nrf52("nrf52840", "nRF52840_xxAA"));
    proof {
        assert(views(devices@) =~= spec_registry());
        lemma_registry_names();
    }
    devices
}

} // verus!
