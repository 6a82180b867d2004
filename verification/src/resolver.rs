//! Which log channels are usable with a device over a probe.

use crate::device::{Device, DeviceView};
use crate::probe::{Log, LogSource, LogTable, Probe};
use vstd::prelude::*;

verus! {

/// Whether a device with the given log sources exposes the one asked for.
pub open spec fn source_present(source: LogSource, log_swo: bool, log_dso: bool) -> bool {
    match source {
        LogSource::Swo => log_swo,
        LogSource::Dso => log_dso,
    }
}

/// A channel is usable over a probe where the device exposes the channel's
/// log source and the probe kind can carry the channel.
pub open spec fn usable(probe: Probe, log_swo: bool, log_dso: bool, log: Log, table: LogTable) -> bool {
    source_present(log.spec_source(), log_swo, log_dso) && table.spec_carries(probe, log)
}

/// The channel alone where it is kept, nothing where it is not.
pub open spec fn kept(keep: bool, log: Log) -> Seq<Log> {
    if keep {
        seq![log]
    } else {
        Seq::empty()
    }
}

/// The usable channels over a probe: the channels in display order, each
/// kept exactly where it is usable.
pub open spec fn spec_channels(probe: Probe, log_swo: bool, log_dso: bool, table: LogTable) -> Seq<Log> {
    Log::spec_priority().filter(|log: Log| usable(probe, log_swo, log_dso, log, table))
}

/// The channels usable with a device over a probe: none where the device
/// cannot be driven by the probe.
pub open spec fn spec_resolve(device: DeviceView, probe: Probe, table: LogTable) -> Seq<Log> {
    if device.supports(probe) {
        spec_channels(probe, device.log_swo, device.log_dso, table)
    } else {
        Seq::empty()
    }
}

/// Ranks grow along the sequence, so it follows the display order and holds
/// no channel twice.
pub open spec fn in_display_order(logs: Seq<Log>) -> bool {
    forall|i: int, j: int| 0 <= i < j < logs.len() ==> logs[i].rank() < logs[j].rank()
}

/// The usable channels are the three channels in turn, each left out where
/// it is not usable: so they are exactly those that pass the test, and they
/// stand in display order.
pub proof fn lemma_channels(probe: Probe, log_swo: bool, log_dso: bool, table: LogTable)
    ensures
        spec_channels(probe, log_swo, log_dso, table) == kept(
            usable(probe, log_swo, log_dso, Log::SwoProbe, table),
            Log::SwoProbe,
        ) + kept(usable(probe, log_swo, log_dso, Log::SwoSerial, table), Log::SwoSerial) + kept(
            usable(probe, log_swo, log_dso, Log::DsoSerial, table),
            Log::DsoSerial,
        ),
        forall|log: Log| #[trigger]
            spec_channels(probe, log_swo, log_dso, table).contains(log) <==> usable(
                probe,
                log_swo,
                log_dso,
                log,
                table,
            ),
        in_display_order(spec_channels(probe, log_swo, log_dso, table)),
        spec_channels(probe, log_swo, log_dso, table).len() <= 3,
{
    let keep = |log: Log| usable(probe, log_swo, log_dso, log, table);
    let a = kept(keep(Log::SwoProbe), Log::SwoProbe);
    let b = kept(keep(Log::SwoSerial), Log::SwoSerial);
    let c = kept(keep(Log::DsoSerial), Log::DsoSerial);
    let three = Log::spec_priority();
    let two = three.drop_last();
    let one = two.drop_last();
    let s = spec_channels(probe, log_swo, log_dso, table);
    assert(s == three.filter(keep));
    reveal_with_fuel(Seq::filter, 5);
    assert(one.drop_last().len() == 0);
    assert(one.last() == Log::SwoProbe);
    assert(two.last() == Log::SwoSerial);
    assert(three.last() == Log::DsoSerial);
    assert(one.filter(keep) =~= a);
    assert(two.filter(keep) =~= a + b);
    assert(s =~= a + b + c);
    assert forall|log: Log| #[trigger] s.contains(log) <==> usable(probe, log_swo, log_dso, log, table) by {
        if usable(probe, log_swo, log_dso, log, table) {
            match log {
                Log::SwoProbe => {
                    assert(s[0] == log);
                },
                Log::SwoSerial => {
                    assert(s[a.len() as int] == log);
                },
                Log::DsoSerial => {
                    assert(s[(a.len() + b.len()) as int] == log);
                },
            }
        }
    }
}

/// The channels usable over a probe with a device that the probe can drive
/// and that exposes the given log sources.
pub fn channels(probe: Probe, log_swo: bool, log_dso: bool, table: &LogTable) -> (logs: Vec<Log>)
    ensures
        logs@ == spec_channels(probe, log_swo, log_dso, *table),
        forall|log: Log| #[trigger] logs@.contains(log) <==> usable(probe, log_swo, log_dso, log, *table),
        in_display_order(logs@),
{
    let mut logs: Vec<Log> = Vec::new();
    if log_swo && table.carries(probe, Log::SwoProbe) {
        logs.push(Log::SwoProbe);
    }
    let ghost first = logs@;
    if log_swo && table.carries(probe, Log::SwoSerial) {
        logs.push(Log::SwoSerial);
    }
    let ghost second = logs@;
    if log_dso && table.carries(probe, Log::DsoSerial) {
        logs.push(Log::DsoSerial);
    }
    proof {
        lemma_channels(probe, log_swo, log_dso, *table);
        assert(first =~= kept(usable(probe, log_swo, log_dso, Log::SwoProbe, *table), Log::SwoProbe));
        assert(second =~= first + kept(
            usable(probe, log_swo, log_dso, Log::SwoSerial, *table),
            Log::SwoSerial,
        ));
        assert(logs@ =~= second + kept(
            usable(probe, log_swo, log_dso, Log::DsoSerial, *table),
            Log::DsoSerial,
        ));
    }
    logs
}

/// The channels usable with a device over a probe, in display order. A
/// channel is among them exactly where the probe can drive the device, the
/// device exposes the channel's log source, and the probe kind can carry the
/// channel.
pub fn resolve(device: &Device, probe: Probe, table: &LogTable) -> (logs: Vec<Log>)
    ensures
        logs@ == spec_resolve(device@, probe, *table),
        forall|log: Log| #[trigger]
            logs@.contains(log) <==> device@.supports(probe) && device@.exposes(
                log.spec_source(),
            ) && table.spec_carries(probe, log),
        in_display_order(logs@),
{
    if device.supports(probe) {
        channels(probe, device.log_swo.is_some(), device.log_dso.is_some(), table)
    } else {
        Vec::new()
    }
}

/// Resolving a pairing twice gives the same channels: both results are the
/// one sequence that the device, the probe and the table determine.
pub proof fn lemma_resolve_repeatable(
    first: Seq<Log>,
    second: Seq<Log>,
    device: DeviceView,
    probe: Probe,
    table: LogTable,
)
    requires
        first == spec_resolve(device, probe, table),
        second == spec_resolve(device, probe, table),
    ensures
        first == second,
{
}

/// Every resolved channel is one of the three, they come in display order,
/// and none comes without its log source: the two single-wire channels only
/// from a device with single-wire output, the debug-serial channel only from
/// one with debug-serial output.
pub proof fn lemma_resolve_contained(device: DeviceView, probe: Probe, table: LogTable)
    ensures
        in_display_order(spec_resolve(device, probe, table)),
        spec_resolve(device, probe, table).len() <= 3,
        forall|i: int|
            0 <= i < spec_resolve(device, probe, table).len() ==> Log::spec_priority().contains(
                #[trigger] spec_resolve(device, probe, table)[i],
            ),
        spec_resolve(device, probe, table).contains(Log::SwoProbe) ==> device.log_swo,
        spec_resolve(device, probe, table).contains(Log::SwoSerial) ==> device.log_swo,
        spec_resolve(device, probe, table).contains(Log::DsoSerial) ==> device.log_dso,
        !device.supports(probe) ==> spec_resolve(device, probe, table).len() == 0,
{
    lemma_channels(probe, device.log_swo, device.log_dso, table);
    let s = spec_resolve(device, probe, table);
    assert forall|i: int| 0 <= i < s.len() implies Log::spec_priority().contains(#[trigger] s[i]) by {
        let p = Log::spec_priority();
        match s[i] {
            Log::SwoProbe => {
                assert(p[0] == s[i]);
            },
            Log::SwoSerial => {
                assert(p[1] == s[i]);
            },
            Log::DsoSerial => {
                assert(p[2] == s[i]);
            },
        }
    }
}

} // verus!
