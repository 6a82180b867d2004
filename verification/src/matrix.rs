//! The device by probe compatibility matrix.

use crate::color::Color;
use crate::device::{has_plain_names, names_plain, views, Device, DeviceView};
use crate::probe::{Log, LogTable, Probe};
use crate::resolver::{channels, spec_channels, spec_resolve};
use crate::table::{draw, grid, plain_grid, plain_row, table_layout, texts};
use vstd::prelude::*;
use vstd::string::*;
use vstd::utf8::is_ascii_chars;

verus! {

/// The cell of a device that the probe cannot drive.
pub open spec fn unsupported_cell() -> Seq<char> {
    "--"@
}

/// The start of the cell of a device that the probe can drive.
pub open spec fn supported_prefix() -> Seq<char> {
    "--log "@
}

/// The emphasised identifiers of the channels, in their order, with a slash
/// between neighbours.
pub open spec fn spec_labels(logs: Seq<Log>, color: Color) -> Seq<char>
    decreases logs.len(),
{
    if logs.len() == 0 {
        Seq::empty()
    } else if logs.len() == 1 {
        color.spec_bold(logs[0].spec_name())
    } else {
        spec_labels(logs.drop_last(), color) + "/"@ + color.spec_bold(logs.last().spec_name())
    }
}

/// The cell for a probe and the log sources of a device: the placeholder
/// where the device has no descriptor for the probe, else the prefix and the
/// labels of the usable channels.
pub open spec fn spec_probe_cell(
    probe: Option<Probe>,
    log_swo: bool,
    log_dso: bool,
    color: Color,
    table: LogTable,
) -> Seq<char> {
    match probe {
        None => unsupported_cell(),
        Some(probe) => supported_prefix() + spec_labels(
            spec_channels(probe, log_swo, log_dso, table),
            color,
        ),
    }
}

/// The cell of a device under a probe.
pub open spec fn spec_device_cell(device: DeviceView, probe: Probe, color: Color, table: LogTable) -> Seq<char> {
    if device.supports(probe) {
        supported_prefix() + spec_labels(spec_resolve(device, probe, table), color)
    } else {
        unsupported_cell()
    }
}

/// The title of the column of a probe.
pub open spec fn spec_probe_title(probe: Probe, color: Color) -> Seq<char> {
    "--probe "@ + color.spec_bold(probe.spec_name())
}

/// The title row: the device column, then one column for each probe.
pub open spec fn spec_header_row(color: Color) -> Seq<Seq<char>> {
    seq![
        "--device"@,
        spec_probe_title(Probe::Bmp, color),
        spec_probe_title(Probe::Jlink, color),
        spec_probe_title(Probe::Openocd, color),
    ]
}

/// The row of a device: its emphasised name, then its cell under each probe.
pub open spec fn spec_device_row(device: DeviceView, color: Color, table: LogTable) -> Seq<Seq<char>> {
    seq![
        color.spec_bold(device.name),
        spec_device_cell(device, Probe::Bmp, color, table),
        spec_device_cell(device, Probe::Jlink, color, table),
        spec_device_cell(device, Probe::Openocd, color, table),
    ]
}

/// One row for each device, in the order of the registry.
pub open spec fn spec_matrix_rows(registry: Seq<DeviceView>, color: Color, table: LogTable) -> Seq<Seq<Seq<char>>> {
    Seq::new(registry.len(), |i: int| spec_device_row(registry[i], color, table))
}

/// The drawn matrix.
pub open spec fn spec_render_matrix(registry: Seq<DeviceView>, color: Color, table: LogTable) -> Seq<char> {
    table_layout(spec_header_row(color), spec_matrix_rows(registry, color, table))
}

/// Joins the emphasised identifiers of the channels with slashes.
pub fn labels(logs: &Vec<Log>, color: Color) -> (text: String)
    ensures
        text@ == spec_labels(logs@, color),
{
    let mut text = String::new();
    let mut i: usize = 0;
    while i < logs.len()
        invariant
            i <= logs.len(),
            text@ == spec_labels(logs@.take(i as int), color),
        decreases logs.len() - i,
    {
        if i > 0 {
            text.append("/");
        }
        let label = color.bold(logs[i].name());
        text.append(label.as_str());
        proof {
            let next = logs@.take(i + 1);
            assert(next.drop_last() =~= logs@.take(i as int));
            assert(next.last() == logs@[i as int]);
            assert(text@ =~= spec_labels(next, color));
        }
        i += 1;
    }
    proof {
        assert(logs@.take(logs.len() as int) =~= logs@);
    }
    text
}

/// The cell for a probe and the log sources of a device. Without a probe it
/// is the placeholder, whatever the log sources.
pub fn probe_cell(probe: Option<Probe>, log_swo: bool, log_dso: bool, color: Color, table: &LogTable) -> (text:
    String)
    ensures
        text@ == spec_probe_cell(probe, log_swo, log_dso, color, *table),
        probe is None ==> text@ == unsupported_cell(),
{
    match probe {
        Some(probe) => {
            let logs = channels(probe, log_swo, log_dso, table);
            let joined = labels(&logs, color);
            let mut text = String::from_str("--log ");
            text.append(joined.as_str());
            text
        },
        None => String::from_str("--"),
    }
}

/// The cell of a device under a probe. Where the device has no descriptor
/// for the probe it is the placeholder, whatever log sources the device
/// exposes.
pub fn device_cell(device: &Device, probe: Probe, color: Color, table: &LogTable) -> (text: String)
    ensures
        text@ == spec_device_cell(device@, probe, color, *table),
        !device@.supports(probe) ==> text@ == unsupported_cell(),
{
    let slot = if device.supports(probe) {
        Some(probe)
    } else {
        None
    };
    probe_cell(slot, device.log_swo.is_some(), device.log_dso.is_some(), color, table)
}

/// The title of the column of a probe.
pub fn probe_title(probe: Probe, color: Color) -> (text: String)
    ensures
        text@ == spec_probe_title(probe, color),
{
    let label = color.bold(probe.name());
    let mut text = String::from_str("--probe ");
    text.append(label.as_str());
    text
}

/// The title row.
pub fn header_row(color: Color) -> (row: Vec<String>)
    ensures
        texts(row@) == spec_header_row(color),
{
    let mut row: Vec<String> = Vec::new();
    row.push(String::from_str("--device"));
    row.push(probe_title(Probe::Bmp, color));
    row.push(probe_title(Probe::Jlink, color));
    row.push(probe_title(Probe::Openocd, color));
    proof {
        assert(texts(row@) =~= spec_header_row(color));
    }
    row
}

/// The row of a device.
pub fn device_row(device: &Device, color: Color, table: &LogTable) -> (row: Vec<String>)
    ensures
        texts(row@) == spec_device_row(device@, color, *table),
{
    let mut row: Vec<String> = Vec::new();
    row.push(color.bold(device.name.as_str()));
    row.push(device_cell(device, Probe::Bmp, color, table));
    row.push(device_cell(device, Probe::Jlink, color, table));
    row.push(device_cell(device, Probe::Openocd, color, table));
    proof {
        assert(texts(row@) =~= spec_device_row(device@, color, *table));
    }
    row
}

/// The body of the matrix: the row of each device, in the order of the
/// registry.
pub fn matrix_rows(registry: &Vec<Device>, color: Color, table: &LogTable) -> (rows: Vec<Vec<String>>)
    ensures
        grid(rows@) == spec_matrix_rows(views(registry@), color, *table),
{
    let mut rows: Vec<Vec<String>> = Vec::new();
    let mut i: usize = 0;
    while i < registry.len()
        invariant
            i <= registry.len(),
            rows.len() == i,
            grid(rows@) == spec_matrix_rows(views(registry@.take(i as int)), color, *table),
        decreases registry.len() - i,
    {
        let row = device_row(&registry[i], color, table);
        let ghost before = rows@;
        rows.push(row);
        proof {
            let done = spec_matrix_rows(views(registry@.take(i as int)), color, *table);
            let next = spec_matrix_rows(views(registry@.take(i + 1)), color, *table);
            assert forall|j: int| 0 <= j < next.len() implies grid(rows@)[j] == next[j] by {
                if j < i {
                    assert(rows@[j] == before[j]);
                    assert(grid(before)[j] == done[j]);
                }
            }
            assert(grid(rows@) =~= next);
        }
        i += 1;
    }
    proof {
        assert(registry@.take(registry.len() as int) =~= registry@);
    }
    rows
}

/// Two ASCII texts joined are ASCII.
proof fn lemma_plain_concat(first: Seq<char>, second: Seq<char>)
    requires
        is_ascii_chars(first),
        is_ascii_chars(second),
    ensures
        is_ascii_chars(first + second),
{
}

/// An ASCII text stays ASCII when it is emphasised.
proof fn lemma_bold_plain(color: Color, text: Seq<char>)
    requires
        is_ascii_chars(text),
    ensures
        is_ascii_chars(color.spec_bold(text)),
{
    reveal_strlit("\x1b[1m");
    reveal_strlit("\x1b[0m");
    lemma_plain_concat("\x1b[1m"@, text);
    lemma_plain_concat("\x1b[1m"@ + text, "\x1b[0m"@);
}

/// The identifiers of the probes and of the channels are ASCII.
proof fn lemma_names_plain()
    ensures
        forall|probe: Probe| is_ascii_chars(#[trigger] probe.spec_name()),
        forall|log: Log| is_ascii_chars(#[trigger] log.spec_name()),
{
    reveal_strlit("bmp");
    reveal_strlit("jlink");
    reveal_strlit("openocd");
    reveal_strlit("swoprobe");
    reveal_strlit("swoserial");
    reveal_strlit("dsoserial");
}

/// The joined labels of any channels are ASCII.
proof fn lemma_labels_plain(logs: Seq<Log>, color: Color)
    ensures
        is_ascii_chars(spec_labels(logs, color)),
    decreases logs.len(),
{
    lemma_names_plain();
    if logs.len() == 1 {
        lemma_bold_plain(color, logs[0].spec_name());
    } else if logs.len() > 1 {
        reveal_strlit("/");
        lemma_labels_plain(logs.drop_last(), color);
        lemma_bold_plain(color, logs.last().spec_name());
        lemma_plain_concat(spec_labels(logs.drop_last(), color), "/"@);
        lemma_plain_concat(
            spec_labels(logs.drop_last(), color) + "/"@,
            color.spec_bold(logs.last().spec_name()),
        );
    }
}

/// Every cell is ASCII.
proof fn lemma_cell_plain(device: DeviceView, probe: Probe, color: Color, table: LogTable)
    ensures
        is_ascii_chars(spec_device_cell(device, probe, color, table)),
{
    reveal_strlit("--");
    reveal_strlit("--log ");
    lemma_labels_plain(spec_resolve(device, probe, table), color);
    lemma_plain_concat("--log "@, spec_labels(spec_resolve(device, probe, table), color));
}

/// The titles are ASCII.
proof fn lemma_header_plain(color: Color)
    ensures
        plain_row(spec_header_row(color)),
{
    reveal_strlit("--device");
    reveal_strlit("--probe ");
    lemma_names_plain();
    assert forall|probe: Probe| is_ascii_chars(#[trigger] spec_probe_title(probe, color)) by {
        lemma_bold_plain(color, probe.spec_name());
        lemma_plain_concat("--probe "@, color.spec_bold(probe.spec_name()));
    }
}

/// The rows of devices with ASCII names are ASCII.
proof fn lemma_rows_plain(registry: Seq<DeviceView>, color: Color, table: LogTable)
    requires
        names_plain(registry),
    ensures
        plain_grid(spec_matrix_rows(registry, color, table)),
{
    assert forall|i: int| 0 <= i < registry.len() implies plain_row(
        #[trigger] spec_matrix_rows(registry, color, table)[i],
    ) by {
        lemma_bold_plain(color, registry[i].name);
        lemma_cell_plain(registry[i], Probe::Bmp, color, table);
        lemma_cell_plain(registry[i], Probe::Jlink, color, table);
        lemma_cell_plain(registry[i], Probe::Openocd, color, table);
    }
}

/// Draws the matrix of a registry: a title row, then one row for each device
/// in the order of the registry, without border and with a line under the
/// titles. The table drawer takes ASCII texts alone, so the names of the
/// devices must be ASCII; `try_render_matrix` tests it.
pub fn render_matrix(registry: &Vec<Device>, color: Color, table: &LogTable) -> (text: String)
    requires
        names_plain(views(registry@)),
    ensures
        text@ == spec_render_matrix(views(registry@), color, *table),
{
    let titles = header_row(color);
    let rows = matrix_rows(registry, color, table);
    proof {
        lemma_header_plain(color);
        lemma_rows_plain(views(registry@), color, *table);
    }
    draw(&titles, &rows)
}

/// Draws the matrix of a registry where the names of its devices are ASCII,
/// and gives nothing where one is not.
pub fn try_render_matrix(registry: &Vec<Device>, color: Color, table: &LogTable) -> (drawn: Option<String>)
    ensures
        match drawn {
            Some(text) => names_plain(views(registry@)) && text@ == spec_render_matrix(
                views(registry@),
                color,
                *table,
            ),
            None => !names_plain(views(registry@)),
        },
{
    if has_plain_names(registry) {
        Some(render_matrix(registry, color, table))
    } else {
        None
    }
}

/// Where a device has no descriptor for a probe its cell is the placeholder:
/// two such devices have the same cell, whatever log sources either exposes
/// and whatever the table says.
pub proof fn lemma_unsupported_cell(
    device: DeviceView,
    other: DeviceView,
    probe: Probe,
    color: Color,
    table: LogTable,
    other_table: LogTable,
)
    requires
        !device.supports(probe),
        !other.supports(probe),
    ensures
        spec_device_cell(device, probe, color, table) == unsupported_cell(),
        spec_device_cell(other, probe, color, other_table) == spec_device_cell(
            device,
            probe,
            color,
            table,
        ),
{
}

/// The matrix has one row for each device, in the order of the registry:
/// each row starts with the emphasised name of the device at its place and
/// has one cell more than there are probes.
pub proof fn lemma_rows_follow_registry(registry: Seq<DeviceView>, color: Color, table: LogTable)
    ensures
        spec_matrix_rows(registry, color, table).len() == registry.len(),
        forall|i: int|
            0 <= i < registry.len() ==> {
                let row = #[trigger] spec_matrix_rows(registry, color, table)[i];
                &&& row.len() == Probe::spec_all().len() + 1
                &&& row[0] == color.spec_bold(registry[i].name)
                &&& forall|k: int|
                    0 <= k < Probe::spec_all().len() ==> #[trigger] row[k + 1] == spec_device_cell(
                        registry[i],
                        Probe::spec_all()[k],
                        color,
                        table,
                    )
            },
{
}

/// Drawing the matrix twice gives the same text: both drawings are the one
/// text that the devices, the colour mode and the table determine.
pub proof fn lemma_render_repeatable(
    first: Seq<char>,
    second: Seq<char>,
    registry: Seq<DeviceView>,
    color: Color,
    table: LogTable,
)
    requires
        first == spec_render_matrix(registry, color, table),
        second == spec_render_matrix(registry, color, table),
    ensures
        first == second,
{
}

} // verus!
