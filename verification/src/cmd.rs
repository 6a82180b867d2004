//! The two reporting commands.

use crate::color::Color;
use crate::device::{registry, spec_registry};
use crate::matrix::{render_matrix, spec_render_matrix};
use crate::probe::LogTable;
use crate::target::{spec_target_of, target, ConfigRead, ConfigReadView, PrintError, PrintErrorView};
use vstd::prelude::*;
use vstd::string::*;

verus! {

/// What to report.
#[derive(Clone, Copy, Debug, PartialEq, Eq, Structural)]
pub enum PrintSubCmd {
    /// The configured build target.
    Target,
    /// The matrix of the known devices.
    SupportedDevices,
}

/// The reporting command.
#[derive(Clone, Copy, Debug, PartialEq, Eq, Structural)]
pub struct PrintCmd {
    pub print_sub_cmd: PrintSubCmd,
}

/// The matrix of the known devices under the probes as they are built.
pub open spec fn spec_supported_devices(color: Color) -> Seq<char> {
    spec_render_matrix(spec_registry(), color, LogTable::spec_standard())
}

/// What a command writes, or its failure. The target stands alone on a
/// line; the matrix is written as it is drawn. The colour mode bears on the
/// matrix alone.
pub open spec fn spec_run(cmd: PrintCmd, color: Color, root: Seq<char>, read: ConfigReadView) -> Result<
    Seq<char>,
    PrintErrorView,
> {
    match cmd.print_sub_cmd {
        PrintSubCmd::Target => match spec_target_of(root, read) {
            Ok(triple) => Ok(triple + "\n"@),
            Err(error) => Err(error),
        },
        PrintSubCmd::SupportedDevices => Ok(spec_supported_devices(color)),
    }
}

impl PrintCmd {
    /// Whether the command reads the configuration file of the project.
    pub fn reads_config(&self) -> (reads: bool)
        ensures
            reads == (self.print_sub_cmd == PrintSubCmd::Target),
    {
        match self.print_sub_cmd {
            PrintSubCmd::Target => true,
            PrintSubCmd::SupportedDevices => false,
        }
    }
}

/// Draws the matrix of the known devices.
pub fn supported_devices(color: Color) -> (text: String)
    ensures
        text@ == spec_supported_devices(color),
{
    let devices = registry();
    let table = LogTable::standard();
    render_matrix(&devices, color, &table)
}

/// Runs a reporting command and gives what it writes to the output. The
/// project root and what came of reading the configuration file bear on the
/// target command alone; the matrix never fails.
pub fn run(cmd: PrintCmd, color: Color, root: &str, read: ConfigRead) -> (written: Result<
    String,
    PrintError,
>)
    ensures
        match spec_run(cmd, color, root@, read@) {
            Ok(text) => written matches Ok(output) && output@ == text,
            Err(expected) => written matches Err(error) && error@ == expected,
        },
{
    let PrintCmd { print_sub_cmd } = cmd;
    match print_sub_cmd {
        PrintSubCmd::Target => match target(root, read) {
            Ok(triple) => {
                let mut line = triple;
                line.append("\n");
                Ok(line)
            },
            Err(error) => Err(error),
        },
        PrintSubCmd::SupportedDevices => Ok(supported_devices(color)),
    }
}

/// The colour mode has no bearing on the target command: under any two
/// modes it writes the same line, or fails with the same error.
pub proof fn lemma_target_ignores_color(
    first: Color,
    second: Color,
    root: Seq<char>,
    read: ConfigReadView,
)
    ensures
        spec_run(PrintCmd { print_sub_cmd: PrintSubCmd::Target }, first, root, read)
            == spec_run(PrintCmd { print_sub_cmd: PrintSubCmd::Target }, second, root, read),
{
}

/// A failure of the target command is handed on unchanged, and the matrix
/// command never fails.
pub proof fn lemma_run_hands_on_failure(
    cmd: PrintCmd,
    color: Color,
    root: Seq<char>,
    read: ConfigReadView,
)
    ensures
        cmd.print_sub_cmd == PrintSubCmd::SupportedDevices ==> spec_run(
            cmd,
            color,
            root,
            read,
        ) is Ok,
        cmd.print_sub_cmd == PrintSubCmd::Target ==> (spec_run(cmd, color, root, read) is Err
            <==> spec_target_of(root, read) is Err),
        cmd.print_sub_cmd == PrintSubCmd::Target && spec_target_of(root, read) is Err
            ==> spec_run(cmd, color, root, read)->Err_0 == spec_target_of(
            root,
            read,
        )->Err_0,
{
}

} // verus!
