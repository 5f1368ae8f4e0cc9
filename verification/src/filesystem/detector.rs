//! Finding the filesystem class of a path, and the optimizers of the
//! filesystems that overwrite in place.

use vstd::prelude::*;
use vstd::string::StringSliceAdditionalSpecFns;
use super::FilesystemOptimizer;
use super::FilesystemType;
use super::HookAction;
use crate::text::contains_bytes;
use crate::text::equals_ignoring_case;
use crate::text::fields_of;
use crate::text::lines_of;
use crate::text::lowercase;
use crate::text::occurs_in;
use crate::text::rows;
use crate::text::split_fields;
use crate::text::split_lines;

verus! {

#[derive(Debug, Clone, Copy, PartialEq, Eq, Structural)]
pub struct Ext4Optimizer;

impl FilesystemOptimizer for Ext4Optimizer {
    open spec fn pre_wipe_action(&self) -> HookAction {
        HookAction::Inform
    }

    open spec fn post_wipe_action(&self) -> HookAction {
        HookAction::Sync
    }

    open spec fn recommended_passes(&self) -> usize {
        3
    }

    open spec fn disables_cow(&self) -> bool {
        false
    }

    fn pre_wipe_setup(&self) -> (action: HookAction) {
        HookAction::Inform
    }

    /// The sync flushes what the journal still holds.
    fn post_wipe_cleanup(&self) -> (action: HookAction) {
        HookAction::Sync
    }

    fn get_recommended_passes(&self) -> (passes: usize) {
        3
    }

    fn should_disable_cow(&self) -> (disable: bool) {
        false
    }
}

#[derive(Debug, Clone, Copy, PartialEq, Eq, Structural)]
pub struct XfsOptimizer;

impl FilesystemOptimizer for XfsOptimizer {
    open spec fn pre_wipe_action(&self) -> HookAction {
        HookAction::Inform
    }

    open spec fn post_wipe_action(&self) -> HookAction {
        HookAction::Sync
    }

    open spec fn recommended_passes(&self) -> usize {
        3
    }

    open spec fn disables_cow(&self) -> bool {
        false
    }

    fn pre_wipe_setup(&self) -> (action: HookAction) {
        HookAction::Inform
    }

    fn post_wipe_cleanup(&self) -> (action: HookAction) {
        HookAction::Sync
    }

    fn get_recommended_passes(&self) -> (passes: usize) {
        3
    }

    fn should_disable_cow(&self) -> (disable: bool) {
        false
    }
}

#[derive(Debug, Clone, Copy, PartialEq, Eq, Structural)]
pub struct F2fsOptimizer;

impl FilesystemOptimizer for F2fsOptimizer {
    open spec fn pre_wipe_action(&self) -> HookAction {
        HookAction::Inform
    }

    open spec fn post_wipe_action(&self) -> HookAction {
        HookAction::Sync
    }

    /// F2FS is made for flash, where more passes gain nothing.
    open spec fn recommended_passes(&self) -> usize {
        1
    }

    open spec fn disables_cow(&self) -> bool {
        false
    }

    fn pre_wipe_setup(&self) -> (action: HookAction) {
        HookAction::Inform
    }

    fn post_wipe_cleanup(&self) -> (action: HookAction) {
        HookAction::Sync
    }

    fn get_recommended_passes(&self) -> (passes: usize) {
        1
    }

    fn should_disable_cow(&self) -> (disable: bool) {
        false
    }
}

/// What is known of one thing the probe wants to read.
pub enum Reading {
    /// It has not been asked for.
    Pending,
    /// The file could not be read, or the command did not succeed.
    Failed,
    /// The content of the file, or what the command printed.
    Output(Vec<u8>),
}

/// Everything the probe of one path has gathered so far.
pub struct FilesystemProbe {
    /// The mount table of the system.
    pub mounts: Reading,
    /// The report of the disk-free tool on the path, with types.
    pub device_report: Reading,
    /// The superblock summary of the device that holds the path.
    pub journal_report: Reading,
    /// The name that the status tool gives the filesystem of the path.
    pub status_report: Reading,
}

/// What the probe does next.
pub enum ProbeStep {
    ReadMountTable,
    /// Ask the disk-free tool which device holds the path.
    QueryDevice,
    /// Ask for the superblock summary of this device.
    QueryJournal { device: Vec<u8> },
    /// Ask the status tool for the name of the filesystem.
    QueryStatus,
    /// The probe is over.
    Done(FilesystemType),
}

/// The view of a probe step.
pub enum ProbeStepView {
    ReadMountTable,
    QueryDevice,
    QueryJournal { device: Seq<u8> },
    QueryStatus,
    Done(FilesystemType),
}

impl View for ProbeStep {
    type V = ProbeStepView;

    open spec fn view(&self) -> ProbeStepView {
        match *self {
            ProbeStep::ReadMountTable => ProbeStepView::ReadMountTable,
            ProbeStep::QueryDevice => ProbeStepView::QueryDevice,
            ProbeStep::QueryJournal { device } => ProbeStepView::QueryJournal { device: device@ },
            ProbeStep::QueryStatus => ProbeStepView::QueryStatus,
            ProbeStep::Done(filesystem) => ProbeStepView::Done(filesystem),
        }
    }
}

/// The name that stands for a device that could not be found.
pub open spec fn unknown_device() -> Seq<u8> {
    "unknown".spec_bytes()
}

/// The device that the report of the disk-free tool names: the first field
/// of its second line.
pub open spec fn device_in_report(report: Seq<u8>) -> Seq<u8> {
    let lines = lines_of(report);
    if lines.len() > 1 && fields_of(lines[1]).len() > 0 {
        fields_of(lines[1])[0]
    } else {
        unknown_device()
    }
}

/// The device that holds the path, as far as the report tells.
pub open spec fn reported_device(report: Reading) -> Seq<u8> {
    match report {
        Reading::Output(bytes) => device_in_report(bytes@),
        _ => unknown_device(),
    }
}

/// Whether a line of the mount table is the mount of `device`: it has a
/// device, a mount point and a type, and `device` occurs in its device.
pub open spec fn is_mount_of(line: Seq<u8>, device: Seq<u8>) -> bool {
    fields_of(line).len() >= 3 && occurs_in(device, fields_of(line)[0])
}

/// The position of the first line at or after `from` that is the mount of
/// `device`, or the number of lines where there is none.
pub open spec fn first_mount(lines: Seq<Seq<u8>>, device: Seq<u8>, from: int) -> int
    decreases lines.len() - from,
{
    if 0 <= from < lines.len() && !is_mount_of(lines[from], device) {
        first_mount(lines, device, from + 1)
    } else {
        from
    }
}

/// The mount options of a line of the mount table: its fourth field.
pub open spec fn mount_options(line: Seq<u8>) -> Seq<u8> {
    if fields_of(line).len() >= 4 {
        fields_of(line)[3]
    } else {
        Seq::empty()
    }
}

/// The class that a filesystem name stands for, whatever the case of its
/// letters. For ext4 `has_journal` tells whether it keeps a journal; btrfs
/// is a subvolume where its mount options name one.
pub open spec fn filesystem_named(
    name: Seq<u8>,
    options: Seq<u8>,
    has_journal: bool,
) -> FilesystemType {
    let lower = lowercase(name);
    if lower == "ext4".spec_bytes() {
        FilesystemType::Ext4 { has_journal }
    } else if lower == "btrfs".spec_bytes() {
        FilesystemType::Btrfs { subvolume: occurs_in("subvol=".spec_bytes(), options) }
    } else if lower == "xfs".spec_bytes() {
        FilesystemType::Xfs
    } else if lower == "zfs".spec_bytes() {
        FilesystemType::Zfs
    } else if lower == "f2fs".spec_bytes() {
        FilesystemType::F2fs
    } else {
        FilesystemType::Unknown
    }
}

/// Whether the filesystem keeps a journal, as far as the superblock
/// summary tells. Without a summary a journal is assumed.
pub open spec fn journal_in(report: Reading) -> bool {
    match report {
        Reading::Output(bytes) => occurs_in("has_journal".spec_bytes(), bytes@),
        _ => true,
    }
}

/// What the probe does when the mount table did not settle the class: it
/// asks the status tool, and takes a filesystem it cannot name for unknown.
pub open spec fn fallback_step(probe: FilesystemProbe) -> ProbeStepView {
    match probe.status_report {
        Reading::Pending => ProbeStepView::QueryStatus,
        Reading::Failed => ProbeStepView::Done(FilesystemType::Unknown),
        Reading::Output(name) => ProbeStepView::Done(
            filesystem_named(crate::text::trimmed(name@), Seq::empty(), true),
        ),
    }
}

/// What the probe does next, given what it has gathered. It reads the
/// mount table, asks which device holds the path, and takes the type of
/// the first mount of that device; only for ext4 it asks for the journal.
/// Without mount table or mount it falls back on the status tool.
pub open spec fn next_step(probe: FilesystemProbe) -> ProbeStepView {
    match probe.mounts {
        Reading::Pending => ProbeStepView::ReadMountTable,
        Reading::Failed => fallback_step(probe),
        Reading::Output(table) => if probe.device_report is Pending {
            ProbeStepView::QueryDevice
        } else {
            let lines = lines_of(table@);
            let found = first_mount(lines, reported_device(probe.device_report), 0);
            if found < lines.len() {
                let fields = fields_of(lines[found]);
                if lowercase(fields[2]) == "ext4".spec_bytes() && probe.journal_report
                    is Pending {
                    ProbeStepView::QueryJournal { device: fields[0] }
                } else {
                    ProbeStepView::Done(
                        filesystem_named(
                            fields[2],
                            mount_options(lines[found]),
                            journal_in(probe.journal_report),
                        ),
                    )
                }
            } else {
                fallback_step(probe)
            }
        },
    }
}

/// The device that the report of the disk-free tool names.
pub fn get_device_for_path(report: &Reading) -> (device: Vec<u8>)
    ensures
        device@ == reported_device(*report),
{
    match report {
        Reading::Output(bytes) => {
            let lines = split_lines(bytes.as_slice());
            if lines.len() > 1 {
                assert(rows(lines@)[1] == lines@[1]@);
                let mut fields = split_fields(lines[1].as_slice());
                if fields.len() > 0 {
                    assert(rows(fields@)[0] == fields@[0]@);
                    return fields.swap_remove(0);
                }
            }
            crate::text::bytes_of("unknown")
        },
        _ => crate::text::bytes_of("unknown"),
    }
}

/// Whether the filesystem keeps a journal, as far as the superblock
/// summary tells.
pub fn check_ext4_journal(report: &Reading) -> (has_journal: bool)
    ensures
        has_journal == journal_in(*report),
{
    match report {
        Reading::Output(bytes) => contains_bytes(bytes.as_slice(), "has_journal".as_bytes()),
        _ => true,
    }
}

/// The class that a filesystem name stands for.
pub fn parse_filesystem_type(fs_type: &[u8], options: &[u8], has_journal: bool) -> (filesystem:
    FilesystemType)
    ensures
        filesystem == filesystem_named(fs_type@, options@, has_journal),
{
    if equals_ignoring_case(fs_type, "ext4".as_bytes()) {
        FilesystemType::Ext4 { has_journal }
    } else if equals_ignoring_case(fs_type, "btrfs".as_bytes()) {
        FilesystemType::Btrfs { subvolume: contains_bytes(options, "subvol=".as_bytes()) }
    } else if equals_ignoring_case(fs_type, "xfs".as_bytes()) {
        FilesystemType::Xfs
    } else if equals_ignoring_case(fs_type, "zfs".as_bytes()) {
        FilesystemType::Zfs
    } else if equals_ignoring_case(fs_type, "f2fs".as_bytes()) {
        FilesystemType::F2fs
    } else {
        FilesystemType::Unknown
    }
}

fn fallback(probe: &FilesystemProbe) -> (step: ProbeStep)
    ensures
        step@ == fallback_step(*probe),
{
    match &probe.status_report {
        Reading::Pending => ProbeStep::QueryStatus,
        Reading::Failed => ProbeStep::Done(FilesystemType::Unknown),
        Reading::Output(name) => {
            let (start, end) = crate::text::trim_bounds(name.as_slice());
            let trimmed = vstd::slice::slice_subrange(name.as_slice(), start, end);
            let none: Vec<u8> = Vec::new();
            assert(none@ =~= Seq::empty());
            ProbeStep::Done(parse_filesystem_type(trimmed, none.as_slice(), true))
        },
    }
}

/// Takes the probe of a path one step further: it names what to read or
/// run next, or the class it has found.
pub fn detect_filesystem_type(probe: &FilesystemProbe) -> (step: ProbeStep)
    ensures
        step@ == next_step(*probe),
{
    match &probe.mounts {
        Reading::Pending => ProbeStep::ReadMountTable,
        Reading::Failed => fallback(probe),
        Reading::Output(table) => {
            match &probe.device_report {
                Reading::Pending => {
                    return ProbeStep::QueryDevice;
                },
                _ => {},
            }
            let device = get_device_for_path(&probe.device_report);
            let lines = split_lines(table.as_slice());
            let mut index: usize = 0;
            while index < lines.len()
                invariant
                    index <= lines@.len(),
                    probe.mounts == Reading::Output(*table),
                    !(probe.device_report is Pending),
                    device@ == reported_device(probe.device_report),
                    rows(lines@) == lines_of(table@),
                    first_mount(lines_of(table@), device@, 0) == first_mount(
                        lines_of(table@),
                        device@,
                        index as int,
                    ),
                decreases lines@.len() - index,
            {
                assert(rows(lines@)[index as int] == lines@[index as int]@);
                let mut fields = split_fields(lines[index].as_slice());
                let ghost line = lines_of(table@)[index as int];
                assert(rows(fields@) == fields_of(line));
                assert(is_mount_of(line, device@) <==> fields@.len() >= 3 && occurs_in(
                    device@,
                    rows(fields@)[0],
                ));
                if fields.len() >= 3 {
                    assert(rows(fields@)[0] == fields@[0]@);
                    assert(rows(fields@)[2] == fields@[2]@);
                    if contains_bytes(fields[0].as_slice(), device.as_slice()) {
                        assert(is_mount_of(line, device@));
                        assert(first_mount(lines_of(table@), device@, index as int) == index);
                        let is_ext4 = equals_ignoring_case(fields[2].as_slice(), "ext4".as_bytes());
                        let pending = match &probe.journal_report {
                            Reading::Pending => true,
                            _ => false,
                        };
                        if is_ext4 && pending {
                            return ProbeStep::QueryJournal { device: fields.swap_remove(0) };
                        }
                        let none: Vec<u8> = Vec::new();
                        assert(none@ =~= Seq::empty());
                        let has_journal = check_ext4_journal(&probe.journal_report);
                        let filesystem = if fields.len() >= 4 {
                            assert(rows(fields@)[3] == fields@[3]@);
                            parse_filesystem_type(
                                fields[2].as_slice(),
                                fields[3].as_slice(),
                                has_journal,
                            )
                        } else {
                            parse_filesystem_type(fields[2].as_slice(), none.as_slice(), has_journal)
                        };
                        return ProbeStep::Done(filesystem);
                    }
                }
                index += 1;
            }
            fallback(probe)
        },
    }
}

/// Probing is repeatable: two probes that gathered the same readings take
/// the same step and find the same class.
pub proof fn lemma_filesystem_probe_is_repeatable(
    probe: FilesystemProbe,
    first: ProbeStepView,
    second: ProbeStepView,
)
    requires
        first == next_step(probe),
        second == next_step(probe),
    ensures
        first == second,
{
}

} // verus!
