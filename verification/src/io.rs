//! The overwrite engine: what is written to a file, pass by pass, and the
//! order of everything that is done to it.

use vstd::prelude::*;
use vstd::string::StringExecFns;

pub mod async_writer;
pub mod run;

use crate::filesystem::FilesystemType;
use crate::filesystem::Optimizer;
use crate::patterns::create_storage_aware_pattern_sequence;
use crate::patterns::kinds_of;
use crate::patterns::repeated;
use crate::patterns::selected_sequence;
use crate::patterns::WipePattern;
use crate::security::all_zero;
use crate::security::lemma_windows_compose;
use crate::security::metadata::lemma_scrub_ends_with_removal;
use crate::security::metadata::MetadataWiper;
use crate::security::ReadbackVerifier;
use crate::security::VERIFY_WINDOW;
use crate::storage::StorageType;
use crate::text::decimal;
use crate::text::to_decimal;
use crate::AmaterasuConfig;
use async_writer::chunk_count;
use async_writer::chunk_len;
use async_writer::chunk_start;
use async_writer::is_chunk_plan;
use async_writer::AsyncWiper;
use async_writer::Chunk;
use run::ends_with_removal;
use run::RunState;
use run::WipeError;
use run::WipeRun;
use run::WipeStep;

verus! {

/// Files above this size are written in parallel.
pub const PARALLEL_THRESHOLD: u64 = 1_048_576;

/// The number of blocks in one chunk of the parallel writer.
pub const CHUNK_BLOCKS: usize = 16;

/// The way a pass is written.
#[derive(Debug, Clone, Copy, PartialEq, Eq, Structural)]
pub enum WritePath {
    /// Block after block through one handle, flushed after each.
    Streamed,
    /// Chunk by chunk through a handle per task.
    Parallel,
}

/// How far written bytes are pushed towards the device.
#[derive(Debug, Clone, Copy, PartialEq, Eq, Structural)]
pub enum Durability {
    /// The buffers of the handle are flushed.
    Flush,
    /// The data of the file is synced, its metadata is not.
    DataSync,
    /// Data and metadata of the file are synced.
    FullSync,
}

impl WritePath {
    /// What follows each write of a pass: the streamed writer flushes its
    /// handle, a task of the parallel writer syncs the data of its chunk.
    pub fn after_write(&self) -> (durability: Durability)
        ensures
            durability == match *self {
                WritePath::Streamed => Durability::Flush,
                WritePath::Parallel => Durability::DataSync,
            },
    {
        match self {
            WritePath::Streamed => Durability::Flush,
            WritePath::Parallel => Durability::DataSync,
        }
    }

    /// What ends a pass on either path, before the next pass begins: one
    /// sync of data and metadata.
    pub fn after_pass(&self) -> (durability: Durability)
        ensures
            durability == Durability::FullSync,
    {
        Durability::FullSync
    }
}

/// What reading back the file came to.
#[derive(Debug, Clone, Copy, PartialEq, Eq, Structural)]
pub enum VerifyOutcome {
    /// A byte other than zero was seen: the last pass left its pattern.
    PatternFound,
    /// Only zeros were seen. This is reported as a warning.
    OnlyZeros,
}

/// What was found when the target of a wipe was examined.
#[derive(Debug, Clone, Copy, PartialEq, Eq, Structural)]
pub struct PathStatus {
    pub exists: bool,
    /// It is a regular file.
    pub regular: bool,
    /// The current user may write to it.
    pub writable: bool,
    /// Its size in bytes.
    pub size: u64,
}

/// One report to the progress sink.
#[derive(Debug, Clone, Copy, PartialEq, Eq)]
pub struct ProgressEvent {
    /// The pass, counted from zero.
    pub pass_index: usize,
    pub pass_total: usize,
    pub pattern_name: &'static str,
    /// The number of bytes written since the last report.
    pub bytes_delta: u64,
}

/// The steps that end a wipe: the scrub of the metadata with the removal
/// at its end, or the removal alone.
pub open spec fn removal_steps(config: AmaterasuConfig) -> Seq<WipeStep> {
    if config.wipe_metadata {
        MetadataWiper {
            rename_iterations: config.metadata_passes,
            timestamp_randomization: true,
            clear_extended_attributes: true,
        }.steps()
    } else {
        seq![WipeStep::Unlink]
    }
}

/// The steps of the wipe of one file, in order. An empty file has nothing
/// to overwrite and goes straight to its removal.
pub open spec fn wipe_steps(file_size: u64, passes: nat, config: AmaterasuConfig) -> Seq<WipeStep> {
    if file_size == 0 {
        removal_steps(config)
    } else {
        seq![WipeStep::PreWipeSetup] + Seq::new(
            passes,
            |i: int| WipeStep::WritePass { pass: i as usize },
        ) + (if config.verify {
            seq![WipeStep::Verify]
        } else {
            Seq::empty()
        }) + seq![WipeStep::PostWipeCleanup] + removal_steps(config)
    }
}

/// Every wipe ends with the removal of the file and removes it at no other
/// point, so what is proved of such runs holds of every wipe: one that
/// ends well has removed the file, and one in which a pass fails has not.
pub proof fn lemma_wipe_ends_with_removal(file_size: u64, passes: nat, config: AmaterasuConfig)
    ensures
        ends_with_removal(wipe_steps(file_size, passes, config)),
{
    let tail = removal_steps(config);
    if config.wipe_metadata {
        lemma_scrub_ends_with_removal(
            MetadataWiper {
                rename_iterations: config.metadata_passes,
                timestamp_randomization: true,
                clear_extended_attributes: true,
            },
        );
    }
    if file_size != 0 {
        let head = seq![WipeStep::PreWipeSetup] + Seq::new(
            passes,
            |i: int| WipeStep::WritePass { pass: i as usize },
        ) + (if config.verify {
            seq![WipeStep::Verify]
        } else {
            Seq::empty()
        }) + seq![WipeStep::PostWipeCleanup];
        let all = wipe_steps(file_size, passes, config);
        assert(all == head + tail);
        assert forall|i: int| 0 <= i < all.len() implies (#[trigger] all[i] is Unlink <==> i
            == all.len() - 1) by {
            if i >= head.len() {
                assert(all[i] == tail[i - head.len()]);
            } else {
                assert(all[i] == head[i]);
                assert(!(head[i] is Unlink));
            }
        }
    }
}

/// Everything that is decided about the wipe of one file before it begins.
pub struct WipePlan {
    /// The size of the file when the wipe began; it is used for every pass.
    pub file_size: u64,
    /// The optimizer whose hooks run around the passes.
    pub optimizer: Optimizer,
    /// The pattern of each pass.
    pub patterns: Vec<WipePattern>,
    pub write_path: WritePath,
    /// The number of bytes that all passes write together, for the
    /// progress display; `u64::MAX` where the number is larger than that.
    pub progress_total: u64,
    /// Whether progress is reported to the sink at all.
    pub report_progress: bool,
    /// The steps, about to begin.
    pub run: WipeRun,
}

impl WipePlan {
    /// The report of `bytes_delta` bytes written in a pass, or `None`
    /// where no progress is reported.
    pub fn progress_event(&self, pass: usize, bytes_delta: u64) -> (event: Option<ProgressEvent>)
        requires
            pass < self.patterns@.len(),
        ensures
            event is Some <==> self.report_progress,
            event matches Some(e) ==> {
                &&& e.pass_index == pass
                &&& e.pass_total == self.patterns@.len()
                &&& e.pattern_name@ == self.patterns@[pass as int].kind().name()
                &&& e.bytes_delta == bytes_delta
            },
    {
        if self.report_progress {
            Some(
                ProgressEvent {
                    pass_index: pass,
                    pass_total: self.patterns.len(),
                    pattern_name: self.patterns[pass].name(),
                    bytes_delta,
                },
            )
        } else {
            None
        }
    }
}

/// Wipes files on one medium under one configuration.
pub struct FileWiper {
    storage_type: StorageType,
    config: AmaterasuConfig,
}

impl FileWiper {
    pub closed spec fn storage(&self) -> StorageType {
        self.storage_type
    }

    pub closed spec fn settings(&self) -> AmaterasuConfig {
        self.config
    }

    pub fn new(storage_type: &StorageType, config: AmaterasuConfig) -> (wiper: Self)
        ensures
            wiper.storage() == *storage_type,
            wiper.settings() == config,
    {
        FileWiper { storage_type: *storage_type, config }
    }

    /// Whether `plan` is the plan of this wiper for a file of `file_size`
    /// bytes on `filesystem`, with as many passes as it holds patterns.
    pub open spec fn plans(
        &self,
        plan: WipePlan,
        file_size: u64,
        filesystem: FilesystemType,
    ) -> bool {
        Self::plan_of(self.settings(), plan, file_size, filesystem)
    }

    /// Whether `plan` is the plan under `config` for a file of `file_size`
    /// bytes on `filesystem`, with as many passes as it holds patterns.
    pub open spec fn plan_of(
        config: AmaterasuConfig,
        plan: WipePlan,
        file_size: u64,
        filesystem: FilesystemType,
    ) -> bool {
        &&& plan.file_size == file_size
        &&& plan.optimizer == filesystem.optimizer()
        &&& plan.write_path == if file_size > PARALLEL_THRESHOLD {
            WritePath::Parallel
        } else {
            WritePath::Streamed
        }
        &&& plan.progress_total == if file_size * plan.patterns@.len() > u64::MAX {
            u64::MAX as int
        } else {
            file_size * plan.patterns@.len()
        }
        &&& plan.report_progress == config.progress
        &&& plan.run@ == RunState::start(wipe_steps(file_size, plan.patterns@.len(), config))
    }

    /// The size to wipe, if the target can be wiped at all: it has to
    /// exist, be a regular file, and be writable. Anything else is a path
    /// error, which `wipe` reports when it is handed `None`.
    pub fn examine(status: &PathStatus) -> (file_size: Option<u64>)
        ensures
            file_size == if status.exists && status.regular && status.writable {
                Some(status.size)
            } else {
                None
            },
    {
        if status.exists && status.regular && status.writable {
            Some(status.size)
        } else {
            None
        }
    }

    /// The way a file of this size is written: in parallel above one
    /// mebibyte, streamed up to it.
    pub fn write_path(file_size: u64) -> (path: WritePath)
        ensures
            path == if file_size > PARALLEL_THRESHOLD {
                WritePath::Parallel
            } else {
                WritePath::Streamed
            },
    {
        if file_size > PARALLEL_THRESHOLD {
            WritePath::Parallel
        } else {
            WritePath::Streamed
        }
    }

    /// The steps of the wipe of a file of `file_size` bytes in `passes`
    /// passes.
    pub fn steps(&self, file_size: u64, passes: usize) -> (steps: Vec<WipeStep>)
        ensures
            steps@ == wipe_steps(file_size, passes as nat, self.settings()),
    {
        let mut steps: Vec<WipeStep> = Vec::new();
        if file_size != 0 {
            steps.push(WipeStep::PreWipeSetup);
            let mut pass: usize = 0;
            while pass < passes
                invariant
                    pass <= passes,
                    steps@ == seq![WipeStep::PreWipeSetup] + Seq::new(
                        pass as nat,
                        |i: int| WipeStep::WritePass { pass: i as usize },
                    ),
                decreases passes - pass,
            {
                steps.push(WipeStep::WritePass { pass });
                pass += 1;
            }
            if self.config.verify {
                steps.push(WipeStep::Verify);
            }
            steps.push(WipeStep::PostWipeCleanup);
        }
        let ghost head = steps@;
        if self.config.wipe_metadata {
            let mut scrub = MetadataWiper::new(self.config.metadata_passes).metadata_steps();
            steps.append(&mut scrub);
        } else {
            steps.push(WipeStep::Unlink);
        }
        assert(steps@ =~= head + removal_steps(self.config));
        assert(steps@ =~= wipe_steps(file_size, passes as nat, self.config));
        steps
    }

    /// The plan of the wipe of a file of `file_size` bytes on `filesystem`
    /// with the given patterns, one for each pass.
    pub fn plan_with(
        &self,
        file_size: u64,
        filesystem: FilesystemType,
        patterns: Vec<WipePattern>,
    ) -> (plan: WipePlan)
        ensures
            plan.patterns == patterns,
            self.plans(plan, file_size, filesystem),
    {
        let passes = patterns.len();
        let progress_total = match file_size.checked_mul(passes as u64) {
            Some(total) => total,
            None => u64::MAX,
        };
        let run = WipeRun::new(self.steps(file_size, passes));
        WipePlan {
            file_size,
            optimizer: filesystem.get_optimizer(),
            patterns,
            write_path: Self::write_path(file_size),
            progress_total,
            report_progress: self.config.progress,
            run,
        }
    }

    /// Plans the wipe of a file. `file_size` is the size that the file had
    /// when it was examined, or `None` where it could not be examined: that
    /// is a path error. An empty file needs no pattern and always gets its
    /// plan; for any other file the plan can fail only for want of entropy
    /// to seed the random passes.
    pub fn wipe(&self, file_size: Option<u64>, filesystem: FilesystemType) -> (plan: Result<
        WipePlan,
        WipeError,
    >)
        ensures
            file_size is None ==> plan == Err::<WipePlan, WipeError>(WipeError::PathError),
            file_size == Some(0u64) ==> plan is Ok,
            plan matches Err(e) ==> (e == WipeError::PathError && file_size is None) || (e
                == WipeError::EntropyUnavailable && file_size is Some && file_size != Some(0u64)),
            plan matches Ok(made) ==> {
                &&& file_size is Some
                &&& self.plans(made, file_size->Some_0, filesystem)
                &&& kinds_of(made.patterns@) == if file_size == Some(0u64) {
                    Seq::empty()
                } else {
                    selected_sequence(self.settings().mode, self.storage(), filesystem)
                }
            },
    {
        match file_size {
            None => Err(WipeError::PathError),
            Some(size) => {
                if size == 0 {
                    let plan = self.plan_with(size, filesystem, Vec::new());
                    assert(kinds_of(plan.patterns@) =~= Seq::empty());
                    Ok(plan)
                } else {
                    match create_storage_aware_pattern_sequence(
                        &self.config.mode,
                        &self.storage_type,
                        &filesystem,
                    ) {
                        Ok(patterns) => Ok(self.plan_with(size, filesystem, patterns)),
                        Err(_) => Err(WipeError::EntropyUnavailable),
                    }
                }
            },
        }
    }

    /// The status text of a pass: its number, counted from one, the number
    /// of passes, and the name of its pattern.
    pub fn pass_message(pass: usize, total: usize, pattern_name: &str) -> (message: String)
        requires
            pass < total,
        ensures
            message@ == "Pass "@ + decimal((pass + 1) as nat) + "/"@ + decimal(total as nat) + " ("@
                + pattern_name@ + ")"@,
    {
        let mut message = String::from_str("Pass ");
        message.append(to_decimal((pass + 1) as u64).as_str());
        message.append("/");
        message.append(to_decimal(total as u64).as_str());
        message.append(" (");
        message.append(pattern_name);
        message.append(")");
        message
    }
}

/// How far a streamed pass has come.
pub struct CursorState {
    pub file_size: nat,
    pub block_size: nat,
    pub bytes_written: nat,
}

impl CursorState {
    pub open spec fn start(file_size: nat, block_size: nat) -> CursorState {
        CursorState { file_size, block_size, bytes_written: 0 }
    }

    pub open spec fn complete(self) -> bool {
        self.bytes_written >= self.file_size
    }

    /// The number of bytes to write next: a block, or what is left of the
    /// file.
    pub open spec fn next_size(self) -> nat {
        if self.bytes_written >= self.file_size {
            0
        } else if self.file_size - self.bytes_written < self.block_size {
            (self.file_size - self.bytes_written) as nat
        } else {
            self.block_size
        }
    }

    /// The state after the next bytes were written.
    pub open spec fn advanced(self) -> CursorState {
        CursorState { bytes_written: self.bytes_written + self.next_size(), ..self }
    }

    /// The state after `count` writes.
    pub open spec fn after(self, count: nat) -> CursorState
        decreases count,
    {
        if count == 0 {
            self
        } else {
            self.after((count - 1) as nat).advanced()
        }
    }
}

/// A streamed pass writes the pieces of the file in the order of their
/// offsets: its write number `index` begins at the offset of that piece and
/// has its length. The pass is complete after the last piece and not
/// before, and it has then written exactly the bytes of the file, from
/// offset 0 on.
pub proof fn lemma_streamed_pass_covers_file(file_size: nat, block_size: nat, index: nat)
    requires
        block_size > 0,
        index <= chunk_count(file_size, block_size),
    ensures
        ({
            let state = CursorState::start(file_size, block_size).after(index);
            &&& state.file_size == file_size
            &&& state.block_size == block_size
            &&& if index < chunk_count(file_size, block_size) {
                &&& !state.complete()
                &&& state.bytes_written == chunk_start(block_size, index)
                &&& state.next_size() == chunk_len(file_size, block_size, index)
            } else {
                &&& state.complete()
                &&& state.bytes_written == file_size
            }
        }),
    decreases index,
{
    let count = chunk_count(file_size, block_size);
    let state = CursorState::start(file_size, block_size).after(index);
    async_writer::lemma_chunks_tile_file(file_size, block_size);
    if index > 0 {
        let previous = (index - 1) as nat;
        lemma_streamed_pass_covers_file(file_size, block_size, previous);
        async_writer::lemma_chunk_bounds(file_size, block_size, previous);
        let before = CursorState::start(file_size, block_size).after(previous);
        assert(state == before.advanced());
        assert(state.bytes_written == chunk_start(block_size, previous) + chunk_len(
            file_size,
            block_size,
            previous,
        ));
        if index < count {
            assert(chunk_start(block_size, previous + 1) == chunk_start(block_size, previous)
                + chunk_len(file_size, block_size, previous));
        } else {
            assert(chunk_start(block_size, previous) + chunk_len(file_size, block_size, previous)
                == file_size);
        }
    } else {
        assert(state.bytes_written == 0);
        assert(chunk_start(block_size, 0) == 0);
    }
    if index < count {
        async_writer::lemma_chunk_bounds(file_size, block_size, index);
    }
}

/// The position of a streamed pass in its file.
pub struct PassCursor {
    file_size: u64,
    block_size: usize,
    bytes_written: u64,
}

impl View for PassCursor {
    type V = CursorState;

    closed spec fn view(&self) -> CursorState {
        CursorState {
            file_size: self.file_size as nat,
            block_size: self.block_size as nat,
            bytes_written: self.bytes_written as nat,
        }
    }
}

impl PassCursor {
    /// A pass over a file of `file_size` bytes in blocks of `block_size`,
    /// at offset 0.
    pub fn new(file_size: u64, block_size: usize) -> (cursor: Self)
        requires
            block_size > 0,
        ensures
            cursor@ == CursorState::start(file_size as nat, block_size as nat),
    {
        PassCursor { file_size, block_size, bytes_written: 0 }
    }

    pub fn is_complete(&self) -> (complete: bool)
        ensures
            complete == self@.complete(),
    {
        self.bytes_written >= self.file_size
    }

    /// The offset of the next write.
    pub fn bytes_written(&self) -> (written: u64)
        ensures
            written == self@.bytes_written,
    {
        self.bytes_written
    }

    /// The number of bytes of the next write; 0 when the pass is complete.
    pub fn next_chunk_size(&self) -> (size: usize)
        ensures
            size == self@.next_size(),
    {
        if self.bytes_written >= self.file_size {
            0
        } else if self.file_size - self.bytes_written < self.block_size as u64 {
            (self.file_size - self.bytes_written) as usize
        } else {
            self.block_size
        }
    }

    /// Fills the front of `buffer` with the bytes of the next write and
    /// returns their number. A buffer that is too short is lengthened.
    pub fn fill_chunk(&self, pattern: &mut WipePattern, buffer: &mut Vec<u8>) -> (size: usize)
        ensures
            size == self@.next_size(),
            final(buffer)@.len() >= size,
            final(buffer)@.len() >= old(buffer)@.len(),
            final(pattern).kind() == old(pattern).kind(),
            old(pattern).kind().fill_byte() matches Some(byte) ==> final(buffer)@.subrange(
                0,
                size as int,
            ) == repeated(byte, size as nat),
    {
        let size = self.next_chunk_size();
        if buffer.len() < size {
            buffer.resize(size, 0u8);
        }
        let (head, _tail) = buffer.as_mut_slice().split_at_mut(size);
        pattern.generate(head);
        size
    }

    /// Records that the bytes of the next write were written.
    pub fn record_written(&mut self)
        ensures
            final(self)@ == old(self)@.advanced(),
    {
        let size = self.next_chunk_size();
        self.bytes_written = self.bytes_written + size as u64;
    }
}

/// What a zero scan has seen of the file.
pub struct ScanState {
    pub file_size: nat,
    pub bytes_read: nat,
    /// A byte other than zero was seen.
    pub pattern_found: bool,
    /// A read returned nothing: the file ended early.
    pub ended: bool,
}

impl ScanState {
    pub open spec fn start(file_size: nat) -> ScanState {
        ScanState { file_size, bytes_read: 0, pattern_found: false, ended: false }
    }

    /// The number of bytes to read next: nothing once a byte other than
    /// zero was seen or the file has ended, else a window, or what is left
    /// of the file.
    pub open spec fn next_read_size(self) -> nat {
        if self.pattern_found || self.ended || self.bytes_read >= self.file_size {
            0
        } else if self.file_size - self.bytes_read < VERIFY_WINDOW {
            (self.file_size - self.bytes_read) as nat
        } else {
            VERIFY_WINDOW as nat
        }
    }

    /// The state after `window` was read.
    pub open spec fn fed(self, window: Seq<u8>) -> ScanState {
        ScanState {
            file_size: self.file_size,
            bytes_read: self.bytes_read + window.len(),
            pattern_found: self.pattern_found || !all_zero(window),
            ended: self.ended || window.len() == 0,
        }
    }

    /// The state after the windows were read, one after another.
    pub open spec fn fed_all(self, windows: Seq<Seq<u8>>) -> ScanState
        decreases windows.len(),
    {
        if windows.len() == 0 {
            self
        } else {
            self.fed_all(windows.drop_last()).fed(windows.last())
        }
    }

    pub open spec fn outcome(self) -> VerifyOutcome {
        if self.pattern_found {
            VerifyOutcome::PatternFound
        } else {
            VerifyOutcome::OnlyZeros
        }
    }
}

/// The bytes of the windows, joined in order.
pub open spec fn joined(windows: Seq<Seq<u8>>) -> Seq<u8>
    decreases windows.len(),
{
    if windows.len() == 0 {
        Seq::empty()
    } else {
        joined(windows.drop_last()) + windows.last()
    }
}

/// A scan reports a pattern exactly when one of the bytes it was given is
/// not zero, and it has counted every byte it was given.
pub proof fn lemma_scan_finds_pattern(file_size: nat, windows: Seq<Seq<u8>>)
    ensures
        ScanState::start(file_size).fed_all(windows).pattern_found == !all_zero(joined(windows)),
        ScanState::start(file_size).fed_all(windows).bytes_read == joined(windows).len(),
    decreases windows.len(),
{
    if windows.len() > 0 {
        lemma_scan_finds_pattern(file_size, windows.drop_last());
        lemma_windows_compose(0, joined(windows.drop_last()), windows.last(), None);
    }
}

/// The search for a byte other than zero in a file that is read back
/// window by window.
pub struct ZeroScan {
    file_size: u64,
    bytes_read: u64,
    pattern_found: bool,
    ended: bool,
}

impl View for ZeroScan {
    type V = ScanState;

    closed spec fn view(&self) -> ScanState {
        ScanState {
            file_size: self.file_size as nat,
            bytes_read: self.bytes_read as nat,
            pattern_found: self.pattern_found,
            ended: self.ended,
        }
    }
}

impl ZeroScan {
    pub fn new(file_size: u64) -> (scan: Self)
        ensures
            scan@ == ScanState::start(file_size as nat),
    {
        ZeroScan { file_size, bytes_read: 0, pattern_found: false, ended: false }
    }

    /// The number of bytes to read next; 0 when the scan is over.
    pub fn next_read_size(&self) -> (size: usize)
        ensures
            size == self@.next_read_size(),
    {
        if self.pattern_found || self.ended {
            0
        } else {
            ReadbackVerifier::next_read_size(self.file_size, self.bytes_read)
        }
    }

    /// Takes in what a read returned. The read was asked for
    /// `next_read_size` bytes and cannot have returned more.
    pub fn feed(&mut self, window: &[u8])
        requires
            window@.len() <= old(self)@.next_read_size(),
        ensures
            final(self)@ == old(self)@.fed(window@),
    {
        let zeros = ReadbackVerifier.verify_window(self.bytes_read, window, None);
        if !zeros {
            self.pattern_found = true;
        }
        if window.len() == 0 {
            self.ended = true;
        }
        self.bytes_read = self.bytes_read + window.len() as u64;
    }

    /// What the scan came to.
    pub fn outcome(&self) -> (outcome: VerifyOutcome)
        ensures
            outcome == self@.outcome(),
    {
        if self.pattern_found {
            VerifyOutcome::PatternFound
        } else {
            VerifyOutcome::OnlyZeros
        }
    }
}

impl FileWiper {
    /// Begins a streamed pass over a file of `file_size` bytes, in blocks
    /// of the size that suits the medium best.
    pub fn wipe_pass(&self, file_size: u64) -> (cursor: PassCursor)
        requires
            self.storage().optimal_block_size() > 0,
        ensures
            cursor@ == CursorState::start(
                file_size as nat,
                self.storage().optimal_block_size() as nat,
            ),
    {
        PassCursor::new(file_size, self.storage_type.get_optimal_block_size())
    }

    /// The chunk size of the parallel writer: sixteen blocks of the medium,
    /// or `None` where that number does not fit the machine.
    pub fn parallel_chunk_size(&self) -> (size: Option<usize>)
        ensures
            size == if self.storage().optimal_block_size() * CHUNK_BLOCKS <= usize::MAX {
                Some((self.storage().optimal_block_size() * CHUNK_BLOCKS) as usize)
            } else {
                None
            },
    {
        self.storage_type.get_optimal_block_size().checked_mul(CHUNK_BLOCKS)
    }

    /// Splits a parallel pass over a file of `file_size` bytes into the
    /// chunks that its tasks write.
    pub fn async_wipe_pass(&self, file_size: u64, async_wiper: &AsyncWiper) -> (chunks: Vec<Chunk>)
        requires
            0 < self.storage().optimal_block_size() * CHUNK_BLOCKS <= usize::MAX,
            chunk_count(
                file_size as nat,
                (self.storage().optimal_block_size() * CHUNK_BLOCKS) as nat,
            ) <= usize::MAX,
        ensures
            is_chunk_plan(
                chunks@,
                file_size as nat,
                (self.storage().optimal_block_size() * CHUNK_BLOCKS) as nat,
            ),
    {
        let chunk_size = self.storage_type.get_optimal_block_size() * CHUNK_BLOCKS;
        async_wiper.parallel_wipe(file_size, chunk_size)
    }

    /// Begins a streamed pass like `wipe_pass`, or returns `None` where
    /// the medium reports a block size of zero, with which no pass would
    /// ever end.
    pub fn try_wipe_pass(&self, file_size: u64) -> (cursor: Option<PassCursor>)
        ensures
            cursor is Some <==> self.storage().optimal_block_size() > 0,
            cursor matches Some(begun) ==> begun@ == CursorState::start(
                file_size as nat,
                self.storage().optimal_block_size() as nat,
            ),
    {
        if self.storage_type.get_optimal_block_size() > 0 {
            Some(self.wipe_pass(file_size))
        } else {
            None
        }
    }

    /// Splits a parallel pass like `async_wipe_pass`, or returns `None`
    /// where the chunk size is zero or does not fit the machine, or where
    /// the file has more chunks than the machine can count.
    pub fn try_async_wipe_pass(&self, file_size: u64, async_wiper: &AsyncWiper) -> (chunks: Option<
        Vec<Chunk>,
    >)
        ensures
            chunks is Some <==> {
                &&& 0 < self.storage().optimal_block_size() * CHUNK_BLOCKS <= usize::MAX
                &&& chunk_count(
                    file_size as nat,
                    (self.storage().optimal_block_size() * CHUNK_BLOCKS) as nat,
                ) <= usize::MAX
            },
            chunks matches Some(plan) ==> is_chunk_plan(
                plan@,
                file_size as nat,
                (self.storage().optimal_block_size() * CHUNK_BLOCKS) as nat,
            ),
    {
        let chunk_size = match self.parallel_chunk_size() {
            Some(size) => size,
            None => {
                return None;
            },
        };
        if chunk_size == 0 {
            return None;
        }
        let whole = file_size / (chunk_size as u64);
        let count = if file_size % (chunk_size as u64) == 0 {
            Some(whole)
        } else {
            whole.checked_add(1)
        };
        match count {
            Some(number) => {
                if number <= usize::MAX as u64 {
                    Some(self.async_wipe_pass(file_size, async_wiper))
                } else {
                    None
                }
            },
            None => None,
        }
    }

    /// The medium that the wiper writes to.
    pub fn storage_type(&self) -> (storage: StorageType)
        ensures
            storage == self.storage(),
    {
        self.storage_type
    }

    /// The configuration that the wiper works under.
    pub fn config(&self) -> (config: AmaterasuConfig)
        ensures
            config == self.settings(),
    {
        self.config
    }

    /// Begins reading the file back after the last pass.
    pub fn verify_wipe(&self, file_size: u64) -> (scan: ZeroScan)
        ensures
            scan@ == ScanState::start(file_size as nat),
    {
        ZeroScan::new(file_size)
    }
}

} // verus!
