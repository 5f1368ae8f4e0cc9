//! Secure file deletion: the overwrite engine and the rules around it.
//!
//! The library decides what is written, in which order, and what a failure
//! means. Reading and writing files, running external tools and drawing
//! progress are left to the caller, which hands in plain values and carries
//! out the steps the library returns.

use vstd::prelude::*;

pub mod config;
pub mod filesystem;
pub mod io;
pub mod patterns;
pub mod security;
pub mod storage;
pub mod text;

use filesystem::FilesystemType;
use io::run::WipeError;
use io::FileWiper;
use io::WipePlan;
use patterns::kinds_of;
use patterns::selected_sequence;
use storage::detector::detect_storage_type;
use storage::detector::device_name_of;
use storage::detector::major_of;
use storage::detector::minor_of;
use storage::detector::storage_of;
use storage::detector::SysfsQueue;

verus! {

/// How thoroughly a file is overwritten.
#[derive(Debug, Clone, Copy, PartialEq, Eq, Structural)]
pub enum WipeMode {
    /// One pass.
    Fast,
    /// Three passes.
    Standard,
    /// Seven passes.
    Paranoid,
}

/// Settings of one run. They do not change while the run lasts.
#[derive(Debug, Clone, Copy, PartialEq, Eq, Structural)]
pub struct AmaterasuConfig {
    /// Read the file back after the last pass.
    pub verify: bool,
    /// Report progress to the sink.
    pub progress: bool,
    /// Go on with the next path when one path fails.
    pub force: bool,
    pub mode: WipeMode,
    /// Scrub timestamps, attributes and name before the file is removed.
    pub wipe_metadata: bool,
    /// How often the file is renamed before it is removed.
    pub metadata_passes: usize,
}

impl Default for AmaterasuConfig {
    fn default() -> (config: Self)
        ensures
            config == (AmaterasuConfig {
                verify: true,
                progress: true,
                force: false,
                mode: WipeMode::Standard,
                wipe_metadata: true,
                metadata_passes: 3,
            }),
    {
        AmaterasuConfig {
            verify: true,
            progress: true,
            force: false,
            mode: WipeMode::Standard,
            wipe_metadata: true,
            metadata_passes: 3,
        }
    }
}

/// What a path given on the command line is.
#[derive(Debug, Clone, Copy, PartialEq, Eq, Structural)]
pub enum PathKind {
    File,
    Directory,
    /// It does not exist, or is neither file nor directory.
    Other,
}

/// What is done with a path given on the command line.
#[derive(Debug, Clone, Copy, PartialEq, Eq, Structural)]
pub enum Collected {
    /// The file is wiped.
    Take,
    /// Every file below the directory is wiped.
    Expand,
    /// The directory is left alone, with a warning.
    WarnDirectory,
    /// The path is left alone, with a warning.
    WarnMissing,
    /// The path is left alone.
    Skip,
}

/// How a batch goes on after the wipe of one path.
#[derive(Debug, Clone, Copy, PartialEq, Eq, Structural)]
pub enum BatchStep {
    Continue,
    /// The failure is reported and the next path is wiped.
    WarnAndContinue,
    /// The batch ends with the failure.
    Abort,
}

/// Whether `order` lists every position of `depths` once, deepest first.
pub open spec fn is_removal_order(order: Seq<usize>, depths: Seq<usize>) -> bool {
    &&& order.len() == depths.len()
    &&& forall|i: int| 0 <= i < order.len() ==> (#[trigger] order[i]) < depths.len()
    &&& forall|i: int, j: int| 0 <= i < j < order.len() ==> order[i] != order[j]
    &&& forall|k: int| 0 <= k < depths.len() ==> #[trigger] order.contains(k as usize)
    &&& forall|i: int, j: int|
        0 <= i < j < order.len() ==> depths[order[i] as int] >= depths[order[j] as int]
}

/// The secure deletion of files under one configuration.
pub struct Amaterasu {
    config: AmaterasuConfig,
}

impl Amaterasu {
    pub closed spec fn settings(&self) -> AmaterasuConfig {
        self.config
    }

    pub fn new(config: AmaterasuConfig) -> (amaterasu: Self)
        ensures
            amaterasu.settings() == config,
    {
        Amaterasu { config }
    }

    /// What is done with a path of this kind: a file is taken, a directory
    /// is expanded if the run is recursive, and anything else is left
    /// alone, with a warning unless the run is forced.
    pub open spec fn collected(self, kind: PathKind, recursive: bool) -> Collected {
        match kind {
            PathKind::File => Collected::Take,
            PathKind::Directory => if recursive {
                Collected::Expand
            } else if !self.settings().force {
                Collected::WarnDirectory
            } else {
                Collected::Skip
            },
            PathKind::Other => if !self.settings().force {
                Collected::WarnMissing
            } else {
                Collected::Skip
            },
        }
    }

    /// Decides for each path of the command line what is done with it.
    pub fn collect_files(&self, kinds: &Vec<PathKind>, recursive: bool) -> (decisions: Vec<
        Collected,
    >)
        ensures
            decisions@.len() == kinds@.len(),
            forall|i: int|
                0 <= i < kinds@.len() ==> decisions@[i] == self.collected(kinds@[i], recursive),
    {
        let mut decisions: Vec<Collected> = Vec::new();
        let mut i: usize = 0;
        while i < kinds.len()
            invariant
                i <= kinds@.len(),
                decisions@.len() == i,
                forall|j: int| 0 <= j < i ==> decisions@[j] == self.collected(kinds@[j], recursive),
            decreases kinds@.len() - i,
        {
            let decision = match kinds[i] {
                PathKind::File => Collected::Take,
                PathKind::Directory => if recursive {
                    Collected::Expand
                } else if !self.config.force {
                    Collected::WarnDirectory
                } else {
                    Collected::Skip
                },
                PathKind::Other => if !self.config.force {
                    Collected::WarnMissing
                } else {
                    Collected::Skip
                },
            };
            decisions.push(decision);
            i += 1;
        }
        decisions
    }

    /// How the batch goes on after the wipe of one path: a failure ends it
    /// unless the run is forced.
    pub fn wipe_files(&self, succeeded: bool) -> (step: BatchStep)
        ensures
            step == if succeeded {
                BatchStep::Continue
            } else if self.settings().force {
                BatchStep::WarnAndContinue
            } else {
                BatchStep::Abort
            },
    {
        if succeeded {
            BatchStep::Continue
        } else if self.config.force {
            BatchStep::WarnAndContinue
        } else {
            BatchStep::Abort
        }
    }

    /// The order in which the directories of the wiped files are looked at
    /// for removal once the batch is over: deepest first, so that a
    /// directory is emptied of its empty subdirectories before its turn
    /// comes. `depths` holds the number of components of each directory;
    /// the result lists their positions.
    pub fn cleanup_empty_directories(&self, depths: &Vec<usize>) -> (order: Vec<usize>)
        ensures
            is_removal_order(order@, depths@),
    {
        let mut order: Vec<usize> = Vec::new();
        let mut next: usize = 0;
        while next < depths.len()
            invariant
                next <= depths@.len(),
                order@.len() == next,
                forall|i: int| 0 <= i < order@.len() ==> (#[trigger] order@[i]) < next,
                forall|i: int, j: int| 0 <= i < j < order@.len() ==> order@[i] != order@[j],
                forall|k: int| 0 <= k < next ==> #[trigger] order@.contains(k as usize),
                forall|i: int, j: int|
                    0 <= i < j < order@.len() ==> depths@[order@[i] as int] >= depths@[order@[j]
                        as int],
            decreases depths@.len() - next,
        {
            let depth = depths[next];
            let mut place: usize = 0;
            while place < order.len() && depths[order[place]] >= depth
                invariant
                    place <= order@.len(),
                    order@.len() == next,
                    next < depths@.len(),
                    depth == depths@[next as int],
                    forall|i: int| 0 <= i < order@.len() ==> (#[trigger] order@[i]) < next,
                    forall|i: int| 0 <= i < place ==> depths@[order@[i] as int] >= depth,
                decreases order@.len() - place,
            {
                place += 1;
            }
            let ghost before = order@;
            order.insert(place, next);
            proof {
                let after = order@;
                before.insert_ensures(place as int, next);
                assert forall|i: int| 0 <= i < after.len() implies (#[trigger] after[i]) < next
                    + 1 by {
                    if i < place {
                        assert(after[i] == before[i]);
                    } else if i > place {
                        assert(after[i] == before[i - 1]);
                    }
                }
                assert forall|i: int, j: int| 0 <= i < j < after.len() implies after[i]
                    != after[j] by {
                    let a = if i < place {
                        i
                    } else {
                        i - 1
                    };
                    let b = if j < place {
                        j
                    } else {
                        j - 1
                    };
                    if i != place && j != place {
                        assert(after[i] == before[a]);
                        assert(after[j] == before[b]);
                    } else if i == place {
                        assert(after[j] == before[b]);
                    } else {
                        assert(after[i] == before[a]);
                    }
                }
                assert forall|k: int| 0 <= k < next + 1 implies #[trigger] after.contains(
                    k as usize,
                ) by {
                    if k == next {
                        assert(after[place as int] == next);
                    } else {
                        assert(before.contains(k as usize));
                        let at = choose|at: int| 0 <= at < before.len() && before[at] == k as usize;
                        if at < place {
                            assert(after[at] == before[at]);
                        } else {
                            assert(after[at + 1] == before[at]);
                        }
                    }
                }
                assert forall|i: int, j: int| 0 <= i < j < after.len() implies depths@[after[i]
                    as int] >= depths@[after[j] as int] by {
                    let a = if i < place {
                        i
                    } else {
                        i - 1
                    };
                    let b = if j < place {
                        j
                    } else {
                        j - 1
                    };
                    if i != place {
                        assert(after[i] == before[a]);
                    }
                    if j != place {
                        assert(after[j] == before[b]);
                    }
                    if i == place && place < before.len() {
                        assert(depths@[before[place as int] as int] < depth);
                    }
                }
            }
            next += 1;
        }
        order
    }

    /// Plans the wipe of one file from what was found out about it: the
    /// device number of the path and its size, each `None` where the path
    /// could not be examined, the attribute files of its device, and its
    /// filesystem. A path that could not be examined is a path error.
    pub fn wipe_file(
        &self,
        dev: Option<u64>,
        queue: &SysfsQueue,
        file_size: Option<u64>,
        filesystem: FilesystemType,
    ) -> (plan: Result<WipePlan, WipeError>)
        ensures
            (dev is None || file_size is None) ==> plan == Err::<WipePlan, WipeError>(
                WipeError::PathError,
            ),
            (dev is Some && file_size == Some(0u64)) ==> plan is Ok,
            plan matches Err(e) ==> (e == WipeError::PathError && (dev is None || file_size
                is None)) || (e == WipeError::EntropyUnavailable && dev is Some && file_size is Some
                && file_size != Some(0u64)),
            plan matches Ok(made) ==> {
                let storage = storage_of(
                    device_name_of(major_of(dev->Some_0), minor_of(dev->Some_0)),
                    *queue,
                );
                &&& dev is Some
                &&& file_size is Some
                &&& FileWiper::plan_of(self.settings(), made, file_size->Some_0, filesystem)
                &&& kinds_of(made.patterns@) == if file_size == Some(0u64) {
                    Seq::empty()
                } else {
                    selected_sequence(self.settings().mode, storage, filesystem)
                }
            },
    {
        match detect_storage_type(dev, queue) {
            Ok(storage) => FileWiper::new(&storage, self.config).wipe(file_size, filesystem),
            Err(error) => Err(error),
        }
    }
}

} // verus!
