//! The byte patterns a pass can write, and the sequence of passes that
//! makes one wipe.

use vstd::prelude::*;
use rand_chacha::ChaCha20Rng;

pub mod random;

use crate::filesystem::FilesystemOptimizer;
use crate::filesystem::FilesystemType;
use crate::storage::StorageType;
use crate::WipeMode;
use random::fill_random;
use random::seed_from_os;

verus! {

/// Why a pattern could not be made.
#[derive(Debug, Clone, Copy, PartialEq, Eq, Structural)]
pub enum PatternError {
    /// The operating system could not supply entropy for a seed.
    EntropyUnavailable,
}

/// A source of bytes for one pass.
pub trait PatternGenerator {
    /// Fills the whole buffer; it keeps its length.
    fn generate(&mut self, buffer: &mut [u8])
        ensures
            final(buffer)@.len() == old(buffer)@.len(),
    ;

    /// A stable name for progress messages.
    fn name(&self) -> &'static str;
}

/// What a pattern writes, without the state of its generator.
#[derive(Debug, Clone, Copy, PartialEq, Eq, Structural)]
pub enum PatternKind {
    Random,
    Fixed(u8),
    Zeros,
    Ones,
}

impl PatternKind {
    /// The byte that fills every position, where the pattern has one.
    pub open spec fn fill_byte(self) -> Option<u8> {
        match self {
            PatternKind::Random => None,
            PatternKind::Fixed(byte) => Some(byte),
            PatternKind::Zeros => Some(0x00),
            PatternKind::Ones => Some(0xFF),
        }
    }

    /// The name shown in progress messages.
    pub open spec fn name(self) -> Seq<char> {
        match self {
            PatternKind::Random => "random"@,
            PatternKind::Fixed(byte) => if byte == 0x55 {
                "0x55"@
            } else if byte == 0xAA {
                "0xAA"@
            } else {
                "fixed"@
            },
            PatternKind::Zeros => "zeros"@,
            PatternKind::Ones => "ones"@,
        }
    }
}

impl PatternKind {
    /// The name shown in progress messages and written in configuration
    /// files.
    pub fn label(&self) -> (label: &'static str)
        ensures
            label@ == self.name(),
    {
        match self {
            PatternKind::Random => "random",
            PatternKind::Fixed(byte) => {
                if *byte == 0x55 {
                    "0x55"
                } else if *byte == 0xAA {
                    "0xAA"
                } else {
                    "fixed"
                }
            },
            PatternKind::Zeros => "zeros",
            PatternKind::Ones => "ones",
        }
    }
}

/// A pattern ready to fill buffers.
pub enum WipePattern {
    /// Unpredictable bytes from a generator with its own seed.
    Random(ChaCha20Rng),
    Fixed(u8),
    Zeros,
    Ones,
}

/// A sequence of `n` bytes that are all `byte`.
pub open spec fn repeated(byte: u8, n: nat) -> Seq<u8> {
    Seq::new(n, |i: int| byte)
}

fn fill_with(buffer: &mut [u8], byte: u8)
    ensures
        final(buffer)@ == repeated(byte, old(buffer)@.len()),
{
    let n = buffer.len();
    let mut i: usize = 0;
    while i < n
        invariant
            n == buffer@.len(),
            buffer@.len() == old(buffer)@.len(),
            i <= n,
            forall|j: int| 0 <= j < i ==> buffer@[j] == byte,
        decreases n - i,
    {
        buffer[i] = byte;
        i += 1;
    }
}

impl WipePattern {
    pub open spec fn kind(&self) -> PatternKind {
        match *self {
            WipePattern::Random(_) => PatternKind::Random,
            WipePattern::Fixed(byte) => PatternKind::Fixed(byte),
            WipePattern::Zeros => PatternKind::Zeros,
            WipePattern::Ones => PatternKind::Ones,
        }
    }

    /// Fills the whole buffer. A pattern with a fill byte writes that byte
    /// to every position and is itself unchanged; the random pattern
    /// advances its generator.
    pub fn generate(&mut self, buffer: &mut [u8])
        ensures
            final(buffer)@.len() == old(buffer)@.len(),
            final(self).kind() == old(self).kind(),
            old(self).kind().fill_byte() matches Some(byte) ==> {
                &&& final(buffer)@ == repeated(byte, old(buffer)@.len())
                &&& *final(self) == *old(self)
            },
    {
        match self {
            WipePattern::Random(rng) => fill_random(rng, buffer),
            WipePattern::Fixed(byte) => fill_with(buffer, *byte),
            WipePattern::Zeros => fill_with(buffer, 0x00),
            WipePattern::Ones => fill_with(buffer, 0xFF),
        }
    }

    pub fn name(&self) -> (name: &'static str)
        ensures
            name@ == self.kind().name(),
    {
        match self {
            WipePattern::Random(_) => "random",
            WipePattern::Fixed(byte) => {
                if *byte == 0x55 {
                    "0x55"
                } else if *byte == 0xAA {
                    "0xAA"
                } else {
                    "fixed"
                }
            },
            WipePattern::Zeros => "zeros",
            WipePattern::Ones => "ones",
        }
    }

    /// The pattern of `kind`, with `seeded` as its generator where it is
    /// random. It fails exactly when a generator is needed and `seeded`
    /// holds none.
    pub fn from_kind(kind: PatternKind, seeded: Result<ChaCha20Rng, rand::Error>) -> (pattern:
        Result<WipePattern, PatternError>)
        ensures
            pattern is Ok <==> (kind != PatternKind::Random || seeded is Ok),
            pattern matches Ok(p) ==> p.kind() == kind,
            pattern matches Ok(p) ==> (kind == PatternKind::Random ==> p == WipePattern::Random(
                seeded->Ok_0,
            )),
            pattern matches Err(e) ==> e == PatternError::EntropyUnavailable,
    {
        match kind {
            PatternKind::Random => match seeded {
                Ok(rng) => Ok(WipePattern::Random(rng)),
                Err(_) => Err(PatternError::EntropyUnavailable),
            },
            PatternKind::Fixed(byte) => Ok(WipePattern::Fixed(byte)),
            PatternKind::Zeros => Ok(WipePattern::Zeros),
            PatternKind::Ones => Ok(WipePattern::Ones),
        }
    }

    /// A pattern of the given kind. A random one draws a fresh seed from the
    /// operating system, so only it can fail.
    pub fn of_kind(kind: PatternKind) -> (pattern: Result<WipePattern, PatternError>)
        ensures
            kind != PatternKind::Random ==> pattern is Ok,
            pattern matches Ok(p) ==> p.kind() == kind,
            pattern matches Err(e) ==> e == PatternError::EntropyUnavailable,
    {
        match kind {
            PatternKind::Random => WipePattern::from_kind(kind, seed_from_os()),
            PatternKind::Fixed(byte) => Ok(WipePattern::Fixed(byte)),
            PatternKind::Zeros => Ok(WipePattern::Zeros),
            PatternKind::Ones => Ok(WipePattern::Ones),
        }
    }

    /// A second pattern of the same kind for another writer. The copy of a
    /// random pattern does not share its state: it is seeded anew from the
    /// operating system, so the two streams are unrelated.
    pub fn try_clone(&self) -> (copy: Result<WipePattern, PatternError>)
        ensures
            self.kind() != PatternKind::Random ==> copy is Ok,
            copy matches Ok(p) ==> p.kind() == self.kind(),
            copy matches Err(e) ==> e == PatternError::EntropyUnavailable,
    {
        match self {
            WipePattern::Random(_) => WipePattern::of_kind(PatternKind::Random),
            WipePattern::Fixed(byte) => Ok(WipePattern::Fixed(*byte)),
            WipePattern::Zeros => Ok(WipePattern::Zeros),
            WipePattern::Ones => Ok(WipePattern::Ones),
        }
    }
}

/// A random pattern with a fresh seed.
pub fn create_random_generator() -> (pattern: Result<WipePattern, PatternError>)
    ensures
        pattern matches Ok(p) ==> p.kind() == PatternKind::Random,
        pattern matches Err(e) ==> e == PatternError::EntropyUnavailable,
{
    WipePattern::of_kind(PatternKind::Random)
}

/// The passes that a mode is made of.
pub open spec fn mode_sequence(mode: WipeMode) -> Seq<PatternKind> {
    match mode {
        WipeMode::Fast => seq![PatternKind::Random],
        WipeMode::Standard => seq![PatternKind::Random, PatternKind::Zeros, PatternKind::Random],
        WipeMode::Paranoid => seq![
            PatternKind::Random,
            PatternKind::Fixed(0x55),
            PatternKind::Fixed(0xAA),
            PatternKind::Random,
            PatternKind::Ones,
            PatternKind::Zeros,
            PatternKind::Random,
        ],
    }
}

/// The fewest passes a mode may ever be cut down to.
pub open spec fn mode_minimum(mode: WipeMode) -> nat {
    match mode {
        WipeMode::Fast => 1,
        WipeMode::Standard => 1,
        WipeMode::Paranoid => 3,
    }
}

/// The number of passes a filesystem insists on: what its optimizer
/// recommends where it copies on write, nothing otherwise.
pub open spec fn pass_floor(filesystem: FilesystemType) -> nat {
    if filesystem is Btrfs || filesystem is Zfs {
        filesystem.optimizer().recommended_passes() as nat
    } else {
        0
    }
}

/// The passes of one wipe: those of the mode, followed by as many random
/// passes as the filesystem's floor still lacks. No pass is dropped for any
/// medium.
pub open spec fn selected_sequence(
    mode: WipeMode,
    storage: StorageType,
    filesystem: FilesystemType,
) -> Seq<PatternKind> {
    let base = mode_sequence(mode);
    if pass_floor(filesystem) > base.len() {
        base + Seq::new((pass_floor(filesystem) - base.len()) as nat, |i: int| PatternKind::Random)
    } else {
        base
    }
}

/// What holds of every wipe, whatever the mode, the medium and the
/// filesystem: it begins with the passes of its mode and drops none of
/// them, so it is never empty and never shorter than the minimum of the
/// mode; it reaches the floor of the filesystem; and its last pass is
/// random.
pub proof fn lemma_selected_sequence_bounds(
    mode: WipeMode,
    storage: StorageType,
    filesystem: FilesystemType,
)
    ensures
        ({
            let passes = selected_sequence(mode, storage, filesystem);
            &&& passes.len() >= mode_sequence(mode).len()
            &&& passes.len() >= mode_minimum(mode)
            &&& passes.len() >= 1
            &&& passes.len() >= pass_floor(filesystem)
            &&& passes.subrange(0, mode_sequence(mode).len() as int) == mode_sequence(mode)
            &&& passes.last() == PatternKind::Random
        }),
{
    let passes = selected_sequence(mode, storage, filesystem);
    let base = mode_sequence(mode);
    assert(base.len() >= mode_minimum(mode));
    assert(base.last() == PatternKind::Random);
    assert(passes.subrange(0, base.len() as int) =~= base);
}

/// The kinds of a sequence of patterns, in order.
pub open spec fn kinds_of(patterns: Seq<WipePattern>) -> Seq<PatternKind> {
    Seq::new(patterns.len(), |i: int| patterns[i].kind())
}

/// The kinds of the passes of a mode.
pub fn mode_pattern_kinds(mode: WipeMode) -> (kinds: Vec<PatternKind>)
    ensures
        kinds@ == mode_sequence(mode),
{
    let mut kinds: Vec<PatternKind> = Vec::new();
    match mode {
        WipeMode::Fast => {
            kinds.push(PatternKind::Random);
        },
        WipeMode::Standard => {
            kinds.push(PatternKind::Random);
            kinds.push(PatternKind::Zeros);
            kinds.push(PatternKind::Random);
        },
        WipeMode::Paranoid => {
            kinds.push(PatternKind::Random);
            kinds.push(PatternKind::Fixed(0x55));
            kinds.push(PatternKind::Fixed(0xAA));
            kinds.push(PatternKind::Random);
            kinds.push(PatternKind::Ones);
            kinds.push(PatternKind::Zeros);
            kinds.push(PatternKind::Random);
        },
    }
    assert(kinds@ =~= mode_sequence(mode));
    kinds
}

/// Chooses the kinds of the passes for a file on the given medium and
/// filesystem.
pub fn select_pattern_kinds(
    mode: WipeMode,
    storage: &StorageType,
    filesystem: &FilesystemType,
) -> (kinds: Vec<PatternKind>)
    ensures
        kinds@ == selected_sequence(mode, *storage, *filesystem),
{
    let mut kinds = mode_pattern_kinds(mode);
    if filesystem.supports_cow() {
        let floor = filesystem.get_optimizer().get_recommended_passes();
        let ghost base = kinds@;
        assert(kinds@ =~= base + Seq::new(0, |i: int| PatternKind::Random));
        while kinds.len() < floor
            invariant
                base.len() <= kinds@.len(),
                kinds@.len() <= floor || kinds@.len() == base.len(),
                kinds@ == base + Seq::new(
                    (kinds@.len() - base.len()) as nat,
                    |i: int| PatternKind::Random,
                ),
            decreases floor - kinds.len(),
        {
            kinds.push(PatternKind::Random);
            assert(kinds@ =~= base + Seq::new(
                (kinds@.len() - base.len()) as nat,
                |i: int| PatternKind::Random,
            ));
        }
        assert(kinds@ =~= selected_sequence(mode, *storage, *filesystem));
    }
    kinds
}

/// Makes a pattern of each kind, in order. It fails when a random pattern
/// cannot be seeded, and on no sequence without a random pattern.
pub fn instantiate_patterns(kinds: &Vec<PatternKind>) -> (patterns: Result<
    Vec<WipePattern>,
    PatternError,
>)
    ensures
        (forall|i: int| 0 <= i < kinds@.len() ==> kinds@[i] != PatternKind::Random)
            ==> patterns is Ok,
        patterns matches Ok(made) ==> kinds_of(made@) == kinds@,
        patterns matches Err(e) ==> e == PatternError::EntropyUnavailable,
{
    let mut made: Vec<WipePattern> = Vec::new();
    let mut i: usize = 0;
    while i < kinds.len()
        invariant
            i <= kinds@.len(),
            made@.len() == i,
            forall|j: int| 0 <= j < i ==> made@[j].kind() == kinds@[j],
        decreases kinds@.len() - i,
    {
        match WipePattern::of_kind(kinds[i]) {
            Ok(pattern) => made.push(pattern),
            Err(e) => {
                return Err(e);
            },
        }
        i += 1;
    }
    assert(kinds_of(made@) =~= kinds@);
    Ok(made)
}

/// The patterns of a mode, each random one with its own seed.
pub fn create_pattern_sequence(mode: &WipeMode) -> (patterns: Result<
    Vec<WipePattern>,
    PatternError,
>)
    ensures
        patterns matches Ok(made) ==> kinds_of(made@) == mode_sequence(*mode),
        patterns matches Err(e) ==> e == PatternError::EntropyUnavailable,
{
    let kinds = mode_pattern_kinds(*mode);
    instantiate_patterns(&kinds)
}

/// The patterns of one wipe of a file on the given medium and filesystem.
pub fn create_storage_aware_pattern_sequence(
    mode: &WipeMode,
    storage: &StorageType,
    filesystem: &FilesystemType,
) -> (patterns: Result<Vec<WipePattern>, PatternError>)
    ensures
        patterns matches Ok(made) ==> kinds_of(made@) == selected_sequence(
            *mode,
            *storage,
            *filesystem,
        ),
        patterns matches Err(e) ==> e == PatternError::EntropyUnavailable,
{
    let kinds = select_pattern_kinds(*mode, storage, filesystem);
    instantiate_patterns(&kinds)
}

} // verus!
