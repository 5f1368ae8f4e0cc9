//! Scrubbing what the directory entry tells about a file, before the file
//! is removed.

use vstd::prelude::*;
use vstd::string::StrSliceExecFns;
use vstd::string::StringExecFns;
use rand_chacha::ChaCha20Rng;
use crate::config::join_path;
use crate::config::joined_path;
use crate::io::run::ends_with_removal;
use crate::io::run::RunState;
use crate::io::run::WipeError;
use crate::io::run::WipeRun;
use crate::io::run::WipeStep;
use crate::patterns::random::random_below;
use crate::patterns::random::seed_from_os;
use crate::text::begins_with;
use crate::text::lines_of;
use crate::text::rows;
use crate::text::split_lines;

verus! {

/// The span from which a random timestamp is drawn, in seconds: about ten
/// years.
pub const TIMESTAMP_WINDOW: u64 = 315_360_000;

/// How the metadata of a file is scrubbed.
#[derive(Debug, Clone, Copy, PartialEq, Eq, Structural)]
pub struct MetadataWiper {
    /// How often the file is renamed.
    pub rename_iterations: usize,
    pub timestamp_randomization: bool,
    pub clear_extended_attributes: bool,
}

/// Which call removes an entity.
#[derive(Debug, Clone, Copy, PartialEq, Eq, Structural)]
pub enum Removal {
    File,
    Directory,
}

/// The letters and digits that random names are made of.
pub open spec fn name_alphabet() -> Seq<char> {
    "abcdefghijklmnopqrstuvwxyzABCDEFGHIJKLMNOPQRSTUVWXYZ0123456789"@
}

/// Whether a character is an ASCII letter or digit.
pub open spec fn is_name_char(c: char) -> bool {
    ('a' <= c && c <= 'z') || ('A' <= c && c <= 'Z') || ('0' <= c && c <= '9')
}

/// The length of the name that a rename gives: names get shorter from one
/// rename to the next.
pub open spec fn name_length(iteration: usize) -> nat {
    if iteration == 0 {
        16
    } else if iteration == 1 {
        8
    } else {
        1
    }
}

/// Whether `name` can be the name that the rename of this iteration gives.
pub open spec fn is_random_name(name: Seq<char>, iteration: usize) -> bool {
    &&& name.len() == name_length(iteration)
    &&& forall|i: int| 0 <= i < name.len() ==> is_name_char(#[trigger] name[i])
}

/// Whether `path` names an entry of `directory` under a name that the
/// rename of this iteration can give.
pub open spec fn is_rename_target(path: Seq<char>, directory: Seq<char>, iteration: usize) -> bool {
    exists|name: Seq<char>|
        #[trigger] is_random_name(name, iteration) && path == joined_path(directory, name)
}

/// A random name is one plain component of a path: it is not empty, holds
/// no separator, and is neither `.` nor `..`. The renamed file therefore
/// stays in the directory it was in.
pub proof fn lemma_random_name_stays_in_directory(name: Seq<char>, iteration: usize)
    requires
        is_random_name(name, iteration),
    ensures
        name.len() > 0,
        forall|i: int| 0 <= i < name.len() ==> name[i] != '/',
        name != seq!['.'],
        name != seq!['.', '.'],
{
    assert(is_name_char(name[0]));
    if name == seq!['.'] {
        assert(name[0] == '.');
    }
    if name == seq!['.', '.'] {
        assert(name[0] == '.');
    }
}

/// The target of a rename lies in the directory itself: its path begins
/// with the directory and names one entry below it, with no separator
/// further on. However often the file is renamed, it stays where it was.
pub proof fn lemma_rename_target_is_in_directory(
    path: Seq<char>,
    directory: Seq<char>,
    iteration: usize,
)
    requires
        is_rename_target(path, directory, iteration),
    ensures
        begins_with(path, directory),
        path.len() > directory.len(),
        forall|i: int| directory.len() < i < path.len() ==> path[i] != '/',
{
    let name = choose|name: Seq<char>|
        #[trigger] is_random_name(name, iteration) && path == joined_path(directory, name);
    lemma_random_name_stays_in_directory(name, iteration);
    assert(path.subrange(0, directory.len() as int) =~= directory);
    assert forall|i: int| directory.len() < i < path.len() implies path[i] != '/' by {
        if path.len() == directory.len() + name.len() {
            assert(path[i] == name[i - directory.len()]);
        } else {
            assert(path[i] == name[i - directory.len() - 1]);
        }
    }
}

/// Every scrub ends with the removal and removes nothing before, so a
/// scrub that ends well has removed the entity.
pub proof fn lemma_scrub_ends_with_removal(wiper: MetadataWiper)
    ensures
        ends_with_removal(wiper.steps()),
{
    let steps = wiper.steps();
    let head = (if wiper.timestamp_randomization {
        seq![WipeStep::RandomizeTimestamps]
    } else {
        Seq::empty()
    }) + (if wiper.clear_extended_attributes {
        seq![WipeStep::ClearExtendedAttributes]
    } else {
        Seq::empty()
    });
    let renames = Seq::new(
        wiper.rename_iterations as nat,
        |i: int| WipeStep::Rename { iteration: i as usize },
    );
    assert(steps == head + renames + seq![WipeStep::Unlink]);
    assert forall|i: int| 0 <= i < steps.len() implies (#[trigger] steps[i] is Unlink <==> i
        == steps.len() - 1) by {
        if i < head.len() {
            assert(steps[i] == head[i]);
        } else if i < steps.len() - 1 {
            assert(steps[i] == renames[i - head.len()]);
        }
    }
}

/// Whether a line of an attribute listing names an attribute: it is not
/// empty and is no comment.
pub open spec fn names_attribute(line: Seq<u8>) -> bool {
    line.len() > 0 && line[0] != 0x23
}

/// The lines among the first `count` of `lines` that name an attribute, in
/// order.
pub open spec fn attribute_lines(lines: Seq<Seq<u8>>, count: nat) -> Seq<Seq<u8>>
    decreases count,
{
    if count == 0 || count > lines.len() {
        Seq::empty()
    } else if names_attribute(lines[count - 1]) {
        attribute_lines(lines, (count - 1) as nat).push(lines[count - 1])
    } else {
        attribute_lines(lines, (count - 1) as nat)
    }
}

/// The names of the extended attributes in a listing that holds one name
/// to a line, between comment lines that begin with `#` and empty lines.
pub open spec fn attribute_names_in(listing: Seq<u8>) -> Seq<Seq<u8>> {
    attribute_lines(lines_of(listing), lines_of(listing).len())
}

impl Default for MetadataWiper {
    fn default() -> (wiper: Self)
        ensures
            wiper == (MetadataWiper {
                rename_iterations: 3,
                timestamp_randomization: true,
                clear_extended_attributes: true,
            }),
    {
        MetadataWiper {
            rename_iterations: 3,
            timestamp_randomization: true,
            clear_extended_attributes: true,
        }
    }
}

impl MetadataWiper {
    pub fn new(rename_iterations: usize) -> (wiper: Self)
        ensures
            wiper == (MetadataWiper {
                rename_iterations,
                timestamp_randomization: true,
                clear_extended_attributes: true,
            }),
    {
        MetadataWiper {
            rename_iterations,
            timestamp_randomization: true,
            clear_extended_attributes: true,
        }
    }

    /// The steps of the scrub in order: the timestamps and the attributes
    /// where they are enabled, the renames, and the removal.
    pub open spec fn steps(self) -> Seq<WipeStep> {
        (if self.timestamp_randomization {
            seq![WipeStep::RandomizeTimestamps]
        } else {
            Seq::empty()
        }) + (if self.clear_extended_attributes {
            seq![WipeStep::ClearExtendedAttributes]
        } else {
            Seq::empty()
        }) + Seq::new(
            self.rename_iterations as nat,
            |i: int| WipeStep::Rename { iteration: i as usize },
        ) + seq![WipeStep::Unlink]
    }

    /// The steps of the scrub, for a caller that runs them as part of a
    /// longer run.
    pub fn metadata_steps(&self) -> (steps: Vec<WipeStep>)
        ensures
            steps@ == self.steps(),
    {
        let mut steps: Vec<WipeStep> = Vec::new();
        if self.timestamp_randomization {
            steps.push(WipeStep::RandomizeTimestamps);
        }
        if self.clear_extended_attributes {
            steps.push(WipeStep::ClearExtendedAttributes);
        }
        let ghost head = steps@;
        let mut iteration: usize = 0;
        while iteration < self.rename_iterations
            invariant
                iteration <= self.rename_iterations,
                steps@ == head + Seq::new(
                    iteration as nat,
                    |i: int| WipeStep::Rename { iteration: i as usize },
                ),
            decreases self.rename_iterations - iteration,
        {
            steps.push(WipeStep::Rename { iteration });
            iteration += 1;
        }
        steps.push(WipeStep::Unlink);
        assert(steps@ =~= self.steps());
        steps
    }

    /// Begins the scrub of a file or directory: a run of the steps, in
    /// which only the removal has to succeed.
    pub fn wipe_metadata(&self) -> (run: WipeRun)
        ensures
            run@ == RunState::start(self.steps()),
    {
        WipeRun::new(self.metadata_steps())
    }

    /// Begins the scrub of a file whose content has been wiped.
    pub fn wipe_file_metadata(&self) -> (run: WipeRun)
        ensures
            run@ == RunState::start(self.steps()),
    {
        self.wipe_metadata()
    }

    /// Begins the scrub of a directory whose entries have been dealt with.
    pub fn wipe_directory_metadata(&self) -> (run: WipeRun)
        ensures
            run@ == RunState::start(self.steps()),
    {
        self.wipe_metadata()
    }

    /// The number of characters in the name that a rename gives.
    pub fn rename_length(iteration: usize) -> (length: usize)
        ensures
            length == name_length(iteration),
    {
        if iteration == 0 {
            16
        } else if iteration == 1 {
            8
        } else {
            1
        }
    }

    /// Draws the name for the rename of this iteration from `rng`.
    pub fn random_name_from(rng: &mut ChaCha20Rng, iteration: usize) -> (name: String)
        ensures
            is_random_name(name@, iteration),
    {
        let alphabet: &'static str =
            "abcdefghijklmnopqrstuvwxyzABCDEFGHIJKLMNOPQRSTUVWXYZ0123456789";
        proof {
            reveal_strlit("abcdefghijklmnopqrstuvwxyzABCDEFGHIJKLMNOPQRSTUVWXYZ0123456789");
        }
        let length = Self::rename_length(iteration);
        let mut name = String::new();
        let mut count: usize = 0;
        while count < length
            invariant
                count <= length,
                alphabet@ == name_alphabet(),
                alphabet@.len() == 62,
                alphabet.is_ascii(),
                forall|i: int| 0 <= i < 62 ==> is_name_char(#[trigger] name_alphabet()[i]),
                name@.len() == count,
                forall|i: int| 0 <= i < count ==> is_name_char(#[trigger] name@[i]),
            decreases length - count,
        {
            let index = random_below(rng, 62);
            let letter = alphabet.substring_ascii(index, index + 1);
            assert(letter@[0] == name_alphabet()[index as int]);
            name.append(letter);
            count += 1;
        }
        name
    }

    /// A fresh random name for the rename of this iteration. It fails only
    /// when the operating system cannot supply entropy.
    pub fn generate_random_name(&self, iteration: usize) -> (name: Result<String, WipeError>)
        ensures
            name matches Ok(text) ==> is_random_name(text@, iteration),
            name matches Err(e) ==> e == WipeError::EntropyUnavailable,
    {
        match seed_from_os() {
            Ok(mut rng) => Ok(Self::random_name_from(&mut rng, iteration)),
            Err(_) => Err(WipeError::EntropyUnavailable),
        }
    }

    /// The path that the rename of this iteration moves the file to: a
    /// fresh random name in `directory`, the directory that holds the file.
    /// It fails only when the operating system cannot supply entropy.
    pub fn rename_target(&self, directory: &str, iteration: usize) -> (target: Result<
        String,
        WipeError,
    >)
        ensures
            target matches Ok(path) ==> is_rename_target(path@, directory@, iteration),
            target matches Err(e) ==> e == WipeError::EntropyUnavailable,
    {
        match self.generate_random_name(iteration) {
            Ok(name) => {
                let path = join_path(String::from_str(directory), name.as_str());
                assert(path@ == joined_path(directory@, name@));
                Ok(path)
            },
            Err(error) => Err(error),
        }
    }

    /// The instant that lies `offset` seconds before `now`, or the epoch
    /// where that would lie before it. Both are seconds since the epoch.
    pub fn timestamp_before(now: u64, offset: u64) -> (instant: u64)
        ensures
            instant == if offset <= now {
                now - offset
            } else {
                0
            },
    {
        if offset <= now {
            now - offset
        } else {
            0
        }
    }

    /// An instant drawn at random from the ten years before `now`, for the
    /// access and modification time of the file. It fails only when the
    /// operating system cannot supply entropy.
    pub fn randomize_timestamps(&self, now: u64) -> (instant: Result<u64, WipeError>)
        ensures
            instant matches Ok(t) ==> t <= now && now - t < TIMESTAMP_WINDOW,
            instant matches Err(e) ==> e == WipeError::EntropyUnavailable,
    {
        match seed_from_os() {
            Ok(mut rng) => {
                let offset = random_below(&mut rng, 315_360_000);
                Ok(Self::timestamp_before(now, offset as u64))
            },
            Err(_) => Err(WipeError::EntropyUnavailable),
        }
    }

    /// The extended attributes to remove, one by one, given the listing of
    /// the attributes of the file.
    pub fn clear_extended_attributes(&self, listing: &[u8]) -> (names: Vec<Vec<u8>>)
        ensures
            rows(names@) == attribute_names_in(listing@),
    {
        let lines = split_lines(listing);
        let ghost all = rows(lines@);
        let total = lines.len();
        let mut names: Vec<Vec<u8>> = Vec::new();
        let mut index: usize = 0;
        while index < total
            invariant
                index <= total,
                total == lines@.len(),
                rows(lines@) == all,
                rows(names@) == attribute_lines(all, index as nat),
            decreases total - index,
        {
            assert(all[index as int] == lines@[index as int]@);
            let line = &lines[index];
            if line.len() > 0 && line[0] != 0x23 {
                let ghost before = rows(names@);
                names.push(line.clone());
                assert(rows(names@) =~= before.push(all[index as int]));
            }
            index += 1;
        }
        names
    }

    /// Which call removes the entity at the end of the scrub.
    pub fn secure_unlink(&self, is_directory: bool) -> (removal: Removal)
        ensures
            removal == if is_directory {
                Removal::Directory
            } else {
                Removal::File
            },
    {
        if is_directory {
            Removal::Directory
        } else {
            Removal::File
        }
    }
}

} // verus!
