//! What happens after the last pass: reading the file back, and scrubbing
//! its metadata before it is removed.

use vstd::prelude::*;
use vstd::slice::slice_subrange;

pub mod metadata;
pub mod verification;

verus! {

/// The number of bytes that are read back at a time.
pub const VERIFY_WINDOW: usize = 8192;

/// Whether every byte is zero.
pub open spec fn all_zero(content: Seq<u8>) -> bool {
    forall|i: int| 0 <= i < content.len() ==> content[i] == 0
}

/// Whether `window`, which stands at `offset` in a file, holds the bytes of
/// `pattern` repeated from the start of the file: the byte at file position
/// `p` is `pattern[p mod len]`.
pub open spec fn repeats_pattern(offset: nat, window: Seq<u8>, pattern: Seq<u8>) -> bool {
    forall|i: int|
        0 <= i < window.len() ==> window[i] == pattern[(offset + i) % (pattern.len() as int)]
}

/// What readback expects of a piece of a file that stands at `offset`: the
/// repeated pattern where one is given, zeros otherwise.
pub open spec fn window_passes(offset: nat, window: Seq<u8>, expected: Option<Seq<u8>>) -> bool {
    match expected {
        Some(pattern) => repeats_pattern(offset, window, pattern),
        None => all_zero(window),
    }
}

/// The view of an optional byte slice.
pub open spec fn expected_view(expected: Option<&[u8]>) -> Option<Seq<u8>> {
    match expected {
        Some(pattern) => Some(pattern@),
        None => None,
    }
}

/// A way to judge what was read back from a wiped file.
pub trait VerificationMethod {
    /// Whether the method accepts `content` as the whole file.
    spec fn accepts(&self, content: Seq<u8>, expected: Option<Seq<u8>>) -> bool;

    /// Judges the content of a file. An empty pattern can be held against
    /// an empty file only.
    fn verify(&self, content: &[u8], expected_pattern: Option<&[u8]>) -> (ok: bool)
        requires
            expected_pattern matches Some(pattern) ==> pattern@.len() > 0 || content@.len() == 0,
        ensures
            ok == self.accepts(content@, expected_view(expected_pattern)),
    ;
}

/// Verification by comparing every byte that was read back.
#[derive(Debug, Clone, Copy, PartialEq, Eq, Structural)]
pub struct ReadbackVerifier;

/// Checking a file piece by piece gives the same answer as checking it
/// whole: a file passes exactly when its first part passes at its offset
/// and the rest passes behind it.
pub proof fn lemma_windows_compose(
    offset: nat,
    first: Seq<u8>,
    rest: Seq<u8>,
    expected: Option<Seq<u8>>,
)
    ensures
        window_passes(offset, first + rest, expected) <==> (window_passes(offset, first, expected)
            && window_passes(offset + first.len(), rest, expected)),
{
    let whole = first + rest;
    match expected {
        Some(pattern) => {
            if repeats_pattern(offset, whole, pattern) {
                assert forall|i: int| 0 <= i < first.len() implies first[i] == pattern[(offset + i)
                    % (pattern.len() as int)] by {
                    assert(whole[i] == first[i]);
                }
                assert forall|i: int| 0 <= i < rest.len() implies rest[i] == pattern[(offset
                    + first.len() + i) % (pattern.len() as int)] by {
                    assert(whole[first.len() + i] == rest[i]);
                }
            }
            if repeats_pattern(offset, first, pattern) && repeats_pattern(
                offset + first.len(),
                rest,
                pattern,
            ) {
                assert forall|i: int| 0 <= i < whole.len() implies whole[i] == pattern[(offset + i)
                    % (pattern.len() as int)] by {
                    if i >= first.len() {
                        assert(whole[i] == rest[i - first.len()]);
                    }
                }
            }
        },
        None => {
            if all_zero(whole) {
                assert forall|i: int| 0 <= i < first.len() implies first[i] == 0 by {
                    assert(whole[i] == first[i]);
                }
                assert forall|i: int| 0 <= i < rest.len() implies rest[i] == 0 by {
                    assert(whole[first.len() + i] == rest[i]);
                }
            }
            if all_zero(first) && all_zero(rest) {
                assert forall|i: int| 0 <= i < whole.len() implies whole[i] == 0 by {
                    if i >= first.len() {
                        assert(whole[i] == rest[i - first.len()]);
                    }
                }
            }
        },
    }
}

impl ReadbackVerifier {
    /// The number of bytes to read next from a file of `file_size` bytes of
    /// which `bytes_read` have been read: a full window, or what is left.
    pub fn next_read_size(file_size: u64, bytes_read: u64) -> (size: usize)
        ensures
            size == if bytes_read >= file_size {
                0
            } else if file_size - bytes_read < VERIFY_WINDOW {
                file_size - bytes_read
            } else {
                VERIFY_WINDOW as int
            },
    {
        if bytes_read >= file_size {
            0
        } else if file_size - bytes_read < VERIFY_WINDOW as u64 {
            (file_size - bytes_read) as usize
        } else {
            VERIFY_WINDOW
        }
    }

    /// Checks the bytes that were read at `offset`.
    pub fn verify_window(&self, offset: u64, window: &[u8], expected_pattern: Option<&[u8]>) -> (ok:
        bool)
        requires
            expected_pattern matches Some(pattern) ==> pattern@.len() > 0 || window@.len() == 0,
        ensures
            ok == window_passes(offset as nat, window@, expected_view(expected_pattern)),
    {
        match expected_pattern {
            Some(pattern) => {
                if window.len() == 0 {
                    return true;
                }
                let length = pattern.len();
                let mut index: usize = (offset % (length as u64)) as usize;
                let mut i: usize = 0;
                while i < window.len()
                    invariant
                        expected_view(expected_pattern) == Some(pattern@),
                        length == pattern@.len(),
                        length > 0,
                        i <= window@.len(),
                        index == (offset + i) % (length as int),
                        forall|j: int|
                            0 <= j < i ==> window@[j] == pattern@[(offset + j) % (length as int)],
                    decreases window@.len() - i,
                {
                    if window[i] != pattern[index] {
                        assert(!repeats_pattern(offset as nat, window@, pattern@)) by {
                            assert(window@[i as int] != pattern@[(offset + i) % (length as int)]);
                        }
                        return false;
                    }
                    proof {
                        lemma_next_index(offset as int + i as int, length as int);
                    }
                    index = if index + 1 == length {
                        0
                    } else {
                        index + 1
                    };
                    i += 1;
                }
                true
            },
            None => {
                let mut i: usize = 0;
                while i < window.len()
                    invariant
                        expected_pattern is None,
                        i <= window@.len(),
                        forall|j: int| 0 <= j < i ==> window@[j] == 0,
                    decreases window@.len() - i,
                {
                    if window[i] != 0 {
                        assert(!all_zero(window@)) by {
                            assert(window@[i as int] != 0);
                        }
                        return false;
                    }
                    i += 1;
                }
                true
            },
        }
    }
}

proof fn lemma_next_index(position: int, length: int)
    by (nonlinear_arith)
    requires
        position >= 0,
        length > 0,
    ensures
        (position + 1) % length == if position % length + 1 == length {
            0
        } else {
            position % length + 1
        },
{
}

impl VerificationMethod for ReadbackVerifier {
    /// The whole file holds what is expected, from its first byte on.
    open spec fn accepts(&self, content: Seq<u8>, expected: Option<Seq<u8>>) -> bool {
        window_passes(0, content, expected)
    }

    /// Goes through the content window by window and stops at the first
    /// window that does not pass.
    fn verify(&self, content: &[u8], expected_pattern: Option<&[u8]>) -> (ok: bool) {
        let total = content.len();
        let mut done: usize = 0;
        while done < total
            invariant
                total == content@.len(),
                done <= total,
                expected_pattern matches Some(pattern) ==> pattern@.len() > 0 || content@.len()
                    == 0,
                window_passes(0, content@.subrange(0, done as int), expected_view(expected_pattern)),
            decreases total - done,
        {
            let size = if total - done < VERIFY_WINDOW {
                total - done
            } else {
                VERIFY_WINDOW
            };
            let window = slice_subrange(content, done, done + size);
            let ok = self.verify_window(done as u64, window, expected_pattern);
            proof {
                lemma_windows_compose(
                    0,
                    content@.subrange(0, done as int),
                    window@,
                    expected_view(expected_pattern),
                );
                assert(content@.subrange(0, done as int) + window@ =~= content@.subrange(
                    0,
                    done + size,
                ));
                if !ok {
                    lemma_windows_compose(
                        0,
                        content@.subrange(0, done + size),
                        content@.subrange(done + size, total as int),
                        expected_view(expected_pattern),
                    );
                    assert(content@.subrange(0, done + size) + content@.subrange(
                        done + size,
                        total as int,
                    ) =~= content@);
                }
            }
            if !ok {
                return false;
            }
            done = done + size;
        }
        assert(content@.subrange(0, done as int) =~= content@);
        true
    }
}

} // verus!
