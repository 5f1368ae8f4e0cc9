//! The verifier that a wipe uses after its last pass.

use vstd::prelude::*;
use super::ReadbackVerifier;
use super::VerificationMethod;

verus! {

/// Judges a wiped file by a verification method; by readback unless
/// another method is given.
pub struct WipeVerifier<M: VerificationMethod = ReadbackVerifier> {
    method: M,
}

impl WipeVerifier<ReadbackVerifier> {
    /// A verifier that compares every byte read back.
    pub fn new() -> (verifier: Self)
        ensures
            verifier.method() == ReadbackVerifier,
    {
        WipeVerifier { method: ReadbackVerifier }
    }
}

impl<M: VerificationMethod> WipeVerifier<M> {
    /// The method that judges.
    pub closed spec fn method(&self) -> M {
        self.method
    }

    /// A verifier that judges by `method`.
    pub fn with_method(method: M) -> (verifier: Self)
        ensures
            verifier.method() == method,
    {
        WipeVerifier { method }
    }

    /// Whether the method finds the file filled with zeros.
    pub fn verify_zero_fill(&self, content: &[u8]) -> (ok: bool)
        ensures
            ok == self.method().accepts(content@, None),
    {
        self.method.verify(content, None)
    }

    /// Whether the method finds the file filled with `pattern`, repeated
    /// from the first byte on. An empty pattern can be held against an
    /// empty file only.
    pub fn verify_pattern(&self, content: &[u8], pattern: &[u8]) -> (ok: bool)
        requires
            pattern@.len() > 0 || content@.len() == 0,
        ensures
            ok == self.method().accepts(content@, Some(pattern@)),
    {
        self.method.verify(content, Some(pattern))
    }
}

impl Default for WipeVerifier<ReadbackVerifier> {
    fn default() -> (verifier: Self)
        ensures
            verifier.method() == ReadbackVerifier,
    {
        WipeVerifier::new()
    }
}

} // verus!
