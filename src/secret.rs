use vstd::prelude::*;

use crate::{Tr, Transfer};

verus! {

/// A secret integer whose storage is scrubbed whenever its value leaves it.
///
/// Zero is both its empty value and its erasure pattern.
pub struct SecretU64(u64);

impl View for SecretU64 {
    type V = u64;

    closed spec fn view(&self) -> u64 {
        self.0
    }
}

/// Overwrites `x` with the erasure pattern.
fn secure_erase(x: &mut u64)
    ensures
        *final(x) == 0,
{
    *x = 0;
}

impl SecretU64 {
    /// Pins a secret taken from `src`, and erases the bytes that served for its construction.
    pub fn from_unpinned(src: &mut u64) -> (r: Self)
        ensures
            r@ == *old(src),
            *final(src) == 0,
    {
        let mut s = SecretU64(0);
        s.0 = *src;
        secure_erase(src);
        s
    }

    /// The secret held.
    pub fn expose(&self) -> (r: u64)
        ensures
            r == self@,
    {
        self.0
    }

    /// Scope-exit cleanup: erases a live secret; an empty one is left as it is.
    pub fn release(&mut self)
        ensures
            final(self)@ == 0,
            old(self)@ == 0 ==> *final(self) == *old(self),
    {
        if self.0 != 0 {
            secure_erase(&mut self.0);
        }
    }
}

impl Transfer for SecretU64 {
    closed spec fn empty_value() -> Self {
        SecretU64(0)
    }

    fn empty() -> (r: Tr<Self>) {
        Tr::from_empty(SecretU64(0))
    }

    fn transfer(src: &mut Self, dst: &mut Self) {
        dst.0 = src.0;
        secure_erase(&mut src.0);
    }
}

/// A secret is empty exactly when its storage holds the erasure pattern.
pub proof fn lemma_secret_empty_is_zero(s: SecretU64)
    ensures
        (s == SecretU64::empty_value()) <==> s@ == 0,
{
}

/// Whatever a transfer or a scope-exit cleanup of a secret leaves behind in the old storage
/// is the erasure pattern, never the payload.
pub proof fn lemma_secret_erased(before: SecretU64, after: SecretU64, moved: SecretU64)
    requires
        crate::transferred(before, after, moved),
    ensures
        after@ == 0,
        moved@ == before@,
{
}

/// Builds the secret `42` on the stack and relocates it into `slot`.
pub fn generate_secret(slot: &mut Tr<SecretU64>) -> (r: &mut SecretU64)
    ensures
        r@ == 42,
        final(slot)@ == *final(r),
{
    let mut secret: u64 = 42;
    let mut pinned = SecretU64::from_unpinned(&mut secret);
    crate::transfer(&mut pinned, slot)
}

} // verus!
