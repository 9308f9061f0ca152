use vstd::prelude::*;

pub mod dynref;
pub mod secret;

verus! {

/// A relocatable value: it has a defined empty value, and it can be moved out of one
/// pinned location into another, leaving the empty value behind.
pub trait Transfer: Sized {
    /// The placeholder that marks storage holding no live payload.
    spec fn empty_value() -> Self;

    /// A fresh slot holding the empty value, ready to receive a transfer.
    fn empty() -> (r: Tr<Self>)
        ensures
            r@ == Self::empty_value(),
    ;

    /// Writes the value held by `src` into `dst` and resets `src` to the empty value.
    fn transfer(src: &mut Self, dst: &mut Self)
        ensures
            *final(dst) == *old(src),
            *final(src) == Self::empty_value(),
    ;
}

/// A slot of storage that holds the empty value of `T` until a transfer writes into it.
pub struct Tr<T>(T);

impl<T> View for Tr<T> {
    type V = T;

    closed spec fn view(&self) -> T {
        self.0
    }
}

impl<T> Tr<T> {
    /// Wraps an empty value as a slot.
    pub fn from_empty(empty: T) -> (r: Self)
        ensures
            r@ == empty,
    {
        Tr(empty)
    }

    /// The storage of the slot, borrowed for as long as the slot itself.
    fn slot(&mut self) -> (r: &mut T)
        ensures
            *r == old(self)@,
            final(self)@ == *final(r),
    {
        &mut self.0
    }
}

/// Relocates the value pinned behind `src` into `dest`, and returns the handle to its new place.
///
/// The old storage holds the empty value once the call returns, and the returned handle is
/// the only one through which the value can be reached.
pub fn transfer<'old, 'new, T: Transfer>(src: &'old mut T, dest: &'new mut Tr<T>) -> (r: &'new mut T)
    ensures
        *r == *old(src),
        *final(src) == T::empty_value(),
        final(dest)@ == *final(r),
{
    let slot = dest.slot();
    T::transfer(src, slot);
    slot
}

/// What one transfer leaves behind: the destination holds what the source held before,
/// and the source holds the empty value.
pub open spec fn transferred<T: Transfer>(src_before: T, src_after: T, dst_after: T) -> bool {
    &&& dst_after == src_before
    &&& src_after == T::empty_value()
}

/// A value relayed through a chain of slots keeps its value to the end, and every storage
/// it passed through is left holding the empty value.
///
/// `held[k]` is the value behind the k-th handle just before it is transferred into the
/// next slot, and `left[k]` what that storage holds after the transfer.
pub proof fn lemma_chain_fidelity<T: Transfer>(held: Seq<T>, left: Seq<T>)
    requires
        held.len() >= 2,
        left.len() + 1 == held.len(),
        forall|k: int|
            #![trigger left[k]]
            0 <= k < left.len() ==> transferred(held[k], left[k], held[k + 1]),
    ensures
        held.last() == held[0],
        forall|k: int| 0 <= k < left.len() ==> #[trigger] left[k] == T::empty_value(),
    decreases held.len(),
{
    let n = left.len() as int;
    assert(transferred(held[n - 1], left[n - 1], held[n]));
    if held.len() > 2 {
        let h = held.drop_last();
        let l = left.drop_last();
        assert forall|k: int| 0 <= k < l.len() implies #[trigger] transferred(h[k], l[k], h[k + 1]) by {
            assert(transferred(held[k], left[k], held[k + 1]));
        }
        lemma_chain_fidelity(h, l);
        assert(h.last() == held[n - 1]);
    } else {
        assert(transferred(held[0], left[0], held[1]));
    }
    assert forall|k: int| 0 <= k < left.len() implies #[trigger] left[k] == T::empty_value() by {
        assert(transferred(held[k], left[k], held[k + 1]));
    }
}

} // verus!
