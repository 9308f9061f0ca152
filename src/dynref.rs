use vstd::prelude::*;

use vstd::string::StringSliceAdditionalSpecFns;

use crate::{Tr, Transfer};

verus! {

/// A back-reference cell: it observes at most one value, named by its index in the table of
/// values that outlives every lock taken on the cell.
pub struct DynRef {
    target: Option<usize>,
}

impl View for DynRef {
    type V = Option<usize>;

    closed spec fn view(&self) -> Option<usize> {
        self.target
    }
}

/// What each cell of a table observes.
pub open spec fn targets(cells: Seq<DynRef>) -> Seq<Option<usize>> {
    cells.map_values(|c: DynRef| c@)
}

impl DynRef {
    /// A cell that observes nothing.
    pub fn new() -> (r: Self)
        ensures
            r@ is None,
    {
        DynRef { target: None }
    }

    fn get(&self) -> (r: Option<usize>)
        ensures
            r == self@,
    {
        self.target
    }

    /// Applies `f` to the observed value, if the cell observes one.
    pub fn map<T, U, F: Fn(&T) -> U>(&self, values: &Vec<T>, f: F) -> (r: Option<U>)
        requires
            self@ matches Some(i) ==> i < values@.len() && f.requires((&values@[i as int],)),
        ensures
            r is None <==> self@ is None,
            r matches Some(u) ==> f.ensures((&values@[self@->0 as int],), u),
    {
        match self.get() {
            Some(i) => Some(f(&values[i])),
            None => None,
        }
    }

    /// Whether the cell observes a value.
    pub fn is_some(&self) -> (r: bool)
        ensures
            r == self@ is Some,
    {
        self.target.is_some()
    }

    /// Whether the cell observes nothing.
    pub fn is_none(&self) -> (r: bool)
        ensures
            r == self@ is None,
    {
        self.target.is_none()
    }

    /// Points the cell at index `cell` of `cells` to the value at index `br`, and returns the
    /// pinned guard that clears the cell again when it is released.
    pub fn lock(cells: &mut Vec<DynRef>, cell: usize, br: usize) -> (r: Lifetime)
        requires
            cell < old(cells)@.len(),
        ensures
            final(cells)@.len() == old(cells)@.len(),
            final(cells)@.len() == old(cells)@.len(),
            targets(final(cells)@) == targets(old(cells)@).update(cell as int, Some(br)),
            r@ == Some(cell),
    {
        let mut lifetime = Lifetime::new_empty();
        lifetime.on_pin(cells, cell, br);
        lifetime
    }
}

/// Clears the cell it names, if any, when released.
struct Dropper(Option<usize>);

impl Dropper {
    fn release(&mut self, cells: &mut Vec<DynRef>)
        ensures
            final(self).0 is None,
            final(cells)@.len() == old(cells)@.len(),
            targets(final(cells)@) == (match old(self).0 {
                Some(c) => if c < old(cells)@.len() {
                    targets(old(cells)@).update(c as int, None)
                } else {
                    targets(old(cells)@)
                },
                None => targets(old(cells)@),
            }),
    {
        if let Some(c) = self.0 {
            if c < cells.len() {
                cells.set(c, DynRef::new());
                assert(targets(cells@) =~= targets(old(cells)@).update(c as int, None));
            }
        }
        self.0 = None;
    }
}

/// The guard of a lock taken on a back-reference cell: for as long as it lives, the cell may
/// point at the locked value.
pub struct Lifetime {
    dynref: Dropper,
}

impl View for Lifetime {
    type V = Option<usize>;

    /// The cell that releasing this guard clears.
    closed spec fn view(&self) -> Option<usize> {
        self.dynref.0
    }
}

impl Lifetime {
    fn new_empty() -> (r: Self)
        ensures
            r@ is None,
            r == Self::empty_value(),
    {
        Lifetime { dynref: Dropper(None) }
    }

    fn on_pin(&mut self, cells: &mut Vec<DynRef>, cell: usize, br: usize)
        requires
            cell < old(cells)@.len(),
        ensures
            final(cells)@.len() == old(cells)@.len(),
            final(cells)@.len() == old(cells)@.len(),
            targets(final(cells)@) == targets(old(cells)@).update(cell as int, Some(br)),
            final(self)@ == Some(cell),
    {
        cells.set(cell, DynRef { target: Some(br) });
        assert(targets(cells@) =~= targets(old(cells)@).update(cell as int, Some(br)));
        self.dynref = Dropper(Some(cell));
    }

    /// Scope-exit cleanup: clears the cell that the guard still answers for, and leaves the
    /// guard empty, so that a second release changes nothing.
    pub fn release(&mut self, cells: &mut Vec<DynRef>)
        ensures
            *final(self) == Self::empty_value(),
            final(cells)@.len() == old(cells)@.len(),
            targets(final(cells)@) == (match old(self)@ {
                Some(c) => if c < old(cells)@.len() {
                    targets(old(cells)@).update(c as int, None)
                } else {
                    targets(old(cells)@)
                },
                None => targets(old(cells)@),
            }),
    {
        self.dynref.release(cells);
    }
}

impl Transfer for Lifetime {
    closed spec fn empty_value() -> Self {
        Lifetime { dynref: Dropper(None) }
    }

    fn empty() -> (r: Tr<Self>) {
        Tr::from_empty(Self::new_empty())
    }

    fn transfer(src: &mut Self, dst: &mut Self) {
        dst.dynref.0 = src.dynref.0;
        src.dynref.0 = None;
    }
}

/// The empty guard answers for no cell, so releasing it leaves every cell as it was.
pub proof fn lemma_empty_guard_answers_for_nothing(l: Lifetime)
    requires
        l == Lifetime::empty_value(),
    ensures
        l@ is None,
{
}

/// A transfer of a guard hands its duty over: the old storage answers for no cell any more,
/// and the relocated guard answers for the cell that the old one did.
pub proof fn lemma_transfer_hands_over_cleanup(before: Lifetime, after: Lifetime, moved: Lifetime)
    requires
        crate::transferred(before, after, moved),
    ensures
        after@ is None,
        moved@ == before@,
{
}

/// Locks a fresh cell onto a value, relocates the guard into an outer slot when the length of
/// `val` in bytes is odd, and ends the inner scope: the cell stays set exactly when the guard
/// was relocated.
pub fn transfer_if_odd(val: &str) -> (r: bool)
    ensures
        r == ((val.spec_bytes().len() as usize) % 2 == 1),
{
    let mut cells: Vec<DynRef> = Vec::new();
    cells.push(DynRef::new());
    let mut lifetime = Lifetime::empty();
    let mut inner_lifetime = DynRef::lock(&mut cells, 0, 0);
    assert(targets(cells@)[0] == Some(0usize));
    let odd = val.len() % 2 == 1;
    if odd {
        crate::transfer(&mut inner_lifetime, &mut lifetime);
        proof {
            lemma_empty_guard_answers_for_nothing(inner_lifetime);
        }
    }
    inner_lifetime.release(&mut cells);
    assert(cells[0]@ == targets(cells@)[0]);
    cells[0].is_some()
}

} // verus!
