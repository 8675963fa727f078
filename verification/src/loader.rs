//! The loader that the emitted text holds, as a table of slots: what
//! `load_with` does to the slots and what it returns.

use vstd::prelude::*;

verus! {

/// The slots after the resolver answered `answers`, one answer for each
/// slot: an answer that is not null is stored, and a null answer leaves the
/// slot as it is. A slot of zero is one that was never loaded.
pub open spec fn loaded(slots: Seq<usize>, answers: Seq<usize>) -> Seq<usize> {
    Seq::new(
        slots.len(),
        |i: int| if i < answers.len() && answers[i] != 0 {
            answers[i]
        } else {
            slots[i]
        },
    )
}

/// The places among the first `upto` of the slots that are still empty, in
/// their order.
pub open spec fn unresolved(slots: Seq<usize>, upto: int) -> Seq<usize>
    decreases upto,
{
    if upto <= 0 || upto > slots.len() {
        Seq::empty()
    } else if slots[upto - 1] == 0 {
        unresolved(slots, upto - 1).push((upto - 1) as usize)
    } else {
        unresolved(slots, upto - 1)
    }
}

/// What `load_with` returns for the slots `slots` after loading.
pub open spec fn load_outcome(slots: Seq<usize>) -> Result<(), Seq<usize>> {
    if unresolved(slots, slots.len() as int).len() == 0 {
        Ok(())
    } else {
        Err(unresolved(slots, slots.len() as int))
    }
}

/// Idempotent reload: to load twice with the same answers leaves the slots
/// as the first load left them, and so reports the same slots as empty.
pub proof fn lemma_reload_is_idempotent(slots: Seq<usize>, answers: Seq<usize>)
    ensures
        loaded(loaded(slots, answers), answers) == loaded(slots, answers),
        load_outcome(loaded(loaded(slots, answers), answers)) == load_outcome(
            loaded(slots, answers),
        ),
{
    assert(loaded(loaded(slots, answers), answers) =~= loaded(slots, answers));
}

/// A slot that was loaded stays loaded, whatever the resolver answers later.
pub proof fn lemma_loaded_stays(slots: Seq<usize>, answers: Seq<usize>, i: int)
    requires
        0 <= i < slots.len(),
        slots[i] != 0,
    ensures
        loaded(slots, answers)[i] != 0,
{
}

/// A resolver that answers null for everything leaves every slot as it is:
/// for a table in which nothing was loaded, every place is reported, in the
/// order of the table.
pub proof fn lemma_null_resolver_reports_all(slots: Seq<usize>, answers: Seq<usize>, upto: int)
    requires
        slots.len() <= usize::MAX,
        forall|i: int| 0 <= i < slots.len() ==> slots[i] == 0,
        forall|i: int| 0 <= i < answers.len() ==> answers[i] == 0,
        0 <= upto <= slots.len(),
    ensures
        loaded(slots, answers) == slots,
        unresolved(loaded(slots, answers), upto) == Seq::new(upto as nat, |i: int| i as usize),
    decreases upto,
{
    assert(loaded(slots, answers) =~= slots);
    if upto > 0 {
        lemma_null_resolver_reports_all(slots, answers, upto - 1);
        assert(unresolved(slots, upto) =~= Seq::new(upto as nat, |i: int| i as usize));
    } else {
        assert(unresolved(slots, upto) =~= Seq::new(upto as nat, |i: int| i as usize));
    }
}

/// The slots of the commands of a selection: for each command, the address
/// that was loaded for it, or zero.
pub struct CommandTable {
    slots: Vec<usize>,
}

impl View for CommandTable {
    type V = Seq<usize>;

    closed spec fn view(&self) -> Seq<usize> {
        self.slots@
    }
}

impl CommandTable {
    /// A table of `count` slots, none of them loaded.
    pub fn new(count: usize) -> (table: Self)
        ensures
            table@ == Seq::new(count as nat, |i: int| 0usize),
    {
        let mut slots: Vec<usize> = Vec::new();
        let mut i: usize = 0;
        while i < count
            invariant
                i <= count,
                slots@ == Seq::new(i as nat, |k: int| 0usize),
            decreases count - i,
        {
            slots.push(0);
            i += 1;
            assert(slots@ =~= Seq::new(i as nat, |k: int| 0usize));
        }
        CommandTable { slots }
    }

    /// The number of slots.
    pub fn len(&self) -> (n: usize)
        ensures
            n == self@.len(),
    {
        self.slots.len()
    }

    /// Whether the slot at `i` was loaded.
    pub fn is_loaded(&self, i: usize) -> (b: bool)
        requires
            i < self@.len(),
        ensures
            b == (self@[i as int] != 0),
    {
        self.slots[i] != 0
    }

    /// Stores the answers of the resolver, one for each slot in the order of
    /// the table: an answer that is not null is stored, a null answer leaves
    /// the slot as it is. Returns the places of the slots that are still
    /// empty, in the order of the table, unless there is none.
    pub fn load_with(&mut self, answers: &Vec<usize>) -> (r: Result<(), Vec<usize>>)
        requires
            answers@.len() == old(self)@.len(),
        ensures
            final(self)@ == loaded(old(self)@, answers@),
            match load_outcome(final(self)@) {
                Ok(()) => r is Ok,
                Err(places) => r matches Err(v) && v@ == places,
            },
    {
        let n = self.slots.len();
        let mut unloaded: Vec<usize> = Vec::new();
        let mut i: usize = 0;
        while i < n
            invariant
                i <= n,
                n == self.slots@.len(),
                n == answers@.len(),
                n == old(self)@.len(),
                forall|k: int| 0 <= k < i ==> self.slots@[k] == loaded(old(self)@, answers@)[k],
                forall|k: int| i <= k < n ==> self.slots@[k] == old(self)@[k],
                unloaded@ == unresolved(loaded(old(self)@, answers@), i as int),
            decreases n - i,
        {
            if answers[i] != 0 {
                self.slots[i] = answers[i];
            } else if self.slots[i] == 0 {
                unloaded.push(i);
            }
            i += 1;
        }
        assert(self@ =~= loaded(old(self)@, answers@));
        if unloaded.len() == 0 {
            Ok(())
        } else {
            Err(unloaded)
        }
    }
}

} // verus!
