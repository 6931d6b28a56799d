use vstd::prelude::*;

verus! {

/// One event in the life of an exclusive hardware cell, as observed by the
/// cores contending for it: a core acquiring the cell, or the holder
/// releasing it.
pub enum CellEvent {
    Acquire { core: u32 },
    Release { core: u32 },
}

/// Whether `ev` may fire while `holder` currently holds the cell: an
/// acquisition succeeds only when the cell is free, and only the holder
/// releases.
pub open spec fn cell_event_enabled(holder: Option<u32>, ev: CellEvent) -> bool {
    match ev {
        CellEvent::Acquire { core: _ } => holder is None,
        CellEvent::Release { core } => holder == Some(core),
    }
}

/// The holder after `ev` fires.
pub open spec fn cell_event_step(holder: Option<u32>, ev: CellEvent) -> Option<u32> {
    match ev {
        CellEvent::Acquire { core } => Some(core),
        CellEvent::Release { core: _ } => None,
    }
}

/// The holder after a whole trace of events, starting from a free cell.
pub open spec fn holder_after(tr: Seq<CellEvent>) -> Option<u32>
    decreases tr.len(),
{
    if tr.len() == 0 {
        None::<u32>
    } else {
        cell_event_step(holder_after(tr.drop_last()), tr.last())
    }
}

/// A trace is valid when every event was enabled in the state it fired in.
/// This is exactly the set of interleavings the spinning acquisition can
/// produce: a core spins until the cell is free, so its acquire event fires
/// only in a free state.
pub open spec fn valid_trace(tr: Seq<CellEvent>) -> bool
    decreases tr.len(),
{
    if tr.len() == 0 {
        true
    } else {
        valid_trace(tr.drop_last()) && cell_event_enabled(holder_after(tr.drop_last()), tr.last())
    }
}

/// Every prefix of a valid trace is valid.
pub proof fn lemma_valid_trace_prefix(tr: Seq<CellEvent>, m: int)
    requires
        valid_trace(tr),
        0 <= m <= tr.len(),
    ensures
        valid_trace(tr.take(m)),
    decreases tr.len() - m,
{
    if m == tr.len() {
        assert(tr.take(m) =~= tr);
    } else {
        lemma_valid_trace_prefix(tr, m + 1);
        assert(tr.take(m + 1).drop_last() =~= tr.take(m));
    }
}

/// In a valid trace, the event at position `j` was enabled in the state
/// reached by the first `j` events.
pub proof fn lemma_valid_trace_enabled_at(tr: Seq<CellEvent>, j: int)
    requires
        valid_trace(tr),
        0 <= j < tr.len(),
    ensures
        cell_event_enabled(holder_after(tr.take(j)), tr[j]),
{
    lemma_valid_trace_prefix(tr, j + 1);
    assert(tr.take(j + 1).drop_last() =~= tr.take(j));
    assert(tr.take(j + 1).last() == tr[j]);
}

/// Mutual exclusion, over every interleaving the cell can produce: between
/// any two successful acquisitions stands a release, so the closure run by
/// one acquisition has finished — and handed the value back — before the
/// next acquisition sees it. No two closures ever hold the contained value
/// at the same instant.
pub proof fn lemma_mutual_exclusion(tr: Seq<CellEvent>, i: int, j: int)
    requires
        valid_trace(tr),
        0 <= i < j < tr.len(),
        tr[i] is Acquire,
        tr[j] is Acquire,
    ensures
        exists|k: int| i < k < j && (#[trigger] tr[k]) is Release,
{
    lemma_valid_trace_enabled_at(tr, j);
    assert(holder_after(tr.take(j)) is None);
    lemma_valid_trace_prefix(tr, i + 1);
    assert(tr.take(i + 1).drop_last() =~= tr.take(i));
    assert(tr.take(i + 1).last() == tr[i]);
    assert(holder_after(tr.take(i + 1)) is Some);
    if i + 1 == j {
        // the holder right after the acquire at `i` is some core, yet the
        // acquire at `j` fired in a free state: impossible back to back.
        assert(false);
    } else {
        assert(tr.take(j).drop_last() =~= tr.take(j - 1));
        assert(tr.take(j).last() == tr[j - 1]);
        assert(holder_after(tr.take(j)) == cell_event_step(holder_after(tr.take(j - 1)), tr[j
            - 1]));
        assert(tr[j - 1] is Release);
        assert(i < j - 1 < j && (tr[j - 1]) is Release);
    }
}

/// Appending a completed acquire/release pair to a valid trace of a free
/// cell keeps the trace valid and leaves the cell free.
pub proof fn lemma_acquire_release_extends_valid(tr: Seq<CellEvent>, core: u32)
    requires
        valid_trace(tr),
        holder_after(tr) is None,
    ensures
        valid_trace(tr + seq![CellEvent::Acquire { core }, CellEvent::Release { core }]),
        holder_after(tr + seq![CellEvent::Acquire { core }, CellEvent::Release { core }]) is None,
{
    let tr1 = tr.push(CellEvent::Acquire { core });
    let tr2 = tr1.push(CellEvent::Release { core });
    assert(tr1.drop_last() =~= tr);
    assert(holder_after(tr1) == Some(core));
    assert(valid_trace(tr1));
    assert(tr2.drop_last() =~= tr1);
    assert(valid_trace(tr2));
    assert(holder_after(tr2) is None);
    assert(tr2 =~= tr + seq![CellEvent::Acquire { core }, CellEvent::Release { core }]);
}

/// Mutual exclusion for a concrete cell: the history a well-formed cell
/// carries is always a valid interleaving, so between any two
/// acquisitions in it stands a release — no two closures ever overlapped
/// on the contained value.
pub proof fn lemma_cell_history_mutual_exclusion<T>(c: HwCell<T>, i: int, j: int)
    requires
        c.wf(),
        0 <= i < j < c.trace().len(),
        c.trace()[i] is Acquire,
        c.trace()[j] is Acquire,
    ensures
        exists|k: int| i < k < j && (#[trigger] c.trace()[k]) is Release,
{
    lemma_mutual_exclusion(c.trace(), i, j);
}

/// A process-wide mutual-exclusion wrapper around a single hardware-owning
/// value: the only way to touch the value is to acquire the cell, run a
/// closure against it, and have the cell released on return. On hardware
/// the acquisition spins until the cell is free; the trace of acquire and
/// release events it produces is therefore always a valid trace in the
/// sense of `valid_trace`, which is what the mutual-exclusion lemma above
/// speaks about.
pub struct HwCell<T> {
    item: Option<T>,
    history: Ghost<Seq<CellEvent>>,
}

impl<T> HwCell<T> {
    /// The cell is at rest: its value is in place (no closure is running
    /// against it), and the event history is a valid interleaving that
    /// leaves the cell free.
    pub closed spec fn wf(self) -> bool {
        &&& self.item is Some
        &&& valid_trace(self.history@)
        &&& holder_after(self.history@) is None
    }

    /// The contained hardware-owning value.
    pub closed spec fn value(self) -> T {
        self.item->Some_0
    }

    /// The observable acquire/release history of this cell.
    pub closed spec fn trace(self) -> Seq<CellEvent> {
        self.history@
    }

    /// Construct the cell around its initial value. The initial value may
    /// itself be a "not yet initialized" driver state; the cell only
    /// guarantees exclusive access to whatever it holds.
    pub fn new(initial: T) -> (c: Self)
        ensures
            c.wf(),
            c.value() == initial,
            c.trace() == Seq::<CellEvent>::empty(),
    {
        HwCell { item: Some(initial), history: Ghost(Seq::empty()) }
    }

    /// Acquire the cell exclusively on behalf of `core`, run `f` against the
    /// contained value, install the value `f` hands back, and release.
    ///
    /// Release is unconditional: whichever path `f` takes to its result,
    /// the cell is free again — and holds the value `f` returned — the
    /// moment this call returns, so the next contender can proceed.
    ///
    /// Acquiring a cell that the same core already holds is a programming
    /// error (it would spin forever on hardware); the precondition that the
    /// cell is at rest rules it out here.
    pub fn acquire_and_run<R, F: FnOnce(T) -> (T, R)>(&mut self, core: u32, f: F) -> (r: R)
        requires
            old(self).wf(),
            call_requires(f, (old(self).value(),)),
        ensures
            final(self).wf(),
            call_ensures(f, (old(self).value(),), (final(self).value(), r)),
            final(self).trace() == old(self).trace() + seq![
                CellEvent::Acquire { core },
                CellEvent::Release { core },
            ],
            holder_after(final(self).trace()) is None,
    {
        let v = self.item.take().unwrap();
        let (v2, r) = f(v);
        self.item = Some(v2);
        proof {
            lemma_acquire_release_extends_valid(self.history@, core);
        }
        self.history = Ghost(self.history@ + seq![
            CellEvent::Acquire { core },
            CellEvent::Release { core },
        ]);
        r
    }
}

} // verus!
