//! A cell that is written at most once and read any number of times.
//!
//! The cell here is the sequential heart of the primitive: every operation
//! is one atomic step on the state `Option<T>`. A caller that shares a cell
//! between threads puts it behind a lock and runs one operation per
//! critical section, so that the steps of all threads form one sequence.

use vstd::prelude::*;

verus! {

/// The error of a write to a cell that already holds a value.
#[derive(Clone, Copy, Debug, PartialEq, Eq, Structural)]
pub struct AlreadySet;

/// One step of a wait for a cell's value.
#[derive(Debug, PartialEq, Eq)]
pub enum WaitStep<V> {
    /// The value is there.
    Ready(V),
    /// Nothing yet: sleep until the cell is written or `remaining`
    /// nanoseconds have passed (without bound if `None`), then ask again.
    Park { remaining: Option<u128> },
    /// Nothing yet, and the time to wait is used up.
    TimedOut,
}

/// A single-write, multi-read cell.
pub struct OneShotCell<T> {
    value: Option<T>,
}

/// A pending fallback write: released against a cell, it writes what
/// `default` produces unless the cell has a value by then.
pub struct SetGuard<F> {
    default: F,
}

/// The state of a cell after an attempt to write `value`: the first write
/// stays.
pub open spec fn after_set<T>(state: Option<T>, value: T) -> Option<T> {
    if state is Some {
        state
    } else {
        Some(value)
    }
}

/// The state of a cell after attempts to write each of `values` in turn.
pub open spec fn after_sets<T>(state: Option<T>, values: Seq<T>) -> Option<T>
    decreases values.len(),
{
    if values.len() == 0 {
        state
    } else {
        after_sets(after_set(state, values[0]), values.drop_first())
    }
}

/// Whether the write of `values[i]` is accepted when `values` are written
/// in turn to a cell in `state`.
pub open spec fn accepted_at<T>(state: Option<T>, values: Seq<T>, i: int) -> bool {
    after_sets(state, values.take(i)) is None
}

/// The step of a waiter that has waited `waited` nanoseconds of at most
/// `timeout` for a cell in `state`. A value that is there is handed out
/// whatever the clock says; without one the waiter sleeps for the rest of
/// the limit, and gives up once the limit is reached.
pub open spec fn wait_step_of<T>(state: Option<T>, timeout: Option<u128>, waited: u128) -> WaitStep<
    T,
> {
    match state {
        Some(value) => WaitStep::Ready(value),
        None => match timeout {
            None => WaitStep::Park { remaining: None },
            Some(limit) => if waited < limit {
                WaitStep::Park { remaining: Some((limit - waited) as u128) }
            } else {
                WaitStep::TimedOut
            },
        },
    }
}

/// A step that lends the value, as the step that holds it.
pub open spec fn owned_step<T>(step: WaitStep<&T>) -> WaitStep<T> {
    match step {
        WaitStep::Ready(value) => WaitStep::Ready(*value),
        WaitStep::Park { remaining } => WaitStep::Park { remaining },
        WaitStep::TimedOut => WaitStep::TimedOut,
    }
}

impl<T> View for OneShotCell<T> {
    type V = Option<T>;

    closed spec fn view(&self) -> Option<T> {
        self.value
    }
}

impl<F> SetGuard<F> {
    /// The function that produces the fallback value.
    pub closed spec fn default_fn(self) -> F {
        self.default
    }

    /// Ends the guard: if `cell` is still empty it now holds the value that
    /// the guard's function returns; a cell that has a value keeps it, and
    /// the function is not called.
    pub fn release<T>(self, cell: &mut OneShotCell<T>) where F: FnOnce() -> T
        requires
            call_requires(self.default_fn(), ()),
        ensures
            old(cell)@ is Some ==> final(cell)@ == old(cell)@,
            old(cell)@ is None ==> final(cell)@ is Some && call_ensures(
                self.default_fn(),
                (),
                final(cell)@->0,
            ),
    {
        if cell.value.is_none() {
            let produce = self.default;
            let value = produce();
            cell.value = Some(value);
        }
    }
}

impl<T> OneShotCell<T> {
    /// An empty cell.
    pub fn new() -> (cell: Self)
        ensures
            cell@ is None,
    {
        OneShotCell { value: None }
    }

    /// Writes `value` if the cell is empty. The first write wins: a later
    /// one changes nothing and reports `AlreadySet`.
    pub fn set(&mut self, value: T) -> (res: Result<(), AlreadySet>)
        ensures
            final(self)@ == after_set(old(self)@, value),
            res is Ok <==> old(self)@ is None,
    {
        if self.value.is_some() {
            Err(AlreadySet)
        } else {
            self.value = Some(value);
            Ok(())
        }
    }

    /// A guard that will write `default()` on release if nothing else has
    /// been written by then. Making the guard does not touch the cell.
    pub fn set_guard_with<F: FnOnce() -> T>(&self, default: F) -> (guard: SetGuard<F>)
        ensures
            guard.default_fn() == default,
    {
        SetGuard { default }
    }

    /// The value, if one has been written.
    pub fn get(&self) -> (res: Option<&T>)
        ensures
            match res {
                Some(value) => self@ == Some(*value),
                None => self@ is None,
            },
    {
        self.value.as_ref()
    }

    /// One step of a wait with an optional time limit, both in nanoseconds:
    /// `waited` is how long the caller has waited so far. The caller sleeps
    /// as the step says and asks again with the time it has then waited.
    pub fn wait_timeout(&self, timeout: Option<u128>, waited: u128) -> (step: WaitStep<&T>)
        ensures
            owned_step(step) == wait_step_of(self@, timeout, waited),
    {
        match &self.value {
            Some(value) => WaitStep::Ready(value),
            None => match timeout {
                None => WaitStep::Park { remaining: None },
                Some(limit) => {
                    if waited < limit {
                        WaitStep::Park { remaining: Some(limit - waited) }
                    } else {
                        WaitStep::TimedOut
                    }
                },
            },
        }
    }
}

/// A wait never times out on a value that was written before it looks: on
/// a cell that some write has reached, every step of every waiter is ready
/// with the cell's value, whatever its limit and however long it has
/// waited.
pub proof fn lemma_wait_sees_written_value<T>(
    state: Option<T>,
    value: T,
    timeout: Option<u128>,
    waited: u128,
)
    ensures
        after_set(state, value) is Some,
        wait_step_of(after_set(state, value), timeout, waited) is Ready,
        wait_step_of(after_set(state, value), timeout, waited)->Ready_0 == after_set(
            state,
            value,
        )->0,
        state is None ==> wait_step_of(after_set(state, value), timeout, waited)->Ready_0 == value,
{
}

/// A wait on an empty cell gives up exactly when a limit is set and the
/// time waited has reached it, never earlier; until then the waiter is
/// told to sleep for what is left of the limit, and without a limit it is
/// told to sleep until the cell is written.
pub proof fn lemma_wait_gives_up_at_limit<T>(timeout: Option<u128>, waited: u128)
    ensures
        wait_step_of(None::<T>, timeout, waited) is TimedOut <==> (timeout is Some && waited
            >= timeout->0),
        !(wait_step_of(None::<T>, timeout, waited) is Ready),
        wait_step_of(None::<T>, timeout, waited) is Park ==> (timeout is Some ==> waited
            < timeout->0),
        (timeout is Some && waited < timeout->0) ==> (wait_step_of(
            None::<T>,
            timeout,
            waited,
        )->Park_remaining == Some((timeout->0 - waited) as u128)),
        timeout is None ==> (wait_step_of(None::<T>, timeout, waited)->Park_remaining is None),
{
}

/// Writing to a cell that has a value changes nothing, however many writes
/// follow.
pub proof fn lemma_written_cell_keeps_value<T>(first: T, values: Seq<T>)
    ensures
        after_sets(Some(first), values) == Some(first),
    decreases values.len(),
{
    if values.len() > 0 {
        lemma_written_cell_keeps_value(first, values.drop_first());
    }
}

/// Of any sequence of writes to an empty cell exactly one is accepted, the
/// first, and from then on every reader sees that write's value.
pub proof fn lemma_exactly_one_set_succeeds<T>(values: Seq<T>)
    ensures
        forall|i: int| 0 <= i < values.len() ==> (accepted_at(None, values, i) <==> i == 0),
        forall|k: int|
            1 <= k <= values.len() ==> #[trigger] after_sets(None, values.take(k)) == Some(
                values[0],
            ),
{
    assert forall|k: int| 1 <= k <= values.len() implies #[trigger] after_sets(
        None,
        values.take(k),
    ) == Some(values[0]) by {
        let prefix = values.take(k);
        assert(prefix[0] == values[0]);
        lemma_written_cell_keeps_value(values[0], prefix.drop_first());
    }
    assert forall|i: int| 0 <= i < values.len() implies (accepted_at(None::<T>, values, i) <==> i
        == 0) by {
        if i == 0 {
            assert(values.take(0).len() == 0);
        }
    }
}

} // verus!
