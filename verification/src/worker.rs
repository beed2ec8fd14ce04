use vstd::prelude::*;
use std::sync::Arc;

use crate::cell::{cell_contents, opaque_use, random_value, SharedCell, Tally};
use crate::workload::{spec_start_value, task_loads, task_stores, ReadBatch, Task, Workload};

verus! {

/// Builds the shared cell of a run: it holds `w.initial`, and then
/// `w.first_update` when there is one, stored before any thread can see the cell.
pub fn prepare_cell(w: &Workload) -> (cell: SharedCell)
    ensures
        cell_contents(cell) == seq![spec_start_value(*w)],
        w.first_update matches Some(v) ==> cell_contents(cell) == seq![v],
        w.first_update is None ==> cell_contents(cell) == seq![w.initial],
{
    let mut cell = SharedCell::new(Arc::new(w.initial));
    match w.first_update {
        Some(value) => cell.store_exclusive(Arc::new(value)),
        None => {},
    }
    cell
}

/// A reader thread taking one load per round: each round loads the cell and
/// hands the guard to `black_box`. The tally it gives back shows one load per
/// round on `cell` and no store.
pub fn read_single<'a>(cell: &'a SharedCell, rounds: u64) -> (work: Tally<'a>)
    ensures
        work.cell() == *cell,
        work.loads() == rounds,
        work.stores() == 0,
{
    let mut work = Tally::on(cell);
    for round in 0..rounds
        invariant
            work.cell() == *cell,
            work.loads() == round,
            work.stores() == 0,
    {
        let l1 = work.load();
        opaque_use(l1);
    }
    work
}

/// A reader thread taking five loads per round: all five guards are live at
/// once before each goes to `black_box`. The tally it gives back shows five
/// loads per round on `cell` and no store.
pub fn read_quintuple<'a>(cell: &'a SharedCell, rounds: u64) -> (work: Tally<'a>)
    ensures
        work.cell() == *cell,
        work.loads() == 5 * rounds,
        work.stores() == 0,
{
    let mut work = Tally::on(cell);
    for round in 0..rounds
        invariant
            work.cell() == *cell,
            work.loads() == 5 * round,
            work.stores() == 0,
    {
        let l1 = work.load();
        let l2 = work.load();
        let l3 = work.load();
        let l4 = work.load();
        let l5 = work.load();
        opaque_use(l1);
        opaque_use(l2);
        opaque_use(l3);
        opaque_use(l4);
        opaque_use(l5);
    }
    work
}

/// A writer thread: each round stores a freshly drawn random value. The tally
/// it gives back shows one store per round on `cell` and no load.
pub fn write_random<'a>(cell: &'a SharedCell, rounds: u64) -> (work: Tally<'a>)
    ensures
        work.cell() == *cell,
        work.loads() == 0,
        work.stores() == rounds,
{
    let mut work = Tally::on(cell);
    for round in 0..rounds
        invariant
            work.cell() == *cell,
            work.loads() == 0,
            work.stores() == round,
    {
        work.store(Arc::new(random_value()));
    }
    work
}

/// Runs one task on the cell and gives back the work it made there: a reader
/// task makes its batch size of loads per round and no store, a writer task one
/// store per round and no load.
pub fn perform<'a>(cell: &'a SharedCell, task: Task) -> (work: Tally<'a>)
    ensures
        work.cell() == *cell,
        work.loads() == task_loads(task),
        work.stores() == task_stores(task),
{
    match task {
        Task::Read { batch: ReadBatch::Single, rounds } => read_single(cell, rounds),
        Task::Read { batch: ReadBatch::Quintuple, rounds } => read_quintuple(cell, rounds),
        Task::Write { rounds } => write_random(cell, rounds),
    }
}

/// Runs one task on the cell, as the thread it was planned for does
/// (`perform`, whose tally the thread has no use for).
pub fn run_task(cell: &SharedCell, task: Task) {
    let _work = perform(cell, task);
}

} // verus!
