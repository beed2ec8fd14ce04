use swap_bench::workload::{ReadBatch, Task, Workload};
use swap_bench::worker::{prepare_cell, read_quintuple, read_single, run_task, write_random};

fn small(first_update: Option<i32>) -> Workload {
    Workload { initial: 4, first_update, readers: 2, batch: ReadBatch::Quintuple,
        writers: 2, rounds: 50, groups: 1 }
}

#[test]
fn loops_run_on_a_private_cell() {
    let cell = prepare_cell(&small(None));
    read_single(&cell, 10);
    read_quintuple(&cell, 10);
    write_random(&cell, 10);
    read_quintuple(&cell, 0);
}

#[test]
fn prepared_cell_with_first_update_runs_every_task() {
    let w = small(Some(31));
    let cell = prepare_cell(&w);
    for task in w.plan() {
        run_task(&cell, task);
    }
    run_task(&cell, Task::Read { batch: ReadBatch::Single, rounds: 3 });
}
