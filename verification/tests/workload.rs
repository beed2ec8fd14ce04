use swap_bench::workload::{ReadBatch, Task, Workload};
use swap_bench::staging::{elapsed_millis, GroupQueue};

#[test]
fn startup_has_readers_only() {
    let w = Workload::startup();
    assert_eq!(w.initial, 3);
    assert_eq!(w.first_update, None);
    assert_eq!(w.readers, 20);
    assert_eq!(w.batch, ReadBatch::Quintuple);
    assert_eq!(w.writers, 0);
    assert_eq!(w.rounds, 20000);
    assert_eq!(w.groups, 1);
}

#[test]
fn staged_prepares_ten_groups() {
    let w = Workload::staged();
    assert_eq!((w.initial, w.readers, w.writers, w.rounds, w.groups), (0, 20, 20, 2000, 10));
    assert_eq!(w.batch, ReadBatch::Quintuple);
}

#[test]
fn contended_workloads_differ_only_in_batch() {
    let m = Workload::contended_multi();
    let s = Workload::contended_single();
    assert_eq!(m.batch, ReadBatch::Quintuple);
    assert_eq!(s.batch, ReadBatch::Single);
    assert_eq!(Workload { batch: ReadBatch::Quintuple, ..s }, m);
    assert_eq!((m.initial, m.readers, m.writers, m.rounds), (0, 20, 20, 20000));
}

#[test]
fn read_heavy_workloads_have_no_writer() {
    for w in [Workload::read_heavy_single(), Workload::read_heavy_multi()] {
        assert_eq!(w.writers, 0);
        assert_eq!(w.rounds, 200000);
        assert_eq!(w.initial, 3);
    }
    assert_eq!(Workload::read_heavy_single().batch, ReadBatch::Single);
    assert_eq!(Workload::read_heavy_multi().batch, ReadBatch::Quintuple);
}

#[test]
fn smoke_multi_updates_before_start() {
    let w = Workload::smoke_multi();
    assert_eq!(w.initial, 4);
    assert_eq!(w.first_update, Some(31));
    assert_eq!((w.readers, w.writers, w.rounds), (20, 20, 20000));
}

#[test]
fn smoke_single_is_short() {
    let w = Workload::smoke_single();
    assert_eq!((w.initial, w.readers, w.writers, w.rounds), (3, 20, 20, 2000));
    assert_eq!(w.batch, ReadBatch::Single);
}

#[test]
fn plan_lists_readers_then_writers() {
    let w = Workload { initial: 0, first_update: None, readers: 2, batch: ReadBatch::Single,
        writers: 3, rounds: 7, groups: 1 };
    let tasks = w.plan();
    let read = Task::Read { batch: ReadBatch::Single, rounds: 7 };
    let write = Task::Write { rounds: 7 };
    assert_eq!(tasks, vec![read, read, write, write, write]);
}

#[test]
fn plan_of_full_workload_has_forty_threads() {
    let tasks = Workload::contended_multi().plan();
    assert_eq!(tasks.len(), 40);
    assert!(tasks[..20].iter().all(|t| *t == Task::Read { batch: ReadBatch::Quintuple, rounds: 20000 }));
    assert!(tasks[20..].iter().all(|t| *t == Task::Write { rounds: 20000 }));
}

#[test]
fn plan_without_threads_is_empty() {
    let w = Workload { initial: 1, first_update: None, readers: 0, batch: ReadBatch::Quintuple,
        writers: 0, rounds: 5, groups: 1 };
    assert!(w.plan().is_empty());
}

#[test]
fn plan_of_read_only_workload_has_no_writer() {
    let tasks = Workload::read_heavy_single().plan();
    assert_eq!(tasks.len(), 20);
    assert!(tasks.iter().all(|t| matches!(t, Task::Read { batch: ReadBatch::Single, rounds: 200000 })));
}

#[test]
fn groups_are_released_in_preparation_order() {
    let mut q = GroupQueue::new();
    assert_eq!(q.release_next(), None::<u32>);
    q.prepare(10u32);
    q.prepare(20);
    q.prepare(30);
    assert_eq!(q.len(), 3);
    assert_eq!(q.release_next(), Some(10));
    q.prepare(40);
    assert_eq!(q.release_next(), Some(20));
    assert_eq!(q.release_next(), Some(30));
    assert_eq!(q.release_next(), Some(40));
    assert_eq!(q.release_next(), None);
    assert_eq!(q.len(), 0);
}

#[test]
fn elapsed_is_end_minus_start() {
    assert_eq!(elapsed_millis(1_700_000_000_000, 1_700_000_000_250), 250);
    assert_eq!(elapsed_millis(5, 5), 0);
}
