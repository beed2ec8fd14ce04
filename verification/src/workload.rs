use vstd::prelude::*;

verus! {

/// How many loads a reader takes per round before it lets the guards go.
#[derive(Clone, Copy, Debug, PartialEq, Eq, Structural)]
pub enum ReadBatch {
    /// One load per round.
    Single,
    /// Five loads per round, all five guards held at once.
    Quintuple,
}

/// The work one spawned thread performs on the shared cell.
#[derive(Clone, Copy, Debug, PartialEq, Eq, Structural)]
pub enum Task {
    /// `rounds` rounds of loads, `batch` loads per round.
    Read { batch: ReadBatch, rounds: u64 },
    /// `rounds` stores of fresh random values.
    Write { rounds: u64 },
}

/// The shape of one benchmark run over a shared cell.
#[derive(Clone, Copy, Debug, PartialEq, Eq, Structural)]
pub struct Workload {
    /// The value the cell is built with.
    pub initial: i32,
    /// A value stored once, before any thread starts.
    pub first_update: Option<i32>,
    /// Number of reader threads.
    pub readers: u64,
    /// Loads per reader round.
    pub batch: ReadBatch,
    /// Number of writer threads.
    pub writers: u64,
    /// Rounds each thread runs.
    pub rounds: u64,
    /// Number of groups of threads in the run; each group runs `plan()`, and the
    /// groups pass through a `GroupQueue`, released in the order prepared.
    pub groups: u64,
}

/// Loads a reader takes in one round.
pub open spec fn batch_loads(batch: ReadBatch) -> nat {
    match batch {
        ReadBatch::Single => 1,
        ReadBatch::Quintuple => 5,
    }
}

/// Loads a task makes on the cell: its batch size per round for a reader, none
/// for a writer.
pub open spec fn task_loads(task: Task) -> nat {
    match task {
        Task::Read { batch, rounds } => batch_loads(batch) * (rounds as nat),
        Task::Write { .. } => 0,
    }
}

/// Stores a task makes on the cell: one per round for a writer, none for a
/// reader.
pub open spec fn task_stores(task: Task) -> nat {
    match task {
        Task::Read { .. } => 0,
        Task::Write { rounds } => rounds as nat,
    }
}

/// Loads made by all of `tasks` together.
pub open spec fn total_loads(tasks: Seq<Task>) -> nat
    decreases tasks.len(),
{
    if tasks.len() == 0 {
        0
    } else {
        total_loads(tasks.drop_last()) + task_loads(tasks.last())
    }
}

/// Stores made by all of `tasks` together.
pub open spec fn total_stores(tasks: Seq<Task>) -> nat
    decreases tasks.len(),
{
    if tasks.len() == 0 {
        0
    } else {
        total_stores(tasks.drop_last()) + task_stores(tasks.last())
    }
}

proof fn lemma_totals_concat(a: Seq<Task>, b: Seq<Task>)
    ensures
        total_loads(a + b) == total_loads(a) + total_loads(b),
        total_stores(a + b) == total_stores(a) + total_stores(b),
    decreases b.len(),
{
    if b.len() == 0 {
        assert(a + b =~= a);
    } else {
        lemma_totals_concat(a, b.drop_last());
        assert((a + b).drop_last() =~= a + b.drop_last());
        assert((a + b).last() == b.last());
    }
}

proof fn lemma_totals_repeat(n: nat, t: Task)
    ensures
        total_loads(Seq::new(n, |i: int| t)) == n * task_loads(t),
        total_stores(Seq::new(n, |i: int| t)) == n * task_stores(t),
    decreases n,
{
    let s = Seq::new(n, |i: int| t);
    if n == 0 {
        assert(total_loads(s) == 0);
        assert(total_stores(s) == 0);
    } else {
        let m = (n - 1) as nat;
        lemma_totals_repeat(m, t);
        assert(s.drop_last() =~= Seq::new(m, |i: int| t));
        assert(s.last() == t);
        assert(total_loads(s) == total_loads(s.drop_last()) + task_loads(t));
        assert(total_stores(s) == total_stores(s.drop_last()) + task_stores(t));
        let a = task_loads(t);
        let b = task_stores(t);
        assert(n * a == m * a + a) by (nonlinear_arith)
            requires n == m + 1;
        assert(n * b == m * b + b) by (nonlinear_arith)
            requires n == m + 1;
    }
}

/// The tasks of one group of a run together make `readers * rounds` reader
/// rounds of `batch_loads(batch)` loads each, and `writers * rounds` stores:
/// the sum of what `perform` reports for each planned task.
pub proof fn lemma_group_work(w: Workload)
    ensures
        total_loads(spec_plan(w)) == w.readers * (batch_loads(w.batch) * w.rounds),
        total_stores(spec_plan(w)) == w.writers * w.rounds,
{
    let read = Task::Read { batch: w.batch, rounds: w.rounds };
    let write = Task::Write { rounds: w.rounds };
    assert(Seq::new(w.readers as nat, |i: int| Task::Read { batch: w.batch, rounds: w.rounds })
        =~= Seq::new(w.readers as nat, |i: int| read));
    assert(Seq::new(w.writers as nat, |i: int| Task::Write { rounds: w.rounds })
        =~= Seq::new(w.writers as nat, |i: int| write));
    let reads = Seq::new(w.readers as nat, |i: int| read);
    let writes = Seq::new(w.writers as nat, |i: int| write);
    assert(spec_plan(w) =~= reads + writes);
    lemma_totals_concat(reads, writes);
    assert(task_loads(read) == batch_loads(w.batch) * w.rounds);
    assert(task_stores(read) == 0);
    assert(task_loads(write) == 0);
    let r = w.readers as nat;
    let k = w.writers as nat;
    assert(k * 0 == 0) by (nonlinear_arith);
    assert(r * 0 == 0) by (nonlinear_arith);
    lemma_totals_repeat(w.readers as nat, read);
    lemma_totals_repeat(w.writers as nat, write);
}

/// The value a run's cell holds when its threads start: the first update when
/// there is one, else the initial value.
pub open spec fn spec_start_value(w: Workload) -> i32 {
    match w.first_update {
        Some(v) => v,
        None => w.initial,
    }
}

/// The one-load benchmark is the five-load one with a single load per reader
/// round: same initial value, thread counts, rounds and group count.
pub proof fn lemma_single_is_multi_with_one_load()
    ensures
        Workload::contended_single() == (Workload { batch: ReadBatch::Single, ..Workload::contended_multi() }),
        spec_plan(Workload::contended_single()).len() == spec_plan(Workload::contended_multi()).len(),
{
}

/// The short smoke run is the long one started from 3 with no first update,
/// with a single load per reader round and a tenth of the rounds; the thread
/// counts are the same.
pub proof fn lemma_smoke_single_from_multi()
    ensures
        Workload::smoke_single() == (Workload {
            initial: 3,
            first_update: None,
            batch: ReadBatch::Single,
            rounds: (Workload::smoke_multi().rounds / 10) as u64,
            ..Workload::smoke_multi()
        }),
{
}

/// A run starts from its first update when it has one, and from its initial
/// value only when it has none.
pub proof fn lemma_start_value(w: Workload)
    ensures
        w.first_update matches Some(v) ==> spec_start_value(w) == v,
        w.first_update is None ==> spec_start_value(w) == w.initial,
        spec_start_value(w) == w.initial || w.first_update == Some(spec_start_value(w)),
{
}

/// The threads of one run, in spawn order: every reader, then every writer.
pub open spec fn spec_plan(w: Workload) -> Seq<Task> {
    Seq::new(w.readers as nat, |i: int| Task::Read { batch: w.batch, rounds: w.rounds })
        + Seq::new(w.writers as nat, |i: int| Task::Write { rounds: w.rounds })
}

/// Every group of a run has one thread per reader and per writer; the readers
/// come first, and every thread runs the same number of rounds, readers with the
/// run's batch size.
pub proof fn lemma_plan_layout(w: Workload)
    ensures
        spec_plan(w).len() == w.readers + w.writers,
        forall|i: int| 0 <= i < w.readers ==>
            #[trigger] spec_plan(w)[i] == (Task::Read { batch: w.batch, rounds: w.rounds }),
        forall|i: int| w.readers <= i < w.readers + w.writers ==>
            #[trigger] spec_plan(w)[i] == (Task::Write { rounds: w.rounds }),
{
}

impl Workload {
    /// The start-up run: 20 readers taking five loads per round for 20000 rounds
    /// on a cell built with 3, and no writer.
    #[verifier::allow_in_spec]
    pub fn startup() -> (w: Workload)
        returns
            (Workload { initial: 3, first_update: None, readers: 20,
                batch: ReadBatch::Quintuple, writers: 0, rounds: 20000, groups: 1 }),
    {
        Workload { initial: 3, first_update: None, readers: 20,
            batch: ReadBatch::Quintuple, writers: 0, rounds: 20000, groups: 1 }
    }

    /// Ten groups, each of 20 readers (five loads per round) and 20 writers, 2000
    /// rounds per thread, on a cell built with 0.
    #[verifier::allow_in_spec]
    pub fn staged() -> (w: Workload)
        returns
            (Workload { initial: 0, first_update: None, readers: 20,
                batch: ReadBatch::Quintuple, writers: 20, rounds: 2000, groups: 10 }),
    {
        Workload { initial: 0, first_update: None, readers: 20,
            batch: ReadBatch::Quintuple, writers: 20, rounds: 2000, groups: 10 }
    }

    /// 20 readers taking five loads per round and 20 writers, 20000 rounds each,
    /// on a cell built with 0.
    #[verifier::allow_in_spec]
    pub fn contended_multi() -> (w: Workload)
        returns
            (Workload { initial: 0, first_update: None, readers: 20,
                batch: ReadBatch::Quintuple, writers: 20, rounds: 20000, groups: 1 }),
    {
        Workload { initial: 0, first_update: None, readers: 20,
            batch: ReadBatch::Quintuple, writers: 20, rounds: 20000, groups: 1 }
    }

    /// 20 readers taking one load per round and 20 writers, 20000 rounds each,
    /// on a cell built with 0.
    #[verifier::allow_in_spec]
    pub fn contended_single() -> (w: Workload)
        returns
            (Workload { initial: 0, first_update: None, readers: 20,
                batch: ReadBatch::Single, writers: 20, rounds: 20000, groups: 1 }),
    {
        Workload { initial: 0, first_update: None, readers: 20,
            batch: ReadBatch::Single, writers: 20, rounds: 20000, groups: 1 }
    }

    /// 20 readers taking one load per round for 200000 rounds on a cell built
    /// with 3, and no writer.
    #[verifier::allow_in_spec]
    pub fn read_heavy_single() -> (w: Workload)
        returns
            (Workload { initial: 3, first_update: None, readers: 20,
                batch: ReadBatch::Single, writers: 0, rounds: 200000, groups: 1 }),
    {
        Workload { initial: 3, first_update: None, readers: 20,
            batch: ReadBatch::Single, writers: 0, rounds: 200000, groups: 1 }
    }

    /// 20 readers taking five loads per round for 200000 rounds on a cell built
    /// with 3, and no writer.
    #[verifier::allow_in_spec]
    pub fn read_heavy_multi() -> (w: Workload)
        returns
            (Workload { initial: 3, first_update: None, readers: 20,
                batch: ReadBatch::Quintuple, writers: 0, rounds: 200000, groups: 1 }),
    {
        Workload { initial: 3, first_update: None, readers: 20,
            batch: ReadBatch::Quintuple, writers: 0, rounds: 200000, groups: 1 }
    }

    /// A cell built with 4 and then set to 31 before any thread starts, read by
    /// 20 readers taking five loads per round and written by 20 writers, 20000
    /// rounds each.
    #[verifier::allow_in_spec]
    pub fn smoke_multi() -> (w: Workload)
        returns
            (Workload { initial: 4, first_update: Some(31i32), readers: 20,
                batch: ReadBatch::Quintuple, writers: 20, rounds: 20000, groups: 1 }),
    {
        Workload { initial: 4, first_update: Some(31), readers: 20,
            batch: ReadBatch::Quintuple, writers: 20, rounds: 20000, groups: 1 }
    }

    /// 20 readers taking one load per round and 20 writers, 2000 rounds each, on
    /// a cell built with 3.
    #[verifier::allow_in_spec]
    pub fn smoke_single() -> (w: Workload)
        returns
            (Workload { initial: 3, first_update: None, readers: 20,
                batch: ReadBatch::Single, writers: 20, rounds: 2000, groups: 1 }),
    {
        Workload { initial: 3, first_update: None, readers: 20,
            batch: ReadBatch::Single, writers: 20, rounds: 2000, groups: 1 }
    }

    /// The tasks of one group of threads, in the order they are spawned: all
    /// readers first, then all writers.
    pub fn plan(&self) -> (tasks: Vec<Task>)
        ensures
            tasks@ == spec_plan(*self),
    {
        let mut tasks: Vec<Task> = Vec::new();
        let read = Task::Read { batch: self.batch, rounds: self.rounds };
        let write = Task::Write { rounds: self.rounds };
        let mut i: u64 = 0;
        while i < self.readers
            invariant
                i <= self.readers,
                tasks@ == Seq::new(i as nat, |k: int| Task::Read { batch: self.batch, rounds: self.rounds }),
                read == (Task::Read { batch: self.batch, rounds: self.rounds }),
            decreases self.readers - i,
        {
            tasks.push(read);
            i = i + 1;
        }
        let mut j: u64 = 0;
        while j < self.writers
            invariant
                j <= self.writers,
                tasks@ == Seq::new(self.readers as nat, |k: int| Task::Read { batch: self.batch, rounds: self.rounds })
                    + Seq::new(j as nat, |k: int| Task::Write { rounds: self.rounds }),
                write == (Task::Write { rounds: self.rounds }),
            decreases self.writers - j,
        {
            tasks.push(write);
            j = j + 1;
        }
        tasks
    }
}

} // verus!
