//! Gauges of the transport: pending responses and running tasks.

use vstd::prelude::*;

verus! {

/// A reading of all transport gauges.
#[derive(Clone, Copy, Debug, PartialEq, Eq, Structural)]
pub struct TransportMetrics {
    pub pending_responses: usize,
    pub send_tasks: usize,
    pub recv_tasks: usize,
}

impl Default for TransportMetrics {
    fn default() -> (metrics: Self)
        ensures
            metrics == (TransportMetrics { pending_responses: 0, send_tasks: 0, recv_tasks: 0 }),
    {
        TransportMetrics { pending_responses: 0, send_tasks: 0, recv_tasks: 0 }
    }
}

/// The value of a gauge that stood at `value` and then moved by `delta`.
/// Gauges are machine words: they wrap around at the word size.
pub open spec fn gauge_moved(value: usize, delta: int) -> usize {
    ((value as int + delta) % (usize::MAX as int + 1)) as usize
}

impl TransportMetrics {
    /// The metrics after the gauge of pending responses moved by `delta`.
    pub open spec fn pending_moved(self, delta: int) -> TransportMetrics {
        TransportMetrics {
            pending_responses: gauge_moved(self.pending_responses, delta),
            send_tasks: self.send_tasks,
            recv_tasks: self.recv_tasks,
        }
    }

    /// The metrics after the gauge of `kind` tasks moved by `delta`.
    pub open spec fn tasks_moved(self, kind: TaskKind, delta: int) -> TransportMetrics {
        match kind {
            TaskKind::Send => TransportMetrics {
                send_tasks: gauge_moved(self.send_tasks, delta),
                ..self
            },
            TaskKind::Receive => TransportMetrics {
                recv_tasks: gauge_moved(self.recv_tasks, delta),
                ..self
            },
        }
    }
}

/// The counters behind the gauges. Every table of pending responses and every
/// task of a process reports to one value of this type.
pub struct TransportCounters {
    pending_responses: usize,
    send_tasks: usize,
    recv_tasks: usize,
}

impl View for TransportCounters {
    type V = TransportMetrics;

    closed spec fn view(&self) -> TransportMetrics {
        TransportMetrics {
            pending_responses: self.pending_responses,
            send_tasks: self.send_tasks,
            recv_tasks: self.recv_tasks,
        }
    }
}

impl TransportCounters {
    /// Counters that all stand at zero.
    pub fn new() -> (counters: Self)
        ensures
            counters@ == (TransportMetrics { pending_responses: 0, send_tasks: 0, recv_tasks: 0 }),
    {
        TransportCounters { pending_responses: 0, send_tasks: 0, recv_tasks: 0 }
    }
}

/// The kinds of background tasks that are counted.
#[derive(Clone, Copy, Debug, PartialEq, Eq, Structural)]
pub enum TaskKind {
    /// A task that writes the outbound queue of a connection.
    Send,
    /// A task that reads the frames of a connection.
    Receive,
}

/// Proof of one counted task. It is given back with [`TaskGuard::finish`].
pub struct TaskGuard {
    kind: TaskKind,
}

impl View for TaskGuard {
    type V = TaskKind;

    closed spec fn view(&self) -> TaskKind {
        self.kind
    }
}

/// Reads all gauges.
pub fn snapshot(counters: &TransportCounters) -> (metrics: TransportMetrics)
    ensures
        metrics == counters@,
{
    TransportMetrics {
        pending_responses: counters.pending_responses,
        send_tasks: counters.send_tasks,
        recv_tasks: counters.recv_tasks,
    }
}

/// Counts one more pending response.
pub fn pending_registered(counters: &mut TransportCounters)
    ensures
        final(counters)@ == old(counters)@.pending_moved(1),
{
    proof {
        lemma_gauge_step(counters.pending_responses);
    }
    counters.pending_responses = counters.pending_responses.wrapping_add(1);
}

/// Counts one pending response less.
pub fn pending_removed(counters: &mut TransportCounters)
    ensures
        final(counters)@ == old(counters)@.pending_moved(-1),
{
    proof {
        lemma_gauge_step(counters.pending_responses);
    }
    counters.pending_responses = counters.pending_responses.wrapping_sub(1);
}

/// Counts one more send task.
pub fn send_task_started(counters: &mut TransportCounters) -> (guard: TaskGuard)
    ensures
        guard@ == TaskKind::Send,
        final(counters)@ == old(counters)@.tasks_moved(TaskKind::Send, 1),
{
    proof {
        lemma_gauge_step(counters.send_tasks);
    }
    counters.send_tasks = counters.send_tasks.wrapping_add(1);
    TaskGuard { kind: TaskKind::Send }
}

/// Counts one more receive task.
pub fn recv_task_started(counters: &mut TransportCounters) -> (guard: TaskGuard)
    ensures
        guard@ == TaskKind::Receive,
        final(counters)@ == old(counters)@.tasks_moved(TaskKind::Receive, 1),
{
    proof {
        lemma_gauge_step(counters.recv_tasks);
    }
    counters.recv_tasks = counters.recv_tasks.wrapping_add(1);
    TaskGuard { kind: TaskKind::Receive }
}

impl TaskGuard {
    /// Counts the task as ended.
    pub fn finish(self, counters: &mut TransportCounters)
        ensures
            final(counters)@ == old(counters)@.tasks_moved(self@, -1),
    {
        match self.kind {
            TaskKind::Send => {
                proof {
                    lemma_gauge_step(counters.send_tasks);
                }
                counters.send_tasks = counters.send_tasks.wrapping_sub(1);
            },
            TaskKind::Receive => {
                proof {
                    lemma_gauge_step(counters.recv_tasks);
                }
                counters.recv_tasks = counters.recv_tasks.wrapping_sub(1);
            },
        }
    }
}

/// Moving a gauge by one is the wrapping successor or predecessor of a word.
proof fn lemma_gauge_step(value: usize)
    ensures
        gauge_moved(value, 1) == (if value == usize::MAX { 0 } else { value + 1 }),
        gauge_moved(value, -1) == (if value == 0 { usize::MAX as int } else { value - 1 }),
        gauge_moved(value, 0) == value,
{
    let size = usize::MAX as int + 1;
    vstd::arithmetic::div_mod::lemma_small_mod(value as nat, size as nat);
    if value < usize::MAX {
        vstd::arithmetic::div_mod::lemma_small_mod((value + 1) as nat, size as nat);
    } else {
        vstd::arithmetic::div_mod::lemma_mod_add_multiples_vanish(0, size);
        vstd::arithmetic::div_mod::lemma_small_mod(0, size as nat);
    }
    if value > 0 {
        vstd::arithmetic::div_mod::lemma_small_mod((value - 1) as nat, size as nat);
    } else {
        vstd::arithmetic::div_mod::lemma_mod_add_multiples_vanish(-1, size);
        vstd::arithmetic::div_mod::lemma_small_mod((size - 1) as nat, size as nat);
    }
}

/// Two moves of a gauge are one move by their sum, and a move by nothing
/// leaves it where it stood.
pub proof fn law_gauge_moves_add_up(value: usize, first: int, second: int)
    ensures
        gauge_moved(gauge_moved(value, first), second) == gauge_moved(value, first + second),
        gauge_moved(value, 0) == value,
{
    let size = usize::MAX as int + 1;
    lemma_gauge_step(value);
    vstd::arithmetic::div_mod::lemma_mod_bound(value as int + first, size);
    vstd::arithmetic::div_mod::lemma_mod_bound(value as int + first + second, size);
    vstd::arithmetic::div_mod::lemma_add_mod_noop_right(second, value as int + first, size);
}

/// A task that starts and finishes leaves the metrics as they were.
pub proof fn law_finished_task_leaves_no_trace(metrics: TransportMetrics, kind: TaskKind)
    ensures
        metrics.tasks_moved(kind, 1).tasks_moved(kind, -1) == metrics,
{
    law_gauge_moves_add_up(metrics.send_tasks, 1, -1);
    law_gauge_moves_add_up(metrics.recv_tasks, 1, -1);
}

/// The gauge of pending responses counts the pending responses of all tables
/// together: where it stood at their number `total` and one table then changed
/// its size by `delta` while it moved the gauge by `delta`, it stands at the
/// new number, as long as that number fits a machine word.
pub proof fn law_pending_gauge_counts_all_tables(metrics: TransportMetrics, total: nat, delta: int)
    requires
        metrics.pending_responses == total,
        0 <= total + delta <= usize::MAX,
    ensures
        metrics.pending_moved(delta).pending_responses == total + delta,
{
    vstd::arithmetic::div_mod::lemma_small_mod((total + delta) as nat, (usize::MAX + 1) as nat);
}

} // verus!
