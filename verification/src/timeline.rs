//! The record of what was asked of the device: writes to buffers,
//! submissions that read buffers, and waits for submissions to finish.
//!
//! Submissions are numbered from one, in order. The device works through
//! them in that order, so a wait for submission `q` also ends every
//! submission before it.

use vstd::prelude::*;

verus! {

/// One operation on the device.
pub enum DeviceOp {
    /// The processor wrote to a buffer.
    Write { buffer: int },
    /// Work that reads the buffers `buffers` was submitted as number `point`.
    Submit { point: int, buffers: Seq<int> },
    /// The processor waited until submission number `point` had finished.
    Wait { point: int },
}

/// The number of submissions in `log`.
pub open spec fn submissions(log: Seq<DeviceOp>) -> int
    decreases log.len(),
{
    if log.len() == 0 {
        0
    } else if log.last() is Submit {
        submissions(log.drop_last()) + 1
    } else {
        submissions(log.drop_last())
    }
}

/// The latest submission that `log` waited for, or zero.
pub open spec fn waited(log: Seq<DeviceOp>) -> int
    decreases log.len(),
{
    if log.len() == 0 {
        0
    } else {
        let before = waited(log.drop_last());
        match log.last() {
            DeviceOp::Wait { point } => if point > before {
                point
            } else {
                before
            },
            _ => before,
        }
    }
}

/// The latest submission in `log` that reads `buffer`, or zero.
pub open spec fn last_use(log: Seq<DeviceOp>, buffer: int) -> int
    decreases log.len(),
{
    if log.len() == 0 {
        0
    } else {
        let before = last_use(log.drop_last(), buffer);
        match log.last() {
            DeviceOp::Submit { point, buffers } => if buffers.contains(buffer) && point > before {
                point
            } else {
                before
            },
            _ => before,
        }
    }
}

/// Submissions are numbered from one in the order they were made, and every
/// wait is for a submission made before it.
pub open spec fn well_numbered(log: Seq<DeviceOp>) -> bool {
    forall|i: int|
        0 <= i < log.len() ==> match #[trigger] log[i] {
            DeviceOp::Submit { point, .. } => point == submissions(log.take(i)) + 1,
            DeviceOp::Wait { point } => 1 <= point <= submissions(log.take(i)),
            DeviceOp::Write { .. } => true,
        }
}

/// Operation `k` of `log` is a wait that ends submission `point`.
pub open spec fn wait_covers(log: Seq<DeviceOp>, k: int, point: int) -> bool {
    0 <= k < log.len() && match log[k] {
        DeviceOp::Wait { point: q } => q >= point,
        _ => false,
    }
}

/// No buffer is written while a submission that reads it may still run:
/// between a submission that reads a buffer and a later write to that buffer
/// stands a wait that ends the submission.
pub open spec fn synchronized(log: Seq<DeviceOp>) -> bool {
    forall|i: int, j: int|
        0 <= i < j < log.len() ==> match (#[trigger] log[i], #[trigger] log[j]) {
            (DeviceOp::Submit { point, buffers }, DeviceOp::Write { buffer }) => buffers.contains(
                buffer,
            ) ==> exists|k: int| i < k < j && #[trigger] wait_covers(log, k, point),
            _ => true,
        }
}

/// Counting in a longer log agrees with counting in its prefix.
pub proof fn lemma_take_push(log: Seq<DeviceOp>, op: DeviceOp, i: int)
    requires
        0 <= i <= log.len(),
    ensures
        log.push(op).take(i) == log.take(i),
        log.push(op).take(log.len() as int + 1) == log.push(op),
        log.push(op).drop_last() == log,
{
}

/// The number of submissions grows along the log.
pub proof fn lemma_submissions_monotone(log: Seq<DeviceOp>, i: int, j: int)
    requires
        0 <= i <= j <= log.len(),
    ensures
        0 <= submissions(log.take(i)) <= submissions(log.take(j)),
    decreases j - i, j,
{
    if i < j {
        lemma_submissions_monotone(log, i, j - 1);
        assert(log.take(j).drop_last() == log.take(j - 1));
    } else if i > 0 {
        lemma_submissions_monotone(log, i - 1, i - 1);
        assert(log.take(i).drop_last() == log.take(i - 1));
    }
}

/// Where `log` has waited for a submission, it holds the wait.
pub proof fn lemma_waited_has_witness(log: Seq<DeviceOp>) -> (k: int)
    requires
        waited(log) > 0,
    ensures
        0 <= k < log.len(),
        log[k] == (DeviceOp::Wait { point: waited(log) }),
    decreases log.len(),
{
    let front = log.drop_last();
    match log.last() {
        DeviceOp::Wait { point } => {
            if point > waited(front) {
                log.len() - 1
            } else {
                lemma_waited_has_witness(front)
            }
        },
        _ => lemma_waited_has_witness(front),
    }
}

/// Every submission in `log` that reads `buffer` is numbered at most
/// `last_use(log, buffer)`.
pub proof fn lemma_last_use_bounds(log: Seq<DeviceOp>, buffer: int, i: int)
    requires
        0 <= i < log.len(),
        log[i] is Submit,
        log[i]->Submit_buffers.contains(buffer),
    ensures
        log[i]->Submit_point <= last_use(log, buffer),
    decreases log.len(),
{
    let front = log.drop_last();
    if i < log.len() - 1 {
        lemma_last_use_bounds(front, buffer, i);
    }
}

/// A write to a buffer that no unfinished submission reads keeps the log
/// synchronized.
pub proof fn lemma_write_when_idle(log: Seq<DeviceOp>, buffer: int)
    requires
        well_numbered(log),
        synchronized(log),
        last_use(log, buffer) <= waited(log),
    ensures
        well_numbered(log.push(DeviceOp::Write { buffer })),
        synchronized(log.push(DeviceOp::Write { buffer })),
        submissions(log.push(DeviceOp::Write { buffer })) == submissions(log),
        waited(log.push(DeviceOp::Write { buffer })) == waited(log),
        forall|b: int| last_use(log.push(DeviceOp::Write { buffer }), b) == last_use(log, b),
{
    let op = DeviceOp::Write { buffer };
    let next = log.push(op);
    let n = log.len() as int;
    lemma_take_push(log, op, n);
    assert forall|i: int| 0 <= i < next.len() implies match #[trigger] next[i] {
        DeviceOp::Submit { point, .. } => point == submissions(next.take(i)) + 1,
        DeviceOp::Wait { point } => 1 <= point <= submissions(next.take(i)),
        DeviceOp::Write { .. } => true,
    } by {
        if i < n {
            lemma_take_push(log, op, i);
            assert(next[i] == log[i]);
        }
    }
    assert forall|i: int, j: int| 0 <= i < j < next.len() implies match (
        #[trigger] next[i],
        #[trigger] next[j],
    ) {
        (DeviceOp::Submit { point, buffers }, DeviceOp::Write { buffer }) => buffers.contains(
            buffer,
        ) ==> exists|k: int| i < k < j && #[trigger] wait_covers(next, k, point),
        _ => true,
    } by {
        assert(next[i] == log[i]);
        if j < n {
            assert(next[j] == log[j]);
            match (log[i], log[j]) {
                (DeviceOp::Submit { point, buffers }, DeviceOp::Write { buffer: b }) => {
                    if buffers.contains(b) {
                        let k = choose|k: int| i < k < j && #[trigger] wait_covers(log, k, point);
                        assert(next[k] == log[k]);
                        assert(wait_covers(next, k, point));
                    }
                },
                _ => {},
            }
        } else {
            match log[i] {
                DeviceOp::Submit { point, buffers } => {
                    if buffers.contains(buffer) {
                        lemma_last_use_bounds(log, buffer, i);
                        lemma_submissions_monotone(log, i, i);
                        assert(point == submissions(log.take(i)) + 1);
                        let k = lemma_waited_has_witness(log);
                        assert(log[k] == (DeviceOp::Wait { point: waited(log) }));
                        assert(waited(log) <= submissions(log.take(k)));
                        assert(point == submissions(log.take(i)) + 1);
                        if k <= i {
                            lemma_submissions_monotone(log, k, i);
                        }
                        assert(next[k] == log[k]);
                        assert(wait_covers(next, k, point));
                    }
                },
                _ => {},
            }
        }
    }
}

/// A submission under the next number keeps the log synchronized.
pub proof fn lemma_submit(log: Seq<DeviceOp>, buffers: Seq<int>)
    requires
        well_numbered(log),
        synchronized(log),
    ensures
        well_numbered(log.push(DeviceOp::Submit { point: submissions(log) + 1, buffers })),
        synchronized(log.push(DeviceOp::Submit { point: submissions(log) + 1, buffers })),
        submissions(log.push(DeviceOp::Submit { point: submissions(log) + 1, buffers }))
            == submissions(log) + 1,
        waited(log.push(DeviceOp::Submit { point: submissions(log) + 1, buffers })) == waited(log),
{
    let op = DeviceOp::Submit { point: submissions(log) + 1, buffers };
    lemma_append_other(log, op);
    assert(log.push(op).drop_last() == log);
}

/// A wait for a submission that was made keeps the log synchronized.
pub proof fn lemma_wait(log: Seq<DeviceOp>, point: int)
    requires
        well_numbered(log),
        synchronized(log),
        1 <= point <= submissions(log),
    ensures
        well_numbered(log.push(DeviceOp::Wait { point })),
        synchronized(log.push(DeviceOp::Wait { point })),
        submissions(log.push(DeviceOp::Wait { point })) == submissions(log),
        forall|b: int| last_use(log.push(DeviceOp::Wait { point }), b) == last_use(log, b),
{
    let op = DeviceOp::Wait { point };
    lemma_append_other(log, op);
    assert(log.push(op).drop_last() == log);
}

proof fn lemma_append_other(log: Seq<DeviceOp>, op: DeviceOp)
    requires
        well_numbered(log),
        synchronized(log),
        !(op is Write),
        op matches DeviceOp::Submit { point, .. } ==> point == submissions(log) + 1,
        op matches DeviceOp::Wait { point } ==> 1 <= point <= submissions(log),
    ensures
        well_numbered(log.push(op)),
        synchronized(log.push(op)),
{
    let next = log.push(op);
    let n = log.len() as int;
    lemma_take_push(log, op, n);
    assert(log.take(n) == log);
    assert forall|i: int| 0 <= i < next.len() implies match #[trigger] next[i] {
        DeviceOp::Submit { point, .. } => point == submissions(next.take(i)) + 1,
        DeviceOp::Wait { point } => 1 <= point <= submissions(next.take(i)),
        DeviceOp::Write { .. } => true,
    } by {
        lemma_take_push(log, op, i);
        if i < n {
            assert(next[i] == log[i]);
        }
    }
    assert forall|i: int, j: int| 0 <= i < j < next.len() implies match (
        #[trigger] next[i],
        #[trigger] next[j],
    ) {
        (DeviceOp::Submit { point, buffers }, DeviceOp::Write { buffer }) => buffers.contains(
            buffer,
        ) ==> exists|k: int| i < k < j && #[trigger] wait_covers(next, k, point),
        _ => true,
    } by {
        assert(next[i] == log[i]);
        if j < n {
            assert(next[j] == log[j]);
            match (log[i], log[j]) {
                (DeviceOp::Submit { point, buffers }, DeviceOp::Write { buffer: b }) => {
                    if buffers.contains(b) {
                        let k = choose|k: int| i < k < j && #[trigger] wait_covers(log, k, point);
                        assert(next[k] == log[k]);
                        assert(wait_covers(next, k, point));
                    }
                },
                _ => {},
            }
        }
    }
}

} // verus!
