//! Benchmark-only client timing marks. The marks hold only monotonic
//! timestamps, counters and queue sizes; no input or terminal content.
//! The caller supplies the clock reading for each mark.

use vstd::prelude::*;

verus! {

#[derive(Clone, Copy, Debug, Default, PartialEq, Eq, Structural)]
pub struct Pass7ClientBenchmarkMarks {
    pub admission_ns: u64,
    pub socket_complete_ns: u64,
    pub admission_count: u64,
    pub socket_complete_count: u64,
    pub queue_high_water_bytes: usize,
}

/// All marks cleared.
pub open spec fn cleared_marks() -> Pass7ClientBenchmarkMarks {
    Pass7ClientBenchmarkMarks {
        admission_ns: 0,
        socket_complete_ns: 0,
        admission_count: 0,
        socket_complete_count: 0,
        queue_high_water_bytes: 0,
    }
}

/// The larger of two queue sizes.
pub open spec fn high_water(a: usize, b: usize) -> usize {
    if a >= b {
        a
    } else {
        b
    }
}

/// The running set of benchmark marks.
#[derive(Debug)]
pub struct Pass7Recorder {
    marks: Pass7ClientBenchmarkMarks,
}

impl View for Pass7Recorder {
    type V = Pass7ClientBenchmarkMarks;

    closed spec fn view(&self) -> Pass7ClientBenchmarkMarks {
        self.marks
    }
}

impl Pass7Recorder {
    pub fn new() -> (r: Self)
        ensures
            r@ == cleared_marks(),
    {
        Pass7Recorder { marks: Pass7ClientBenchmarkMarks {
            admission_ns: 0,
            socket_complete_ns: 0,
            admission_count: 0,
            socket_complete_count: 0,
            queue_high_water_bytes: 0,
        } }
    }

    /// Clear every mark.
    pub fn reset(&mut self)
        ensures
            final(self)@ == cleared_marks(),
    {
        self.marks = Pass7ClientBenchmarkMarks {
            admission_ns: 0,
            socket_complete_ns: 0,
            admission_count: 0,
            socket_complete_count: 0,
            queue_high_water_bytes: 0,
        };
    }

    /// The current marks.
    pub fn marks(&self) -> (r: Pass7ClientBenchmarkMarks)
        ensures
            r == self@,
    {
        self.marks
    }

    /// Record an admitted input at `now_ns` with `queue_bytes` queued.
    pub fn mark_admission(&mut self, now_ns: u64, queue_bytes: usize)
        ensures
            final(self)@ == (Pass7ClientBenchmarkMarks {
                admission_ns: now_ns,
                queue_high_water_bytes: high_water(old(self)@.queue_high_water_bytes, queue_bytes),
                admission_count: old(self)@.admission_count.wrapping_add(1),
                ..old(self)@
            }),
    {
        self.marks.admission_ns = now_ns;
        self.observe_queue(queue_bytes);
        self.marks.admission_count = self.marks.admission_count.wrapping_add(1);
    }

    /// Record a completed socket write at `now_ns` with `queue_bytes` queued.
    pub fn mark_socket_complete(&mut self, now_ns: u64, queue_bytes: usize)
        ensures
            final(self)@ == (Pass7ClientBenchmarkMarks {
                socket_complete_ns: now_ns,
                queue_high_water_bytes: high_water(old(self)@.queue_high_water_bytes, queue_bytes),
                socket_complete_count: old(self)@.socket_complete_count.wrapping_add(1),
                ..old(self)@
            }),
    {
        self.marks.socket_complete_ns = now_ns;
        self.observe_queue(queue_bytes);
        self.marks.socket_complete_count = self.marks.socket_complete_count.wrapping_add(1);
    }

    /// Raise the queue high-water mark to `queue_bytes` if it is larger.
    pub fn observe_queue(&mut self, queue_bytes: usize)
        ensures
            final(self)@ == (Pass7ClientBenchmarkMarks {
                queue_high_water_bytes: high_water(old(self)@.queue_high_water_bytes, queue_bytes),
                ..old(self)@
            }),
            final(self)@.queue_high_water_bytes >= old(self)@.queue_high_water_bytes,
    {
        if queue_bytes > self.marks.queue_high_water_bytes {
            self.marks.queue_high_water_bytes = queue_bytes;
        }
    }
}

} // verus!
