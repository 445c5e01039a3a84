//! Frame timing windows and a pool of reusable frame buffers.
use vstd::prelude::*;

use std::collections::VecDeque;
use std::time::Duration;
use std::time::Instant;

use crate::clock::{duration_between, instant_now, time_between};

verus! {

/// The last `max` elements of `s` (all of them when there are fewer).
pub open spec fn keep_last<T>(s: Seq<T>, max: nat) -> Seq<T> {
    if s.len() <= max {
        s
    } else {
        s.subrange(s.len() - max, s.len() as int)
    }
}

/// Appending to a window and trimming it again keeps the same elements as
/// trimming the whole history: a window of the last `max` samples, fed one
/// sample at a time, always holds the last `max` samples of everything fed.
pub proof fn keep_last_push<T>(s: Seq<T>, d: T, max: nat)
    ensures
        keep_last(keep_last(s, max).push(d), max) == keep_last(s.push(d), max),
{
    let w = keep_last(s, max);
    assert(keep_last(w.push(d), max) =~= keep_last(s.push(d), max));
}

/// Appends `d` to `q` and drops the oldest sample if the window is over `max`.
fn push_sample(q: &mut VecDeque<Duration>, d: Duration, max: usize)
    requires
        old(q)@.len() <= max,
    ensures
        final(q)@ == keep_last(old(q)@.push(d), max as nat),
        final(q)@.len() <= max,
{
    q.push_back(d);
    if q.len() > max {
        q.pop_front();
    }
    assert(q@ =~= keep_last(old(q)@.push(d), max as nat));
}

/// Frame profiler for measuring capture performance: it keeps the durations
/// between the last frames and of the last captures, up to `max_samples` each.
pub struct FrameProfiler {
    frame_times: VecDeque<Duration>,
    capture_times: VecDeque<Duration>,
    max_samples: usize,
    last_frame_time: Option<Instant>,
}

impl FrameProfiler {
    #[verifier::type_invariant]
    spec fn windows_bounded(self) -> bool {
        &&& self.frame_times@.len() <= self.max_samples
        &&& self.capture_times@.len() <= self.max_samples
    }

    /// Durations between consecutive frame starts, oldest first.
    pub closed spec fn frame_log(self) -> Seq<Duration> {
        self.frame_times@
    }

    /// Durations of capture operations, oldest first.
    pub closed spec fn capture_log(self) -> Seq<Duration> {
        self.capture_times@
    }

    /// The most samples each window keeps.
    pub closed spec fn window(self) -> nat {
        self.max_samples as nat
    }

    /// When the last frame started, if one has.
    pub closed spec fn last_frame(self) -> Option<Instant> {
        self.last_frame_time
    }

    /// A frame starts at `now`, taking the profiler from `s` to `t`: the
    /// time since the previous frame start, if there was one, joins the
    /// frame window, which keeps its last `window()` samples; the first
    /// start only arms the timer. The capture window is left alone.
    pub open spec fn frame_started(s: FrameProfiler, t: FrameProfiler, now: Instant) -> bool {
        &&& t.capture_log() == s.capture_log()
        &&& t.window() == s.window()
        &&& t.last_frame() == Some(now)
        &&& t.frame_log().len() <= t.window()
        &&& s.last_frame() is None ==> t.frame_log() == s.frame_log()
        &&& s.last_frame() matches Some(last) ==> t.frame_log() == keep_last(
            s.frame_log().push(time_between(now, last)),
            s.window(),
        )
    }

    /// Create a new frame profiler.
    pub fn new(max_samples: usize) -> (p: Self)
        ensures
            p.frame_log() == Seq::<Duration>::empty(),
            p.capture_log() == Seq::<Duration>::empty(),
            p.window() == max_samples,
            p.last_frame() is None,
    {
        Self {
            frame_times: VecDeque::with_capacity(max_samples),
            capture_times: VecDeque::with_capacity(max_samples),
            max_samples,
            last_frame_time: None,
        }
    }

    /// Mark the start of a new frame, now.
    pub fn start_frame(&mut self)
        ensures
            final(self).last_frame() is Some,
            Self::frame_started(*old(self), *final(self), final(self).last_frame().unwrap()),
    {
        let now = instant_now();
        self.start_frame_at(now);
    }

    /// Mark the start of a new frame at `now`: the time since the previous
    /// frame start, if any, joins the frame window.
    pub fn start_frame_at(&mut self, now: Instant)
        ensures
            Self::frame_started(*old(self), *final(self), now),
    {
        proof {
            use_type_invariant(&*self);
        }
        if let Some(last) = self.last_frame_time {
            let frame_time = duration_between(now, last);
            let mut window: VecDeque<Duration> = VecDeque::new();
            std::mem::swap(&mut window, &mut self.frame_times);
            push_sample(&mut window, frame_time, self.max_samples);
            self.frame_times = window;
        }
        self.last_frame_time = Some(now);
    }

    /// Record a capture operation duration.
    pub fn record_capture(&mut self, duration: Duration)
        ensures
            final(self).capture_log() == keep_last(
                old(self).capture_log().push(duration),
                old(self).window(),
            ),
            final(self).frame_log() == old(self).frame_log(),
            final(self).window() == old(self).window(),
            final(self).last_frame() == old(self).last_frame(),
            final(self).capture_log().len() <= final(self).window(),
    {
        proof {
            use_type_invariant(&*self);
        }
        let mut window: VecDeque<Duration> = VecDeque::new();
        std::mem::swap(&mut window, &mut self.capture_times);
        push_sample(&mut window, duration, self.max_samples);
        self.capture_times = window;
    }

    /// The frame window, oldest first.
    pub fn frame_times(&self) -> (q: &VecDeque<Duration>)
        ensures
            q@ == self.frame_log(),
    {
        &self.frame_times
    }

    /// The capture window, oldest first.
    pub fn capture_times(&self) -> (q: &VecDeque<Duration>)
        ensures
            q@ == self.capture_log(),
    {
        &self.capture_times
    }

    /// Reset all statistics.
    pub fn reset(&mut self)
        ensures
            final(self).frame_log() == Seq::<Duration>::empty(),
            final(self).capture_log() == Seq::<Duration>::empty(),
            final(self).window() == old(self).window(),
            final(self).last_frame() is None,
    {
        proof {
            use_type_invariant(&*self);
        }
        let mut frames: VecDeque<Duration> = VecDeque::new();
        std::mem::swap(&mut frames, &mut self.frame_times);
        frames.clear();
        self.frame_times = frames;
        let mut captures: VecDeque<Duration> = VecDeque::new();
        std::mem::swap(&mut captures, &mut self.capture_times);
        captures.clear();
        self.capture_times = captures;
        self.last_frame_time = None;
    }
}

/// The times between consecutive frame starts at `starts`, in order.
pub open spec fn start_intervals(starts: Seq<Instant>) -> Seq<Duration> {
    Seq::new(
        if starts.len() > 0 {
            (starts.len() - 1) as nat
        } else {
            0
        },
        |i: int| time_between(starts[i + 1], starts[i]),
    )
}

/// `runs[k]` goes to `runs[k + 1]` by a frame start at `starts[k]`, for
/// each of the first `n` starts.
pub open spec fn frame_starts(runs: Seq<FrameProfiler>, starts: Seq<Instant>, n: int) -> bool {
    &&& 0 <= n <= starts.len()
    &&& runs.len() == starts.len() + 1
    &&& forall|k: int|
        0 <= k < n ==> #[trigger] FrameProfiler::frame_started(runs[k], runs[k + 1], starts[k])
}

proof fn lemma_frame_window_after(runs: Seq<FrameProfiler>, starts: Seq<Instant>, n: int)
    requires
        frame_starts(runs, starts, n),
        runs[0].frame_log() == Seq::<Duration>::empty(),
        runs[0].last_frame() is None,
        n > 0,
    ensures
        runs[n].window() == runs[0].window(),
        runs[n].last_frame() == Some(starts[n - 1]),
        runs[n].frame_log() == keep_last(start_intervals(starts.take(n)), runs[0].window()),
    decreases n,
{
    let m = runs[0].window();
    let j = n - 1;
    assert(FrameProfiler::frame_started(runs[j], runs[j + 1], starts[j]));
    assert(j + 1 == n);
    if n == 1 {
        assert(start_intervals(starts.take(1)) =~= Seq::<Duration>::empty());
    } else {
        lemma_frame_window_after(runs, starts, n - 1);
        let prev = start_intervals(starts.take(n - 1));
        let d = time_between(starts[n - 1], starts[n - 2]);
        assert(start_intervals(starts.take(n)) =~= prev.push(d));
        keep_last_push(prev, d, m);
    }
}

/// The frame window over a run of frame starts: after `k` starts at
/// `starts[0..k]` on a fresh (new or reset) profiler, the frame window
/// holds exactly the last `window()` of the `k - 1` times between
/// consecutive starts, oldest first, and the timer is armed at the last
/// start. A single start only arms the timer.
pub proof fn frame_window_over_starts(runs: Seq<FrameProfiler>, starts: Seq<Instant>, k: int)
    requires
        frame_starts(runs, starts, k),
        runs[0].frame_log() == Seq::<Duration>::empty(),
        runs[0].last_frame() is None,
        k > 0,
    ensures
        runs[k].frame_log() == keep_last(start_intervals(starts.take(k)), runs[0].window()),
        runs[k].window() == runs[0].window(),
        runs[k].last_frame() == Some(starts[k - 1]),
        k == 1 ==> runs[k].frame_log() == Seq::<Duration>::empty(),
{
    lemma_frame_window_after(runs, starts, k);
    if k == 1 {
        assert(start_intervals(starts.take(1)) =~= Seq::<Duration>::empty());
    }
}

/// `n` zero bytes.
fn zeroed(n: usize) -> (v: Vec<u8>)
    ensures
        v@ == Seq::new(n as nat, |i: int| 0u8),
{
    let mut v: Vec<u8> = Vec::with_capacity(n);
    while v.len() < n
        invariant
            v@.len() <= n,
            v@ == Seq::new(v@.len(), |i: int| 0u8),
        decreases n - v@.len(),
    {
        v.push(0);
        assert(v@ =~= Seq::new(v@.len(), |i: int| 0u8));
    }
    v
}

/// Memory pool for reusing frame buffers: every pooled buffer is
/// `buffer_size` zero bytes.
pub struct BufferPool {
    buffers: Vec<Vec<u8>>,
    buffer_size: usize,
}

/// Buffers left in a pool of `pooled` buffers after one is acquired.
pub open spec fn pooled_after_acquire(pooled: nat) -> nat {
    if pooled > 0 {
        (pooled - 1) as nat
    } else {
        0
    }
}

/// Buffers in a pool of `pooled` buffers of `size` bytes after a buffer of
/// `len` bytes is returned: only a buffer of the pool's size is kept.
pub open spec fn pooled_after_release(pooled: nat, len: nat, size: nat) -> nat {
    if len == size {
        pooled + 1
    } else {
        pooled
    }
}

/// Returning a buffer of the pool's size and acquiring one leaves the pool
/// as full as it was; acquiring from a non-empty pool and returning the
/// buffer does too.
pub proof fn release_acquire_balance(pooled: nat, size: nat)
    ensures
        pooled_after_acquire(pooled_after_release(pooled, size, size)) == pooled,
        pooled > 0 ==> pooled_after_release(pooled_after_acquire(pooled), size, size) == pooled,
{
}

/// The contents of a fresh buffer of `n` bytes.
pub open spec fn zero_bytes(n: nat) -> Seq<u8> {
    Seq::new(n, |i: int| 0u8)
}

impl BufferPool {
    #[verifier::type_invariant]
    spec fn pooled_buffers_are_clean(self) -> bool {
        forall|i: int|
            0 <= i < self.buffers@.len() ==> #[trigger] self.buffers@[i]@ == zero_bytes(
                self.buffer_size as nat,
            )
    }

    /// Number of buffers ready in the pool.
    pub closed spec fn pooled(self) -> nat {
        self.buffers@.len()
    }

    /// Size of the buffers the pool hands out.
    pub closed spec fn size(self) -> nat {
        self.buffer_size as nat
    }

    /// Create a new buffer pool holding `initial_capacity` buffers.
    pub fn new(buffer_size: usize, initial_capacity: usize) -> (p: Self)
        ensures
            p.size() == buffer_size,
            p.pooled() == initial_capacity,
    {
        let mut buffers: Vec<Vec<u8>> = Vec::with_capacity(initial_capacity);
        let mut i: usize = 0;
        while i < initial_capacity
            invariant
                0 <= i <= initial_capacity,
                buffers@.len() == i,
                forall|k: int|
                    0 <= k < buffers@.len() ==> #[trigger] buffers@[k]@ == zero_bytes(
                        buffer_size as nat,
                    ),
            decreases initial_capacity - i,
        {
            buffers.push(zeroed(buffer_size));
            i = i + 1;
        }
        Self { buffers, buffer_size }
    }

    /// Acquire a buffer from the pool, or a new one when the pool is empty;
    /// either way it is `size` zero bytes.
    pub fn acquire(&mut self) -> (b: Vec<u8>)
        ensures
            b@ == zero_bytes(old(self).size()),
            final(self).size() == old(self).size(),
            final(self).pooled() == pooled_after_acquire(old(self).pooled()),
    {
        proof {
            use_type_invariant(&*self);
        }
        let mut pool: Vec<Vec<u8>> = Vec::new();
        std::mem::swap(&mut pool, &mut self.buffers);
        let top = pool.pop();
        self.buffers = pool;
        match top {
            Some(b) => b,
            None => zeroed(self.buffer_size),
        }
    }

    /// Return a buffer to the pool; it is cleared first. A buffer of another
    /// size is dropped.
    pub fn release(&mut self, buffer: Vec<u8>)
        ensures
            final(self).size() == old(self).size(),
            final(self).pooled() == pooled_after_release(
                old(self).pooled(),
                buffer@.len(),
                old(self).size(),
            ),
    {
        proof {
            use_type_invariant(&*self);
        }
        let mut buffer = buffer;
        if buffer.len() == self.buffer_size {
            buffer.clear();
            while buffer.len() < self.buffer_size
                invariant
                    buffer@.len() <= self.buffer_size,
                    buffer@ == zero_bytes(buffer@.len()),
                decreases self.buffer_size - buffer@.len(),
            {
                buffer.push(0);
                assert(buffer@ =~= zero_bytes(buffer@.len()));
            }
            let mut pool: Vec<Vec<u8>> = Vec::new();
            std::mem::swap(&mut pool, &mut self.buffers);
            pool.push(buffer);
            self.buffers = pool;
        }
    }

    /// Get pool statistics: the number of buffers ready in the pool.
    pub fn available(&self) -> (n: usize)
        ensures
            n == self.pooled(),
    {
        self.buffers.len()
    }
}

} // verus!
