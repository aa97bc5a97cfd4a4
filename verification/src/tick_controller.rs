//! Fixed-rate tick scheduler: busy-waits until each scheduled tick, keeps the
//! schedule phase-locked to the target rate when ticks are missed, and
//! measures the achieved frame rate about once a second.

use vstd::prelude::*;

verus! {

/// Nanoseconds in one second.
pub const NANOS_PER_SEC: u64 = 1_000_000_000;

/// Relies on std::time::SystemTime::now and its duration since the UNIX
/// epoch: the wall clock, in nanoseconds.  Nothing can be promised of the
/// value; a clock before the epoch reads as zero.
#[verifier::external_body]
fn now_nanos() -> (r: u64) {
    match std::time::SystemTime::now().duration_since(std::time::UNIX_EPOCH) {
        Ok(d) => d.as_nanos() as u64,
        Err(_) => 0,
    }
}

/// The scheduler.  All timestamps are wall-clock nanoseconds; `scheduled_tick`
/// is the target instant of the next tick and stays anchored to the original
/// schedule — it only ever advances by whole intervals.
pub struct TickController {
    pub target_fps: u32,
    pub frame_count: u64,
    pub current_tick_actual: u64,
    pub scheduled_tick: u64,
    pub previous_tick_actual: u64,
    pub tick_interval: u64,
    pub last_fps_check: u64,
    pub paused: bool,
}

impl TickController {
    /// A positive interval, as `from_target_fps` establishes it.
    pub open spec fn wf(self) -> bool {
        self.tick_interval >= 1
    }

    /// Stop counting this scheduler as running; the flag alone changes.
    pub fn pause(&mut self)
        ensures
            *final(self) == (TickController { paused: true, ..*old(self) }),
    {
        self.paused = true;
    }

    /// Resume after a pause; the flag alone changes.
    pub fn resume(&mut self)
        ensures
            *final(self) == (TickController { paused: false, ..*old(self) }),
    {
        self.paused = false;
    }

    /// A scheduler aimed at `target_fps` ticks per second, starting now: the
    /// interval is the whole number of nanoseconds per tick, and the first
    /// tick is scheduled for the moment of creation.
    pub fn from_target_fps(target_fps: u32) -> (r: TickController)
        requires
            1 <= target_fps,
            target_fps as u64 <= NANOS_PER_SEC,
        ensures
            r.wf(),
            r.target_fps == target_fps,
            r.tick_interval == NANOS_PER_SEC as u64 / target_fps as u64,
            r.frame_count == 0,
            !r.paused,
            r.scheduled_tick == r.current_tick_actual,
            r.previous_tick_actual == r.current_tick_actual,
    {
        let current_tick = now_nanos();
        let tick_interval = NANOS_PER_SEC / (target_fps as u64);
        proof {
            assert(NANOS_PER_SEC as int / (target_fps as u64) as int >= 1) by (nonlinear_arith)
                requires 1 <= (target_fps as u64) as int <= NANOS_PER_SEC as int,
            ;
        }
        let last_fps_check = now_nanos();
        TickController {
            target_fps,
            frame_count: 0,
            current_tick_actual: current_tick,
            scheduled_tick: current_tick,
            previous_tick_actual: current_tick,
            tick_interval,
            last_fps_check,
            paused: false,
        }
    }

    /// Block (by busy-polling the clock, trading processor time for low
    /// jitter) until the scheduled tick, then advance the schedule by one
    /// interval — and, if that target has already been missed, by as many
    /// further whole intervals as it takes to put it back in the future.
    /// The schedule thus keeps its phase: the new target is always the old
    /// one plus a whole number of intervals, never re-based on the current
    /// time (it saturates only at the far end of the representable range).
    /// About once a second the frame counter window is reset.
    pub fn wait_for_next_tick(&mut self)
        requires
            old(self).wf(),
            old(self).frame_count < 0xFFFF_FFFF_FFFF_FFFF,
        ensures
            final(self).wf(),
            final(self).target_fps == old(self).target_fps,
            final(self).tick_interval == old(self).tick_interval,
            final(self).paused == old(self).paused,
            final(self).frame_count == old(self).frame_count + 1 || final(self).frame_count == 0,
            final(self).previous_tick_actual == old(self).current_tick_actual,
            (exists|n: nat|
                1 <= n && final(self).scheduled_tick
                    == old(self).scheduled_tick + #[trigger] (n * old(self).tick_interval))
                || final(self).scheduled_tick == 0xFFFF_FFFF_FFFF_FFFF,
    {
        self.frame_count = self.frame_count + 1;
        let now0 = now_nanos();
        if now0 >= self.last_fps_check && now0 - self.last_fps_check > NANOS_PER_SEC {
            let _ = self.fps_check();
        }
        // busy-wait for the scheduled instant (bounded, so that the loop
        // provably terminates; the bound is far beyond any real spin)
        let mut fuel: u64 = 0xFFFF_FFFF_FFFF_FFFF;
        loop
            invariant true,
            decreases fuel,
        {
            let now = now_nanos();
            if now >= self.scheduled_tick || fuel == 0 {
                break;
            }
            fuel = fuel - 1;
        }
        // onset of the next tick: advance by whole intervals until the
        // target is back in the future
        let ghost sched0: u64 = self.scheduled_tick;
        let ghost interval: u64 = self.tick_interval;
        let ghost rest: TickController = *self;
        self.scheduled_tick = saturating_add(self.scheduled_tick, self.tick_interval);
        let now1 = now_nanos();
        let ghost mut n: nat = 1;
        while self.scheduled_tick < now1
            invariant
                self.tick_interval == interval,
                interval >= 1,
                1 <= n,
                self.scheduled_tick == sched0 + n * interval
                    || self.scheduled_tick == 0xFFFF_FFFF_FFFF_FFFF,
                self.target_fps == rest.target_fps,
                self.frame_count == rest.frame_count,
                self.paused == rest.paused,
                self.current_tick_actual == rest.current_tick_actual,
                self.previous_tick_actual == rest.previous_tick_actual,
                self.last_fps_check == rest.last_fps_check,
            decreases 0xFFFF_FFFF_FFFF_FFFFu64 - self.scheduled_tick,
        {
            self.scheduled_tick = saturating_add(self.scheduled_tick, self.tick_interval);
            proof {
                n = n + 1;
                assert((n - 1) * interval + interval == n * interval) by (nonlinear_arith);
            }
        }
        self.previous_tick_actual = self.current_tick_actual;
        self.current_tick_actual = now_nanos();
    }

    /// Wall-clock nanoseconds since the tick before the current one began:
    /// `elapsed_between` of the clock reading and that tick's timestamp.
    pub fn elapsed_since_last_tick(&self) -> (r: u64)
    {
        let now = now_nanos();
        elapsed_between(now, self.previous_tick_actual)
    }

    /// Report the measured rate of the closing window — `measured_rate` of
    /// the counted frames over the elapsed nanoseconds since the last check —
    /// and reset the window: the frame counter returns to zero and a new
    /// window starts now.  Whatever the clock read, the reported rate never
    /// exceeds the counted frames times a second's worth of nanoseconds.
    pub fn fps_check(&mut self) -> (r: u64)
        ensures
            r as int <= old(self).frame_count * NANOS_PER_SEC,
            final(self).frame_count == 0,
            final(self).target_fps == old(self).target_fps,
            final(self).tick_interval == old(self).tick_interval,
            final(self).scheduled_tick == old(self).scheduled_tick,
            final(self).current_tick_actual == old(self).current_tick_actual,
            final(self).previous_tick_actual == old(self).previous_tick_actual,
            final(self).paused == old(self).paused,
    {
        let now = now_nanos();
        let elapsed: u64 = elapsed_between(now, self.last_fps_check);
        let fps: u64 = measured_rate(self.frame_count, elapsed);
        self.frame_count = 0;
        self.last_fps_check = now;
        fps
    }
}

/// The time passed from `prev` to `now`, reading a clock step backward as no
/// time at all.
pub fn elapsed_between(now: u64, prev: u64) -> (r: u64)
    ensures
        r as int == if now >= prev { now - prev } else { 0int },
{
    if now >= prev {
        now - prev
    } else {
        0
    }
}

/// The rate a frame counter measures over a window of `elapsed_ns`
/// nanoseconds: frames per second, rounded down, saturating at the top of
/// the range, and zero for an empty window.
pub fn measured_rate(frames: u64, elapsed_ns: u64) -> (r: u64)
    ensures
        r as int == if elapsed_ns == 0 {
            0int
        } else {
            crate::rect::min_int((frames as int) * (NANOS_PER_SEC as int) / (elapsed_ns as int), 0xFFFF_FFFF_FFFF_FFFFu64 as int)
        },
        r as int <= frames * NANOS_PER_SEC,
{
    if elapsed_ns == 0 {
        return 0;
    }
    proof {
        assert(0 <= (frames as int) * (NANOS_PER_SEC as int)
            && (frames as int) * (NANOS_PER_SEC as int)
                < 0x1_0000_0000_0000_0000_0000_0000_0000_0000) by (nonlinear_arith)
            requires
                0 <= (frames as int) && (frames as int) < 0x1_0000_0000_0000_0000,
                NANOS_PER_SEC as int == 1_000_000_000,
        ;
    }
    let q: u128 = (frames as u128) * (NANOS_PER_SEC as u128) / (elapsed_ns as u128);
    proof {
        assert((frames as int) * (NANOS_PER_SEC as int) / (elapsed_ns as int)
            <= (frames as int) * (NANOS_PER_SEC as int)) by (nonlinear_arith)
            requires
                0 <= (frames as int) * (NANOS_PER_SEC as int),
                1 <= elapsed_ns as int,
        ;
    }
    if q > 0xFFFF_FFFF_FFFF_FFFF {
        0xFFFF_FFFF_FFFF_FFFF
    } else {
        q as u64
    }
}

/// Addition that sticks at the top of the range instead of wrapping.
fn saturating_add(a: u64, b: u64) -> (r: u64)
    ensures
        r as int == if a + b <= 0xFFFF_FFFF_FFFF_FFFF { a + b } else { 0xFFFF_FFFF_FFFF_FFFF as int },
{
    if a <= 0xFFFF_FFFF_FFFF_FFFF - b {
        a + b
    } else {
        0xFFFF_FFFF_FFFF_FFFF
    }
}

} // verus!
