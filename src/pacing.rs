//! The frame clock: decides, after each frame, how long to wait before the
//! next one and when the configured duration has run out. Simulated time is
//! counted exactly in frames; wall-clock time in microseconds.
use vstd::prelude::*;
use vstd::arithmetic::div_mod::lemma_fundamental_div_mod;

verus! {

pub const MICROS_PER_UNIT: u64 = 1_000_000;

/// What the render loop does once a frame has been drawn.
#[derive(PartialEq, Eq, Structural, Clone, Copy, Debug)]
pub enum FrameAction {
    /// Sleep this many microseconds, then draw the next frame.
    Wait { micros: u64 },
    /// The configured duration has passed: leave the loop.
    Stop,
}

pub struct FrameClock {
    /// Target wall-clock interval between frames, in microseconds.
    pub frame_micros: u64,
    /// Frames per unit of simulated time.
    pub rate: u64,
    /// How long to run, in millionths of a unit of simulated time.
    pub duration_micros: u64,
    /// Frames drawn so far.
    pub frames: u128,
    /// Wall-clock time spent computing frames, in microseconds (saturating).
    pub total_compute: u64,
    /// Wall-clock time spent waiting between frames, in microseconds (saturating).
    pub total_wait: u64,
    /// Stop once simulated time reaches the duration, rather than once it is past it.
    pub reach_is_enough: bool,
}

/// After `frames` frames at `rate` frames per unit, simulated time is past `duration` millionths.
pub open spec fn past_duration(frames: int, rate: int, duration: int) -> bool {
    frames * MICROS_PER_UNIT > duration * rate
}

/// After `frames` frames simulated time has reached `duration` millionths.
pub open spec fn reached_duration(frames: int, rate: int, duration: int) -> bool {
    frames * MICROS_PER_UNIT >= duration * rate
}

/// Whether a clock stops after `frames` frames: once time is past the
/// duration, or, where `reach_is_enough`, once time has reached it.
pub open spec fn stops_after(frames: int, rate: int, duration: int, reach_is_enough: bool) -> bool {
    if reach_is_enough {
        reached_duration(frames, rate, duration)
    } else {
        past_duration(frames, rate, duration)
    }
}

/// The frame after which a clock at `rate` with `duration` millionths stops.
pub open spec fn run_length(rate: int, duration: int) -> int {
    duration * rate / MICROS_PER_UNIT as int + 1
}

/// The frame after which a clock that stops on reaching the duration stops:
/// the first at which time has reached it, and never before the first frame.
pub open spec fn inclusive_run_length(rate: int, duration: int) -> int {
    if duration * rate == 0 {
        1
    } else {
        (duration * rate + MICROS_PER_UNIT as int - 1) / MICROS_PER_UNIT as int
    }
}

/// How long to sleep after a frame that took `compute` of a `frame` interval.
pub open spec fn wait_for(frame: int, compute: int) -> int {
    if frame >= compute {
        frame - compute
    } else {
        0
    }
}

pub open spec fn add_saturating(a: int, b: int) -> int {
    if a + b > u64::MAX {
        u64::MAX as int
    } else {
        a + b
    }
}

impl FrameClock {
    pub open spec fn wf(&self) -> bool {
        &&& self.rate > 0
        &&& self.frame_micros == MICROS_PER_UNIT / self.rate
        &&& (self.frames == 0 || !stops_after(
            self.frames as int,
            self.rate as int,
            self.duration_micros as int,
            self.reach_is_enough,
        ))
        &&& self.frames as int * MICROS_PER_UNIT <= self.duration_micros as int * self.rate as int
    }

    /// A clock for `fr` frames per unit of simulated time, or one frame per
    /// unit in debug mode, running for `duration_micros` millionths of a unit.
    pub fn new(fr: u32, debug: bool, duration_micros: u64) -> (r: FrameClock)
        requires
            debug || fr > 0,
        ensures
            r.wf(),
            r.rate == (if debug { 1 } else { fr as u64 }),
            r.duration_micros == duration_micros,
            r.frames == 0,
            r.total_compute == 0,
            r.total_wait == 0,
            !r.reach_is_enough,
    {
        let rate: u64 = if debug { 1 } else { fr as u64 };
        FrameClock {
            frame_micros: MICROS_PER_UNIT / rate,
            rate,
            duration_micros,
            frames: 0,
            total_compute: 0,
            total_wait: 0,
            reach_is_enough: false,
        }
    }

    /// A clock like `new`'s that stops once simulated time reaches the
    /// duration, rather than once it is past it.
    pub fn new_inclusive(fr: u32, debug: bool, duration_micros: u64) -> (r: FrameClock)
        requires
            debug || fr > 0,
        ensures
            r.wf(),
            r.rate == (if debug { 1 } else { fr as u64 }),
            r.duration_micros == duration_micros,
            r.frames == 0,
            r.total_compute == 0,
            r.total_wait == 0,
            r.reach_is_enough,
    {
        let mut r = FrameClock::new(fr, debug, duration_micros);
        r.reach_is_enough = true;
        r
    }

    /// Records a frame whose computation took `compute_micros`, and says
    /// whether to wait for the rest of the frame interval or to stop.
    pub fn finish_frame(&mut self, compute_micros: u64) -> (a: FrameAction)
        requires
            old(self).wf(),
        ensures
            final(self).rate == old(self).rate,
            final(self).frame_micros == old(self).frame_micros,
            final(self).duration_micros == old(self).duration_micros,
            final(self).reach_is_enough == old(self).reach_is_enough,
            final(self).frames == old(self).frames + 1,
            final(self).total_compute == add_saturating(
                old(self).total_compute as int,
                compute_micros as int,
            ),
            final(self).total_wait == add_saturating(
                old(self).total_wait as int,
                wait_for(old(self).frame_micros as int, compute_micros as int),
            ),
            a == (if stops_after(
                final(self).frames as int,
                final(self).rate as int,
                final(self).duration_micros as int,
                final(self).reach_is_enough,
            ) {
                FrameAction::Stop
            } else {
                FrameAction::Wait {
                    micros: wait_for(old(self).frame_micros as int, compute_micros as int) as u64,
                }
            }),
            a is Wait ==> final(self).wf(),
    {
        let wait: u64 = if self.frame_micros >= compute_micros {
            self.frame_micros - compute_micros
        } else {
            0
        };
        self.total_compute = self.total_compute.saturating_add(compute_micros);
        self.total_wait = self.total_wait.saturating_add(wait);
        proof {
            assert(self.duration_micros as int * self.rate as int <= u64::MAX as int * u64::MAX as int)
                by (nonlinear_arith);
        }
        self.frames = self.frames + 1;
        let elapsed: u128 = self.frames * (MICROS_PER_UNIT as u128);
        let limit: u128 = (self.duration_micros as u128) * (self.rate as u128);
        if elapsed > limit || (self.reach_is_enough && elapsed == limit) {
            FrameAction::Stop
        } else {
            FrameAction::Wait { micros: wait }
        }
    }

    /// Share of the wall-clock time spent computing, in percent; `None`
    /// before any time has been recorded.
    pub fn load_percent(&self) -> (r: Option<u64>)
        ensures
            self.total_compute as int + self.total_wait as int == 0 ==> r is None,
            self.total_compute as int + self.total_wait as int > 0 ==> r == Some(
                (self.total_compute as int * 100 / (self.total_compute as int
                    + self.total_wait as int)) as u64,
            ),
    {
        let total: u128 = (self.total_compute as u128) + (self.total_wait as u128);
        if total == 0 {
            None
        } else {
            let pct: u128 = (self.total_compute as u128) * 100 / total;
            proof {
                assert(self.total_compute as int * 100 / total as int <= 100) by (nonlinear_arith)
                    requires
                        self.total_compute as int <= total as int,
                        total > 0,
                ;
            }
            Some(pct as u64)
        }
    }
}

/// A clock started with `new` draws exactly `run_length` frames: simulated
/// time is not past the duration after any earlier frame, and is past it
/// after that one.
pub proof fn lemma_run_length(rate: nat, duration: nat)
    requires
        rate > 0,
    ensures
        run_length(rate as int, duration as int) >= 1,
        past_duration(run_length(rate as int, duration as int), rate as int, duration as int),
        forall|j: int|
            0 <= j < run_length(rate as int, duration as int) ==> !past_duration(
                j,
                rate as int,
                duration as int,
            ),
{
    let total = duration * rate;
    let m = MICROS_PER_UNIT as int;
    lemma_fundamental_div_mod(total as int, m);
    let q = total as int / m;
    assert(q >= 0) by (nonlinear_arith)
        requires
            total >= 0,
            m > 0,
            q == total as int / m,
    ;
    assert forall|j: int| 0 <= j < q + 1 implies !past_duration(j, rate as int, duration as int) by {
        assert(j * m <= q * m) by (nonlinear_arith)
            requires
                j <= q,
                m > 0,
        ;
    }
}

/// A clock started with `new_inclusive` draws exactly `inclusive_run_length`
/// frames: time has not reached the duration after any earlier frame from the
/// first on, and has reached it after that one.
pub proof fn lemma_inclusive_run_length(rate: nat, duration: nat)
    requires
        rate > 0,
    ensures
        inclusive_run_length(rate as int, duration as int) >= 1,
        reached_duration(
            inclusive_run_length(rate as int, duration as int),
            rate as int,
            duration as int,
        ),
        forall|j: int|
            1 <= j < inclusive_run_length(rate as int, duration as int) ==> !reached_duration(
                j,
                rate as int,
                duration as int,
            ),
{
    let total = (duration * rate) as int;
    let m = MICROS_PER_UNIT as int;
    assert(total >= 0) by (nonlinear_arith)
        requires
            total == duration * rate,
    ;
    if total > 0 {
        let k = (total + m - 1) / m;
        lemma_fundamental_div_mod(total + m - 1, m);
        assert(k >= 1) by (nonlinear_arith)
            requires
                total >= 1,
                m > 0,
                total + m - 1 == m * k + (total + m - 1) % m,
                0 <= (total + m - 1) % m < m,
        ;
        assert(k * m >= total) by (nonlinear_arith)
            requires
                total + m - 1 == m * k + (total + m - 1) % m,
                (total + m - 1) % m < m,
        ;
        assert forall|j: int| 1 <= j < k implies !reached_duration(j, rate as int, duration as int) by {
            assert(j * m < total) by (nonlinear_arith)
                requires
                    j <= k - 1,
                    m > 0,
                    total + m - 1 == m * k + (total + m - 1) % m,
                    0 <= (total + m - 1) % m,
            ;
        }
    }
}

} // verus!
