use vstd::prelude::*;

use crate::ids::Resource;

verus! {

/// Frame timing of a window, in milliseconds.
pub struct Time {
    /// Millisecond of the day
    pub started: u32,
    /// Time elapsed since program started
    pub elapsed: u32,
    /// Current frame index
    pub frame_count: u32,
    pub(crate) last_frame_count: u32,
    pub(crate) update_frame_count: u32,
    /// Time elapsed since last frame in milliseconds
    pub delta: u32,
    pub(crate) last_delta: u32,
    pub(crate) average_delta: u32,
}

/// What is reported about the frames drawn since the last report: how many
/// there were and the mean time between them.
#[derive(Clone, Copy, Debug, PartialEq, Eq, Structural)]
pub struct FrameStats {
    pub frames: u32,
    pub average_delta: u32,
}

/// The distance between two timestamps.
pub open spec fn time_distance(a: u32, b: u32) -> u32 {
    if a >= b {
        (a - b) as u32
    } else {
        (b - a) as u32
    }
}

/// The distance between two timestamps does not depend on their order, and
/// added to the earlier one it gives the later one.
pub proof fn law_time_distance(a: u32, b: u32)
    ensures
        time_distance(a, b) == time_distance(b, a),
        a <= b ==> a + time_distance(a, b) == b,
        b <= a ==> b + time_distance(a, b) == a,
{
}

/// How long a report covers before the next one is due.
pub const REPORT_INTERVAL: u32 = 1000;

impl Time {
    /// The frame count at the last report.
    pub closed spec fn last_frame_count_spec(&self) -> u32 {
        self.last_frame_count
    }

    /// The time after which the next report is due; 0 before the first frame.
    pub closed spec fn update_frame_count_spec(&self) -> u32 {
        self.update_frame_count
    }

    /// The timestamp of the last frame; 0 before the first frame.
    pub closed spec fn last_delta_spec(&self) -> u32 {
        self.last_delta
    }

    /// The sum of the frame deltas since the last report.
    pub closed spec fn average_delta_spec(&self) -> u32 {
        self.average_delta
    }

    /// The millisecond of the day at which timing started.
    pub closed spec fn started_spec(&self) -> u32 {
        self.started
    }

    /// The time elapsed since the program started.
    pub closed spec fn elapsed_spec(&self) -> u32 {
        self.elapsed
    }

    /// The number of frames drawn so far.
    pub closed spec fn frame_count_spec(&self) -> u32 {
        self.frame_count
    }

    /// The time between the last two frames.
    pub closed spec fn delta_spec(&self) -> u32 {
        self.delta
    }

    /// A fresh timer: every count and time at 0.
    pub fn new() -> (r: Self)
        ensures
            r.started_spec() == 0,
            r.elapsed_spec() == 0,
            r.frame_count_spec() == 0,
            r.delta_spec() == 0,
            r.last_frame_count_spec() == 0,
            r.update_frame_count_spec() == 0,
            r.last_delta_spec() == 0,
            r.average_delta_spec() == 0,
    {
        Time {
            started: 0,
            elapsed: 0,
            frame_count: 0,
            last_frame_count: 0,
            update_frame_count: 0,
            delta: 0,
            last_delta: 0,
            average_delta: 0,
        }
    }

    /// Whether a frame at timestamp `time` can be accounted for without a
    /// count or a time going past `u32::MAX`, and with the counts consistent.
    pub fn frame_fits(&self, time: u32) -> (r: bool)
        ensures
            r == (self.last_frame_count_spec() <= self.frame_count_spec() && self.frame_count_spec()
                < u32::MAX && (self.last_delta_spec() != 0 ==> self.average_delta_spec()
                + time_distance(time, self.last_delta_spec()) <= u32::MAX) && (self.last_delta_spec()
                != 0 ==> self.elapsed_spec() + time_distance(time, self.last_delta_spec()) <= u32::MAX)
                && (time > self.update_frame_count_spec() ==> time + REPORT_INTERVAL <= u32::MAX)),
    {
        if self.last_frame_count > self.frame_count || self.frame_count == u32::MAX {
            return false;
        }
        if self.last_delta != 0 {
            let distance = if time >= self.last_delta {
                time - self.last_delta
            } else {
                self.last_delta - time
            };
            if self.average_delta > u32::MAX - distance {
                return false;
            }
            if self.elapsed > u32::MAX - distance {
                return false;
            }
        }
        if time > self.update_frame_count && time > u32::MAX - REPORT_INTERVAL {
            return false;
        }
        true
    }

    /// Accounts for a frame drawn at timestamp `time`. From the second frame
    /// on, `delta` is the distance to the previous frame and adds to the
    /// running sum and to `elapsed`. Once `time` passes the time a report is due, a report is
    /// made (except for the first one, which only schedules the next) of the
    /// frames since the last report and their mean delta, the sum restarts,
    /// and the next report is due one interval after `time`.
    pub fn frame(&mut self, time: u32) -> (r: Option<FrameStats>)
        requires
            old(self).last_frame_count_spec() <= old(self).frame_count_spec(),
            old(self).frame_count_spec() < u32::MAX,
            old(self).last_delta_spec() != 0 ==> old(self).average_delta_spec() + time_distance(
                time,
                old(self).last_delta_spec(),
            ) <= u32::MAX,
            old(self).last_delta_spec() != 0 ==> old(self).elapsed_spec() + time_distance(
                time,
                old(self).last_delta_spec(),
            ) <= u32::MAX,
            time > old(self).update_frame_count_spec() ==> time + REPORT_INTERVAL <= u32::MAX,
        ensures
            ({
                let t = *old(self);
                let n = *final(self);
                let delta = if t.last_delta_spec() != 0 {
                    time_distance(time, t.last_delta_spec())
                } else {
                    t.delta_spec()
                };
                let sum = if t.last_delta_spec() != 0 {
                    t.average_delta_spec() + delta
                } else {
                    t.average_delta_spec() as int
                };
                let count = t.frame_count_spec() + 1;
                let due = time > t.update_frame_count_spec();
                let report = due && t.update_frame_count_spec() != 0;
                &&& n.delta_spec() == delta
                &&& n.last_delta_spec() == time
                &&& n.frame_count_spec() == count
                &&& n.started_spec() == t.started_spec()
                &&& n.elapsed_spec() == (if t.last_delta_spec() != 0 {
                    t.elapsed_spec() + delta
                } else {
                    t.elapsed_spec() as int
                })
                &&& n.update_frame_count_spec() == (if due {
                    time + REPORT_INTERVAL
                } else {
                    t.update_frame_count_spec() as int
                })
                &&& n.last_frame_count_spec() == (if report {
                    count
                } else {
                    t.last_frame_count_spec() as int
                })
                &&& n.average_delta_spec() == (if report {
                    0
                } else {
                    sum
                })
                &&& r == (if report {
                    Some(
                        FrameStats {
                            frames: (count - t.last_frame_count_spec()) as u32,
                            average_delta: (sum / (count - t.last_frame_count_spec())) as u32,
                        },
                    )
                } else {
                    None::<FrameStats>
                })
                &&& n.last_frame_count_spec() <= n.frame_count_spec()
            }),
    {
        if self.last_delta != 0 {
            self.delta = if time >= self.last_delta {
                time - self.last_delta
            } else {
                self.last_delta - time
            };
            self.average_delta = self.average_delta + self.delta;
            self.elapsed = self.elapsed + self.delta;
        }
        self.last_delta = time;

        self.frame_count = self.frame_count + 1;

        let mut report: Option<FrameStats> = None;
        if time > self.update_frame_count {
            if self.update_frame_count != 0 {
                let frames = self.frame_count - self.last_frame_count;
                self.last_frame_count = self.frame_count;

                let average_delta = self.average_delta / frames;
                report = Some(FrameStats { frames, average_delta });

                self.average_delta = 0;
            }
            self.update_frame_count = time + REPORT_INTERVAL;
        }
        report
    }
}

impl Resource for Time {}

impl Default for Time {
    fn default() -> (r: Self)
        ensures
            r.started_spec() == 0,
            r.elapsed_spec() == 0,
            r.frame_count_spec() == 0,
            r.delta_spec() == 0,
            r.last_frame_count_spec() == 0,
            r.update_frame_count_spec() == 0,
            r.last_delta_spec() == 0,
            r.average_delta_spec() == 0,
    {
        Time::new()
    }
}

} // verus!
