//! Small things around the console: the counter of frames per second.

use std::time::Duration;
use std::time::Instant;
use vstd::prelude::*;

verus! {

/// A moment of the host's clock. Nothing of it is known to a proof.
#[verifier::external_type_specification]
#[verifier::external_body]
pub struct ExInstant(Instant);

/// Calls `Instant::now`: the present moment. Two calls need not agree, so
/// nothing is claimed of the result.
#[verifier::external_body]
fn now() -> Instant {
    Instant::now()
}

/// Calls `Instant::elapsed`: the time since the moment `timer`. The answer
/// follows the host's clock, so nothing is claimed of it.
#[verifier::external_body]
fn elapsed(timer: &Instant) -> Duration {
    timer.elapsed()
}

/// Calls `Duration::as_secs`: the whole seconds of a duration. A duration is
/// opaque to a proof, so nothing is claimed of the result.
#[verifier::external_body]
fn whole_seconds(duration: &Duration) -> u64 {
    duration.as_secs()
}

/// Counts the frames that are shown in each second.
pub struct FpsCounter {
    count: u32,
    timer: Instant,
}

impl FpsCounter {
    /// The frames counted in the running second.
    pub closed spec fn counted(&self) -> u32 {
        self.count
    }

    /// The count after one more frame; it stays at the largest number that
    /// it can hold.
    pub open spec fn spec_next_count(count: u32) -> u32 {
        if count == u32::MAX {
            count
        } else {
            (count + 1) as u32
        }
    }

    /// A counter that starts its first second now, with no frame counted.
    pub fn new() -> (r: FpsCounter)
        ensures
            r.counted() == 0,
    {
        FpsCounter { count: 0, timer: now() }
    }

    /// Counts one frame, given the whole seconds that have passed since the
    /// running second began. Where a second is over, the number of frames
    /// counted in it is returned and the count starts again at zero.
    pub fn count_frame(&mut self, seconds_passed: u64) -> (r: Option<u32>)
        ensures
            seconds_passed >= 1 ==> r == Some(Self::spec_next_count(old(self).counted())) && final(self).counted() == 0,
            seconds_passed == 0 ==> r.is_none() && final(self).counted() == Self::spec_next_count(
                old(self).counted(),
            ),
    {
        self.count = self.count.saturating_add(1);
        if seconds_passed >= 1 {
            let fps: u32 = self.count;
            self.count = 0;
            Some(fps)
        } else {
            None
        }
    }

    /// Counts one frame by the host's clock. Where a second is over since the
    /// running second began, the number of frames counted in it is returned,
    /// the count starts again at zero and the next second begins now.
    pub fn tick(&mut self) -> (r: Option<u32>)
        ensures
            match r {
                Some(fps) => fps == Self::spec_next_count(old(self).counted()) && final(self).counted() == 0,
                None => final(self).counted() == Self::spec_next_count(old(self).counted()),
            },
    {
        let passed: Duration = elapsed(&self.timer);
        let r: Option<u32> = self.count_frame(whole_seconds(&passed));
        if r.is_some() {
            self.timer = now();
        }
        r
    }
}

impl Default for FpsCounter {
    fn default() -> (r: FpsCounter)
        ensures
            r.counted() == 0,
    {
        FpsCounter::new()
    }
}

} // verus!
