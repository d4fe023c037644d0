use vstd::prelude::*;

verus! {

/// The fresh-measurement runs of the results section: whether one is under
/// way, and how many have finished.
pub struct SimulationRuns {
    pub running: bool,
    pub run_count: u32,
}

impl SimulationRuns {
    /// No run yet.
    pub fn new() -> (r: SimulationRuns)
        ensures
            !r.running,
            r.run_count == 0,
    {
        SimulationRuns { running: false, run_count: 0 }
    }

    /// Starts a run unless one is under way.
    pub fn try_begin(&mut self) -> (started: bool)
        ensures
            started == !old(self).running,
            final(self).running,
            final(self).run_count == old(self).run_count,
    {
        if self.running {
            return false;
        }
        self.running = true;
        true
    }

    /// Ends the run under way and counts it.
    pub fn finish(&mut self)
        requires
            old(self).run_count < u32::MAX,
        ensures
            !final(self).running,
            final(self).run_count == old(self).run_count + 1,
    {
        self.running = false;
        self.run_count = self.run_count + 1;
    }

    /// Whether any run has finished, so that measured figures can be shown.
    pub fn has_results(&self) -> (r: bool)
        ensures
            r == (self.run_count > 0),
    {
        self.run_count > 0
    }
}

} // verus!
