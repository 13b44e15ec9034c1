//! What the flowchart of a workflow shows beyond the workflow itself: how
//! far it is scrolled and which steps run or have run.

use vstd::prelude::*;

verus! {

/// The state of the flowchart.
#[derive(Debug, Clone, Default)]
pub struct FlowchartState {
    /// The first line that is shown.
    pub scroll: usize,
    /// The place of the step that runs, if one does.
    pub executing_step: Option<usize>,
    /// The places of the steps that have completed.
    pub completed_steps: Vec<usize>,
}

impl FlowchartState {
    /// Scrolls up by the lines given, as far as the first line.
    pub fn scroll_up(&mut self, amount: usize)
        ensures
            final(self).scroll == if old(self).scroll >= amount {
                old(self).scroll - amount
            } else {
                0
            },
            final(self).executing_step == old(self).executing_step,
            final(self).completed_steps == old(self).completed_steps,
    {
        self.scroll = if self.scroll >= amount {
            self.scroll - amount
        } else {
            0
        };
    }

    /// Scrolls down by the lines given.
    pub fn scroll_down(&mut self, amount: usize)
        requires
            old(self).scroll + amount <= usize::MAX,
        ensures
            final(self).scroll == old(self).scroll + amount,
            final(self).executing_step == old(self).executing_step,
            final(self).completed_steps == old(self).completed_steps,
    {
        self.scroll = self.scroll + amount;
    }

    /// Keeps the scroll position within a chart of the number of lines
    /// given, shown in a window of the height given: the last line never
    /// stands above the bottom of the window unless the chart is shorter.
    pub fn clamp_scroll(&mut self, line_count: usize, height: usize)
        ensures
            final(self).scroll == if line_count <= height {
                0
            } else if old(self).scroll > line_count - height {
                (line_count - height) as usize
            } else {
                old(self).scroll
            },
            final(self).executing_step == old(self).executing_step,
            final(self).completed_steps == old(self).completed_steps,
    {
        let most: usize = if line_count <= height {
            0
        } else {
            line_count - height
        };
        if self.scroll > most {
            self.scroll = most;
        }
    }

    /// Scrolls back to the first line.
    pub fn reset(&mut self)
        ensures
            final(self).scroll == 0,
            final(self).executing_step == old(self).executing_step,
            final(self).completed_steps == old(self).completed_steps,
    {
        self.scroll = 0;
    }

    /// Sets which step runs and which steps have completed.
    pub fn set_execution_state(&mut self, executing: Option<usize>, completed: &[usize])
        ensures
            final(self).scroll == old(self).scroll,
            final(self).executing_step == executing,
            final(self).completed_steps@ == completed@,
    {
        self.executing_step = executing;
        let mut steps: Vec<usize> = Vec::new();
        let mut i: usize = 0;
        while i < completed.len()
            invariant
                i <= completed@.len(),
                steps@ == completed@.take(i as int),
            decreases completed@.len() - i,
        {
            steps.push(completed[i]);
            i = i + 1;
            assert(steps@ =~= completed@.take(i as int));
        }
        assert(completed@.take(completed@.len() as int) =~= completed@);
        self.completed_steps = steps;
    }
}

} // verus!
