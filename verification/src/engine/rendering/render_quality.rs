use vstd::prelude::*;

verus! {

/// How many workers present a frame side by side.
#[derive(Debug, Clone, Copy, PartialEq, Eq, Structural)]
pub enum RenderQuality {
    /// One worker.
    Low,
    /// Two workers.
    Medium,
    /// Four workers.
    High,
}

impl RenderQuality {
    /// The number of workers that the quality stands for.
    pub open spec fn workers(self) -> nat {
        match self {
            RenderQuality::Low => 1,
            RenderQuality::Medium => 2,
            RenderQuality::High => 4,
        }
    }

    /// The number of workers that the quality stands for.
    pub fn threads(&self) -> (count: usize)
        ensures
            count == self.workers(),
    {
        match self {
            RenderQuality::Low => 1,
            RenderQuality::Medium => 2,
            RenderQuality::High => 4,
        }
    }
}

} // verus!
