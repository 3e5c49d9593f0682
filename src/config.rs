use vstd::prelude::*;
use crate::flags::Flags;
use crate::plan::{SampleSetup, ScissorRect};

verus! {

/// Settings of a benchmark run.
#[derive(Clone, Copy, Debug, PartialEq, Eq, Structural)]
pub struct Config {
    /// Samples per scenario; one timer query each.
    pub num_queries: usize,
    /// Samples dropped from each end of a scenario's results.
    pub warmup_frames: usize,
    /// Instances per draw in the depth-rejected scenarios.
    pub num_rejects: usize,
    /// Limit each clear to a quarter of the screen.
    pub clear_scissored: bool,
}

/// What a scenario measures.
#[derive(Clone, Copy, Debug, PartialEq, Eq, Structural)]
pub enum ScenarioKind {
    /// Clear color and depth, time one full-screen draw that passes the
    /// depth test.
    ColorAndDepth,
    /// Clear color only, time draws that the depth test rejects.
    DepthRejected,
    /// Clear color only, time the clear.
    ColorClear,
}

/// One scenario of a run.
#[derive(Clone, Copy, Debug, PartialEq, Eq, Structural)]
pub struct Scenario {
    pub kind: ScenarioKind,
    /// Instances of the full-screen triangle per sample.
    pub num_draws: usize,
    /// How each sample is taken.
    pub setup: SampleSetup,
}

impl ScenarioKind {
    /// Name of the scenario in the report.
    pub fn label(&self) -> (r: &'static str)
        ensures
            r@ == match *self {
                ScenarioKind::ColorAndDepth => "color and depth"@,
                ScenarioKind::DepthRejected => "depth rejected"@,
                ScenarioKind::ColorClear => "color clear"@,
            },
    {
        match self {
            ScenarioKind::ColorAndDepth => "color and depth",
            ScenarioKind::DepthRejected => "depth rejected",
            ScenarioKind::ColorClear => "color clear",
        }
    }
}

impl Scenario {
    /// The draw count and the setup agree, and each sample draws.
    pub open spec fn wf(self) -> bool {
        &&& self.num_draws > 0
        &&& self.setup.instances == self.num_draws
    }
}

impl Config {
    /// A scenario keeps at least one sample, and the reject draw count is a
    /// positive GL instance count.
    pub open spec fn wf(self) -> bool {
        &&& 2 * self.warmup_frames < self.num_queries
        &&& 0 < self.num_rejects <= i32::MAX
    }

    /// The settings the benchmark runs with: 200 samples, 40 dropped from
    /// each end, 20 instances per rejected draw, no scissor.
    pub fn standard() -> (r: Config)
        ensures
            r.num_queries == 200,
            r.warmup_frames == 40,
            r.num_rejects == 20,
            !r.clear_scissored,
            r.wf(),
    {
        Config { num_queries: 200, warmup_frames: 40, num_rejects: 20, clear_scissored: false }
    }

    /// The clear's scissor rectangle on a `width` by `height` screen, where
    /// clears are scissored.
    pub fn scissor(&self, width: u32, height: u32) -> (r: Option<ScissorRect>)
        ensures
            self.clear_scissored ==> r == Some(
                ScissorRect { x: 1, y: 1, width: (width / 2) as i32, height: (height / 2) as i32 },
            ),
            !self.clear_scissored ==> r is None,
    {
        if self.clear_scissored {
            Some(ScissorRect::quarter_screen(width, height))
        } else {
            None
        }
    }

    /// The scenarios of a run on a `width` by `height` screen, in the order
    /// they run: color and depth with one draw per sample, then the
    /// depth-rejected draws, then the color clear.
    pub fn scenarios(&self, width: u32, height: u32) -> (r: Vec<Scenario>)
        requires
            self.wf(),
        ensures
            r@.len() == 3,
            forall|i: int| 0 <= i < 3 ==> (#[trigger] r@[i]).wf(),
            forall|i: int| 0 <= i < 3 ==> (#[trigger] r@[i]).setup.scissor == (if self.clear_scissored {
                Some(ScissorRect { x: 1, y: 1, width: (width / 2) as i32, height: (height / 2) as i32 })
            } else {
                None::<ScissorRect>
            }),
            r@[0].kind == ScenarioKind::ColorAndDepth,
            r@[0].num_draws == 1,
            r@[0].setup.clear_depth,
            r@[0].setup.flags == Flags::spec_draw(),
            r@[1].kind == ScenarioKind::DepthRejected,
            r@[1].num_draws == self.num_rejects,
            !r@[1].setup.clear_depth,
            r@[1].setup.flags == Flags::spec_draw(),
            r@[2].kind == ScenarioKind::ColorClear,
            r@[2].num_draws == self.num_rejects,
            !r@[2].setup.clear_depth,
            r@[2].setup.flags == Flags::spec_clear(),
    {
        let scissor = self.scissor(width, height);
        let rejects = self.num_rejects as i32;
        let mut r: Vec<Scenario> = Vec::new();
        r.push(
            Scenario {
                kind: ScenarioKind::ColorAndDepth,
                num_draws: 1,
                setup: SampleSetup { clear_depth: true, instances: 1, flags: Flags::draw(), scissor },
            },
        );
        r.push(
            Scenario {
                kind: ScenarioKind::DepthRejected,
                num_draws: self.num_rejects,
                setup: SampleSetup {
                    clear_depth: false,
                    instances: rejects,
                    flags: Flags::draw(),
                    scissor,
                },
            },
        );
        r.push(
            Scenario {
                kind: ScenarioKind::ColorClear,
                num_draws: self.num_rejects,
                setup: SampleSetup {
                    clear_depth: false,
                    instances: rejects,
                    flags: Flags::clear(),
                    scissor,
                },
            },
        );
        r
    }
}

} // verus!
